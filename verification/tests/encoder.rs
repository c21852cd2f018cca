use termcolor::ansi::{ansi_color, ansi_spec};
use termcolor::{Ansi, Color, ColorSpec, HyperlinkSpec, NoColor, WriteColor};

fn styled(spec: &ColorSpec) -> Vec<u8> {
    let mut out: Vec<u8> = Vec::new();
    ansi_spec(&mut out, spec).unwrap();
    out
}

fn colored(color: Color, bg: bool) -> Vec<u8> {
    let mut out: Vec<u8> = Vec::new();
    ansi_color(&mut out, &color, bg).unwrap();
    out
}

fn intense(color: Color, fg: bool) -> Vec<u8> {
    let mut w = Ansi::new(Vec::new());
    w.write_color(fg, &color, true).unwrap();
    w.into_inner()
}

#[test]
fn bold_red_with_reset() {
    let mut spec = ColorSpec::new();
    spec.set_bold(true).set_fg(Some(Color::Red));
    assert!(spec.reset());
    assert_eq!(styled(&spec), b"\x1B[0m\x1B[1m\x1B[31m".to_vec());
}

#[test]
fn intense_green_without_reset() {
    let mut spec = ColorSpec::new();
    spec.set_fg(Some(Color::Green)).set_intense(true).set_reset(false);
    assert_eq!(styled(&spec), b"\x1B[38;5;10m\x1B[1m".to_vec());
}

#[test]
fn named_colors_normal() {
    let table = [
        (Color::Black, 0u8),
        (Color::Red, 1),
        (Color::Green, 2),
        (Color::Yellow, 3),
        (Color::Blue, 4),
        (Color::Magenta, 5),
        (Color::Cyan, 6),
        (Color::White, 7),
    ];
    for (color, n) in table {
        assert_eq!(colored(color, false), format!("\x1B[3{}m", n).into_bytes());
        assert_eq!(colored(color, true), format!("\x1B[4{}m", n).into_bytes());
    }
}

#[test]
fn named_colors_intense() {
    let table = [
        (Color::Black, 8u8),
        (Color::Blue, 12),
        (Color::Green, 10),
        (Color::Red, 9),
        (Color::Cyan, 14),
        (Color::Magenta, 13),
        (Color::Yellow, 11),
        (Color::White, 15),
    ];
    for (color, n) in table {
        assert_eq!(intense(color, true), format!("\x1B[38;5;{}m", n).into_bytes());
        assert_eq!(intense(color, false), format!("\x1B[48;5;{}m", n).into_bytes());
    }
}

#[test]
fn palette_boundaries() {
    assert_eq!(colored(Color::Ansi256(0), false), b"\x1B[38;5;0m".to_vec());
    assert_eq!(colored(Color::Ansi256(255), false), b"\x1B[38;5;255m".to_vec());
    assert_eq!(colored(Color::Ansi256(0), true), b"\x1B[48;5;0m".to_vec());
    assert_eq!(colored(Color::Ansi256(255), true), b"\x1B[48;5;255m".to_vec());
    assert_eq!(intense(Color::Ansi256(7), true), b"\x1B[38;5;7m".to_vec());
}

#[test]
fn palette_has_no_leading_zeros() {
    for n in 0..=255u8 {
        assert_eq!(colored(Color::Ansi256(n), false), format!("\x1B[38;5;{}m", n).into_bytes());
    }
}

#[test]
fn rgb_boundaries() {
    assert_eq!(colored(Color::Rgb(0, 0, 0), false), b"\x1B[38;2;0;0;0m".to_vec());
    assert_eq!(colored(Color::Rgb(255, 255, 255), false), b"\x1B[38;2;255;255;255m".to_vec());
    assert_eq!(colored(Color::Rgb(0, 0, 0), true), b"\x1B[48;2;0;0;0m".to_vec());
    assert_eq!(colored(Color::Rgb(255, 255, 255), true), b"\x1B[48;2;255;255;255m".to_vec());
    assert_eq!(colored(Color::Rgb(1, 20, 103), false), b"\x1B[38;2;1;20;103m".to_vec());
    assert_eq!(intense(Color::Rgb(9, 10, 100), false), b"\x1B[48;2;9;10;100m".to_vec());
}

#[test]
fn every_attribute_in_fixed_order() {
    let mut spec = ColorSpec::new();
    spec.set_bg(Some(Color::Blue))
        .set_strikethrough(true)
        .set_underline(true)
        .set_italic(true)
        .set_dimmed(true)
        .set_bold(true)
        .set_fg(Some(Color::Ansi256(200)));
    assert_eq!(
        styled(&spec),
        b"\x1B[0m\x1B[1m\x1B[2m\x1B[3m\x1B[4m\x1B[9m\x1B[38;5;200m\x1B[44m".to_vec()
    );
}

#[test]
fn order_of_setting_does_not_matter() {
    let mut a = ColorSpec::new();
    a.set_bold(true).set_italic(true).set_fg(Some(Color::Cyan)).set_bg(Some(Color::Red));
    let mut b = ColorSpec::new();
    b.set_bg(Some(Color::Red)).set_fg(Some(Color::Cyan)).set_italic(true).set_bold(true);
    assert_eq!(a, b);
    assert_eq!(styled(&a), styled(&b));
}

#[test]
fn intense_without_foreground_adds_no_bold() {
    let mut spec = ColorSpec::new();
    spec.set_intense(true).set_bg(Some(Color::Red)).set_reset(false);
    assert_eq!(styled(&spec), b"\x1B[48;5;9m".to_vec());
}

#[test]
fn empty_style_is_only_a_reset() {
    assert_eq!(styled(&ColorSpec::new()), b"\x1B[0m".to_vec());
    let mut spec = ColorSpec::new();
    spec.set_reset(false);
    assert_eq!(styled(&spec), Vec::<u8>::new());
}

#[test]
fn ansi_writer_applies_styles_inline() {
    let mut w = Ansi::new(Vec::new());
    let mut spec = ColorSpec::new();
    spec.set_fg(Some(Color::Green));
    w.write_all(b"a").unwrap();
    w.set_color(&spec).unwrap();
    w.write_all(b"b").unwrap();
    w.reset().unwrap();
    assert!(w.supports_color());
    assert!(w.supports_hyperlinks());
    assert!(!w.is_synchronous());
    assert_eq!(w.into_inner(), b"a\x1B[0m\x1B[32mb\x1B[0m".to_vec());
}

#[test]
fn ansi_writer_hyperlinks() {
    let mut w = Ansi::new(Vec::new());
    w.set_hyperlink(&HyperlinkSpec::open(b"https://example.com/a b")).unwrap();
    w.write_all(b"label").unwrap();
    w.set_hyperlink(&HyperlinkSpec::close()).unwrap();
    assert_eq!(w.get_ref().as_slice(), &b"\x1B]8;;https://example.com/a b\x1B\\label\x1B]8;;\x1B\\"[..]);
}

#[test]
fn no_color_writer_never_writes_a_style() {
    let mut w = NoColor::new(Vec::new());
    let mut spec = ColorSpec::new();
    spec.set_bold(true).set_fg(Some(Color::Red)).set_intense(true);
    for _ in 0..5 {
        assert!(w.set_color(&spec).is_ok());
        assert!(w.set_hyperlink(&HyperlinkSpec::open(b"x")).is_ok());
        assert!(w.set_hyperlink(&HyperlinkSpec::close()).is_ok());
        assert!(w.reset().is_ok());
    }
    assert!(w.get_ref().is_empty());
    assert!(!w.supports_color());
    assert!(!w.supports_hyperlinks());
    assert_eq!(w.write(b"text").unwrap(), 4);
    w.flush().unwrap();
    assert_eq!(w.into_inner(), b"text".to_vec());
}
