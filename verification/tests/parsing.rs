use termcolor::{
    Color, ColorChoice, ColorSpec, ColorSpecParseError, ParseColorError, ParseColorErrorKind,
};

fn color(s: &str) -> Result<Color, ParseColorError> {
    Color::from_str(s)
}

fn kind_of(s: &str) -> ParseColorErrorKind {
    color(s).unwrap_err().kind()
}

#[test]
fn canonical_names() {
    assert_eq!(color("black"), Ok(Color::Black));
    assert_eq!(color("blue"), Ok(Color::Blue));
    assert_eq!(color("green"), Ok(Color::Green));
    assert_eq!(color("red"), Ok(Color::Red));
    assert_eq!(color("cyan"), Ok(Color::Cyan));
    assert_eq!(color("magenta"), Ok(Color::Magenta));
    assert_eq!(color("yellow"), Ok(Color::Yellow));
    assert_eq!(color("white"), Ok(Color::White));
}

#[test]
fn names_in_any_case() {
    let names = [
        ("black", Color::Black),
        ("blue", Color::Blue),
        ("green", Color::Green),
        ("red", Color::Red),
        ("cyan", Color::Cyan),
        ("magenta", Color::Magenta),
        ("yellow", Color::Yellow),
        ("white", Color::White),
    ];
    for (name, expected) in names {
        assert_eq!(color(&name.to_uppercase()), Ok(expected));
        let mut mixed = String::new();
        for (i, c) in name.chars().enumerate() {
            if i % 2 == 0 {
                mixed.push(c.to_ascii_uppercase());
            } else {
                mixed.push(c);
            }
        }
        assert_eq!(color(&mixed), Ok(expected));
    }
    assert_eq!(color("ReD"), Ok(Color::Red));
    assert_eq!(color("mAGENTA"), Ok(Color::Magenta));
}

#[test]
fn name_with_a_letter_that_only_unicode_lowercases() {
    // U+212A KELVIN SIGN has the lowercase form `k`.
    assert_eq!(color("blac\u{212A}"), Ok(Color::Black));
}

#[test]
fn names_are_not_trimmed() {
    assert_eq!(kind_of(" red"), ParseColorErrorKind::InvalidName);
    assert_eq!(kind_of("red "), ParseColorErrorKind::InvalidName);
}

#[test]
fn palette_index_decimal() {
    assert_eq!(color("0"), Ok(Color::Ansi256(0)));
    assert_eq!(color("7"), Ok(Color::Ansi256(7)));
    assert_eq!(color("255"), Ok(Color::Ansi256(255)));
    assert_eq!(color("007"), Ok(Color::Ansi256(7)));
    assert_eq!(color("+12"), Ok(Color::Ansi256(12)));
}

#[test]
fn palette_index_hexadecimal() {
    assert_eq!(color("0x0A"), Ok(Color::Ansi256(10)));
    assert_eq!(color("0xff"), Ok(Color::Ansi256(255)));
    assert_eq!(color("0xFF"), Ok(Color::Ansi256(255)));
    assert_eq!(color("0x0"), Ok(Color::Ansi256(0)));
    assert_eq!(color("0x+f"), Ok(Color::Ansi256(15)));
}

#[test]
fn rgb_triples() {
    assert_eq!(color("0,0,0"), Ok(Color::Rgb(0, 0, 0)));
    assert_eq!(color("255,255,255"), Ok(Color::Rgb(255, 255, 255)));
    assert_eq!(color("1,20,103"), Ok(Color::Rgb(1, 20, 103)));
    assert_eq!(color("0x10,16,0xff"), Ok(Color::Rgb(16, 16, 255)));
}

#[test]
fn invalid_palette_index() {
    assert_eq!(kind_of("300"), ParseColorErrorKind::InvalidAnsi256);
    assert_eq!(kind_of("256"), ParseColorErrorKind::InvalidAnsi256);
    assert_eq!(kind_of("abc"), ParseColorErrorKind::InvalidAnsi256);
    assert_eq!(kind_of(""), ParseColorErrorKind::InvalidAnsi256);
    assert_eq!(color("300").unwrap_err().invalid(), "300");
}

#[test]
fn invalid_name() {
    assert_eq!(kind_of("purple"), ParseColorErrorKind::InvalidName);
    assert_eq!(kind_of("0x100"), ParseColorErrorKind::InvalidName);
    assert_eq!(kind_of("0X1F"), ParseColorErrorKind::InvalidName);
    assert_eq!(kind_of("-1"), ParseColorErrorKind::InvalidName);
    assert_eq!(kind_of("+"), ParseColorErrorKind::InvalidName);
    assert_eq!(kind_of("1 2"), ParseColorErrorKind::InvalidName);
    assert_eq!(color("purple").unwrap_err().invalid(), "purple");
}

#[test]
fn invalid_rgb_triple() {
    assert_eq!(kind_of("1,2"), ParseColorErrorKind::InvalidRgb);
    assert_eq!(kind_of("1,2,3,4"), ParseColorErrorKind::InvalidRgb);
    assert_eq!(kind_of("1,2,256"), ParseColorErrorKind::InvalidRgb);
    assert_eq!(kind_of("1,,3"), ParseColorErrorKind::InvalidRgb);
    assert_eq!(kind_of(","), ParseColorErrorKind::InvalidRgb);
    assert_eq!(kind_of("1, 2,3"), ParseColorErrorKind::InvalidRgb);
    assert_eq!(kind_of("red,green,blue"), ParseColorErrorKind::InvalidRgb);
    assert_eq!(color("1,2").unwrap_err().invalid(), "1,2");
}

#[test]
fn numeric_parser_alone_knows_no_names() {
    assert_eq!(Color::from_str_numeric("17"), Ok(Color::Ansi256(17)));
    assert_eq!(
        Color::from_str_numeric("red").unwrap_err().kind(),
        ParseColorErrorKind::InvalidName
    );
}

#[test]
fn lookup_by_lowercase_name() {
    assert_eq!(Color::from_lowercase("red", "RED"), Ok(Color::Red));
    assert_eq!(Color::from_lowercase("12", "12"), Ok(Color::Ansi256(12)));
    // The name decides; the text is only read where the name is none.
    assert_eq!(Color::from_lowercase("blue", "12"), Ok(Color::Blue));
    let e = Color::from_lowercase("RED", "RED").unwrap_err();
    assert_eq!(e.kind(), ParseColorErrorKind::InvalidName);
    assert_eq!(e.invalid(), "RED");
}

#[test]
fn color_error_messages() {
    assert_eq!(
        color("purple").unwrap_err().to_string(),
        "unrecognized color name 'purple'. Choose from: black, blue, green, red, cyan, magenta, yellow, white"
    );
    assert_eq!(
        color("300").unwrap_err().to_string(),
        "unrecognized ansi256 color number, should be '[0-255]' (or a hex number), but is '300'"
    );
    assert_eq!(
        color("1,2").unwrap_err().to_string(),
        "unrecognized RGB color triple, should be '[0-255],[0-255],[0-255]' (or a hex triple), but is '1,2'"
    );
    assert_eq!(color("purple").unwrap_err().description(), "unrecognized color name");
    assert_eq!(color("300").unwrap_err().description(), "invalid ansi256 color number");
    assert_eq!(color("1,2").unwrap_err().description(), "invalid RGB color triple");
}

#[test]
fn color_through_the_std_trait() {
    assert_eq!("Green".parse::<Color>(), Ok(Color::Green));
    assert!("nope".parse::<Color>().is_err());
}

#[test]
fn style_with_colors_and_flag() {
    let spec = ColorSpec::from_str("fg:blue,bold,bg:0x0A").unwrap();
    assert_eq!(spec.fg(), Some(&Color::Blue));
    assert!(spec.bold());
    assert_eq!(spec.bg(), Some(&Color::Ansi256(10)));
    assert!(!spec.dimmed());
    assert!(!spec.italic());
    assert!(!spec.underline());
    assert!(!spec.strikethrough());
    assert!(!spec.intense());
    assert!(spec.reset());
}

#[test]
fn style_every_word() {
    let spec =
        ColorSpec::from_str("bold,dimmed,underline,italic,intense,strikethrough,noreset").unwrap();
    assert!(spec.bold());
    assert!(spec.dimmed());
    assert!(spec.underline());
    assert!(spec.italic());
    assert!(spec.intense());
    assert!(spec.strikethrough());
    assert!(!spec.reset());
    assert_eq!(spec.fg(), None);
    assert_eq!(spec.bg(), None);
}

#[test]
fn style_tokens_are_trimmed_and_empty_ones_skipped() {
    let spec = ColorSpec::from_str("  bold , ,, \titalic\n,").unwrap();
    assert!(spec.bold());
    assert!(spec.italic());
    let mut expected = ColorSpec::new();
    expected.set_bold(true).set_italic(true);
    assert_eq!(spec, expected);
    assert_eq!(ColorSpec::from_str("").unwrap(), ColorSpec::new());
    assert_eq!(ColorSpec::from_str(" , ").unwrap(), ColorSpec::new());
}

#[test]
fn style_later_token_overrides() {
    let spec = ColorSpec::from_str("fg:red,fg:green").unwrap();
    assert_eq!(spec.fg(), Some(&Color::Green));
    let spec = ColorSpec::from_str("noreset,reset").unwrap();
    assert!(spec.reset());
    let spec = ColorSpec::from_str("reset,noreset").unwrap();
    assert!(!spec.reset());
    let spec = ColorSpec::from_str("red,fg:7").unwrap();
    assert_eq!(spec.fg(), Some(&Color::Ansi256(7)));
}

#[test]
fn style_bare_color_is_foreground() {
    let spec = ColorSpec::from_str("Yellow").unwrap();
    assert_eq!(spec.fg(), Some(&Color::Yellow));
    assert_eq!(spec.bg(), None);
    let spec = ColorSpec::from_str("bold, 42").unwrap();
    assert_eq!(spec.fg(), Some(&Color::Ansi256(42)));
}

#[test]
fn style_words_are_case_sensitive() {
    // `Bold` is no word, so it is read as a color, and is none.
    let e = ColorSpec::from_str("Bold").unwrap_err();
    let ColorSpecParseError::InvalidColor(inner) = &e;
    assert_eq!(inner.kind(), ParseColorErrorKind::InvalidName);
    assert_eq!(inner.invalid(), "Bold");
}

#[test]
fn style_rgb_cannot_be_written_in_a_list() {
    // The commas of a triple split it into three tokens.
    let spec = ColorSpec::from_str("fg:1,2,3").unwrap();
    assert_eq!(spec.fg(), Some(&Color::Ansi256(3)));
}

#[test]
fn style_error_is_the_color_error() {
    let e = ColorSpec::from_str("bold,fg:300,italic").unwrap_err();
    assert_eq!(e.source().kind(), ParseColorErrorKind::InvalidAnsi256);
    assert_eq!(e.source().invalid(), "300");
    assert_eq!(
        e.to_string(),
        "unrecognized ansi256 color number, should be '[0-255]' (or a hex number), but is '300'"
    );
    let e = ColorSpec::from_str("bg:").unwrap_err();
    assert_eq!(e.source().kind(), ParseColorErrorKind::InvalidAnsi256);
    assert_eq!(e.source().invalid(), "");
    assert!("bold,what".parse::<ColorSpec>().is_err());
}

#[test]
fn one_token_at_a_time() {
    let mut spec = ColorSpec::new();
    spec.apply_token("bg:cyan").unwrap();
    spec.apply_token("").unwrap();
    spec.apply_token("underline").unwrap();
    assert_eq!(spec.bg(), Some(&Color::Cyan));
    assert!(spec.underline());
    let before = spec.clone();
    assert!(spec.apply_token("fg:nothing").is_err());
    assert_eq!(spec, before);
    // A token is taken as it is: trimming is the list's business.
    assert!(spec.apply_token(" bold").is_err());
}

#[test]
fn choice_names() {
    assert_eq!(ColorChoice::from_str("always").unwrap(), ColorChoice::Always);
    assert_eq!(ColorChoice::from_str("always-ansi").unwrap(), ColorChoice::AlwaysAnsi);
    assert_eq!(ColorChoice::from_str("never").unwrap(), ColorChoice::Never);
    assert_eq!(ColorChoice::from_str("auto").unwrap(), ColorChoice::Auto);
    assert_eq!(ColorChoice::from_str("ALWAYS").unwrap(), ColorChoice::Always);
    assert_eq!(ColorChoice::from_str("Always-Ansi").unwrap(), ColorChoice::AlwaysAnsi);
    assert_eq!("Never".parse::<ColorChoice>().unwrap(), ColorChoice::Never);
    assert_eq!(ColorChoice::default(), ColorChoice::Auto);
}

#[test]
fn choice_error_carries_the_lowercase_text() {
    let e = ColorChoice::from_str("Sometimes").unwrap_err();
    assert_eq!(e.invalid_choice(), "sometimes");
    assert_eq!(
        e.to_string(),
        "unrecognized color choice 'sometimes': valid choices are: always, always-ansi, never, auto"
    );
    assert!(ColorChoice::from_str("").is_err());
    assert!(ColorChoice::from_str("always_ansi").is_err());
    assert!(ColorChoice::from_str(" auto").is_err());
    let e = ColorChoice::from_lowercase("AUTO".to_string()).unwrap_err();
    assert_eq!(e.invalid_choice(), "AUTO");
}
