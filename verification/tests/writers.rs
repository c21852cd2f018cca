use std::io;
use termcolor::streams::{settle, write_lossy_utf8};
use termcolor::{
    ansi_color_only, Ansi, Buffer, BufferWriter, BufferedStandardStream, Color, ColorChoice,
    ColorSpec, Device, Environment, HyperlinkSpec, IoStandardStream, NoColor, Platform,
    StandardStream, StringWriter, TermString, TermValue, WriteColor, WriterInner,
};

fn unix() -> Environment {
    Environment {
        platform: Platform::Unix,
        term: TermValue::Text("xterm".to_string()),
        no_color: false,
    }
}

fn windows() -> Environment {
    Environment { platform: Platform::Windows, term: TermValue::Unset, no_color: false }
}

fn red() -> ColorSpec {
    let mut spec = ColorSpec::new();
    spec.set_fg(Some(Color::Red));
    spec
}

/// A device that takes at most `room` more bytes, at most `chunk` at a time,
/// and then fails.
struct Pipe {
    taken: Vec<u8>,
    room: usize,
    chunk: usize,
    flushes: usize,
}

impl Pipe {
    fn new(room: usize, chunk: usize) -> Pipe {
        Pipe { taken: Vec::new(), room, chunk, flushes: 0 }
    }
}

impl Device for Pipe {
    fn write(&mut self, buf: &[u8]) -> io::Result<usize> {
        if self.room == 0 && !buf.is_empty() {
            return Err(io::Error::new(io::ErrorKind::BrokenPipe, "closed"));
        }
        let n = buf.len().min(self.room).min(self.chunk);
        self.taken.extend_from_slice(&buf[..n]);
        self.room -= n;
        Ok(n)
    }

    fn write_all(&mut self, mut buf: &[u8]) -> io::Result<()> {
        while !buf.is_empty() {
            let n = Device::write(self, buf)?;
            buf = &buf[n..];
        }
        Ok(())
    }

    fn flush(&mut self) -> io::Result<()> {
        self.flushes += 1;
        Ok(())
    }
}

fn pipe(room: usize, chunk: usize) -> IoStandardStream<Pipe> {
    IoStandardStream::new(Pipe::new(room, chunk))
}

/// A device that claims to have taken one byte more than it was given.
struct Liar;

impl Device for Liar {
    fn write(&mut self, buf: &[u8]) -> io::Result<usize> {
        Ok(buf.len() + 1)
    }

    fn write_all(&mut self, _: &[u8]) -> io::Result<()> {
        Ok(())
    }

    fn flush(&mut self) -> io::Result<()> {
        Err(io::Error::new(io::ErrorKind::Other, "stuck"))
    }
}

#[test]
fn fresh_buffers_are_empty() {
    for b in [Buffer::no_color(), Buffer::ansi(), Buffer::new(ColorChoice::Auto, &unix())] {
        assert_eq!(b.len(), 0);
        assert!(b.is_empty());
        assert_eq!(b.as_slice(), &b""[..]);
        assert!(b.into_inner().is_empty());
    }
}

#[test]
fn plain_buffer_drops_styles() {
    let mut b = Buffer::no_color();
    b.set_color(&red()).unwrap();
    b.write_all(b"text").unwrap();
    b.set_hyperlink(&HyperlinkSpec::open(b"u")).unwrap();
    b.reset().unwrap();
    b.flush().unwrap();
    assert!(!b.supports_color());
    assert!(!b.supports_hyperlinks());
    assert!(!b.is_synchronous());
    assert_eq!(b.len(), 4);
    assert_eq!(b.as_slice(), &b"text"[..]);
}

#[test]
fn ansi_buffer_keeps_styles() {
    let mut b = Buffer::ansi();
    b.set_color(&red()).unwrap();
    assert_eq!(b.write(b"text").unwrap(), 4);
    b.reset().unwrap();
    assert!(b.supports_color());
    assert!(b.supports_hyperlinks());
    assert_eq!(b.as_slice(), &b"\x1B[0m\x1B[31mtext\x1B[0m"[..]);
    let copy = b.clone();
    b.clear();
    assert!(b.is_empty());
    assert!(b.supports_color());
    assert_eq!(copy.into_inner(), b"\x1B[0m\x1B[31mtext\x1B[0m".to_vec());
}

#[test]
fn buffer_bytes_can_be_changed_in_place() {
    let mut b = Buffer::no_color();
    b.write_all(b"abc").unwrap();
    b.as_mut_slice()[1] = b'X';
    assert_eq!(b.as_slice(), &b"aXc"[..]);
}

#[test]
fn printing_an_empty_buffer_does_nothing() {
    let mut w = BufferWriter::create(Vec::new(), ColorChoice::Always, &unix(), false, false);
    w.separator(Some(b"--".to_vec()));
    let empty = w.buffer();
    w.print(&empty).unwrap();
    w.print(&empty).unwrap();
    assert!(w.get_ref().is_empty());
    // No buffer counts as printed yet: the next one gets no separator.
    let mut b = w.buffer();
    b.write_all(b"first").unwrap();
    w.print(&b).unwrap();
    assert_eq!(w.get_ref().as_slice(), &b"first"[..]);
}

#[test]
fn separator_between_buffers() {
    let mut w = BufferWriter::create(Vec::new(), ColorChoice::Never, &unix(), false, false);
    w.separator(Some(b"--".to_vec()));
    let mut a = w.buffer();
    a.write_all(b"one\n").unwrap();
    let mut b = w.buffer();
    b.write_all(b"two\n").unwrap();
    w.print(&a).unwrap();
    assert_eq!(w.get_ref().as_slice(), &b"one\n"[..]);
    w.print(&w.buffer()).unwrap();
    w.print(&b).unwrap();
    assert_eq!(w.get_ref().as_slice(), &b"one\n--\ntwo\n"[..]);
    w.print(&a).unwrap();
    assert_eq!(w.get_ref().as_slice(), &b"one\n--\ntwo\n--\none\n"[..]);
}

#[test]
fn no_separator_by_default() {
    let mut w = BufferWriter::create(Vec::new(), ColorChoice::Never, &unix(), false, false);
    let mut a = w.buffer();
    a.write_all(b"a").unwrap();
    w.print(&a).unwrap();
    w.print(&a).unwrap();
    assert_eq!(w.get_ref().as_slice(), &b"aa"[..]);
    w.separator(Some(Vec::new()));
    w.print(&a).unwrap();
    assert_eq!(w.get_ref().as_slice(), &b"aa\na"[..]);
    w.separator(None);
    w.print(&a).unwrap();
    assert_eq!(w.get_ref().as_slice(), &b"aa\naa"[..]);
}

#[test]
fn buffer_writer_makes_buffers_of_its_kind() {
    let w = BufferWriter::create(Vec::new(), ColorChoice::Always, &unix(), false, false);
    assert!(w.buffer().supports_color());
    let w = BufferWriter::create(Vec::new(), ColorChoice::Never, &unix(), false, false);
    assert!(!w.buffer().supports_color());
    let w = BufferWriter::create(Vec::new(), ColorChoice::Always, &windows(), false, true);
    assert!(!w.buffer().supports_color());
    let w = BufferWriter::create(Vec::new(), ColorChoice::Always, &windows(), true, true);
    assert!(w.buffer().supports_color());
}

#[test]
fn failed_print_does_not_count_as_printed() {
    let mut w = BufferWriter::create(pipe(2, 8), ColorChoice::Never, &unix(), false, false);
    w.separator(Some(b"--".to_vec()));
    let mut a = w.buffer();
    a.write_all(b"abcd").unwrap();
    let e = w.print(&a).unwrap_err();
    assert_eq!(e.kind(), io::ErrorKind::BrokenPipe);
    assert_eq!(w.get_ref().get_ref().taken, b"ab".to_vec());
}

#[test]
fn console_gets_replacement_for_bytes_that_are_no_text() {
    let mut w = BufferWriter::create(Vec::new(), ColorChoice::Never, &windows(), false, true);
    let mut a = w.buffer();
    a.write_all(b"ok\xFF\xFEgo").unwrap();
    w.print(&a).unwrap();
    assert_eq!(w.get_ref().as_slice(), "ok\u{FFFD}\u{FFFD}go".as_bytes());
    // On Unix the same bytes pass through untouched.
    let mut w = BufferWriter::create(Vec::new(), ColorChoice::Never, &unix(), false, true);
    w.print(&a).unwrap();
    assert_eq!(w.get_ref().as_slice(), &b"ok\xFF\xFEgo"[..]);
}

#[test]
fn lossy_write_of_valid_text() {
    let mut out: Vec<u8> = Vec::new();
    assert_eq!(write_lossy_utf8(&mut out, "h\u{e9}llo".as_bytes()).unwrap(), 6);
    assert_eq!(out, "h\u{e9}llo".as_bytes().to_vec());
    assert_eq!(write_lossy_utf8(&mut out, b"").unwrap(), 0);
}

#[test]
fn lossy_write_stops_at_the_first_bad_byte() {
    let mut out: Vec<u8> = Vec::new();
    assert_eq!(write_lossy_utf8(&mut out, b"ab\xFFcd").unwrap(), 2);
    assert_eq!(out, b"ab".to_vec());
}

#[test]
fn lossy_write_replaces_a_leading_bad_byte() {
    let mut out: Vec<u8> = Vec::new();
    assert_eq!(write_lossy_utf8(&mut out, b"\xFFcd").unwrap(), 1);
    assert_eq!(out, b"\xEF\xBF\xBD".to_vec());
    // A sequence cut short counts as bad from its first byte on.
    let mut out: Vec<u8> = Vec::new();
    assert_eq!(write_lossy_utf8(&mut out, b"\xE2\x82").unwrap(), 1);
    assert_eq!(out, b"\xEF\xBF\xBD".to_vec());
}

#[test]
fn lossy_write_hands_on_the_error() {
    let mut closed = pipe(0, 8);
    let e = write_lossy_utf8(&mut closed, b"\xFF").unwrap_err();
    assert_eq!(e.kind(), io::ErrorKind::BrokenPipe);
    assert!(closed.into_inner().taken.is_empty());
}

#[test]
fn console_write_all_reports_a_device_that_takes_nothing() {
    let mut w = BufferWriter::create(pipe(8, 0), ColorChoice::Never, &windows(), false, true);
    let mut a = w.buffer();
    a.write_all(b"text").unwrap();
    let e = w.print(&a).unwrap_err();
    assert_eq!(e.kind(), io::ErrorKind::WriteZero);
}

#[test]
fn standard_stream_with_colors() {
    let mut s = StandardStream::new(Vec::new(), ColorChoice::Always, &unix(), false);
    assert!(s.supports_color());
    assert!(s.supports_hyperlinks());
    assert!(!s.is_synchronous());
    s.set_color(&red()).unwrap();
    s.write_all(b"hot").unwrap();
    s.reset().unwrap();
    s.set_hyperlink(&HyperlinkSpec::open(b"x:y")).unwrap();
    s.set_hyperlink(&HyperlinkSpec::close()).unwrap();
    s.flush().unwrap();
    assert_eq!(
        s.get_ref().as_slice(),
        &b"\x1B[0m\x1B[31mhot\x1B[0m\x1B]8;;x:y\x1B\\\x1B]8;;\x1B\\"[..]
    );
}

#[test]
fn standard_stream_without_colors() {
    let mut s = StandardStream::new(Vec::new(), ColorChoice::Never, &unix(), true);
    assert!(!s.supports_color());
    s.set_color(&red()).unwrap();
    assert_eq!(s.write(b"cold").unwrap(), 4);
    s.reset().unwrap();
    s.set_hyperlink(&HyperlinkSpec::open(b"x:y")).unwrap();
    assert_eq!(s.get_ref().as_slice(), &b"cold"[..]);
}

#[test]
fn standard_stream_on_windows_depends_on_the_console() {
    let s = StandardStream::new(Vec::new(), ColorChoice::Always, &windows(), false);
    assert!(!s.supports_color());
    let s = StandardStream::new(Vec::new(), ColorChoice::Always, &windows(), true);
    assert!(s.supports_color());
    let s = StandardStream::new(Vec::new(), ColorChoice::AlwaysAnsi, &windows(), false);
    assert!(s.supports_color());
}

#[test]
fn locked_stream_has_the_strategy_of_its_stream() {
    let s = StandardStream::new(Vec::new(), ColorChoice::Always, &unix(), false);
    let mut l = s.lock(Vec::new());
    assert!(l.supports_color());
    l.set_color(&red()).unwrap();
    l.write_all(b"x").unwrap();
    assert_eq!(l.get_ref().as_slice(), &b"\x1B[0m\x1B[31mx"[..]);
    assert!(s.get_ref().is_empty());
    let s = StandardStream::new(Vec::new(), ColorChoice::Never, &unix(), false);
    let mut l = s.lock(Vec::new());
    assert!(!l.supports_color());
    l.set_color(&red()).unwrap();
    l.reset().unwrap();
    assert!(l.get_ref().is_empty());
}

#[test]
fn buffered_stream() {
    let mut s = BufferedStandardStream::new(Vec::new(), ColorChoice::Auto, &unix(), false);
    assert!(s.supports_color());
    s.set_color(&red()).unwrap();
    s.write_all(b"x").unwrap();
    s.flush().unwrap();
    assert_eq!(s.get_ref().as_slice(), &b"\x1B[0m\x1B[31mx"[..]);
}

#[test]
fn stream_hands_on_the_error_of_its_device() {
    let mut s = StandardStream::new(pipe(6, 64), ColorChoice::Always, &unix(), false);
    let e = s.set_color(&red()).unwrap_err();
    assert_eq!(e.kind(), io::ErrorKind::BrokenPipe);
    // What the device took is a leading part of the style's bytes.
    assert_eq!(s.get_ref().get_ref().taken, b"\x1B[0m\x1B[".to_vec());
    assert!(s.write(b"x").is_err());
}

#[test]
fn ansi_writer_hands_on_the_error_of_its_device() {
    let mut w = Ansi::new(pipe(3, 64));
    assert!(w.set_hyperlink(&HyperlinkSpec::open(b"uri")).is_err());
    assert_eq!(w.get_ref().get_ref().taken, b"\x1B]8".to_vec());
    let mut w = Ansi::new(pipe(0, 64));
    assert!(w.reset().is_err());
    assert!(w.get_mut().get_ref().taken.is_empty());
}

#[test]
fn device_writer_passes_bytes_and_ignores_styles() {
    let mut w = pipe(64, 2);
    assert_eq!(w.write(b"abc").unwrap(), 2);
    w.write_all(b"def").unwrap();
    w.set_color(&red()).unwrap();
    w.set_hyperlink(&HyperlinkSpec::open(b"u")).unwrap();
    w.reset().unwrap();
    w.flush().unwrap();
    assert!(!w.supports_color());
    assert!(!w.supports_hyperlinks());
    assert!(!w.is_synchronous());
    assert_eq!(w.get_ref().taken, b"abdef".to_vec());
}

#[test]
fn device_is_held_to_what_it_was_given() {
    let mut w = IoStandardStream::new(Liar);
    assert_eq!(w.write(b"abc").unwrap(), 3);
    assert_eq!(w.write(b"").unwrap(), 0);
    assert_eq!(w.flush().unwrap_err().kind(), io::ErrorKind::Other);
}

#[test]
fn writer_inner_behaves_as_its_strategy() {
    let mut plain = WriterInner::create(Vec::new(), ColorChoice::Never, &unix(), false);
    let mut ansi = WriterInner::create(Vec::new(), ColorChoice::Always, &unix(), false);
    for w in [&mut plain, &mut ansi] {
        w.set_color(&red()).unwrap();
        w.write_all(b"t").unwrap();
        w.reset().unwrap();
    }
    assert!(!plain.supports_color());
    assert!(ansi.supports_color());
    assert!(ansi.wrap(Vec::new()).supports_color());
    assert!(!plain.wrap(Vec::new()).supports_hyperlinks());
    assert_eq!(plain.into_inner(), b"t".to_vec());
    assert_eq!(ansi.into_inner(), b"\x1B[0m\x1B[31mt\x1B[0m".to_vec());
}

#[test]
fn plain_vec_ignores_styles() {
    let mut v: Vec<u8> = Vec::new();
    v.set_color(&red()).unwrap();
    v.set_hyperlink(&HyperlinkSpec::open(b"u")).unwrap();
    v.reset().unwrap();
    assert!(!WriteColor::supports_color(&v));
    assert!(!v.supports_hyperlinks());
    assert!(!v.is_synchronous());
    assert!(v.is_empty());
    WriteColor::write_all(&mut v, b"x").unwrap();
    assert_eq!(v, b"x".to_vec());
}

#[test]
fn boxed_writer() {
    let mut w: Box<Ansi<Vec<u8>>> = Box::new(Ansi::new(Vec::new()));
    w.set_color(&red()).unwrap();
    assert!(w.supports_color());
    assert_eq!(w.get_ref().as_slice(), &b"\x1B[0m\x1B[31m"[..]);
}

#[test]
fn string_writer_takes_text() {
    let mut w = StringWriter::new();
    assert_eq!(w.write("gr\u{fc}n".as_bytes()).unwrap(), 5);
    w.set_color(&red()).unwrap();
    w.reset().unwrap();
    w.set_hyperlink(&HyperlinkSpec::close()).unwrap();
    w.write_all(b"!").unwrap();
    w.flush().unwrap();
    assert!(!w.supports_color());
    assert!(!w.supports_hyperlinks());
    assert!(!w.is_synchronous());
    assert_eq!(w.as_str(), "gr\u{fc}n!");
    assert_eq!(w.into_string(), "gr\u{fc}n!");
    assert_eq!(StringWriter::with_capacity(16).as_str(), "");
    assert_eq!(StringWriter::default().into_string(), "");
}

#[test]
fn string_writer_refuses_bytes_that_are_no_text() {
    let mut w = StringWriter::new();
    w.write_all(b"ok").unwrap();
    let e = w.write(b"\xFFno").unwrap_err();
    assert_eq!(e.kind(), io::ErrorKind::InvalidData);
    assert_eq!(e.to_string(), "Invalid UTF-8");
    assert!(w.write_all(b"half \xE2\x82").is_err());
    assert_eq!(w.as_str(), "ok");
}

#[test]
fn term_string() {
    let mut t = TermString::new();
    t.push_str("a");
    assert_eq!(t.write(b"bc").unwrap(), 2);
    t.set_color(&red()).unwrap();
    t.write_all("\u{2713}".as_bytes()).unwrap();
    assert_eq!(t.as_str(), "abc\u{2713}");
    assert_eq!(t.to_string(), "abc\u{2713}");
    let e = t.write(b"\x80").unwrap_err();
    assert_eq!(e.kind(), io::ErrorKind::InvalidData);
    assert_eq!(t.as_str(), "abc\u{2713}");
    assert!(!t.supports_color());
    let same: &str = t.as_ref();
    assert_eq!(same, "abc\u{2713}");
    assert_eq!(t.clone().into_inner(), "abc\u{2713}");
    let s: String = t.into();
    assert_eq!(s, "abc\u{2713}");
    let back: TermString = TermString::from("x".to_string());
    assert_eq!(back, TermString("x".to_string()));
    assert_eq!(TermString::with_capacity(4), TermString::default());
}

#[test]
fn styles_as_text() {
    let mut spec = ColorSpec::new();
    spec.set_bold(true).set_fg(Some(Color::Red));
    assert_eq!(spec.to_string(), "\x1B[0m\x1B[1m\x1B[31m");
    assert_eq!(ColorSpec::default().to_string(), "\x1B[0m");
    let pair = ansi_color_only(Some(Color::Green), Some(Color::Rgb(1, 2, 3)));
    assert_eq!(pair.to_string(), "\x1B[32m\x1B[48;2;1;2;3m");
    assert_eq!(ansi_color_only(None, Some(Color::Ansi256(9))).to_string(), "\x1B[48;5;9m");
    assert_eq!(ansi_color_only(None, None).to_string(), "");
}

#[test]
fn clearing_a_style_keeps_the_reset_flag() {
    let mut spec = ColorSpec::new();
    assert!(spec.is_none());
    spec.set_reset(false);
    assert!(spec.is_none());
    spec.set_bold(true).set_bg(Some(Color::Blue)).set_intense(true);
    assert!(!spec.is_none());
    spec.clear();
    assert!(spec.is_none());
    assert!(!spec.reset());
    assert_eq!(HyperlinkSpec::open(b"u").uri(), Some(&b"u"[..]));
    assert_eq!(HyperlinkSpec::close().uri(), None);
}

#[test]
fn flush_reaches_the_device_through_every_writer() {
    let mut w = pipe(8, 8);
    w.flush().unwrap();
    w.flush().unwrap();
    assert_eq!(w.get_ref().flushes, 2);

    let mut w = NoColor::new(pipe(8, 8));
    w.flush().unwrap();
    assert_eq!(w.get_ref().get_ref().flushes, 1);

    let mut w = Ansi::new(pipe(8, 8));
    w.flush().unwrap();
    assert_eq!(w.get_ref().get_ref().flushes, 1);

    for choice in [ColorChoice::Never, ColorChoice::Always] {
        let mut w = WriterInner::create(pipe(8, 8), choice, &unix(), false);
        w.flush().unwrap();
        assert_eq!(w.get_ref().get_ref().flushes, 1);

        let mut s = StandardStream::new(pipe(8, 8), choice, &unix(), false);
        s.write_all(b"x").unwrap();
        s.flush().unwrap();
        assert_eq!(s.get_ref().get_ref().flushes, 1);

        let mut l = s.lock(pipe(8, 8));
        l.flush().unwrap();
        l.flush().unwrap();
        assert_eq!(l.get_ref().get_ref().flushes, 2);
        assert_eq!(s.get_ref().get_ref().flushes, 1);

        let mut b = BufferedStandardStream::new(pipe(8, 8), choice, &unix(), false);
        b.flush().unwrap();
        assert_eq!(b.get_ref().get_ref().flushes, 1);
    }

    let mut boxed = Box::new(NoColor::new(pipe(8, 8)));
    boxed.flush().unwrap();
    assert_eq!(boxed.get_ref().get_ref().flushes, 1);
}

#[test]
fn failed_flush_is_handed_on_by_every_writer() {
    assert_eq!(IoStandardStream::new(Liar).flush().unwrap_err().kind(), io::ErrorKind::Other);
    assert!(NoColor::new(IoStandardStream::new(Liar)).flush().is_err());
    assert!(Ansi::new(IoStandardStream::new(Liar)).flush().is_err());
    let dev = IoStandardStream::new(Liar);
    assert!(WriterInner::create(dev, ColorChoice::Always, &unix(), false).flush().is_err());
    let dev = IoStandardStream::new(Liar);
    let mut s = StandardStream::new(dev, ColorChoice::Never, &unix(), false);
    assert!(s.flush().is_err());
    assert!(s.lock(IoStandardStream::new(Liar)).flush().is_err());
    let dev = IoStandardStream::new(Liar);
    assert!(BufferedStandardStream::new(dev, ColorChoice::Auto, &unix(), false).flush().is_err());
    assert!(Box::new(NoColor::new(IoStandardStream::new(Liar))).flush().is_err());
}

#[test]
fn device_answers_are_settled() {
    assert_eq!(settle(3, Ok(0)).unwrap(), 0);
    assert_eq!(settle(3, Ok(2)).unwrap(), 2);
    assert_eq!(settle(3, Ok(3)).unwrap(), 3);
    assert_eq!(settle(3, Ok(4)).unwrap(), 3);
    assert_eq!(settle(0, Ok(usize::MAX)).unwrap(), 0);
    let e = settle(3, Err(io::Error::new(io::ErrorKind::TimedOut, "late"))).unwrap_err();
    assert_eq!(e.kind(), io::ErrorKind::TimedOut);
    assert_eq!(e.to_string(), "late");
}

#[test]
fn capacity_is_room_not_content() {
    for capacity in [0, 1, 64, 4096] {
        let w = StringWriter::with_capacity(capacity);
        assert_eq!(w.as_str(), "");
        assert!(w.inner.capacity() >= capacity);
        let t = TermString::with_capacity(capacity);
        assert_eq!(t.as_str(), "");
        assert!(t.0.capacity() >= capacity);
    }
}
