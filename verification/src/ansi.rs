//! The ANSI escape sequences for styles, colors and hyperlinks: what they
//! are, byte for byte, and the functions that write them to a writer.

use crate::color::Color;
use crate::style::{ColorSpec, Setting};
use crate::text::{ascii_text, ascii_to_string, is_ascii_bytes};
use crate::traits::{partly_appended, WriteColor};
use vstd::prelude::*;
use vstd::slice::slice_subrange;

verus! {

/// The escape character that opens every sequence.
pub const ESC: u8 = 0x1B;

/// `[`, which after `ESC` introduces a control sequence.
pub const CSI: u8 = 0x5B;

/// `]`, which after `ESC` introduces an operating system command.
pub const OSC: u8 = 0x5D;

/// `;`, which separates the fields of a sequence.
pub const SEP: u8 = 0x3B;

/// `m`, which ends a graphic rendition sequence.
pub const END: u8 = 0x6D;

/// `\`, which after `ESC` ends an operating system command.
pub const ST: u8 = 0x5C;

/// The digit `0`.
pub const ZERO: u8 = 0x30;

/// The decimal digits of `n`, most significant first, without leading
/// zeros; zero is the single digit `0`.
pub open spec fn decimal(n: nat) -> Seq<u8>
    decreases n,
{
    if n < 10 {
        seq![(ZERO + n) as u8]
    } else {
        decimal(n / 10).push((ZERO + n % 10) as u8)
    }
}

/// The sequence that switches on the attribute with the one-digit code
/// `digit`: `ESC [ digit m`.
pub open spec fn attribute_code(digit: nat) -> Seq<u8> {
    seq![ESC, CSI, (ZERO + digit) as u8, END]
}

/// The sequence that returns the terminal to its default rendition.
pub open spec fn reset_code() -> Seq<u8> {
    attribute_code(0)
}

/// The digit that selects the foreground (`3`) or the background (`4`).
pub open spec fn plane(bg: bool) -> u8 {
    if bg {
        (ZERO + 4) as u8
    } else {
        (ZERO + 3) as u8
    }
}

/// The sequence for the basic color at position `offset` of the eight-color
/// palette: `ESC [ 3 offset m`, with `4` for a background.
pub open spec fn basic_code(bg: bool, offset: nat) -> Seq<u8> {
    seq![ESC, CSI, plane(bg), (ZERO + offset) as u8, END]
}

/// The sequence for entry `index` of the 256-color palette:
/// `ESC [ 38 ; 5 ; index m`, with `48` for a background.
pub open spec fn palette_code(bg: bool, index: nat) -> Seq<u8> {
    seq![ESC, CSI, plane(bg), (ZERO + 8) as u8, SEP, (ZERO + 5) as u8, SEP] + decimal(index)
        + seq![END]
}

/// The sequence for a 24-bit color: `ESC [ 38 ; 2 ; r ; g ; b m`, with `48`
/// for a background.
pub open spec fn rgb_code(bg: bool, r: nat, g: nat, b: nat) -> Seq<u8> {
    seq![ESC, CSI, plane(bg), (ZERO + 8) as u8, SEP, (ZERO + 2) as u8, SEP] + decimal(r)
        + seq![SEP] + decimal(g) + seq![SEP] + decimal(b) + seq![END]
}

/// The sequence that selects `color` as foreground or background.
///
/// A named color is one of the codes 30 to 37 (40 to 47 for a background).
/// With `intense` it is entry 8 to 15 of the 256-color palette instead.
/// Palette and RGB colors have no intense form.
pub open spec fn color_code(color: Color, bg: bool, intense: bool) -> Seq<u8> {
    match color {
        Color::Ansi256(n) => palette_code(bg, n as nat),
        Color::Rgb(r, g, b) => rgb_code(bg, r as nat, g as nat, b as nat),
        _ => if intense {
            palette_code(bg, 8 + color.palette_offset())
        } else {
            basic_code(bg, color.palette_offset())
        },
    }
}

/// `code` where `present` holds, nothing otherwise.
pub open spec fn when(present: bool, code: Seq<u8>) -> Seq<u8> {
    if present {
        code
    } else {
        Seq::empty()
    }
}

/// The sequence that selects `color`, if there is one.
pub open spec fn optional_color_code(color: Option<Color>, bg: bool, intense: bool) -> Seq<u8> {
    match color {
        Some(c) => color_code(c, bg, intense),
        None => Seq::empty(),
    }
}

/// Everything a style is rendered as, in the one order in which it is
/// written: reset, bold, dim, italic, underline, strikethrough, foreground,
/// background, and a closing bold where an intense style has a foreground.
pub open spec fn style_code(spec: ColorSpec) -> Seq<u8> {
    when(spec.reset, reset_code()) + when(spec.bold, attribute_code(1)) + when(
        spec.dimmed,
        attribute_code(2),
    ) + when(spec.italic, attribute_code(3)) + when(spec.underline, attribute_code(4)) + when(
        spec.strikethrough,
        attribute_code(9),
    ) + optional_color_code(spec.fg_color, false, spec.intense) + optional_color_code(
        spec.bg_color,
        true,
        spec.intense,
    ) + when(spec.intense && spec.fg_color is Some, attribute_code(1))
}

/// The sequence that opens a hyperlink to `uri`, or closes the current one
/// where `uri` is empty: `ESC ] 8 ; ;`, the URI as it is, `ESC \`.
pub open spec fn link_code(uri: Seq<u8>) -> Seq<u8> {
    seq![ESC, OSC, (ZERO + 8) as u8, SEP, SEP] + uri + seq![ESC, ST]
}

/// The table of the named colors: each is `ESC [ 3 n m` as a foreground and
/// `ESC [ 4 n m` as a background, with `n` from 0 to 7 in the order black,
/// red, green, yellow, blue, magenta, cyan, white.
pub proof fn lemma_named_color_table()
    ensures
        color_code(Color::Black, false, false) == seq![0x1Bu8, 0x5Bu8, 0x33u8, 0x30u8, 0x6Du8],
        color_code(Color::Black, true, false) == seq![0x1Bu8, 0x5Bu8, 0x34u8, 0x30u8, 0x6Du8],
        color_code(Color::Red, false, false) == seq![0x1Bu8, 0x5Bu8, 0x33u8, 0x31u8, 0x6Du8],
        color_code(Color::Red, true, false) == seq![0x1Bu8, 0x5Bu8, 0x34u8, 0x31u8, 0x6Du8],
        color_code(Color::Green, false, false) == seq![0x1Bu8, 0x5Bu8, 0x33u8, 0x32u8, 0x6Du8],
        color_code(Color::Green, true, false) == seq![0x1Bu8, 0x5Bu8, 0x34u8, 0x32u8, 0x6Du8],
        color_code(Color::Yellow, false, false) == seq![0x1Bu8, 0x5Bu8, 0x33u8, 0x33u8, 0x6Du8],
        color_code(Color::Yellow, true, false) == seq![0x1Bu8, 0x5Bu8, 0x34u8, 0x33u8, 0x6Du8],
        color_code(Color::Blue, false, false) == seq![0x1Bu8, 0x5Bu8, 0x33u8, 0x34u8, 0x6Du8],
        color_code(Color::Blue, true, false) == seq![0x1Bu8, 0x5Bu8, 0x34u8, 0x34u8, 0x6Du8],
        color_code(Color::Magenta, false, false) == seq![0x1Bu8, 0x5Bu8, 0x33u8, 0x35u8, 0x6Du8],
        color_code(Color::Magenta, true, false) == seq![0x1Bu8, 0x5Bu8, 0x34u8, 0x35u8, 0x6Du8],
        color_code(Color::Cyan, false, false) == seq![0x1Bu8, 0x5Bu8, 0x33u8, 0x36u8, 0x6Du8],
        color_code(Color::Cyan, true, false) == seq![0x1Bu8, 0x5Bu8, 0x34u8, 0x36u8, 0x6Du8],
        color_code(Color::White, false, false) == seq![0x1Bu8, 0x5Bu8, 0x33u8, 0x37u8, 0x6Du8],
        color_code(Color::White, true, false) == seq![0x1Bu8, 0x5Bu8, 0x34u8, 0x37u8, 0x6Du8],
{
}

/// The table of the intense named colors: each is entry 8 to 15 of the
/// 256-color palette, `ESC [ 38 ; 5 ; n m` as a foreground and
/// `ESC [ 48 ; 5 ; n m` as a background.
pub proof fn lemma_intense_color_table()
    ensures
        color_code(Color::Black, false, true) == seq![0x1Bu8, 0x5Bu8, 0x33u8, 0x38u8, 0x3Bu8, 0x35u8, 0x3Bu8, 0x38u8, 0x6Du8],
        color_code(Color::Black, true, true) == seq![0x1Bu8, 0x5Bu8, 0x34u8, 0x38u8, 0x3Bu8, 0x35u8, 0x3Bu8, 0x38u8, 0x6Du8],
        color_code(Color::Red, false, true) == seq![0x1Bu8, 0x5Bu8, 0x33u8, 0x38u8, 0x3Bu8, 0x35u8, 0x3Bu8, 0x39u8, 0x6Du8],
        color_code(Color::Red, true, true) == seq![0x1Bu8, 0x5Bu8, 0x34u8, 0x38u8, 0x3Bu8, 0x35u8, 0x3Bu8, 0x39u8, 0x6Du8],
        color_code(Color::Green, false, true) == seq![0x1Bu8, 0x5Bu8, 0x33u8, 0x38u8, 0x3Bu8, 0x35u8, 0x3Bu8, 0x31u8, 0x30u8, 0x6Du8],
        color_code(Color::Green, true, true) == seq![0x1Bu8, 0x5Bu8, 0x34u8, 0x38u8, 0x3Bu8, 0x35u8, 0x3Bu8, 0x31u8, 0x30u8, 0x6Du8],
        color_code(Color::Yellow, false, true) == seq![0x1Bu8, 0x5Bu8, 0x33u8, 0x38u8, 0x3Bu8, 0x35u8, 0x3Bu8, 0x31u8, 0x31u8, 0x6Du8],
        color_code(Color::Yellow, true, true) == seq![0x1Bu8, 0x5Bu8, 0x34u8, 0x38u8, 0x3Bu8, 0x35u8, 0x3Bu8, 0x31u8, 0x31u8, 0x6Du8],
        color_code(Color::Blue, false, true) == seq![0x1Bu8, 0x5Bu8, 0x33u8, 0x38u8, 0x3Bu8, 0x35u8, 0x3Bu8, 0x31u8, 0x32u8, 0x6Du8],
        color_code(Color::Blue, true, true) == seq![0x1Bu8, 0x5Bu8, 0x34u8, 0x38u8, 0x3Bu8, 0x35u8, 0x3Bu8, 0x31u8, 0x32u8, 0x6Du8],
        color_code(Color::Magenta, false, true) == seq![0x1Bu8, 0x5Bu8, 0x33u8, 0x38u8, 0x3Bu8, 0x35u8, 0x3Bu8, 0x31u8, 0x33u8, 0x6Du8],
        color_code(Color::Magenta, true, true) == seq![0x1Bu8, 0x5Bu8, 0x34u8, 0x38u8, 0x3Bu8, 0x35u8, 0x3Bu8, 0x31u8, 0x33u8, 0x6Du8],
        color_code(Color::Cyan, false, true) == seq![0x1Bu8, 0x5Bu8, 0x33u8, 0x38u8, 0x3Bu8, 0x35u8, 0x3Bu8, 0x31u8, 0x34u8, 0x6Du8],
        color_code(Color::Cyan, true, true) == seq![0x1Bu8, 0x5Bu8, 0x34u8, 0x38u8, 0x3Bu8, 0x35u8, 0x3Bu8, 0x31u8, 0x34u8, 0x6Du8],
        color_code(Color::White, false, true) == seq![0x1Bu8, 0x5Bu8, 0x33u8, 0x38u8, 0x3Bu8, 0x35u8, 0x3Bu8, 0x31u8, 0x35u8, 0x6Du8],
        color_code(Color::White, true, true) == seq![0x1Bu8, 0x5Bu8, 0x34u8, 0x38u8, 0x3Bu8, 0x35u8, 0x3Bu8, 0x31u8, 0x35u8, 0x6Du8],
{
    reveal_with_fuel(decimal, 2);
}

/// Palette and RGB colors are written with their numbers in decimal, and
/// have no intense form.
pub proof fn lemma_numbered_color_table(n: u8, r: u8, g: u8, b: u8, bg: bool, intense: bool)
    ensures
        color_code(Color::Ansi256(n), bg, intense) == seq![
            0x1Bu8,
            0x5Bu8,
            if bg { 0x34u8 } else { 0x33u8 },
            0x38u8,
            0x3Bu8,
            0x35u8,
            0x3Bu8,
        ] + decimal(n as nat) + seq![0x6Du8],
        color_code(Color::Rgb(r, g, b), bg, intense) == seq![
            0x1Bu8,
            0x5Bu8,
            if bg { 0x34u8 } else { 0x33u8 },
            0x38u8,
            0x3Bu8,
            0x32u8,
            0x3Bu8,
        ] + decimal(r as nat) + seq![0x3Bu8] + decimal(g as nat) + seq![0x3Bu8] + decimal(
            b as nat,
        ) + seq![0x6Du8],
        decimal(0) == seq![0x30u8],
        decimal(255) == seq![0x32u8, 0x35u8, 0x35u8],
{
    reveal_with_fuel(decimal, 3);
}

/// A style is rendered from what it holds, not from how it came to hold it:
/// two styles with the same colors and the same flags are the same style and
/// are rendered as the same bytes, piece for piece.
pub proof fn lemma_style_code_by_content(a: ColorSpec, b: ColorSpec)
    requires
        a.fg_color == b.fg_color,
        a.bg_color == b.bg_color,
        a.bold == b.bold,
        a.intense == b.intense,
        a.underline == b.underline,
        a.dimmed == b.dimmed,
        a.italic == b.italic,
        a.reset == b.reset,
        a.strikethrough == b.strikethrough,
    ensures
        a == b,
        style_code(a) == style_code(b),
        forall|i: int| style_piece(a, i) == style_piece(b, i),
{
}

/// The bytes of a style do not depend on the order in which two different
/// attributes of it were set.
pub proof fn lemma_style_code_ignores_setting_order(s: ColorSpec, a: Setting, b: Setting)
    requires
        !a.same_attribute(b),
    ensures
        style_code(s.with(a).with(b)) == style_code(s.with(b).with(a)),
{
    crate::style::lemma_setting_order_is_irrelevant(s, a, b);
}

/// A write that stopped inside one piece of a longer sequence stopped inside
/// the sequence: if `done` had been taken in full and then part of `chunk`,
/// and `done + chunk` opens `full`, then part of `full` was taken.
pub proof fn lemma_stopped_early(
    start: Seq<u8>,
    done: Seq<u8>,
    chunk: Seq<u8>,
    full: Seq<u8>,
    after: Seq<u8>,
)
    requires
        partly_appended(start + done, after, chunk),
        (done + chunk).is_prefix_of(full),
    ensures
        partly_appended(start, after, full),
{
    let k = choose|k: int| 0 <= k <= chunk.len() && after == (start + done) + #[trigger] chunk.take(k);
    assert(after =~= start + full.take(done.len() + k));
}

/// Writes the decimal digits of `n` into `buf` from position `at` on and
/// returns the position after the last digit. No heap is touched.
fn put_decimal(buf: &mut [u8; 19], at: usize, n: u8) -> (end: usize)
    requires
        at + 3 <= 19,
    ensures
        at < end <= at + 3,
        final(buf)@.subrange(0, end as int) == old(buf)@.subrange(0, at as int) + decimal(
            n as nat,
        ),
{
    let c1: u8 = (n / 100) % 10;
    let c2: u8 = (n / 10) % 10;
    let c3: u8 = n % 10;
    let mut i: usize = at;
    if c1 != 0 {
        buf[i] = ZERO + c1;
        i += 1;
    }
    if c2 != 0 || c1 != 0 {
        buf[i] = ZERO + c2;
        i += 1;
    }
    // A value of zero still prints one digit.
    buf[i] = ZERO + c3;
    i += 1;
    proof {
        reveal_with_fuel(decimal, 3);
    }
    i
}

/// Writes the one-digit attribute sequence `ESC [ digit m`.
pub(crate) fn write_attribute<W: WriteColor>(wtr: &mut W, digit: u8) -> (r: Result<
    (),
    std::io::Error,
>)
    requires
        digit < 10,
    ensures
        final(wtr).capabilities() == old(wtr).capabilities(),
        old(wtr).capabilities().infallible ==> r is Ok,
        r is Ok ==> final(wtr).written() == old(wtr).written() + attribute_code(digit as nat),
        r is Err ==> partly_appended(
            old(wtr).written(),
            final(wtr).written(),
            attribute_code(digit as nat),
        ),
{
    let code: [u8; 4] = [ESC, CSI, ZERO + digit, END];
    wtr.write_all(code.as_slice())
}

/// Writes the sequence for the basic color at position `offset`.
fn write_basic<W: WriteColor>(wtr: &mut W, bg: bool, offset: u8) -> (r: Result<(), std::io::Error>)
    requires
        offset < 8,
    ensures
        final(wtr).capabilities() == old(wtr).capabilities(),
        old(wtr).capabilities().infallible ==> r is Ok,
        r is Ok ==> final(wtr).written() == old(wtr).written() + basic_code(bg, offset as nat),
        r is Err ==> partly_appended(
            old(wtr).written(),
            final(wtr).written(),
            basic_code(bg, offset as nat),
        ),
{
    let lead: u8 = if bg {
        ZERO + 4
    } else {
        ZERO + 3
    };
    let code: [u8; 5] = [ESC, CSI, lead, ZERO + offset, END];
    wtr.write_all(code.as_slice())
}

/// Writes the sequence for entry `index` of the 256-color palette.
fn write_palette<W: WriteColor>(wtr: &mut W, bg: bool, index: u8) -> (r: Result<(), std::io::Error>)
    ensures
        final(wtr).capabilities() == old(wtr).capabilities(),
        old(wtr).capabilities().infallible ==> r is Ok,
        r is Ok ==> final(wtr).written() == old(wtr).written() + palette_code(bg, index as nat),
        r is Err ==> partly_appended(
            old(wtr).written(),
            final(wtr).written(),
            palette_code(bg, index as nat),
        ),
{
    // The longest sequence, `ESC[48;2;255;255;255m`, takes 19 bytes.
    let mut buf: [u8; 19] = [0u8; 19];
    buf[0] = ESC;
    buf[1] = CSI;
    buf[2] = if bg {
        ZERO + 4
    } else {
        ZERO + 3
    };
    buf[3] = ZERO + 8;
    buf[4] = SEP;
    buf[5] = ZERO + 5;
    buf[6] = SEP;
    let ghost head = buf@.subrange(0, 7);
    let i = put_decimal(&mut buf, 7, index);
    buf[i] = END;
    let code = slice_subrange(buf.as_slice(), 0, i + 1);
    proof {
        assert(head =~= seq![ESC, CSI, plane(bg), (ZERO + 8) as u8, SEP, (ZERO + 5) as u8, SEP]);
        assert(code@.subrange(0, i as int) =~= head + decimal(index as nat));
        assert(code@ =~= code@.subrange(0, i as int) + seq![END]);
    }
    wtr.write_all(code)
}

/// Writes the sequence for a 24-bit color.
fn write_rgb<W: WriteColor>(wtr: &mut W, bg: bool, r: u8, g: u8, b: u8) -> (res: Result<
    (),
    std::io::Error,
>)
    ensures
        final(wtr).capabilities() == old(wtr).capabilities(),
        old(wtr).capabilities().infallible ==> res is Ok,
        res is Ok ==> final(wtr).written() == old(wtr).written() + rgb_code(
            bg,
            r as nat,
            g as nat,
            b as nat,
        ),
        res is Err ==> partly_appended(
            old(wtr).written(),
            final(wtr).written(),
            rgb_code(bg, r as nat, g as nat, b as nat),
        ),
{
    let mut buf: [u8; 19] = [0u8; 19];
    buf[0] = ESC;
    buf[1] = CSI;
    buf[2] = if bg {
        ZERO + 4
    } else {
        ZERO + 3
    };
    buf[3] = ZERO + 8;
    buf[4] = SEP;
    buf[5] = ZERO + 2;
    buf[6] = SEP;
    let ghost head = buf@.subrange(0, 7);
    let i = put_decimal(&mut buf, 7, r);
    buf[i] = SEP;
    let ghost red = buf@.subrange(0, i + 1);
    let j = put_decimal(&mut buf, i + 1, g);
    buf[j] = SEP;
    let ghost green = buf@.subrange(0, j + 1);
    let k = put_decimal(&mut buf, j + 1, b);
    buf[k] = END;
    let code = slice_subrange(buf.as_slice(), 0, k + 1);
    proof {
        assert(head =~= seq![ESC, CSI, plane(bg), (ZERO + 8) as u8, SEP, (ZERO + 2) as u8, SEP]);
        assert(red =~= head + decimal(r as nat) + seq![SEP]);
        assert(green =~= red + decimal(g as nat) + seq![SEP]);
        assert(code@.subrange(0, k as int) =~= green + decimal(b as nat));
        assert(code@ =~= code@.subrange(0, k as int) + seq![END]);
    }
    wtr.write_all(code)
}

/// Writes the sequence that selects `color` as foreground or, with `bg`, as
/// background, in its brighter variant where `intense` is set and the color
/// is a named one.
pub(crate) fn write_color_code<W: WriteColor>(
    wtr: &mut W,
    color: &Color,
    bg: bool,
    intense: bool,
) -> (r: Result<(), std::io::Error>)
    ensures
        final(wtr).capabilities() == old(wtr).capabilities(),
        old(wtr).capabilities().infallible ==> r is Ok,
        r is Ok ==> final(wtr).written() == old(wtr).written() + color_code(*color, bg, intense),
        r is Err ==> partly_appended(
            old(wtr).written(),
            final(wtr).written(),
            color_code(*color, bg, intense),
        ),
{
    match *color {
        Color::Ansi256(n) => write_palette(wtr, bg, n),
        Color::Rgb(r, g, b) => write_rgb(wtr, bg, r, g, b),
        _ => {
            match color.named_offset() {
                Some(offset) => {
                    if intense {
                        write_palette(wtr, bg, 8 + offset)
                    } else {
                        write_basic(wtr, bg, offset)
                    }
                },
                None => Ok(()),
            }
        },
    }
}

/// Writes the escape sequence that selects `color` as the foreground color
/// or, with `bg`, as the background color.
///
/// On success exactly `color_code(color, bg, false)` has been written. The
/// only errors are the writer's own, and then some leading part of the
/// sequence has been written.
pub fn ansi_color<W: WriteColor>(wtr: &mut W, color: &Color, bg: bool) -> (r: Result<
    (),
    std::io::Error,
>)
    ensures
        final(wtr).capabilities() == old(wtr).capabilities(),
        old(wtr).capabilities().infallible ==> r is Ok,
        r is Ok ==> final(wtr).written() == old(wtr).written() + color_code(*color, bg, false),
        r is Err ==> partly_appended(
            old(wtr).written(),
            final(wtr).written(),
            color_code(*color, bg, false),
        ),
{
    write_color_code(wtr, color, bg, false)
}

/// The `i`-th of the nine pieces a style is rendered as, in the order in
/// which they are written. A piece that the style does not call for is empty.
pub open spec fn style_piece(spec: ColorSpec, i: int) -> Seq<u8> {
    if i == 0 {
        when(spec.reset, reset_code())
    } else if i == 1 {
        when(spec.bold, attribute_code(1))
    } else if i == 2 {
        when(spec.dimmed, attribute_code(2))
    } else if i == 3 {
        when(spec.italic, attribute_code(3))
    } else if i == 4 {
        when(spec.underline, attribute_code(4))
    } else if i == 5 {
        when(spec.strikethrough, attribute_code(9))
    } else if i == 6 {
        optional_color_code(spec.fg_color, false, spec.intense)
    } else if i == 7 {
        optional_color_code(spec.bg_color, true, spec.intense)
    } else if i == 8 {
        when(spec.intense && spec.fg_color is Some, attribute_code(1))
    } else {
        Seq::empty()
    }
}

/// The first `n` pieces of a style, one after the other.
pub open spec fn style_prefix(spec: ColorSpec, n: int) -> Seq<u8>
    decreases n,
{
    if n <= 0 {
        Seq::empty()
    } else {
        style_prefix(spec, n - 1) + style_piece(spec, n - 1)
    }
}

/// A style is its nine pieces in order.
pub proof fn lemma_style_code_is_its_pieces(spec: ColorSpec)
    ensures
        style_code(spec) == style_prefix(spec, 9),
{
    reveal_with_fuel(style_prefix, 10);
}

/// The first `n` pieces of a style open the first `m`, for `n <= m`.
proof fn lemma_style_prefix_grows(spec: ColorSpec, n: int, m: int)
    requires
        0 <= n <= m,
    ensures
        style_prefix(spec, n).is_prefix_of(style_prefix(spec, m)),
    decreases m - n,
{
    if n < m {
        lemma_style_prefix_grows(spec, n, m - 1);
        let a = style_prefix(spec, n);
        let b = style_prefix(spec, m - 1);
        let c = style_prefix(spec, m);
    } else {
        let a = style_prefix(spec, n);
    }
}

/// Accounts for one piece of a style that has just been written, or left
/// out: `before` is what the writer held when the piece began, `start` what
/// it held when the style began.
proof fn lemma_piece_written(
    spec: ColorSpec,
    i: int,
    start: Seq<u8>,
    before: Seq<u8>,
    after: Seq<u8>,
    ok: bool,
)
    requires
        0 <= i < 9,
        before == start + style_prefix(spec, i),
        ok ==> after == before + style_piece(spec, i),
        !ok ==> partly_appended(before, after, style_piece(spec, i)),
    ensures
        ok ==> after == start + style_prefix(spec, i + 1),
        !ok ==> partly_appended(start, after, style_code(spec)),
{
    lemma_style_code_is_its_pieces(spec);
    lemma_style_prefix_grows(spec, i + 1, 9);
    if ok {
    } else {
        lemma_stopped_early(
            start,
            style_prefix(spec, i),
            style_piece(spec, i),
            style_code(spec),
            after,
        );
    }
}

/// Writes the `i`-th piece of a style where it is an attribute: the sequence
/// for `digit` if the style calls for it, nothing otherwise.
fn write_piece<W: WriteColor>(
    wtr: &mut W,
    present: bool,
    digit: u8,
    Ghost(start): Ghost<Seq<u8>>,
    Ghost(spec): Ghost<ColorSpec>,
    Ghost(i): Ghost<int>,
) -> (r: Result<(), std::io::Error>)
    requires
        digit < 10,
        0 <= i < 9,
        old(wtr).written() == start + style_prefix(spec, i),
        style_piece(spec, i) == when(present, attribute_code(digit as nat)),
    ensures
        final(wtr).capabilities() == old(wtr).capabilities(),
        old(wtr).capabilities().infallible ==> r is Ok,
        r is Ok ==> final(wtr).written() == start + style_prefix(spec, i + 1),
        r is Err ==> partly_appended(start, final(wtr).written(), style_code(spec)),
{
    if present {
        let r = write_attribute(wtr, digit);
        proof {
            lemma_piece_written(spec, i, start, old(wtr).written(), wtr.written(), r is Ok);
        }
        r
    } else {
        proof {
            lemma_piece_written(spec, i, start, old(wtr).written(), wtr.written(), true);
        }
        Ok(())
    }
}

/// Writes the `i`-th piece of a style where it is a color: the sequence for
/// `color` if there is one, nothing otherwise.
fn write_color_piece<W: WriteColor>(
    wtr: &mut W,
    color: Option<&Color>,
    bg: bool,
    intense: bool,
    Ghost(start): Ghost<Seq<u8>>,
    Ghost(spec): Ghost<ColorSpec>,
    Ghost(i): Ghost<int>,
) -> (r: Result<(), std::io::Error>)
    requires
        0 <= i < 9,
        old(wtr).written() == start + style_prefix(spec, i),
        style_piece(spec, i) == match color {
            Some(c) => color_code(*c, bg, intense),
            None => Seq::empty(),
        },
    ensures
        final(wtr).capabilities() == old(wtr).capabilities(),
        old(wtr).capabilities().infallible ==> r is Ok,
        r is Ok ==> final(wtr).written() == start + style_prefix(spec, i + 1),
        r is Err ==> partly_appended(start, final(wtr).written(), style_code(spec)),
{
    match color {
        Some(c) => {
            let r = write_color_code(wtr, c, bg, intense);
            proof {
                lemma_piece_written(spec, i, start, old(wtr).written(), wtr.written(), r is Ok);
            }
            r
        },
        None => {
            proof {
                lemma_piece_written(spec, i, start, old(wtr).written(), wtr.written(), true);
            }
            Ok(())
        },
    }
}

/// Writes the escape sequences that render `spec`, in the fixed order of
/// `style_code`: reset, bold, dim, italic, underline, strikethrough,
/// foreground, background, and a closing bold for an intense foreground.
///
/// On success exactly `style_code(spec)` has been written. The only errors
/// are the writer's own, and then some leading part of it has been written.
pub fn ansi_spec<W: WriteColor>(wtr: &mut W, spec: &ColorSpec) -> (r: Result<(), std::io::Error>)
    ensures
        final(wtr).capabilities() == old(wtr).capabilities(),
        old(wtr).capabilities().infallible ==> r is Ok,
        r is Ok ==> final(wtr).written() == old(wtr).written() + style_code(*spec),
        r is Err ==> partly_appended(old(wtr).written(), final(wtr).written(), style_code(*spec)),
{
    let ghost start = wtr.written();
    let ghost s = *spec;
    write_piece(wtr, spec.reset(), 0, Ghost(start), Ghost(s), Ghost(0))?;
    write_piece(wtr, spec.bold(), 1, Ghost(start), Ghost(s), Ghost(1))?;
    write_piece(wtr, spec.dimmed(), 2, Ghost(start), Ghost(s), Ghost(2))?;
    write_piece(wtr, spec.italic(), 3, Ghost(start), Ghost(s), Ghost(3))?;
    write_piece(wtr, spec.underline(), 4, Ghost(start), Ghost(s), Ghost(4))?;
    write_piece(wtr, spec.strikethrough(), 9, Ghost(start), Ghost(s), Ghost(5))?;
    write_color_piece(wtr, spec.fg(), false, spec.intense(), Ghost(start), Ghost(s), Ghost(6))?;
    write_color_piece(wtr, spec.bg(), true, spec.intense(), Ghost(start), Ghost(s), Ghost(7))?;
    let boost = spec.intense() && spec.fg().is_some();
    write_piece(wtr, boost, 1, Ghost(start), Ghost(s), Ghost(8))?;
    proof {
        lemma_style_code_is_its_pieces(s);
    }
    Ok(())
}

/// The digits of a number are ASCII.
pub proof fn lemma_decimal_is_ascii(n: nat)
    ensures
        is_ascii_bytes(decimal(n)),
    decreases n,
{
    if n >= 10 {
        lemma_decimal_is_ascii(n / 10);
    }
}

/// The escape sequence for a color is ASCII.
pub proof fn lemma_color_code_is_ascii(color: Color, bg: bool, intense: bool)
    ensures
        is_ascii_bytes(color_code(color, bg, intense)),
{
    match color {
        Color::Ansi256(n) => {
            lemma_decimal_is_ascii(n as nat);
        },
        Color::Rgb(r, g, b) => {
            lemma_decimal_is_ascii(r as nat);
            lemma_decimal_is_ascii(g as nat);
            lemma_decimal_is_ascii(b as nat);
        },
        _ => {
            lemma_decimal_is_ascii(8 + color.palette_offset());
        },
    }
}

/// Two runs of ASCII bytes in a row are a run of ASCII bytes.
proof fn lemma_ascii_concat(a: Seq<u8>, b: Seq<u8>)
    requires
        is_ascii_bytes(a),
        is_ascii_bytes(b),
    ensures
        is_ascii_bytes(a + b),
{
    assert forall|i: int| 0 <= i < (a + b).len() implies #[trigger] (a + b)[i] < 0x80 by {
        if i >= a.len() {
            assert((a + b)[i] == b[i - a.len()]);
        }
    }
}

/// Each piece of a style is ASCII.
proof fn lemma_style_piece_is_ascii(spec: ColorSpec, i: int)
    ensures
        is_ascii_bytes(style_piece(spec, i)),
{
    if i == 6 && spec.fg_color is Some {
        lemma_color_code_is_ascii(spec.fg_color->0, false, spec.intense);
    }
    if i == 7 && spec.bg_color is Some {
        lemma_color_code_is_ascii(spec.bg_color->0, true, spec.intense);
    }
}

/// The first `n` pieces of a style are ASCII.
proof fn lemma_style_prefix_is_ascii(spec: ColorSpec, n: int)
    ensures
        is_ascii_bytes(style_prefix(spec, n)),
    decreases n,
{
    if n > 0 {
        lemma_style_prefix_is_ascii(spec, n - 1);
        lemma_style_piece_is_ascii(spec, n - 1);
        lemma_ascii_concat(style_prefix(spec, n - 1), style_piece(spec, n - 1));
    }
}

/// The escape sequences for a style are ASCII, whatever the style.
pub proof fn lemma_style_code_is_ascii(spec: ColorSpec)
    ensures
        is_ascii_bytes(style_code(spec)),
{
    lemma_style_code_is_its_pieces(spec);
    lemma_style_prefix_is_ascii(spec, 9);
}

impl ColorSpec {
    /// The escape sequences that render this style, as text.
    pub fn to_string(&self) -> (r: String)
        ensures
            r@ == ascii_text(style_code(*self)),
    {
        let mut buf: Vec<u8> = Vec::new();
        let written = ansi_spec(&mut buf, self);
        proof {
            lemma_style_code_is_ascii(*self);
        }
        ascii_to_string(buf.as_slice())
    }
}

/// A pair of colors that can be rendered as the escape sequences that select
/// them, regardless of any other attribute.
pub struct AnsiColor {
    fg: Option<Color>,
    bg: Option<Color>,
}

/// Makes the pair of a foreground and a background color.
pub fn ansi_color_only(fg: Option<Color>, bg: Option<Color>) -> (r: AnsiColor)
    ensures
        r.foreground() == fg,
        r.background() == bg,
{
    AnsiColor { fg, bg }
}

impl AnsiColor {
    /// The foreground color, if there is one.
    pub closed spec fn foreground(&self) -> Option<Color> {
        self.fg
    }

    /// The background color, if there is one.
    pub closed spec fn background(&self) -> Option<Color> {
        self.bg
    }

    /// The escape sequences that select the two colors, as text: first the
    /// one for the foreground, then the one for the background, each only
    /// where there is a color.
    pub fn to_string(&self) -> (r: String)
        ensures
            r@ == ascii_text(
                optional_color_code(self.foreground(), false, false) + optional_color_code(
                    self.background(),
                    true,
                    false,
                ),
            ),
    {
        let mut buf: Vec<u8> = Vec::new();
        if let Some(c) = &self.fg {
            let written = ansi_color(&mut buf, c, false);
            proof {
                lemma_color_code_is_ascii(*c, false, false);
            }
        }
        let ghost first = buf@;
        if let Some(c) = &self.bg {
            let written = ansi_color(&mut buf, c, true);
            proof {
                lemma_color_code_is_ascii(*c, true, false);
            }
        }
        proof {
            lemma_ascii_concat(first, optional_color_code(self.bg, true, false));
        }
        ascii_to_string(buf.as_slice())
    }
}

} // verus!
