//! Parsing colors and styles from the text a user writes in a configuration.

use crate::color::Color;
use crate::style::{ColorSpec, Setting};
use crate::text::{
    ascii_lower, begins_with, chars_of, fields, is_word, lowercase, split_fields, stretches,
    to_lowercase, trim, trim_bounds,
};
use vstd::prelude::*;
use vstd::string::{StrSliceExecFns, StringExecFns};
use vstd::utf8::is_ascii_chars;

verus! {

/// What was wrong with a text that names no color.
#[derive(Clone, Copy, Debug, PartialEq, Eq, Structural)]
pub enum ParseColorErrorKind {
    /// The text is neither a color's name nor numeric.
    InvalidName,
    /// The text looks like a single number but is no palette index.
    InvalidAnsi256,
    /// The text holds commas but is no triple of numbers.
    InvalidRgb,
}

/// The content of a color parsing error: what was wrong, and with which
/// text.
pub struct ColorFault {
    pub kind: ParseColorErrorKind,
    pub given: Seq<char>,
}

/// The error of parsing a color from a text that names none.
#[derive(Clone, Debug, PartialEq, Eq)]
pub struct ParseColorError {
    kind: ParseColorErrorKind,
    given: String,
}

impl View for ParseColorError {
    type V = ColorFault;

    closed spec fn view(&self) -> ColorFault {
        ColorFault { kind: self.kind, given: self.given@ }
    }
}

/// The message for the user about a text that names no color: what was
/// wrong, what would have been right, and the text that was given.
pub open spec fn fault_message(fault: ColorFault) -> Seq<char> {
    match fault.kind {
        ParseColorErrorKind::InvalidName => "unrecognized color name '"@ + fault.given
            + "'. Choose from: black, blue, green, red, cyan, magenta, yellow, white"@,
        ParseColorErrorKind::InvalidAnsi256 =>
            "unrecognized ansi256 color number, should be '[0-255]' (or a hex number), but is '"@
            + fault.given + "'"@,
        ParseColorErrorKind::InvalidRgb =>
            "unrecognized RGB color triple, should be '[0-255],[0-255],[0-255]' (or a hex triple), but is '"@
            + fault.given + "'"@,
    }
}

/// The value of `c` as a digit in the given radix: `0` to `9`, then the
/// letters of either case from ten on. `None` where `c` is no digit or its
/// value does not fit the radix.
pub open spec fn digit_value(c: char, radix: nat) -> Option<nat> {
    let u = c as u32;
    let v: int = if 0x30 <= u <= 0x39 {
        u - 0x30
    } else if 0x61 <= u <= 0x7A {
        u - 0x61 + 10
    } else if 0x41 <= u <= 0x5A {
        u - 0x41 + 10
    } else {
        36
    };
    if v < radix {
        Some(v as nat)
    } else {
        None
    }
}

/// The number that a run of digits stands for, most significant digit
/// first. `None` where one of the characters is no digit.
pub open spec fn digits_value(s: Seq<char>, radix: nat) -> Option<nat>
    decreases s.len(),
{
    if s.len() == 0 {
        Some(0)
    } else {
        match (digits_value(s.drop_last(), radix), digit_value(s.last(), radix)) {
            (Some(v), Some(d)) => Some(v * radix + d),
            _ => None,
        }
    }
}

/// The 8-bit number that `s` stands for: an optional `+`, then at least one
/// digit, the whole no greater than 255. Leading zeros are allowed; white
/// space and a `-` are not.
pub open spec fn parse_u8(s: Seq<char>, radix: nat) -> Option<u8> {
    let digits = if s.len() > 0 && s[0] == '+' {
        s.skip(1)
    } else {
        s
    };
    if digits.len() == 0 {
        None
    } else {
        match digits_value(digits, radix) {
            Some(v) => if v <= 255 {
                Some(v as u8)
            } else {
                None
            },
            None => None,
        }
    }
}

/// The 8-bit number that `s` stands for: hexadecimal after a `0x`, decimal
/// otherwise.
pub open spec fn parse_number(s: Seq<char>) -> Option<u8> {
    if seq!['0', 'x'].is_prefix_of(s) {
        parse_u8(s.skip(2), 16)
    } else {
        parse_u8(s, 10)
    }
}

/// Whether `c` is one of `0` to `9`, `a` to `f` or `A` to `F`.
pub open spec fn is_hex_digit(c: char) -> bool {
    digit_value(c, 16) is Some
}

/// The color that a numeric text stands for. A text without a comma is a
/// palette index; one with two commas is an RGB triple; any other number of
/// commas is a failed triple. A failed palette index counts as a bad number
/// where it holds hexadecimal digits only, and as a bad name otherwise.
pub open spec fn numeric_color(s: Seq<char>) -> Result<Color, ParseColorErrorKind> {
    let codes = fields(s, ',');
    if codes.len() == 1 {
        match parse_number(codes[0]) {
            Some(n) => Ok(Color::Ansi256(n)),
            None => if forall|i: int| 0 <= i < s.len() ==> is_hex_digit(#[trigger] s[i]) {
                Err(ParseColorErrorKind::InvalidAnsi256)
            } else {
                Err(ParseColorErrorKind::InvalidName)
            },
        }
    } else if codes.len() == 3 {
        match (parse_number(codes[0]), parse_number(codes[1]), parse_number(codes[2])) {
            (Some(r), Some(g), Some(b)) => Ok(Color::Rgb(r, g, b)),
            _ => Err(ParseColorErrorKind::InvalidRgb),
        }
    } else {
        Err(ParseColorErrorKind::InvalidRgb)
    }
}

/// The named color that a lowercase name stands for.
pub open spec fn named_color(name: Seq<char>) -> Option<Color> {
    if name == "black"@ {
        Some(Color::Black)
    } else if name == "blue"@ {
        Some(Color::Blue)
    } else if name == "green"@ {
        Some(Color::Green)
    } else if name == "red"@ {
        Some(Color::Red)
    } else if name == "cyan"@ {
        Some(Color::Cyan)
    } else if name == "magenta"@ {
        Some(Color::Magenta)
    } else if name == "yellow"@ {
        Some(Color::Yellow)
    } else if name == "white"@ {
        Some(Color::White)
    } else {
        None
    }
}

/// The color that the text `s` with the lowercase form `name` stands for:
/// the named color if `name` is a color's name, or else what `s` stands for
/// as a numeric color.
pub open spec fn color_of(name: Seq<char>, s: Seq<char>) -> Result<Color, ColorFault> {
    match named_color(name) {
        Some(c) => Ok(c),
        None => match numeric_color(s) {
            Ok(c) => Ok(c),
            Err(kind) => Err(ColorFault { kind, given: s }),
        },
    }
}

/// The color that a text stands for: a color's name in any mix of upper and
/// lower case, or else a numeric color.
pub open spec fn parse_color(s: Seq<char>) -> Result<Color, ColorFault> {
    color_of(lowercase(s), s)
}

/// What a token of a style text is.
#[derive(Clone, Copy, Debug, PartialEq, Eq, Structural)]
pub enum TokenKind {
    /// Nothing at all.
    Empty,
    /// `fg:` and a color.
    Fg,
    /// `bg:` and a color.
    Bg,
    Bold,
    Dimmed,
    Underline,
    Italic,
    Intense,
    Strikethrough,
    Reset,
    NoReset,
    /// None of the words: a color by itself, for the foreground.
    Color,
}

/// What the trimmed token `token` is.
pub open spec fn token_kind(token: Seq<char>) -> TokenKind {
    if token.len() == 0 {
        TokenKind::Empty
    } else if "fg:"@.is_prefix_of(token) {
        TokenKind::Fg
    } else if "bg:"@.is_prefix_of(token) {
        TokenKind::Bg
    } else if token == "bold"@ {
        TokenKind::Bold
    } else if token == "dimmed"@ {
        TokenKind::Dimmed
    } else if token == "underline"@ {
        TokenKind::Underline
    } else if token == "italic"@ {
        TokenKind::Italic
    } else if token == "intense"@ {
        TokenKind::Intense
    } else if token == "strikethrough"@ {
        TokenKind::Strikethrough
    } else if token == "reset"@ {
        TokenKind::Reset
    } else if token == "noreset"@ {
        TokenKind::NoReset
    } else {
        TokenKind::Color
    }
}

/// The style `acc` with the color that `text` stands for as foreground or,
/// with `bg`, as background.
pub open spec fn with_color(acc: ColorSpec, text: Seq<char>, bg: bool) -> Result<
    ColorSpec,
    ColorFault,
> {
    match parse_color(text) {
        Ok(c) => Ok(
            if bg {
                acc.with(Setting::Bg(Some(c)))
            } else {
                acc.with(Setting::Fg(Some(c)))
            },
        ),
        Err(e) => Err(e),
    }
}

/// The style `acc` after one token of a style text. The token is trimmed.
///
/// An empty token changes nothing. `fg:` and `bg:` set a color, an
/// attribute's name switches it on, `reset` and `noreset` set the reset
/// flag, and any other token is a foreground color.
pub open spec fn apply_token(acc: ColorSpec, token: Seq<char>) -> Result<ColorSpec, ColorFault> {
    match token_kind(token) {
        TokenKind::Empty => Ok(acc),
        TokenKind::Fg => with_color(acc, token.skip(3), false),
        TokenKind::Bg => with_color(acc, token.skip(3), true),
        TokenKind::Bold => Ok(acc.with(Setting::Bold(true))),
        TokenKind::Dimmed => Ok(acc.with(Setting::Dimmed(true))),
        TokenKind::Underline => Ok(acc.with(Setting::Underline(true))),
        TokenKind::Italic => Ok(acc.with(Setting::Italic(true))),
        TokenKind::Intense => Ok(acc.with(Setting::Intense(true))),
        TokenKind::Strikethrough => Ok(acc.with(Setting::Strikethrough(true))),
        TokenKind::Reset => Ok(acc.with(Setting::Reset(true))),
        TokenKind::NoReset => Ok(acc.with(Setting::Reset(false))),
        TokenKind::Color => with_color(acc, token, false),
    }
}

/// The style `acc` after the tokens in `tokens`, each trimmed first, from
/// the first to the last. The first token that fails ends it.
pub open spec fn apply_tokens(acc: ColorSpec, tokens: Seq<Seq<char>>) -> Result<
    ColorSpec,
    ColorFault,
>
    decreases tokens.len(),
{
    if tokens.len() == 0 {
        Ok(acc)
    } else {
        match apply_token(acc, trim(tokens[0])) {
            Ok(next) => apply_tokens(next, tokens.skip(1)),
            Err(e) => Err(e),
        }
    }
}

/// The style that a text stands for: its comma-separated tokens applied in
/// order to the empty style, so that a later token overrides an earlier one
/// for the same attribute.
pub open spec fn parse_style(s: Seq<char>) -> Result<ColorSpec, ColorFault> {
    apply_tokens(ColorSpec::empty(), fields(s, ','))
}

/// A color's name stands for the color in any mix of upper and lower case:
/// whatever text has a name as its lowercase form is parsed as that color.
pub proof fn lemma_color_names_ignore_case(s: Seq<char>, color: Color)
    requires
        named_color(lowercase(s)) == Some(color),
    ensures
        parse_color(s) == Ok::<Color, ColorFault>(color),
{
}

/// The lowercase name of a named color.
pub open spec fn color_name(color: Color) -> Seq<char> {
    match color {
        Color::Black => "black"@,
        Color::Blue => "blue"@,
        Color::Green => "green"@,
        Color::Red => "red"@,
        Color::Cyan => "cyan"@,
        Color::Magenta => "magenta"@,
        Color::Yellow => "yellow"@,
        _ => "white"@,
    }
}

/// The names of the colors differ from each other, so that each stands for
/// its own color.
pub proof fn lemma_name_is_color(color: Color)
    requires
        color.is_named(),
    ensures
        named_color(color_name(color)) == Some(color),
{
    reveal_strlit("black");
    reveal_strlit("blue");
    reveal_strlit("green");
    reveal_strlit("red");
    reveal_strlit("cyan");
    reveal_strlit("magenta");
    reveal_strlit("yellow");
    reveal_strlit("white");
    assert("blue"@[0] == 'b' && "blue"@.len() == 4);
    assert("green"@[0] == 'g' && "green"@.len() == 5);
    assert("red"@[0] == 'r' && "red"@.len() == 3);
    assert("cyan"@[0] == 'c' && "cyan"@.len() == 4);
    assert("magenta"@[0] == 'm' && "magenta"@.len() == 7);
    assert("yellow"@[0] == 'y' && "yellow"@.len() == 6);
    assert("white"@[0] == 'w' && "white"@.len() == 5);
}

/// However the letters of a color's name are cased, the text is parsed as
/// that color: an ASCII text that spells the name once its capitals are
/// replaced by small letters stands for the color.
pub proof fn lemma_ascii_color_names_ignore_case(s: Seq<char>, color: Color)
    requires
        color.is_named(),
        is_ascii_chars(s),
        s.map_values(|c: char| ascii_lower(c)) == color_name(color),
    ensures
        parse_color(s) == Ok::<Color, ColorFault>(color),
{
    lemma_name_is_color(color);
}

/// A run of digits has a value only if every shorter run it begins with has
/// one, and that value is no greater.
proof fn lemma_digits_prefix(s: Seq<char>, radix: nat, k: int)
    requires
        radix >= 1,
        0 <= k <= s.len(),
        digits_value(s, radix) is Some,
    ensures
        digits_value(s.take(k), radix) is Some,
        digits_value(s.take(k), radix)->0 <= digits_value(s, radix)->0,
    decreases s.len(),
{
    if k == s.len() {
        assert(s.take(k) =~= s);
    } else {
        let v = digits_value(s.drop_last(), radix)->0;
        let d = digit_value(s.last(), radix)->0;
        lemma_digits_prefix(s.drop_last(), radix, k);
        assert(s.drop_last().take(k) =~= s.take(k));
        assert(v * radix + d >= v) by (nonlinear_arith)
            requires
                radix >= 1,
                v >= 0,
                d >= 0,
        ;
    }
}

/// Returns the value of `c` as a digit in the given radix.
fn digit_of(c: char, radix: u32) -> (r: Option<u32>)
    requires
        2 <= radix <= 36,
    ensures
        r matches Some(d) ==> digit_value(c, radix as nat) == Some(d as nat) && d < radix,
        r is None ==> digit_value(c, radix as nat) is None,
{
    let u: u32 = c as u32;
    let v: u32 = if 0x30 <= u && u <= 0x39 {
        u - 0x30
    } else if 0x61 <= u && u <= 0x7A {
        u - 0x61 + 10
    } else if 0x41 <= u && u <= 0x5A {
        u - 0x41 + 10
    } else {
        36
    };
    if v < radix {
        Some(v)
    } else {
        None
    }
}

/// Parses the stretch `from..to` of `cs` as an 8-bit number in the given
/// radix.
fn parse_u8_at(cs: &[char], from: usize, to: usize, radix: u32) -> (r: Option<u8>)
    requires
        from <= to <= cs@.len(),
        2 <= radix <= 36,
    ensures
        r == parse_u8(cs@.subrange(from as int, to as int), radix as nat),
{
    let ghost whole = cs@.subrange(from as int, to as int);
    let start: usize = if from < to && cs[from] == '+' {
        from + 1
    } else {
        from
    };
    let ghost digits = cs@.subrange(start as int, to as int);
    assert(digits =~= if whole.len() > 0 && whole[0] == '+' {
        whole.skip(1)
    } else {
        whole
    });
    if start == to {
        return None;
    }
    // The value so far, held at 256 once it no longer fits 8 bits.
    let mut acc: u32 = 0;
    let mut i: usize = start;
    while i < to
        invariant
            start <= i <= to <= cs@.len(),
            2 <= radix <= 36,
            digits == cs@.subrange(start as int, to as int),
            parse_u8(cs@.subrange(from as int, to as int), radix as nat) == match digits_value(
                digits,
                radix as nat,
            ) {
                Some(v) => if v <= 255 {
                    Some(v as u8)
                } else {
                    None
                },
                None => None,
            },
            digits_value(digits.take(i - start), radix as nat) is Some,
            acc <= 256,
            acc < 256 ==> acc == digits_value(digits.take(i - start), radix as nat)->0,
            acc == 256 ==> digits_value(digits.take(i - start), radix as nat)->0 >= 256,
        decreases to - i,
    {
        let ghost before = digits.take(i - start);
        let ghost now = digits.take(i - start + 1);
        proof {
            assert(now.drop_last() =~= before);
        }
        match digit_of(cs[i], radix) {
            None => {
                proof {
                    if digits_value(digits, radix as nat) is Some {
                        lemma_digits_prefix(digits, radix as nat, i - start + 1);
                    }
                }
                return None;
            },
            Some(d) => {
                let ghost v = digits_value(before, radix as nat)->0;
                proof {
                    if acc == 256 {
                        assert(v * (radix as nat) + d as nat >= 256) by (nonlinear_arith)
                            requires
                                v >= 256,
                                radix >= 2,
                                d >= 0,
                        ;
                    }
                    assert(acc * radix <= 256 * 36) by (nonlinear_arith)
                        requires
                            acc <= 256,
                            radix <= 36,
                    ;
                }
                let next: u32 = acc * radix + d;
                acc = if next > 256 {
                    256
                } else {
                    next
                };
                i += 1;
            },
        }
    }
    assert(digits.take(to - start) =~= digits);
    if acc <= 255 {
        Some(acc as u8)
    } else {
        None
    }
}

/// Parses the stretch `from..to` of `cs` as an 8-bit number, hexadecimal
/// after a `0x` and decimal otherwise.
fn parse_number_at(cs: &[char], from: usize, to: usize) -> (r: Option<u8>)
    requires
        from <= to <= cs@.len(),
    ensures
        r == parse_number(cs@.subrange(from as int, to as int)),
{
    let hex: [char; 2] = ['0', 'x'];
    if begins_with(cs, from, to, hex.as_slice()) {
        assert(cs@.subrange(from as int, to as int).skip(2) =~= cs@.subrange(from + 2, to as int));
        parse_u8_at(cs, from + 2, to, 16)
    } else {
        parse_u8_at(cs, from, to, 10)
    }
}

/// Returns true if and only if every character of `cs` is a hexadecimal
/// digit.
fn all_hex_digits(cs: &[char]) -> (r: bool)
    ensures
        r == (forall|i: int| 0 <= i < cs@.len() ==> is_hex_digit(#[trigger] cs@[i])),
{
    let mut i: usize = 0;
    while i < cs.len()
        invariant
            0 <= i <= cs@.len(),
            forall|k: int| 0 <= k < i ==> is_hex_digit(#[trigger] cs@[k]),
        decreases cs@.len() - i,
    {
        if digit_of(cs[i], 16).is_none() {
            return false;
        }
        i += 1;
    }
    true
}

impl ParseColorError {
    /// Returns the text that could not be parsed as a color.
    pub fn invalid(&self) -> (r: &str)
        ensures
            r@ == self@.given,
    {
        self.given.as_str()
    }

    /// Returns what was wrong with the text.
    pub fn kind(&self) -> (r: ParseColorErrorKind)
        ensures
            r == self@.kind,
    {
        self.kind
    }

    /// A short description of what was wrong, without the text.
    pub fn description(&self) -> (r: &'static str)
        ensures
            r@ == match self@.kind {
                ParseColorErrorKind::InvalidName => "unrecognized color name"@,
                ParseColorErrorKind::InvalidAnsi256 => "invalid ansi256 color number"@,
                ParseColorErrorKind::InvalidRgb => "invalid RGB color triple"@,
            },
    {
        match self.kind {
            ParseColorErrorKind::InvalidName => "unrecognized color name",
            ParseColorErrorKind::InvalidAnsi256 => "invalid ansi256 color number",
            ParseColorErrorKind::InvalidRgb => "invalid RGB color triple",
        }
    }

    /// The message for the user: what was wrong, what would have been right,
    /// and the text that was given.
    pub fn to_string(&self) -> (r: String)
        ensures
            r@ == fault_message(self@),
    {
        match self.kind {
            ParseColorErrorKind::InvalidName => {
                let mut msg = String::from_str("unrecognized color name '");
                msg.append(self.given.as_str());
                msg.append("'. Choose from: black, blue, green, red, cyan, magenta, yellow, white");
                msg
            },
            ParseColorErrorKind::InvalidAnsi256 => {
                let mut msg = String::from_str(
                    "unrecognized ansi256 color number, should be '[0-255]' (or a hex number), but is '",
                );
                msg.append(self.given.as_str());
                msg.append("'");
                msg
            },
            ParseColorErrorKind::InvalidRgb => {
                let mut msg = String::from_str(
                    "unrecognized RGB color triple, should be '[0-255],[0-255],[0-255]' (or a hex triple), but is '",
                );
                msg.append(self.given.as_str());
                msg.append("'");
                msg
            },
        }
    }
}

/// Returns what the trimmed token `cs` is.
fn token_kind_of(cs: &[char]) -> (r: TokenKind)
    ensures
        r == token_kind(cs@),
{
    let n = cs.len();
    if n == 0 {
        return TokenKind::Empty;
    }
    let fg: [char; 3] = ['f', 'g', ':'];
    let bg: [char; 3] = ['b', 'g', ':'];
    let bold: [char; 4] = ['b', 'o', 'l', 'd'];
    let dimmed: [char; 6] = ['d', 'i', 'm', 'm', 'e', 'd'];
    let underline: [char; 9] = ['u', 'n', 'd', 'e', 'r', 'l', 'i', 'n', 'e'];
    let italic: [char; 6] = ['i', 't', 'a', 'l', 'i', 'c'];
    let intense: [char; 7] = ['i', 'n', 't', 'e', 'n', 's', 'e'];
    let strikethrough: [char; 13] = [
        's',
        't',
        'r',
        'i',
        'k',
        'e',
        't',
        'h',
        'r',
        'o',
        'u',
        'g',
        'h',
    ];
    let reset: [char; 5] = ['r', 'e', 's', 'e', 't'];
    let noreset: [char; 7] = ['n', 'o', 'r', 'e', 's', 'e', 't'];
    proof {
        reveal_strlit("fg:");
        reveal_strlit("bg:");
        reveal_strlit("bold");
        reveal_strlit("dimmed");
        reveal_strlit("underline");
        reveal_strlit("italic");
        reveal_strlit("intense");
        reveal_strlit("strikethrough");
        reveal_strlit("reset");
        reveal_strlit("noreset");
        assert(bold@ =~= "bold"@);
        assert(dimmed@ =~= "dimmed"@);
        assert(underline@ =~= "underline"@);
        assert(italic@ =~= "italic"@);
        assert(intense@ =~= "intense"@);
        assert(strikethrough@ =~= "strikethrough"@);
        assert(reset@ =~= "reset"@);
        assert(noreset@ =~= "noreset"@);
        assert(cs@.subrange(0, n as int) =~= cs@);
    }
    if begins_with(cs, 0, n, fg.as_slice()) {
        TokenKind::Fg
    } else if begins_with(cs, 0, n, bg.as_slice()) {
        TokenKind::Bg
    } else if is_word(cs, 0, n, bold.as_slice()) {
        TokenKind::Bold
    } else if is_word(cs, 0, n, dimmed.as_slice()) {
        TokenKind::Dimmed
    } else if is_word(cs, 0, n, underline.as_slice()) {
        TokenKind::Underline
    } else if is_word(cs, 0, n, italic.as_slice()) {
        TokenKind::Italic
    } else if is_word(cs, 0, n, intense.as_slice()) {
        TokenKind::Intense
    } else if is_word(cs, 0, n, strikethrough.as_slice()) {
        TokenKind::Strikethrough
    } else if is_word(cs, 0, n, reset.as_slice()) {
        TokenKind::Reset
    } else if is_word(cs, 0, n, noreset.as_slice()) {
        TokenKind::NoReset
    } else {
        TokenKind::Color
    }
}

/// Looks up the named color that a lowercase name stands for.
fn named_color_of(cs: &[char]) -> (r: Option<Color>)
    ensures
        r == named_color(cs@),
{
    let n = cs.len();
    let black: [char; 5] = ['b', 'l', 'a', 'c', 'k'];
    let blue: [char; 4] = ['b', 'l', 'u', 'e'];
    let green: [char; 5] = ['g', 'r', 'e', 'e', 'n'];
    let red: [char; 3] = ['r', 'e', 'd'];
    let cyan: [char; 4] = ['c', 'y', 'a', 'n'];
    let magenta: [char; 7] = ['m', 'a', 'g', 'e', 'n', 't', 'a'];
    let yellow: [char; 6] = ['y', 'e', 'l', 'l', 'o', 'w'];
    let white: [char; 5] = ['w', 'h', 'i', 't', 'e'];
    proof {
        reveal_strlit("black");
        reveal_strlit("blue");
        reveal_strlit("green");
        reveal_strlit("red");
        reveal_strlit("cyan");
        reveal_strlit("magenta");
        reveal_strlit("yellow");
        reveal_strlit("white");
        assert(black@ =~= "black"@);
        assert(blue@ =~= "blue"@);
        assert(green@ =~= "green"@);
        assert(red@ =~= "red"@);
        assert(cyan@ =~= "cyan"@);
        assert(magenta@ =~= "magenta"@);
        assert(yellow@ =~= "yellow"@);
        assert(white@ =~= "white"@);
        assert(cs@.subrange(0, n as int) =~= cs@);
    }
    if is_word(cs, 0, n, black.as_slice()) {
        Some(Color::Black)
    } else if is_word(cs, 0, n, blue.as_slice()) {
        Some(Color::Blue)
    } else if is_word(cs, 0, n, green.as_slice()) {
        Some(Color::Green)
    } else if is_word(cs, 0, n, red.as_slice()) {
        Some(Color::Red)
    } else if is_word(cs, 0, n, cyan.as_slice()) {
        Some(Color::Cyan)
    } else if is_word(cs, 0, n, magenta.as_slice()) {
        Some(Color::Magenta)
    } else if is_word(cs, 0, n, yellow.as_slice()) {
        Some(Color::Yellow)
    } else if is_word(cs, 0, n, white.as_slice()) {
        Some(Color::White)
    } else {
        None
    }
}

impl Color {
    /// Parses the color that the text `s` stands for, given its lowercase
    /// form `name`: the named color if `name` is a color's name, or else the
    /// numeric color that `s` is.
    pub fn from_lowercase(name: &str, s: &str) -> (r: Result<Color, ParseColorError>)
        ensures
            match r {
                Ok(c) => color_of(name@, s@) == Ok::<Color, ColorFault>(c),
                Err(e) => color_of(name@, s@) == Err::<Color, ColorFault>(e@),
            },
    {
        let cs = chars_of(name);
        match named_color_of(cs.as_slice()) {
            Some(c) => Ok(c),
            None => Color::from_str_numeric(s),
        }
    }

    /// Parses a color from its text: one of the eight names, in any mix of
    /// upper and lower case, or a palette index, or an RGB triple.
    pub fn from_str(s: &str) -> (r: Result<Color, ParseColorError>)
        ensures
            match r {
                Ok(c) => parse_color(s@) == Ok::<Color, ColorFault>(c),
                Err(e) => parse_color(s@) == Err::<Color, ColorFault>(e@),
            },
    {
        let name = to_lowercase(s);
        Color::from_lowercase(name.as_str(), s)
    }

    /// Parses a numeric color: a palette index, or an RGB triple separated
    /// by commas, each number decimal or, after `0x`, hexadecimal.
    pub fn from_str_numeric(s: &str) -> (r: Result<Color, ParseColorError>)
        ensures
            match r {
                Ok(c) => numeric_color(s@) == Ok::<Color, ParseColorErrorKind>(c),
                Err(e) => numeric_color(s@) == Err::<Color, ParseColorErrorKind>(e@.kind)
                    && e@.given == s@,
            },
    {
        let v = chars_of(s);
        let cs = v.as_slice();
        let codes = split_fields(cs, ',');
        proof {
            let spec_codes = fields(s@, ',');
            assert forall|k: int| 0 <= k < codes@.len() implies spec_codes[k] == cs@.subrange(
                codes@[k].0 as int,
                codes@[k].1 as int,
            ) by {
                assert(stretches(cs@, codes@)[k] == spec_codes[k]);
            }
        }
        if codes.len() == 1 {
            match parse_number_at(cs, codes[0].0, codes[0].1) {
                Some(index) => Ok(Color::Ansi256(index)),
                None => if all_hex_digits(cs) {
                    Err(
                        ParseColorError {
                            kind: ParseColorErrorKind::InvalidAnsi256,
                            given: s.to_owned(),
                        },
                    )
                } else {
                    Err(
                        ParseColorError {
                            kind: ParseColorErrorKind::InvalidName,
                            given: s.to_owned(),
                        },
                    )
                },
            }
        } else if codes.len() == 3 {
            let red = parse_number_at(cs, codes[0].0, codes[0].1);
            let green = parse_number_at(cs, codes[1].0, codes[1].1);
            let blue = parse_number_at(cs, codes[2].0, codes[2].1);
            match (red, green, blue) {
                (Some(r), Some(g), Some(b)) => Ok(Color::Rgb(r, g, b)),
                _ => Err(
                    ParseColorError { kind: ParseColorErrorKind::InvalidRgb, given: s.to_owned() },
                ),
            }
        } else {
            Err(ParseColorError { kind: ParseColorErrorKind::InvalidRgb, given: s.to_owned() })
        }
    }
}

impl std::str::FromStr for Color {
    type Err = ParseColorError;

    fn from_str(s: &str) -> (r: Result<Color, ParseColorError>)
        ensures
            match r {
                Ok(c) => parse_color(s@) == Ok::<Color, ColorFault>(c),
                Err(e) => parse_color(s@) == Err::<Color, ColorFault>(e@),
            },
    {
        Color::from_str(s)
    }
}

/// The error of parsing a style from a text that is none.
#[derive(Clone, Debug, PartialEq, Eq)]
pub enum ColorSpecParseError {
    /// One of the tokens should have been a color and is none.
    InvalidColor(ParseColorError),
}

impl View for ColorSpecParseError {
    type V = ColorFault;

    open spec fn view(&self) -> ColorFault {
        match self {
            ColorSpecParseError::InvalidColor(e) => e@,
        }
    }
}

impl ColorSpecParseError {
    /// The color parsing error behind this error.
    pub fn source(&self) -> (r: &ParseColorError)
        ensures
            r@ == self@,
    {
        match self {
            ColorSpecParseError::InvalidColor(e) => e,
        }
    }

    /// The message for the user, which is that of the color parsing error.
    pub fn to_string(&self) -> (r: String)
        ensures
            r@ == fault_message(self@),
    {
        match self {
            ColorSpecParseError::InvalidColor(e) => e.to_string(),
        }
    }
}

impl ColorSpec {
    /// Sets the color that `text` stands for as the foreground or, with
    /// `bg`, as the background of this style. On an error the style is as
    /// it was.
    pub fn set_color_from(&mut self, text: &str, bg: bool) -> (r: Result<(), ColorSpecParseError>)
        ensures
            match r {
                Ok(()) => with_color(*old(self), text@, bg) == Ok::<ColorSpec, ColorFault>(
                    *final(self),
                ),
                Err(e) => with_color(*old(self), text@, bg) == Err::<ColorSpec, ColorFault>(e@)
                    && *final(self) == *old(self),
            },
    {
        match Color::from_str(text) {
            Ok(color) => {
                if bg {
                    self.set_bg(Some(color));
                } else {
                    self.set_fg(Some(color));
                }
                Ok(())
            },
            Err(e) => Err(ColorSpecParseError::InvalidColor(e)),
        }
    }

    /// Applies one token of a style text, already trimmed, to this style.
    /// On an error the style is as it was.
    pub fn apply_token(&mut self, token: &str) -> (r: Result<(), ColorSpecParseError>)
        ensures
            match r {
                Ok(()) => apply_token(*old(self), token@) == Ok::<ColorSpec, ColorFault>(
                    *final(self),
                ),
                Err(e) => apply_token(*old(self), token@) == Err::<ColorSpec, ColorFault>(e@)
                    && *final(self) == *old(self),
            },
    {
        let v = chars_of(token);
        let kind = token_kind_of(v.as_slice());
        match kind {
            TokenKind::Empty => Ok(()),
            TokenKind::Fg => {
                proof {
                    reveal_strlit("fg:");
                }
                self.set_color_from(token.substring_char(3, v.len()), false)
            },
            TokenKind::Bg => {
                proof {
                    reveal_strlit("bg:");
                }
                self.set_color_from(token.substring_char(3, v.len()), true)
            },
            TokenKind::Bold => {
                self.set_bold(true);
                Ok(())
            },
            TokenKind::Dimmed => {
                self.set_dimmed(true);
                Ok(())
            },
            TokenKind::Underline => {
                self.set_underline(true);
                Ok(())
            },
            TokenKind::Italic => {
                self.set_italic(true);
                Ok(())
            },
            TokenKind::Intense => {
                self.set_intense(true);
                Ok(())
            },
            TokenKind::Strikethrough => {
                self.set_strikethrough(true);
                Ok(())
            },
            TokenKind::Reset => {
                self.set_reset(true);
                Ok(())
            },
            TokenKind::NoReset => {
                self.set_reset(false);
                Ok(())
            },
            TokenKind::Color => self.set_color_from(token, false),
        }
    }

    /// Parses a style from its text: a comma-separated list of tokens, each
    /// trimmed, empty ones skipped. The first token that is neither a known
    /// word nor a color fails the whole with that color's error.
    pub fn from_str(spec: &str) -> (r: Result<ColorSpec, ColorSpecParseError>)
        ensures
            match r {
                Ok(style) => parse_style(spec@) == Ok::<ColorSpec, ColorFault>(style),
                Err(e) => parse_style(spec@) == Err::<ColorSpec, ColorFault>(e@),
            },
    {
        let v = chars_of(spec);
        let cs = v.as_slice();
        let parts = split_fields(cs, ',');
        let ghost tokens = fields(spec@, ',');
        let mut style = ColorSpec::new();
        let mut k: usize = 0;
        assert(tokens.skip(0) =~= tokens);
        while k < parts.len()
            invariant
                0 <= k <= parts@.len(),
                cs@ == spec@,
                tokens == fields(spec@, ','),
                stretches(cs@, parts@) == tokens,
                forall|j: int|
                    0 <= j < parts@.len() ==> (#[trigger] parts@[j]).0 <= parts@[j].1 <= cs@.len(),
                parse_style(spec@) == apply_tokens(style, tokens.skip(k as int)),
            decreases parts@.len() - k,
        {
            let (from, to) = parts[k];
            let (a, b) = trim_bounds(cs, from, to);
            proof {
                assert(tokens.skip(k as int).skip(1) =~= tokens.skip(k + 1));
            }
            let token = spec.substring_char(a, b);
            match style.apply_token(token) {
                Ok(()) => {},
                Err(e) => {
                    return Err(e);
                },
            }
            k += 1;
        }
        Ok(style)
    }
}

impl std::str::FromStr for ColorSpec {
    type Err = ColorSpecParseError;

    fn from_str(s: &str) -> (r: Result<ColorSpec, ColorSpecParseError>)
        ensures
            match r {
                Ok(style) => parse_style(s@) == Ok::<ColorSpec, ColorFault>(style),
                Err(e) => parse_style(s@) == Err::<ColorSpec, ColorFault>(e@),
            },
    {
        ColorSpec::from_str(s)
    }
}

} // verus!
