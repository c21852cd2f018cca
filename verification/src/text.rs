//! Plain operations on text that the parsers are built from: what white
//! space is, where a field ends, what trimming leaves.

use vstd::prelude::*;
use vstd::string::StringSliceAdditionalSpecFns;
use vstd::utf8::{encode_utf8, is_ascii_chars, is_leading_byte_width_1, valid_utf8};

verus! {

/// The lowercase form of a text as Unicode defines it, which for some
/// characters depends on their neighbours and may be longer than the text.
pub uninterp spec fn unicode_lowercase(s: Seq<char>) -> Seq<char>;

/// The lowercase form of an ASCII letter; any other character as it is.
pub open spec fn ascii_lower(c: char) -> char {
    if 0x41 <= c as u32 <= 0x5A {
        ((c as u32) + 0x20) as char
    } else {
        c
    }
}

/// The lowercase form of a text. A text of ASCII characters has each of its
/// letters `A` to `Z` replaced by `a` to `z`; any other text is lowercased
/// as Unicode defines it.
pub open spec fn lowercase(s: Seq<char>) -> Seq<char> {
    if is_ascii_chars(s) {
        s.map_values(|c: char| ascii_lower(c))
    } else {
        unicode_lowercase(s)
    }
}

/// Calls `str::to_lowercase`. The contract only gives the result its name:
/// the Unicode lowercase form of the argument.
#[verifier::external_body]
fn unicode_to_lowercase(s: &str) -> (r: String)
    ensures
        r@ == unicode_lowercase(s@),
{
    s.to_lowercase()
}

/// Calls `str::to_ascii_lowercase`, which maps the ASCII letters `A` to `Z`
/// to `a` to `z` and leaves every other character unchanged.
#[verifier::external_body]
fn ascii_to_lowercase(s: &str) -> (r: String)
    ensures
        r@ == s@.map_values(|c: char| ascii_lower(c)),
{
    s.to_ascii_lowercase()
}

/// Whether `n` is how far `bytes` is valid UTF-8: the greatest length of a
/// leading part of `bytes` that is valid UTF-8.
pub open spec fn is_valid_up_to(bytes: Seq<u8>, n: int) -> bool {
    &&& 0 <= n <= bytes.len()
    &&& valid_utf8(bytes.take(n))
    &&& forall|k: int| n < k <= bytes.len() ==> !valid_utf8(#[trigger] bytes.take(k))
}

/// Calls `std::str::from_utf8`, and on an error `Utf8Error::valid_up_to`.
///
/// The bytes are returned as text exactly where they are valid UTF-8.
/// Where they are not, the error is the greatest index up to which they
/// are, as the documentation of `valid_up_to` defines it.
#[verifier::external_body]
pub(crate) fn from_utf8(buf: &[u8]) -> (r: Result<&str, usize>)
    ensures
        match r {
            Ok(s) => valid_utf8(buf@) && s.spec_bytes() == buf@,
            Err(n) => !valid_utf8(buf@) && is_valid_up_to(buf@, n as int),
        },
{
    match std::str::from_utf8(buf) {
        Ok(s) => Ok(s),
        Err(e) => Err(e.valid_up_to()),
    }
}

/// Whether every byte of `bytes` is an ASCII character.
pub open spec fn is_ascii_bytes(bytes: Seq<u8>) -> bool {
    forall|i: int| 0 <= i < bytes.len() ==> #[trigger] bytes[i] < 0x80
}

/// The text whose characters are the bytes of `bytes`, one for one.
pub open spec fn ascii_text(bytes: Seq<u8>) -> Seq<char> {
    bytes.map_values(|b: u8| b as char)
}

/// ASCII bytes are valid UTF-8, and the text that they encode has one
/// character for each byte.
pub proof fn lemma_ascii_is_text(bytes: Seq<u8>)
    requires
        is_ascii_bytes(bytes),
    ensures
        valid_utf8(bytes),
        encode_utf8(ascii_text(bytes)) == bytes,
{
    assert forall|i: int| 0 <= i < bytes.len() implies #[trigger] is_leading_byte_width_1(
        bytes[i],
    ) by {
        let b = bytes[i];
        assert(b < 0x80 ==> b & 0x80 == 0) by (bit_vector);
    }
    vstd::utf8::partial_valid_utf8_extend_ascii_block(bytes, 0, bytes.len() as int);
    assert(bytes.subrange(0, bytes.len() as int) =~= bytes);
    let text = ascii_text(bytes);
    assert(is_ascii_chars(text)) by {
        assert forall|i: int| 0 <= i < text.len() implies '\0' <= #[trigger] text[i]
            <= '\u{7f}' by {
            assert(text[i] == bytes[i] as char);
        }
    }
    vstd::utf8::is_ascii_chars_encode_utf8(text);
    assert(encode_utf8(text) =~= bytes) by {
        assert forall|i: int| 0 <= i < bytes.len() implies encode_utf8(text)[i] == bytes[i] by {
            assert(text[i] as u8 == encode_utf8(text)[i]);
        }
    }
}

/// Returns the text that the ASCII bytes `bytes` are.
pub(crate) fn ascii_to_string(bytes: &[u8]) -> (r: String)
    requires
        is_ascii_bytes(bytes@),
    ensures
        r@ == ascii_text(bytes@),
{
    proof {
        lemma_ascii_is_text(bytes@);
    }
    match from_utf8(bytes) {
        Ok(s) => {
            proof {
                vstd::utf8::encode_utf8_decode_utf8(s@);
                vstd::utf8::encode_utf8_decode_utf8(ascii_text(bytes@));
            }
            s.to_owned()
        },
        Err(_) => String::new(),
    }
}

/// Returns the lowercase form of `s`.
pub fn to_lowercase(s: &str) -> (r: String)
    ensures
        r@ == lowercase(s@),
{
    if s.is_ascii() {
        ascii_to_lowercase(s)
    } else {
        unicode_to_lowercase(s)
    }
}

/// Whether `c` is white space: one of the code points that Unicode gives the
/// property `White_Space`.
pub open spec fn is_whitespace(c: char) -> bool {
    let u = c as u32;
    ||| 0x09 <= u <= 0x0D
    ||| u == 0x20
    ||| u == 0x85
    ||| u == 0xA0
    ||| u == 0x1680
    ||| 0x2000 <= u <= 0x200A
    ||| u == 0x2028
    ||| u == 0x2029
    ||| u == 0x202F
    ||| u == 0x205F
    ||| u == 0x3000
}

/// `s` without the white space it begins with.
pub open spec fn trim_start(s: Seq<char>) -> Seq<char>
    decreases s.len(),
{
    if s.len() > 0 && is_whitespace(s[0]) {
        trim_start(s.skip(1))
    } else {
        s
    }
}

/// `s` without the white space it ends with.
pub open spec fn trim_end(s: Seq<char>) -> Seq<char>
    decreases s.len(),
{
    if s.len() > 0 && is_whitespace(s.last()) {
        trim_end(s.drop_last())
    } else {
        s
    }
}

/// `s` without the white space at either end.
pub open spec fn trim(s: Seq<char>) -> Seq<char> {
    trim_end(trim_start(s))
}

/// The length of the first field of `s`: the position of the first `sep`,
/// or the length of `s` where it holds none.
pub open spec fn field_len(s: Seq<char>, sep: char) -> int
    decreases s.len(),
{
    if s.len() == 0 || s[0] == sep {
        0
    } else {
        1 + field_len(s.skip(1), sep)
    }
}

/// The fields of `s`: the stretches between one `sep` and the next. A text
/// with `n` separators has `n + 1` fields, some of which may be empty.
pub open spec fn fields(s: Seq<char>, sep: char) -> Seq<Seq<char>>
    decreases s.len(),
{
    let n = field_len(s, sep);
    if 0 <= n < s.len() {
        seq![s.take(n)] + fields(s.skip(n + 1), sep)
    } else {
        seq![s]
    }
}

/// A stretch without a separator that ends at one, or at the end of the
/// text, is the first field.
proof fn lemma_field_len_found(s: Seq<char>, sep: char, n: int)
    requires
        0 <= n <= s.len(),
        n < s.len() ==> s[n] == sep,
        forall|i: int| 0 <= i < n ==> s[i] != sep,
    ensures
        field_len(s, sep) == n,
    decreases n,
{
    if n > 0 {
        assert forall|i: int| 0 <= i < n - 1 implies s.skip(1)[i] != sep by {
        }
        lemma_field_len_found(s.skip(1), sep, n - 1);
    }
}

/// Returns true if and only if `c` is white space.
pub fn char_is_whitespace(c: char) -> (r: bool)
    ensures
        r == is_whitespace(c),
{
    let u: u32 = c as u32;
    (0x09 <= u && u <= 0x0D) || u == 0x20 || u == 0x85 || u == 0xA0 || u == 0x1680 || (0x2000 <= u
        && u <= 0x200A) || u == 0x2028 || u == 0x2029 || u == 0x202F || u == 0x205F || u == 0x3000
}

/// The characters of `s`, in order.
pub fn chars_of(s: &str) -> (v: Vec<char>)
    ensures
        v@ == s@,
{
    let mut v: Vec<char> = Vec::new();
    for c in it: s.chars()
        invariant
            it.seq() == s@,
            v@ == it.seq().take(it.index() as int),
    {
        v.push(c);
    }
    v
}

/// Finds where the field that begins at `from` ends: at the next `sep`, or
/// at the end of the text.
pub(crate) fn find_field_end(cs: &[char], from: usize, sep: char) -> (end: usize)
    requires
        from <= cs@.len(),
    ensures
        from <= end <= cs@.len(),
        end - from == field_len(cs@.skip(from as int), sep),
        end < cs@.len() ==> cs@[end as int] == sep,
{
    let mut i: usize = from;
    while i < cs.len() && cs[i] != sep
        invariant
            from <= i <= cs@.len(),
            forall|k: int| from <= k < i ==> cs@[k] != sep,
        decreases cs@.len() - i,
    {
        i += 1;
    }
    proof {
        lemma_field_len_found(cs@.skip(from as int), sep, i - from);
    }
    i
}

/// The stretches of `s` that the bounds in `ranges` mark out.
pub open spec fn stretches(s: Seq<char>, ranges: Seq<(usize, usize)>) -> Seq<Seq<char>> {
    Seq::new(ranges.len(), |k: int| s.subrange(ranges[k].0 as int, ranges[k].1 as int))
}

/// Splits `cs` at every `sep` and returns the bounds of its fields, in
/// order.
pub fn split_fields(cs: &[char], sep: char) -> (out: Vec<(usize, usize)>)
    ensures
        stretches(cs@, out@) == fields(cs@, sep),
        out@.len() >= 1,
        forall|k: int| 0 <= k < out@.len() ==> (#[trigger] out@[k]).0 <= out@[k].1 <= cs@.len(),
{
    let mut out: Vec<(usize, usize)> = Vec::new();
    let mut pos: usize = 0;
    assert(cs@.skip(0) =~= cs@);
    loop
        invariant
            pos <= cs@.len(),
            forall|k: int| 0 <= k < out@.len() ==> (#[trigger] out@[k]).0 <= out@[k].1 <= cs@.len(),
            fields(cs@, sep) == stretches(cs@, out@) + fields(cs@.skip(pos as int), sep),
        decreases cs@.len() - pos,
    {
        let end = find_field_end(cs, pos, sep);
        let ghost rest = cs@.skip(pos as int);
        out.push((pos, end));
        proof {
            assert(rest.take(end - pos) =~= cs@.subrange(pos as int, end as int));
        }
        if end == cs.len() {
            return out;
        }
        proof {
            assert(rest.skip(end - pos + 1) =~= cs@.skip(end + 1));
        }
        pos = end + 1;
    }
}

/// Trims the stretch `from..to` of `cs` and returns the bounds of what is
/// left.
pub(crate) fn trim_bounds(cs: &[char], from: usize, to: usize) -> (r: (usize, usize))
    requires
        from <= to <= cs@.len(),
    ensures
        from <= r.0 <= r.1 <= to,
        cs@.subrange(r.0 as int, r.1 as int) == trim(cs@.subrange(from as int, to as int)),
{
    let mut a: usize = from;
    while a < to && char_is_whitespace(cs[a])
        invariant
            from <= a <= to <= cs@.len(),
            trim_start(cs@.subrange(from as int, to as int)) == trim_start(
                cs@.subrange(a as int, to as int),
            ),
        decreases to - a,
    {
        assert(cs@.subrange(a as int, to as int).skip(1) =~= cs@.subrange(a + 1, to as int));
        a += 1;
    }
    let mut b: usize = to;
    while b > a && char_is_whitespace(cs[b - 1])
        invariant
            a <= b <= to <= cs@.len(),
            trim_end(cs@.subrange(a as int, to as int)) == trim_end(
                cs@.subrange(a as int, b as int),
            ),
        decreases b - a,
    {
        assert(cs@.subrange(a as int, b as int).drop_last() =~= cs@.subrange(a as int, b - 1));
        b -= 1;
    }
    (a, b)
}

/// Returns true if and only if the stretch `from..to` of `cs` begins with
/// `word`.
pub(crate) fn begins_with(cs: &[char], from: usize, to: usize, word: &[char]) -> (r: bool)
    requires
        from <= to <= cs@.len(),
    ensures
        r == word@.is_prefix_of(cs@.subrange(from as int, to as int)),
{
    if word.len() > to - from {
        return false;
    }
    let ghost part = cs@.subrange(from as int, to as int);
    let mut i: usize = 0;
    while i < word.len()
        invariant
            from <= to <= cs@.len(),
            word@.len() <= to - from,
            part == cs@.subrange(from as int, to as int),
            0 <= i <= word@.len(),
            forall|k: int| 0 <= k < i ==> word@[k] == part[k],
        decreases word@.len() - i,
    {
        if word[i] != cs[from + i] {
            return false;
        }
        i += 1;
    }
    true
}

/// Returns true if and only if the stretch `from..to` of `cs` is exactly
/// `word`.
pub(crate) fn is_word(cs: &[char], from: usize, to: usize, word: &[char]) -> (r: bool)
    requires
        from <= to <= cs@.len(),
    ensures
        r == (cs@.subrange(from as int, to as int) == word@),
{
    if word.len() != to - from {
        return false;
    }
    let r = begins_with(cs, from, to, word);
    proof {
        let part = cs@.subrange(from as int, to as int);
        assert(part.subrange(0, word@.len() as int) =~= part);
    }
    r
}

} // verus!
