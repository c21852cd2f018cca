//! Writers that collect text in a `String`. They take only bytes that are
//! valid UTF-8, and they ignore every style.

use crate::style::{ColorSpec, HyperlinkSpec};
use crate::text::from_utf8;
use crate::traits::{new_error, Capabilities, Failure, WriteColor};
use vstd::prelude::*;
use vstd::string::StringExecFns;
use vstd::utf8::{decode_utf8, encode_utf8, valid_utf8};

verus! {

/// `String::with_capacity` returns an empty string; the capacity is room
/// set aside, not content.
pub assume_specification[ String::with_capacity ](capacity: usize) -> (r: String)
    ensures
        r@ == Seq::<char>::empty(),
;

/// The encoding of a text that is two texts in a row is the two encodings in
/// a row.
pub proof fn lemma_encode_utf8_concat(a: Seq<char>, b: Seq<char>)
    ensures
        encode_utf8(a + b) == encode_utf8(a) + encode_utf8(b),
    decreases a.len(),
{
    if a.len() == 0 {
    } else {
        lemma_encode_utf8_concat(a.drop_first(), b);
        assert((a + b).drop_first() =~= a.drop_first() + b);
    }
}

/// What a writer into a string can do: it ignores styles, and it fails on
/// bytes that are no text.
pub open spec fn text_capabilities() -> Capabilities {
    Capabilities {
        color: false,
        hyperlinks: false,
        escapes: false,
        infallible: false,
        synchronous: false,
    }
}

/// Appends `buf` to `text` if it is valid UTF-8, and fails otherwise.
fn push_utf8(text: &mut String, buf: &[u8]) -> (r: Result<usize, std::io::Error>)
    ensures
        r is Ok <==> valid_utf8(buf@),
        r matches Ok(n) ==> n == buf@.len() && final(text)@ == old(text)@ + decode_utf8(buf@)
            && encode_utf8(final(text)@) == encode_utf8(old(text)@) + buf@,
        r is Err ==> final(text)@ == old(text)@,
{
    match from_utf8(buf) {
        Ok(s) => {
            proof {
                vstd::utf8::encode_utf8_decode_utf8(s@);
                lemma_encode_utf8_concat(text@, s@);
            }
            text.append(s);
            Ok(buf.len())
        },
        Err(_) => Err(new_error(Failure::InvalidData, "Invalid UTF-8")),
    }
}

/// A writer that collects what is written to it in a `String`. Colors are
/// ignored.
#[derive(Debug)]
pub struct StringWriter {
    /// The text collected so far.
    pub inner: String,
}

impl StringWriter {
    /// Creates a new empty writer.
    pub fn new() -> (r: StringWriter)
        ensures
            r.inner@ == Seq::<char>::empty(),
    {
        StringWriter { inner: String::new() }
    }

    /// Creates a new empty writer with room for `capacity` bytes.
    pub fn with_capacity(capacity: usize) -> (r: StringWriter)
        ensures
            r.inner@ == Seq::<char>::empty(),
    {
        StringWriter { inner: String::with_capacity(capacity) }
    }

    /// Consumes the writer and returns the text.
    pub fn into_string(self) -> (r: String)
        ensures
            r@ == self.inner@,
    {
        self.inner
    }

    /// Returns the text collected so far.
    pub fn as_str(&self) -> (r: &str)
        ensures
            r@ == self.inner@,
    {
        self.inner.as_str()
    }
}

impl Default for StringWriter {
    fn default() -> (r: StringWriter)
        ensures
            r.inner@ == Seq::<char>::empty(),
    {
        StringWriter::new()
    }
}

impl WriteColor for StringWriter {
    /// The UTF-8 encoding of the text.
    open spec fn written(&self) -> Seq<u8> {
        encode_utf8(self.inner@)
    }

    open spec fn capabilities(&self) -> Capabilities {
        text_capabilities()
    }

    open spec fn pending(&self) -> bool {
        false
    }

    /// Appends `buf` if it is valid UTF-8, all of it; otherwise fails and
    /// appends nothing.
    fn write(&mut self, buf: &[u8]) -> (r: Result<usize, std::io::Error>)
        ensures
            r is Ok <==> valid_utf8(buf@),
            r matches Ok(n) ==> n == buf@.len() && final(self).inner@ == old(self).inner@
                + decode_utf8(buf@),
            r is Err ==> final(self).inner@ == old(self).inner@,
    {
        let r = push_utf8(&mut self.inner, buf);
        r
    }

    /// Appends `buf` if it is valid UTF-8; otherwise fails and appends
    /// nothing.
    fn write_all(&mut self, buf: &[u8]) -> (r: Result<(), std::io::Error>)
        ensures
            r is Ok <==> valid_utf8(buf@),
            r is Ok ==> final(self).inner@ == old(self).inner@ + decode_utf8(buf@),
            r is Err ==> final(self).inner@ == old(self).inner@,
    {
        match push_utf8(&mut self.inner, buf) {
            Ok(_) => Ok(()),
            Err(e) => {
                assert(self.written() =~= old(self).written() + buf@.take(0));
                Err(e)
            },
        }
    }

    fn flush(&mut self) -> (r: Result<(), std::io::Error>)
        ensures
            r is Ok,
            *final(self) == *old(self),
    {
        Ok(())
    }

    fn supports_color(&self) -> (r: bool) {
        false
    }

    fn supports_hyperlinks(&self) -> (r: bool) {
        false
    }

    fn set_color(&mut self, spec: &ColorSpec) -> (r: Result<(), std::io::Error>)
        ensures
            r is Ok,
            *final(self) == *old(self),
    {
        Ok(())
    }

    fn set_hyperlink(&mut self, link: &HyperlinkSpec) -> (r: Result<(), std::io::Error>)
        ensures
            r is Ok,
            *final(self) == *old(self),
    {
        Ok(())
    }

    fn reset(&mut self) -> (r: Result<(), std::io::Error>)
        ensures
            r is Ok,
            *final(self) == *old(self),
    {
        Ok(())
    }

    fn is_synchronous(&self) -> (r: bool)
        ensures
            !r,
    {
        false
    }
}

/// A `String` that can stand wherever a writer of styled text is asked for.
/// Colors are ignored.
#[derive(Debug, Clone, PartialEq, Eq, PartialOrd, Ord, Hash)]
pub struct TermString(pub String);

impl TermString {
    /// Creates a new empty `TermString`.
    pub fn new() -> (r: TermString)
        ensures
            r.0@ == Seq::<char>::empty(),
    {
        TermString(String::new())
    }

    /// Creates a new empty `TermString` with room for `capacity` bytes.
    pub fn with_capacity(capacity: usize) -> (r: TermString)
        ensures
            r.0@ == Seq::<char>::empty(),
    {
        TermString(String::with_capacity(capacity))
    }

    /// Consumes the `TermString` and returns the inner `String`.
    pub fn into_inner(self) -> (r: String)
        ensures
            r@ == self.0@,
    {
        self.0
    }

    /// Returns the text.
    pub fn as_str(&self) -> (r: &str)
        ensures
            r@ == self.0@,
    {
        self.0.as_str()
    }

    /// Appends `s` to the end of the text.
    pub fn push_str(&mut self, s: &str)
        ensures
            final(self).0@ == old(self).0@ + s@,
    {
        self.0.append(s)
    }

    /// Returns a copy of the text.
    pub fn to_string(&self) -> (r: String)
        ensures
            r@ == self.0@,
    {
        self.0.clone()
    }
}

impl From<String> for TermString {
    fn from(s: String) -> (r: TermString) {
        TermString(s)
    }
}

impl vstd::std_specs::convert::FromSpecImpl<String> for TermString {
    open spec fn obeys_from_spec() -> bool {
        true
    }

    open spec fn from_spec(s: String) -> TermString {
        TermString(s)
    }
}

impl From<TermString> for String {
    fn from(ts: TermString) -> (r: String) {
        ts.0
    }
}

impl vstd::std_specs::convert::FromSpecImpl<TermString> for String {
    open spec fn obeys_from_spec() -> bool {
        true
    }

    open spec fn from_spec(ts: TermString) -> String {
        ts.0
    }
}

impl AsRef<str> for TermString {
    fn as_ref(&self) -> (r: &str)
        ensures
            r@ == self.0@,
    {
        self.0.as_str()
    }
}

impl Default for TermString {
    fn default() -> (r: TermString)
        ensures
            r.0@ == Seq::<char>::empty(),
    {
        TermString::new()
    }
}

impl WriteColor for TermString {
    /// The UTF-8 encoding of the text.
    open spec fn written(&self) -> Seq<u8> {
        encode_utf8(self.0@)
    }

    open spec fn capabilities(&self) -> Capabilities {
        text_capabilities()
    }

    open spec fn pending(&self) -> bool {
        false
    }

    /// Appends `buf` if it is valid UTF-8, all of it; otherwise fails and
    /// appends nothing.
    fn write(&mut self, buf: &[u8]) -> (r: Result<usize, std::io::Error>)
        ensures
            r is Ok <==> valid_utf8(buf@),
            r matches Ok(n) ==> n == buf@.len() && final(self).0@ == old(self).0@ + decode_utf8(
                buf@,
            ),
            r is Err ==> final(self).0@ == old(self).0@,
    {
        let r = push_utf8(&mut self.0, buf);
        r
    }

    /// Appends `buf` if it is valid UTF-8; otherwise fails and appends
    /// nothing.
    fn write_all(&mut self, buf: &[u8]) -> (r: Result<(), std::io::Error>)
        ensures
            r is Ok <==> valid_utf8(buf@),
            r is Ok ==> final(self).0@ == old(self).0@ + decode_utf8(buf@),
            r is Err ==> final(self).0@ == old(self).0@,
    {
        match push_utf8(&mut self.0, buf) {
            Ok(_) => Ok(()),
            Err(e) => {
                assert(self.written() =~= old(self).written() + buf@.take(0));
                Err(e)
            },
        }
    }

    fn flush(&mut self) -> (r: Result<(), std::io::Error>)
        ensures
            r is Ok,
            *final(self) == *old(self),
    {
        Ok(())
    }

    fn supports_color(&self) -> (r: bool) {
        false
    }

    fn supports_hyperlinks(&self) -> (r: bool) {
        false
    }

    fn set_color(&mut self, spec: &ColorSpec) -> (r: Result<(), std::io::Error>)
        ensures
            r is Ok,
            *final(self) == *old(self),
    {
        Ok(())
    }

    fn set_hyperlink(&mut self, link: &HyperlinkSpec) -> (r: Result<(), std::io::Error>)
        ensures
            r is Ok,
            *final(self) == *old(self),
    {
        Ok(())
    }

    fn reset(&mut self) -> (r: Result<(), std::io::Error>)
        ensures
            r is Ok,
            *final(self) == *old(self),
    {
        Ok(())
    }

    fn is_synchronous(&self) -> (r: bool)
        ensures
            !r,
    {
        false
    }
}

} // verus!
