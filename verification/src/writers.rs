//! The writer strategies: one that drops every style, one that renders
//! styles as ANSI escape sequences, and the in-memory buffer that is one or
//! the other.

use crate::ansi::{
    ansi_spec, color_code, lemma_stopped_early, link_code, write_attribute, write_color_code, ESC,
    OSC, SEP, ST, ZERO,
};
use crate::choice::{buffer_uses_ansi, device_uses_ansi, ColorChoice, Environment};
use crate::color::Color;
use crate::style::{ColorSpec, HyperlinkSpec};
use crate::traits::{partly_appended, Capabilities, WriteColor};
use vstd::prelude::*;

verus! {

/// A writer that passes bytes through untouched and ignores every style.
#[derive(Clone, Debug)]
pub struct NoColor<W>(pub W);

impl<W: WriteColor> NoColor<W> {
    /// Wraps `wtr` in a writer that drops all style information.
    pub fn new(wtr: W) -> (r: NoColor<W>)
        ensures
            r.0 == wtr,
    {
        NoColor(wtr)
    }

    /// Consumes this writer and returns the inner writer.
    pub fn into_inner(self) -> (r: W)
        ensures
            r == self.0,
    {
        self.0
    }

    /// Returns a reference to the inner writer.
    pub fn get_ref(&self) -> (r: &W)
        ensures
            *r == self.0,
    {
        &self.0
    }

    /// Returns a mutable reference to the inner writer.
    pub fn get_mut(&mut self) -> (r: &mut W)
        ensures
            *r == old(self).0,
            final(self).0 == *final(r),
    {
        &mut self.0
    }
}

impl<W: WriteColor> WriteColor for NoColor<W> {
    open spec fn written(&self) -> Seq<u8> {
        self.0.written()
    }

    open spec fn capabilities(&self) -> Capabilities {
        Capabilities {
            color: false,
            hyperlinks: false,
            escapes: false,
            infallible: self.0.capabilities().infallible,
            synchronous: false,
        }
    }

    open spec fn pending(&self) -> bool {
        self.0.pending()
    }

    fn write(&mut self, buf: &[u8]) -> (r: Result<usize, std::io::Error>) {
        let r = self.0.write(buf);
        proof {
            // Tie the wrapper's own view to that of the writer inside it.
            assert(self.written() == self.0.written());
            assert(self.capabilities() == old(self).capabilities());
        }
        r
    }

    fn write_all(&mut self, buf: &[u8]) -> (r: Result<(), std::io::Error>) {
        self.0.write_all(buf)
    }

    fn flush(&mut self) -> (r: Result<(), std::io::Error>) {
        self.0.flush()
    }

    fn supports_color(&self) -> (r: bool) {
        false
    }

    fn supports_hyperlinks(&self) -> (r: bool) {
        false
    }

    /// Does nothing: no byte is written, and the call cannot fail.
    fn set_color(&mut self, spec: &ColorSpec) -> (r: Result<(), std::io::Error>)
        ensures
            r is Ok,
            *final(self) == *old(self),
    {
        Ok(())
    }

    /// Does nothing: no byte is written, and the call cannot fail.
    fn set_hyperlink(&mut self, link: &HyperlinkSpec) -> (r: Result<(), std::io::Error>)
        ensures
            r is Ok,
            *final(self) == *old(self),
    {
        Ok(())
    }

    /// Does nothing: no byte is written, and the call cannot fail.
    fn reset(&mut self) -> (r: Result<(), std::io::Error>)
        ensures
            r is Ok,
            *final(self) == *old(self),
    {
        Ok(())
    }

    fn is_synchronous(&self) -> (r: bool)
        ensures
            !r,
    {
        false
    }
}

/// A writer that renders styles as ANSI escape sequences, written into the
/// byte stream ahead of the text they apply to.
#[derive(Clone, Debug)]
pub struct Ansi<W>(pub W);

impl<W: WriteColor> Ansi<W> {
    /// Wraps `wtr` in a writer that renders styles as ANSI escape sequences.
    pub fn new(wtr: W) -> (r: Ansi<W>)
        ensures
            r.0 == wtr,
    {
        Ansi(wtr)
    }

    /// Consumes this writer and returns the inner writer.
    pub fn into_inner(self) -> (r: W)
        ensures
            r == self.0,
    {
        self.0
    }

    /// Returns a reference to the inner writer.
    pub fn get_ref(&self) -> (r: &W)
        ensures
            *r == self.0,
    {
        &self.0
    }

    /// Returns a mutable reference to the inner writer.
    pub fn get_mut(&mut self) -> (r: &mut W)
        ensures
            *r == old(self).0,
            final(self).0 == *final(r),
    {
        &mut self.0
    }

    /// Writes the escape sequence that selects `c` as the foreground color
    /// (`fg`) or the background color, in its brighter variant where
    /// `intense` is set and the color is a named one.
    pub fn write_color(&mut self, fg: bool, c: &Color, intense: bool) -> (r: Result<
        (),
        std::io::Error,
    >)
        ensures
            final(self).capabilities() == old(self).capabilities(),
            old(self).capabilities().infallible ==> r is Ok,
            r is Ok ==> final(self).written() == old(self).written() + color_code(
                *c,
                !fg,
                intense,
            ),
            r is Err ==> partly_appended(
                old(self).written(),
                final(self).written(),
                color_code(*c, !fg, intense),
            ),
    {
        write_color_code(&mut self.0, c, !fg, intense)
    }
}

impl<W: WriteColor> WriteColor for Ansi<W> {
    open spec fn written(&self) -> Seq<u8> {
        self.0.written()
    }

    open spec fn capabilities(&self) -> Capabilities {
        Capabilities {
            color: true,
            hyperlinks: true,
            escapes: true,
            infallible: self.0.capabilities().infallible,
            synchronous: false,
        }
    }

    open spec fn pending(&self) -> bool {
        self.0.pending()
    }

    fn write(&mut self, buf: &[u8]) -> (r: Result<usize, std::io::Error>) {
        let r = self.0.write(buf);
        proof {
            // Tie the wrapper's own view to that of the writer inside it.
            assert(self.written() == self.0.written());
            assert(self.capabilities() == old(self).capabilities());
        }
        r
    }

    fn write_all(&mut self, buf: &[u8]) -> (r: Result<(), std::io::Error>) {
        self.0.write_all(buf)
    }

    fn flush(&mut self) -> (r: Result<(), std::io::Error>) {
        self.0.flush()
    }

    fn supports_color(&self) -> (r: bool) {
        true
    }

    fn supports_hyperlinks(&self) -> (r: bool) {
        true
    }

    fn set_color(&mut self, spec: &ColorSpec) -> (r: Result<(), std::io::Error>) {
        ansi_spec(&mut self.0, spec)
    }

    fn set_hyperlink(&mut self, link: &HyperlinkSpec) -> (r: Result<(), std::io::Error>) {
        let ghost start = self.0.written();
        let ghost full = link_code(link.target());
        let open: [u8; 5] = [ESC, OSC, ZERO + 8, SEP, SEP];
        let close: [u8; 2] = [ESC, ST];
        match self.0.write_all(open.as_slice()) {
            Ok(()) => {},
            Err(e) => {
                proof {
                    lemma_stopped_early(start, Seq::empty(), open@, full, self.0.written());
                }
                return Err(e);
            },
        }
        if let Some(uri) = link.uri() {
            match self.0.write_all(uri) {
                Ok(()) => {},
                Err(e) => {
                    proof {
                        lemma_stopped_early(start, open@, uri@, full, self.0.written());
                    }
                    return Err(e);
                },
            }
        }
        assert(self.0.written() =~= start + (open@ + link.target()));
        match self.0.write_all(close.as_slice()) {
            Ok(()) => {},
            Err(e) => {
                proof {
                    lemma_stopped_early(
                        start,
                        open@ + link.target(),
                        close@,
                        full,
                        self.0.written(),
                    );
                }
                return Err(e);
            },
        }
        Ok(())
    }

    fn reset(&mut self) -> (r: Result<(), std::io::Error>) {
        write_attribute(&mut self.0, 0)
    }

    fn is_synchronous(&self) -> (r: bool)
        ensures
            !r,
    {
        false
    }
}

/// A writer whose strategy is chosen when it is made: it either drops every
/// style or renders styles as ANSI escape sequences. Whichever it is, it
/// behaves exactly as that strategy does.
#[derive(Debug)]
pub enum WriterInner<W> {
    NoColor(NoColor<W>),
    Ansi(Ansi<W>),
}

impl<W: WriteColor> WriterInner<W> {
    /// The writer that this one hands its bytes to.
    pub open spec fn sink(&self) -> W {
        match self {
            WriterInner::NoColor(w) => w.0,
            WriterInner::Ansi(w) => w.0,
        }
    }

    /// Makes a writer to the device `wtr` for a user's color choice.
    /// `enabled` is the outcome of the negotiation with the console, of no
    /// account where the choice and the environment call for none.
    pub fn create(wtr: W, choice: ColorChoice, env: &Environment, enabled: bool) -> (r:
        WriterInner<W>)
        ensures
            r.sink() == wtr,
            r is Ansi <==> device_uses_ansi(choice, *env, enabled),
    {
        if choice.use_ansi_on_device(env, enabled) {
            WriterInner::Ansi(Ansi(wtr))
        } else {
            WriterInner::NoColor(NoColor(wtr))
        }
    }

    /// Makes a writer to `wtr` of the same strategy as this one.
    pub fn wrap<Q: WriteColor>(&self, wtr: Q) -> (r: WriterInner<Q>)
        ensures
            r.sink() == wtr,
            r is Ansi <==> self is Ansi,
    {
        match self {
            WriterInner::NoColor(_) => WriterInner::NoColor(NoColor(wtr)),
            WriterInner::Ansi(_) => WriterInner::Ansi(Ansi(wtr)),
        }
    }

    /// Returns a reference to the writer that this one hands its bytes to.
    pub fn get_ref(&self) -> (r: &W)
        ensures
            *r == self.sink(),
    {
        match self {
            WriterInner::NoColor(w) => &w.0,
            WriterInner::Ansi(w) => &w.0,
        }
    }

    /// Consumes this writer and returns the one that it handed its bytes to.
    pub fn into_inner(self) -> (r: W)
        ensures
            r == self.sink(),
    {
        match self {
            WriterInner::NoColor(w) => w.0,
            WriterInner::Ansi(w) => w.0,
        }
    }
}

impl<W: WriteColor> WriteColor for WriterInner<W> {
    open spec fn written(&self) -> Seq<u8> {
        self.sink().written()
    }

    open spec fn capabilities(&self) -> Capabilities {
        Capabilities {
            color: self is Ansi,
            hyperlinks: self is Ansi,
            escapes: self is Ansi,
            infallible: self.sink().capabilities().infallible,
            synchronous: false,
        }
    }

    open spec fn pending(&self) -> bool {
        self.sink().pending()
    }

    fn write(&mut self, buf: &[u8]) -> (r: Result<usize, std::io::Error>) {
        match self {
            WriterInner::NoColor(wtr) => wtr.write(buf),
            WriterInner::Ansi(wtr) => wtr.write(buf),
        }
    }

    fn write_all(&mut self, buf: &[u8]) -> (r: Result<(), std::io::Error>) {
        match self {
            WriterInner::NoColor(wtr) => wtr.write_all(buf),
            WriterInner::Ansi(wtr) => wtr.write_all(buf),
        }
    }

    fn flush(&mut self) -> (r: Result<(), std::io::Error>) {
        match self {
            WriterInner::NoColor(wtr) => wtr.flush(),
            WriterInner::Ansi(wtr) => wtr.flush(),
        }
    }

    fn supports_color(&self) -> (r: bool) {
        match self {
            WriterInner::NoColor(_) => false,
            WriterInner::Ansi(_) => true,
        }
    }

    fn supports_hyperlinks(&self) -> (r: bool) {
        match self {
            WriterInner::NoColor(_) => false,
            WriterInner::Ansi(_) => true,
        }
    }

    fn set_color(&mut self, spec: &ColorSpec) -> (r: Result<(), std::io::Error>)
        ensures
            *old(self) is NoColor ==> *final(self) == *old(self),
    {
        match self {
            WriterInner::NoColor(wtr) => wtr.set_color(spec),
            WriterInner::Ansi(wtr) => wtr.set_color(spec),
        }
    }

    fn set_hyperlink(&mut self, link: &HyperlinkSpec) -> (r: Result<(), std::io::Error>)
        ensures
            *old(self) is NoColor ==> *final(self) == *old(self),
    {
        match self {
            WriterInner::NoColor(wtr) => wtr.set_hyperlink(link),
            WriterInner::Ansi(wtr) => wtr.set_hyperlink(link),
        }
    }

    fn reset(&mut self) -> (r: Result<(), std::io::Error>)
        ensures
            *old(self) is NoColor ==> *final(self) == *old(self),
    {
        match self {
            WriterInner::NoColor(wtr) => wtr.reset(),
            WriterInner::Ansi(wtr) => wtr.reset(),
        }
    }

    fn is_synchronous(&self) -> (r: bool)
        ensures
            !r,
    {
        false
    }
}

/// The two kinds of buffer.
#[derive(Clone, Debug)]
enum BufferInner {
    /// No style is applied: every styling call is ignored.
    NoColor(NoColor<Vec<u8>>),
    /// Styles are written into the buffer as ANSI escape sequences.
    Ansi(Ansi<Vec<u8>>),
}

/// Styled text in memory.
///
/// A buffer is made for one strategy, plain or ANSI, and grows as it is
/// written to. Nothing leaves it until its owner prints it or takes the
/// bytes out.
#[derive(Clone, Debug)]
pub struct Buffer(BufferInner);

impl View for Buffer {
    type V = Seq<u8>;

    /// The bytes in the buffer.
    closed spec fn view(&self) -> Seq<u8> {
        match self.0 {
            BufferInner::NoColor(b) => b.0@,
            BufferInner::Ansi(b) => b.0@,
        }
    }
}

impl Buffer {
    /// Whether the buffer renders styles as ANSI escape sequences.
    pub closed spec fn is_ansi(&self) -> bool {
        self.0 is Ansi
    }

    /// What a buffer of either kind can do: it never fails, and it supports
    /// colors and hyperlinks exactly where it renders ANSI.
    pub open spec fn capabilities_of(ansi: bool) -> Capabilities {
        Capabilities {
            color: ansi,
            hyperlinks: ansi,
            escapes: ansi,
            infallible: true,
            synchronous: false,
        }
    }

    /// Creates an empty buffer for a user's color choice.
    pub fn new(choice: ColorChoice, env: &Environment) -> (r: Buffer)
        ensures
            r@ == Seq::<u8>::empty(),
            r.is_ansi() == buffer_uses_ansi(choice, *env),
            r.capabilities() == Buffer::capabilities_of(buffer_uses_ansi(choice, *env)),
    {
        if choice.use_ansi_in_buffer(env) {
            Buffer::ansi()
        } else {
            Buffer::no_color()
        }
    }

    /// Creates an empty buffer that drops all style information.
    pub fn no_color() -> (r: Buffer)
        ensures
            r@ == Seq::<u8>::empty(),
            !r.is_ansi(),
            r.capabilities() == Buffer::capabilities_of(false),
    {
        Buffer(BufferInner::NoColor(NoColor(Vec::new())))
    }

    /// Creates an empty buffer that renders styles as ANSI escape sequences.
    pub fn ansi() -> (r: Buffer)
        ensures
            r@ == Seq::<u8>::empty(),
            r.is_ansi(),
            r.capabilities() == Buffer::capabilities_of(true),
    {
        Buffer(BufferInner::Ansi(Ansi(Vec::new())))
    }

    /// Returns true if and only if this buffer is empty.
    pub fn is_empty(&self) -> (r: bool)
        ensures
            r == (self@.len() == 0),
    {
        self.len() == 0
    }

    /// Returns the length of this buffer in bytes.
    pub fn len(&self) -> (r: usize)
        ensures
            r == self@.len(),
    {
        match &self.0 {
            BufferInner::NoColor(b) => b.0.len(),
            BufferInner::Ansi(b) => b.0.len(),
        }
    }

    /// Empties this buffer. Its kind stays.
    pub fn clear(&mut self)
        ensures
            final(self)@ == Seq::<u8>::empty(),
            final(self).is_ansi() == old(self).is_ansi(),
            final(self).capabilities() == old(self).capabilities(),
    {
        match &mut self.0 {
            BufferInner::NoColor(b) => b.0.clear(),
            BufferInner::Ansi(b) => b.0.clear(),
        }
    }

    /// Consumes this buffer and returns its bytes.
    pub fn into_inner(self) -> (r: Vec<u8>)
        ensures
            r@ == self@,
    {
        match self.0 {
            BufferInner::NoColor(b) => b.0,
            BufferInner::Ansi(b) => b.0,
        }
    }

    /// Returns the bytes of this buffer.
    pub fn as_slice(&self) -> (r: &[u8])
        ensures
            r@ == self@,
    {
        match &self.0 {
            BufferInner::NoColor(b) => b.0.as_slice(),
            BufferInner::Ansi(b) => b.0.as_slice(),
        }
    }

    /// Returns the bytes of this buffer for changing in place.
    pub fn as_mut_slice(&mut self) -> (r: &mut [u8])
        ensures
            r@ == old(self)@,
            final(self)@ == final(r)@,
            final(self).is_ansi() == old(self).is_ansi(),
            final(self).capabilities() == old(self).capabilities(),
    {
        match &mut self.0 {
            BufferInner::NoColor(b) => b.0.as_mut_slice(),
            BufferInner::Ansi(b) => b.0.as_mut_slice(),
        }
    }
}

impl WriteColor for Buffer {
    closed spec fn written(&self) -> Seq<u8> {
        self@
    }

    closed spec fn capabilities(&self) -> Capabilities {
        Buffer::capabilities_of(self.0 is Ansi)
    }

    open spec fn pending(&self) -> bool {
        false
    }

    fn write(&mut self, buf: &[u8]) -> (r: Result<usize, std::io::Error>)
        ensures
            r matches Ok(n) && n == buf@.len(),
            final(self)@ == old(self)@ + buf@,
            final(self).is_ansi() == old(self).is_ansi(),
    {
        let r = match &mut self.0 {
            BufferInner::NoColor(w) => w.0.write(buf),
            BufferInner::Ansi(w) => w.0.write(buf),
        };
        r
    }

    fn write_all(&mut self, buf: &[u8]) -> (r: Result<(), std::io::Error>)
        ensures
            final(self)@ == old(self)@ + buf@,
            final(self).is_ansi() == old(self).is_ansi(),
    {
        match &mut self.0 {
            BufferInner::NoColor(w) => w.write_all(buf),
            BufferInner::Ansi(w) => w.write_all(buf),
        }
    }

    fn flush(&mut self) -> (r: Result<(), std::io::Error>)
        ensures
            *final(self) == *old(self),
    {
        Ok(())
    }

    fn supports_color(&self) -> (r: bool)
        ensures
            r == self.is_ansi(),
    {
        match &self.0 {
            BufferInner::NoColor(_) => false,
            BufferInner::Ansi(_) => true,
        }
    }

    fn supports_hyperlinks(&self) -> (r: bool)
        ensures
            r == self.is_ansi(),
    {
        match &self.0 {
            BufferInner::NoColor(_) => false,
            BufferInner::Ansi(_) => true,
        }
    }

    fn set_color(&mut self, spec: &ColorSpec) -> (r: Result<(), std::io::Error>)
        ensures
            final(self)@ == old(self)@ + if old(self).is_ansi() {
                crate::ansi::style_code(*spec)
            } else {
                Seq::empty()
            },
            final(self).is_ansi() == old(self).is_ansi(),
    {
        let r = match &mut self.0 {
            BufferInner::NoColor(w) => w.set_color(spec),
            BufferInner::Ansi(w) => w.set_color(spec),
        };
        r
    }

    fn set_hyperlink(&mut self, link: &HyperlinkSpec) -> (r: Result<(), std::io::Error>)
        ensures
            final(self)@ == old(self)@ + if old(self).is_ansi() {
                link_code(link.target())
            } else {
                Seq::empty()
            },
            final(self).is_ansi() == old(self).is_ansi(),
    {
        let r = match &mut self.0 {
            BufferInner::NoColor(w) => w.set_hyperlink(link),
            BufferInner::Ansi(w) => w.set_hyperlink(link),
        };
        r
    }

    fn reset(&mut self) -> (r: Result<(), std::io::Error>)
        ensures
            final(self)@ == old(self)@ + if old(self).is_ansi() {
                crate::ansi::reset_code()
            } else {
                Seq::empty()
            },
            final(self).is_ansi() == old(self).is_ansi(),
    {
        let r = match &mut self.0 {
            BufferInner::NoColor(w) => w.reset(),
            BufferInner::Ansi(w) => w.reset(),
        };
        r
    }

    fn is_synchronous(&self) -> (r: bool)
        ensures
            !r,
    {
        false
    }
}

} // verus!
