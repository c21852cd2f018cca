//! Writers to an output device: the standard streams, their locked and
//! buffered forms, and the printer of whole buffers.
//!
//! The device itself comes from the caller, as a writer that ignores styles.
//! What is decided here is which strategy stands in front of it, what reaches
//! it, and in which order.

use crate::ansi::lemma_stopped_early;
use crate::choice::{device_uses_ansi, ColorChoice, Environment, Platform};
use crate::style::{ColorSpec, HyperlinkSpec};
use crate::text::{from_utf8, is_valid_up_to};
use crate::traits::{new_error, partly_appended, Capabilities, Failure, WriteColor};
use crate::writers::{Buffer, WriterInner};
use vstd::prelude::*;
use vstd::slice::slice_subrange;
use vstd::utf8::valid_utf8;

verus! {

/// An output device: a place outside the program that takes bytes, such as
/// a standard stream or a file.
///
/// Nothing is taken for granted of a device. Whatever it returns, the
/// writers in front of it keep to their contracts.
pub trait Device {
    /// Takes some leading part of `buf` and returns its length.
    fn write(&mut self, buf: &[u8]) -> Result<usize, std::io::Error>;

    /// Takes all of `buf`, or fails on the way.
    fn write_all(&mut self, buf: &[u8]) -> Result<(), std::io::Error>;

    /// Hands on whatever the device still holds back.
    fn flush(&mut self) -> Result<(), std::io::Error>;
}

/// What a write of a buffer of `given` bytes returns for what the device
/// answered: the device's answer as it came, but for a count greater than
/// `given`, which is held to `given`.
pub open spec fn settled(given: nat, answer: Result<usize, std::io::Error>) -> Result<
    usize,
    std::io::Error,
> {
    match answer {
        Ok(n) => if n > given {
            Ok(given as usize)
        } else {
            Ok(n)
        },
        Err(e) => Err(e),
    }
}

/// Settles what a device answered to a write of a buffer of `given` bytes:
/// an error is handed on as it came, and so is a count, unless the device
/// claims to have taken more than it was given.
pub fn settle(given: usize, answer: Result<usize, std::io::Error>) -> (r: Result<
    usize,
    std::io::Error,
>)
    ensures
        r == settled(given as nat, answer),
{
    match answer {
        Ok(n) => if n > given {
            Ok(given)
        } else {
            Ok(n)
        },
        Err(e) => Err(e),
    }
}

/// A device seen as a writer: it takes bytes and ignores styles, and it
/// keeps account of the bytes that the device reported as taken.
pub struct IoStandardStream<D> {
    device: D,
    /// The bytes handed to the device that it did not refuse.
    taken: Ghost<Seq<u8>>,
    /// Whether the device has taken bytes since it last reported a flush.
    pending: Ghost<bool>,
}

impl<D: Device> IoStandardStream<D> {
    /// The device behind the writer.
    pub closed spec fn device(&self) -> D {
        self.device
    }

    /// What a writer to a device can do by itself: it ignores styles, and
    /// it fails where the device does.
    pub open spec fn device_capabilities() -> Capabilities {
        Capabilities {
            color: false,
            hyperlinks: false,
            escapes: false,
            infallible: false,
            synchronous: false,
        }
    }

    /// Makes a writer to `device`, which counts as having taken nothing yet.
    pub fn new(device: D) -> (r: IoStandardStream<D>)
        ensures
            r.device() == device,
            r.written() == Seq::<u8>::empty(),
            r.capabilities() == Self::device_capabilities(),
            !r.pending(),
    {
        IoStandardStream { device, taken: Ghost(Seq::empty()), pending: Ghost(false) }
    }

    /// Returns a reference to the device.
    pub fn get_ref(&self) -> (r: &D)
        ensures
            *r == self.device(),
    {
        &self.device
    }

    /// Consumes the writer and returns the device.
    pub fn into_inner(self) -> (r: D)
        ensures
            r == self.device(),
    {
        self.device
    }
}

impl<D: Device> WriteColor for IoStandardStream<D> {
    closed spec fn written(&self) -> Seq<u8> {
        self.taken@
    }

    closed spec fn capabilities(&self) -> Capabilities {
        Self::device_capabilities()
    }

    closed spec fn pending(&self) -> bool {
        self.pending@
    }

    /// Hands `buf` to the device and returns its answer as `settle` settles
    /// it. Whether the device takes anything is for the device to say; what
    /// it took it may hold back until it is flushed.
    fn write(&mut self, buf: &[u8]) -> (r: Result<usize, std::io::Error>)
        ensures
            r matches Ok(n) ==> final(self).pending() == (old(self).pending() || n > 0),
            r is Err ==> final(self).pending() == old(self).pending(),
    {
        let r = settle(buf.len(), self.device.write(buf));
        match r {
            Ok(n) => {
                self.taken = Ghost(self.taken@ + buf@.take(n as int));
                let ghost held = n > 0 || self.pending@;
                self.pending = Ghost(held);
                Ok(n)
            },
            Err(e) => Err(e),
        }
    }

    /// Hands `buf` to the device. Where the device fails, how much of `buf`
    /// it took before is its secret: some leading part.
    fn write_all(&mut self, buf: &[u8]) -> (r: Result<(), std::io::Error>)
        ensures
            final(self).pending() == (old(self).pending() || final(self).written().len() > old(
                self,
            ).written().len()),
    {
        match self.device.write_all(buf) {
            Ok(()) => {
                self.taken = Ghost(self.taken@ + buf@);
                let ghost held = buf@.len() > 0 || self.pending@;
                self.pending = Ghost(held);
                Ok(())
            },
            Err(e) => {
                let ghost some: int = arbitrary();
                let ghost k = if 0 <= some <= buf@.len() {
                    some
                } else {
                    0
                };
                self.taken = Ghost(self.taken@ + buf@.take(k));
                let ghost held = k > 0 || self.pending@;
                self.pending = Ghost(held);
                Err(e)
            },
        }
    }

    /// Asks the device to hand on what it holds back. Where it reports
    /// success, the bytes taken so far count as handed on; where it fails,
    /// the account stays as it was.
    fn flush(&mut self) -> (r: Result<(), std::io::Error>) {
        match self.device.flush() {
            Ok(()) => {
                self.pending = Ghost(false);
                Ok(())
            },
            Err(e) => Err(e),
        }
    }

    fn supports_color(&self) -> (r: bool) {
        false
    }

    fn supports_hyperlinks(&self) -> (r: bool) {
        false
    }

    /// Does nothing: a device by itself knows no styles.
    fn set_color(&mut self, spec: &ColorSpec) -> (r: Result<(), std::io::Error>)
        ensures
            r is Ok,
            *final(self) == *old(self),
    {
        Ok(())
    }

    /// Does nothing: a device by itself knows no hyperlinks.
    fn set_hyperlink(&mut self, link: &HyperlinkSpec) -> (r: Result<(), std::io::Error>)
        ensures
            r is Ok,
            *final(self) == *old(self),
    {
        Ok(())
    }

    /// Does nothing: a device by itself knows no styles.
    fn reset(&mut self) -> (r: Result<(), std::io::Error>)
        ensures
            r is Ok,
            *final(self) == *old(self),
    {
        Ok(())
    }

    fn is_synchronous(&self) -> (r: bool)
        ensures
            !r,
    {
        false
    }
}

/// The UTF-8 encoding of U+FFFD, the character that stands in for bytes
/// that are no text.
pub open spec fn replacement() -> Seq<u8> {
    seq![0xEFu8, 0xBFu8, 0xBDu8]
}

/// What one lossy write of `buf` does to a writer that held `before`, where
/// `buf` is valid UTF-8 up to `up`: `taken` bytes of `buf` are used up and
/// the writer holds `after`.
///
/// Where `buf` begins with a byte that is no text, that one byte is used up
/// and the writer got the replacement character, or as much of it as it
/// took. Otherwise the writer got a leading part of the valid text.
pub open spec fn lossy_step(
    before: Seq<u8>,
    after: Seq<u8>,
    buf: Seq<u8>,
    up: int,
    taken: int,
) -> bool {
    if up == 0 && buf.len() > 0 {
        taken == 1 && partly_appended(before, after, replacement())
    } else {
        0 <= taken <= up && after == before + buf.take(taken)
    }
}

/// Writes to `w` as much of `buf` as is text, and the replacement character
/// in place of a first byte that is none, and returns how many bytes of
/// `buf` that used up. A console that takes only text is written to in this
/// way.
///
/// On an error `w` took nothing.
pub fn write_lossy_utf8<W: WriteColor>(w: &mut W, buf: &[u8]) -> (r: Result<usize, std::io::Error>)
    ensures
        final(w).capabilities() == old(w).capabilities(),
        old(w).capabilities().infallible ==> r is Ok,
        old(w).capabilities().infallible && buf@.len() > 0 ==> (r matches Ok(n) && n > 0),
        r is Err ==> final(w).written() == old(w).written(),
        r matches Ok(n) ==> n <= buf@.len() && forall|up: int|
            is_valid_up_to(buf@, up) ==> lossy_step(
                old(w).written(),
                final(w).written(),
                buf@,
                up,
                n as int,
            ),
{
    match from_utf8(buf) {
        Ok(s) => {
            let r = w.write(s.as_bytes());
            proof {
                assert(buf@.take(buf@.len() as int) =~= buf@);
                // The whole of `buf` is valid, so it is valid up to its end.
                assert forall|up: int| is_valid_up_to(buf@, up) implies up == buf@.len() by {
                    if up < buf@.len() {
                        assert(!valid_utf8(buf@.take(buf@.len() as int)));
                    }
                }
            }
            r
        },
        Err(up) => {
            proof {
                // There is only one greatest index.
                assert forall|other: int| is_valid_up_to(buf@, other) implies other == up by {
                    if other < up {
                        assert(!valid_utf8(buf@.take(up as int)));
                    }
                    if up < other {
                        assert(!valid_utf8(buf@.take(other)));
                    }
                }
            }
            if up == 0 {
                let mark: [u8; 3] = [0xEF, 0xBF, 0xBD];
                match w.write(mark.as_slice()) {
                    Ok(_) => Ok(1),
                    Err(e) => Err(e),
                }
            } else {
                let part = slice_subrange(buf, 0, up);
                let r = w.write(part);
                proof {
                    if r is Ok {
                        let n = r->Ok_0;
                        assert(part@.take(n as int) =~= buf@.take(n as int));
                    }
                }
                r
            }
        },
    }
}

/// A writer to a device that may be a console which takes only text: where
/// it is, bytes that are no text reach the device as the replacement
/// character.
pub struct LossyStandardStream<W> {
    wtr: W,
    is_console: bool,
    /// The bytes taken from the caller, where they may differ from what the
    /// device got.
    taken: Ghost<Seq<u8>>,
}

impl<W: WriteColor> LossyStandardStream<W> {
    /// The writer that stands between this one and the device.
    pub closed spec fn inner(&self) -> W {
        self.wtr
    }

    /// Whether the device is a console that takes only text.
    pub closed spec fn is_console(&self) -> bool {
        self.is_console
    }

    /// What the writer can do, given what the writer inside it can: the
    /// same, but that it never counts as synchronous.
    pub open spec fn capabilities_over(inner: Capabilities) -> Capabilities {
        Capabilities { synchronous: false, ..inner }
    }

    /// Wraps `wtr`, which writes to a device that takes any bytes.
    pub fn new(wtr: W) -> (r: LossyStandardStream<W>)
        ensures
            r.inner() == wtr,
            !r.is_console(),
            r.written() == wtr.written(),
            r.pending() == wtr.pending(),
            r.capabilities() == LossyStandardStream::<W>::capabilities_over(wtr.capabilities()),
    {
        LossyStandardStream { wtr, is_console: false, taken: Ghost(wtr.written()) }
    }

    /// Wraps `wtr`, which writes to a device that is a console taking only
    /// text if `is_console` says so.
    pub fn for_device(wtr: W, is_console: bool) -> (r: LossyStandardStream<W>)
        ensures
            r.inner() == wtr,
            r.is_console() == is_console,
            r.written() == wtr.written(),
            r.pending() == wtr.pending(),
            r.capabilities() == LossyStandardStream::<W>::capabilities_over(wtr.capabilities()),
    {
        LossyStandardStream { wtr, is_console, taken: Ghost(wtr.written()) }
    }

    /// Wraps `wtr` as a writer to the same device as this one.
    pub fn wrap<Q: WriteColor>(&self, wtr: Q) -> (r: LossyStandardStream<Q>)
        ensures
            r.inner() == wtr,
            r.is_console() == self.is_console(),
            r.written() == wtr.written(),
            r.pending() == wtr.pending(),
            r.capabilities() == LossyStandardStream::<Q>::capabilities_over(wtr.capabilities()),
    {
        LossyStandardStream { wtr, is_console: self.is_console, taken: Ghost(wtr.written()) }
    }

    /// Returns a reference to the writer that stands between this one and
    /// the device.
    pub fn get_ref(&self) -> (r: &W)
        ensures
            *r == self.inner(),
    {
        &self.wtr
    }
}

impl<W: WriteColor> WriteColor for LossyStandardStream<W> {
    /// The bytes taken from the caller. Unless the device is a console,
    /// they are the bytes that the inner writer took.
    closed spec fn written(&self) -> Seq<u8> {
        if self.is_console {
            self.taken@
        } else {
            self.wtr.written()
        }
    }

    closed spec fn capabilities(&self) -> Capabilities {
        Self::capabilities_over(self.wtr.capabilities())
    }

    closed spec fn pending(&self) -> bool {
        self.wtr.pending()
    }

    fn write(&mut self, buf: &[u8]) -> (r: Result<usize, std::io::Error>)
        ensures
            final(self).is_console() == old(self).is_console(),
            final(self).inner().capabilities() == old(self).inner().capabilities(),
            !old(self).is_console() ==> final(self).written() == final(self).inner().written(),
            old(self).is_console() && r is Err ==> final(self).inner().written() == old(
                self,
            ).inner().written(),
            old(self).is_console() ==> (r matches Ok(n) ==> forall|up: int|
                is_valid_up_to(buf@, up) ==> lossy_step(
                    old(self).inner().written(),
                    final(self).inner().written(),
                    buf@,
                    up,
                    n as int,
                )),
    {
        if self.is_console {
            let r = write_lossy_utf8(&mut self.wtr, buf);
            self.taken = Ghost(
                match r {
                    Ok(n) => self.taken@ + buf@.take(n as int),
                    Err(_) => self.taken@,
                },
            );
            r
        } else {
            self.wtr.write(buf)
        }
    }

    fn write_all(&mut self, buf: &[u8]) -> (r: Result<(), std::io::Error>)
        ensures
            final(self).is_console() == old(self).is_console(),
            final(self).inner().capabilities() == old(self).inner().capabilities(),
            !old(self).is_console() ==> final(self).written() == final(self).inner().written(),
    {
        if !self.is_console {
            return self.wtr.write_all(buf);
        }
        let ghost start = self.written();
        let mut done: usize = 0;
        while done < buf.len()
            invariant
                0 <= done <= buf@.len(),
                self.is_console(),
                self.is_console() == old(self).is_console(),
                self.capabilities() == old(self).capabilities(),
                self.inner().capabilities() == old(self).inner().capabilities(),
                start == old(self).written(),
                self.written() == start + buf@.take(done as int),
            decreases buf@.len() - done,
        {
            let rest = slice_subrange(buf, done, buf.len());
            match self.write(rest) {
                Ok(n) => {
                    if n == 0 {
                        return Err(new_error(Failure::WriteZero, "failed to write whole buffer"));
                    }
                    done += n;
                },
                Err(e) => {
                    return Err(e);
                },
            }
        }
        Ok(())
    }

    fn flush(&mut self) -> (r: Result<(), std::io::Error>)
        ensures
            final(self).is_console() == old(self).is_console(),
            final(self).inner().capabilities() == old(self).inner().capabilities(),
            !old(self).is_console() ==> final(self).written() == final(self).inner().written(),
    {
        self.wtr.flush()
    }

    fn supports_color(&self) -> (r: bool) {
        self.wtr.supports_color()
    }

    fn supports_hyperlinks(&self) -> (r: bool) {
        self.wtr.supports_hyperlinks()
    }

    fn set_color(&mut self, spec: &ColorSpec) -> (r: Result<(), std::io::Error>)
        ensures
            final(self).is_console() == old(self).is_console(),
            final(self).inner().capabilities() == old(self).inner().capabilities(),
            !old(self).is_console() ==> final(self).written() == final(self).inner().written(),
    {
        let ghost before = self.wtr.written();
        let ghost code = crate::ansi::style_code(*spec);
        let r = self.wtr.set_color(spec);
        // What the inner writer took of the escape sequence was taken here.
        self.taken = Ghost(self.taken@ + self.wtr.written().skip(before.len() as int));
        proof {
            if old(self).capabilities().escapes && r is Err {
                let k = choose|k: int|
                    0 <= k <= code.len() && self.wtr.written() == before + #[trigger] code.take(k);
                assert((before + code.take(k)).skip(before.len() as int) =~= code.take(k));
            }
        }
        r
    }

    fn set_hyperlink(&mut self, link: &HyperlinkSpec) -> (r: Result<(), std::io::Error>)
        ensures
            final(self).is_console() == old(self).is_console(),
            final(self).inner().capabilities() == old(self).inner().capabilities(),
            !old(self).is_console() ==> final(self).written() == final(self).inner().written(),
    {
        let ghost before = self.wtr.written();
        let ghost code = crate::ansi::link_code(link.target());
        let r = self.wtr.set_hyperlink(link);
        // What the inner writer took of the escape sequence was taken here.
        self.taken = Ghost(self.taken@ + self.wtr.written().skip(before.len() as int));
        proof {
            if old(self).capabilities().escapes && r is Err {
                let k = choose|k: int|
                    0 <= k <= code.len() && self.wtr.written() == before + #[trigger] code.take(k);
                assert((before + code.take(k)).skip(before.len() as int) =~= code.take(k));
            }
        }
        r
    }

    fn reset(&mut self) -> (r: Result<(), std::io::Error>)
        ensures
            final(self).is_console() == old(self).is_console(),
            final(self).inner().capabilities() == old(self).inner().capabilities(),
            !old(self).is_console() ==> final(self).written() == final(self).inner().written(),
    {
        let ghost before = self.wtr.written();
        let ghost code = crate::ansi::reset_code();
        let r = self.wtr.reset();
        // What the inner writer took of the escape sequence was taken here.
        self.taken = Ghost(self.taken@ + self.wtr.written().skip(before.len() as int));
        proof {
            if old(self).capabilities().escapes && r is Err {
                let k = choose|k: int|
                    0 <= k <= code.len() && self.wtr.written() == before + #[trigger] code.take(k);
                assert((before + code.take(k)).skip(before.len() as int) =~= code.take(k));
            }
        }
        r
    }

    fn is_synchronous(&self) -> (r: bool)
        ensures
            !r,
    {
        false
    }
}

/// What a writer to a device can do: it supports colors and hyperlinks
/// exactly where it renders ANSI, and fails only where the device does.
pub open spec fn stream_capabilities(ansi: bool, device: Capabilities) -> Capabilities {
    Capabilities {
        color: ansi,
        hyperlinks: ansi,
        escapes: ansi,
        infallible: device.infallible,
        synchronous: false,
    }
}

/// A writer to a standard stream, with the strategy that the user's color
/// choice and the environment called for when it was made.
pub struct StandardStream<W> {
    wtr: LossyStandardStream<WriterInner<W>>,
}

/// A writer to a standard stream that the caller holds locked. It has the
/// strategy of the `StandardStream` it was made from.
pub struct StandardStreamLock<W> {
    wtr: LossyStandardStream<WriterInner<W>>,
}

/// Like `StandardStream`, for a device that buffers what it is given.
pub struct BufferedStandardStream<W> {
    wtr: LossyStandardStream<WriterInner<W>>,
}

impl<W: WriteColor> StandardStream<W> {
    /// Whether the device is a console that takes only text. No stream is
    /// made for one; a stream for any other device hands every byte on as
    /// it is.
    pub closed spec fn is_console(&self) -> bool {
        self.wtr.is_console()
    }

    /// Whether the stream renders styles as ANSI escape sequences.
    pub closed spec fn uses_ansi(&self) -> bool {
        self.wtr.inner() is Ansi
    }

    /// The device that the stream writes to.
    pub closed spec fn device(&self) -> W {
        self.wtr.inner().sink()
    }

    /// Creates a writer to `device` for a user's color choice. `enabled` is
    /// the outcome of the negotiation with the console, of no account where
    /// the choice and the environment call for none.
    pub fn new(device: W, choice: ColorChoice, env: &Environment, enabled: bool) -> (r:
        StandardStream<W>)
        ensures
            r.device() == device,
            !r.is_console(),
            r.uses_ansi() == device_uses_ansi(choice, *env, enabled),
            r.written() == device.written(),
            r.pending() == device.pending(),
            r.capabilities() == stream_capabilities(
                device_uses_ansi(choice, *env, enabled),
                device.capabilities(),
            ),
    {
        let wtr = WriterInner::create(device, choice, env, enabled);
        StandardStream { wtr: LossyStandardStream::new(wtr) }
    }

    /// Makes a writer to `locked`, the locked form of this stream's device,
    /// with the strategy of this stream.
    pub fn lock<Q: WriteColor>(&self, locked: Q) -> (r: StandardStreamLock<Q>)
        ensures
            r.device() == locked,
            r.is_console() == self.is_console(),
            r.uses_ansi() == self.uses_ansi(),
            r.written() == locked.written(),
            r.pending() == locked.pending(),
            r.capabilities() == stream_capabilities(self.uses_ansi(), locked.capabilities()),
    {
        StandardStreamLock::from_stream(self, locked)
    }

    /// Returns a reference to the device.
    pub fn get_ref(&self) -> (r: &W)
        ensures
            *r == self.device(),
    {
        self.wtr.get_ref().get_ref()
    }
}

impl<W: WriteColor> StandardStreamLock<W> {
    /// Whether the device is a console that takes only text. No stream is
    /// made for one; a stream for any other device hands every byte on as
    /// it is.
    pub closed spec fn is_console(&self) -> bool {
        self.wtr.is_console()
    }

    /// Whether the stream renders styles as ANSI escape sequences.
    pub closed spec fn uses_ansi(&self) -> bool {
        self.wtr.inner() is Ansi
    }

    /// The locked device that the stream writes to.
    pub closed spec fn device(&self) -> W {
        self.wtr.inner().sink()
    }

    /// Makes a writer to `locked`, the locked form of the device of
    /// `stream`, with the strategy of `stream`.
    pub fn from_stream<D: WriteColor>(stream: &StandardStream<D>, locked: W) -> (r:
        StandardStreamLock<W>)
        ensures
            r.device() == locked,
            r.is_console() == stream.is_console(),
            r.uses_ansi() == stream.uses_ansi(),
            r.written() == locked.written(),
            r.pending() == locked.pending(),
            r.capabilities() == stream_capabilities(stream.uses_ansi(), locked.capabilities()),
    {
        let inner = stream.wtr.get_ref().wrap(locked);
        StandardStreamLock { wtr: stream.wtr.wrap(inner) }
    }

    /// Returns a reference to the locked device.
    pub fn get_ref(&self) -> (r: &W)
        ensures
            *r == self.device(),
    {
        self.wtr.get_ref().get_ref()
    }
}

impl<W: WriteColor> BufferedStandardStream<W> {
    /// Whether the device is a console that takes only text. No stream is
    /// made for one; a stream for any other device hands every byte on as
    /// it is.
    pub closed spec fn is_console(&self) -> bool {
        self.wtr.is_console()
    }

    /// Whether the stream renders styles as ANSI escape sequences.
    pub closed spec fn uses_ansi(&self) -> bool {
        self.wtr.inner() is Ansi
    }

    /// The device that the stream writes to.
    pub closed spec fn device(&self) -> W {
        self.wtr.inner().sink()
    }

    /// Creates a writer to the buffering `device` for a user's color choice.
    /// `enabled` is the outcome of the negotiation with the console, of no
    /// account where the choice and the environment call for none.
    pub fn new(device: W, choice: ColorChoice, env: &Environment, enabled: bool) -> (r:
        BufferedStandardStream<W>)
        ensures
            r.device() == device,
            !r.is_console(),
            r.uses_ansi() == device_uses_ansi(choice, *env, enabled),
            r.written() == device.written(),
            r.pending() == device.pending(),
            r.capabilities() == stream_capabilities(
                device_uses_ansi(choice, *env, enabled),
                device.capabilities(),
            ),
    {
        let wtr = WriterInner::create(device, choice, env, enabled);
        BufferedStandardStream { wtr: LossyStandardStream::new(wtr) }
    }

    /// Returns a reference to the device.
    pub fn get_ref(&self) -> (r: &W)
        ensures
            *r == self.device(),
    {
        self.wtr.get_ref().get_ref()
    }
}

impl<W: WriteColor> WriteColor for StandardStream<W> {
    closed spec fn written(&self) -> Seq<u8> {
        self.wtr.written()
    }

    closed spec fn capabilities(&self) -> Capabilities {
        self.wtr.capabilities()
    }

    closed spec fn pending(&self) -> bool {
        self.wtr.pending()
    }

    fn write(&mut self, buf: &[u8]) -> (r: Result<usize, std::io::Error>)
        ensures
            final(self).uses_ansi() == old(self).uses_ansi(),
            final(self).is_console() == old(self).is_console(),
            !old(self).is_console() ==> final(self).written() == final(self).device().written(),
    {
        self.wtr.write(buf)
    }

    fn write_all(&mut self, buf: &[u8]) -> (r: Result<(), std::io::Error>)
        ensures
            final(self).uses_ansi() == old(self).uses_ansi(),
            final(self).is_console() == old(self).is_console(),
            !old(self).is_console() ==> final(self).written() == final(self).device().written(),
    {
        self.wtr.write_all(buf)
    }

    fn flush(&mut self) -> (r: Result<(), std::io::Error>)
        ensures
            final(self).uses_ansi() == old(self).uses_ansi(),
            final(self).is_console() == old(self).is_console(),
            !old(self).is_console() ==> final(self).written() == final(self).device().written(),
    {
        self.wtr.flush()
    }

    fn supports_color(&self) -> (r: bool)
        ensures
            r == self.uses_ansi(),
    {
        self.wtr.supports_color()
    }

    fn supports_hyperlinks(&self) -> (r: bool)
        ensures
            r == self.uses_ansi(),
    {
        self.wtr.supports_hyperlinks()
    }

    fn set_color(&mut self, spec: &ColorSpec) -> (r: Result<(), std::io::Error>)
        ensures
            final(self).uses_ansi() == old(self).uses_ansi(),
            final(self).is_console() == old(self).is_console(),
            !old(self).is_console() ==> final(self).written() == final(self).device().written(),
    {
        self.wtr.set_color(spec)
    }

    fn set_hyperlink(&mut self, link: &HyperlinkSpec) -> (r: Result<(), std::io::Error>)
        ensures
            final(self).uses_ansi() == old(self).uses_ansi(),
            final(self).is_console() == old(self).is_console(),
            !old(self).is_console() ==> final(self).written() == final(self).device().written(),
    {
        self.wtr.set_hyperlink(link)
    }

    fn reset(&mut self) -> (r: Result<(), std::io::Error>)
        ensures
            final(self).uses_ansi() == old(self).uses_ansi(),
            final(self).is_console() == old(self).is_console(),
            !old(self).is_console() ==> final(self).written() == final(self).device().written(),
    {
        self.wtr.reset()
    }

    fn is_synchronous(&self) -> (r: bool)
        ensures
            !r,
    {
        false
    }
}

impl<W: WriteColor> WriteColor for StandardStreamLock<W> {
    closed spec fn written(&self) -> Seq<u8> {
        self.wtr.written()
    }

    closed spec fn capabilities(&self) -> Capabilities {
        self.wtr.capabilities()
    }

    closed spec fn pending(&self) -> bool {
        self.wtr.pending()
    }

    fn write(&mut self, buf: &[u8]) -> (r: Result<usize, std::io::Error>)
        ensures
            final(self).uses_ansi() == old(self).uses_ansi(),
            final(self).is_console() == old(self).is_console(),
            !old(self).is_console() ==> final(self).written() == final(self).device().written(),
    {
        self.wtr.write(buf)
    }

    fn write_all(&mut self, buf: &[u8]) -> (r: Result<(), std::io::Error>)
        ensures
            final(self).uses_ansi() == old(self).uses_ansi(),
            final(self).is_console() == old(self).is_console(),
            !old(self).is_console() ==> final(self).written() == final(self).device().written(),
    {
        self.wtr.write_all(buf)
    }

    fn flush(&mut self) -> (r: Result<(), std::io::Error>)
        ensures
            final(self).uses_ansi() == old(self).uses_ansi(),
            final(self).is_console() == old(self).is_console(),
            !old(self).is_console() ==> final(self).written() == final(self).device().written(),
    {
        self.wtr.flush()
    }

    fn supports_color(&self) -> (r: bool)
        ensures
            r == self.uses_ansi(),
    {
        self.wtr.supports_color()
    }

    fn supports_hyperlinks(&self) -> (r: bool)
        ensures
            r == self.uses_ansi(),
    {
        self.wtr.supports_hyperlinks()
    }

    fn set_color(&mut self, spec: &ColorSpec) -> (r: Result<(), std::io::Error>)
        ensures
            final(self).uses_ansi() == old(self).uses_ansi(),
            final(self).is_console() == old(self).is_console(),
            !old(self).is_console() ==> final(self).written() == final(self).device().written(),
    {
        self.wtr.set_color(spec)
    }

    fn set_hyperlink(&mut self, link: &HyperlinkSpec) -> (r: Result<(), std::io::Error>)
        ensures
            final(self).uses_ansi() == old(self).uses_ansi(),
            final(self).is_console() == old(self).is_console(),
            !old(self).is_console() ==> final(self).written() == final(self).device().written(),
    {
        self.wtr.set_hyperlink(link)
    }

    fn reset(&mut self) -> (r: Result<(), std::io::Error>)
        ensures
            final(self).uses_ansi() == old(self).uses_ansi(),
            final(self).is_console() == old(self).is_console(),
            !old(self).is_console() ==> final(self).written() == final(self).device().written(),
    {
        self.wtr.reset()
    }

    fn is_synchronous(&self) -> (r: bool)
        ensures
            !r,
    {
        false
    }
}

impl<W: WriteColor> WriteColor for BufferedStandardStream<W> {
    closed spec fn written(&self) -> Seq<u8> {
        self.wtr.written()
    }

    closed spec fn capabilities(&self) -> Capabilities {
        self.wtr.capabilities()
    }

    closed spec fn pending(&self) -> bool {
        self.wtr.pending()
    }

    fn write(&mut self, buf: &[u8]) -> (r: Result<usize, std::io::Error>)
        ensures
            final(self).uses_ansi() == old(self).uses_ansi(),
            final(self).is_console() == old(self).is_console(),
            !old(self).is_console() ==> final(self).written() == final(self).device().written(),
    {
        self.wtr.write(buf)
    }

    fn write_all(&mut self, buf: &[u8]) -> (r: Result<(), std::io::Error>)
        ensures
            final(self).uses_ansi() == old(self).uses_ansi(),
            final(self).is_console() == old(self).is_console(),
            !old(self).is_console() ==> final(self).written() == final(self).device().written(),
    {
        self.wtr.write_all(buf)
    }

    fn flush(&mut self) -> (r: Result<(), std::io::Error>)
        ensures
            final(self).uses_ansi() == old(self).uses_ansi(),
            final(self).is_console() == old(self).is_console(),
            !old(self).is_console() ==> final(self).written() == final(self).device().written(),
    {
        self.wtr.flush()
    }

    fn supports_color(&self) -> (r: bool)
        ensures
            r == self.uses_ansi(),
    {
        self.wtr.supports_color()
    }

    fn supports_hyperlinks(&self) -> (r: bool)
        ensures
            r == self.uses_ansi(),
    {
        self.wtr.supports_hyperlinks()
    }

    fn set_color(&mut self, spec: &ColorSpec) -> (r: Result<(), std::io::Error>)
        ensures
            final(self).uses_ansi() == old(self).uses_ansi(),
            final(self).is_console() == old(self).is_console(),
            !old(self).is_console() ==> final(self).written() == final(self).device().written(),
    {
        self.wtr.set_color(spec)
    }

    fn set_hyperlink(&mut self, link: &HyperlinkSpec) -> (r: Result<(), std::io::Error>)
        ensures
            final(self).uses_ansi() == old(self).uses_ansi(),
            final(self).is_console() == old(self).is_console(),
            !old(self).is_console() ==> final(self).written() == final(self).device().written(),
    {
        self.wtr.set_hyperlink(link)
    }

    fn reset(&mut self) -> (r: Result<(), std::io::Error>)
        ensures
            final(self).uses_ansi() == old(self).uses_ansi(),
            final(self).is_console() == old(self).is_console(),
            !old(self).is_console() ==> final(self).written() == final(self).device().written(),
    {
        self.wtr.reset()
    }

    fn is_synchronous(&self) -> (r: bool)
        ensures
            !r,
    {
        false
    }
}

/// What precedes a buffer when it is printed: the separator and a newline
/// where a separator is set and a buffer has been printed before, nothing
/// otherwise.
pub open spec fn print_lead(separator: Option<Seq<u8>>, printed: bool) -> Seq<u8> {
    match separator {
        Some(sep) => if printed {
            sep + seq![0x0Au8]
        } else {
            Seq::empty()
        },
        None => Seq::empty(),
    }
}

/// What printing a buffer with the content `buf` writes to the device. An
/// empty buffer writes nothing, not even a separator.
pub open spec fn printed_bytes(separator: Option<Seq<u8>>, printed: bool, buf: Seq<u8>) -> Seq<u8> {
    if buf.len() == 0 {
        Seq::empty()
    } else {
        print_lead(separator, printed) + buf
    }
}

/// With a separator set, the first buffer that is printed is written as it
/// is, and every later one after the separator and a newline. Empty buffers
/// do not count: they write nothing.
pub proof fn lemma_separator_between_buffers(sep: Seq<u8>, first: Seq<u8>, later: Seq<u8>)
    requires
        first.len() > 0,
        later.len() > 0,
    ensures
        printed_bytes(Some(sep), false, first) == first,
        printed_bytes(Some(sep), true, later) == sep + seq![0x0Au8] + later,
        printed_bytes(Some(sep), false, Seq::empty()) == Seq::<u8>::empty(),
        printed_bytes(Some(sep), true, Seq::empty()) == Seq::<u8>::empty(),
{
}

/// Prints whole buffers to a device, one after the other, with an optional
/// separator between them.
///
/// Printing takes the writer exclusively, so the bytes of two buffers never
/// interleave.
pub struct BufferWriter<W> {
    stream: LossyStandardStream<W>,
    printed: bool,
    separator: Option<Vec<u8>>,
    use_color: bool,
}

impl<W: WriteColor> BufferWriter<W> {
    /// The bytes that the writer has taken for the device so far.
    pub closed spec fn written(&self) -> Seq<u8> {
        self.stream.written()
    }

    /// The device that the buffers are printed to.
    pub closed spec fn device(&self) -> W {
        self.stream.inner()
    }

    /// Whether the device is a console that takes only text.
    pub closed spec fn is_console(&self) -> bool {
        self.stream.is_console()
    }

    /// Whether a non-empty buffer has been printed.
    pub closed spec fn has_printed(&self) -> bool {
        self.printed
    }

    /// The separator that is printed between buffers, if one is set.
    pub closed spec fn separator_bytes(&self) -> Option<Seq<u8>> {
        match self.separator {
            Some(sep) => Some(sep@),
            None => None,
        }
    }

    /// Whether the buffers made by this writer render styles as ANSI escape
    /// sequences.
    pub closed spec fn uses_ansi(&self) -> bool {
        self.use_color
    }

    /// Creates a writer of buffers to `device` for a user's color choice.
    ///
    /// `enabled` is the outcome of the negotiation with the console, of no
    /// account where the choice and the environment call for none.
    /// `is_console` says whether the device is a console; on Windows a
    /// console takes only text.
    pub fn create(
        device: W,
        choice: ColorChoice,
        env: &Environment,
        enabled: bool,
        is_console: bool,
    ) -> (r: BufferWriter<W>)
        ensures
            r.device() == device,
            r.written() == device.written(),
            r.is_console() == (is_console && env.platform is Windows),
            !r.has_printed(),
            r.separator_bytes() is None,
            r.uses_ansi() == device_uses_ansi(choice, *env, enabled),
    {
        let use_color = choice.use_ansi_on_device(env, enabled);
        // Only a Windows console takes text alone.
        let console = match env.platform {
            Platform::Windows => is_console,
            Platform::Unix => false,
        };
        BufferWriter {
            stream: LossyStandardStream::for_device(device, console),
            printed: false,
            separator: None,
            use_color,
        }
    }

    /// Sets the separator that is printed between buffers, or removes it.
    /// By default there is none.
    pub fn separator(&mut self, sep: Option<Vec<u8>>)
        ensures
            final(self).separator_bytes() == match sep {
                Some(s) => Some(s@),
                None => None,
            },
            final(self).device() == old(self).device(),
            final(self).written() == old(self).written(),
            final(self).is_console() == old(self).is_console(),
            final(self).has_printed() == old(self).has_printed(),
            final(self).uses_ansi() == old(self).uses_ansi(),
    {
        self.separator = sep;
    }

    /// Creates an empty buffer of the kind that this writer was made for.
    pub fn buffer(&self) -> (r: Buffer)
        ensures
            r@ == Seq::<u8>::empty(),
            r.is_ansi() == self.uses_ansi(),
            r.capabilities() == Buffer::capabilities_of(self.uses_ansi()),
    {
        if self.use_color {
            Buffer::ansi()
        } else {
            Buffer::no_color()
        }
    }

    /// Returns a reference to the device.
    pub fn get_ref(&self) -> (r: &W)
        ensures
            *r == self.device(),
    {
        self.stream.get_ref()
    }

    /// Prints the contents of `buf`.
    ///
    /// An empty buffer is left out altogether: nothing is written and the
    /// writer is as it was. Any other buffer is written whole, after the
    /// separator and a newline if a separator is set and a buffer has been
    /// printed before, and counts as printed once all of it is written.
    pub fn print(&mut self, buf: &Buffer) -> (r: Result<(), std::io::Error>)
        ensures
            buf@.len() == 0 ==> r is Ok && *final(self) == *old(self),
            final(self).separator_bytes() == old(self).separator_bytes(),
            final(self).uses_ansi() == old(self).uses_ansi(),
            final(self).is_console() == old(self).is_console(),
            final(self).device().capabilities() == old(self).device().capabilities(),
            old(self).device().capabilities().infallible ==> r is Ok,
            r is Ok ==> final(self).written() == old(self).written() + printed_bytes(
                old(self).separator_bytes(),
                old(self).has_printed(),
                buf@,
            ),
            r is Ok ==> final(self).has_printed() == (old(self).has_printed() || buf@.len() > 0),
            r is Err ==> final(self).has_printed() == old(self).has_printed(),
            r is Err ==> partly_appended(
                old(self).written(),
                final(self).written(),
                printed_bytes(old(self).separator_bytes(), old(self).has_printed(), buf@),
            ),
            !old(self).is_console() ==> final(self).written() == final(self).device().written(),
    {
        if buf.is_empty() {
            return Ok(());
        }
        let ghost start = self.stream.written();
        let ghost lead = print_lead(self.separator_bytes(), self.printed);
        let ghost full = lead + buf@;
        let newline: [u8; 1] = [0x0A];
        if self.printed {
            if let Some(sep) = &self.separator {
                match self.stream.write_all(sep.as_slice()) {
                    Ok(()) => {},
                    Err(e) => {
                        proof {
                            lemma_stopped_early(
                                start,
                                Seq::empty(),
                                sep@,
                                full,
                                self.stream.written(),
                            );
                        }
                        return Err(e);
                    },
                }
                match self.stream.write_all(newline.as_slice()) {
                    Ok(()) => {},
                    Err(e) => {
                        proof {
                            lemma_stopped_early(start, sep@, newline@, full, self.stream.written());
                        }
                        return Err(e);
                    },
                }
            }
        }
        assert(self.stream.written() =~= start + lead);
        match self.stream.write_all(buf.as_slice()) {
            Ok(()) => {},
            Err(e) => {
                proof {
                    lemma_stopped_early(start, lead, buf@, full, self.stream.written());
                }
                return Err(e);
            },
        }
        self.printed = true;
        Ok(())
    }
}

} // verus!
