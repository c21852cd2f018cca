//! The contract every writer of styled text meets.

use crate::ansi::{link_code, reset_code, style_code};
use crate::style::{ColorSpec, HyperlinkSpec};
use vstd::prelude::*;

verus! {

/// `std::io::Error`, the failure that an output device reports. It is
/// declared here so that it can stand in signatures; nothing is known of
/// what is inside one, and the library hands it on to the caller as it came.
#[verifier::external_type_specification]
#[verifier::external_body]
pub struct ExIoError(std::io::Error);

/// The failures that the library itself reports as I/O errors.
#[derive(Clone, Copy, Debug, PartialEq, Eq, Structural)]
pub enum Failure {
    /// The bytes to write are not valid UTF-8 and the writer holds text.
    InvalidData,
    /// The device took no byte of a buffer that held some.
    WriteZero,
}

/// Calls `std::io::Error::new` with the error kind that `failure` stands for
/// and `message`. Nothing is claimed of the error that it returns.
#[verifier::external_body]
pub(crate) fn new_error(failure: Failure, message: &str) -> std::io::Error {
    let kind = match failure {
        Failure::InvalidData => std::io::ErrorKind::InvalidData,
        Failure::WriteZero => std::io::ErrorKind::WriteZero,
    };
    std::io::Error::new(kind, message)
}

/// What a writer does with styles and whether its writes can fail. Fixed when
/// the writer is made; no operation changes it.
pub struct Capabilities {
    /// The writer reports that it supports color.
    pub color: bool,
    /// The writer reports that it supports hyperlinks.
    pub hyperlinks: bool,
    /// Styles, resets and hyperlinks are rendered as escape sequences in the
    /// byte stream. Where this is off they leave the stream untouched.
    pub escapes: bool,
    /// No operation on the writer ever returns an error.
    pub infallible: bool,
    /// The writer must talk to the user's device synchronously in order to
    /// control colors.
    pub synchronous: bool,
}

/// Whether `after` is `before` followed by some leading part of `data`: what
/// a write of `data` leaves behind when it stops early.
pub open spec fn partly_appended(before: Seq<u8>, after: Seq<u8>, data: Seq<u8>) -> bool {
    exists|k: int| 0 <= k <= data.len() && after == before + #[trigger] data.take(k)
}

/// A byte sink that can be asked to change the style of what follows.
///
/// The trait carries the byte operations itself (`write`, `write_all`,
/// `flush`), so that a plain sink is simply a writer that ignores styles.
/// `written` is the sequence of bytes the writer has taken so far, and every
/// operation says what it adds to it.
///
/// A device of the caller's own becomes a writer by way of
/// `IoStandardStream`, which asks no more of it than the three byte
/// operations of `Device`.
pub trait WriteColor {
    /// The bytes this writer has taken so far, in order.
    spec fn written(&self) -> Seq<u8>;

    /// What this writer does with styles, and whether it can fail.
    spec fn capabilities(&self) -> Capabilities;

    /// Whether the writer may be holding back bytes that it has taken, on
    /// their way to where they go. A writer that keeps what it takes, such
    /// as a buffer in memory, holds nothing back.
    spec fn pending(&self) -> bool;

    /// Takes some leading part of `buf` and returns its length. On an error
    /// nothing was taken. A writer that cannot fail takes at least one byte
    /// of a buffer that holds any.
    fn write(&mut self, buf: &[u8]) -> (r: Result<usize, std::io::Error>)
        ensures
            final(self).capabilities() == old(self).capabilities(),
            old(self).capabilities().infallible ==> r is Ok,
            old(self).capabilities().infallible && buf@.len() > 0 ==> (r matches Ok(n) && n > 0),
            match r {
                Ok(n) => n <= buf@.len() && final(self).written() == old(self).written()
                    + buf@.take(n as int),
                Err(_) => final(self).written() == old(self).written(),
            },
    ;

    /// Takes all of `buf`. On an error some leading part of it was taken.
    fn write_all(&mut self, buf: &[u8]) -> (r: Result<(), std::io::Error>)
        ensures
            final(self).capabilities() == old(self).capabilities(),
            old(self).capabilities().infallible ==> r is Ok,
            r is Ok ==> final(self).written() == old(self).written() + buf@,
            r is Err ==> partly_appended(old(self).written(), final(self).written(), buf@),
    ;

    /// Hands on what the writer still holds back. Takes no bytes. Once it
    /// has succeeded, nothing is held back any more; where it fails, what
    /// was held back may still be.
    fn flush(&mut self) -> (r: Result<(), std::io::Error>)
        ensures
            final(self).capabilities() == old(self).capabilities(),
            old(self).capabilities().infallible ==> r is Ok,
            final(self).written() == old(self).written(),
            r is Ok ==> !final(self).pending(),
            r is Err ==> final(self).pending() == old(self).pending(),
    ;

    /// Returns true if and only if the writer supports colors.
    fn supports_color(&self) -> (r: bool)
        ensures
            r == self.capabilities().color,
    ;

    /// Returns true if and only if the writer supports hyperlinks.
    fn supports_hyperlinks(&self) -> (r: bool)
        ensures
            r == self.capabilities().hyperlinks,
    ;

    /// Applies a style to what is written from now on, until the next style
    /// or reset.
    fn set_color(&mut self, spec: &ColorSpec) -> (r: Result<(), std::io::Error>)
        ensures
            final(self).capabilities() == old(self).capabilities(),
            old(self).capabilities().infallible ==> r is Ok,
            !old(self).capabilities().escapes ==> r is Ok && final(self).written() == old(
                self,
            ).written(),
            old(self).capabilities().escapes && r is Ok ==> final(self).written() == old(
                self,
            ).written() + style_code(*spec),
            old(self).capabilities().escapes && r is Err ==> partly_appended(
                old(self).written(),
                final(self).written(),
                style_code(*spec),
            ),
    ;

    /// Opens a hyperlink for what is written from now on, or closes the
    /// current one.
    fn set_hyperlink(&mut self, link: &HyperlinkSpec) -> (r: Result<(), std::io::Error>)
        ensures
            final(self).capabilities() == old(self).capabilities(),
            old(self).capabilities().infallible ==> r is Ok,
            !old(self).capabilities().escapes ==> r is Ok && final(self).written() == old(
                self,
            ).written(),
            old(self).capabilities().escapes && r is Ok ==> final(self).written() == old(
                self,
            ).written() + link_code(link.target()),
            old(self).capabilities().escapes && r is Err ==> partly_appended(
                old(self).written(),
                final(self).written(),
                link_code(link.target()),
            ),
    ;

    /// Returns the terminal to its default rendition. Hyperlinks are not
    /// affected.
    fn reset(&mut self) -> (r: Result<(), std::io::Error>)
        ensures
            final(self).capabilities() == old(self).capabilities(),
            old(self).capabilities().infallible ==> r is Ok,
            !old(self).capabilities().escapes ==> r is Ok && final(self).written() == old(
                self,
            ).written(),
            old(self).capabilities().escapes && r is Ok ==> final(self).written() == old(
                self,
            ).written() + reset_code(),
            old(self).capabilities().escapes && r is Err ==> partly_appended(
                old(self).written(),
                final(self).written(),
                reset_code(),
            ),
    ;

    /// Returns true if the writer must talk to the user's device
    /// synchronously in order to control colors.
    fn is_synchronous(&self) -> (r: bool)
        ensures
            r == self.capabilities().synchronous,
    ;
}

impl WriteColor for Vec<u8> {
    open spec fn written(&self) -> Seq<u8> {
        self@
    }

    open spec fn capabilities(&self) -> Capabilities {
        Capabilities {
            color: false,
            hyperlinks: false,
            escapes: false,
            infallible: true,
            synchronous: false,
        }
    }

    open spec fn pending(&self) -> bool {
        false
    }

    fn write(&mut self, buf: &[u8]) -> (r: Result<usize, std::io::Error>)
        ensures
            r matches Ok(n) && n == buf@.len(),
    {
        self.extend_from_slice(buf);
        Ok(buf.len())
    }

    fn write_all(&mut self, buf: &[u8]) -> (r: Result<(), std::io::Error>) {
        self.extend_from_slice(buf);
        Ok(())
    }

    fn flush(&mut self) -> (r: Result<(), std::io::Error>) {
        Ok(())
    }

    fn supports_color(&self) -> (r: bool) {
        false
    }

    fn supports_hyperlinks(&self) -> (r: bool) {
        false
    }

    fn set_color(&mut self, spec: &ColorSpec) -> (r: Result<(), std::io::Error>) {
        Ok(())
    }

    fn set_hyperlink(&mut self, link: &HyperlinkSpec) -> (r: Result<(), std::io::Error>) {
        Ok(())
    }

    fn reset(&mut self) -> (r: Result<(), std::io::Error>) {
        Ok(())
    }

    fn is_synchronous(&self) -> (r: bool)
        ensures
            !r,
    {
        false
    }
}

impl<T: WriteColor + ?Sized> WriteColor for Box<T> {
    open spec fn written(&self) -> Seq<u8> {
        (**self).written()
    }

    open spec fn capabilities(&self) -> Capabilities {
        (**self).capabilities()
    }

    open spec fn pending(&self) -> bool {
        (**self).pending()
    }

    fn write(&mut self, buf: &[u8]) -> (r: Result<usize, std::io::Error>) {
        (**self).write(buf)
    }

    fn write_all(&mut self, buf: &[u8]) -> (r: Result<(), std::io::Error>) {
        (**self).write_all(buf)
    }

    fn flush(&mut self) -> (r: Result<(), std::io::Error>) {
        (**self).flush()
    }

    fn supports_color(&self) -> (r: bool) {
        (**self).supports_color()
    }

    fn supports_hyperlinks(&self) -> (r: bool) {
        (**self).supports_hyperlinks()
    }

    fn set_color(&mut self, spec: &ColorSpec) -> (r: Result<(), std::io::Error>) {
        (**self).set_color(spec)
    }

    fn set_hyperlink(&mut self, link: &HyperlinkSpec) -> (r: Result<(), std::io::Error>) {
        (**self).set_hyperlink(link)
    }

    fn reset(&mut self) -> (r: Result<(), std::io::Error>) {
        (**self).reset()
    }

    fn is_synchronous(&self) -> (r: bool) {
        (**self).is_synchronous()
    }
}

} // verus!
