//! Console interfaces.

use vstd::prelude::*;

verus! {

/// `core::fmt::Arguments`, carried through to the console that formats it.
#[verifier::external_type_specification]
#[verifier::external_body]
pub struct ExArguments<'a>(core::fmt::Arguments<'a>);

/// `core::fmt::Error`, carried through from the console that reports it.
#[verifier::external_type_specification]
#[verifier::external_body]
pub struct ExError(core::fmt::Error);

/// Console write functions.
pub trait Write {
    /// Write a single character.
    fn write_char(&self, c: char);

    /// Write a Rust format string.
    fn write_fmt(&self, args: core::fmt::Arguments) -> Result<(), core::fmt::Error>;

    /// Block until the last buffered character has been physically put on the
    /// TX wire.
    fn flush(&self);
}

/// Console read functions.
pub trait Read {
    /// Read a single character.
    fn read_char(&self) -> (c: char)
        default_ensures c == ' ',
    { ' ' }

    /// Clear RX buffers, if any.
    fn clear_rx(&self);
}

/// Console statistics.
pub trait Stats {
    /// Return the number of characters written.
    fn chars_written(&self) -> (n: usize)
        default_ensures n == 0,
    { 0 }

    /// Return the number of characters read.
    fn chars_read(&self) -> (n: usize)
        default_ensures n == 0,
    { 0 }
}

/// Trait alias for a full-fledged console.
pub trait All: Write + Read + Stats {

}

/// A reference to a console writes as the console does.
impl<T: Write + ?Sized> Write for &T {
    fn write_char(&self, c: char)
        ensures
            call_ensures(T::write_char, (*self, c), ()),
    {
        (**self).write_char(c)
    }

    fn write_fmt(&self, args: core::fmt::Arguments) -> (r: Result<(), core::fmt::Error>)
        ensures
            call_ensures(T::write_fmt, (*self, args), r),
    {
        (**self).write_fmt(args)
    }

    fn flush(&self)
        ensures
            call_ensures(T::flush, (*self,), ()),
    {
        (**self).flush()
    }
}

/// A reference to a console reads as the console does.
impl<T: Read + ?Sized> Read for &T {
    fn read_char(&self) -> (c: char)
        ensures
            call_ensures(T::read_char, (*self,), c),
    {
        (**self).read_char()
    }

    fn clear_rx(&self)
        ensures
            call_ensures(T::clear_rx, (*self,), ()),
    {
        (**self).clear_rx()
    }
}

/// A reference to a console counts as the console does.
impl<T: Stats + ?Sized> Stats for &T {
    fn chars_written(&self) -> (n: usize)
        ensures
            call_ensures(T::chars_written, (*self,), n),
    {
        (**self).chars_written()
    }

    fn chars_read(&self) -> (n: usize)
        ensures
            call_ensures(T::chars_read, (*self,), n),
    {
        (**self).chars_read()
    }
}

impl<T: All + ?Sized> All for &T {

}

} // verus!
