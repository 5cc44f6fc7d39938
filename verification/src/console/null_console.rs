//! Null console.

use vstd::prelude::*;

use super::interface::{All, Read, Stats, Write};

verus! {

/// A console that discards what is written to it, reads as a space and has
/// counted nothing.
#[derive(Clone, Copy, Debug, PartialEq, Eq, Structural)]
pub struct NullConsole;

impl Write for NullConsole {
    fn write_char(&self, _c: char) {
    }

    fn write_fmt(&self, _args: core::fmt::Arguments) -> (r: Result<(), core::fmt::Error>)
        ensures
            r.is_ok(),
    {
        Ok(())
    }

    fn flush(&self) {
    }
}

impl Read for NullConsole {
    fn read_char(&self) -> (c: char)
        ensures
            c == ' ',
    {
        ' '
    }

    fn clear_rx(&self) {
    }
}

impl Stats for NullConsole {
    fn chars_written(&self) -> (n: usize)
        ensures
            n == 0,
    {
        0
    }

    fn chars_read(&self) -> (n: usize)
        ensures
            n == 0,
    {
        0
    }
}

impl All for NullConsole {

}

} // verus!
