//! System console.

use vstd::prelude::*;

use self::interface::{All, Read, Stats, Write};
use self::null_console::NullConsole;
use crate::synchronization::interface::Mutex;
use crate::synchronization::SpinLock;

pub mod interface;
pub mod null_console;

verus! {

/// The console that is active: the null console until a console has been
/// registered, then the console registered last.
pub enum ActiveConsole<C> {
    /// No console has been registered.
    Null(NullConsole),
    /// The console registered last.
    Registered(C),
}

impl<C: Copy> Clone for ActiveConsole<C> {
    fn clone(&self) -> (copy: Self)
        ensures
            copy == *self,
    {
        *self
    }
}

impl<C: Copy> Copy for ActiveConsole<C> {

}

impl<C: All + Copy> Write for ActiveConsole<C> {
    fn write_char(&self, c: char)
        ensures
            self matches ActiveConsole::Registered(console) ==> call_ensures(
                C::write_char,
                (console, c),
                (),
            ),
    {
        match self {
            ActiveConsole::Null(console) => console.write_char(c),
            ActiveConsole::Registered(console) => console.write_char(c),
        }
    }

    fn write_fmt(&self, args: core::fmt::Arguments) -> (r: Result<(), core::fmt::Error>)
        ensures
            self is Null ==> r.is_ok(),
            self matches ActiveConsole::Registered(console) ==> call_ensures(
                C::write_fmt,
                (console, args),
                r,
            ),
    {
        match self {
            ActiveConsole::Null(console) => console.write_fmt(args),
            ActiveConsole::Registered(console) => console.write_fmt(args),
        }
    }

    fn flush(&self)
        ensures
            self matches ActiveConsole::Registered(console) ==> call_ensures(
                C::flush,
                (console,),
                (),
            ),
    {
        match self {
            ActiveConsole::Null(console) => console.flush(),
            ActiveConsole::Registered(console) => console.flush(),
        }
    }
}

impl<C: All + Copy> Read for ActiveConsole<C> {
    fn read_char(&self) -> (c: char)
        ensures
            self is Null ==> c == ' ',
            self matches ActiveConsole::Registered(console) ==> call_ensures(
                C::read_char,
                (console,),
                c,
            ),
    {
        match self {
            ActiveConsole::Null(console) => console.read_char(),
            ActiveConsole::Registered(console) => console.read_char(),
        }
    }

    fn clear_rx(&self)
        ensures
            self matches ActiveConsole::Registered(console) ==> call_ensures(
                C::clear_rx,
                (console,),
                (),
            ),
    {
        match self {
            ActiveConsole::Null(console) => console.clear_rx(),
            ActiveConsole::Registered(console) => console.clear_rx(),
        }
    }
}

impl<C: All + Copy> Stats for ActiveConsole<C> {
    fn chars_written(&self) -> (n: usize)
        ensures
            self is Null ==> n == 0,
            self matches ActiveConsole::Registered(console) ==> call_ensures(
                C::chars_written,
                (console,),
                n,
            ),
    {
        match self {
            ActiveConsole::Null(console) => console.chars_written(),
            ActiveConsole::Registered(console) => console.chars_written(),
        }
    }

    fn chars_read(&self) -> (n: usize)
        ensures
            self is Null ==> n == 0,
            self matches ActiveConsole::Registered(console) ==> call_ensures(
                C::chars_read,
                (console,),
                n,
            ),
    {
        match self {
            ActiveConsole::Null(console) => console.chars_read(),
            ActiveConsole::Registered(console) => console.chars_read(),
        }
    }
}

impl<C: All + Copy> All for ActiveConsole<C> {

}

/// The kernel's one handle to the active console, behind a lock.
pub struct ConsoleRegistry<C> {
    cur_console: SpinLock<ActiveConsole<C>>,
}

impl<C: All + Copy> ConsoleRegistry<C> {
    /// The console that is active.
    pub closed spec fn view(&self) -> ActiveConsole<C> {
        self.cur_console.data()
    }

    /// The registry as the kernel has it at boot: bound to the null console.
    pub fn new() -> (registry: Self)
        ensures
            registry@ == ActiveConsole::<C>::Null(NullConsole),
    {
        Self { cur_console: SpinLock::new(ActiveConsole::Null(NullConsole)) }
    }
}

/// Register a new console. It replaces the active console, whichever that
/// was.
pub fn register_console<C: All + Copy>(registry: &mut ConsoleRegistry<C>, new_console: C)
    ensures
        final(registry)@ == ActiveConsole::Registered(new_console),
{
    registry.cur_console.lock(
        |con: &mut ActiveConsole<C>|
            ensures
                *final(con) == ActiveConsole::Registered(new_console),
            {
                *con = ActiveConsole::Registered(new_console)
            }
    )
}

/// Return the currently registered console. The registry is left as it was.
pub fn console<C: All + Copy>(registry: &mut ConsoleRegistry<C>) -> (active: ActiveConsole<C>)
    ensures
        active == old(registry)@,
        final(registry)@ == old(registry)@,
{
    registry.cur_console.lock(
        |con: &mut ActiveConsole<C>| -> (active: ActiveConsole<C>)
            ensures
                active == *old(con),
                *final(con) == *old(con),
            {
                *con
            }
    )
}

} // verus!
