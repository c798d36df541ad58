//! Events that a task can wait for.

use vstd::prelude::*;

verus! {

/// An asynchronous event delivered to a task.
///
/// Signals have no number of their own on the wire: nothing may be read
/// into the order in which they are listed.
#[derive(Clone, Copy, Debug, PartialEq, Eq, Structural)]
pub enum Signal {
    /// The task is asked to abort.
    Abort,
    /// A timer has run out.
    Alarm,
    /// A memory access went wrong on the bus.
    Bus,
    /// A stopped task may go on.
    Cont,
    /// An illegal instruction was met.
    Ill,
    /// Input or output is ready.
    Io,
    /// The other end of a pipe is gone.
    Pipe,
    /// An event can be polled.
    Poll,
    /// The task is asked to end.
    Term,
    /// A trace or breakpoint trap, for debugging.
    Trap,
    /// The first signal left to the user.
    Usr1,
    /// The second signal left to the user.
    Usr2,
}

} // verus!
