//! Names of processes.

use vstd::prelude::*;

verus! {

/// The identifier of a running process, as the kernel gives it out.
pub type ProcessID = u32;

/// A name given to a process when the system is built.
///
/// A label can stand in source code; the kernel resolves it to the
/// identifier of the running process.
#[derive(Clone, Copy, Debug, PartialEq, Eq, Structural)]
pub enum ProcessLabel {
    Label0,
}

impl ProcessLabel {
    /// The number that stands for this label on the wire.
    pub open spec fn number(self) -> u32 {
        match self {
            ProcessLabel::Label0 => 0,
        }
    }
}

impl From<ProcessLabel> for u32 {
    /// Encodes a label as its number.
    fn from(pl: ProcessLabel) -> (v: u32)
        ensures
            v == pl.number(),
    {
        match pl {
            ProcessLabel::Label0 => 0,
        }
    }
}

impl vstd::std_specs::convert::FromSpecImpl<ProcessLabel> for u32 {
    open spec fn obeys_from_spec() -> bool {
        true
    }

    open spec fn from_spec(pl: ProcessLabel) -> u32 {
        pl.number()
    }
}

} // verus!
