//! Results that a system call hands back to its caller.

use vstd::prelude::*;
use crate::syscall::DispatchError;

verus! {

/// The outcome of a system call, returned to the task as a small integer.
#[derive(Clone, Copy, Debug, PartialEq, Eq, Structural)]
pub enum Status {
    /// The call did what was asked.
    Success,
    /// An argument was malformed.
    Invalid,
    /// The caller may not do this.
    Denied,
    /// The named resource does not exist.
    NoEntity,
    /// The resource is in use; the call may be tried again.
    Busy,
    /// The resource is mapped already.
    AlreadyMapped,
    /// The wait ended before the event came.
    TimeOut,
    /// The kernel met a state it cannot recover from.
    Critical,
}

impl Status {
    /// The integer that stands for this outcome on the wire.
    pub open spec fn code(self) -> u32 {
        match self {
            Status::Success => 0,
            Status::Invalid => 1,
            Status::Denied => 2,
            Status::NoEntity => 3,
            Status::Busy => 4,
            Status::AlreadyMapped => 5,
            Status::TimeOut => 6,
            Status::Critical => 7,
        }
    }

    /// The outcome that `v` stands for, if it stands for one.
    pub open spec fn spec_decode(v: u32) -> Result<Status, DispatchError> {
        match v {
            0 => Ok(Status::Success),
            1 => Ok(Status::Invalid),
            2 => Ok(Status::Denied),
            3 => Ok(Status::NoEntity),
            4 => Ok(Status::Busy),
            5 => Ok(Status::AlreadyMapped),
            6 => Ok(Status::TimeOut),
            7 => Ok(Status::Critical),
            _ => Err(DispatchError::IllegalValue),
        }
    }
}

impl TryFrom<u32> for Status {
    type Error = DispatchError;

    /// Decodes a result code. A code above 7 names no outcome and is
    /// refused with `IllegalValue`; nothing is ever trapped.
    fn try_from(v: u32) -> (r: Result<Status, DispatchError>)
        ensures
            r == Status::spec_decode(v),
            r is Ok <==> v <= 7,
            r matches Ok(s) ==> s.code() == v,
            r matches Err(e) ==> e == DispatchError::IllegalValue,
    {
        match v {
            0 => Ok(Status::Success),
            1 => Ok(Status::Invalid),
            2 => Ok(Status::Denied),
            3 => Ok(Status::NoEntity),
            4 => Ok(Status::Busy),
            5 => Ok(Status::AlreadyMapped),
            6 => Ok(Status::TimeOut),
            7 => Ok(Status::Critical),
            _ => Err(DispatchError::IllegalValue),
        }
    }
}

impl vstd::std_specs::convert::TryFromSpecImpl<u32> for Status {
    open spec fn obeys_try_from_spec() -> bool {
        true
    }

    open spec fn try_from_spec(v: u32) -> Result<Status, DispatchError> {
        Status::spec_decode(v)
    }
}

impl From<Status> for u32 {
    /// Encodes an outcome as its result code.
    fn from(status: Status) -> (v: u32)
        ensures
            v == status.code(),
    {
        match status {
            Status::Success => 0,
            Status::Invalid => 1,
            Status::Denied => 2,
            Status::NoEntity => 3,
            Status::Busy => 4,
            Status::AlreadyMapped => 5,
            Status::TimeOut => 6,
            Status::Critical => 7,
        }
    }
}

impl vstd::std_specs::convert::FromSpecImpl<Status> for u32 {
    open spec fn obeys_from_spec() -> bool {
        true
    }

    open spec fn from_spec(status: Status) -> u32 {
        status.code()
    }
}

/// Every outcome comes back from its own code, and only `Success` has
/// code 0.
pub proof fn lemma_status_decode_encode(status: Status)
    ensures
        Status::spec_decode(status.code()) == Ok::<Status, DispatchError>(status),
        status.code() <= 7,
        status.code() == 0 <==> status == Status::Success,
{
}

/// A code decodes exactly when some outcome has it: the codes 0 to 7 each
/// give the outcome with that code, and every other code is refused.
pub proof fn lemma_status_encode_decode(v: u32)
    ensures
        match Status::spec_decode(v) {
            Ok(s) => s.code() == v && v <= 7,
            Err(e) => e == DispatchError::IllegalValue && v > 7 && forall|s: Status|
                #[trigger] s.code() != v,
        },
{
}

} // verus!
