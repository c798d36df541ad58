//! System-call identifiers and the errors of their dispatch.

use vstd::prelude::*;

verus! {

/// Why a request was turned away before any handler ran.
#[derive(Clone, Copy, Debug, PartialEq, Eq, Structural)]
pub enum DispatchError {
    /// The number on the wire names no value of the expected kind.
    IllegalValue,
    /// The value is known, but the caller may not use it.
    InsufficientCapabilities,
}

/// The operations a task may request from the kernel.
///
/// The number of each operation is frozen: new operations are appended,
/// never inserted. `Log` is offered by debug builds only: `encode` and
/// `decode` take the build and apply that gate alike. The conversions to
/// and from `u8` speak of the type as it stands, `Log` included.
#[derive(Clone, Copy, Debug, PartialEq, Eq, Structural)]
pub enum Syscall {
    Exit,
    GetProcessHandle,
    Yield,
    Sleep,
    Start,
    MapResource,
    Unmap,
    SHMSetCredential,
    SendIPC,
    SendSignal,
    WaitForEvent,
    ManageCPUSleep,
    Log,
}

impl Syscall {
    /// The number that selects this operation on the wire.
    pub open spec fn number(self) -> u8 {
        match self {
            Syscall::Exit => 0,
            Syscall::GetProcessHandle => 1,
            Syscall::Yield => 2,
            Syscall::Sleep => 3,
            Syscall::Start => 4,
            Syscall::MapResource => 5,
            Syscall::Unmap => 6,
            Syscall::SHMSetCredential => 7,
            Syscall::SendIPC => 8,
            Syscall::SendSignal => 9,
            Syscall::WaitForEvent => 10,
            Syscall::ManageCPUSleep => 11,
            Syscall::Log => 12,
        }
    }

    /// Whether a build offers this operation. `debug` tells a debug build
    /// from a release build.
    pub open spec fn offered(self, debug: bool) -> bool {
        debug || self != Syscall::Log
    }

    /// The operation that `v` selects in a build, if it selects one.
    pub open spec fn spec_decode(v: u8, debug: bool) -> Result<Syscall, DispatchError> {
        match v {
            0 => Ok(Syscall::Exit),
            1 => Ok(Syscall::GetProcessHandle),
            2 => Ok(Syscall::Yield),
            3 => Ok(Syscall::Sleep),
            4 => Ok(Syscall::Start),
            5 => Ok(Syscall::MapResource),
            6 => Ok(Syscall::Unmap),
            7 => Ok(Syscall::SHMSetCredential),
            8 => Ok(Syscall::SendIPC),
            9 => Ok(Syscall::SendSignal),
            10 => Ok(Syscall::WaitForEvent),
            11 => Ok(Syscall::ManageCPUSleep),
            12 if debug => Ok(Syscall::Log),
            _ => Err(DispatchError::IllegalValue),
        }
    }

    /// The selector under which a build sends this operation, if the build
    /// offers it.
    pub open spec fn spec_encode(self, debug: bool) -> Result<u8, DispatchError> {
        if self.offered(debug) {
            Ok(self.number())
        } else {
            Err(DispatchError::IllegalValue)
        }
    }

    /// Encodes an operation for a build. An operation that the build does
    /// not offer is refused, as the same build refuses its number when
    /// decoding.
    pub fn encode(self, debug: bool) -> (r: Result<u8, DispatchError>)
        ensures
            r == self.spec_encode(debug),
            r is Ok <==> self.offered(debug),
            r matches Ok(v) ==> v == self.number(),
            r matches Err(e) ==> e == DispatchError::IllegalValue,
    {
        match self {
            Syscall::Log => if debug {
                Ok(12)
            } else {
                Err(DispatchError::IllegalValue)
            },
            _ => Ok(u8::from(self)),
        }
    }

    /// Decodes a selector received from a task.
    ///
    /// Any byte is accepted. The result is the one operation offered by the
    /// build whose number is `v`, and `IllegalValue` when there is none.
    pub fn decode(v: u8, debug: bool) -> (r: Result<Syscall, DispatchError>)
        ensures
            r == Syscall::spec_decode(v, debug),
            r is Ok <==> v <= 11 || (debug && v == 12),
            r matches Ok(s) ==> s.number() == v && s.offered(debug),
            r matches Err(e) ==> e == DispatchError::IllegalValue,
    {
        match v {
            0 => Ok(Syscall::Exit),
            1 => Ok(Syscall::GetProcessHandle),
            2 => Ok(Syscall::Yield),
            3 => Ok(Syscall::Sleep),
            4 => Ok(Syscall::Start),
            5 => Ok(Syscall::MapResource),
            6 => Ok(Syscall::Unmap),
            7 => Ok(Syscall::SHMSetCredential),
            8 => Ok(Syscall::SendIPC),
            9 => Ok(Syscall::SendSignal),
            10 => Ok(Syscall::WaitForEvent),
            11 => Ok(Syscall::ManageCPUSleep),
            12 if debug => Ok(Syscall::Log),
            _ => Err(DispatchError::IllegalValue),
        }
    }
}

impl TryFrom<u8> for Syscall {
    type Error = DispatchError;

    /// Decodes a selector to the operation with that number. Every
    /// operation of the type has one, so the numbers 0 to 12 decode and 13
    /// to 255 are refused with `IllegalValue`. To refuse `Log` as a release
    /// build does, call `decode`.
    fn try_from(v: u8) -> (r: Result<Syscall, DispatchError>)
        ensures
            r == Syscall::spec_decode(v, true),
            r is Ok <==> v <= 12,
            r matches Ok(s) ==> s.number() == v,
            r matches Err(e) ==> e == DispatchError::IllegalValue,
    {
        Syscall::decode(v, true)
    }
}

impl vstd::std_specs::convert::TryFromSpecImpl<u8> for Syscall {
    open spec fn obeys_try_from_spec() -> bool {
        true
    }

    open spec fn try_from_spec(v: u8) -> Result<Syscall, DispatchError> {
        Syscall::spec_decode(v, true)
    }
}

impl From<Syscall> for u8 {
    /// Encodes an operation as its selector. Every operation has exactly
    /// one, and the conversion from `u8` takes it back to the operation.
    fn from(syscall: Syscall) -> (v: u8)
        ensures
            v == syscall.number(),
    {
        match syscall {
            Syscall::Exit => 0,
            Syscall::GetProcessHandle => 1,
            Syscall::Yield => 2,
            Syscall::Sleep => 3,
            Syscall::Start => 4,
            Syscall::MapResource => 5,
            Syscall::Unmap => 6,
            Syscall::SHMSetCredential => 7,
            Syscall::SendIPC => 8,
            Syscall::SendSignal => 9,
            Syscall::WaitForEvent => 10,
            Syscall::ManageCPUSleep => 11,
            Syscall::Log => 12,
        }
    }
}

impl vstd::std_specs::convert::FromSpecImpl<Syscall> for u8 {
    open spec fn obeys_from_spec() -> bool {
        true
    }

    open spec fn from_spec(syscall: Syscall) -> u8 {
        syscall.number()
    }
}

/// Decoding undoes encoding: the selector of an operation that a build
/// offers decodes, in that build, to the operation itself.
pub proof fn lemma_syscall_decode_encode(syscall: Syscall, debug: bool)
    requires
        syscall.offered(debug),
    ensures
        syscall.spec_encode(debug) == Ok::<u8, DispatchError>(syscall.number()),
        Syscall::spec_decode(syscall.number(), debug) == Ok::<Syscall, DispatchError>(syscall),
{
}

/// The conversions to and from `u8` undo each other on every operation,
/// `Log` included: the number of an operation decodes to that operation,
/// and a number is accepted exactly when it is at most 12.
pub proof fn lemma_syscall_try_from_from(syscall: Syscall, v: u8)
    ensures
        syscall.number() <= 12,
        Syscall::spec_decode(syscall.number(), true) == Ok::<Syscall, DispatchError>(syscall),
        Syscall::spec_decode(v, true) is Ok <==> v <= 12,
        Syscall::spec_decode(v, true) matches Ok(s) ==> s.number() == v,
{
}

/// Encoding undoes decoding: two operations with one selector are one
/// operation, and a selector that decodes is the number of what it decodes
/// to. A selector is refused exactly when no offered operation has it.
pub proof fn lemma_syscall_encode_decode(v: u8, debug: bool)
    ensures
        match Syscall::spec_decode(v, debug) {
            Ok(s) => s.number() == v && s.offered(debug),
            Err(e) => e == DispatchError::IllegalValue && forall|s: Syscall|
                s.offered(debug) ==> #[trigger] s.number() != v,
        },
{
}

} // verus!
