//! Arguments of the sleep and power-management calls.

use vstd::prelude::*;
use crate::syscall::DispatchError;

verus! {

/// How long a task asks to sleep: one of six usual durations, or any number
/// of milliseconds.
#[derive(Clone, Copy, Debug, PartialEq, Eq, Structural)]
pub enum SleepDuration {
    D1ms,
    D2ms,
    D5ms,
    D10ms,
    D20ms,
    D50ms,
    ArbitraryMs(u32),
}

impl SleepDuration {
    /// The duration in milliseconds, which is its form on the wire.
    pub open spec fn millis(self) -> u32 {
        match self {
            SleepDuration::D1ms => 1,
            SleepDuration::D2ms => 2,
            SleepDuration::D5ms => 5,
            SleepDuration::D10ms => 10,
            SleepDuration::D20ms => 20,
            SleepDuration::D50ms => 50,
            SleepDuration::ArbitraryMs(ms) => ms,
        }
    }
}

impl From<SleepDuration> for u32 {
    /// Encodes a duration as milliseconds. An arbitrary duration passes
    /// through unchanged, however long it is.
    fn from(duration: SleepDuration) -> (ms: u32)
        ensures
            ms == duration.millis(),
    {
        match duration {
            SleepDuration::D1ms => 1,
            SleepDuration::D2ms => 2,
            SleepDuration::D5ms => 5,
            SleepDuration::D10ms => 10,
            SleepDuration::D20ms => 20,
            SleepDuration::D50ms => 50,
            SleepDuration::ArbitraryMs(ms) => ms,
        }
    }
}

impl vstd::std_specs::convert::FromSpecImpl<SleepDuration> for u32 {
    open spec fn obeys_from_spec() -> bool {
        true
    }

    open spec fn from_spec(duration: SleepDuration) -> u32 {
        duration.millis()
    }
}

/// How deeply a sleeping task lets the system sleep.
#[derive(Clone, Copy, Debug, PartialEq, Eq, Structural)]
pub enum SleepMode {
    Shallow,
    Deep,
}

impl SleepMode {
    /// The integer that stands for this mode on the wire.
    pub open spec fn code(self) -> u32 {
        match self {
            SleepMode::Shallow => 0,
            SleepMode::Deep => 1,
        }
    }
}

impl From<SleepMode> for u32 {
    /// Encodes a sleep mode.
    fn from(mode: SleepMode) -> (v: u32)
        ensures
            v == mode.code(),
    {
        match mode {
            SleepMode::Shallow => 0,
            SleepMode::Deep => 1,
        }
    }
}

impl vstd::std_specs::convert::FromSpecImpl<SleepMode> for u32 {
    open spec fn obeys_from_spec() -> bool {
        true
    }

    open spec fn from_spec(mode: SleepMode) -> u32 {
        mode.code()
    }
}

/// What a task asks of the processor's sleep policy.
#[derive(Clone, Copy, Debug, PartialEq, Eq, Structural)]
pub enum CPUSleep {
    WaitForInterrupt,
    WaitForEvent,
    ForbidSleep,
    AllowSleep,
}

impl CPUSleep {
    /// The integer that stands for this request on the wire.
    pub open spec fn code(self) -> u32 {
        match self {
            CPUSleep::WaitForInterrupt => 0,
            CPUSleep::WaitForEvent => 1,
            CPUSleep::ForbidSleep => 2,
            CPUSleep::AllowSleep => 3,
        }
    }

    /// The request that `v` stands for, if it stands for one.
    pub open spec fn spec_decode(v: u32) -> Result<CPUSleep, DispatchError> {
        match v {
            0 => Ok(CPUSleep::WaitForInterrupt),
            1 => Ok(CPUSleep::WaitForEvent),
            2 => Ok(CPUSleep::ForbidSleep),
            3 => Ok(CPUSleep::AllowSleep),
            _ => Err(DispatchError::IllegalValue),
        }
    }
}

impl From<CPUSleep> for u32 {
    /// Encodes a request.
    fn from(mode: CPUSleep) -> (v: u32)
        ensures
            v == mode.code(),
    {
        match mode {
            CPUSleep::WaitForInterrupt => 0,
            CPUSleep::WaitForEvent => 1,
            CPUSleep::ForbidSleep => 2,
            CPUSleep::AllowSleep => 3,
        }
    }
}

impl vstd::std_specs::convert::FromSpecImpl<CPUSleep> for u32 {
    open spec fn obeys_from_spec() -> bool {
        true
    }

    open spec fn from_spec(mode: CPUSleep) -> u32 {
        mode.code()
    }
}

impl TryFrom<u32> for CPUSleep {
    type Error = DispatchError;

    /// Decodes a request received from a task. The values 0 to 3 each name
    /// a request; 4 and above are refused with `IllegalValue`.
    fn try_from(mode: u32) -> (r: Result<CPUSleep, DispatchError>)
        ensures
            r == CPUSleep::spec_decode(mode),
            r is Ok <==> mode <= 3,
            r matches Ok(c) ==> c.code() == mode,
            r matches Err(e) ==> e == DispatchError::IllegalValue,
    {
        match mode {
            0 => Ok(CPUSleep::WaitForInterrupt),
            1 => Ok(CPUSleep::WaitForEvent),
            2 => Ok(CPUSleep::ForbidSleep),
            3 => Ok(CPUSleep::AllowSleep),
            _ => Err(DispatchError::IllegalValue),
        }
    }
}

impl vstd::std_specs::convert::TryFromSpecImpl<u32> for CPUSleep {
    open spec fn obeys_try_from_spec() -> bool {
        true
    }

    open spec fn try_from_spec(mode: u32) -> Result<CPUSleep, DispatchError> {
        CPUSleep::spec_decode(mode)
    }
}

/// Two sleep modes with one code are one mode.
pub proof fn lemma_sleep_mode_injective(a: SleepMode, b: SleepMode)
    requires
        a.code() == b.code(),
    ensures
        a == b,
{
}

/// Every request comes back from its own code.
pub proof fn lemma_cpu_sleep_decode_encode(mode: CPUSleep)
    ensures
        CPUSleep::spec_decode(mode.code()) == Ok::<CPUSleep, DispatchError>(mode),
        mode.code() <= 3,
{
}

/// A value decodes exactly when some request has it as its code: 0 to 3
/// each give the request with that code, and 4 and above are refused.
pub proof fn lemma_cpu_sleep_encode_decode(v: u32)
    ensures
        match CPUSleep::spec_decode(v) {
            Ok(c) => c.code() == v && v <= 3,
            Err(e) => e == DispatchError::IllegalValue && v >= 4 && forall|c: CPUSleep|
                #[trigger] c.code() != v,
        },
{
}

} // verus!
