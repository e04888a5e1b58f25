//! Counter modes and their native encoding.

use vstd::prelude::*;

verus! {

/// The native encoding of a counter mode.
pub type RawCounterMode = i32;

pub const HAL_COUNTER_K_TWO_PULSE: RawCounterMode = 0;
pub const HAL_COUNTER_K_SEMIPERIOD: RawCounterMode = 1;
pub const HAL_COUNTER_K_PULSE_LENGTH: RawCounterMode = 2;
pub const HAL_COUNTER_K_EXTERNAL_DIRECTION: RawCounterMode = 3;

/// How a counter counts.
#[derive(Debug, Copy, Clone, PartialEq, Eq, Hash, Structural)]
pub enum CounterMode {
    TwoPulse,
    Semiperiod,
    PulseLength,
    ExternalDirection,
}

/// The native encoding of each mode.
pub open spec fn counter_mode_code(mode: CounterMode) -> RawCounterMode {
    match mode {
        CounterMode::TwoPulse => HAL_COUNTER_K_TWO_PULSE,
        CounterMode::Semiperiod => HAL_COUNTER_K_SEMIPERIOD,
        CounterMode::PulseLength => HAL_COUNTER_K_PULSE_LENGTH,
        CounterMode::ExternalDirection => HAL_COUNTER_K_EXTERNAL_DIRECTION,
    }
}

impl CounterMode {
    /// The native encoding of this mode.
    pub fn into_raw(&self) -> (r: RawCounterMode)
        ensures
            r == counter_mode_code(*self),
    {
        match *self {
            CounterMode::ExternalDirection => HAL_COUNTER_K_EXTERNAL_DIRECTION,
            CounterMode::PulseLength => HAL_COUNTER_K_PULSE_LENGTH,
            CounterMode::Semiperiod => HAL_COUNTER_K_SEMIPERIOD,
            CounterMode::TwoPulse => HAL_COUNTER_K_TWO_PULSE,
        }
    }

    /// The mode that a native value encodes, if it encodes one.
    pub fn from_raw(raw: RawCounterMode) -> (r: Option<CounterMode>)
        ensures
            r matches Some(mode) ==> counter_mode_code(mode) == raw,
            r is None <==> !(0 <= raw <= 3),
    {
        match raw {
            HAL_COUNTER_K_EXTERNAL_DIRECTION => Some(CounterMode::ExternalDirection),
            HAL_COUNTER_K_PULSE_LENGTH => Some(CounterMode::PulseLength),
            HAL_COUNTER_K_SEMIPERIOD => Some(CounterMode::Semiperiod),
            HAL_COUNTER_K_TWO_PULSE => Some(CounterMode::TwoPulse),
            _ => None,
        }
    }
}

} // verus!
