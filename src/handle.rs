//! One nominal handle type per kind of peripheral. All of them hold the same
//! native integer, but a handle of one kind cannot stand where another kind
//! is expected: moving the integer across takes a visible `.0` or
//! `get_handle()`.

use vstd::prelude::*;

verus! {

/// Any native resource.
#[derive(Copy, Clone, Debug, PartialEq, Eq, Hash, Structural)]
pub struct Handle(pub i32);

impl Handle {
    /// The native integer behind the handle.
    pub fn get_handle(&self) -> (r: i32)
        ensures
            r == self.0,
    {
        self.0
    }
}

/// A port of the control board.
#[derive(Copy, Clone, Debug, PartialEq, Eq, Hash, Structural)]
pub struct PortHandle(pub i32);

impl PortHandle {
    /// The native integer behind the handle.
    pub fn get_handle(&self) -> (r: i32)
        ensures
            r == self.0,
    {
        self.0
    }
}

/// An analog input.
#[derive(Copy, Clone, Debug, PartialEq, Eq, Hash, Structural)]
pub struct AnalogInputHandle(pub i32);

impl AnalogInputHandle {
    /// The native integer behind the handle.
    pub fn get_handle(&self) -> (r: i32)
        ensures
            r == self.0,
    {
        self.0
    }
}

/// An analog output.
#[derive(Copy, Clone, Debug, PartialEq, Eq, Hash, Structural)]
pub struct AnalogOutputHandle(pub i32);

impl AnalogOutputHandle {
    /// The native integer behind the handle.
    pub fn get_handle(&self) -> (r: i32)
        ensures
            r == self.0,
    {
        self.0
    }
}

/// An analog trigger.
#[derive(Copy, Clone, Debug, PartialEq, Eq, Hash, Structural)]
pub struct AnalogTriggerHandle(pub i32);

impl AnalogTriggerHandle {
    /// The native integer behind the handle.
    pub fn get_handle(&self) -> (r: i32)
        ensures
            r == self.0,
    {
        self.0
    }
}

/// A compressor.
#[derive(Copy, Clone, Debug, PartialEq, Eq, Hash, Structural)]
pub struct CompressorHandle(pub i32);

impl CompressorHandle {
    /// The native integer behind the handle.
    pub fn get_handle(&self) -> (r: i32)
        ensures
            r == self.0,
    {
        self.0
    }
}

/// A counter.
#[derive(Copy, Clone, Debug, PartialEq, Eq, Hash, Structural)]
pub struct CounterHandle(pub i32);

impl CounterHandle {
    /// The native integer behind the handle.
    pub fn get_handle(&self) -> (r: i32)
        ensures
            r == self.0,
    {
        self.0
    }
}

/// A digital input or output.
#[derive(Copy, Clone, Debug, PartialEq, Eq, Hash, Structural)]
pub struct DigitalHandle(pub i32);

impl DigitalHandle {
    /// The native integer behind the handle.
    pub fn get_handle(&self) -> (r: i32)
        ensures
            r == self.0,
    {
        self.0
    }
}

/// A digital PWM output.
#[derive(Copy, Clone, Debug, PartialEq, Eq, Hash, Structural)]
pub struct DigitalPwmHandle(pub i32);

impl DigitalPwmHandle {
    /// The native integer behind the handle.
    pub fn get_handle(&self) -> (r: i32)
        ensures
            r == self.0,
    {
        self.0
    }
}

/// A gyro.
#[derive(Copy, Clone, Debug, PartialEq, Eq, Hash, Structural)]
pub struct GyroHandle(pub i32);

impl GyroHandle {
    /// The native integer behind the handle.
    pub fn get_handle(&self) -> (r: i32)
        ensures
            r == self.0,
    {
        self.0
    }
}

/// An interrupt watcher.
#[derive(Copy, Clone, Debug, PartialEq, Eq, Hash, Structural)]
pub struct InterruptHandle(pub i32);

impl InterruptHandle {
    /// The native integer behind the handle.
    pub fn get_handle(&self) -> (r: i32)
        ensures
            r == self.0,
    {
        self.0
    }
}

/// A notifier.
#[derive(Copy, Clone, Debug, PartialEq, Eq, Hash, Structural)]
pub struct NotifierHandle(pub i32);

impl NotifierHandle {
    /// The native integer behind the handle.
    pub fn get_handle(&self) -> (r: i32)
        ensures
            r == self.0,
    {
        self.0
    }
}

/// A relay.
#[derive(Copy, Clone, Debug, PartialEq, Eq, Hash, Structural)]
pub struct RelayHandle(pub i32);

impl RelayHandle {
    /// The native integer behind the handle.
    pub fn get_handle(&self) -> (r: i32)
        ensures
            r == self.0,
    {
        self.0
    }
}

/// A solenoid.
#[derive(Copy, Clone, Debug, PartialEq, Eq, Hash, Structural)]
pub struct SolenoidHandle(pub i32);

impl SolenoidHandle {
    /// The native integer behind the handle.
    pub fn get_handle(&self) -> (r: i32)
        ensures
            r == self.0,
    {
        self.0
    }
}

} // verus!
