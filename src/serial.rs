//! Serial ports and the devices opened on them.

use vstd::prelude::*;

verus! {

/// The native encoding of a serial port.
pub type RawSerialPort = i32;

pub const HAL_SERIAL_PORT_ONBOARD: RawSerialPort = 0;
pub const HAL_SERIAL_PORT_MXP: RawSerialPort = 1;
pub const HAL_SERIAL_PORT_USB1: RawSerialPort = 2;
pub const HAL_SERIAL_PORT_USB2: RawSerialPort = 3;

/// A serial port of the control board.
#[derive(Debug, Copy, Clone, PartialEq, Eq, Hash, Structural)]
pub enum SerialPort {
    OnBoard,
    MXP,
    USB1,
    USB2,
}

/// The native encoding of each port.
pub open spec fn serial_port_code(port: SerialPort) -> RawSerialPort {
    match port {
        SerialPort::OnBoard => HAL_SERIAL_PORT_ONBOARD,
        SerialPort::MXP => HAL_SERIAL_PORT_MXP,
        SerialPort::USB1 => HAL_SERIAL_PORT_USB1,
        SerialPort::USB2 => HAL_SERIAL_PORT_USB2,
    }
}

impl SerialPort {
    /// The native encoding of this port.
    pub fn into_raw(&self) -> (r: RawSerialPort)
        ensures
            r == serial_port_code(*self),
    {
        match *self {
            SerialPort::OnBoard => HAL_SERIAL_PORT_ONBOARD,
            SerialPort::MXP => HAL_SERIAL_PORT_MXP,
            SerialPort::USB1 => HAL_SERIAL_PORT_USB1,
            SerialPort::USB2 => HAL_SERIAL_PORT_USB2,
        }
    }

    /// The port that a native value encodes, if it encodes one.
    pub fn from_raw(raw: RawSerialPort) -> (r: Option<SerialPort>)
        ensures
            r matches Some(port) ==> serial_port_code(port) == raw,
            r is None <==> !(0 <= raw <= 3),
    {
        match raw {
            HAL_SERIAL_PORT_ONBOARD => Some(SerialPort::OnBoard),
            HAL_SERIAL_PORT_MXP => Some(SerialPort::MXP),
            HAL_SERIAL_PORT_USB1 => Some(SerialPort::USB1),
            HAL_SERIAL_PORT_USB2 => Some(SerialPort::USB2),
            _ => None,
        }
    }
}

/// Options of a serial device.
#[derive(Debug, Copy, Clone, PartialEq, Eq, Hash, Structural)]
pub struct SerialOptions {
    /// The number of bytes to read per call.
    pub read_size: i32,
}

impl Default for SerialOptions {
    fn default() -> (r: SerialOptions)
        ensures
            r.read_size == 1,
    {
        SerialOptions { read_size: 1 }
    }
}

/// A device opened on a serial port.
pub struct SerialDevice {
    port: SerialPort,
    opts: SerialOptions,
}

impl SerialDevice {
    pub closed spec fn port_spec(&self) -> SerialPort {
        self.port
    }

    pub closed spec fn opts_spec(&self) -> SerialOptions {
        self.opts
    }

    /// Opens a device on `port` with the default options, unless the port
    /// is among those already claimed.
    pub fn new(port: SerialPort, claimed: &Vec<SerialPort>) -> (r: Option<SerialDevice>)
        ensures
            r is None <==> claimed@.contains(port),
            r matches Some(dev) ==> dev.port_spec() == port && dev.opts_spec().read_size == 1,
    {
        let mut i: usize = 0;
        while i < claimed.len()
            invariant
                0 <= i <= claimed.len(),
                forall|j: int| 0 <= j < i ==> claimed@[j] != port,
            decreases claimed.len() - i,
        {
            if claimed[i] == port {
                return None;
            }
            i += 1;
        }
        Some(SerialDevice { port, opts: SerialOptions::default() })
    }

    /// The port of this device.
    pub fn port(&self) -> (r: SerialPort)
        ensures
            r == self.port_spec(),
    {
        self.port
    }

    /// The options of this device.
    pub fn opts(&self) -> (r: SerialOptions)
        ensures
            r == self.opts_spec(),
    {
        self.opts
    }
}

} // verus!
