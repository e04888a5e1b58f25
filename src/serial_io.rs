//! SPI and I2C buses, and the byte counts that their reads and writes return.

use vstd::prelude::*;
use crate::error::{HalError, HalResult};

verus! {

/// A failed transfer on a serial bus.
#[derive(Copy, Clone, Debug, PartialEq, Eq, Structural)]
pub enum SerialError {
    ReadError,
    WriteError,
}

/// What a native transfer count means: a negative count is a failed
/// transfer, any other is the number of bytes moved.
pub open spec fn transfer_len(count: i32, failure: SerialError) -> Result<usize, SerialError> {
    if count < 0 {
        Err(failure)
    } else {
        Ok(count as usize)
    }
}

impl SerialError {
    /// The number of bytes that a native read reports.
    pub fn read_len(count: i32) -> (r: Result<usize, SerialError>)
        ensures
            r == transfer_len(count, SerialError::ReadError),
    {
        if count <= -1 {
            Err(SerialError::ReadError)
        } else {
            Ok(count as usize)
        }
    }

    /// The number of bytes that a native write reports.
    pub fn write_len(count: i32) -> (r: Result<usize, SerialError>)
        ensures
            r == transfer_len(count, SerialError::WriteError),
    {
        if count <= -1 {
            Err(SerialError::WriteError)
        } else {
            Ok(count as usize)
        }
    }
}

/// Whether `port` is in `claimed`.
fn port_claimed(claimed: &Vec<i32>, port: i32) -> (r: bool)
    ensures
        r == claimed@.contains(port),
{
    let mut i: usize = 0;
    while i < claimed.len()
        invariant
            0 <= i <= claimed.len(),
            forall|j: int| 0 <= j < i ==> claimed@[j] != port,
        decreases claimed.len() - i,
    {
        if claimed[i] == port {
            return true;
        }
        i += 1;
    }
    false
}

/// The chip-select line or connector that an SPI device is plugged into.
#[derive(Copy, Clone, Debug, PartialOrd, Ord, PartialEq, Eq, Hash, Structural)]
pub enum SpiPort {
    CS0,
    CS1,
    CS2,
    CS3,
    MXP,
    Unknown(i32),
}

/// The native port number of each SPI port.
pub open spec fn spi_port_number(port: SpiPort) -> i32 {
    match port {
        SpiPort::CS0 => 0,
        SpiPort::CS1 => 1,
        SpiPort::CS2 => 2,
        SpiPort::CS3 => 3,
        SpiPort::MXP => 4,
        SpiPort::Unknown(k) => k,
    }
}

/// The SPI port of a native port number.
pub open spec fn spi_port_of(i: i32) -> SpiPort {
    if i == 0 {
        SpiPort::CS0
    } else if i == 1 {
        SpiPort::CS1
    } else if i == 2 {
        SpiPort::CS2
    } else if i == 3 {
        SpiPort::CS3
    } else if i == 4 {
        SpiPort::MXP
    } else {
        SpiPort::Unknown(i)
    }
}

impl SpiPort {
    /// The native port number.
    pub fn get_port(&self) -> (r: i32)
        ensures
            r == spi_port_number(*self),
    {
        match *self {
            SpiPort::CS0 => 0,
            SpiPort::CS1 => 1,
            SpiPort::CS2 => 2,
            SpiPort::CS3 => 3,
            SpiPort::MXP => 4,
            SpiPort::Unknown(k) => k,
        }
    }
}

impl From<i32> for SpiPort {
    fn from(i: i32) -> (r: SpiPort)
        ensures
            r == spi_port_of(i),
    {
        match i {
            0 => SpiPort::CS0,
            1 => SpiPort::CS1,
            2 => SpiPort::CS2,
            3 => SpiPort::CS3,
            4 => SpiPort::MXP,
            k => SpiPort::Unknown(k),
        }
    }
}

impl vstd::std_specs::convert::FromSpecImpl<i32> for SpiPort {
    open spec fn obeys_from_spec() -> bool {
        true
    }

    open spec fn from_spec(i: i32) -> SpiPort {
        spi_port_of(i)
    }
}

/// Options of an SPI device.
#[derive(Copy, Clone, Debug, PartialOrd, Ord, PartialEq, Eq, Hash, Structural)]
pub struct SpiOptions {
    /// The number of bytes to read per call.
    pub read_size: i32,
}

impl Default for SpiOptions {
    fn default() -> (r: SpiOptions)
        ensures
            r.read_size == 1,
    {
        SpiOptions { read_size: 1 }
    }
}

/// An SPI device on the robot.
pub struct HalSpi {
    /// The native port number.
    port: i32,
    /// Options of this device.
    opts: SpiOptions,
}

impl HalSpi {
    pub closed spec fn port_spec(&self) -> i32 {
        self.port
    }

    pub closed spec fn opts_spec(&self) -> SpiOptions {
        self.opts
    }

    /// An SPI device on `port` with the default options, unless the port's
    /// number is among those already claimed. The native port itself is
    /// brought up by the caller, with the number that `get_port` reports.
    pub fn new(port: SpiPort, claimed: &Vec<i32>) -> (r: HalResult<HalSpi>)
        ensures
            r is Err <==> claimed@.contains(spi_port_number(port)),
            r matches Err(e) ==> e == HalError::ResourceAlreadyInitialized,
            r matches Ok(spi) ==> spi.port_spec() == spi_port_number(port)
                && spi.opts_spec().read_size == 1,
    {
        if port_claimed(claimed, port.get_port()) {
            Err(HalError::ResourceAlreadyInitialized)
        } else {
            Ok(HalSpi { port: port.get_port(), opts: SpiOptions::default() })
        }
    }

    /// An SPI device on a native port number, whether claimed or not.
    /// Using one port from two threads at once is a data race.
    pub fn new_raw(port: i32, opts: SpiOptions) -> (r: HalSpi)
        ensures
            r.port_spec() == port,
            r.opts_spec() == opts,
    {
        HalSpi { port, opts }
    }

    /// The native port number of this device.
    pub fn get_port(&self) -> (r: i32)
        ensures
            r == self.port_spec(),
    {
        self.port
    }

    /// The options of this device.
    pub fn opts(&self) -> (r: SpiOptions)
        ensures
            r == self.opts_spec(),
    {
        self.opts
    }
}

/// The connector that an I2C device is plugged into.
#[derive(Copy, Clone, Debug, PartialOrd, Ord, PartialEq, Eq, Hash, Structural)]
pub enum I2cPort {
    OnBoard,
    MXP,
}

/// The native port number of each I2C port.
pub open spec fn i2c_port_number(port: I2cPort) -> i32 {
    match port {
        I2cPort::OnBoard => 0,
        I2cPort::MXP => 1,
    }
}

impl I2cPort {
    /// The native port number.
    pub fn get_port(&self) -> (r: i32)
        ensures
            r == i2c_port_number(*self),
    {
        match *self {
            I2cPort::OnBoard => 0,
            I2cPort::MXP => 1,
        }
    }
}

/// Options of an I2C device.
#[derive(Copy, Clone, Debug, PartialOrd, Ord, PartialEq, Eq, Hash, Structural)]
pub struct I2cOptions {
    /// The number of bytes to read per call.
    pub read_size: i32,
}

impl Default for I2cOptions {
    fn default() -> (r: I2cOptions)
        ensures
            r.read_size == 1,
    {
        I2cOptions { read_size: 1 }
    }
}

/// An I2C device on the robot.
pub struct I2C {
    /// The native port number.
    port: i32,
    /// The device's address on the bus.
    address: i32,
    /// Options of this device.
    opts: I2cOptions,
}

impl I2C {
    pub closed spec fn port_spec(&self) -> i32 {
        self.port
    }

    pub closed spec fn address_spec(&self) -> i32 {
        self.address
    }

    pub closed spec fn opts_spec(&self) -> I2cOptions {
        self.opts
    }

    /// An I2C device with the default options; see `new_with_opts`.
    pub fn new(port: I2cPort, address: i32, claimed: &Vec<i32>) -> (r: Option<I2C>)
        ensures
            r is None <==> claimed@.contains(i2c_port_number(port)),
            r matches Some(dev) ==> dev.port_spec() == i2c_port_number(port)
                && dev.address_spec() == address && dev.opts_spec().read_size == 1,
    {
        I2C::new_with_opts(port, address, I2cOptions::default(), claimed)
    }

    /// An I2C device at `address` on `port`, unless the port's number is
    /// among those already claimed. The native port itself is brought up by
    /// the caller, with the number that `get_port` reports.
    pub fn new_with_opts(port: I2cPort, address: i32, opts: I2cOptions, claimed: &Vec<i32>) -> (r: Option<I2C>)
        ensures
            r is None <==> claimed@.contains(i2c_port_number(port)),
            r matches Some(dev) ==> dev.port_spec() == i2c_port_number(port)
                && dev.address_spec() == address && dev.opts_spec() == opts,
    {
        if port_claimed(claimed, port.get_port()) {
            None
        } else {
            Some(I2C { port: port.get_port(), address, opts })
        }
    }

    /// An I2C device on a native port number, whether claimed or not.
    /// Using one port from two threads at once is a data race.
    pub fn new_raw(port: i32, address: i32, opts: I2cOptions) -> (r: I2C)
        ensures
            r.port_spec() == port,
            r.address_spec() == address,
            r.opts_spec() == opts,
    {
        I2C { port, address, opts }
    }

    /// The native port number of this device.
    pub fn get_port(&self) -> (r: i32)
        ensures
            r == self.port_spec(),
    {
        self.port
    }

    /// The address of this device on its bus.
    pub fn address(&self) -> (r: i32)
        ensures
            r == self.address_spec(),
    {
        self.address
    }

    /// The options of this device.
    pub fn opts(&self) -> (r: I2cOptions)
        ensures
            r == self.opts_spec(),
    {
        self.opts
    }
}

} // verus!
