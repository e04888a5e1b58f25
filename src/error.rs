use vstd::prelude::*;
use vstd::string::*;
use crate::decimal::{decimal, push_decimal};

verus! {

// Native status codes of the hardware-abstraction library. Non-negative codes
// and negative codes are two separate numbering spaces.
pub const SAMPLE_RATE_TOO_HIGH: i32 = 1001;
pub const VOLTAGE_OUT_OF_RANGE: i32 = 1002;
pub const LOOP_TIMING_ERROR: i32 = 1004;
pub const SPI_WRITE_NO_MOSI: i32 = 1012;
pub const SPI_READ_NO_MISO: i32 = 1013;
pub const SPI_READ_NO_DATA: i32 = 1014;
pub const INCOMPATIBLE_STATE: i32 = 1015;

pub const NO_AVAILABLE_RESOURCES: i32 = -1004;
pub const NULL_PARAMETER: i32 = -1005;
pub const ANALOG_TRIGGER_LIMIT_ORDER_ERROR: i32 = -1010;
pub const ANALOG_TRIGGER_PULSE_OUTPUT_ERROR: i32 = -1011;
pub const PARAMETER_OUT_OF_RANGE: i32 = -1028;
pub const RESOURCE_IS_ALLOCATED: i32 = -1029;
pub const RESOURCE_OUT_OF_RANGE: i32 = -1030;
pub const HAL_INVALID_ACCUMULATOR_CHANNEL: i32 = -1035;
pub const HAL_COUNTER_NOT_SUPPORTED: i32 = -1058;
pub const HAL_PWM_SCALE_ERROR: i32 = -1072;
pub const HAL_HANDLE_ERROR: i32 = -1098;
pub const HAL_SERIAL_PORT_NOT_FOUND: i32 = -1123;
pub const HAL_SERIAL_PORT_OPEN_ERROR: i32 = -1124;
pub const HAL_SERIAL_PORT_ERROR: i32 = -1125;
pub const HAL_THREAD_PRIORITY_ERROR: i32 = -1152;
pub const HAL_THREAD_PRIORITY_RANGE_ERROR: i32 = -1153;

/// A failure reported by the native library through its status code.
#[derive(Copy, Clone, Debug, PartialEq, Eq, Hash, Structural)]
pub enum FfiError {
    SampleRateTooHigh,
    VoltageOutOfRange,
    LoopTimingError,
    /// SPI write on a port wired without a master-out/slave-in line.
    SpiWriteNoMosi,
    /// SPI read on a port wired without a master-in/slave-out line.
    SpiReadNoMiso,
    SpiReadNoData,
    IncompatibleState,
    NoAvailableResources,
    NullParameter,
    AnalogTriggerLimitOrderError,
    AnalogTriggerPuseOutputError,
    ParameterOutOfRange,
    ResourceIsAllocated,
    ResourceOutOfRange,
    InvalidAccumulatorChannel,
    CounterNotSupported,
    PwmScaleError,
    HandleError,
    SerialPortNotFound,
    SerialPortNotOpen,
    SerialPortError,
    ThreadPriorityError,
    ThreadPriorityRangeError,
    /// Some other status code that has no variant of its own.
    Unknown(i32),
}

/// The table of non-negative status codes.
pub open spec fn non_negative_table(code: i32) -> Option<FfiError> {
    if code == SAMPLE_RATE_TOO_HIGH {
        Some(FfiError::SampleRateTooHigh)
    } else if code == VOLTAGE_OUT_OF_RANGE {
        Some(FfiError::VoltageOutOfRange)
    } else if code == LOOP_TIMING_ERROR {
        Some(FfiError::LoopTimingError)
    } else if code == SPI_WRITE_NO_MOSI {
        Some(FfiError::SpiWriteNoMosi)
    } else if code == SPI_READ_NO_MISO {
        Some(FfiError::SpiReadNoMiso)
    } else if code == SPI_READ_NO_DATA {
        Some(FfiError::SpiReadNoData)
    } else if code == INCOMPATIBLE_STATE {
        Some(FfiError::IncompatibleState)
    } else {
        None
    }
}

/// The table of negative status codes.
pub open spec fn negative_table(code: i32) -> Option<FfiError> {
    if code == NO_AVAILABLE_RESOURCES {
        Some(FfiError::NoAvailableResources)
    } else if code == NULL_PARAMETER {
        Some(FfiError::NullParameter)
    } else if code == ANALOG_TRIGGER_LIMIT_ORDER_ERROR {
        Some(FfiError::AnalogTriggerLimitOrderError)
    } else if code == ANALOG_TRIGGER_PULSE_OUTPUT_ERROR {
        Some(FfiError::AnalogTriggerPuseOutputError)
    } else if code == PARAMETER_OUT_OF_RANGE {
        Some(FfiError::ParameterOutOfRange)
    } else if code == RESOURCE_IS_ALLOCATED {
        Some(FfiError::ResourceIsAllocated)
    } else if code == RESOURCE_OUT_OF_RANGE {
        Some(FfiError::ResourceOutOfRange)
    } else if code == HAL_INVALID_ACCUMULATOR_CHANNEL {
        Some(FfiError::InvalidAccumulatorChannel)
    } else if code == HAL_COUNTER_NOT_SUPPORTED {
        Some(FfiError::CounterNotSupported)
    } else if code == HAL_PWM_SCALE_ERROR {
        Some(FfiError::PwmScaleError)
    } else if code == HAL_HANDLE_ERROR {
        Some(FfiError::HandleError)
    } else if code == HAL_SERIAL_PORT_NOT_FOUND {
        Some(FfiError::SerialPortNotFound)
    } else if code == HAL_SERIAL_PORT_OPEN_ERROR {
        Some(FfiError::SerialPortNotOpen)
    } else if code == HAL_SERIAL_PORT_ERROR {
        Some(FfiError::SerialPortError)
    } else if code == HAL_THREAD_PRIORITY_ERROR {
        Some(FfiError::ThreadPriorityError)
    } else if code == HAL_THREAD_PRIORITY_RANGE_ERROR {
        Some(FfiError::ThreadPriorityRangeError)
    } else {
        None
    }
}

/// The kind of a status code: the sign alone selects the table consulted,
/// and a code missing from that table is kept as `Unknown`.
pub open spec fn ffi_error_of(code: i32) -> FfiError {
    let entry = if code >= 0 {
        non_negative_table(code)
    } else {
        negative_table(code)
    };
    match entry {
        Some(kind) => kind,
        None => FfiError::Unknown(code),
    }
}

/// The native code listed for a kind, if the native library has one.
pub open spec fn native_code(kind: FfiError) -> Option<i32> {
    match kind {
        FfiError::SampleRateTooHigh => Some(SAMPLE_RATE_TOO_HIGH),
        FfiError::VoltageOutOfRange => Some(VOLTAGE_OUT_OF_RANGE),
        FfiError::LoopTimingError => Some(LOOP_TIMING_ERROR),
        FfiError::SpiWriteNoMosi => Some(SPI_WRITE_NO_MOSI),
        FfiError::SpiReadNoMiso => Some(SPI_READ_NO_MISO),
        FfiError::SpiReadNoData => Some(SPI_READ_NO_DATA),
        FfiError::IncompatibleState => Some(INCOMPATIBLE_STATE),
        FfiError::NoAvailableResources => Some(NO_AVAILABLE_RESOURCES),
        FfiError::NullParameter => Some(NULL_PARAMETER),
        FfiError::AnalogTriggerLimitOrderError => Some(ANALOG_TRIGGER_LIMIT_ORDER_ERROR),
        FfiError::AnalogTriggerPuseOutputError => Some(ANALOG_TRIGGER_PULSE_OUTPUT_ERROR),
        FfiError::ParameterOutOfRange => Some(PARAMETER_OUT_OF_RANGE),
        FfiError::ResourceIsAllocated => Some(RESOURCE_IS_ALLOCATED),
        FfiError::ResourceOutOfRange => Some(RESOURCE_OUT_OF_RANGE),
        FfiError::InvalidAccumulatorChannel => Some(HAL_INVALID_ACCUMULATOR_CHANNEL),
        FfiError::CounterNotSupported => Some(HAL_COUNTER_NOT_SUPPORTED),
        FfiError::PwmScaleError => Some(HAL_PWM_SCALE_ERROR),
        FfiError::HandleError => Some(HAL_HANDLE_ERROR),
        FfiError::SerialPortNotFound => Some(HAL_SERIAL_PORT_NOT_FOUND),
        FfiError::SerialPortNotOpen => Some(HAL_SERIAL_PORT_OPEN_ERROR),
        FfiError::SerialPortError => Some(HAL_SERIAL_PORT_ERROR),
        FfiError::ThreadPriorityError => Some(HAL_THREAD_PRIORITY_ERROR),
        FfiError::ThreadPriorityRangeError => Some(HAL_THREAD_PRIORITY_RANGE_ERROR),
        FfiError::Unknown(_) => None,
    }
}

impl FfiError {
    /// Translates a native status code into its kind.
    pub fn from_code(code: i32) -> (r: FfiError)
        ensures
            r == ffi_error_of(code),
    {
        if code >= 0 {
            match code {
                SAMPLE_RATE_TOO_HIGH => FfiError::SampleRateTooHigh,
                VOLTAGE_OUT_OF_RANGE => FfiError::VoltageOutOfRange,
                LOOP_TIMING_ERROR => FfiError::LoopTimingError,
                SPI_WRITE_NO_MOSI => FfiError::SpiWriteNoMosi,
                SPI_READ_NO_MISO => FfiError::SpiReadNoMiso,
                SPI_READ_NO_DATA => FfiError::SpiReadNoData,
                INCOMPATIBLE_STATE => FfiError::IncompatibleState,
                k => FfiError::Unknown(k),
            }
        } else {
            match code {
                NO_AVAILABLE_RESOURCES => FfiError::NoAvailableResources,
                NULL_PARAMETER => FfiError::NullParameter,
                ANALOG_TRIGGER_LIMIT_ORDER_ERROR => FfiError::AnalogTriggerLimitOrderError,
                ANALOG_TRIGGER_PULSE_OUTPUT_ERROR => FfiError::AnalogTriggerPuseOutputError,
                PARAMETER_OUT_OF_RANGE => FfiError::ParameterOutOfRange,
                RESOURCE_IS_ALLOCATED => FfiError::ResourceIsAllocated,
                RESOURCE_OUT_OF_RANGE => FfiError::ResourceOutOfRange,
                HAL_INVALID_ACCUMULATOR_CHANNEL => FfiError::InvalidAccumulatorChannel,
                HAL_COUNTER_NOT_SUPPORTED => FfiError::CounterNotSupported,
                HAL_PWM_SCALE_ERROR => FfiError::PwmScaleError,
                HAL_HANDLE_ERROR => FfiError::HandleError,
                HAL_SERIAL_PORT_NOT_FOUND => FfiError::SerialPortNotFound,
                HAL_SERIAL_PORT_OPEN_ERROR => FfiError::SerialPortNotOpen,
                HAL_SERIAL_PORT_ERROR => FfiError::SerialPortError,
                HAL_THREAD_PRIORITY_ERROR => FfiError::ThreadPriorityError,
                HAL_THREAD_PRIORITY_RANGE_ERROR => FfiError::ThreadPriorityRangeError,
                k => FfiError::Unknown(k),
            }
        }
    }
}

/// Every error that an operation of this library can return.
#[derive(Clone, Debug, PartialEq, Eq)]
pub enum HalError {
    /// The native library reported a failure status.
    Hal(FfiError),
    /// A string held a zero byte, at the given position, so it cannot be
    /// handed to the native library.
    NullError(usize),
    /// Tried to create a resource whose handle was already initialized.
    ResourceAlreadyInitialized,
    /// The native library was not initialized, but a native call was attempted.
    HalNotInitialized,
    /// The module did not have the right device for the type.
    BadModuleType,
    /// The channel did not have the right device for the type.
    BadChannelType,
    /// A handle of the wrong kind was given to a robot I/O function.
    WrongIoInterface,
    /// Some other error, described by its message.
    Other(String),
}

/// The result type of every fallible operation of this library.
pub type HalResult<T> = Result<T, HalError>;

impl From<i32> for HalError {
    /// Translates a native status code.
    fn from(code: i32) -> (r: HalError)
        ensures
            r == HalError::Hal(ffi_error_of(code)),
    {
        HalError::Hal(FfiError::from_code(code))
    }
}

impl vstd::std_specs::convert::FromSpecImpl<i32> for HalError {
    open spec fn obeys_from_spec() -> bool {
        true
    }

    open spec fn from_spec(code: i32) -> HalError {
        HalError::Hal(ffi_error_of(code))
    }
}

/// Each listed native code translates to the kind that it is listed for.
pub proof fn lemma_listed_code_gives_its_kind(kind: FfiError)
    requires
        native_code(kind) is Some,
    ensures
        ffi_error_of(native_code(kind)->0) == kind,
{
}

/// Translation keeps the code: a named kind is the one listed for exactly
/// this code, and any other code comes back as `Unknown` of the same integer.
pub proof fn lemma_translation_keeps_code(code: i32)
    ensures
        match ffi_error_of(code) {
            FfiError::Unknown(c) => c == code && native_code(ffi_error_of(code)) is None,
            kind => native_code(kind) == Some(code),
        },
{
}

/// The sign of a code alone selects the table: a non-negative code never
/// yields a kind of the negative table, and a negative code never yields a
/// kind of the non-negative table.
pub proof fn lemma_sign_selects_table(code: i32)
    ensures
        code >= 0 ==> forall|c: i32| c < 0 ==> negative_table(c) != Some(ffi_error_of(code)),
        code < 0 ==> forall|c: i32| c >= 0 ==> non_negative_table(c) != Some(ffi_error_of(code)),
{
}

/// The message of each kind: the native library's own diagnostic text, a
/// fixed text for the two thread-priority kinds, and the code itself for an
/// unknown code.
pub open spec fn ffi_message(kind: FfiError) -> Seq<char> {
    match kind {
        FfiError::SampleRateTooHigh => "HAL: Analog module sample rate is too high"@,
        FfiError::VoltageOutOfRange => "HAL: Voltage to convert to raw value is out of range [0; 5]"@,
        FfiError::LoopTimingError => "HAL: Digital module loop timing is not the expected value"@,
        FfiError::SpiWriteNoMosi => "HAL: Cannot write to SPI port with no MOSI output"@,
        FfiError::SpiReadNoMiso => "HAL: Cannot read from SPI port with no MISO input"@,
        FfiError::SpiReadNoData => "HAL: No data available to read from SPI"@,
        FfiError::IncompatibleState => "HAL: Incompatible State: The operation cannot be completed"@,
        FfiError::NoAvailableResources => "HAL: No available resources to allocate"@,
        FfiError::NullParameter => "HAL: A pointer parameter to a method is NULL"@,
        FfiError::AnalogTriggerLimitOrderError => "HAL: AnalogTrigger limits error.  Lower limit > Upper Limit"@,
        FfiError::AnalogTriggerPuseOutputError => "HAL: Attempted to read AnalogTrigger pulse output."@,
        FfiError::ParameterOutOfRange => "HAL: A parameter is out of range."@,
        FfiError::ResourceIsAllocated => "HAL: Resource already allocated"@,
        FfiError::ResourceOutOfRange => "HAL: The requested resource is out of range."@,
        FfiError::InvalidAccumulatorChannel => "HAL: The requested input is not an accumulator channel"@,
        FfiError::CounterNotSupported => "HAL: Counter mode not supported for encoder method"@,
        FfiError::PwmScaleError => "HAL: The PWM Scale Factors are out of range"@,
        FfiError::HandleError => "HAL: A handle parameter was passed incorrectly"@,
        FfiError::SerialPortNotFound => "HAL: The specified serial port device was not found"@,
        FfiError::SerialPortNotOpen => "HAL: The serial port could not be opened"@,
        FfiError::SerialPortError => "HAL: There was an error on the serial port"@,
        FfiError::ThreadPriorityError => "{ThreadPriorityError}"@,
        FfiError::ThreadPriorityRangeError => "{ThreadPriorityRangeError}"@,
        FfiError::Unknown(code) => "Unknown error: "@ + decimal(code as int),
    }
}

impl FfiError {
    /// The human-readable message of this kind.
    pub fn message(&self) -> (r: String)
        ensures
            r@ == ffi_message(*self),
    {
        let text = match *self {
            FfiError::SampleRateTooHigh => "HAL: Analog module sample rate is too high",
            FfiError::VoltageOutOfRange => "HAL: Voltage to convert to raw value is out of range [0; 5]",
            FfiError::LoopTimingError => "HAL: Digital module loop timing is not the expected value",
            FfiError::SpiWriteNoMosi => "HAL: Cannot write to SPI port with no MOSI output",
            FfiError::SpiReadNoMiso => "HAL: Cannot read from SPI port with no MISO input",
            FfiError::SpiReadNoData => "HAL: No data available to read from SPI",
            FfiError::IncompatibleState => "HAL: Incompatible State: The operation cannot be completed",
            FfiError::NoAvailableResources => "HAL: No available resources to allocate",
            FfiError::NullParameter => "HAL: A pointer parameter to a method is NULL",
            FfiError::AnalogTriggerLimitOrderError => "HAL: AnalogTrigger limits error.  Lower limit > Upper Limit",
            FfiError::AnalogTriggerPuseOutputError => "HAL: Attempted to read AnalogTrigger pulse output.",
            FfiError::ParameterOutOfRange => "HAL: A parameter is out of range.",
            FfiError::ResourceIsAllocated => "HAL: Resource already allocated",
            FfiError::ResourceOutOfRange => "HAL: The requested resource is out of range.",
            FfiError::InvalidAccumulatorChannel => "HAL: The requested input is not an accumulator channel",
            FfiError::CounterNotSupported => "HAL: Counter mode not supported for encoder method",
            FfiError::PwmScaleError => "HAL: The PWM Scale Factors are out of range",
            FfiError::HandleError => "HAL: A handle parameter was passed incorrectly",
            FfiError::SerialPortNotFound => "HAL: The specified serial port device was not found",
            FfiError::SerialPortNotOpen => "HAL: The serial port could not be opened",
            FfiError::SerialPortError => "HAL: There was an error on the serial port",
            FfiError::ThreadPriorityError => "{ThreadPriorityError}",
            FfiError::ThreadPriorityRangeError => "{ThreadPriorityRangeError}",
            FfiError::Unknown(code) => {
                let mut s = String::from_str("Unknown error: ");
                push_decimal(&mut s, code);
                return s;
            },
        };
        String::from_str(text)
    }
}

/// The message of each error.
pub open spec fn hal_message(e: HalError) -> Seq<char> {
    match e {
        HalError::Hal(_) => "FFI returned bad status code"@,
        HalError::NullError(_) => "nul byte found in provided data"@,
        HalError::ResourceAlreadyInitialized => "Tried to create a resource that was already initialized"@,
        HalError::HalNotInitialized => "HAL was not initialized, but a HAL function was invoked"@,
        HalError::BadModuleType => "Module did not have the right device for type"@,
        HalError::BadChannelType => "Channel did not have the right device for type"@,
        HalError::WrongIoInterface => "Tried to give the incorrect type of handle to a robot IO function"@,
        HalError::Other(text) => text@,
    }
}

impl HalError {
    /// The human-readable message of this error.
    pub fn message(&self) -> (r: String)
        ensures
            r@ == hal_message(*self),
    {
        let text = match self {
            HalError::Hal(_) => "FFI returned bad status code",
            HalError::NullError(_) => "nul byte found in provided data",
            HalError::ResourceAlreadyInitialized => "Tried to create a resource that was already initialized",
            HalError::HalNotInitialized => "HAL was not initialized, but a HAL function was invoked",
            HalError::BadModuleType => "Module did not have the right device for type",
            HalError::BadChannelType => "Channel did not have the right device for type",
            HalError::WrongIoInterface => "Tried to give the incorrect type of handle to a robot IO function",
            HalError::Other(text) => {
                return text.clone();
            },
        };
        String::from_str(text)
    }
}

/// Checks that `bytes` can be handed to the native library as a
/// zero-terminated string: it fails at the first zero byte.
pub fn check_c_string(bytes: &[u8]) -> (r: HalResult<()>)
    ensures
        r is Ok <==> !bytes@.contains(0u8),
        r matches Err(e) ==> exists|i: usize| e == HalError::NullError(i)
            && i < bytes@.len() && bytes@[i as int] == 0u8
            && forall|j: int| 0 <= j < i ==> bytes@[j] != 0u8,
{
    let mut i: usize = 0;
    while i < bytes.len()
        invariant
            0 <= i <= bytes@.len(),
            forall|j: int| 0 <= j < i ==> bytes@[j] != 0u8,
        decreases bytes@.len() - i,
    {
        if bytes[i] == 0 {
            return Err(HalError::NullError(i));
        }
        i += 1;
    }
    Ok(())
}

} // verus!
