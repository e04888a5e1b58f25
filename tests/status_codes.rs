use robot_hal::error::{
    check_c_string, FfiError, HalError, ANALOG_TRIGGER_LIMIT_ORDER_ERROR,
    ANALOG_TRIGGER_PULSE_OUTPUT_ERROR, HAL_COUNTER_NOT_SUPPORTED, HAL_HANDLE_ERROR,
    HAL_INVALID_ACCUMULATOR_CHANNEL, HAL_PWM_SCALE_ERROR, HAL_SERIAL_PORT_ERROR,
    HAL_SERIAL_PORT_NOT_FOUND, HAL_SERIAL_PORT_OPEN_ERROR, HAL_THREAD_PRIORITY_ERROR,
    HAL_THREAD_PRIORITY_RANGE_ERROR, INCOMPATIBLE_STATE, LOOP_TIMING_ERROR, NO_AVAILABLE_RESOURCES,
    NULL_PARAMETER, PARAMETER_OUT_OF_RANGE, RESOURCE_IS_ALLOCATED, RESOURCE_OUT_OF_RANGE,
    SAMPLE_RATE_TOO_HIGH, SPI_READ_NO_DATA, SPI_READ_NO_MISO, SPI_WRITE_NO_MOSI,
    VOLTAGE_OUT_OF_RANGE,
};

#[test]
fn listed_non_negative_codes_give_their_kinds() {
    let table = [
        (SAMPLE_RATE_TOO_HIGH, FfiError::SampleRateTooHigh),
        (VOLTAGE_OUT_OF_RANGE, FfiError::VoltageOutOfRange),
        (LOOP_TIMING_ERROR, FfiError::LoopTimingError),
        (SPI_WRITE_NO_MOSI, FfiError::SpiWriteNoMosi),
        (SPI_READ_NO_MISO, FfiError::SpiReadNoMiso),
        (SPI_READ_NO_DATA, FfiError::SpiReadNoData),
        (INCOMPATIBLE_STATE, FfiError::IncompatibleState),
    ];
    for (code, kind) in table.iter() {
        assert!(*code > 0);
        assert_eq!(FfiError::from_code(*code), *kind);
    }
    assert_eq!(FfiError::from_code(1001), FfiError::SampleRateTooHigh);
    assert_eq!(FfiError::from_code(1015), FfiError::IncompatibleState);
}

#[test]
fn listed_negative_codes_give_their_kinds() {
    let table = [
        (NO_AVAILABLE_RESOURCES, FfiError::NoAvailableResources),
        (NULL_PARAMETER, FfiError::NullParameter),
        (ANALOG_TRIGGER_LIMIT_ORDER_ERROR, FfiError::AnalogTriggerLimitOrderError),
        (ANALOG_TRIGGER_PULSE_OUTPUT_ERROR, FfiError::AnalogTriggerPuseOutputError),
        (PARAMETER_OUT_OF_RANGE, FfiError::ParameterOutOfRange),
        (RESOURCE_IS_ALLOCATED, FfiError::ResourceIsAllocated),
        (RESOURCE_OUT_OF_RANGE, FfiError::ResourceOutOfRange),
        (HAL_INVALID_ACCUMULATOR_CHANNEL, FfiError::InvalidAccumulatorChannel),
        (HAL_COUNTER_NOT_SUPPORTED, FfiError::CounterNotSupported),
        (HAL_PWM_SCALE_ERROR, FfiError::PwmScaleError),
        (HAL_HANDLE_ERROR, FfiError::HandleError),
        (HAL_SERIAL_PORT_NOT_FOUND, FfiError::SerialPortNotFound),
        (HAL_SERIAL_PORT_OPEN_ERROR, FfiError::SerialPortNotOpen),
        (HAL_SERIAL_PORT_ERROR, FfiError::SerialPortError),
        (HAL_THREAD_PRIORITY_ERROR, FfiError::ThreadPriorityError),
        (HAL_THREAD_PRIORITY_RANGE_ERROR, FfiError::ThreadPriorityRangeError),
    ];
    for (code, kind) in table.iter() {
        assert!(*code < 0);
        assert_eq!(FfiError::from_code(*code), *kind);
    }
    assert_eq!(FfiError::from_code(-1029), FfiError::ResourceIsAllocated);
}

#[test]
fn unlisted_codes_keep_their_integer() {
    for code in [1, 1003, 1016, -1, -1003, -9999, i32::MAX, i32::MIN].iter() {
        assert_eq!(FfiError::from_code(*code), FfiError::Unknown(*code));
    }
}

#[test]
fn sign_selects_the_table() {
    // The magnitudes of negative-table codes, presented as non-negative codes.
    assert_eq!(FfiError::from_code(1029), FfiError::Unknown(1029));
    assert_eq!(FfiError::from_code(1098), FfiError::Unknown(1098));
    // 1004 is listed on both sides with different meanings.
    assert_eq!(FfiError::from_code(1004), FfiError::LoopTimingError);
    assert_eq!(FfiError::from_code(-1004), FfiError::NoAvailableResources);
    // The negation of a non-negative-table code.
    assert_eq!(FfiError::from_code(-1001), FfiError::Unknown(-1001));
}

#[test]
fn hal_error_from_status_code() {
    assert_eq!(HalError::from(RESOURCE_IS_ALLOCATED), HalError::Hal(FfiError::ResourceIsAllocated));
    assert_eq!(HalError::from(-9999), HalError::Hal(FfiError::Unknown(-9999)));
    assert_eq!(HalError::from(SPI_READ_NO_DATA), HalError::Hal(FfiError::SpiReadNoData));
}

#[test]
fn ffi_messages() {
    assert_eq!(FfiError::ResourceIsAllocated.message(), "HAL: Resource already allocated");
    assert_eq!(
        FfiError::SampleRateTooHigh.message(),
        "HAL: Analog module sample rate is too high"
    );
    assert_eq!(FfiError::ThreadPriorityError.message(), "{ThreadPriorityError}");
    assert_eq!(FfiError::ThreadPriorityRangeError.message(), "{ThreadPriorityRangeError}");
}

#[test]
fn unknown_message_embeds_the_code() {
    assert_eq!(FfiError::Unknown(-9999).message(), "Unknown error: -9999");
    assert_eq!(FfiError::Unknown(0).message(), "Unknown error: 0");
    assert_eq!(FfiError::Unknown(42).message(), "Unknown error: 42");
    assert_eq!(FfiError::Unknown(1000).message(), "Unknown error: 1000");
    assert_eq!(FfiError::Unknown(i32::MIN).message(), "Unknown error: -2147483648");
    assert_eq!(FfiError::Unknown(i32::MAX).message(), "Unknown error: 2147483647");
}

#[test]
fn hal_error_messages() {
    assert_eq!(
        HalError::HalNotInitialized.message(),
        "HAL was not initialized, but a HAL function was invoked"
    );
    assert_eq!(HalError::Hal(FfiError::HandleError).message(), "FFI returned bad status code");
    assert_eq!(HalError::NullError(3).message(), "nul byte found in provided data");
    assert_eq!(
        HalError::ResourceAlreadyInitialized.message(),
        "Tried to create a resource that was already initialized"
    );
    assert_eq!(HalError::Other("custom failure".to_string()).message(), "custom failure");
}

#[test]
fn c_string_check_finds_first_zero_byte() {
    assert_eq!(check_c_string(b"serial0"), Ok(()));
    assert_eq!(check_c_string(b""), Ok(()));
    assert_eq!(check_c_string(b"ab\0c\0"), Err(HalError::NullError(2)));
    assert_eq!(check_c_string(b"\0"), Err(HalError::NullError(0)));
}
