use robot_hal::call::{
    check_status, from_native_bool, hal_call, hal_call_bool, hal_call_ret, to_native_bool,
    HalContext,
};
use robot_hal::error::{FfiError, HalError, RESOURCE_IS_ALLOCATED};
use robot_hal::handle::{CounterHandle, RelayHandle};
use std::cell::Cell;

#[test]
fn zero_status_short_circuits() {
    assert_eq!(check_status(0, 17), Ok(17));
    assert_eq!(check_status(0, ()), Ok(()));
    assert_eq!(check_status(-1098, 17), Err(HalError::Hal(FfiError::HandleError)));
}

#[test]
fn uninitialized_library_makes_no_native_call() {
    let ctx = HalContext::new(false);
    assert!(!ctx.is_initialized());
    let calls = Cell::new(0);
    let r = hal_call(&ctx, |status| {
        calls.set(calls.get() + 1);
        (5, status)
    });
    assert_eq!(r, Err(HalError::HalNotInitialized));
    let r = hal_call_ret(&ctx, || {
        calls.set(calls.get() + 1);
        0
    });
    assert_eq!(r, Err(HalError::HalNotInitialized));
    let r = hal_call_bool(&ctx, |status| {
        calls.set(calls.get() + 1);
        (1, status)
    });
    assert_eq!(r, Err(HalError::HalNotInitialized));
    assert_eq!(calls.get(), 0);
}

#[test]
fn zero_status_yields_native_value() {
    let ctx = HalContext::new(true);
    let calls = Cell::new(0);
    let seen = Cell::new(-1);
    let r = hal_call(&ctx, |status| {
        calls.set(calls.get() + 1);
        seen.set(status);
        (-77i64, status)
    });
    assert_eq!(r, Ok(-77i64));
    assert_eq!(calls.get(), 1);
    assert_eq!(seen.get(), 0);
    assert_eq!(hal_call(&ctx, |status| ((), status)), Ok(()));
    assert_eq!(hal_call_ret(&ctx, || 0), Ok(()));
}

#[test]
fn nonzero_status_yields_table_error() {
    let ctx = HalContext::new(true);
    assert_eq!(hal_call(&ctx, |_| (3, 1013)), Err(HalError::Hal(FfiError::SpiReadNoMiso)));
    assert_eq!(hal_call(&ctx, |_| (3, -1123)), Err(HalError::Hal(FfiError::SerialPortNotFound)));
    assert_eq!(hal_call_ret(&ctx, || -1005), Err(HalError::Hal(FfiError::NullParameter)));
    assert_eq!(hal_call_ret(&ctx, || 7), Err(HalError::Hal(FfiError::Unknown(7))));
    assert_eq!(hal_call_bool(&ctx, |_| (1, -1028)), Err(HalError::Hal(FfiError::ParameterOutOfRange)));
}

#[test]
fn native_booleans() {
    let ctx = HalContext::new(true);
    assert_eq!(hal_call_bool(&ctx, |status| (1, status)), Ok(true));
    assert_eq!(hal_call_bool(&ctx, |status| (0, status)), Ok(false));
    assert_eq!(hal_call_bool(&ctx, |status| (-3, status)), Ok(true));
    assert_eq!(to_native_bool(true), 1);
    assert_eq!(to_native_bool(false), 0);
    assert!(from_native_bool(2));
    assert!(!from_native_bool(0));
}

#[test]
fn handle_kinds_convert_only_explicitly() {
    let counter = CounterHandle(12);
    let relay = RelayHandle(counter.get_handle());
    assert_eq!(relay.get_handle(), 12);
    assert_eq!(relay.0, counter.0);
}

#[test]
fn scenario_counter_get_succeeds() {
    let ctx = HalContext::new(true);
    let handle = CounterHandle(3);
    let get_counter = |h: i32, status: &mut i32| -> i32 {
        assert_eq!(h, 3);
        *status = 0;
        42
    };
    let r = hal_call(&ctx, |mut status| {
        let v = get_counter(handle.get_handle(), &mut status);
        (v, status)
    });
    assert_eq!(r, Ok(42));
}

#[test]
fn scenario_relay_initialize_resource_allocated() {
    let ctx = HalContext::new(true);
    let r = hal_call(&ctx, |_| (0, RESOURCE_IS_ALLOCATED)).map(RelayHandle);
    assert_eq!(r, Err(HalError::Hal(FfiError::ResourceIsAllocated)));
}

#[test]
fn scenario_unused_status_is_unknown() {
    let ctx = HalContext::new(true);
    assert_eq!(hal_call(&ctx, |_| (1, -9999)), Err(HalError::Hal(FfiError::Unknown(-9999))));
    assert_eq!(hal_call_ret(&ctx, || -9999), Err(HalError::Hal(FfiError::Unknown(-9999))));
}

#[test]
fn scenario_counter_reset_uninitialized() {
    let ctx = HalContext::new(false);
    let calls = Cell::new(0);
    let reset_counter = |_h: i32, status: &mut i32| {
        calls.set(calls.get() + 1);
        *status = 0;
    };
    let r = hal_call(&ctx, |mut status| {
        reset_counter(CounterHandle(1).get_handle(), &mut status);
        ((), status)
    });
    assert_eq!(r, Err(HalError::HalNotInitialized));
    assert_eq!(calls.get(), 0);
}
