use vstd::prelude::*;
use crate::error::{ffi_error_of, FfiError, HalError, HalResult};

verus! {

/// What a completed native call amounts to: its value when the status is
/// zero, else the error that the status translates to.
pub open spec fn status_result<T>(status: i32, value: T) -> HalResult<T> {
    if status == 0 {
        Ok(value)
    } else {
        Err(HalError::Hal(ffi_error_of(status)))
    }
}

/// The bring-up state of the native library, handed to every call.
pub struct HalContext {
    initialized: bool,
}

impl HalContext {
    /// A context for a native library whose bring-up did or did not succeed.
    pub fn new(initialized: bool) -> (r: HalContext)
        ensures
            r.is_initialized_spec() == initialized,
    {
        HalContext { initialized }
    }

    pub closed spec fn is_initialized_spec(&self) -> bool {
        self.initialized
    }

    /// Whether native calls may be made.
    pub fn is_initialized(&self) -> (r: bool)
        ensures
            r == self.is_initialized_spec(),
    {
        self.initialized
    }
}

/// Turns the status that a native call left behind into a result.
pub fn check_status<T>(status: i32, value: T) -> (r: HalResult<T>)
    ensures
        r == status_result(status, value),
{
    if status == 0 {
        Ok(value)
    } else {
        Err(HalError::Hal(FfiError::from_code(status)))
    }
}

/// Makes a native call that reports its status through a status slot.
///
/// `native` receives the slot, set to zero, and gives back the call's value
/// together with what the slot holds after the call. Without bring-up the
/// call is not made.
pub fn hal_call<T, F: FnOnce(i32) -> (T, i32)>(ctx: &HalContext, native: F) -> (r: HalResult<T>)
    requires
        ctx.is_initialized_spec() ==> native.requires((0i32,)),
    ensures
        !ctx.is_initialized_spec() ==> r == Err::<T, HalError>(HalError::HalNotInitialized),
        ctx.is_initialized_spec() ==> exists|out: (T, i32)|
            native.ensures((0i32,), out) && r == status_result(out.1, out.0),
{
    if ctx.is_initialized() {
        let (value, status) = native(0);
        check_status(status, value)
    } else {
        Err(HalError::HalNotInitialized)
    }
}

/// Makes a native call that returns its status directly and yields no value.
/// Without bring-up the call is not made.
pub fn hal_call_ret<F: FnOnce() -> i32>(ctx: &HalContext, native: F) -> (r: HalResult<()>)
    requires
        ctx.is_initialized_spec() ==> native.requires(()),
    ensures
        !ctx.is_initialized_spec() ==> r == Err::<(), HalError>(HalError::HalNotInitialized),
        ctx.is_initialized_spec() ==> exists|status: i32|
            native.ensures((), status) && r == status_result(status, ()),
{
    if ctx.is_initialized() {
        let status = native();
        check_status(status, ())
    } else {
        Err(HalError::HalNotInitialized)
    }
}

/// Makes a native call, like `hal_call`, whose value is a native boolean.
pub fn hal_call_bool<F: FnOnce(i32) -> (i32, i32)>(ctx: &HalContext, native: F) -> (r: HalResult<bool>)
    requires
        ctx.is_initialized_spec() ==> native.requires((0i32,)),
    ensures
        !ctx.is_initialized_spec() ==> r == Err::<bool, HalError>(HalError::HalNotInitialized),
        ctx.is_initialized_spec() ==> exists|out: (i32, i32)|
            native.ensures((0i32,), out) && r == status_result(out.1, out.0 != 0),
{
    match hal_call(ctx, native) {
        Ok(n) => Ok(from_native_bool(n)),
        Err(e) => Err(e),
    }
}

/// The native encoding of a boolean.
pub fn to_native_bool(b: bool) -> (r: i32)
    ensures
        r == (if b { 1i32 } else { 0i32 }),
{
    if b {
        1
    } else {
        0
    }
}

/// Reads a native boolean: any nonzero value is true.
pub fn from_native_bool(n: i32) -> (r: bool)
    ensures
        r == (n != 0),
{
    n != 0
}

/// A completed native call succeeds with its value unchanged exactly when the
/// status is zero, so a zero status never reaches the status table; any other
/// status fails with the kind that the table gives for that exact code.
pub proof fn lemma_status_result<T>(status: i32, value: T)
    ensures
        status == 0 ==> status_result(status, value) == Ok::<T, HalError>(value),
        status != 0 ==> status_result(status, value) == Err::<T, HalError>(
            HalError::Hal(ffi_error_of(status)),
        ),
{
}

} // verus!
