use vstd::prelude::*;

verus! {

/// Status code of the service: the call succeeded.
pub const MOBILE_IMAGE_MOUNTER_E_SUCCESS: i32 = 0;

/// Status code of the service: an argument was invalid.
pub const MOBILE_IMAGE_MOUNTER_E_INVALID_ARG: i32 = -1;

/// Status code of the service: a property list could not be handled.
pub const MOBILE_IMAGE_MOUNTER_E_PLIST_ERROR: i32 = -2;

/// Status code of the service: the connection failed.
pub const MOBILE_IMAGE_MOUNTER_E_CONN_FAILED: i32 = -3;

/// Status code of the service: the device refused the command.
pub const MOBILE_IMAGE_MOUNTER_E_COMMAND_FAILED: i32 = -4;

/// Status code of the service: the device is locked.
pub const MOBILE_IMAGE_MOUNTER_E_DEVICE_LOCKED: i32 = -5;

/// Status code of the service: the device does not support the command.
pub const MOBILE_IMAGE_MOUNTER_E_NOT_SUPPORTED: i32 = -6;

/// Status code of the service: an error it does not name.
pub const MOBILE_IMAGE_MOUNTER_E_UNKNOWN_ERROR: i32 = -256;

/// What the mobile image mounter service answered, or why the client did not
/// send its request.
///
/// `DmgNotFound` and `SignatureNotFound` are raised by the client itself when
/// the disk image or its signature cannot be read; every other variant names a
/// status code of the service.
#[derive(Debug, Clone, Copy, PartialEq, Eq, Structural)]
pub enum MobileImageMounterError {
    Success,
    InvalidArg,
    PlistError,
    ConnFailed,
    CommandFailed,
    DeviceLocked,
    NotSupported,
    UnknownError,
    DmgNotFound,
    SignatureNotFound,
}

/// The error that a status code of the service names. Codes that the service
/// does not define read as `UnknownError`.
pub open spec fn error_from_code(code: int) -> MobileImageMounterError {
    if code == MOBILE_IMAGE_MOUNTER_E_SUCCESS {
        MobileImageMounterError::Success
    } else if code == MOBILE_IMAGE_MOUNTER_E_INVALID_ARG {
        MobileImageMounterError::InvalidArg
    } else if code == MOBILE_IMAGE_MOUNTER_E_PLIST_ERROR {
        MobileImageMounterError::PlistError
    } else if code == MOBILE_IMAGE_MOUNTER_E_CONN_FAILED {
        MobileImageMounterError::ConnFailed
    } else if code == MOBILE_IMAGE_MOUNTER_E_COMMAND_FAILED {
        MobileImageMounterError::CommandFailed
    } else if code == MOBILE_IMAGE_MOUNTER_E_DEVICE_LOCKED {
        MobileImageMounterError::DeviceLocked
    } else if code == MOBILE_IMAGE_MOUNTER_E_NOT_SUPPORTED {
        MobileImageMounterError::NotSupported
    } else {
        MobileImageMounterError::UnknownError
    }
}

/// What a call whose only answer is a status code returns: `Ok` on success,
/// else the error that the code names.
pub open spec fn status_result(code: int) -> Result<(), MobileImageMounterError> {
    if code == MOBILE_IMAGE_MOUNTER_E_SUCCESS {
        Ok(())
    } else {
        Err(error_from_code(code))
    }
}

impl MobileImageMounterError {
    /// The error that a status code of the service names.
    pub fn from_code(code: i32) -> (e: MobileImageMounterError)
        ensures
            e == error_from_code(code as int),
    {
        if code == MOBILE_IMAGE_MOUNTER_E_SUCCESS {
            MobileImageMounterError::Success
        } else if code == MOBILE_IMAGE_MOUNTER_E_INVALID_ARG {
            MobileImageMounterError::InvalidArg
        } else if code == MOBILE_IMAGE_MOUNTER_E_PLIST_ERROR {
            MobileImageMounterError::PlistError
        } else if code == MOBILE_IMAGE_MOUNTER_E_CONN_FAILED {
            MobileImageMounterError::ConnFailed
        } else if code == MOBILE_IMAGE_MOUNTER_E_COMMAND_FAILED {
            MobileImageMounterError::CommandFailed
        } else if code == MOBILE_IMAGE_MOUNTER_E_DEVICE_LOCKED {
            MobileImageMounterError::DeviceLocked
        } else if code == MOBILE_IMAGE_MOUNTER_E_NOT_SUPPORTED {
            MobileImageMounterError::NotSupported
        } else {
            MobileImageMounterError::UnknownError
        }
    }
}

impl From<i32> for MobileImageMounterError {
    fn from(code: i32) -> (e: MobileImageMounterError) {
        MobileImageMounterError::from_code(code)
    }
}

impl vstd::std_specs::convert::FromSpecImpl<i32> for MobileImageMounterError {
    open spec fn obeys_from_spec() -> bool {
        true
    }

    open spec fn from_spec(code: i32) -> MobileImageMounterError {
        error_from_code(code as int)
    }
}

/// Turns the status code of a call that answers nothing else into the call's
/// result: `Ok(())` when the service reports success, else the error that the
/// code names.
pub fn check_status(code: i32) -> (r: Result<(), MobileImageMounterError>)
    ensures
        r == status_result(code as int),
{
    let result = MobileImageMounterError::from_code(code);
    if result != MobileImageMounterError::Success {
        return Err(result);
    }
    Ok(())
}

/// Turns the status code of a call and what the call handed back into the
/// call's result: the value when the service reports success, else the error
/// that the code names (the value is dropped).
pub fn check_status_with<T>(code: i32, value: T) -> (r: Result<T, MobileImageMounterError>)
    ensures
        code == MOBILE_IMAGE_MOUNTER_E_SUCCESS ==> r == Ok::<T, MobileImageMounterError>(value),
        code != MOBILE_IMAGE_MOUNTER_E_SUCCESS ==> r == Err::<T, MobileImageMounterError>(
            error_from_code(code as int),
        ),
{
    let result = MobileImageMounterError::from_code(code);
    if result != MobileImageMounterError::Success {
        return Err(result);
    }
    Ok(value)
}

/// Only the service's success code reads as success.
pub proof fn lemma_success_only_from_zero(code: int)
    ensures
        (error_from_code(code) == MobileImageMounterError::Success) <==> (code
            == MOBILE_IMAGE_MOUNTER_E_SUCCESS),
{
}

/// A refused call is answered with the error that the service's code names,
/// and that error is never `Success`; a call is refused exactly when the code
/// is not the success code.
pub proof fn lemma_refusal_carries_its_error(code: int)
    ensures
        status_result(code) is Ok <==> code == MOBILE_IMAGE_MOUNTER_E_SUCCESS,
        status_result(code) matches Err(e) ==> e == error_from_code(code) && e
            != MobileImageMounterError::Success,
{
}

/// Distinct status codes that the service defines name distinct errors; every
/// other code names `UnknownError`.
pub proof fn lemma_codes_name_distinct_errors(a: int, b: int)
    ensures
        error_from_code(a) == error_from_code(b) && error_from_code(a)
            != MobileImageMounterError::UnknownError ==> a == b,
        error_from_code(a) == MobileImageMounterError::UnknownError ==> a
            == MOBILE_IMAGE_MOUNTER_E_UNKNOWN_ERROR || a < MOBILE_IMAGE_MOUNTER_E_NOT_SUPPORTED || a
            > MOBILE_IMAGE_MOUNTER_E_SUCCESS,
        error_from_code(a) != MobileImageMounterError::DmgNotFound,
        error_from_code(a) != MobileImageMounterError::SignatureNotFound,
{
}

/// Each status code that the service defines names its own error: 0 is
/// success, -1 to -6 name the failures in the service's order, -256 and every
/// code the service does not define name `UnknownError`.
pub proof fn lemma_code_table(code: int)
    ensures
        error_from_code(0) == MobileImageMounterError::Success,
        error_from_code(-1) == MobileImageMounterError::InvalidArg,
        error_from_code(-2) == MobileImageMounterError::PlistError,
        error_from_code(-3) == MobileImageMounterError::ConnFailed,
        error_from_code(-4) == MobileImageMounterError::CommandFailed,
        error_from_code(-5) == MobileImageMounterError::DeviceLocked,
        error_from_code(-6) == MobileImageMounterError::NotSupported,
        error_from_code(-256) == MobileImageMounterError::UnknownError,
        code > 0 || code < -6 ==> error_from_code(code) == MobileImageMounterError::UnknownError,
{
}

} // verus!
