//! Error types for DCMI functions, and the translation of status codes.
use vstd::prelude::*;

verus! {

/// Status code of a successful call.
pub const DCMI_OK: i32 = 0;
/// Invalid parameter.
pub const DCMI_ERR_CODE_INVALID_PARAMETER: i32 = -8001;
/// Operation not permitted.
pub const DCMI_ERR_CODE_OPER_NOT_PERMITTED: i32 = -8002;
/// Memory operation failed.
pub const DCMI_ERR_CODE_MEM_OPERATE_FAIL: i32 = -8003;
/// Secure function failed.
pub const DCMI_ERR_CODE_SECURE_FUN_FAIL: i32 = -8004;
/// Internal error.
pub const DCMI_ERR_CODE_INNER_ERR: i32 = -8005;
/// Time out.
pub const DCMI_ERR_CODE_TIME_OUT: i32 = -8006;
/// Invalid device id.
pub const DCMI_ERR_CODE_INVALID_DEVICE_ID: i32 = -8007;
/// Device does not exist.
pub const DCMI_ERR_CODE_DEVICE_NOT_EXIST: i32 = -8008;
/// Ioctl failed.
pub const DCMI_ERR_CODE_IOCTL_FAIL: i32 = -8009;
/// Sending a message failed.
pub const DCMI_ERR_CODE_SEND_MSG_FAIL: i32 = -8010;
/// Receiving a message failed.
pub const DCMI_ERR_CODE_RECV_MSG_FAIL: i32 = -8011;
/// Not ready.
pub const DCMI_ERR_CODE_NOT_REDAY: i32 = -8012;
/// Not supported in a container.
pub const DCMI_ERR_CODE_NOT_SUPPORT_IN_CONTAINER: i32 = -8013;
/// Reset failed.
pub const DCMI_ERR_CODE_RESET_FAIL: i32 = -8015;
/// Reset operation aborted.
pub const DCMI_ERR_CODE_ABORT_OPERATE: i32 = -8016;
/// An upgrade is in progress.
pub const DCMI_ERR_CODE_IS_UPGRADING: i32 = -8017;
/// Device resource occupied.
pub const DCMI_ERR_CODE_RESOURCE_OCCUPIED: i32 = -8020;
/// Device id or function not supported.
pub const DCMI_ERR_CODE_NOT_SUPPORT: i32 = -8255;

/// Error of a DCMI function which reads a telemetry value.
#[derive(Debug, Clone, Copy, PartialEq, Eq, Structural)]
pub enum GetDataError {
    /// The device reported the value as invalid.
    InvalidData,
    /// The device failed to read the value.
    ReadError,
}

/// Error type for DCMI functions.
#[derive(Debug, Clone, Copy, PartialEq, Eq, Structural)]
pub enum DCMIError {
    /// Text in a record is not a NUL-terminated UTF-8 string.
    Utf8Error,
    /// A telemetry value or a record read from the device is not usable.
    GetDataError(GetDataError),
    /// Invalid parameter
    InvalidParameter,
    /// Memory operation failed
    MemoryOperateFail,
    /// Operation not permitted
    OperationNotPermitted,
    /// Secure function fail
    SecureFunctionFail,
    /// DCMI inner error
    InnerError,
    /// Time out
    CodeTimeOut,
    /// Invalid device ID
    InvalidDeviceId,
    /// Device does not exist
    DeviceNotExist,
    /// Ioctl returned a failure
    IoctlFail,
    /// Send message fail
    SendMessageFail,
    /// Receive message fail
    ReceiveMessageFail,
    /// Not ready
    NotReady,
    /// Not supported in a container
    NotSupportInContainer,
    /// Reset fail
    ResetFail,
    /// Reset operation aborted
    AbortOperation,
    /// An upgrade is in progress
    IsUpgrading,
    /// Device resource occupied
    ResourceOccupied,
    /// Device id / function not supported
    NotSupport,
    /// A status code outside the documented table, kept as it was returned.
    UnknownError(i32),
}

/// Result type for DCMI functions.
pub type DCMIResult<T> = Result<T, DCMIError>;

/// The error kind that a non-zero status code stands for.
pub open spec fn status_error(code: i32) -> DCMIError {
    if code == DCMI_ERR_CODE_INVALID_PARAMETER {
        DCMIError::InvalidParameter
    } else if code == DCMI_ERR_CODE_OPER_NOT_PERMITTED {
        DCMIError::OperationNotPermitted
    } else if code == DCMI_ERR_CODE_MEM_OPERATE_FAIL {
        DCMIError::MemoryOperateFail
    } else if code == DCMI_ERR_CODE_SECURE_FUN_FAIL {
        DCMIError::SecureFunctionFail
    } else if code == DCMI_ERR_CODE_INNER_ERR {
        DCMIError::InnerError
    } else if code == DCMI_ERR_CODE_TIME_OUT {
        DCMIError::CodeTimeOut
    } else if code == DCMI_ERR_CODE_INVALID_DEVICE_ID {
        DCMIError::InvalidDeviceId
    } else if code == DCMI_ERR_CODE_DEVICE_NOT_EXIST {
        DCMIError::DeviceNotExist
    } else if code == DCMI_ERR_CODE_IOCTL_FAIL {
        DCMIError::IoctlFail
    } else if code == DCMI_ERR_CODE_SEND_MSG_FAIL {
        DCMIError::SendMessageFail
    } else if code == DCMI_ERR_CODE_RECV_MSG_FAIL {
        DCMIError::ReceiveMessageFail
    } else if code == DCMI_ERR_CODE_NOT_REDAY {
        DCMIError::NotReady
    } else if code == DCMI_ERR_CODE_NOT_SUPPORT_IN_CONTAINER {
        DCMIError::NotSupportInContainer
    } else if code == DCMI_ERR_CODE_RESET_FAIL {
        DCMIError::ResetFail
    } else if code == DCMI_ERR_CODE_ABORT_OPERATE {
        DCMIError::AbortOperation
    } else if code == DCMI_ERR_CODE_IS_UPGRADING {
        DCMIError::IsUpgrading
    } else if code == DCMI_ERR_CODE_RESOURCE_OCCUPIED {
        DCMIError::ResourceOccupied
    } else if code == DCMI_ERR_CODE_NOT_SUPPORT {
        DCMIError::NotSupport
    } else {
        DCMIError::UnknownError(code)
    }
}

/// What a call that returned `code` amounts to: success for `0`, else its error kind.
pub open spec fn status_result(code: i32) -> DCMIResult<()> {
    if code == DCMI_OK {
        Ok(())
    } else {
        Err(status_error(code))
    }
}

/// A value read by a call that returned `code`: the value itself only where the
/// call succeeded.
pub open spec fn after_status<T>(code: i32, value: DCMIResult<T>) -> DCMIResult<T> {
    if code == DCMI_OK {
        value
    } else {
        Err(status_error(code))
    }
}

/// Converts a DCMI status code into a `Result<(), DCMIError>`.
pub fn dcmi_try(code: i32) -> (r: Result<(), DCMIError>)
    ensures
        r == status_result(code),
{
    if code == DCMI_OK {
        Ok(())
    } else if code == DCMI_ERR_CODE_INVALID_PARAMETER {
        Err(DCMIError::InvalidParameter)
    } else if code == DCMI_ERR_CODE_OPER_NOT_PERMITTED {
        Err(DCMIError::OperationNotPermitted)
    } else if code == DCMI_ERR_CODE_MEM_OPERATE_FAIL {
        Err(DCMIError::MemoryOperateFail)
    } else if code == DCMI_ERR_CODE_SECURE_FUN_FAIL {
        Err(DCMIError::SecureFunctionFail)
    } else if code == DCMI_ERR_CODE_INNER_ERR {
        Err(DCMIError::InnerError)
    } else if code == DCMI_ERR_CODE_TIME_OUT {
        Err(DCMIError::CodeTimeOut)
    } else if code == DCMI_ERR_CODE_INVALID_DEVICE_ID {
        Err(DCMIError::InvalidDeviceId)
    } else if code == DCMI_ERR_CODE_DEVICE_NOT_EXIST {
        Err(DCMIError::DeviceNotExist)
    } else if code == DCMI_ERR_CODE_IOCTL_FAIL {
        Err(DCMIError::IoctlFail)
    } else if code == DCMI_ERR_CODE_SEND_MSG_FAIL {
        Err(DCMIError::SendMessageFail)
    } else if code == DCMI_ERR_CODE_RECV_MSG_FAIL {
        Err(DCMIError::ReceiveMessageFail)
    } else if code == DCMI_ERR_CODE_NOT_REDAY {
        Err(DCMIError::NotReady)
    } else if code == DCMI_ERR_CODE_NOT_SUPPORT_IN_CONTAINER {
        Err(DCMIError::NotSupportInContainer)
    } else if code == DCMI_ERR_CODE_RESET_FAIL {
        Err(DCMIError::ResetFail)
    } else if code == DCMI_ERR_CODE_ABORT_OPERATE {
        Err(DCMIError::AbortOperation)
    } else if code == DCMI_ERR_CODE_IS_UPGRADING {
        Err(DCMIError::IsUpgrading)
    } else if code == DCMI_ERR_CODE_RESOURCE_OCCUPIED {
        Err(DCMIError::ResourceOccupied)
    } else if code == DCMI_ERR_CODE_NOT_SUPPORT {
        Err(DCMIError::NotSupport)
    } else {
        Err(DCMIError::UnknownError(code))
    }
}

/// Two different failing status codes never translate to the same error: the
/// translation keeps every failure apart, and success is `0` alone.
pub proof fn lemma_status_error_injective(a: i32, b: i32)
    requires
        a != DCMI_OK,
        b != DCMI_OK,
        a != b,
    ensures
        status_error(a) != status_error(b),
        status_result(a) is Err,
{
}

/// The outcome `r` of a call that returned `code`: the error of the code where
/// the call failed, and `decoded` (what its outputs give) where it succeeded.
pub open spec fn status_then<T>(code: i32, r: DCMIResult<T>, decoded: bool) -> bool {
    if code == DCMI_OK {
        decoded
    } else {
        r == Err::<T, DCMIError>(status_error(code))
    }
}

/// A telemetry reading with its data-quality error lifted into `DCMIError`.
pub open spec fn data_result<T>(r: Result<T, GetDataError>) -> DCMIResult<T> {
    match r {
        Ok(v) => Ok(v),
        Err(e) => Err(DCMIError::GetDataError(e)),
    }
}

/// Lifts a data-quality error into `DCMIError`.
pub fn lift_data_error<T>(r: Result<T, GetDataError>) -> (out: DCMIResult<T>)
    ensures
        out == data_result(r),
{
    match r {
        Ok(v) => Ok(v),
        Err(e) => Err(DCMIError::GetDataError(e)),
    }
}

/// The id that the interface receives for a card or chip id: the same 32
/// bits, read as a signed integer.
pub open spec fn wire_id(id: u32) -> i32 {
    #[verifier::truncate]
    (id as i32)
}

/// Converts a card or chip id to the signed id that the interface takes.
pub fn to_wire_id(id: u32) -> (r: i32)
    ensures
        r == wire_id(id),
{
    #[verifier::truncate]
    (id as i32)
}

} // verus!
