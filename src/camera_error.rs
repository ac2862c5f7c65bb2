//! Errors reported by the camera service, and their status codes.

use vstd::prelude::*;

verus! {

/// Status code of the first camera error; the others follow it downwards.
pub const ERROR_BASE: i32 = -10000;

/// Status code of the last camera error.
pub const ERROR_LAST: i32 = -10014;

/// An error status of the camera service.
#[derive(Copy, Clone, Debug, PartialEq, Eq, Structural, Hash)]
pub enum CameraError {
    /// Camera operation has failed due to an unspecified cause.
    Unknown,
    /// Camera operation has failed due to an invalid parameter being passed to the method.
    InvalidParameter,
    /// Camera operation has failed because the camera device has been closed, possibly because a
    /// higher-priority client has taken ownership of the camera device.
    CameraDisconnected,
    /// Camera operation has failed due to insufficient memory.
    NotEnoughMemory,
    /// The requested metadata tag cannot be found in the camera metadata or capture request.
    MetadataNotFound,
    /// The camera device has encountered a fatal error and needs to be re-opened before it can be
    /// used again.
    CameraDevice,
    /// The camera service has encountered a fatal error.
    CameraService,
    /// The capture session has been closed and cannot perform any operation other than closing.
    SessionClosed,
    /// Camera operation has failed due to an invalid internal operation; retrying may help.
    InvalidOperation,
    /// The camera device does not support the requested stream configuration.
    StreamConfigureFail,
    /// The camera device is being used by another higher priority camera API client.
    CameraInUse,
    /// The system-wide limit for open cameras or camera resources has been reached.
    MaxCameraInUse,
    /// The camera is disabled due to a device policy, and cannot be opened.
    CameraDisabled,
    /// The application does not have permission to open the camera.
    PermissionDenied,
    /// The operation is not supported by the camera device.
    UnsupportedOperation,
}

impl CameraError {
    /// The status code of this error.
    pub open spec fn spec_code(self) -> i32 {
        match self {
            CameraError::Unknown => -10000i32,
            CameraError::InvalidParameter => -10001i32,
            CameraError::CameraDisconnected => -10002i32,
            CameraError::NotEnoughMemory => -10003i32,
            CameraError::MetadataNotFound => -10004i32,
            CameraError::CameraDevice => -10005i32,
            CameraError::CameraService => -10006i32,
            CameraError::SessionClosed => -10007i32,
            CameraError::InvalidOperation => -10008i32,
            CameraError::StreamConfigureFail => -10009i32,
            CameraError::CameraInUse => -10010i32,
            CameraError::MaxCameraInUse => -10011i32,
            CameraError::CameraDisabled => -10012i32,
            CameraError::PermissionDenied => -10013i32,
            CameraError::UnsupportedOperation => -10014i32,
        }
    }

    /// The name of this error, as it is displayed.
    pub open spec fn spec_name(self) -> &'static str {
        match self {
            CameraError::Unknown => "Unknown",
            CameraError::InvalidParameter => "InvalidParameter",
            CameraError::CameraDisconnected => "CameraDisconnected",
            CameraError::NotEnoughMemory => "NotEnoughMemory",
            CameraError::MetadataNotFound => "MetadataNotFound",
            CameraError::CameraDevice => "CameraDevice",
            CameraError::CameraService => "CameraService",
            CameraError::SessionClosed => "SessionClosed",
            CameraError::InvalidOperation => "InvalidOperation",
            CameraError::StreamConfigureFail => "StreamConfigureFail",
            CameraError::CameraInUse => "CameraInUse",
            CameraError::MaxCameraInUse => "MaxCameraInUse",
            CameraError::CameraDisabled => "CameraDisabled",
            CameraError::PermissionDenied => "PermissionDenied",
            CameraError::UnsupportedOperation => "UnsupportedOperation",
        }
    }

    /// The status code of this error.
    pub fn code(&self) -> (r: i32)
        ensures
            r == self.spec_code(),
            ERROR_LAST <= r <= ERROR_BASE,
    {
        match self {
            CameraError::Unknown => -10000,
            CameraError::InvalidParameter => -10001,
            CameraError::CameraDisconnected => -10002,
            CameraError::NotEnoughMemory => -10003,
            CameraError::MetadataNotFound => -10004,
            CameraError::CameraDevice => -10005,
            CameraError::CameraService => -10006,
            CameraError::SessionClosed => -10007,
            CameraError::InvalidOperation => -10008,
            CameraError::StreamConfigureFail => -10009,
            CameraError::CameraInUse => -10010,
            CameraError::MaxCameraInUse => -10011,
            CameraError::CameraDisabled => -10012,
            CameraError::PermissionDenied => -10013,
            CameraError::UnsupportedOperation => -10014,
        }
    }

    /// The name of this error, as it is displayed.
    pub fn name(&self) -> (r: &'static str)
        ensures
            r == self.spec_name(),
    {
        match self {
            CameraError::Unknown => "Unknown",
            CameraError::InvalidParameter => "InvalidParameter",
            CameraError::CameraDisconnected => "CameraDisconnected",
            CameraError::NotEnoughMemory => "NotEnoughMemory",
            CameraError::MetadataNotFound => "MetadataNotFound",
            CameraError::CameraDevice => "CameraDevice",
            CameraError::CameraService => "CameraService",
            CameraError::SessionClosed => "SessionClosed",
            CameraError::InvalidOperation => "InvalidOperation",
            CameraError::StreamConfigureFail => "StreamConfigureFail",
            CameraError::CameraInUse => "CameraInUse",
            CameraError::MaxCameraInUse => "MaxCameraInUse",
            CameraError::CameraDisabled => "CameraDisabled",
            CameraError::PermissionDenied => "PermissionDenied",
            CameraError::UnsupportedOperation => "UnsupportedOperation",
        }
    }

    /// The error with status code `code`; a code outside the camera range reads as `Unknown`.
    pub fn from_code(code: i32) -> (r: CameraError)
        ensures
            ERROR_LAST <= code <= ERROR_BASE ==> r.spec_code() == code,
            !(ERROR_LAST <= code <= ERROR_BASE) ==> r == CameraError::Unknown,
    {
        match code {
            -10000 => CameraError::Unknown,
            -10001 => CameraError::InvalidParameter,
            -10002 => CameraError::CameraDisconnected,
            -10003 => CameraError::NotEnoughMemory,
            -10004 => CameraError::MetadataNotFound,
            -10005 => CameraError::CameraDevice,
            -10006 => CameraError::CameraService,
            -10007 => CameraError::SessionClosed,
            -10008 => CameraError::InvalidOperation,
            -10009 => CameraError::StreamConfigureFail,
            -10010 => CameraError::CameraInUse,
            -10011 => CameraError::MaxCameraInUse,
            -10012 => CameraError::CameraDisabled,
            -10013 => CameraError::PermissionDenied,
            -10014 => CameraError::UnsupportedOperation,
            _ => CameraError::Unknown,
        }
    }
}

impl From<i32> for CameraError {
    fn from(code: i32) -> (r: CameraError) {
        CameraError::from_code(code)
    }
}

impl vstd::std_specs::convert::FromSpecImpl<i32> for CameraError {
    open spec fn obeys_from_spec() -> bool {
        true
    }

    open spec fn from_spec(code: i32) -> CameraError {
        if ERROR_LAST <= code <= ERROR_BASE {
            choose|e: CameraError| e.spec_code() == code
        } else {
            CameraError::Unknown
        }
    }
}

/// The outcome of a camera call from its status: success for 0, the matching error otherwise.
pub fn check_status(status: i32) -> (r: Result<(), CameraError>)
    ensures
        r is Ok <==> status == 0,
        r matches Err(e) ==> (ERROR_LAST <= status <= ERROR_BASE ==> e.spec_code() == status),
        r matches Err(e) ==> (!(ERROR_LAST <= status <= ERROR_BASE) ==> e == CameraError::Unknown),
{
    if status == 0 {
        Ok(())
    } else {
        Err(CameraError::from_code(status))
    }
}

} // verus!
