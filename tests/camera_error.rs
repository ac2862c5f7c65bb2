use acv::camera_error::{check_status, CameraError};

#[test]
fn codes_map_to_errors() {
    assert_eq!(CameraError::from(-10000), CameraError::Unknown);
    assert_eq!(CameraError::from(-10001), CameraError::InvalidParameter);
    assert_eq!(CameraError::from(-10007), CameraError::SessionClosed);
    assert_eq!(CameraError::from(-10013), CameraError::PermissionDenied);
    assert_eq!(CameraError::from(-10014), CameraError::UnsupportedOperation);
}

#[test]
fn codes_outside_the_range_are_unknown() {
    assert_eq!(CameraError::from(0), CameraError::Unknown);
    assert_eq!(CameraError::from(-9999), CameraError::Unknown);
    assert_eq!(CameraError::from(-10015), CameraError::Unknown);
    assert_eq!(CameraError::from(i32::MIN), CameraError::Unknown);
}

#[test]
fn code_round_trips() {
    for code in -10014..=-10000 {
        assert_eq!(CameraError::from_code(code).code(), code);
    }
}

#[test]
fn names_are_variant_names() {
    assert_eq!(CameraError::CameraInUse.name(), "CameraInUse");
    assert_eq!(CameraError::MaxCameraInUse.name(), "MaxCameraInUse");
    assert_eq!(format!("{:?}", CameraError::CameraDisabled), "CameraDisabled");
}

#[test]
fn status_zero_is_success() {
    assert_eq!(check_status(0), Ok(()));
    assert_eq!(check_status(-10002), Err(CameraError::CameraDisconnected));
    assert_eq!(check_status(7), Err(CameraError::Unknown));
}
