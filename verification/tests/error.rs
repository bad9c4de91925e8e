use gamesense::error::{AdbError, AppError};


#[test]
fn app_error_new() {
    let err = AppError::new("TEST", "test message");
    assert_eq!(err.code, "TEST");
    assert_eq!(err.message, "test message");
    assert!(err.details.is_none());
}

#[test]
fn app_error_with_details() {
    let err = AppError::with_details("TEST", "msg", "detail");
    assert_eq!(err.details.as_deref(), Some("detail"));
}

#[test]
fn app_error_display() {
    let err = AppError::new("CODE", "message");
    assert_eq!(err.to_string(), "[CODE] message");
}

#[test]
fn adb_error_not_found_converts() {
    let err: AppError = AdbError::NotFound.into();
    assert_eq!(err.code, "ADB_NOT_FOUND");
}

#[test]
fn adb_error_execution_failed_converts() {
    let err: AppError = AdbError::ExecutionFailed("test".into()).into();
    assert_eq!(err.code, "ADB_EXECUTION_FAILED");
    assert_eq!(err.details.as_deref(), Some("test"));
}

#[test]
fn adb_error_device_not_found_converts() {
    let err: AppError = AdbError::DeviceNotFound("ABC123".into()).into();
    assert_eq!(err.code, "DEVICE_NOT_FOUND");
    assert_eq!(err.details.as_deref(), Some("ABC123"));
}

#[test]
fn adb_error_unauthorized_converts() {
    let err: AppError = AdbError::Unauthorized("ABC123".into()).into();
    assert_eq!(err.code, "DEVICE_UNAUTHORIZED");
}

#[test]
fn adb_error_timeout_converts() {
    let err: AppError = AdbError::Timeout.into();
    assert_eq!(err.code, "ADB_TIMEOUT");
}

#[test]
fn adb_error_parse_error_converts() {
    let err: AppError = AdbError::ParseError("bad output".into()).into();
    assert_eq!(err.code, "ADB_PARSE_ERROR");
    assert_eq!(err.details.as_deref(), Some("bad output"));
}
