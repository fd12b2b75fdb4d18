use iracing_broadcast::BroadcastError;

fn windows_failure() -> windows_core::Error {
    windows_core::Error::from_hresult(windows_core::HRESULT(-2147024891))
}

#[test]
fn connection_errors_can_be_retried() {
    let error = BroadcastError::connection_failed("iRacing not detected");
    assert!(error.is_retryable());
}

#[test]
fn unsupported_platform_cannot_be_retried() {
    let error = BroadcastError::unsupported_platform("Message registration", "Windows");
    assert!(!error.is_retryable());
}

#[test]
fn windows_errors_can_be_retried() {
    let error = BroadcastError::windows_api_error("SendNotifyMessageW", windows_failure());
    assert!(error.is_retryable());
}

#[test]
fn constructors_keep_their_arguments() {
    match BroadcastError::connection_failed("iRacing not detected") {
        BroadcastError::Connection { reason } => assert_eq!(reason, "iRacing not detected"),
        _ => panic!("expected a connection error"),
    }
    match BroadcastError::unsupported_platform("Message registration", "Windows") {
        BroadcastError::UnsupportedPlatform { feature, required_platform } => {
            assert_eq!(feature, "Message registration");
            assert_eq!(required_platform, "Windows");
        }
        _ => panic!("expected an unsupported platform error"),
    }
    match BroadcastError::windows_api_error("RegisterWindowMessageW", windows_failure()) {
        BroadcastError::WindowsApi { operation, source } => {
            assert_eq!(operation, "RegisterWindowMessageW");
            assert_eq!(source.code(), windows_core::HRESULT(-2147024891));
        }
        _ => panic!("expected a Windows API error"),
    }
}

#[test]
fn windows_error_converts_with_unknown_operation() {
    match BroadcastError::from(windows_failure()) {
        BroadcastError::WindowsApi { operation, source } => {
            assert_eq!(operation, "Unknown Windows operation");
            assert_eq!(source.code(), windows_core::HRESULT(-2147024891));
        }
        _ => panic!("expected a Windows API error"),
    }
}

#[test]
fn messages_describe_the_error() {
    assert_eq!(
        BroadcastError::connection_failed("iRacing not detected").message(),
        "Failed to connect to iRacing: iRacing not detected"
    );
    assert_eq!(
        BroadcastError::unsupported_platform("Message registration", "Windows").message(),
        "Message registration is only available on Windows"
    );
    assert_eq!(
        BroadcastError::windows_api_error("SendNotifyMessageW", windows_failure()).message(),
        "Windows API error: SendNotifyMessageW"
    );
    assert_eq!(
        BroadcastError::connection_failed("").message(),
        "Failed to connect to iRacing: "
    );
}

#[test]
fn suggestions_for_each_error() {
    assert_eq!(
        BroadcastError::connection_failed("x").recovery_suggestions(),
        vec![
            "Ensure iRacing is running",
            "Check Windows permissions for shared memory access",
            "Verify iRacing SDK version compatibility",
            "Try restarting iRacing",
        ]
    );
    assert_eq!(
        BroadcastError::unsupported_platform("x", "y").recovery_suggestions(),
        vec![
            "Use platform-appropriate features",
            "Check documentation for platform requirements",
        ]
    );
    assert_eq!(
        BroadcastError::windows_api_error("x", windows_failure()).recovery_suggestions(),
        vec![
            "Check Windows API permissions",
            "Verify system resources availability",
            "Check Windows version compatibility",
        ]
    );
}
