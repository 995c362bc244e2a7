use mt5_rs::{IoFailure, Mt5Error};

#[test]
fn error_codes() {
    let io = Mt5Error::IoError(IoFailure { raw_os_error: Some(109), description: "The pipe has been ended. (os error 109)".to_string() });
    assert_eq!(io.error_code(), 109);
    let io_no_code = Mt5Error::IoError(IoFailure { raw_os_error: None, description: "other".to_string() });
    assert_eq!(io_no_code.error_code(), -1);
    let refused = Mt5Error::CommandFailed { cmd: 161, error_code: 10030, error: "x".to_string() };
    assert_eq!(refused.error_code(), 10030);
    assert_eq!(Mt5Error::Timeout("t".to_string()).error_code(), -10086);
    assert_eq!(Mt5Error::NotInitialized.error_code(), -1);
    assert_eq!(Mt5Error::ConnectionFailed("c".to_string()).error_code(), -1);
    assert_eq!(Mt5Error::InvalidResponse("r".to_string()).error_code(), -1);
}

#[test]
fn only_timeout_loses_the_connection() {
    assert!(Mt5Error::Timeout("t".to_string()).is_connection_lost());
    assert!(!Mt5Error::ConnectionFailed("c".to_string()).is_connection_lost());
    assert!(!Mt5Error::NotInitialized.is_connection_lost());
    assert!(!Mt5Error::NotSupported("n".to_string()).is_connection_lost());
}

#[test]
fn error_messages() {
    assert_eq!(Mt5Error::NotInitialized.message(), "MT5 not initialized");
    assert_eq!(Mt5Error::ConnectionFailed("no pipe".to_string()).message(), "Connection failed: no pipe");
    assert_eq!(Mt5Error::Timeout("late".to_string()).message(), "Timeout: late");
    assert_eq!(Mt5Error::ProtocolError("p".to_string()).message(), "Protocol error: p");
    assert_eq!(Mt5Error::InvalidResponse("Response too short".to_string()).message(), "Invalid response: Response too short");
    assert_eq!(Mt5Error::NotSupported("n".to_string()).message(), "Not supported: n");
    let refused = Mt5Error::CommandFailed { cmd: 161, error_code: -10030, error: "bad".to_string() };
    assert_eq!(refused.message(), "Command failed: cmd=161, code=-10030, error=bad");
    let io = Mt5Error::IoError(IoFailure { raw_os_error: Some(2), description: "gone".to_string() });
    assert_eq!(io.message(), "IO error: gone");
}
