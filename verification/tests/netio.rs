use rtmp_channels::netio::{IOReadError, IOReadErrorValue};
use std::time::Duration;

#[test]
fn a_reason_becomes_an_error() {
    let error = IOReadError::from(IOReadErrorValue::NotEnoughBytes);
    assert!(matches!(error.value, IOReadErrorValue::NotEnoughBytes));
}

#[test]
fn an_error_of_the_system_is_kept() {
    let error = IOReadError::from(std::io::Error::from(std::io::ErrorKind::BrokenPipe));
    match error.value {
        IOReadErrorValue::IO(error) => assert_eq!(error.kind(), std::io::ErrorKind::BrokenPipe),
        _ => panic!("not an error of the system"),
    }
}

#[test]
fn a_timeout_is_kept() {
    let runtime = tokio::runtime::Builder::new_current_thread().enable_time().build().unwrap();
    let waited = runtime.block_on(async {
        tokio::time::timeout(Duration::from_millis(1), std::future::pending::<()>()).await
    });
    let error = IOReadError::from(waited.unwrap_err());
    assert!(matches!(error.value, IOReadErrorValue::TimeoutError(_)));
}
