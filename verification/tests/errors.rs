use http_exchange::error::HttpError;
use std::io;
use std::sync::Arc;

#[test]
fn shared_scheme_error_keeps_its_scheme() {
    let first = HttpError::UnexpectedScheme("ftp".to_string());
    let second = first.share();
    assert!(matches!(second, HttpError::UnexpectedScheme(ref s) if s == "ftp"));
    assert!(matches!(first, HttpError::UnexpectedScheme(ref s) if s == "ftp"));
}

#[test]
fn shared_missing_host_is_missing_host() {
    assert!(matches!(HttpError::MissingHost.share(), HttpError::MissingHost));
}

#[test]
fn shared_connect_error_points_at_the_same_fault() {
    let fault = Arc::new(io::Error::new(io::ErrorKind::ConnectionRefused, "refused"));
    let first = HttpError::ConnectError(fault.clone());
    match first.share() {
        HttpError::ConnectError(shared) => {
            assert!(Arc::ptr_eq(&shared, &fault));
            assert_eq!(shared.kind(), io::ErrorKind::ConnectionRefused);
        }
        other => panic!("unexpected {:?}", other),
    }
}

#[test]
fn shared_io_error_points_at_the_same_fault() {
    let fault = Arc::new(io::Error::new(io::ErrorKind::BrokenPipe, "gone"));
    let first = HttpError::IoError(fault.clone());
    match first.share() {
        HttpError::IoError(shared) => {
            assert!(Arc::ptr_eq(&shared, &fault));
            assert_eq!(shared.to_string(), "gone");
        }
        other => panic!("unexpected {:?}", other),
    }
}
