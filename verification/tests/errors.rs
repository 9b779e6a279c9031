use mangater::errors::SdkError;

#[test]
fn test_error_display() {
    let err = SdkError::NotFound("chapter".into());
    assert_eq!(err.to_string(), "not found: chapter");
}

#[test]
fn test_io_conversion() {
    let io_err = std::io::Error::new(std::io::ErrorKind::Other, "disk");
    let sdk_err: SdkError = io_err.into();

    match sdk_err {
        SdkError::Storage(_) => {
            assert!(sdk_err.to_string().contains("disk"));
        }
        _ => panic!(
            "Expected Storage variant, but failed or not the expected error type: {}",
            sdk_err.to_string()
        ),
    }
}

#[test]
fn every_kind_shows_its_prefix_and_detail() {
    assert_eq!(SdkError::Network("timeout".into()).to_string(), "network error: timeout");
    assert_eq!(SdkError::Parse("no body".into()).to_string(), "parse error: no body");
    assert_eq!(SdkError::NotFound("page 3".into()).to_string(), "not found: page 3");
    assert_eq!(
        SdkError::Unsupported("frames".into()).to_string(),
        "unsupported site structure: frames"
    );
    assert_eq!(SdkError::RateLimited.to_string(), "rate limited");
    assert_eq!(SdkError::Authentication.to_string(), "authentication failed");
    assert_eq!(SdkError::Site("closed".into()).to_string(), "site error: closed");
    assert_eq!(SdkError::InvalidConfig("bad".into()).to_string(), "invalid config: bad");
    assert_eq!(SdkError::Other("odd".into()).to_string(), "unknown error: odd");
}

#[test]
fn an_empty_detail_leaves_the_prefix() {
    assert_eq!(SdkError::Network(String::new()).to_string(), "network error: ");
}

#[test]
fn a_storage_error_shows_the_io_error() {
    let cause = std::io::Error::new(std::io::ErrorKind::PermissionDenied, "read-only volume");
    let shown = cause.to_string();
    assert_eq!(SdkError::Storage(cause).to_string(), shown);
}

#[test]
fn an_io_error_becomes_a_storage_error() {
    let converted = SdkError::from(std::io::Error::new(std::io::ErrorKind::NotFound, "gone"));
    assert!(matches!(converted, SdkError::Storage(_)));
}
