use incubator::config::{
    Error, ErrorCode, ErrorMessage, HttpStatus, MaxConnections, ValidationError, WorkerCount,
};
use incubator::config_path::{choose_config_path, ConfigPathError};

#[test]
fn creates_error_with_generic_input_types() {
    // Test with &str
    let err1 = Error::new(ErrorCode::from_static("NOT_FOUND"))
        .with_message(ErrorMessage::from_static("Item not found"));
    assert_eq!(err1.code(), "NOT_FOUND");
    assert_eq!(err1.message(), "Item not found");

    // Test with String
    let err2 = Error::new(ErrorCode::from_string("TIMEOUT".to_string()))
        .with_message(ErrorMessage::from_string("Request timed out".to_string()));
    assert_eq!(err2.code(), "TIMEOUT");
    assert_eq!(err2.message(), "Request timed out");

    // Test with From conversion
    let err3 = Error::new(ErrorCode::from_static("UNAUTHORIZED"))
        .with_message(ErrorMessage::from_static("Not authorized"));
    assert_eq!(err3.code(), "UNAUTHORIZED");
    assert_eq!(err3.message(), "Not authorized");
}

#[test]
fn handles_debug_info_properly() {
    let err = Error::new(ErrorCode::from_static("INTERNAL_ERROR"))
        .with_message(ErrorMessage::from_static("Something went wrong"))
        .with_debug_info("Database connection failed");

    assert_eq!(err.code(), "INTERNAL_ERROR");
    assert_eq!(err.message(), "Something went wrong");
    assert_eq!(err.debug_info(), Some("Database connection failed"));
}

#[test]
fn handles_status_codes_properly() {
    let err = Error::new(ErrorCode::from_static("BAD_REQUEST"))
        .with_status(HttpStatus(400))
        .with_message(ErrorMessage::from_static("Bad request"));

    assert_eq!(err.status(), 400);
}

#[test]
fn new_error_defaults() {
    let err = Error::new(ErrorCode::from_static("X"));
    assert_eq!(err.status(), 500);
    assert_eq!(err.message(), "An unknown error occurred.");
    assert_eq!(err.debug_info(), None);
}

#[test]
fn worker_count_rejects_zero() {
    assert!(WorkerCount::new(0).is_none());
    assert_eq!(WorkerCount::new(8).unwrap().get(), 8);
    assert_eq!(WorkerCount::from(8).get(), 8);
    assert!(MaxConnections::new(0).is_none());
    assert_eq!(MaxConnections::from(20_000).get(), 20_000);
    assert_ne!(ValidationError::InvalidWorkers, ValidationError::MissingAddress);
}

#[test]
fn config_path_prefers_conf_argument() {
    let args = vec!["prog".to_string(), "--conf=/tmp/app.toml".to_string()];
    let chosen = choose_config_path(&args, Some("/env/path".to_string())).unwrap();
    assert_eq!(chosen, "/tmp/app.toml");
}

#[test]
fn config_path_empty_conf_argument_is_an_error() {
    let args = vec!["prog".to_string(), "--conf=".to_string()];
    assert_eq!(
        choose_config_path(&args, None),
        Err(ConfigPathError::EmptyConfArg)
    );
}

#[test]
fn config_path_falls_back_to_env_then_default() {
    let args = vec!["prog".to_string()];
    assert_eq!(
        choose_config_path(&args, Some("/env/path".to_string())).unwrap(),
        "/env/path"
    );
    assert_eq!(
        choose_config_path(&args, Some(String::new())).unwrap(),
        "/etc/app/app.conf"
    );
    assert_eq!(choose_config_path(&args, None).unwrap(), "/etc/app/app.conf");
}
