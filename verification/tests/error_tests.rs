use actix_web::http::StatusCode;
use ubuntu_resource_api::error::AppError;

#[test]
fn test_error_status_codes() {
    // Test NotFound returns 404
    let err = AppError::NotFound("Resource not found".to_string());
    assert_eq!(err.status_code(), StatusCode::NOT_FOUND.as_u16());

    // Test ValidationError returns 400
    let err = AppError::ValidationError("Invalid input".to_string());
    assert_eq!(err.status_code(), StatusCode::BAD_REQUEST.as_u16());

    // Test SystemError returns 500
    let err = AppError::SystemError("System failure".to_string());
    assert_eq!(err.status_code(), StatusCode::INTERNAL_SERVER_ERROR.as_u16());

    // Test NginxError returns 500
    let err = AppError::NginxError("Nginx failure".to_string());
    assert_eq!(err.status_code(), StatusCode::INTERNAL_SERVER_ERROR.as_u16());

    // Test DockerError returns 500
    let err = AppError::DockerError("Docker failure".to_string());
    assert_eq!(err.status_code(), StatusCode::INTERNAL_SERVER_ERROR.as_u16());

    // Test ConfigError returns 500
    let err = AppError::ConfigError("Config failure".to_string());
    assert_eq!(err.status_code(), StatusCode::INTERNAL_SERVER_ERROR.as_u16());
}

#[test]
fn test_error_display() {
    let err = AppError::NotFound("test resource".to_string());
    assert_eq!(err.to_string(), "Not Found: test resource");

    let err = AppError::ValidationError("test validation".to_string());
    assert_eq!(err.to_string(), "Validation Error: test validation");

    let err = AppError::SystemError("test system".to_string());
    assert_eq!(err.to_string(), "System Error: test system");

    let err = AppError::NginxError("test nginx".to_string());
    assert_eq!(err.to_string(), "Nginx Error: test nginx");

    let err = AppError::DockerError("test docker".to_string());
    assert_eq!(err.to_string(), "Docker Error: test docker");

    let err = AppError::ConfigError("test config".to_string());
    assert_eq!(err.to_string(), "Configuration Error: test config");
}

#[test]
fn test_error_response_structure() {
    let err = AppError::NotFound("test".to_string());
    let response = err.error_response();
    assert_eq!(response.status, StatusCode::NOT_FOUND.as_u16());

    let err = AppError::ValidationError("test".to_string());
    let response = err.error_response();
    assert_eq!(response.status, StatusCode::BAD_REQUEST.as_u16());

    let err = AppError::SystemError("test".to_string());
    let response = err.error_response();
    assert_eq!(response.status, StatusCode::INTERNAL_SERVER_ERROR.as_u16());
}

#[test]
fn error_response_names_kind_and_message() {
    let body = AppError::NginxError("reload failed".to_string()).error_response();
    assert_eq!(body.status, 500);
    assert_eq!(body.error, "Nginx Error");
    assert_eq!(body.message, "reload failed");

    let body = AppError::ConfigError("no directory".to_string()).error_response();
    assert_eq!(body.error, "Configuration Error");
    assert_eq!(AppError::DockerError("x".to_string()).title(), "Docker Error");
    assert_eq!(AppError::SystemError("y".to_string()).message(), "y");
}
