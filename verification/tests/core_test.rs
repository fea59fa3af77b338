use std::sync::Arc;
use tbm_application::config::AppConfig;
use tbm_application::error::ApiError;
use tbm_application::health::HealthHandler;
use tbm_application::health::HealthService;

#[test]
fn test_server_address_formatting() {
    let config = AppConfig {
        host: "0.0.0.0".to_string(),
        port: 3000,
        environment: "development".to_string(),
        log_level: "info".to_string(),
        database_url: "postgres://localhost/app".to_string(),
    };
    assert_eq!(config.server_address(), "0.0.0.0:3000");

    let config = AppConfig { host: "localhost".to_string(), port: 65535, ..config };
    assert_eq!(config.server_address(), "localhost:65535");

    let config = AppConfig { host: "h".to_string(), port: 0, ..config };
    assert_eq!(config.server_address(), "h:0");
}

#[test]
fn test_error_messages_carry_their_kind() {
    assert_eq!(ApiError::Database("down".to_string()).message(), "Database error: down");
    assert_eq!(ApiError::Validation("bad".to_string()).message(), "Validation error: bad");
    assert_eq!(ApiError::NotFound("x".to_string()).message(), "Not found: x");
    assert_eq!(ApiError::Internal("y".to_string()).message(), "Internal server error: y");
    assert_eq!(ApiError::BadRequest("z".to_string()).message(), "Bad request: z");
    assert_eq!(ApiError::Unauthorized("no".to_string()).message(), "Unauthorized: no");
    assert_eq!(ApiError::Conflict("dup".to_string()).message(), "Conflict: dup");
    assert_eq!(
        ApiError::PasswordHash("fault".to_string()).message(),
        "Password hashing error: fault"
    );
}

#[test]
fn test_health_check_reports_healthy() {
    let handler = HealthHandler::new(Arc::new(HealthService::new()));
    let response = handler.health_check(1_700_000_000, "0.1.0", "development").unwrap();
    assert_eq!(response.status, "healthy");
    assert_eq!(response.timestamp, 1_700_000_000);
    assert_eq!(response.version, "0.1.0");
    assert_eq!(response.environment, "development");
}
