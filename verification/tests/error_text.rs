use actor_registry::error::RegistryError;

#[test]
fn test_registry_error_display_not_found() {
    let err = RegistryError::NotFound("pong".to_string());
    assert_eq!(err.to_string(), "Actor not found: pong");
}

#[test]
fn test_registry_error_display_offline() {
    let err = RegistryError::Offline("pong".to_string());
    assert_eq!(err.to_string(), "Actor offline: pong");
}

#[test]
fn test_registry_error_display_registration_failed() {
    let err = RegistryError::RegistrationFailed {
        actor_name: "pong".to_string(),
        reason: "Name already registered".to_string(),
    };
    assert_eq!(
        err.to_string(),
        "Registration failed for 'pong': Name already registered"
    );
}

#[test]
fn test_registry_error_display_connection_error() {
    let err = RegistryError::ConnectionError("Connection refused".to_string());
    assert_eq!(err.to_string(), "Registry connection error: Connection refused");
}

#[test]
fn test_registry_error_display_timeout() {
    let err = RegistryError::Timeout("Operation timed out".to_string());
    assert_eq!(err.to_string(), "Registry timeout: Operation timed out");
}
