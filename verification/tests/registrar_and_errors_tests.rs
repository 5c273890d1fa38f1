use wanderer_connector::errors::{classify_failure, status_code_for, CommandFailure, CoreError};
use wanderer_connector::registrar::TriggerRegistrar;

#[test]
fn registrar_installs_once_and_stays_installed() {
    let mut reg = TriggerRegistrar::new();
    assert!(reg.needs_install());
    assert!(reg.ensure_installed(true).is_ok());
    assert!(!reg.needs_install());
    // Idempotent: a later startup outcome cannot uninstall it.
    assert!(reg.ensure_installed(false).is_ok());
    assert!(!reg.needs_install());
}

#[test]
fn registrar_failure_is_fatal_at_startup() {
    let mut reg = TriggerRegistrar::new();
    match reg.ensure_installed(false) {
        Err(CoreError::ConfigurationError) => {}
        _ => panic!("expected ConfigurationError"),
    }
    assert!(reg.needs_install());
    // A later successful attempt still installs.
    assert!(reg.ensure_installed(true).is_ok());
}

#[test]
fn datastore_failures_classify_onto_the_taxonomy() {
    assert_eq!(classify_failure(CommandFailure::UniqueViolation), CoreError::Conflict);
    assert_eq!(classify_failure(CommandFailure::ZeroRowsAffected), CoreError::NotFound);
    assert_eq!(classify_failure(CommandFailure::LinkLost), CoreError::ConnectionLost);
    assert_eq!(classify_failure(CommandFailure::Backend), CoreError::Internal);
}

#[test]
fn http_status_mapping() {
    assert_eq!(status_code_for(CoreError::NotFound), 404);
    assert_eq!(status_code_for(CoreError::Conflict), 409);
    assert_eq!(status_code_for(CoreError::Internal), 500);
    assert_eq!(status_code_for(CoreError::PoolExhausted), 500);
    assert_eq!(status_code_for(CoreError::ConnectionLost), 500);
    assert_eq!(status_code_for(CoreError::ProtocolError), 500);
    assert_eq!(status_code_for(CoreError::ConfigurationError), 500);
    assert_eq!(status_code_for(CoreError::Fatal), 500);
}
