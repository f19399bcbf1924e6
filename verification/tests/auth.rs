use azure_openai_adapter::auth::{AuthError, AuthPhase, AuthStep, State};
use azure_openai_adapter::error::{CompletionError, CredentialField};

fn configured_state() -> State {
    let mut state = State::new();
    state
        .set_credentials(
            "secret".to_string(),
            "https://r.openai.azure.com".to_string(),
            "gpt-4o-dep".to_string(),
            "2024-02-15-preview".to_string(),
            true,
        )
        .expect("the write succeeded");
    state
}

#[test]
fn two_concurrent_authenticate_calls_issue_one_store_read() {
    let mut state = State::new();
    let first = state.authenticate(None);
    assert!(matches!(first, AuthStep::ReadStore { .. }));
    assert_eq!(state.phase(), AuthPhase::Authenticating);

    let second = state.authenticate(None);
    assert!(matches!(second, AuthStep::AwaitInFlight));
    assert_eq!(state.phase(), AuthPhase::Authenticating);

    let read_steps = [&first, &second]
        .iter()
        .filter(|s| matches!(s, AuthStep::ReadStore { .. }))
        .count();
    assert_eq!(read_steps, 1);

    assert!(state.finish_authenticate(Some("key".to_string())).is_ok());
    assert_eq!(state.phase(), AuthPhase::Authenticated);
}

#[test]
fn authenticate_is_idempotent_once_authenticated() {
    let mut state = configured_state();
    assert!(state.is_authenticated());
    let step = state.authenticate(None);
    assert!(matches!(step, AuthStep::AlreadyAuthenticated));
    assert!(state.is_authenticated());
}

#[test]
fn environment_key_wins_and_is_flagged() {
    let mut state = State::new();
    let step = state.authenticate(Some("from-env".to_string()));
    assert!(matches!(step, AuthStep::CompletedFromEnvironment));
    assert!(state.is_authenticated());
    assert!(state.api_key_from_env());
}

#[test]
fn missing_credentials_fail_the_authentication() {
    let mut state = State::new();
    let step = state.authenticate(None);
    assert!(matches!(step, AuthStep::ReadStore { .. }));
    let outcome = state.finish_authenticate(None);
    assert_eq!(outcome, Err(AuthError::CredentialsNotFound));
    assert_eq!(state.phase(), AuthPhase::Unauthenticated);
}

#[test]
fn reset_lands_in_unauthenticated_even_when_the_delete_fails() {
    let mut state = configured_state();
    assert_eq!(state.phase(), AuthPhase::Authenticated);
    let url_to_delete = state.reset();
    assert_eq!(url_to_delete, "https://r.openai.azure.com");
    // The store delete is best-effort and happens after this transition:
    // whatever it returns, the machine is already unauthenticated.
    assert_eq!(state.phase(), AuthPhase::Unauthenticated);
    assert!(!state.is_authenticated());
    assert!(state.snapshot().is_err());
}

#[test]
fn failed_credential_write_propagates_and_changes_nothing() {
    let mut state = State::new();
    let outcome = state.set_credentials(
        "secret".to_string(),
        "https://r.openai.azure.com".to_string(),
        "dep".to_string(),
        "v1".to_string(),
        false,
    );
    assert_eq!(outcome, Err(AuthError::StoreWriteFailed));
    assert!(!state.is_authenticated());
    assert_eq!(state.phase(), AuthPhase::Unauthenticated);
}

#[test]
fn set_credentials_authenticates_from_any_state() {
    let mut state = State::new();
    let _ = state.authenticate(None);
    assert_eq!(state.phase(), AuthPhase::Authenticating);
    state
        .set_credentials(
            "secret".to_string(),
            "https://r.openai.azure.com".to_string(),
            "dep".to_string(),
            "v1".to_string(),
            true,
        )
        .expect("the write succeeded");
    assert_eq!(state.phase(), AuthPhase::Authenticated);
}

#[test]
fn snapshot_returns_all_four_fields() {
    let state = configured_state();
    let credentials = state.snapshot().expect("all fields are present");
    assert_eq!(credentials.api_key, "secret");
    assert_eq!(credentials.api_url, "https://r.openai.azure.com");
    assert_eq!(credentials.deployment_name, "gpt-4o-dep");
    assert_eq!(credentials.api_version, "2024-02-15-preview");
}

#[test]
fn snapshot_names_the_missing_credential() {
    let state = State::new();
    match state.snapshot() {
        Err(CompletionError::MissingCredential(CredentialField::ApiKey)) => {}
        _ => panic!("the missing key should be reported first"),
    }

    let mut keyed = State::new();
    let step = keyed.authenticate(Some("k".to_string()));
    assert!(matches!(step, AuthStep::CompletedFromEnvironment));
    match keyed.snapshot() {
        Err(CompletionError::MissingCredential(CredentialField::ApiUrl)) => {}
        _ => panic!("the missing URL should be reported next"),
    }
}
