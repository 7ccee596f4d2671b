use olp_storage::access::{
    has_unsafe_display_characters, new_api_key_columns, stale_key_catalog_error, stale_key_error,
    stale_key_outcome, KeyWrite,
    validate_api_key_catalog_update, validate_api_key_update, validate_new_api_key, AccessError,
    ApiKeyLimits, ApiKeyScope, StaleKeyOutcome, UpdateApiKeyInput,
};
use olp_storage::carried::Timestamp;
use olp_storage::catalog::CatalogError;
use olp_storage::configuration::ConfigurationError;

fn invalid_message(result: Result<(), AccessError>) -> String {
    match result {
        Err(AccessError::Invalid(message)) => message,
        other => panic!("expected an invalid request, got {other:?}"),
    }
}

#[test]
fn new_keys_need_a_name_scopes_and_unique_entries() {
    let routes = vec!["chat".to_owned()];
    assert!(validate_new_api_key(" key ", &[ApiKeyScope::Inference], &routes).is_ok());
    assert_eq!(
        invalid_message(validate_new_api_key("   ", &[ApiKeyScope::Inference], &routes)),
        "name must contain 1-100 characters"
    );
    assert_eq!(
        invalid_message(validate_new_api_key(&"x".repeat(101), &[ApiKeyScope::Inference], &routes)),
        "name must contain 1-100 characters"
    );
    assert_eq!(
        invalid_message(validate_new_api_key("key", &[], &routes)),
        "at least one scope is required"
    );
    assert_eq!(
        invalid_message(validate_new_api_key(
            "key",
            &[ApiKeyScope::ModelsRead, ApiKeyScope::ModelsRead],
            &routes
        )),
        "scope entries must be unique"
    );
    let repeated = vec!["chat".to_owned(), "chat".to_owned()];
    assert_eq!(
        invalid_message(validate_new_api_key("key", &[ApiKeyScope::Inference], &repeated)),
        "route allowlist entries must be unique"
    );
    assert_eq!(ApiKeyScope::ModelsRead.as_str(), "models_read");
}

#[test]
fn new_key_limits_fit_their_columns() {
    let now = Timestamp { micros: 1_000 };
    let limits = ApiKeyLimits {
        requests_per_minute: Some(60),
        tokens_per_minute: Some(1 << 40),
        concurrency: None,
    };
    let columns = new_api_key_columns(Some(Timestamp { micros: 2_000 }), now, &limits).unwrap();
    assert_eq!(columns.requests_per_minute, Some(60));
    assert_eq!(columns.tokens_per_minute, Some(1 << 40));
    assert_eq!(columns.max_concurrency, None);

    let message = |result| match result {
        Err(AccessError::Invalid(message)) => message,
        _ => panic!("expected an invalid request"),
    };
    assert_eq!(
        message(new_api_key_columns(Some(now), now, &limits)),
        "expiration must be in the future"
    );
    assert_eq!(
        message(new_api_key_columns(
            None,
            now,
            &ApiKeyLimits {
                requests_per_minute: Some(i32::MAX as u64 + 1),
                ..limits
            }
        )),
        "RPM limit is too large"
    );
    assert_eq!(
        message(new_api_key_columns(
            None,
            now,
            &ApiKeyLimits {
                tokens_per_minute: Some(u64::MAX),
                ..limits
            }
        )),
        "TPM limit is too large"
    );
    assert_eq!(
        message(new_api_key_columns(
            None,
            now,
            &ApiKeyLimits {
                concurrency: Some(i32::MAX as u64 + 1),
                ..limits
            }
        )),
        "concurrency limit is too large"
    );
}

fn update_input() -> UpdateApiKeyInput {
    UpdateApiKeyInput {
        name: "  Build key ".to_owned(),
        scopes: vec!["inference".to_owned(), "models_read".to_owned()],
        allowed_routes: vec!["chat".to_owned(), "embed".to_owned()],
        requests_per_minute: Some(60),
        tokens_per_minute: Some(10_000),
        max_concurrency: Some(4),
        expires_at: Some(Timestamp { micros: 5_000 }),
    }
}

fn parsed(input: &UpdateApiKeyInput) -> Vec<Result<(), String>> {
    vec![Ok(()); input.allowed_routes.len()]
}

fn config_message(result: Result<olp_storage::access::ApiKeyUpdate, ConfigurationError>) -> String {
    match result {
        Err(ConfigurationError::Invalid(message)) => message,
        Err(other) => panic!("unexpected error {other:?}"),
        Ok(_) => panic!("expected a refusal"),
    }
}

#[test]
fn key_updates_are_checked_in_order() {
    let now = Timestamp { micros: 1_000 };
    let accepted = validate_api_key_update(&update_input(), &parsed(&update_input()), now, 8).unwrap();
    assert_eq!(accepted.name, "Build key");
    assert_eq!(accepted.requests_per_minute, Some(60));
    assert_eq!(accepted.tokens_per_minute, Some(10_000));
    assert_eq!(accepted.max_concurrency, Some(4));

    let hidden = UpdateApiKeyInput {
        name: "key\u{202e}".to_owned(),
        ..update_input()
    };
    assert_eq!(
        config_message(validate_api_key_update(&hidden, &parsed(&hidden), now, 8)),
        "API-key name must contain 1-100 visible characters without control or bidi formatting"
    );
    assert_eq!(
        config_message(validate_api_key_update(&update_input(), &parsed(&update_input()), now, 1)),
        "API-key route allowlist cannot exceed 1 entries"
    );
    let unknown_scope = UpdateApiKeyInput {
        scopes: vec!["admin".to_owned()],
        ..update_input()
    };
    assert_eq!(
        config_message(validate_api_key_update(&unknown_scope, &parsed(&unknown_scope), now, 8)),
        "API-key scopes must be unique inference or models_read values"
    );
    let no_scope = UpdateApiKeyInput {
        scopes: vec![],
        ..update_input()
    };
    assert_eq!(
        config_message(validate_api_key_update(&no_scope, &parsed(&no_scope), now, 8)),
        "at least one API-key scope is required"
    );
    let repeated_route = UpdateApiKeyInput {
        allowed_routes: vec!["chat".to_owned(), "chat".to_owned()],
        ..update_input()
    };
    assert_eq!(
        config_message(validate_api_key_update(&repeated_route, &parsed(&repeated_route), now, 8)),
        "allowlisted routes must be unique"
    );
    let expired = UpdateApiKeyInput {
        expires_at: Some(now),
        ..update_input()
    };
    assert_eq!(
        config_message(validate_api_key_update(&expired, &parsed(&expired), now, 8)),
        "API-key expiration must be in the future"
    );
    let huge_rpm = UpdateApiKeyInput {
        requests_per_minute: Some(u32::MAX),
        ..update_input()
    };
    assert_eq!(
        config_message(validate_api_key_update(&huge_rpm, &parsed(&huge_rpm), now, 8)),
        "RPM limit is too large"
    );
    let huge_tpm = UpdateApiKeyInput {
        tokens_per_minute: Some(9_007_199_254_740_992),
        ..update_input()
    };
    assert_eq!(
        config_message(validate_api_key_update(&huge_tpm, &parsed(&huge_tpm), now, 8)),
        "TPM limit exceeds the distributed limiter maximum"
    );
    let zero = UpdateApiKeyInput {
        max_concurrency: Some(0),
        ..update_input()
    };
    assert_eq!(
        config_message(validate_api_key_update(&zero, &parsed(&zero), now, 8)),
        "hard limits must be positive when configured"
    );
}

#[test]
fn catalog_key_updates_skip_the_runtime_only_checks() {
    let now = Timestamp { micros: 1_000 };
    let input = UpdateApiKeyInput {
        name: "key\u{202e}".to_owned(),
        tokens_per_minute: Some(9_007_199_254_740_992),
        allowed_routes: (0..20).map(|i| format!("route-{i}")).collect(),
        ..update_input()
    };
    let accepted = validate_api_key_catalog_update(&input, &parsed(&input), now).unwrap();
    assert_eq!(accepted.tokens_per_minute, Some(9_007_199_254_740_992));

    let huge = UpdateApiKeyInput {
        tokens_per_minute: Some(u64::MAX),
        ..update_input()
    };
    assert!(matches!(
        validate_api_key_catalog_update(&huge, &parsed(&huge), now),
        Err(CatalogError::Invalid(message)) if message == "TPM limit is too large"
    ));
    let blank = UpdateApiKeyInput {
        name: " ".to_owned(),
        ..update_input()
    };
    assert!(matches!(
        validate_api_key_catalog_update(&blank, &parsed(&blank), now),
        Err(CatalogError::Invalid(message)) if message == "API-key name must contain 1-100 characters"
    ));
}

#[test]
fn unmatched_key_writes_are_explained() {
    assert!(matches!(stale_key_outcome(false, false), StaleKeyOutcome::NotFound));
    assert!(matches!(
        stale_key_outcome(true, false),
        StaleKeyOutcome::PreconditionFailed
    ));
    assert!(matches!(
        stale_key_outcome(true, true),
        StaleKeyOutcome::RevokedOrExpired
    ));
}

#[test]
fn invisible_characters_are_detected() {
    assert!(!has_unsafe_display_characters("plain name"));
    assert!(has_unsafe_display_characters("a\u{200f}b"));
    assert!(has_unsafe_display_characters("tab\there"));
    assert!(has_unsafe_display_characters("\u{2066}isolate"));
}

#[test]
fn an_allowlisted_route_that_does_not_parse_is_refused_with_its_error() {
    let now = Timestamp { micros: 1_000 };
    let checks = vec![Ok(()), Err("route slug is too long".to_owned())];
    assert_eq!(
        config_message(validate_api_key_update(&update_input(), &checks, now, 8)),
        "invalid allowlisted route: route slug is too long"
    );
    assert!(matches!(
        validate_api_key_catalog_update(&update_input(), &checks, now),
        Err(CatalogError::Invalid(m)) if m == "invalid allowlisted route: route slug is too long"
    ));
}

#[test]
fn stale_key_writes_name_their_cause() {
    assert!(matches!(stale_key_error(false, true, KeyWrite::Update), ConfigurationError::NotFound));
    assert!(matches!(
        stale_key_error(true, false, KeyWrite::Rotation),
        ConfigurationError::PreconditionFailed
    ));
    assert!(matches!(
        stale_key_error(true, true, KeyWrite::Update),
        ConfigurationError::Invalid(m) if m == "revoked or expired keys cannot be updated"
    ));
    assert!(matches!(
        stale_key_catalog_error(true, true, KeyWrite::Rotation),
        CatalogError::Invalid(m) if m == "revoked or expired keys cannot be rotated"
    ));
    assert!(matches!(stale_key_catalog_error(false, false, KeyWrite::Rotation), CatalogError::NotFound));
}
