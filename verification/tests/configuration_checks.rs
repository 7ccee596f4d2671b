use olp_storage::carried::Timestamp;
use olp_storage::configuration::{
    activation_check, certification_audit_outcome, certification_gate, certification_model_gate,
    checked_limit, draft_write_refusal, fresh_probe, route_lineage_check, same_tuple_set,
    validate_certification_submission, validate_provider_update, CapabilityCertificationOutcome,
    ConfigurationError, ProviderActivationState, ProviderSettingsUpdate,
};
use olp_storage::domain::{OperationKind, Surface, TransportMode};

fn submitted(operation: OperationKind, succeeded: bool) -> CapabilityCertificationOutcome {
    CapabilityCertificationOutcome {
        operation,
        surface: Surface::Anthropic,
        mode: TransportMode::Streaming,
        succeeded,
    }
}

fn invalid<T: std::fmt::Debug>(result: Result<T, ConfigurationError>) -> String {
    match result {
        Err(ConfigurationError::Invalid(message)) => message,
        other => panic!("expected an invalid request, got {other:?}"),
    }
}

#[test]
fn certification_submissions_hold_distinct_tuples() {
    let tuples = validate_certification_submission(&[
        submitted(OperationKind::Generation, true),
        submitted(OperationKind::TokenCount, false),
    ])
    .unwrap();
    assert_eq!(
        tuples,
        vec![
            (OperationKind::Generation, Surface::Anthropic, TransportMode::Streaming),
            (OperationKind::TokenCount, Surface::Anthropic, TransportMode::Streaming),
        ]
    );
    assert_eq!(
        invalid(validate_certification_submission(&[])),
        "certification requires 1-16 reviewed capability tuples"
    );
    let seventeen: Vec<_> = (0..17).map(|_| submitted(OperationKind::Generation, true)).collect();
    assert_eq!(
        invalid(validate_certification_submission(&seventeen)),
        "certification requires 1-16 reviewed capability tuples"
    );
    assert_eq!(
        invalid(validate_certification_submission(&[
            submitted(OperationKind::Generation, true),
            submitted(OperationKind::Generation, false),
        ])),
        "certification capability tuples must be unique"
    );
}

#[test]
fn native_certification_needs_fresh_probe_and_discovered_model() {
    let updated = Timestamp { micros: 100 };
    assert!(fresh_probe(Some("succeeded"), Some(Timestamp { micros: 100 }), updated));
    assert!(!fresh_probe(Some("succeeded"), Some(Timestamp { micros: 99 }), updated));
    assert!(!fresh_probe(Some("failed"), Some(Timestamp { micros: 200 }), updated));
    assert!(!fresh_probe(None, Some(Timestamp { micros: 200 }), updated));

    assert!(certification_gate(true, "draft", "openai", true).is_ok());
    assert!(certification_gate(true, "draft", "openai_compatible", false).is_ok());
    assert!(matches!(
        certification_gate(false, "draft", "openai", true),
        Err(ConfigurationError::PreconditionFailed)
    ));
    assert!(matches!(
        certification_gate(true, "active", "openai", true),
        Err(ConfigurationError::InUse)
    ));
    assert_eq!(
        invalid(certification_gate(true, "draft", "anthropic", false)),
        "native capability certification requires a successful credentialed probe of the current provider draft"
    );
    assert!(certification_model_gate("openai_compatible", false).is_ok());
    assert_eq!(
        invalid(certification_model_gate("bedrock", false)),
        "native capability certification requires a discovered provider model"
    );
}

#[test]
fn stored_and_submitted_tuples_compare_as_sets() {
    let a = (OperationKind::Generation, Surface::OpenAi, TransportMode::Unary);
    let b = (OperationKind::Embeddings, Surface::OpenAi, TransportMode::Unary);
    assert!(same_tuple_set(&[a, b], &[b, a]));
    assert!(same_tuple_set(&[a, a], &[a]));
    assert!(!same_tuple_set(&[a], &[a, b]));
    assert!(!same_tuple_set(&[a, b], &[b]));
    assert_eq!(certification_audit_outcome(3, 3), "success");
    assert_eq!(certification_audit_outcome(0, 3), "failure");
    assert_eq!(certification_audit_outcome(1, 3), "partial");
}

fn ready() -> ProviderActivationState {
    ProviderActivationState {
        state: "draft".to_owned(),
        connector_ready: true,
        probe_ready: true,
        credential_ready: true,
        has_model: true,
        capabilities_ready: true,
    }
}

#[test]
fn only_a_complete_draft_activates() {
    assert!(activation_check(true, &ready()).is_ok());
    assert!(matches!(
        activation_check(false, &ready()),
        Err(ConfigurationError::PreconditionFailed)
    ));
    for incomplete in [
        ProviderActivationState {
            state: "active".to_owned(),
            ..ready()
        },
        ProviderActivationState {
            probe_ready: false,
            ..ready()
        },
        ProviderActivationState {
            capabilities_ready: false,
            ..ready()
        },
    ] {
        assert!(matches!(
            activation_check(true, &incomplete),
            Err(ConfigurationError::ProviderIncomplete)
        ));
    }
}

#[test]
fn draft_writes_and_lineage_are_checked() {
    assert!(matches!(
        draft_write_refusal(true),
        ConfigurationError::PreconditionFailed
    ));
    assert!(matches!(draft_write_refusal(false), ConfigurationError::NotFound));
    assert!(route_lineage_check(None, "chat").is_ok());
    assert!(route_lineage_check(Some("chat"), "chat").is_ok());
    assert_eq!(
        invalid(route_lineage_check(Some("chat"), "chat-v2")),
        "a restored route draft must retain its original stable slug"
    );
}

#[test]
fn page_sizes_and_provider_settings_are_bounded() {
    assert_eq!(checked_limit(1).unwrap(), 1);
    assert_eq!(checked_limit(100).unwrap(), 100);
    assert_eq!(invalid(checked_limit(0)), "page size must be between 1 and 100");
    assert_eq!(invalid(checked_limit(101)), "page size must be between 1 and 100");
    let update = ProviderSettingsUpdate {
        name: "Primary".to_owned(),
        endpoint: Some("https://api.example".to_owned()),
        cloud_region: None,
        cloud_project: None,
        deployment: None,
        api_version: None,
    };
    assert!(validate_provider_update(&update).is_ok());
    assert_eq!(
        invalid(validate_provider_update(&ProviderSettingsUpdate {
            name: "  ".to_owned(),
            ..update.clone()
        })),
        "provider name must contain 1-100 characters"
    );
    assert_eq!(
        invalid(validate_provider_update(&ProviderSettingsUpdate {
            deployment: Some("d".repeat(2_001)),
            ..update
        })),
        "provider setting is too long"
    );
}
