use olp_storage::configuration::{
    credential_revocation_gate, credential_rotation_gate, credential_rotation_versions,
    model_enablement_check, new_provider_shape_check, previous_credential_to_revoke,
    provider_mutation_gate, restore_revision_gate, runtime_credential_from_row,
    validate_discovery_models,
    CapabilityRecord, ConfigurationError, DiscoveredModelInput, NewProviderShape,
};
use olp_storage::domain::{CapabilitySource, OperationKind, Surface, TransportMode};

fn invalid<T: std::fmt::Debug>(result: Result<T, ConfigurationError>) -> String {
    match result {
        Err(ConfigurationError::Invalid(message)) => message,
        other => panic!("expected an invalid request, got {other:?}"),
    }
}

fn capability(operation: OperationKind) -> CapabilityRecord {
    CapabilityRecord {
        operation,
        surface: Surface::OpenAi,
        mode: TransportMode::Unary,
        source: CapabilitySource::Declared,
        certified_at: None,
    }
}

#[test]
fn discovered_models_are_checked_before_the_provider() {
    let model = |name: &str| DiscoveredModelInput {
        upstream_model: name.to_owned(),
        display_name: "Model".to_owned(),
        enabled: false,
        capabilities: vec![],
    };
    assert!(validate_discovery_models(&[model("a"), model("b")]).is_ok());
    assert_eq!(invalid(validate_discovery_models(&[])), "discovery returned no models");
    assert_eq!(
        invalid(validate_discovery_models(&[model("a"), model("a ")])),
        "model names must be unique"
    );
}

#[test]
fn model_capabilities_are_reviewed_and_unique() {
    assert!(model_enablement_check(false, &[]).is_ok());
    assert!(model_enablement_check(true, &[capability(OperationKind::Generation)]).is_ok());
    assert_eq!(
        invalid(model_enablement_check(true, &[])),
        "enabled models require at least one reviewed capability"
    );
    let seventeen: Vec<_> = (0..17).map(|_| capability(OperationKind::Generation)).collect();
    assert_eq!(
        invalid(model_enablement_check(false, &seventeen)),
        "a model can declare at most 16 capability tuples"
    );
    assert_eq!(
        invalid(model_enablement_check(
            true,
            &[
                capability(OperationKind::Generation),
                capability(OperationKind::Embeddings),
                capability(OperationKind::Generation),
            ]
        )),
        "model capabilities must be unique"
    );
}

#[test]
fn provider_changes_respect_etag_and_state() {
    assert!(provider_mutation_gate(true, "draft").is_ok());
    assert!(matches!(
        provider_mutation_gate(false, "draft"),
        Err(ConfigurationError::PreconditionFailed)
    ));
    assert!(matches!(
        provider_mutation_gate(true, "disabled"),
        Err(ConfigurationError::InUse)
    ));
    assert!(credential_rotation_gate(true, "active", 3, 3).is_ok());
    assert!(matches!(
        credential_rotation_gate(true, "active", 4, 3),
        Err(ConfigurationError::PreconditionFailed)
    ));
    assert!(credential_revocation_gate(true, false, false, false).is_ok());
    assert!(matches!(
        credential_revocation_gate(true, false, false, true),
        Err(ConfigurationError::InUse)
    ));
    assert!(matches!(
        credential_revocation_gate(false, true, true, true),
        Err(ConfigurationError::PreconditionFailed)
    ));
}

#[test]
fn credential_versions_are_positive_database_integers() {
    assert_eq!(credential_rotation_versions(2, 1).unwrap(), (2, 1));
    assert_eq!(
        invalid(credential_rotation_versions(0, 1)),
        "credential version is invalid"
    );
    assert_eq!(
        invalid(credential_rotation_versions(1, u32::MAX)),
        "master-key version is invalid"
    );
}

#[test]
fn new_drafts_bring_complete_credentials_and_models() {
    let complete = NewProviderShape {
        has_credential: true,
        has_credential_id: true,
        has_model: true,
        has_model_id: true,
        has_display_name: true,
        model_enabled: true,
        has_surface: true,
    };
    assert!(new_provider_shape_check(complete).is_ok());
    assert!(matches!(
        new_provider_shape_check(NewProviderShape {
            has_credential_id: false,
            ..complete
        }),
        Err(ConfigurationError::InvalidCredential)
    ));
    assert!(matches!(
        new_provider_shape_check(NewProviderShape {
            has_model: false,
            has_model_id: false,
            has_display_name: false,
            ..complete
        }),
        Err(ConfigurationError::ProviderIncomplete)
    ));
}

#[test]
fn activation_revokes_a_replaced_credential_only() {
    let a = Some(uuid::Uuid::from_u128(1));
    let b = Some(uuid::Uuid::from_u128(2));
    assert!(previous_credential_to_revoke(&a, &b));
    assert!(previous_credential_to_revoke(&a, &None));
    assert!(!previous_credential_to_revoke(&a, &a));
    assert!(!previous_credential_to_revoke(&None, &b));
}

#[test]
fn runtime_credentials_are_all_or_nothing() {
    let id = Some(uuid::Uuid::from_u128(9));
    let credential =
        runtime_credential_from_row(id, Some(2), Some(vec![1; 12]), Some(vec![5]), Some(1)).unwrap();
    assert_eq!(credential.credential_version, Some(2));
    let secret = credential.encrypted_credential.unwrap();
    assert_eq!(secret.key_version, 1);
    assert_eq!(secret.nonce, [1; 12]);
    let none = runtime_credential_from_row(None, None, None, None, None).unwrap();
    assert!(none.credential_id.is_none() && none.encrypted_credential.is_none());
    for broken in [
        runtime_credential_from_row(id, Some(0), Some(vec![1; 12]), Some(vec![5]), Some(1)),
        runtime_credential_from_row(id, Some(2), Some(vec![1; 11]), Some(vec![5]), Some(1)),
        runtime_credential_from_row(id, Some(2), None, Some(vec![5]), Some(1)),
        runtime_credential_from_row(None, Some(2), Some(vec![1; 12]), Some(vec![5]), Some(1)),
        runtime_credential_from_row(id, None, None, None, None),
    ] {
        assert!(matches!(broken, Err(ConfigurationError::InvalidCredential)));
    }
}

#[test]
fn restored_revisions_keep_the_connector_kind() {
    assert!(restore_revision_gate(true, "bedrock", "bedrock").is_ok());
    assert!(matches!(
        restore_revision_gate(false, "bedrock", "bedrock"),
        Err(ConfigurationError::PreconditionFailed)
    ));
    assert_eq!(
        invalid(restore_revision_gate(true, "bedrock", "openai")),
        "a historical revision cannot change the provider connector kind"
    );
}
