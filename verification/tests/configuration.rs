use olp_storage::configuration::{
    credential_version_candidate, database_version, enforce_provider_revision_diff_limit,
    stored_version, validate_model,
    validate_route_input, ConfigurationError, DiscoveredModelInput,
};
use olp_storage::domain::{OperationKind, Surface};

#[test]
fn credential_versions_must_be_positive_database_integers() {
    assert_eq!(database_version(1).unwrap(), 1);
    assert_eq!(database_version(i32::MAX as u32).unwrap(), i32::MAX);
    assert!(database_version(0).is_err());
    assert!(database_version(i32::MAX as u32 + 1).is_err());

    assert_eq!(stored_version(1).unwrap(), 1);
    assert!(stored_version(0).is_err());
    assert!(stored_version(-1).is_err());
}

#[test]
fn configuration_validators_reject_implicit_capabilities() {
    let model = DiscoveredModelInput {
        upstream_model: "model".to_owned(),
        display_name: "Model".to_owned(),
        enabled: true,
        capabilities: vec![],
    };
    assert!(validate_model(&model).is_err());
    assert!(Surface::parse("unknown").is_none());
}

#[test]
fn provider_revision_diff_ceiling_accepts_boundary_and_rejects_excess() {
    assert!(enforce_provider_revision_diff_limit(2_000, "models", 2_000).is_ok());
    assert!(matches!(
        enforce_provider_revision_diff_limit(2_001, "models", 2_000),
        Err(ConfigurationError::ProviderRevisionDiffTooLarge {
            dimension: "models",
            maximum: 2_000,
        })
    ));
}

#[test]
fn route_drafts_reject_installation_local_model_operations() {
    for operation in ["model_list", "model_get"] {
        let error = validate_route_input(
            Ok(()),
            &[OperationKind::parse(operation).unwrap()],
            1_000,
            1,
            &[(uuid::Uuid::now_v7(), 0, 1, 500)],
        )
        .unwrap_err();
        assert!(
            matches!(error, ConfigurationError::Invalid(detail) if detail.contains("installation-local"))
        );
    }
}

#[test]
fn next_credential_versions_come_from_the_stored_maximum() {
    assert_eq!(credential_version_candidate(Some(1)).unwrap(), 1);
    assert_eq!(credential_version_candidate(Some(i32::MAX)).unwrap(), i32::MAX as u32);
    assert!(matches!(credential_version_candidate(None), Err(ConfigurationError::NotFound)));
    assert!(matches!(
        credential_version_candidate(Some(i32::MIN)),
        Err(ConfigurationError::Invalid(m)) if m == "credential version overflow"
    ));
}

#[test]
fn a_route_slug_that_does_not_parse_is_refused_first() {
    let error = validate_route_input(
        Err("route slug must be lowercase".to_owned()),
        &[],
        0,
        0,
        &[],
    )
    .unwrap_err();
    assert!(matches!(error, ConfigurationError::Invalid(m) if m == "route slug must be lowercase"));
    assert!(validate_route_input(
        Ok(()),
        &[OperationKind::Generation],
        1_000,
        1,
        &[(uuid::Uuid::now_v7(), 0, 1, 500)],
    )
    .is_ok());
}
