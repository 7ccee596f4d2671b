use olp_storage::configuration::{CapabilityRecord, ConfigurationError};
use olp_storage::domain::{CapabilitySource, OperationKind, Surface, TransportMode};
use olp_storage::revisions::{
    check_diff_ceilings, diff_provider_revisions, diff_route_revisions, ProviderRevisionModel,
    ProviderRevisionSettings, RouteRevisionSettings, RouteTargetState,
};

fn capability(operation: OperationKind, surface: Surface) -> CapabilityRecord {
    CapabilityRecord {
        operation,
        surface,
        mode: TransportMode::Unary,
        source: CapabilitySource::Certified,
        certified_at: None,
    }
}

fn model(name: &str, display: &str, capabilities: Vec<CapabilityRecord>) -> ProviderRevisionModel {
    ProviderRevisionModel {
        upstream_model: name.to_owned(),
        display_name: display.to_owned(),
        enabled: true,
        discovered_at: None,
        capabilities,
    }
}

fn settings(revision: i32, name: &str) -> ProviderRevisionSettings {
    ProviderRevisionSettings {
        revision,
        name: name.to_owned(),
        kind: "openai".to_owned(),
        endpoint: Some("https://api.example".to_owned()),
        cloud_region: None,
        cloud_project: None,
        deployment: None,
        api_version: None,
        auth_mode: "api_key".to_owned(),
        connector_ready: true,
        credential_version_id: None,
        model_count: 2,
        capability_count: 2,
    }
}

#[test]
fn provider_revision_diff_reports_sorted_changes() {
    let from_models = vec![
        model("b", "B", vec![capability(OperationKind::TokenCount, Surface::Anthropic)]),
        model("a", "A", vec![capability(OperationKind::Generation, Surface::OpenAi)]),
    ];
    let to_models = vec![
        model("c", "C", vec![capability(OperationKind::Embeddings, Surface::OpenAi)]),
        model("a", "A2", vec![capability(OperationKind::Generation, Surface::OpenAi)]),
    ];
    let diff = diff_provider_revisions(
        &settings(1, "primary"),
        &settings(2, "renamed"),
        &from_models,
        &to_models,
    );
    assert_eq!(diff.from_revision, 1);
    assert_eq!(diff.to_revision, 2);
    assert!(diff.name_changed);
    assert!(!diff.endpoint_changed);
    assert!(!diff.connector_changed);
    assert!(!diff.credential_changed);
    assert_eq!(diff.models_added, vec!["c".to_owned()]);
    assert_eq!(diff.models_removed, vec!["b".to_owned()]);
    assert_eq!(diff.models_changed, vec!["a".to_owned()]);
    assert_eq!(diff.capabilities_added, vec!["c/embeddings/openai/unary".to_owned()]);
    assert_eq!(
        diff.capabilities_removed,
        vec!["b/token_count/anthropic/unary".to_owned()]
    );
}

#[test]
fn provider_revision_diff_lists_names_in_order_once() {
    let from_models = vec![];
    let to_models = vec![
        model("zeta", "Z", vec![]),
        model("alpha", "A", vec![]),
        model("mid", "M", vec![]),
        model("alpha", "A again", vec![]),
    ];
    let diff = diff_provider_revisions(&settings(1, "p"), &settings(2, "p"), &from_models, &to_models);
    assert_eq!(
        diff.models_added,
        vec!["alpha".to_owned(), "mid".to_owned(), "zeta".to_owned()]
    );
    assert!(diff.models_changed.is_empty());
}

#[test]
fn a_revision_compared_with_itself_shows_no_change() {
    let models = vec![model("a", "A", vec![capability(OperationKind::Generation, Surface::Gemini)])];
    let same = settings(3, "p");
    let diff = diff_provider_revisions(&same, &same, &models, &models);
    assert!(!diff.name_changed && !diff.credential_changed && !diff.connector_changed);
    assert!(diff.models_added.is_empty() && diff.models_removed.is_empty());
    assert!(diff.models_changed.is_empty());
    assert!(diff.capabilities_added.is_empty() && diff.capabilities_removed.is_empty());
}

#[test]
fn credential_changes_compare_identifiers() {
    let mut from = settings(1, "p");
    let mut to = settings(2, "p");
    from.credential_version_id = Some(uuid::Uuid::from_u128(7));
    to.credential_version_id = Some(uuid::Uuid::from_u128(7));
    assert!(!diff_provider_revisions(&from, &to, &[], &[]).credential_changed);
    to.credential_version_id = Some(uuid::Uuid::from_u128(8));
    assert!(diff_provider_revisions(&from, &to, &[], &[]).credential_changed);
}

#[test]
fn oversized_revisions_are_not_diffed() {
    let small = settings(1, "p");
    let mut large = settings(2, "p");
    large.capability_count = 32_001;
    assert!(check_diff_ceilings(&small, &small).is_ok());
    assert!(matches!(
        check_diff_ceilings(&small, &large),
        Err(ConfigurationError::ProviderRevisionDiffTooLarge {
            dimension: "capability tuples",
            maximum: 32_000
        })
    ));
    large.model_count = -1;
    assert!(matches!(
        check_diff_ceilings(&large, &small),
        Err(ConfigurationError::ProviderRevisionDiffTooLarge {
            dimension: "models",
            maximum: 2_000
        })
    ));
}

fn target(provider: u128, model: &str, weight: i32) -> RouteTargetState {
    RouteTargetState {
        provider_id: provider,
        upstream_model: model.to_owned(),
        priority: 0,
        weight,
        timeout_ms: 1_000,
        position: 0,
    }
}

#[test]
fn route_revision_diff_keys_targets_by_provider_and_model() {
    let provider = 0x0123_4567_89ab_cdef_0123_4567_89ab_cdef_u128;
    let other = 0xffff_0000_0000_0000_0000_0000_0000_0001_u128;
    let from = RouteRevisionSettings {
        revision: 1,
        slug: "chat".to_owned(),
        overall_timeout_ms: 5_000,
        max_attempts: 2,
        operations: vec![OperationKind::Generation, OperationKind::TokenCount],
        targets: vec![target(provider, "m1", 1)],
    };
    let to = RouteRevisionSettings {
        revision: 2,
        slug: "chat".to_owned(),
        overall_timeout_ms: 6_000,
        max_attempts: 2,
        operations: vec![OperationKind::Embeddings, OperationKind::Generation],
        targets: vec![target(other, "m2", 1), target(provider, "m1", 2)],
    };
    let diff = diff_route_revisions(&from, &to);
    assert!(!diff.slug_changed);
    assert!(diff.timeout_changed);
    assert!(!diff.max_attempts_changed);
    assert_eq!(diff.operations_added, vec![OperationKind::Embeddings]);
    assert_eq!(diff.operations_removed, vec![OperationKind::TokenCount]);
    assert_eq!(
        diff.targets_added,
        vec!["ffff0000-0000-0000-0000-000000000001/m2".to_owned()]
    );
    assert!(diff.targets_removed.is_empty());
    assert_eq!(
        diff.targets_changed,
        vec!["01234567-89ab-cdef-0123-456789abcdef/m1".to_owned()]
    );
    let same = diff_route_revisions(&to, &to);
    assert!(same.operations_added.is_empty() && same.targets_changed.is_empty());
}

#[test]
fn a_reversed_route_diff_swaps_additions_and_removals() {
    let provider = 0x0123_4567_89ab_cdef_0123_4567_89ab_cdef_u128;
    let other = 0xffff_0000_0000_0000_0000_0000_0000_0001_u128;
    let from = RouteRevisionSettings {
        revision: 3,
        slug: "chat".to_owned(),
        overall_timeout_ms: 5_000,
        max_attempts: 2,
        operations: vec![OperationKind::Generation, OperationKind::Moderation],
        targets: vec![target(provider, "m1", 1), target(other, "old", 1)],
    };
    let to = RouteRevisionSettings {
        revision: 4,
        slug: "assistant".to_owned(),
        overall_timeout_ms: 5_000,
        max_attempts: 3,
        operations: vec![OperationKind::VideoGet, OperationKind::Generation],
        targets: vec![target(provider, "m1", 5), target(other, "new", 1)],
    };
    let forward = diff_route_revisions(&from, &to);
    let backward = diff_route_revisions(&to, &from);
    assert_eq!(forward.operations_added, vec![OperationKind::VideoGet]);
    assert_eq!(forward.operations_added, backward.operations_removed);
    assert_eq!(forward.operations_removed, backward.operations_added);
    assert_eq!(forward.targets_added, backward.targets_removed);
    assert_eq!(forward.targets_removed, backward.targets_added);
    assert_eq!(forward.targets_changed, backward.targets_changed);
    assert_eq!(
        forward.targets_changed,
        vec!["01234567-89ab-cdef-0123-456789abcdef/m1".to_owned()]
    );
    assert!(forward.slug_changed && backward.slug_changed);
    assert!(forward.max_attempts_changed && backward.max_attempts_changed);
    assert!(!forward.timeout_changed && !backward.timeout_changed);
}
