use olp_storage::catalog::{
    catalog_count, catalog_credential_version_candidate, certification_completion, certification_proves_connectivity, certification_result_tuples,
    certification_run_exclusive, certification_run_open, certification_run_status,
    certification_run_superseded, certification_start_check, disable_provider_gate,
    disable_refusal, plan_model_discovery, CertificationStart,
    CapabilityCertificationResult, CatalogError, ExistingModel, ObservedModelAction,
    ProviderModelDiscoveryCompleteness, ProviderModelDiscoveryOrigin,
};
use olp_storage::configuration::DiscoveredModelInput;
use olp_storage::domain::{OperationKind, Surface, TransportMode};

fn existing(name: &str, display: &str, source: &str, availability: &str, runs: i32) -> ExistingModel {
    ExistingModel {
        id: uuid::Uuid::now_v7(),
        upstream_model: name.to_owned(),
        display_name: display.to_owned(),
        inventory_source: source.to_owned(),
        availability: availability.to_owned(),
        consecutive_missing_runs: runs,
    }
}

fn reported(name: &str, display: &str) -> DiscoveredModelInput {
    DiscoveredModelInput {
        upstream_model: name.to_owned(),
        display_name: display.to_owned(),
        enabled: false,
        capabilities: vec![],
    }
}

#[test]
fn complete_scheduled_discovery_plans_every_write() {
    let stored = vec![
        existing("alpha", "Alpha", "upstream", "available", 0),
        existing("beta", "Beta", "upstream", "available", 1),
        existing("gamma", "Gamma", "manual", "available", 0),
    ];
    let models = vec![reported(" alpha ", "Alpha 2"), reported("delta", "Delta")];
    let plan = plan_model_discovery(
        &stored,
        &models,
        ProviderModelDiscoveryOrigin::Scheduled,
        ProviderModelDiscoveryCompleteness::Complete,
    )
    .unwrap();
    assert_eq!(plan.source, "upstream");
    assert_eq!(plan.observed.len(), 2);
    assert!(matches!(
        plan.observed[0],
        ObservedModelAction::Refresh { model_id, reappeared: false } if model_id == stored[0].id
    ));
    assert!(matches!(plan.observed[1], ObservedModelAction::Insert));
    assert_eq!(plan.added_model_count, 1);
    assert_eq!(plan.renamed_model_count, 1);
    assert_eq!(plan.missing.len(), 1);
    assert_eq!(plan.missing[0].model_id, stored[1].id);
    assert_eq!(plan.missing[0].consecutive_missing_runs, 2);
    assert!(plan.missing[0].newly_missing);
    assert_eq!(plan.newly_missing_model_count, 1);
    assert!(plan.catalog_changed);
    assert!(plan.stage_draft);
}

#[test]
fn manual_and_partial_discoveries_track_no_absence() {
    let stored = vec![existing("beta", "Beta", "upstream", "available", 5)];
    let models = vec![reported("alpha", "Alpha")];
    for (origin, completeness) in [
        (
            ProviderModelDiscoveryOrigin::Manual,
            ProviderModelDiscoveryCompleteness::Complete,
        ),
        (
            ProviderModelDiscoveryOrigin::Upstream,
            ProviderModelDiscoveryCompleteness::Partial,
        ),
    ] {
        let plan = plan_model_discovery(&stored, &models, origin, completeness).unwrap();
        assert!(plan.missing.is_empty());
        assert_eq!(plan.newly_missing_model_count, 0);
    }
    let manual = plan_model_discovery(
        &stored,
        &models,
        ProviderModelDiscoveryOrigin::Manual,
        ProviderModelDiscoveryCompleteness::Complete,
    )
    .unwrap();
    assert_eq!(manual.source, "manual");
}

#[test]
fn a_missing_model_that_reappears_returns_the_provider_to_review() {
    let stored = vec![existing("alpha", "Alpha", "upstream", "missing", 3)];
    let plan = plan_model_discovery(
        &stored,
        &[reported("alpha", "Alpha")],
        ProviderModelDiscoveryOrigin::Upstream,
        ProviderModelDiscoveryCompleteness::Complete,
    )
    .unwrap();
    assert!(matches!(
        plan.observed[0],
        ObservedModelAction::Refresh { reappeared: true, .. }
    ));
    assert!(plan.catalog_changed);
    assert!(plan.stage_draft);
    assert_eq!(plan.renamed_model_count, 0);
}

#[test]
fn discovery_input_is_validated() {
    let invalid = |result| match result {
        Err(CatalogError::Invalid(message)) => message,
        _ => panic!("expected an invalid discovery"),
    };
    assert_eq!(
        invalid(plan_model_discovery(
            &vec![],
            &[],
            ProviderModelDiscoveryOrigin::Manual,
            ProviderModelDiscoveryCompleteness::Complete
        )),
        "manual model declaration requires at least one model"
    );
    assert_eq!(
        invalid(plan_model_discovery(
            &vec![],
            &[reported("a", "A"), reported(" a", "Again")],
            ProviderModelDiscoveryOrigin::Upstream,
            ProviderModelDiscoveryCompleteness::Complete
        )),
        "model names must be unique"
    );
    assert_eq!(
        invalid(plan_model_discovery(
            &vec![],
            &[reported(" ", "A")],
            ProviderModelDiscoveryOrigin::Upstream,
            ProviderModelDiscoveryCompleteness::Complete
        )),
        "model ID must contain 1-200 characters"
    );
}

fn outcome(operation: OperationKind, succeeded: bool) -> CapabilityCertificationResult {
    CapabilityCertificationResult {
        operation,
        surface: Surface::OpenAi,
        mode: TransportMode::Unary,
        succeeded,
        evidence_kind: if succeeded { Some("probe".to_owned()) } else { None },
        error_code: if succeeded { None } else { Some("timeout".to_owned()) },
        detail: "checked".to_owned(),
    }
}

#[test]
fn certification_results_are_unique_and_evidenced() {
    let tuples = certification_result_tuples(&[
        outcome(OperationKind::Generation, true),
        outcome(OperationKind::Embeddings, false),
    ])
    .unwrap();
    assert_eq!(
        tuples,
        vec![
            (OperationKind::Generation, Surface::OpenAi, TransportMode::Unary),
            (OperationKind::Embeddings, Surface::OpenAi, TransportMode::Unary),
        ]
    );
    let message = |result| match result {
        Err(CatalogError::Invalid(message)) => message,
        _ => panic!("expected an invalid certification"),
    };
    assert_eq!(
        message(certification_result_tuples(&[])),
        "certification requires 1-16 reviewed capability tuples"
    );
    assert_eq!(
        message(certification_result_tuples(&[
            outcome(OperationKind::Generation, true),
            outcome(OperationKind::Generation, false),
        ])),
        "certification capability tuples must be unique"
    );
    let mut unevidenced = outcome(OperationKind::Generation, true);
    unevidenced.evidence_kind = None;
    assert_eq!(
        message(certification_result_tuples(&[unevidenced])),
        "certification result evidence is invalid"
    );
}

#[test]
fn stored_counts_must_not_be_negative() {
    assert_eq!(catalog_count(3, "model_count").unwrap(), 3);
    assert!(matches!(
        catalog_count(-3, "model_count"),
        Err(CatalogError::Invalid(message))
            if message == "stored provider model_count is outside the supported range"
    ));
}

#[test]
fn certification_runs_complete_only_while_current() {
    assert!(certification_run_open("running").is_ok());
    assert!(matches!(
        certification_run_open("succeeded"),
        Err(CatalogError::InUse)
    ));
    assert!(!certification_run_superseded(false, "draft", true, true, "available", true));
    assert!(certification_run_superseded(true, "draft", true, true, "available", true));
    assert!(certification_run_superseded(false, "active", true, true, "available", true));
    assert!(certification_run_superseded(false, "draft", true, true, "missing", true));
    assert!(certification_run_superseded(false, "draft", true, false, "available", true));
    assert_eq!(certification_run_status(2, 2), "succeeded");
    assert_eq!(certification_run_status(0, 2), "failed");
    assert_eq!(certification_run_status(1, 2), "partial");
    assert!(certification_proves_connectivity("open_ai_compatible", 1));
    assert!(!certification_proves_connectivity("open_ai_compatible", 0));
    assert!(!certification_proves_connectivity("openai", 3));
}

fn start() -> CertificationStart {
    CertificationStart {
        etag_matches: true,
        provider_state: "draft".to_owned(),
        provider_kind: "anthropic".to_owned(),
        probe_matches_context: true,
        model_availability: "available".to_owned(),
        model_discovered: true,
        reviewed_capabilities: 3,
    }
}

#[test]
fn certification_runs_start_only_on_reviewed_current_drafts() {
    assert!(certification_start_check(&start()).is_ok());
    assert!(matches!(
        certification_start_check(&CertificationStart {
            etag_matches: false,
            ..start()
        }),
        Err(CatalogError::PreconditionFailed)
    ));
    assert!(matches!(
        certification_start_check(&CertificationStart {
            provider_state: "active".to_owned(),
            ..start()
        }),
        Err(CatalogError::InUse)
    ));
    let message = |c: CertificationStart| match certification_start_check(&c) {
        Err(CatalogError::Invalid(message)) => message,
        _ => panic!("expected an invalid start"),
    };
    assert_eq!(
        message(CertificationStart {
            probe_matches_context: false,
            ..start()
        }),
        "native capability certification requires a successful credentialed probe of the current transport and credential context"
    );
    assert!(certification_start_check(&CertificationStart {
        provider_kind: "open_ai_compatible".to_owned(),
        probe_matches_context: false,
        model_discovered: false,
        ..start()
    })
    .is_ok());
    assert_eq!(
        message(CertificationStart {
            model_availability: "missing".to_owned(),
            ..start()
        }),
        "a model missing from the authoritative upstream inventory cannot be certified"
    );
    assert_eq!(
        message(CertificationStart {
            model_discovered: false,
            ..start()
        }),
        "native capability certification requires a discovered provider model"
    );
    assert_eq!(
        message(CertificationStart {
            reviewed_capabilities: 17,
            ..start()
        }),
        "review between 1 and 16 capability tuples before certification"
    );
    assert!(certification_run_exclusive(false).is_ok());
    assert!(matches!(
        certification_run_exclusive(true),
        Err(CatalogError::InUse)
    ));
}

#[test]
fn providers_in_use_are_not_disabled() {
    assert!(disable_provider_gate(false, false).is_ok());
    assert!(matches!(
        disable_provider_gate(true, false),
        Err(CatalogError::InUse)
    ));
    assert!(matches!(
        disable_provider_gate(false, true),
        Err(CatalogError::InUse)
    ));
    assert!(matches!(disable_refusal(false, false), CatalogError::NotFound));
    assert!(matches!(
        disable_refusal(true, false),
        CatalogError::PreconditionFailed
    ));
    assert!(matches!(disable_refusal(true, true), CatalogError::InUse));
}

#[test]
fn catalog_credential_versions_come_from_the_stored_maximum() {
    assert_eq!(catalog_credential_version_candidate(Some(4)).unwrap(), 4);
    assert!(matches!(catalog_credential_version_candidate(None), Err(CatalogError::NotFound)));
    assert!(matches!(
        catalog_credential_version_candidate(Some(-1)),
        Err(CatalogError::Invalid(m)) if m == "credential version overflow"
    ));
}

fn certification_result(operation: OperationKind, succeeded: bool, evidence: bool) -> CapabilityCertificationResult {
    CapabilityCertificationResult {
        operation,
        surface: Surface::OpenAi,
        mode: TransportMode::Unary,
        succeeded,
        evidence_kind: evidence.then(|| "live_request".to_owned()),
        error_code: None,
        detail: String::new(),
    }
}

#[test]
fn certification_runs_complete_with_counts_and_status() {
    let outcomes = vec![
        certification_result(OperationKind::Generation, true, true),
        certification_result(OperationKind::Embeddings, false, false),
    ];
    let done = certification_completion(false, &outcomes, "open_ai_compatible").unwrap();
    assert_eq!(done.certified_count, 1);
    assert_eq!(done.attempted_count, 2);
    assert_eq!(done.status, "partial");
    assert!(done.proves_connectivity);
    let none = certification_completion(false, &outcomes[1..], "open_ai_compatible").unwrap();
    assert_eq!(none.status, "failed");
    assert!(!none.proves_connectivity);
    let native = certification_completion(false, &outcomes[..1], "openai").unwrap();
    assert_eq!(native.status, "succeeded");
    assert!(!native.proves_connectivity);
    assert!(matches!(
        certification_completion(true, &outcomes, "openai"),
        Err(CatalogError::PreconditionFailed)
    ));
    let bare = vec![certification_result(OperationKind::Generation, true, false)];
    assert!(matches!(
        certification_completion(false, &bare, "openai"),
        Err(CatalogError::Invalid(m)) if m == "successful certification lacks evidence"
    ));
}
