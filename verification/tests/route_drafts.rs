use olp_storage::configuration::ConfigurationError;
use olp_storage::domain::OperationKind;
use olp_storage::route_drafts::{
    new_route_draft_check, revalidation_verdict, route_activation_gate, route_target_columns,
    route_target_shape, route_validation_gate, simulation_seed_check, stored_operations,
    RevalidationFindings,
};

fn invalid_route<T: std::fmt::Debug>(result: Result<T, ConfigurationError>) -> String {
    match result {
        Err(ConfigurationError::InvalidRoute(message)) => message,
        other => panic!("expected an invalid route, got {other:?}"),
    }
}

#[test]
fn new_route_drafts_are_shaped_before_their_targets_are_read() {
    assert_eq!(new_route_draft_check(1, 2, 30_000, 2).unwrap(), (30_000, 2));
    assert_eq!(
        invalid_route(new_route_draft_check(0, 1, 1, 1)),
        "at least one operation is required"
    );
    assert_eq!(
        invalid_route(new_route_draft_check(1, 0, 1, 1)),
        "at least one target is required"
    );
    assert_eq!(
        invalid_route(new_route_draft_check(1, 1, 1, 2)),
        "max_attempts must be between one and the target count"
    );
    assert_eq!(
        invalid_route(new_route_draft_check(1, 1, 1, 0)),
        "max_attempts must be between one and the target count"
    );
    assert_eq!(
        invalid_route(new_route_draft_check(1, 1, i32::MAX as u64 + 1, 1)),
        "overall timeout is too large"
    );
    assert_eq!(
        invalid_route(new_route_draft_check(1, 1, 0, 1)),
        "overall timeout must be positive"
    );
    assert_eq!(
        invalid_route(new_route_draft_check(1, 40_000, 1_000, 33_000)),
        "max attempts is too large"
    );
}

#[test]
fn route_targets_fit_the_deadline_and_columns() {
    assert!(route_target_shape(1, 500, 1_000).is_ok());
    assert_eq!(
        invalid_route(route_target_shape(0, 500, 1_000)),
        "target weight/timeout is invalid"
    );
    assert_eq!(
        invalid_route(route_target_shape(1, 1_001, 1_000)),
        "target weight/timeout is invalid"
    );
    assert_eq!(route_target_columns(3, 500, 2).unwrap(), (3, 500, 2));
    assert_eq!(
        invalid_route(route_target_columns(u32::MAX, 500, 0)),
        "target weight is too large"
    );
    assert_eq!(
        invalid_route(route_target_columns(1, u64::MAX, 0)),
        "target timeout is too large"
    );
}

#[test]
fn validation_and_activation_gates() {
    assert!(route_validation_gate(true, true).is_ok());
    assert!(matches!(
        route_validation_gate(false, true),
        Err(ConfigurationError::RouteNotFound)
    ));
    assert!(matches!(
        route_validation_gate(true, false),
        Err(ConfigurationError::PreconditionFailed)
    ));
    assert!(route_activation_gate(true, "validated").is_ok());
    assert!(matches!(
        route_activation_gate(true, "draft"),
        Err(ConfigurationError::RouteNotValidated)
    ));
    assert!(matches!(
        route_activation_gate(false, "validated"),
        Err(ConfigurationError::PreconditionFailed)
    ));
}

fn clean() -> RevalidationFindings {
    RevalidationFindings {
        target_count: 2,
        unavailable_target: None,
        uncovered_operation: None,
        media_job_without_target: None,
        media_job_without_lifecycle: None,
    }
}

#[test]
fn revalidation_reports_the_first_finding() {
    assert!(revalidation_verdict(&clean()).is_ok());
    assert_eq!(
        invalid_route(revalidation_verdict(&RevalidationFindings {
            target_count: 0,
            ..clean()
        })),
        "the draft must contain at least one target"
    );
    assert_eq!(
        invalid_route(revalidation_verdict(&RevalidationFindings {
            unavailable_target: Some("primary/gpt".to_owned()),
            uncovered_operation: Some("embeddings".to_owned()),
            ..clean()
        })),
        "target provider/model is not in an activated provider revision: primary/gpt"
    );
    assert_eq!(
        invalid_route(revalidation_verdict(&RevalidationFindings {
            uncovered_operation: Some("embeddings".to_owned()),
            ..clean()
        })),
        "no activated target has a certified capability for route operation embeddings"
    );
    assert_eq!(
        invalid_route(revalidation_verdict(&RevalidationFindings {
            media_job_without_target: Some(0x0000_0000_0000_0000_0000_0000_0000_00ff),
            ..clean()
        })),
        "active media job 00000000-0000-0000-0000-0000000000ff requires its exact provider/model target"
    );
    assert_eq!(
        invalid_route(revalidation_verdict(&RevalidationFindings {
            media_job_without_lifecycle: Some("job/video_get".to_owned()),
            ..clean()
        })),
        "active media job requires an exact certified lifecycle capability: job/video_get"
    );
}

#[test]
fn simulation_seeds_are_bounded() {
    assert!(simulation_seed_check("seed").is_ok());
    assert!(simulation_seed_check(&"s".repeat(256)).is_ok());
    assert!(simulation_seed_check("").is_err());
    assert!(matches!(
        simulation_seed_check(&"é".repeat(129)),
        Err(ConfigurationError::Invalid(message)) if message == "simulation seed must contain 1-256 bytes"
    ));
}

#[test]
fn stored_route_operations_read_back_or_report_corruption() {
    let values = vec!["generation".to_owned(), "model_list".to_owned()];
    assert_eq!(
        stored_operations(&values, "route draft operation").unwrap(),
        vec![OperationKind::Generation, OperationKind::ModelList]
    );
    assert!(stored_operations(&Vec::new(), "route draft operation").unwrap().is_empty());
    let corrupt = vec!["generation".to_owned(), "chat".to_owned()];
    assert!(matches!(
        stored_operations(&corrupt, "route revision operation"),
        Err(ConfigurationError::InvalidStoredValue(w)) if w == "route revision operation"
    ));
}
