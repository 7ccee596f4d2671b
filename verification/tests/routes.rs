use olp_storage::carried::Timestamp;
use olp_storage::configuration::ConfigurationError;
use olp_storage::domain::OperationKind;
use olp_storage::routes::{
    route_revision_records, target_rows, RevisionOperationRow, RevisionTargetRow,
    RouteRevisionRow, RouteTargetRow,
};
use uuid::Uuid;

fn id(n: u128) -> Uuid {
    Uuid::from_u128(n)
}

fn target_row(target: u128, model: &str, position: i32) -> RouteTargetRow {
    RouteTargetRow {
        id: id(target),
        routing_id: id(900 + target),
        provider_model_id: id(800 + target),
        provider_id: id(700),
        provider_name: "primary".to_owned(),
        provider_model: model.to_owned(),
        priority: 1,
        weight: 10,
        timeout_ms: 30_000,
        position,
    }
}

fn revision_row(revision_id: u128, revision: i32) -> RouteRevisionRow {
    RouteRevisionRow {
        id: id(revision_id),
        routing_id: id(50),
        route_id: id(60),
        revision,
        slug: "assistant".to_owned(),
        overall_timeout_ms: 60_000,
        max_attempts: 2,
        source_draft_id: id(70),
        activated_by: id(80),
        activated_at: Timestamp { micros: 1_700_000_000_000_000 },
    }
}

fn operation_row(revision_id: u128, operation: &str) -> RevisionOperationRow {
    RevisionOperationRow { route_revision_id: id(revision_id), operation: operation.to_owned() }
}

#[test]
fn target_rows_keep_their_order_and_fields() {
    let targets = target_rows(vec![target_row(1, "gpt-a", 0), target_row(2, "gpt-b", 1)]).unwrap();
    assert_eq!(targets.len(), 2);
    assert_eq!(targets[0].id, id(1));
    assert_eq!(targets[0].upstream_model, "gpt-a");
    assert_eq!(targets[1].provider_model_id, id(802));
    assert_eq!(targets[1].position, 1);
}

#[test]
fn route_revisions_collect_the_operations_and_targets_pointing_to_them() {
    let records = route_revision_records(
        vec![revision_row(1, 1), revision_row(2, 2)],
        vec![
            operation_row(1, "generation"),
            operation_row(2, "embeddings"),
            operation_row(1, "token_count"),
        ],
        vec![
            RevisionTargetRow { route_revision_id: id(2), target: target_row(10, "m2", 0) },
            RevisionTargetRow { route_revision_id: id(1), target: target_row(11, "m1", 0) },
            RevisionTargetRow { route_revision_id: id(1), target: target_row(12, "m1b", 1) },
        ],
    )
    .unwrap();
    assert_eq!(records.len(), 2);
    assert_eq!(records[0].revision, 1);
    assert_eq!(
        records[0].operations,
        vec![OperationKind::Generation, OperationKind::TokenCount]
    );
    assert_eq!(records[1].operations, vec![OperationKind::Embeddings]);
    assert_eq!(
        records[0].targets.iter().map(|t| t.id).collect::<Vec<_>>(),
        vec![id(11), id(12)]
    );
    assert_eq!(records[1].targets[0].upstream_model, "m2");
    assert_eq!(records[1].activated_at, Timestamp { micros: 1_700_000_000_000_000 });
}

#[test]
fn a_revision_without_rows_of_its_own_has_none() {
    let records = route_revision_records(vec![revision_row(3, 7)], Vec::new(), Vec::new()).unwrap();
    assert!(records[0].operations.is_empty());
    assert!(records[0].targets.is_empty());
}

#[test]
fn an_unknown_stored_route_operation_is_corruption() {
    let result = route_revision_records(
        vec![revision_row(1, 1)],
        vec![operation_row(1, "generation"), operation_row(9, "teleport")],
        Vec::new(),
    );
    assert!(matches!(
        result,
        Err(ConfigurationError::InvalidStoredValue(w)) if w == "route operation"
    ));
}
