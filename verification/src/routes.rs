//! Route revisions as they are read back: their stored rows, operations and
//! targets assembled into records.
use vstd::prelude::*;

use crate::carried::{same_uuid, Timestamp};
use crate::configuration::ConfigurationError;
use crate::domain::{operation_from_text, OperationKind};

verus! {

/// A target of a route draft or revision, with the provider model it names.
#[derive(Clone, Debug)]
pub struct RouteTargetRecord {
    pub id: uuid::Uuid,
    pub routing_id: uuid::Uuid,
    pub provider_model_id: uuid::Uuid,
    pub provider_id: uuid::Uuid,
    pub provider_name: String,
    pub upstream_model: String,
    pub priority: i32,
    pub weight: i32,
    pub timeout_ms: i32,
    pub position: i32,
}

/// A stored target row, joined with the provider model it names.
#[derive(Clone, Debug)]
pub struct RouteTargetRow {
    pub id: uuid::Uuid,
    pub routing_id: uuid::Uuid,
    pub provider_model_id: uuid::Uuid,
    pub provider_id: uuid::Uuid,
    pub provider_name: String,
    pub provider_model: String,
    pub priority: i32,
    pub weight: i32,
    pub timeout_ms: i32,
    pub position: i32,
}

/// The record a target row reads as.
pub open spec fn target_record(row: RouteTargetRow) -> RouteTargetRecord {
    RouteTargetRecord {
        id: row.id,
        routing_id: row.routing_id,
        provider_model_id: row.provider_model_id,
        provider_id: row.provider_id,
        provider_name: row.provider_name,
        upstream_model: row.provider_model,
        priority: row.priority,
        weight: row.weight,
        timeout_ms: row.timeout_ms,
        position: row.position,
    }
}

/// The targets of a draft or revision, in the order of their rows.
pub fn target_rows(rows: Vec<RouteTargetRow>) -> (r: Result<Vec<RouteTargetRecord>, ConfigurationError>)
    ensures
        r matches Ok(targets) && targets@ == rows@.map_values(|row: RouteTargetRow| target_record(row)),
{
    let ghost view = rows@;
    let mut out: Vec<RouteTargetRecord> = Vec::new();
    for row in it: rows.into_iter()
        invariant
            it.seq() == view,
            out.len() == it.index(),
            forall|k: int| 0 <= k < out.len() ==> #[trigger] out[k] == target_record(view[k]),
    {
        out.push(
            RouteTargetRecord {
                id: row.id,
                routing_id: row.routing_id,
                provider_model_id: row.provider_model_id,
                provider_id: row.provider_id,
                provider_name: row.provider_name,
                upstream_model: row.provider_model,
                priority: row.priority,
                weight: row.weight,
                timeout_ms: row.timeout_ms,
                position: row.position,
            },
        );
    }
    assert(out@ =~= view.map_values(|row: RouteTargetRow| target_record(row)));
    Ok(out)
}

/// A stored route revision, without its operations and targets.
#[derive(Clone, Debug)]
pub struct RouteRevisionRow {
    pub id: uuid::Uuid,
    pub routing_id: uuid::Uuid,
    pub route_id: uuid::Uuid,
    pub revision: i32,
    pub slug: String,
    pub overall_timeout_ms: i32,
    pub max_attempts: i16,
    pub source_draft_id: uuid::Uuid,
    pub activated_by: uuid::Uuid,
    pub activated_at: Timestamp,
}

/// An operation row of a route revision, its name still as text.
#[derive(Clone, Debug)]
pub struct RevisionOperationRow {
    pub route_revision_id: uuid::Uuid,
    pub operation: String,
}

/// A target row of a route revision, with the revision it belongs to.
#[derive(Clone, Debug)]
pub struct RevisionTargetRow {
    pub route_revision_id: uuid::Uuid,
    pub target: RouteTargetRow,
}

/// A route revision with its operations and targets.
#[derive(Clone, Debug)]
pub struct RouteRevisionRecord {
    pub id: uuid::Uuid,
    pub routing_id: uuid::Uuid,
    pub route_id: uuid::Uuid,
    pub revision: i32,
    pub slug: String,
    pub overall_timeout_ms: i32,
    pub max_attempts: i16,
    pub source_draft_id: uuid::Uuid,
    pub activated_by: uuid::Uuid,
    pub activated_at: Timestamp,
    pub operations: Vec<OperationKind>,
    pub targets: Vec<RouteTargetRecord>,
}

/// Every stored operation row names an operation the gateway knows.
pub open spec fn revision_operations_known(rows: Seq<RevisionOperationRow>) -> bool {
    forall|k: int| 0 <= k < rows.len() ==> (#[trigger] operation_from_text(rows[k].operation@)) is Some
}

/// The operations of the rows that belong to `key`, in row order.
pub open spec fn owned_operations(rows: Seq<RevisionOperationRow>, key: uuid::Uuid) -> Seq<
    OperationKind,
>
    decreases rows.len(),
{
    if rows.len() == 0 {
        Seq::empty()
    } else {
        let earlier = owned_operations(rows.drop_last(), key);
        if rows.last().route_revision_id == key {
            match operation_from_text(rows.last().operation@) {
                Some(o) => earlier.push(o),
                None => earlier,
            }
        } else {
            earlier
        }
    }
}

/// The targets of the rows that belong to `key`, in row order.
pub open spec fn owned_targets(rows: Seq<RevisionTargetRow>, key: uuid::Uuid) -> Seq<
    RouteTargetRecord,
>
    decreases rows.len(),
{
    if rows.len() == 0 {
        Seq::empty()
    } else {
        let earlier = owned_targets(rows.drop_last(), key);
        if rows.last().route_revision_id == key {
            earlier.push(target_record(rows.last().target))
        } else {
            earlier
        }
    }
}

/// The revision at `i` repeats an identifier listed before it.
pub open spec fn listed_before(rows: Seq<RouteRevisionRow>, i: int) -> bool {
    exists|j: int| 0 <= j < i && rows[j].id == rows[i].id
}

/// The record the revision row at `i` reads as. Its operations and targets
/// are those that point to it, unless an earlier row with the same
/// identifier has taken them already.
pub open spec fn revision_record_is(
    record: RouteRevisionRecord,
    rows: Seq<RouteRevisionRow>,
    i: int,
    operation_rows: Seq<RevisionOperationRow>,
    target_rows: Seq<RevisionTargetRow>,
) -> bool {
    let row = rows[i];
    &&& record.id == row.id
    &&& record.routing_id == row.routing_id
    &&& record.route_id == row.route_id
    &&& record.revision == row.revision
    &&& record.slug == row.slug
    &&& record.overall_timeout_ms == row.overall_timeout_ms
    &&& record.max_attempts == row.max_attempts
    &&& record.source_draft_id == row.source_draft_id
    &&& record.activated_by == row.activated_by
    &&& record.activated_at == row.activated_at
    &&& record.operations@ == if listed_before(rows, i) {
        Seq::empty()
    } else {
        owned_operations(operation_rows, row.id)
    }
    &&& record.targets@ == if listed_before(rows, i) {
        Seq::empty()
    } else {
        owned_targets(target_rows, row.id)
    }
}

/// Whether the identifier at `n` of `keys` is listed before it.
fn repeats_earlier(keys: &Vec<uuid::Uuid>, n: usize) -> (b: bool)
    requires
        n < keys.len(),
    ensures
        b == exists|j: int| 0 <= j < n && keys@[j] == keys@[n as int],
{
    let mut j: usize = 0;
    while j < n
        invariant
            0 <= j <= n < keys.len(),
            forall|jj: int| 0 <= jj < j ==> keys@[jj] != keys@[n as int],
        decreases n - j,
    {
        if same_uuid(&keys[j], &keys[n]) {
            assert(0 <= j < n && keys@[j as int] == keys@[n as int]);
            return true;
        }
        j = j + 1;
    }
    false
}

/// The parsed operations that belong to `key`, in row order.
fn operations_of(
    parsed: &Vec<(uuid::Uuid, OperationKind)>,
    key: &uuid::Uuid,
    Ghost(rows): Ghost<Seq<RevisionOperationRow>>,
) -> (ops: Vec<OperationKind>)
    requires
        parsed.len() == rows.len(),
        forall|k: int|
            0 <= k < rows.len() ==> (#[trigger] parsed[k]).0 == rows[k].route_revision_id
                && operation_from_text(rows[k].operation@) == Some(parsed[k].1),
    ensures
        ops@ == owned_operations(rows, *key),
{
    let mut ops: Vec<OperationKind> = Vec::new();
    let mut k: usize = 0;
    while k < parsed.len()
        invariant
            0 <= k <= parsed.len(),
            parsed.len() == rows.len(),
            forall|kk: int|
                0 <= kk < rows.len() ==> (#[trigger] parsed[kk]).0 == rows[kk].route_revision_id
                    && operation_from_text(rows[kk].operation@) == Some(parsed[kk].1),
            ops@ == owned_operations(rows.take(k as int), *key),
        decreases parsed.len() - k,
    {
        proof {
            assert(rows.take(k + 1).drop_last() =~= rows.take(k as int));
        }
        if same_uuid(&parsed[k].0, key) {
            ops.push(parsed[k].1);
        }
        k = k + 1;
    }
    proof {
        assert(rows.take(parsed.len() as int) =~= rows);
    }
    ops
}

/// The targets that belong to `key`, in row order.
fn targets_of(rows: &Vec<RevisionTargetRow>, key: &uuid::Uuid) -> (targets: Vec<RouteTargetRecord>)
    ensures
        targets@ == owned_targets(rows@, *key),
{
    let mut targets: Vec<RouteTargetRecord> = Vec::new();
    let mut k: usize = 0;
    while k < rows.len()
        invariant
            0 <= k <= rows.len(),
            targets@ == owned_targets(rows@.take(k as int), *key),
        decreases rows.len() - k,
    {
        proof {
            assert(rows@.take(k + 1).drop_last() =~= rows@.take(k as int));
        }
        if same_uuid(&rows[k].route_revision_id, key) {
            let t = &rows[k].target;
            targets.push(
                RouteTargetRecord {
                    id: t.id,
                    routing_id: t.routing_id,
                    provider_model_id: t.provider_model_id,
                    provider_id: t.provider_id,
                    provider_name: t.provider_name.clone(),
                    upstream_model: t.provider_model.clone(),
                    priority: t.priority,
                    weight: t.weight,
                    timeout_ms: t.timeout_ms,
                    position: t.position,
                },
            );
        }
        k = k + 1;
    }
    proof {
        assert(rows@.take(rows.len() as int) =~= rows@);
    }
    targets
}

pub const ROUTE_OPERATION: &'static str = "route operation";

/// Assembles route revisions from their stored rows: each revision with the
/// operations and targets that point to it, in row order. An unknown stored
/// operation means the rows are corrupt.
pub fn route_revision_records(
    rows: Vec<RouteRevisionRow>,
    operation_rows: Vec<RevisionOperationRow>,
    target_rows: Vec<RevisionTargetRow>,
) -> (r: Result<Vec<RouteRevisionRecord>, ConfigurationError>)
    ensures
        !revision_operations_known(operation_rows@) ==> (r matches Err(
            ConfigurationError::InvalidStoredValue(w),
        ) && w == ROUTE_OPERATION),
        revision_operations_known(operation_rows@) ==> (r matches Ok(records) && records.len()
            == rows.len() && forall|i: int|
            0 <= i < rows.len() ==> revision_record_is(
                #[trigger] records[i],
                rows@,
                i,
                operation_rows@,
                target_rows@,
            )),
{
    let mut parsed: Vec<(uuid::Uuid, OperationKind)> = Vec::new();
    let mut k: usize = 0;
    while k < operation_rows.len()
        invariant
            0 <= k <= operation_rows.len(),
            parsed.len() == k,
            forall|kk: int|
                0 <= kk < k ==> (#[trigger] parsed[kk]).0 == operation_rows[kk].route_revision_id
                    && operation_from_text(operation_rows[kk].operation@) == Some(parsed[kk].1),
        decreases operation_rows.len() - k,
    {
        match OperationKind::parse(operation_rows[k].operation.as_str()) {
            Some(o) => {
                parsed.push((operation_rows[k].route_revision_id, o));
            },
            None => {
                assert(operation_from_text(operation_rows@[k as int].operation@) is None);
                return Err(ConfigurationError::InvalidStoredValue(ROUTE_OPERATION));
            },
        }
        k = k + 1;
    }
    assert forall|kk: int| 0 <= kk < operation_rows.len() implies (#[trigger] operation_from_text(
        operation_rows@[kk].operation@,
    )) is Some by {
        assert(operation_from_text(operation_rows[kk].operation@) == Some(parsed[kk].1));
    }
    let mut keys: Vec<uuid::Uuid> = Vec::new();
    let mut i: usize = 0;
    while i < rows.len()
        invariant
            0 <= i <= rows.len(),
            keys.len() == i,
            forall|kk: int| 0 <= kk < i ==> #[trigger] keys@[kk] == rows@[kk].id,
        decreases rows.len() - i,
    {
        keys.push(rows[i].id);
        i = i + 1;
    }
    let ghost row_view = rows@;
    let mut out: Vec<RouteRevisionRecord> = Vec::new();
    let mut n: usize = 0;
    for row in it: rows.into_iter()
        invariant
            it.seq() == row_view,
            n == it.index(),
            out.len() == n,
            keys.len() == row_view.len(),
            forall|kk: int| 0 <= kk < keys.len() ==> #[trigger] keys@[kk] == row_view[kk].id,
            parsed.len() == operation_rows.len(),
            forall|kk: int|
                0 <= kk < operation_rows.len() ==> (#[trigger] parsed[kk]).0
                    == operation_rows[kk].route_revision_id && operation_from_text(
                    operation_rows[kk].operation@,
                ) == Some(parsed[kk].1),
            forall|kk: int|
                0 <= kk < n ==> revision_record_is(
                    #[trigger] out[kk],
                    row_view,
                    kk,
                    operation_rows@,
                    target_rows@,
                ),
    {
        let repeated = repeats_earlier(&keys, n);
        proof {
            assert(repeated == listed_before(row_view, n as int)) by {
                if repeated {
                    let j = choose|j: int| 0 <= j < n && keys@[j] == keys@[n as int];
                    assert(row_view[j].id == row_view[n as int].id);
                }
                if listed_before(row_view, n as int) {
                    let j = choose|j: int| 0 <= j < n && row_view[j].id == row_view[n as int].id;
                    assert(keys@[j] == keys@[n as int]);
                }
            }
        }
        let operations = if repeated {
            Vec::new()
        } else {
            operations_of(&parsed, &row.id, Ghost(operation_rows@))
        };
        let targets = if repeated {
            Vec::new()
        } else {
            targets_of(&target_rows, &row.id)
        };
        out.push(
            RouteRevisionRecord {
                id: row.id,
                routing_id: row.routing_id,
                route_id: row.route_id,
                revision: row.revision,
                slug: row.slug,
                overall_timeout_ms: row.overall_timeout_ms,
                max_attempts: row.max_attempts,
                source_draft_id: row.source_draft_id,
                activated_by: row.activated_by,
                activated_at: row.activated_at,
                operations,
                targets,
            },
        );
        n = n + 1;
    }
    Ok(out)
}

} // verus!
