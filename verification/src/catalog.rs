//! The provider catalog: discovery origins, certification results and the
//! reconciliation of discovered models against the stored inventory.
use vstd::prelude::*;
use vstd::string::*;

use crate::carried::Timestamp;
use crate::configuration::{
    check_model, model_defect, DiscoveredModelInput, CREDENTIAL_VERSION_OVERFLOW,
};
use crate::domain::{CapabilityTuple, OperationKind, Surface, TransportMode};
use crate::text::{str_eq, trim_str, trimmed};

verus! {

/// Why a catalog operation did not go through. Database and runtime
/// compilation failures are reported by the adapter.
#[derive(Debug)]
pub enum CatalogError {
    NotFound,
    PreconditionFailed,
    InUse,
    Invalid(String),
    ProviderRevisionDiffTooLarge { dimension: &'static str, maximum: usize },
    IdempotencyConflict,
    IdempotencyInProgress,
}

/// Who asked for a model discovery.
#[derive(Clone, Copy, Debug, Eq, PartialEq, Structural)]
pub enum ProviderModelDiscoveryOrigin {
    Manual,
    Upstream,
    Scheduled,
}

impl ProviderModelDiscoveryOrigin {
    pub fn as_str(self) -> (s: &'static str)
        ensures
            s@ == (match self {
                ProviderModelDiscoveryOrigin::Manual => "manual"@,
                ProviderModelDiscoveryOrigin::Upstream => "upstream"@,
                ProviderModelDiscoveryOrigin::Scheduled => "scheduled"@,
            }),
    {
        match self {
            ProviderModelDiscoveryOrigin::Manual => "manual",
            ProviderModelDiscoveryOrigin::Upstream => "upstream",
            ProviderModelDiscoveryOrigin::Scheduled => "scheduled",
        }
    }
}

/// Whether a discovery listed every model of the provider.
#[derive(Clone, Copy, Debug, Eq, PartialEq, Structural)]
pub enum ProviderModelDiscoveryCompleteness {
    Complete,
    Partial,
}

impl ProviderModelDiscoveryCompleteness {
    pub fn as_str(self) -> (s: &'static str)
        ensures
            s@ == (match self {
                ProviderModelDiscoveryCompleteness::Complete => "complete"@,
                ProviderModelDiscoveryCompleteness::Partial => "partial"@,
            }),
    {
        match self {
            ProviderModelDiscoveryCompleteness::Complete => "complete",
            ProviderModelDiscoveryCompleteness::Partial => "partial",
        }
    }

    pub fn is_complete(self) -> (b: bool)
        ensures
            b == (self is Complete),
    {
        matches!(self, ProviderModelDiscoveryCompleteness::Complete)
    }
}

pub open spec fn count_error_text(column: Seq<char>) -> Seq<char> {
    "stored provider "@ + column + " is outside the supported range"@
}

/// A stored count read back; a negative count is rejected with the column
/// named in the message.
pub fn catalog_count(value: i64, column: &str) -> (r: Result<u64, CatalogError>)
    ensures
        value >= 0 ==> (r matches Ok(v) && v == value),
        value < 0 ==> (r matches Err(CatalogError::Invalid(m)) && m@ == count_error_text(column@)),
{
    if value >= 0 {
        Ok(value as u64)
    } else {
        let mut message = String::from_str("stored provider ");
        message.append(column);
        message.append(" is outside the supported range");
        Err(CatalogError::Invalid(message))
    }
}

/// The reviewed outcome of certifying one capability tuple.
#[derive(Clone, Debug, Eq, PartialEq)]
pub struct CapabilityCertificationResult {
    pub operation: OperationKind,
    pub surface: Surface,
    pub mode: TransportMode,
    pub succeeded: bool,
    pub evidence_kind: Option<String>,
    pub error_code: Option<String>,
    pub detail: String,
}

pub const CERTIFICATION_COUNT_INVALID: &'static str = "certification requires 1-16 reviewed capability tuples";
pub const CERTIFICATION_EVIDENCE_INVALID: &'static str = "certification result evidence is invalid";
pub const CERTIFICATION_NOT_UNIQUE: &'static str = "certification capability tuples must be unique";

pub open spec fn result_tuple(o: CapabilityCertificationResult) -> CapabilityTuple {
    (o.operation, o.surface, o.mode)
}

/// Evidence is consistent when the detail and error code are short enough, a
/// success carries evidence and no error code, and a failure no evidence.
pub open spec fn evidence_bad(o: CapabilityCertificationResult) -> bool {
    ||| o.detail@.len() > 500
    ||| (o.error_code matches Some(c) && c@.len() > 100)
    ||| (o.succeeded && (o.evidence_kind is None || o.error_code is Some))
    ||| (!o.succeeded && o.evidence_kind is Some)
}

/// The first problem met when the results are checked in order: bad
/// evidence, or a tuple that an earlier result already covered.
pub open spec fn certification_scan(o: Seq<CapabilityCertificationResult>) -> Option<Seq<char>>
    decreases o.len(),
{
    if o.len() == 0 {
        None
    } else {
        match certification_scan(o.drop_last()) {
            Some(m) => Some(m),
            None => if evidence_bad(o.last()) {
                Some(CERTIFICATION_EVIDENCE_INVALID@)
            } else if exists|j: int| 0 <= j < o.len() - 1 && result_tuple(#[trigger] o[j]) == result_tuple(o.last()) {
                Some(CERTIFICATION_NOT_UNIQUE@)
            } else {
                None
            },
        }
    }
}

fn evidence_is_bad(o: &CapabilityCertificationResult) -> (b: bool)
    ensures
        b == evidence_bad(*o),
{
    let code_too_long = match &o.error_code {
        Some(c) => c.as_str().unicode_len() > 100,
        None => false,
    };
    o.detail.as_str().unicode_len() > 500 || code_too_long || (o.succeeded && (
    o.evidence_kind.is_none() || o.error_code.is_some())) || (!o.succeeded
        && o.evidence_kind.is_some())
}

fn same_tuple(a: CapabilityTuple, b: CapabilityTuple) -> (r: bool)
    ensures
        r == (a == b),
{
    a.0 == b.0 && a.1 == b.1 && a.2 == b.2
}

/// Checks the reviewed results of a certification run and returns their
/// capability tuples, which are distinct and in the order submitted.
pub fn certification_result_tuples(outcomes: &[CapabilityCertificationResult]) -> (r: Result<
    Vec<CapabilityTuple>,
    CatalogError,
>)
    ensures
        (outcomes@.len() == 0 || outcomes@.len() > 16) ==> (r matches Err(
            CatalogError::Invalid(m),
        ) && m@ == CERTIFICATION_COUNT_INVALID@),
        !(outcomes@.len() == 0 || outcomes@.len() > 16) ==> match certification_scan(outcomes@) {
            Some(m) => r matches Err(CatalogError::Invalid(msg)) && msg@ == m,
            None => r matches Ok(v) && v@ == outcomes@.map_values(|o| result_tuple(o)),
        },
        r matches Ok(v) ==> forall|i: int, j: int|
            0 <= i < j < v@.len() ==> v@[i] != v@[j],
{
    if outcomes.len() == 0 || outcomes.len() > 16 {
        return Err(CatalogError::Invalid(CERTIFICATION_COUNT_INVALID.to_string()));
    }
    let mut submitted: Vec<CapabilityTuple> = Vec::new();
    let mut i: usize = 0;
    assert(outcomes@.take(0) =~= Seq::<CapabilityCertificationResult>::empty());
    while i < outcomes.len()
        invariant
            i <= outcomes@.len(),
            !(outcomes@.len() == 0 || outcomes@.len() > 16),
            certification_scan(outcomes@.take(i as int)) is None,
            submitted@ == outcomes@.take(i as int).map_values(|o| result_tuple(o)),
            forall|a: int, b: int| 0 <= a < b < submitted@.len() ==> submitted@[a] != submitted@[b],
        decreases outcomes@.len() - i,
    {
        let o = &outcomes[i];
        let ghost prefix = outcomes@.take(i + 1);
        assert(prefix.drop_last() =~= outcomes@.take(i as int));
        assert(prefix.last() == outcomes@[i as int]);
        if evidence_is_bad(o) {
            assert(certification_scan(prefix) == Some(CERTIFICATION_EVIDENCE_INVALID@));
            assert(certification_scan(outcomes@) == Some(CERTIFICATION_EVIDENCE_INVALID@)) by {
                scan_extends(outcomes@, i + 1);
            }
            return Err(CatalogError::Invalid(CERTIFICATION_EVIDENCE_INVALID.to_string()));
        }
        let t = (o.operation, o.surface, o.mode);
        if contains_tuple(&submitted, t) {
            let ghost k = choose|k: int| 0 <= k < submitted@.len() && submitted@[k] == t;
            assert(result_tuple(prefix[k]) == result_tuple(prefix.last()));
            assert(certification_scan(prefix) == Some(CERTIFICATION_NOT_UNIQUE@));
            assert(certification_scan(outcomes@) == Some(CERTIFICATION_NOT_UNIQUE@)) by {
                scan_extends(outcomes@, i + 1);
            }
            return Err(CatalogError::Invalid(CERTIFICATION_NOT_UNIQUE.to_string()));
        }
        assert(!exists|j: int| 0 <= j < prefix.len() - 1 && result_tuple(#[trigger] prefix[j]) == result_tuple(prefix.last())) by {
            assert forall|j: int| 0 <= j < prefix.len() - 1 implies result_tuple(#[trigger] prefix[j]) != result_tuple(prefix.last()) by {
                assert(submitted@[j] == result_tuple(prefix[j]));
            }
        }
        submitted.push(t);
        assert(submitted@ =~= prefix.map_values(|o| result_tuple(o)));
        i = i + 1;
    }
    assert(outcomes@.take(outcomes@.len() as int) =~= outcomes@);
    Ok(submitted)
}

fn contains_tuple(v: &Vec<CapabilityTuple>, t: CapabilityTuple) -> (b: bool)
    ensures
        b == exists|k: int| 0 <= k < v@.len() && v@[k] == t,
{
    let mut k: usize = 0;
    while k < v.len()
        invariant
            k <= v@.len(),
            forall|j: int| 0 <= j < k ==> v@[j] != t,
        decreases v@.len() - k,
    {
        if same_tuple(v[k], t) {
            return true;
        }
        k = k + 1;
    }
    false
}

/// Once a prefix of the results has a problem, the whole sequence reports it.
proof fn scan_extends(o: Seq<CapabilityCertificationResult>, n: int)
    requires
        0 <= n <= o.len(),
        certification_scan(o.take(n)) is Some,
    ensures
        certification_scan(o) == certification_scan(o.take(n)),
    decreases o.len() - n,
{
    if n < o.len() {
        let next = o.take(n + 1);
        assert(next.drop_last() =~= o.take(n));
        scan_extends(o, n + 1);
    } else {
        assert(o.take(n) =~= o);
    }
}


/// A model row the catalog already holds for the provider.
#[derive(Clone, Debug)]
pub struct ExistingModel {
    pub id: uuid::Uuid,
    pub upstream_model: String,
    pub display_name: String,
    pub inventory_source: String,
    pub availability: String,
    pub consecutive_missing_runs: i32,
}

/// What the store does with one reported model.
#[derive(Clone, Debug)]
pub enum ObservedModelAction {
    /// A new model: insert it, disabled, with the discovery's source.
    Insert,
    /// A known model: refresh its name, source and sighting; a model that had
    /// gone missing gets its capability evidence cleared first.
    Refresh { model_id: uuid::Uuid, reappeared: bool },
}

/// A known model that a complete automatic discovery did not report.
#[derive(Clone, Debug)]
pub struct MissingModelUpdate {
    pub model_id: uuid::Uuid,
    pub consecutive_missing_runs: i32,
    /// The second consecutive miss: the model becomes missing now and its
    /// draft capability evidence is cleared.
    pub newly_missing: bool,
}

/// Every write a discovery makes, decided before the first one.
pub struct DiscoveryPlan {
    /// The inventory source written for reported models.
    pub source: &'static str,
    /// One action per reported model, in the order reported.
    pub observed: Vec<ObservedModelAction>,
    pub missing: Vec<MissingModelUpdate>,
    pub added_model_count: usize,
    pub renamed_model_count: usize,
    pub newly_missing_model_count: usize,
    /// Whether the provider's ETag changes.
    pub catalog_changed: bool,
    /// Whether the provider returns to draft for review.
    pub stage_draft: bool,
}

pub const MANUAL_DISCOVERY_EMPTY: &'static str = "manual model declaration requires at least one model";
pub const MODEL_NAMES_NOT_UNIQUE: &'static str = "model names must be unique";

/// The index of the last stored row with this model name: the row a keyed
/// lookup of the stored inventory finds.
pub open spec fn last_match(existing: Seq<ExistingModel>, name: Seq<char>) -> Option<int>
    decreases existing.len(),
{
    if existing.len() == 0 {
        None
    } else if existing.last().upstream_model@ == name {
        Some(existing.len() - 1)
    } else {
        last_match(existing.drop_last(), name)
    }
}

pub open spec fn reported_name(m: DiscoveredModelInput) -> Seq<char> {
    trimmed(m.upstream_model@)
}

/// The first problem met when the reported models are checked in order: an
/// invalid model, or a name that an earlier model already used.
pub open spec fn discovery_scan(models: Seq<DiscoveredModelInput>) -> Option<Seq<char>>
    decreases models.len(),
{
    if models.len() == 0 {
        None
    } else {
        match discovery_scan(models.drop_last()) {
            Some(m) => Some(m),
            None => match model_defect(models.last()) {
                Some(m) => Some(m),
                None => if exists|j: int|
                    0 <= j < models.len() - 1 && reported_name(#[trigger] models[j]) == reported_name(
                        models.last(),
                    ) {
                    Some(MODEL_NAMES_NOT_UNIQUE@)
                } else {
                    None
                },
            },
        }
    }
}

pub open spec fn is_automatic(origin: ProviderModelDiscoveryOrigin) -> bool {
    !(origin is Manual)
}

pub open spec fn observed_action_spec(existing: Seq<ExistingModel>, m: DiscoveredModelInput) -> ObservedModelAction {
    match last_match(existing, reported_name(m)) {
        None => ObservedModelAction::Insert,
        Some(i) => ObservedModelAction::Refresh {
            model_id: existing[i].id,
            reappeared: existing[i].availability@ == "missing"@,
        },
    }
}

pub open spec fn observed_renamed(existing: Seq<ExistingModel>, m: DiscoveredModelInput) -> bool {
    match last_match(existing, reported_name(m)) {
        None => false,
        Some(i) => existing[i].display_name@ != trimmed(m.display_name@),
    }
}

pub open spec fn observed_reappears(existing: Seq<ExistingModel>, m: DiscoveredModelInput) -> bool {
    match last_match(existing, reported_name(m)) {
        None => false,
        Some(i) => existing[i].availability@ == "missing"@,
    }
}

/// An automatic discovery takes over rows not already sourced upstream; a
/// manual one converts legacy rows.
pub open spec fn source_changes(automatic: bool, source: Seq<char>) -> bool {
    (automatic && source != "upstream"@) || (!automatic && source == "legacy"@)
}

/// Whether refreshing or inserting a reported model changes the catalog.
pub open spec fn observed_changes(existing: Seq<ExistingModel>, m: DiscoveredModelInput, automatic: bool) -> bool {
    match last_match(existing, reported_name(m)) {
        None => true,
        Some(i) => existing[i].display_name@ != trimmed(m.display_name@) || source_changes(
            automatic,
            existing[i].inventory_source@,
        ) || existing[i].availability@ == "missing"@,
    }
}

pub open spec fn count_inserts(existing: Seq<ExistingModel>, models: Seq<DiscoveredModelInput>) -> nat
    decreases models.len(),
{
    if models.len() == 0 {
        0
    } else {
        count_inserts(existing, models.drop_last()) + if last_match(existing, reported_name(models.last())) is None {
            1nat
        } else {
            0nat
        }
    }
}

pub open spec fn count_renamed(existing: Seq<ExistingModel>, models: Seq<DiscoveredModelInput>) -> nat
    decreases models.len(),
{
    if models.len() == 0 {
        0
    } else {
        count_renamed(existing, models.drop_last()) + if observed_renamed(existing, models.last()) {
            1nat
        } else {
            0nat
        }
    }
}

/// Sources whose rows a complete automatic discovery tracks for absence.
pub open spec fn absence_tracked(source: Seq<char>) -> bool {
    source == "upstream"@ || source == "configured"@ || source == "legacy"@
}

pub open spec fn reported(models: Seq<DiscoveredModelInput>, name: Seq<char>) -> bool {
    exists|k: int| 0 <= k < models.len() && reported_name(#[trigger] models[k]) == name
}

/// A stored row that a complete automatic discovery counts as absent.
pub open spec fn absent_candidate(
    existing: Seq<ExistingModel>,
    models: Seq<DiscoveredModelInput>,
    i: int,
) -> bool {
    &&& last_match(existing, existing[i].upstream_model@) == Some(i)
    &&& absence_tracked(existing[i].inventory_source@)
    &&& !reported(models, existing[i].upstream_model@)
}

pub open spec fn next_missing_runs(runs: i32) -> i32 {
    if runs == i32::MAX {
        runs
    } else {
        (runs + 1) as i32
    }
}

pub open spec fn missing_update_spec(e: ExistingModel) -> MissingModelUpdate {
    MissingModelUpdate {
        model_id: e.id,
        consecutive_missing_runs: next_missing_runs(e.consecutive_missing_runs),
        newly_missing: e.availability@ != "missing"@ && next_missing_runs(
            e.consecutive_missing_runs,
        ) >= 2,
    }
}

/// The absence updates for the first `n` stored rows.
pub open spec fn missing_updates_upto(
    existing: Seq<ExistingModel>,
    models: Seq<DiscoveredModelInput>,
    n: int,
) -> Seq<MissingModelUpdate>
    decreases n,
{
    if n <= 0 {
        Seq::empty()
    } else {
        let prev = missing_updates_upto(existing, models, n - 1);
        if absent_candidate(existing, models, n - 1) {
            prev.push(missing_update_spec(existing[n - 1]))
        } else {
            prev
        }
    }
}

pub open spec fn count_newly_missing(updates: Seq<MissingModelUpdate>) -> nat
    decreases updates.len(),
{
    if updates.len() == 0 {
        0
    } else {
        count_newly_missing(updates.drop_last()) + if updates.last().newly_missing {
            1nat
        } else {
            0nat
        }
    }
}

/// Whether the absence of stored row `i` changes the catalog.
pub open spec fn absence_changes(existing: Seq<ExistingModel>, models: Seq<DiscoveredModelInput>, i: int) -> bool {
    absent_candidate(existing, models, i) && (existing[i].inventory_source@ != "upstream"@
        || missing_update_spec(existing[i]).newly_missing)
}

/// The complete meaning of a valid discovery.
pub open spec fn discovery_plan_ok(
    existing: Seq<ExistingModel>,
    models: Seq<DiscoveredModelInput>,
    origin: ProviderModelDiscoveryOrigin,
    completeness: ProviderModelDiscoveryCompleteness,
    plan: DiscoveryPlan,
) -> bool {
    let automatic = is_automatic(origin);
    let track_absence = automatic && completeness is Complete;
    &&& plan.source@ == if automatic { "upstream"@ } else { "manual"@ }
    &&& plan.observed@ == models.map_values(|m| observed_action_spec(existing, m))
    &&& plan.missing@ == if track_absence {
        missing_updates_upto(existing, models, existing.len() as int)
    } else {
        Seq::empty()
    }
    &&& plan.added_model_count == count_inserts(existing, models)
    &&& plan.renamed_model_count == count_renamed(existing, models)
    &&& plan.newly_missing_model_count == count_newly_missing(plan.missing@)
    &&& plan.catalog_changed == ((exists|k: int|
        0 <= k < models.len() && observed_changes(existing, #[trigger] models[k], automatic))
        || (track_absence && exists|i: int|
        0 <= i < existing.len() && #[trigger] absence_changes(existing, models, i)))
    &&& plan.stage_draft == ((exists|k: int|
        0 <= k < models.len() && observed_reappears(existing, #[trigger] models[k])) || (
    track_absence && exists|i: int|
        0 <= i < existing.len() && absent_candidate(existing, models, i)
            && #[trigger] missing_update_spec(existing[i]).newly_missing))
}

fn find_last_existing(existing: &Vec<ExistingModel>, name: &str) -> (r: Option<usize>)
    ensures
        match last_match(existing@, name@) {
            Some(i) => r matches Some(j) && j == i,
            None => r is None,
        },
{
    let mut n = existing.len();
    assert(existing@.take(n as int) =~= existing@);
    while n > 0
        invariant
            n <= existing@.len(),
            last_match(existing@, name@) == last_match(existing@.take(n as int), name@),
        decreases n,
    {
        let ghost prefix = existing@.take(n as int);
        assert(prefix.last() == existing@[n - 1]);
        if str_eq(existing[n - 1].upstream_model.as_str(), name) {
            return Some(n - 1);
        }
        assert(prefix.drop_last() =~= existing@.take(n - 1));
        n = n - 1;
    }
    None
}

proof fn last_match_in_range(existing: Seq<ExistingModel>, name: Seq<char>)
    ensures
        last_match(existing, name) matches Some(i) ==> 0 <= i < existing.len() && existing[i].upstream_model@ == name,
    decreases existing.len(),
{
    if existing.len() > 0 {
        last_match_in_range(existing.drop_last(), name);
    }
}

fn names_contain(names: &Vec<&str>, name: &str) -> (b: bool)
    ensures
        b == exists|k: int| 0 <= k < names@.len() && names@[k]@ == name@,
{
    let mut k: usize = 0;
    while k < names.len()
        invariant
            k <= names@.len(),
            forall|j: int| 0 <= j < k ==> names@[j]@ != name@,
        decreases names@.len() - k,
    {
        if str_eq(names[k], name) {
            return true;
        }
        k = k + 1;
    }
    false
}

proof fn discovery_scan_extends(models: Seq<DiscoveredModelInput>, n: int)
    requires
        0 <= n <= models.len(),
        discovery_scan(models.take(n)) is Some,
    ensures
        discovery_scan(models) == discovery_scan(models.take(n)),
    decreases models.len() - n,
{
    if n < models.len() {
        assert(models.take(n + 1).drop_last() =~= models.take(n));
        discovery_scan_extends(models, n + 1);
    } else {
        assert(models.take(n) =~= models);
    }
}

/// Checks reported models in order: each must be valid and its trimmed
/// name unused by an earlier one. Gives the trimmed names.
pub(crate) fn scan_discovery_models<'a>(models: &'a [DiscoveredModelInput]) -> (r: Result<
    Vec<&'a str>,
    String,
>)
    ensures
        match discovery_scan(models@) {
            Some(m) => r matches Err(msg) && msg@ == m,
            None => (r matches Ok(names) && names@.len() == models@.len() && forall|k: int|
                0 <= k < models@.len() ==> #[trigger] names@[k]@ == reported_name(models@[k])),
        },
{
    let mut names: Vec<&'a str> = Vec::new();
    let mut i: usize = 0;
    assert(models@.take(0) =~= Seq::<DiscoveredModelInput>::empty());
    while i < models.len()
        invariant
            i <= models@.len(),
            discovery_scan(models@.take(i as int)) is None,
            names@.len() == i,
            forall|k: int| 0 <= k < i ==> #[trigger] names@[k]@ == reported_name(models@[k]),
        decreases models@.len() - i,
    {
        let model = &models[i];
        let ghost prefix = models@.take(i + 1);
        assert(prefix.drop_last() =~= models@.take(i as int));
        assert(prefix.last() == models@[i as int]);
        if let Some(message) = check_model(model) {
            assert(discovery_scan(prefix) == model_defect(models@[i as int]));
            proof { discovery_scan_extends(models@, i + 1); }
            return Err(message);
        }
        let name = trim_str(model.upstream_model.as_str());
        if names_contain(&names, name) {
            let ghost k = choose|k: int| 0 <= k < names@.len() && names@[k]@ == name@;
            assert(reported_name(prefix[k]) == reported_name(prefix.last()));
            assert(discovery_scan(prefix) == Some(MODEL_NAMES_NOT_UNIQUE@));
            proof { discovery_scan_extends(models@, i + 1); }
            return Err(MODEL_NAMES_NOT_UNIQUE.to_string());
        }
        assert(!exists|j: int|
            0 <= j < prefix.len() - 1 && reported_name(#[trigger] prefix[j]) == reported_name(prefix.last())) by {
            assert forall|j: int| 0 <= j < prefix.len() - 1 implies reported_name(#[trigger] prefix[j]) != reported_name(prefix.last()) by {
                assert(names@[j]@ == reported_name(models@[j]));
            }
        }
        names.push(name);
        i = i + 1;
    }
    assert(models@.take(models@.len() as int) =~= models@);
    Ok(names)
}

fn validate_discovery_input<'a>(models: &'a [DiscoveredModelInput], origin: ProviderModelDiscoveryOrigin) -> (r: Result<Vec<&'a str>, CatalogError>)
    ensures
        (origin is Manual && models@.len() == 0) ==> (r matches Err(CatalogError::Invalid(m)) && m@ == MANUAL_DISCOVERY_EMPTY@),
        !(origin is Manual && models@.len() == 0) ==> match discovery_scan(models@) {
            Some(m) => r matches Err(CatalogError::Invalid(msg)) && msg@ == m,
            None => (r matches Ok(names) && names@.len() == models@.len() && forall|k: int|
                0 <= k < models@.len() ==> #[trigger] names@[k]@ == reported_name(models@[k])),
        },
{
    if matches!(origin, ProviderModelDiscoveryOrigin::Manual) && models.len() == 0 {
        return Err(CatalogError::Invalid(MANUAL_DISCOVERY_EMPTY.to_string()));
    }
    match scan_discovery_models(models) {
        Ok(names) => Ok(names),
        Err(message) => Err(CatalogError::Invalid(message)),
    }
}


/// The action for one reported model, whether it is new, renames, revives
/// or changes the source of a stored row.
fn observe_model(
    existing: &Vec<ExistingModel>,
    model: &DiscoveredModelInput,
    name: &str,
    automatic: bool,
) -> (r: (ObservedModelAction, bool, bool, bool, bool))
    requires
        name@ == reported_name(*model),
    ensures
        r.0 == observed_action_spec(existing@, *model),
        r.1 == (last_match(existing@, reported_name(*model)) is None),
        r.2 == observed_renamed(existing@, *model),
        r.3 == observed_reappears(existing@, *model),
        (r.1 || r.2 || r.3 || r.4) == observed_changes(existing@, *model, automatic),
{
    proof { last_match_in_range(existing@, name@); }
    match find_last_existing(existing, name) {
        None => (ObservedModelAction::Insert, true, false, false, false),
        Some(j) => {
            let ghost lm = last_match(existing@, reported_name(*model));
            assert(lm == Some(j as int));
            let e = &existing[j];
            assert(*e == existing@[j as int]);
            let display = trim_str(model.display_name.as_str());
            assert(display@ == trimmed(model.display_name@));
            let was_renamed = !str_eq(e.display_name.as_str(), display);
            assert(was_renamed == (existing@[j as int].display_name@ != trimmed(model.display_name@)));
            let reappeared = str_eq(e.availability.as_str(), "missing");
            let source_changed = source_changes_exec(automatic, e.inventory_source.as_str());
            (
                ObservedModelAction::Refresh { model_id: e.id, reappeared },
                false,
                was_renamed,
                reappeared,
                source_changed,
            )
        },
    }
}

fn source_changes_exec(automatic: bool, source: &str) -> (b: bool)
    ensures
        b == source_changes(automatic, source@),
{
    (automatic && !str_eq(source, "upstream")) || (!automatic && str_eq(source, "legacy"))
}

/// The absence update of stored row `i`, when it is a candidate.
fn absence_of(
    existing: &Vec<ExistingModel>,
    models: &[DiscoveredModelInput],
    names: &Vec<&str>,
    i: usize,
) -> (r: Option<MissingModelUpdate>)
    requires
        i < existing@.len(),
        names@.len() == models@.len(),
        forall|k: int| 0 <= k < models@.len() ==> #[trigger] names@[k]@ == reported_name(models@[k]),
    ensures
        absent_candidate(existing@, models@, i as int) ==> r == Some(missing_update_spec(existing@[i as int])),
        !absent_candidate(existing@, models@, i as int) ==> r is None,
{
    let e = &existing[i];
    assert(*e == existing@[i as int]);
    proof { last_match_in_range(existing@, existing@[i as int].upstream_model@); }
    let is_last = match find_last_existing(existing, e.upstream_model.as_str()) {
        Some(j) => j == i,
        None => false,
    };
    assert(is_last == (last_match(existing@, existing@[i as int].upstream_model@) == Some(i as int)));
    let src = e.inventory_source.as_str();
    let absence_source = str_eq(src, "upstream") || str_eq(src, "configured") || str_eq(src, "legacy");
    let seen = names_contain(names, e.upstream_model.as_str());
    assert(seen == reported(models@, existing@[i as int].upstream_model@)) by {
        if seen {
            let k = choose|k: int| 0 <= k < names@.len() && names@[k]@ == e.upstream_model@;
            assert(reported_name(models@[k]) == e.upstream_model@);
        }
        if reported(models@, existing@[i as int].upstream_model@) {
            let k = choose|k: int| 0 <= k < models@.len() && reported_name(#[trigger] models@[k]) == e.upstream_model@;
            assert(names@[k]@ == e.upstream_model@);
        }
    }
    if is_last && absence_source && !seen {
        let runs = e.consecutive_missing_runs;
        let next = if runs == i32::MAX {
            runs
        } else {
            runs + 1
        };
        let newly = !str_eq(e.availability.as_str(), "missing") && next >= 2;
        Some(MissingModelUpdate { model_id: e.id, consecutive_missing_runs: next, newly_missing: newly })
    } else {
        None
    }
}

/// Decides every write of a model discovery: which reported models are
/// inserted or refreshed, which stored rows a complete automatic discovery
/// counts as absent, and whether the provider's catalog changed and must be
/// reviewed again.
pub fn plan_model_discovery(
    existing: &Vec<ExistingModel>,
    models: &[DiscoveredModelInput],
    origin: ProviderModelDiscoveryOrigin,
    completeness: ProviderModelDiscoveryCompleteness,
) -> (r: Result<DiscoveryPlan, CatalogError>)
    ensures
        (origin is Manual && models@.len() == 0) ==> (r matches Err(CatalogError::Invalid(m)) && m@
            == MANUAL_DISCOVERY_EMPTY@),
        !(origin is Manual && models@.len() == 0) ==> match discovery_scan(models@) {
            Some(m) => r matches Err(CatalogError::Invalid(msg)) && msg@ == m,
            None => r matches Ok(plan) && discovery_plan_ok(
                existing@,
                models@,
                origin,
                completeness,
                plan,
            ),
        },
{
    let names = validate_discovery_input(models, origin)?;
    let automatic = !matches!(origin, ProviderModelDiscoveryOrigin::Manual);
    let source: &'static str = if automatic {
        "upstream"
    } else {
        "manual"
    };
    let mut observed: Vec<ObservedModelAction> = Vec::new();
    let mut added: usize = 0;
    let mut renamed: usize = 0;
    let mut changed = false;
    let mut stage = false;
    let mut i: usize = 0;
    assert(models@.take(0) =~= Seq::<DiscoveredModelInput>::empty());
    while i < models.len()
        invariant
            i <= models@.len(),
            automatic == is_automatic(origin),
            names@.len() == models@.len(),
            forall|k: int| 0 <= k < models@.len() ==> #[trigger] names@[k]@ == reported_name(models@[k]),
            observed@ == models@.take(i as int).map_values(|m| observed_action_spec(existing@, m)),
            added == count_inserts(existing@, models@.take(i as int)),
            renamed == count_renamed(existing@, models@.take(i as int)),
            added <= i,
            renamed <= i,
            changed == exists|k: int| 0 <= k < i && observed_changes(existing@, #[trigger] models@[k], automatic),
            stage == exists|k: int| 0 <= k < i && observed_reappears(existing@, #[trigger] models@[k]),
        decreases models@.len() - i,
    {
        let model = &models[i];
        let ghost prefix = models@.take(i + 1);
        assert(prefix.drop_last() =~= models@.take(i as int));
        assert(prefix.last() == models@[i as int]);
        let name = names[i];
        assert(name@ == reported_name(models@[i as int]));
        let (action, inserted, was_renamed, reappeared, source_changed) = observe_model(
            existing,
            model,
            name,
            automatic,
        );
        observed.push(action);
        if inserted {
            added = added + 1;
        }
        if was_renamed {
            renamed = renamed + 1;
        }
        let this_changed = inserted || was_renamed || reappeared || source_changed;
        assert(this_changed == observed_changes(existing@, models@[i as int], automatic));
        assert(reappeared == observed_reappears(existing@, models@[i as int]));
        let ghost changed_before = changed;
        let ghost stage_before = stage;
        changed = changed || this_changed;
        stage = stage || reappeared;
        assert(observed@ =~= prefix.map_values(|m| observed_action_spec(existing@, m)));
        assert(changed == exists|k: int| 0 <= k < i + 1 && observed_changes(existing@, #[trigger] models@[k], automatic)) by {
            if this_changed {
                assert(observed_changes(existing@, models@[i as int], automatic));
            }
            if changed_before {
                let k = choose|k: int| 0 <= k < i && observed_changes(existing@, #[trigger] models@[k], automatic);
                assert(observed_changes(existing@, models@[k], automatic));
            }
        }
        assert(stage == exists|k: int| 0 <= k < i + 1 && observed_reappears(existing@, #[trigger] models@[k])) by {
            if reappeared {
                assert(observed_reappears(existing@, models@[i as int]));
            }
            if stage_before {
                let k = choose|k: int| 0 <= k < i && observed_reappears(existing@, #[trigger] models@[k]);
                assert(observed_reappears(existing@, models@[k]));
            }
        }
        i = i + 1;
    }
    assert(models@.take(models@.len() as int) =~= models@);
    let track_absence = automatic && completeness.is_complete();
    let mut missing: Vec<MissingModelUpdate> = Vec::new();
    let mut newly_missing: usize = 0;
    let mut absence_changed = false;
    let mut absence_stage = false;
    if track_absence {
        let mut i: usize = 0;
        while i < existing.len()
            invariant
                i <= existing@.len(),
                names@.len() == models@.len(),
                forall|k: int| 0 <= k < models@.len() ==> #[trigger] names@[k]@ == reported_name(models@[k]),
                missing@ == missing_updates_upto(existing@, models@, i as int),
                newly_missing == count_newly_missing(missing@),
                newly_missing <= missing@.len(),
                missing@.len() <= i,
                absence_changed == exists|j: int| 0 <= j < i && #[trigger] absence_changes(existing@, models@, j),
                absence_stage == exists|j: int|
                    0 <= j < i && absent_candidate(existing@, models@, j)
                        && #[trigger] missing_update_spec(existing@[j]).newly_missing,
            decreases existing@.len() - i,
        {
            let ghost before = missing@;
            match absence_of(existing, models, &names, i) {
                Some(update) => {
                    let newly = update.newly_missing;
                    let upstream = str_eq(existing[i].inventory_source.as_str(), "upstream");
                    missing.push(update);
                    assert(missing@.drop_last() =~= before);
                    if newly {
                        newly_missing = newly_missing + 1;
                        absence_stage = true;
                    }
                    if newly || !upstream {
                        absence_changed = true;
                    }
                },
                None => {},
            }
            assert(absence_changed == exists|j: int| 0 <= j < i + 1 && #[trigger] absence_changes(existing@, models@, j)) by {
                if absence_changes(existing@, models@, i as int) {
                    assert(absence_changed);
                }
            }
            assert(absence_stage == exists|j: int|
                0 <= j < i + 1 && absent_candidate(existing@, models@, j)
                    && #[trigger] missing_update_spec(existing@[j]).newly_missing) by {
                if absent_candidate(existing@, models@, i as int) && missing_update_spec(existing@[i as int]).newly_missing {
                    assert(absence_stage);
                }
            }
            i = i + 1;
        }
    }
    Ok(
        DiscoveryPlan {
            source,
            observed,
            missing,
            added_model_count: added,
            renamed_model_count: renamed,
            newly_missing_model_count: newly_missing,
            catalog_changed: changed || absence_changed,
            stage_draft: stage || absence_stage,
        },
    )
}

proof fn count_inserts_bounded(existing: Seq<ExistingModel>, models: Seq<DiscoveredModelInput>)
    ensures
        count_inserts(existing, models) <= models.len(),
        count_renamed(existing, models) <= models.len(),
    decreases models.len(),
{
    if models.len() > 0 {
        count_inserts_bounded(existing, models.drop_last());
    }
}

/// A discovery plan reports one action per model, counts no more new or
/// renamed models than it was given, and only a complete automatic
/// discovery counts stored models as missing.
pub proof fn discovery_plan_facts(
    existing: Seq<ExistingModel>,
    models: Seq<DiscoveredModelInput>,
    origin: ProviderModelDiscoveryOrigin,
    completeness: ProviderModelDiscoveryCompleteness,
    plan: DiscoveryPlan,
)
    requires
        discovery_plan_ok(existing, models, origin, completeness, plan),
    ensures
        plan.observed@.len() == models.len(),
        plan.added_model_count <= models.len(),
        plan.renamed_model_count <= models.len(),
        (origin is Manual || completeness is Partial) ==> plan.missing@.len() == 0
            && plan.newly_missing_model_count == 0,
{
    count_inserts_bounded(existing, models);
}

/// Every absence update of the first `n` stored rows belongs to an absent
/// stored row of that prefix.
proof fn missing_updates_come_from_rows(
    existing: Seq<ExistingModel>,
    models: Seq<DiscoveredModelInput>,
    n: int,
)
    requires
        0 <= n <= existing.len(),
    ensures
        forall|k: int|
            0 <= k < missing_updates_upto(existing, models, n).len() ==> exists|i: int|
                0 <= i < n && absent_candidate(existing, models, i)
                    && #[trigger] missing_updates_upto(existing, models, n)[k]
                    == missing_update_spec(existing[i]),
    decreases n,
{
    if n > 0 {
        missing_updates_come_from_rows(existing, models, n - 1);
        let prev = missing_updates_upto(existing, models, n - 1);
        let cur = missing_updates_upto(existing, models, n);
        if absent_candidate(existing, models, n - 1) {
            assert(cur == prev.push(missing_update_spec(existing[n - 1])));
        } else {
            assert(cur == prev);
        }
        assert forall|k: int| 0 <= k < cur.len() implies exists|i: int|
            0 <= i < n && absent_candidate(existing, models, i) && #[trigger] cur[k]
                == missing_update_spec(existing[i]) by {
            if k < prev.len() {
                assert(cur[k] == prev[k]);
                let i = choose|i: int|
                    0 <= i < n - 1 && absent_candidate(existing, models, i) && #[trigger] prev[k]
                        == missing_update_spec(existing[i]);
                assert(0 <= i < n && absent_candidate(existing, models, i) && cur[k]
                    == missing_update_spec(existing[i]));
            } else {
                assert(cur[k] == missing_update_spec(existing[n - 1]));
                assert(absent_candidate(existing, models, n - 1));
            }
        }
    }
}

/// A stored model is counted missing only on its second consecutive absence.
/// Each absence update belongs to a stored model the discovery did not
/// report: its miss count goes up by one (it stops at `i32::MAX`), and it
/// becomes newly missing exactly when it was not missing yet and had missed
/// at least one run before. A first absence therefore neither marks a model
/// missing nor sends the provider back to draft.
pub proof fn missing_after_two_absences(
    existing: Seq<ExistingModel>,
    models: Seq<DiscoveredModelInput>,
    origin: ProviderModelDiscoveryOrigin,
    completeness: ProviderModelDiscoveryCompleteness,
    plan: DiscoveryPlan,
)
    requires
        discovery_plan_ok(existing, models, origin, completeness, plan),
    ensures
        forall|k: int|
            0 <= k < plan.missing@.len() ==> exists|i: int|
                0 <= i < existing.len() && (#[trigger] plan.missing@[k]).model_id == existing[i].id
                    && !reported(models, existing[i].upstream_model@) && (
                existing[i].consecutive_missing_runs < i32::MAX
                    ==> plan.missing@[k].consecutive_missing_runs
                    == existing[i].consecutive_missing_runs + 1) && plan.missing@[k].newly_missing
                    == (existing[i].availability@ != "missing"@
                    && existing[i].consecutive_missing_runs >= 1),
        forall|k: int|
            0 <= k < plan.missing@.len() && (#[trigger] plan.missing@[k]).newly_missing
                ==> plan.missing@[k].consecutive_missing_runs >= 2,
        plan.stage_draft ==> (exists|m: int|
            0 <= m < models.len() && observed_reappears(existing, #[trigger] models[m])) || (exists|
            i: int|
            0 <= i < existing.len() && absent_candidate(existing, models, i)
                && #[trigger] existing[i].consecutive_missing_runs >= 1
                && existing[i].availability@ != "missing"@),
{
    missing_updates_come_from_rows(existing, models, existing.len() as int);
    if plan.stage_draft && !(exists|m: int|
        0 <= m < models.len() && observed_reappears(existing, #[trigger] models[m])) {
        let i = choose|i: int|
            0 <= i < existing.len() && absent_candidate(existing, models, i)
                && #[trigger] missing_update_spec(existing[i]).newly_missing;
        assert(existing[i].consecutive_missing_runs >= 1);
    }
}

/// A certification run accepts results only while it is running.
pub fn certification_run_open(status: &str) -> (r: Result<(), CatalogError>)
    ensures
        status@ == "running"@ ==> r is Ok,
        status@ != "running"@ ==> r matches Err(CatalogError::InUse),
{
    if str_eq(status, "running") {
        Ok(())
    } else {
        Err(CatalogError::InUse)
    }
}

/// A run's results are superseded when its lease ran out, the provider left
/// draft, the certification context or model review moved on, the model is
/// no longer available, or its capabilities are not the ones certified.
pub fn certification_run_superseded(
    lease_expired: bool,
    provider_state: &str,
    context_matches: bool,
    review_matches: bool,
    availability: &str,
    tuples_match: bool,
) -> (b: bool)
    ensures
        b == (lease_expired || provider_state@ != "draft"@ || !context_matches || !review_matches
            || availability@ != "available"@ || !tuples_match),
{
    lease_expired || !str_eq(provider_state, "draft") || !context_matches || !review_matches
        || !str_eq(availability, "available") || !tuples_match
}

/// The final status of a certification run: every tuple certified, none,
/// or some.
pub fn certification_run_status(certified: usize, attempted: usize) -> (s: &'static str)
    ensures
        certified == attempted ==> s@ == "succeeded"@,
        certified != attempted && certified == 0 ==> s@ == "failed"@,
        certified != attempted && certified != 0 ==> s@ == "partial"@,
{
    if certified == attempted {
        "succeeded"
    } else if certified == 0 {
        "failed"
    } else {
        "partial"
    }
}

/// Whether a run proves the provider's connectivity: a compatible endpoint
/// that certified at least one tuple served a live request.
pub fn certification_proves_connectivity(kind: &str, certified: usize) -> (b: bool)
    ensures
        b == (kind@ == "open_ai_compatible"@ && certified > 0),
{
    str_eq(kind, "open_ai_compatible") && certified > 0
}

pub const CERTIFICATION_EVIDENCE_MISSING: &'static str = "successful certification lacks evidence";

/// How many results of a run report success.
pub open spec fn succeeded_count(o: Seq<CapabilityCertificationResult>) -> nat
    decreases o.len(),
{
    if o.len() == 0 {
        0
    } else {
        succeeded_count(o.drop_last()) + if o.last().succeeded {
            1nat
        } else {
            0nat
        }
    }
}

/// A result reports success without naming its evidence.
pub open spec fn success_without_evidence(o: Seq<CapabilityCertificationResult>) -> bool {
    exists|i: int| 0 <= i < o.len() && (#[trigger] o[i]).succeeded && o[i].evidence_kind is None
}

/// The status text of a run that certified `certified` of `attempted` tuples.
pub open spec fn run_status_text(certified: nat, attempted: nat) -> Seq<char> {
    if certified == attempted {
        "succeeded"@
    } else if certified == 0 {
        "failed"@
    } else {
        "partial"@
    }
}

/// How a certification run that was not superseded is completed.
#[derive(Clone, Copy, Debug)]
pub struct CertificationCompletion {
    pub certified_count: usize,
    pub attempted_count: usize,
    pub status: &'static str,
    pub proves_connectivity: bool,
}

/// Completes a certification run: a superseded run's results are kept but
/// not applied; otherwise every successful result is certified, which needs
/// its evidence, and the run's counts, status and connectivity proof follow.
pub fn certification_completion(
    superseded: bool,
    outcomes: &[CapabilityCertificationResult],
    provider_kind: &str,
) -> (r: Result<CertificationCompletion, CatalogError>)
    ensures
        superseded ==> r matches Err(CatalogError::PreconditionFailed),
        !superseded && success_without_evidence(outcomes@) ==> (r matches Err(
            CatalogError::Invalid(m),
        ) && m@ == CERTIFICATION_EVIDENCE_MISSING@),
        !superseded && !success_without_evidence(outcomes@) ==> (r matches Ok(c)
            && c.certified_count == succeeded_count(outcomes@) && c.attempted_count
            == outcomes@.len() && c.status@ == run_status_text(
            succeeded_count(outcomes@),
            outcomes@.len(),
        ) && c.proves_connectivity == (provider_kind@ == "open_ai_compatible"@
            && succeeded_count(outcomes@) > 0)),
{
    if superseded {
        return Err(CatalogError::PreconditionFailed);
    }
    let mut certified: usize = 0;
    let mut i: usize = 0;
    while i < outcomes.len()
        invariant
            !superseded,
            i <= outcomes@.len(),
            certified == succeeded_count(outcomes@.take(i as int)),
            certified <= i,
            forall|k: int|
                0 <= k < i ==> !((#[trigger] outcomes@[k]).succeeded && outcomes@[k].evidence_kind is None),
        decreases outcomes@.len() - i,
    {
        assert(outcomes@.take(i + 1).drop_last() =~= outcomes@.take(i as int));
        if outcomes[i].succeeded {
            if outcomes[i].evidence_kind.is_none() {
                assert(outcomes@[i as int].succeeded && outcomes@[i as int].evidence_kind is None);
                return Err(CatalogError::Invalid(CERTIFICATION_EVIDENCE_MISSING.to_string()));
            }
            certified = certified + 1;
        }
        i = i + 1;
    }
    assert(outcomes@.take(outcomes@.len() as int) =~= outcomes@);
    Ok(
        CertificationCompletion {
            certified_count: certified,
            attempted_count: outcomes.len(),
            status: certification_run_status(certified, outcomes.len()),
            proves_connectivity: certification_proves_connectivity(provider_kind, certified),
        },
    )
}

pub const NATIVE_PROBE_CONTEXT_REQUIRED: &'static str = "native capability certification requires a successful credentialed probe of the current transport and credential context";
pub const MODEL_UNAVAILABLE_FOR_CERTIFICATION: &'static str = "a model missing from the authoritative upstream inventory cannot be certified";
pub const NATIVE_MODEL_NOT_DISCOVERED: &'static str = "native capability certification requires a discovered provider model";
pub const CERTIFICATION_REVIEW_COUNT: &'static str = "review between 1 and 16 capability tuples before certification";

/// What starting a certification run reads of the provider and model.
#[derive(Clone, Debug)]
pub struct CertificationStart {
    pub etag_matches: bool,
    pub provider_state: String,
    pub provider_kind: String,
    /// The last probe succeeded for the provider's current certification
    /// context.
    pub probe_matches_context: bool,
    pub model_availability: String,
    pub model_discovered: bool,
    pub reviewed_capabilities: usize,
}

/// The message of the first content rule a certification start breaks, once
/// the ETag matches and the provider is a draft.
pub open spec fn certification_start_defect(c: CertificationStart) -> Option<Seq<char>> {
    let native = c.provider_kind@ != "open_ai_compatible"@;
    if native && !c.probe_matches_context {
        Some(NATIVE_PROBE_CONTEXT_REQUIRED@)
    } else if c.model_availability@ != "available"@ {
        Some(MODEL_UNAVAILABLE_FOR_CERTIFICATION@)
    } else if native && !c.model_discovered {
        Some(NATIVE_MODEL_NOT_DISCOVERED@)
    } else if c.reviewed_capabilities == 0 || c.reviewed_capabilities > 16 {
        Some(CERTIFICATION_REVIEW_COUNT@)
    } else {
        None
    }
}

/// Whether a certification run may start: the expected ETag, a draft, fresh
/// probe evidence and a discovered model for native connectors, an
/// available model and 1 to 16 reviewed tuples.
pub fn certification_start_check(c: &CertificationStart) -> (r: Result<(), CatalogError>)
    ensures
        !c.etag_matches ==> r matches Err(CatalogError::PreconditionFailed),
        c.etag_matches && c.provider_state@ != "draft"@ ==> r matches Err(CatalogError::InUse),
        c.etag_matches && c.provider_state@ == "draft"@ ==> match certification_start_defect(*c) {
            Some(m) => r matches Err(CatalogError::Invalid(msg)) && msg@ == m,
            None => r is Ok,
        },
{
    if !c.etag_matches {
        return Err(CatalogError::PreconditionFailed);
    }
    if !str_eq(c.provider_state.as_str(), "draft") {
        return Err(CatalogError::InUse);
    }
    let native = !str_eq(c.provider_kind.as_str(), "open_ai_compatible");
    if native && !c.probe_matches_context {
        return Err(CatalogError::Invalid(NATIVE_PROBE_CONTEXT_REQUIRED.to_string()));
    }
    if !str_eq(c.model_availability.as_str(), "available") {
        return Err(CatalogError::Invalid(MODEL_UNAVAILABLE_FOR_CERTIFICATION.to_string()));
    }
    if native && !c.model_discovered {
        return Err(CatalogError::Invalid(NATIVE_MODEL_NOT_DISCOVERED.to_string()));
    }
    if c.reviewed_capabilities == 0 || c.reviewed_capabilities > 16 {
        return Err(CatalogError::Invalid(CERTIFICATION_REVIEW_COUNT.to_string()));
    }
    Ok(())
}

/// Only one run per model, context and review may be in flight.
pub fn certification_run_exclusive(already_running: bool) -> (r: Result<(), CatalogError>)
    ensures
        already_running ==> r matches Err(CatalogError::InUse),
        !already_running ==> r is Ok,
{
    if already_running {
        Err(CatalogError::InUse)
    } else {
        Ok(())
    }
}

/// Whether a provider may be disabled: no live media job and no route
/// depends on it.
pub fn disable_provider_gate(has_live_media_jobs: bool, referenced_by_route: bool) -> (r: Result<
    (),
    CatalogError,
>)
    ensures
        (has_live_media_jobs || referenced_by_route) ==> r matches Err(CatalogError::InUse),
        !(has_live_media_jobs || referenced_by_route) ==> r is Ok,
{
    if has_live_media_jobs || referenced_by_route {
        Err(CatalogError::InUse)
    } else {
        Ok(())
    }
}

/// Why the conditional disable matched no row: the provider is gone, its
/// ETag moved on, or it is already disabled.
pub fn disable_refusal(exists: bool, etag_matches: bool) -> (e: CatalogError)
    ensures
        !exists ==> e is NotFound,
        exists && !etag_matches ==> e is PreconditionFailed,
        exists && etag_matches ==> e is InUse,
{
    if !exists {
        CatalogError::NotFound
    } else if !etag_matches {
        CatalogError::PreconditionFailed
    } else {
        CatalogError::InUse
    }
}

/// The next credential version of a provider in the catalog: no row means
/// the provider does not exist, and a value that is not a version means the
/// count overflowed.
pub fn catalog_credential_version_candidate(next_version: Option<i32>) -> (r: Result<
    u32,
    CatalogError,
>)
    ensures
        match next_version {
            None => r matches Err(CatalogError::NotFound),
            Some(v) => if v >= 0 {
                r matches Ok(c) && c == v
            } else {
                r matches Err(CatalogError::Invalid(m)) && m@ == CREDENTIAL_VERSION_OVERFLOW@
            },
        },
{
    match next_version {
        None => Err(CatalogError::NotFound),
        Some(v) => {
            if v < 0 {
                Err(CatalogError::Invalid(CREDENTIAL_VERSION_OVERFLOW.to_string()))
            } else {
                Ok(v as u32)
            }
        },
    }
}

} // verus!
