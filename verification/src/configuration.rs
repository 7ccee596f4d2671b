//! Provider, model and route configuration: the checks applied to drafts
//! before they are stored, and the conversions of stored values.
use vstd::prelude::*;
use vstd::string::*;

use crate::carried::Timestamp;
use crate::domain::{CapabilitySource, CapabilityTuple, OperationKind, Surface, TransportMode};
use crate::text::{trim_str, trimmed};

verus! {

/// Why a configuration operation did not go through. Database and runtime
/// compilation failures are reported by the adapter.
#[derive(Debug)]
pub enum ConfigurationError {
    InvalidCredential,
    ProviderNotFound,
    ProviderIncomplete,
    PreconditionFailed,
    NotFound,
    InUse,
    Invalid(String),
    ProviderRevisionDiffTooLarge { dimension: &'static str, maximum: usize },
    RouteNotFound,
    RouteNotValidated,
    InvalidRoute(String),
    /// A stored value the library does not recognise, named by what it holds.
    InvalidStoredValue(&'static str),
    IdempotencyConflict,
    IdempotencyInProgress,
}

/// Maximum number of models loaded from either provider revision for a diff.
pub const PROVIDER_REVISION_DIFF_MODEL_LIMIT: usize = 2_000;
/// Maximum number of capability tuples loaded from either provider revision
/// for a diff.
pub const PROVIDER_REVISION_DIFF_CAPABILITY_LIMIT: usize = 32_000;

/// A credential version as the database stores it: a positive `i32`.
pub fn database_version(version: u32) -> (r: Result<i32, ConfigurationError>)
    ensures
        (0 < version <= i32::MAX) ==> (r matches Ok(v) && v == version),
        !(0 < version <= i32::MAX) ==> r matches Err(ConfigurationError::InvalidCredential),
{
    if version > 0 && version <= i32::MAX as u32 {
        Ok(version as i32)
    } else {
        Err(ConfigurationError::InvalidCredential)
    }
}

/// A stored credential version read back: it must be positive.
pub fn stored_version(version: i32) -> (r: Result<u32, ConfigurationError>)
    ensures
        version > 0 ==> (r matches Ok(v) && v == version),
        version <= 0 ==> r matches Err(ConfigurationError::InvalidCredential),
{
    if version > 0 {
        Ok(version as u32)
    } else {
        Err(ConfigurationError::InvalidCredential)
    }
}

pub const CREDENTIAL_VERSION_OVERFLOW: &'static str = "credential version overflow";

/// The next credential version of a provider, from the stored maximum plus
/// one: no row means the provider does not exist, and a value that is not a
/// version means the count overflowed.
pub fn credential_version_candidate(next_version: Option<i32>) -> (r: Result<u32, ConfigurationError>)
    ensures
        match next_version {
            None => r matches Err(ConfigurationError::NotFound),
            Some(v) => if v >= 0 {
                r matches Ok(c) && c == v
            } else {
                r matches Err(ConfigurationError::Invalid(m)) && m@ == CREDENTIAL_VERSION_OVERFLOW@
            },
        },
{
    match next_version {
        None => Err(ConfigurationError::NotFound),
        Some(v) => {
            if v < 0 {
                Err(ConfigurationError::Invalid(CREDENTIAL_VERSION_OVERFLOW.to_string()))
            } else {
                Ok(v as u32)
            }
        },
    }
}

/// A credential version survives the trip to the database and back.
pub proof fn credential_version_round_trip(version: u32)
    requires
        0 < version <= i32::MAX,
    ensures
        (version as i32) > 0,
        (version as i32) as u32 == version,
{
}

pub const PAGE_SIZE_INVALID: &'static str = "page size must be between 1 and 100";

/// A requested page size from 1 to 100.
pub fn checked_limit(limit: i64) -> (r: Result<i64, ConfigurationError>)
    ensures
        (1 <= limit <= 100) ==> (r matches Ok(v) && v == limit),
        !(1 <= limit <= 100) ==> (r matches Err(ConfigurationError::Invalid(m)) && m@
            == PAGE_SIZE_INVALID@),
{
    if 1 <= limit && limit <= 100 {
        Ok(limit)
    } else {
        Err(ConfigurationError::Invalid(PAGE_SIZE_INVALID.to_string()))
    }
}

/// A revision may be diffed only while its size stays within the ceiling.
pub fn enforce_provider_revision_diff_limit(
    actual: usize,
    dimension: &'static str,
    maximum: usize,
) -> (r: Result<(), ConfigurationError>)
    ensures
        actual <= maximum ==> r is Ok,
        actual > maximum ==> (r matches Err(
            ConfigurationError::ProviderRevisionDiffTooLarge { dimension: d, maximum: m },
        ) && d == dimension && m == maximum),
{
    if actual <= maximum {
        Ok(())
    } else {
        Err(ConfigurationError::ProviderRevisionDiffTooLarge { dimension, maximum })
    }
}

/// The editable settings of a provider draft.
#[derive(Clone, Debug)]
pub struct ProviderSettingsUpdate {
    pub name: String,
    pub endpoint: Option<String>,
    pub cloud_region: Option<String>,
    pub cloud_project: Option<String>,
    pub deployment: Option<String>,
    pub api_version: Option<String>,
}

pub const PROVIDER_NAME_INVALID: &'static str = "provider name must contain 1-100 characters";
pub const PROVIDER_SETTING_TOO_LONG: &'static str = "provider setting is too long";

pub open spec fn setting_too_long(s: Option<String>) -> bool {
    s matches Some(v) && v@.len() > 2_000
}

fn check_setting(s: &Option<String>) -> (too_long: bool)
    ensures
        too_long == setting_too_long(*s),
{
    match s {
        Some(v) => v.as_str().unicode_len() > 2_000,
        None => false,
    }
}

/// A provider name of 1 to 100 characters that is not blank, and settings of
/// at most 2000 characters each.
pub fn validate_provider_update(update: &ProviderSettingsUpdate) -> (r: Result<(), ConfigurationError>)
    ensures
        (trimmed(update.name@).len() == 0 || update.name@.len() > 100) ==> (r matches Err(
            ConfigurationError::Invalid(m),
        ) && m@ == PROVIDER_NAME_INVALID@),
        !(trimmed(update.name@).len() == 0 || update.name@.len() > 100) && (setting_too_long(
            update.endpoint,
        ) || setting_too_long(update.cloud_region) || setting_too_long(update.cloud_project)
            || setting_too_long(update.deployment) || setting_too_long(update.api_version)) ==> (r
            matches Err(ConfigurationError::Invalid(m)) && m@ == PROVIDER_SETTING_TOO_LONG@),
        !(trimmed(update.name@).len() == 0 || update.name@.len() > 100) && !(setting_too_long(
            update.endpoint,
        ) || setting_too_long(update.cloud_region) || setting_too_long(update.cloud_project)
            || setting_too_long(update.deployment) || setting_too_long(update.api_version)) ==> r
            is Ok,
{
    if trim_str(update.name.as_str()).unicode_len() == 0 || update.name.as_str().unicode_len() > 100 {
        return Err(ConfigurationError::Invalid(PROVIDER_NAME_INVALID.to_string()));
    }
    if check_setting(&update.endpoint) || check_setting(&update.cloud_region) || check_setting(
        &update.cloud_project,
    ) || check_setting(&update.deployment) || check_setting(&update.api_version) {
        return Err(ConfigurationError::Invalid(PROVIDER_SETTING_TOO_LONG.to_string()));
    }
    Ok(())
}

/// One capability of a model: what it serves, where, how, and whether that
/// has been certified.
#[derive(Clone, Copy, Debug, Eq, PartialEq)]
pub struct CapabilityRecord {
    pub operation: OperationKind,
    pub surface: Surface,
    pub mode: TransportMode,
    pub source: CapabilitySource,
    pub certified_at: Option<Timestamp>,
}

/// A model as declared by an operator or reported by a provider.
#[derive(Clone, Debug)]
pub struct DiscoveredModelInput {
    pub upstream_model: String,
    pub display_name: String,
    pub enabled: bool,
    pub capabilities: Vec<CapabilityRecord>,
}

pub const MODEL_ID_INVALID: &'static str = "model ID must contain 1-200 characters";
pub const MODEL_DISPLAY_NAME_INVALID: &'static str = "model display name must contain 1-200 characters";
pub const MODEL_CAPABILITY_REQUIRED: &'static str = "enabled models require an explicit capability";
pub const MODEL_CAPABILITIES_TOO_MANY: &'static str = "a model can declare at most 16 capability tuples";

/// The first rule a model input breaks.
pub open spec fn model_defect(model: DiscoveredModelInput) -> Option<Seq<char>> {
    if trimmed(model.upstream_model@).len() == 0 || model.upstream_model@.len() > 200 {
        Some(MODEL_ID_INVALID@)
    } else if trimmed(model.display_name@).len() == 0 || model.display_name@.len() > 200 {
        Some(MODEL_DISPLAY_NAME_INVALID@)
    } else if model.enabled && model.capabilities@.len() == 0 {
        Some(MODEL_CAPABILITY_REQUIRED@)
    } else if model.capabilities@.len() > 16 {
        Some(MODEL_CAPABILITIES_TOO_MANY@)
    } else {
        None
    }
}

/// The message of the first rule a model breaks, if any.
pub fn check_model(model: &DiscoveredModelInput) -> (r: Option<String>)
    ensures
        match model_defect(*model) {
            Some(m) => r matches Some(msg) && msg@ == m,
            None => r is None,
        },
{
    let id = model.upstream_model.as_str();
    if trim_str(id).unicode_len() == 0 || id.unicode_len() > 200 {
        return Some(MODEL_ID_INVALID.to_string());
    }
    let name = model.display_name.as_str();
    if trim_str(name).unicode_len() == 0 || name.unicode_len() > 200 {
        return Some(MODEL_DISPLAY_NAME_INVALID.to_string());
    }
    if model.enabled && model.capabilities.len() == 0 {
        return Some(MODEL_CAPABILITY_REQUIRED.to_string());
    }
    if model.capabilities.len() > 16 {
        return Some(MODEL_CAPABILITIES_TOO_MANY.to_string());
    }
    None
}

/// A model needs a non-blank ID and display name of at most 200 characters;
/// an enabled model needs at least one capability; no model has more than 16.
pub fn validate_model(model: &DiscoveredModelInput) -> (r: Result<(), ConfigurationError>)
    ensures
        match model_defect(*model) {
            Some(m) => r matches Err(ConfigurationError::Invalid(msg)) && msg@ == m,
            None => r is Ok,
        },
{
    match check_model(model) {
        Some(message) => Err(ConfigurationError::Invalid(message)),
        None => Ok(()),
    }
}

pub const ROUTE_EMPTY: &'static str = "route operations and targets cannot be empty";
pub const ROUTE_LIMITS_INVALID: &'static str = "route deadlines or maximum attempts are invalid";
pub const ROUTE_LOCAL_OPERATION: &'static str = "model list and detail are installation-local APIs, not provider-routed operations";
pub const ROUTE_TARGET_INVALID: &'static str = "route target priority, weight, or timeout is invalid";

/// A route target: provider model, priority, weight and timeout.
pub type RouteTargetInput = (uuid::Uuid, i32, i32, i32);

pub open spec fn target_ok(t: RouteTargetInput, overall_timeout_ms: i32) -> bool {
    t.1 >= 0 && t.2 > 0 && t.3 > 0 && t.3 <= overall_timeout_ms
}

/// The first rule a route draft breaks, after its slug was accepted.
pub open spec fn route_defect(
    operations: Seq<OperationKind>,
    overall_timeout_ms: i32,
    max_attempts: i16,
    targets: Seq<RouteTargetInput>,
) -> Option<Seq<char>> {
    if operations.len() == 0 || targets.len() == 0 {
        Some(ROUTE_EMPTY@)
    } else if overall_timeout_ms <= 0 || max_attempts <= 0 || max_attempts > targets.len() {
        Some(ROUTE_LIMITS_INVALID@)
    } else if exists|i: int|
        0 <= i < operations.len() && (#[trigger] operations[i] is ModelList || operations[i]
            is ModelGet) {
        Some(ROUTE_LOCAL_OPERATION@)
    } else if exists|i: int| 0 <= i < targets.len() && !target_ok(#[trigger] targets[i], overall_timeout_ms) {
        Some(ROUTE_TARGET_INVALID@)
    } else {
        None
    }
}

/// Checks a route draft: first its slug, by the outcome of `RouteSlug::parse`
/// on it (`slug_check`, the parse error as text), then its operations,
/// deadline, attempts and targets.
pub fn validate_route_input(
    slug_check: Result<(), String>,
    operations: &[OperationKind],
    overall_timeout_ms: i32,
    max_attempts: i16,
    targets: &[RouteTargetInput],
) -> (r: Result<(), ConfigurationError>)
    ensures
        match slug_check {
            Err(e) => r matches Err(ConfigurationError::Invalid(msg)) && msg@ == e@,
            Ok(()) => match route_defect(operations@, overall_timeout_ms, max_attempts, targets@) {
                Some(m) => r matches Err(ConfigurationError::Invalid(msg)) && msg@ == m,
                None => r is Ok,
            },
        },
{
    if let Err(e) = slug_check {
        return Err(ConfigurationError::Invalid(e));
    }
    if operations.len() == 0 || targets.len() == 0 {
        return Err(ConfigurationError::Invalid(ROUTE_EMPTY.to_string()));
    }
    if overall_timeout_ms <= 0 || max_attempts <= 0 || max_attempts as usize > targets.len() {
        return Err(ConfigurationError::Invalid(ROUTE_LIMITS_INVALID.to_string()));
    }
    let mut i: usize = 0;
    while i < operations.len()
        invariant
            slug_check is Ok,
            i <= operations@.len(),
            operations@.len() > 0 && targets@.len() > 0,
            !(overall_timeout_ms <= 0 || max_attempts <= 0 || max_attempts > targets@.len()),
            forall|j: int|
                0 <= j < i ==> !(#[trigger] operations@[j] is ModelList || operations@[j] is ModelGet),
        decreases operations@.len() - i,
    {
        if operations[i].is_installation_local() {
            assert(operations@[i as int] is ModelList || operations@[i as int] is ModelGet);
            return Err(ConfigurationError::Invalid(ROUTE_LOCAL_OPERATION.to_string()));
        }
        i = i + 1;
    }
    let mut k: usize = 0;
    while k < targets.len()
        invariant
            slug_check is Ok,
            k <= targets@.len(),
            operations@.len() > 0 && targets@.len() > 0,
            !(overall_timeout_ms <= 0 || max_attempts <= 0 || max_attempts > targets@.len()),
            forall|j: int|
                0 <= j < operations@.len() ==> !(#[trigger] operations@[j] is ModelList
                    || operations@[j] is ModelGet),
            forall|j: int| 0 <= j < k ==> target_ok(#[trigger] targets@[j], overall_timeout_ms),
        decreases targets@.len() - k,
    {
        let (_, priority, weight, timeout) = targets[k];
        if priority < 0 || weight <= 0 || timeout <= 0 || timeout > overall_timeout_ms {
            assert(!target_ok(targets@[k as int], overall_timeout_ms));
            return Err(ConfigurationError::Invalid(ROUTE_TARGET_INVALID.to_string()));
        }
        k = k + 1;
    }
    Ok(())
}

/// The reviewed outcome of one certification check.
#[derive(Clone, Copy, Debug, Eq, PartialEq, Structural)]
pub struct CapabilityCertificationOutcome {
    pub operation: OperationKind,
    pub surface: Surface,
    pub mode: TransportMode,
    pub succeeded: bool,
}

pub open spec fn outcome_tuple(o: CapabilityCertificationOutcome) -> CapabilityTuple {
    (o.operation, o.surface, o.mode)
}

pub const CERTIFICATION_TUPLES_COUNT: &'static str = "certification requires 1-16 reviewed capability tuples";
pub const CERTIFICATION_TUPLES_NOT_UNIQUE: &'static str = "certification capability tuples must be unique";

/// The rule a certification submission breaks: it holds 1 to 16 outcomes for
/// pairwise different capability tuples.
pub open spec fn certification_submission_defect(outcomes: Seq<CapabilityCertificationOutcome>) -> Option<Seq<char>> {
    if outcomes.len() == 0 || outcomes.len() > 16 {
        Some(CERTIFICATION_TUPLES_COUNT@)
    } else if exists|i: int, j: int|
        0 <= i < j < outcomes.len() && outcome_tuple(#[trigger] outcomes[i]) == outcome_tuple(
            #[trigger] outcomes[j],
        ) {
        Some(CERTIFICATION_TUPLES_NOT_UNIQUE@)
    } else {
        None
    }
}

fn tuple_eq(a: CapabilityTuple, b: CapabilityTuple) -> (r: bool)
    ensures
        r == (a == b),
{
    a.0 == b.0 && a.1 == b.1 && a.2 == b.2
}

/// Checks a certification submission and returns its capability tuples in
/// the order submitted.
pub fn validate_certification_submission(outcomes: &[CapabilityCertificationOutcome]) -> (r: Result<
    Vec<CapabilityTuple>,
    ConfigurationError,
>)
    ensures
        match certification_submission_defect(outcomes@) {
            Some(m) => r matches Err(ConfigurationError::Invalid(msg)) && msg@ == m,
            None => r matches Ok(v) && v@ == outcomes@.map_values(|o| outcome_tuple(o)),
        },
{
    if outcomes.len() == 0 || outcomes.len() > 16 {
        return Err(ConfigurationError::Invalid(CERTIFICATION_TUPLES_COUNT.to_string()));
    }
    let mut submitted: Vec<CapabilityTuple> = Vec::new();
    let mut j: usize = 0;
    while j < outcomes.len()
        invariant
            j <= outcomes@.len(),
            1 <= outcomes@.len() <= 16,
            submitted@ == outcomes@.take(j as int).map_values(|o| outcome_tuple(o)),
            forall|a: int, b: int|
                0 <= a < b < j ==> outcome_tuple(#[trigger] outcomes@[a]) != outcome_tuple(
                    #[trigger] outcomes@[b],
                ),
        decreases outcomes@.len() - j,
    {
        let o = outcomes[j];
        let t = (o.operation, o.surface, o.mode);
        let mut i: usize = 0;
        while i < j
            invariant
                i <= j < outcomes@.len(),
                1 <= outcomes@.len() <= 16,
                submitted@ == outcomes@.take(j as int).map_values(|o| outcome_tuple(o)),
                t == outcome_tuple(outcomes@[j as int]),
                forall|a: int| 0 <= a < i ==> outcome_tuple(outcomes@[a]) != t,
            decreases j - i,
        {
            if tuple_eq(submitted[i], t) {
                assert(outcome_tuple(outcomes@[i as int]) == outcome_tuple(outcomes@[j as int]));
                return Err(ConfigurationError::Invalid(CERTIFICATION_TUPLES_NOT_UNIQUE.to_string()));
            }
            i = i + 1;
        }
        submitted.push(t);
        assert(submitted@ =~= outcomes@.take(j + 1).map_values(|o| outcome_tuple(o)));
        j = j + 1;
    }
    assert(outcomes@.take(outcomes@.len() as int) =~= outcomes@);
    Ok(submitted)
}

/// A probe counts as fresh when it succeeded after the provider's settings
/// last changed.
pub open spec fn probe_is_fresh(status: Option<Seq<char>>, last_probe_at: Option<Timestamp>, updated_at: Timestamp) -> bool {
    status == Some("succeeded"@) && (last_probe_at matches Some(t) && t.micros >= updated_at.micros)
}

pub fn fresh_probe(status: Option<&str>, last_probe_at: Option<Timestamp>, updated_at: Timestamp) -> (b: bool)
    ensures
        b == probe_is_fresh(
            match status {
                Some(s) => Some(s@),
                None => None,
            },
            last_probe_at,
            updated_at,
        ),
{
    let succeeded = match status {
        Some(s) => crate::text::str_eq(s, "succeeded"),
        None => false,
    };
    let recent = match last_probe_at {
        Some(t) => t.micros >= updated_at.micros,
        None => false,
    };
    succeeded && recent
}

pub const NATIVE_CERTIFICATION_PROBE: &'static str = "native capability certification requires a successful credentialed probe of the current provider draft";
pub const NATIVE_CERTIFICATION_DISCOVERY: &'static str = "native capability certification requires a discovered provider model";

/// Whether a provider may take certification evidence now: its ETag is the
/// expected one, it is a draft, and a native connector has a fresh probe.
/// Compatible endpoints are probed per tuple instead.
pub fn certification_gate(
    etag_matches: bool,
    state: &str,
    kind: &str,
    has_fresh_probe: bool,
) -> (r: Result<(), ConfigurationError>)
    ensures
        !etag_matches ==> r matches Err(ConfigurationError::PreconditionFailed),
        etag_matches && state@ != "draft"@ ==> r matches Err(ConfigurationError::InUse),
        etag_matches && state@ == "draft"@ && kind@ != "openai_compatible"@ && !has_fresh_probe
            ==> (r matches Err(ConfigurationError::Invalid(m)) && m@ == NATIVE_CERTIFICATION_PROBE@),
        etag_matches && state@ == "draft"@ && (kind@ == "openai_compatible"@ || has_fresh_probe)
            ==> r is Ok,
{
    if !etag_matches {
        return Err(ConfigurationError::PreconditionFailed);
    }
    if !crate::text::str_eq(state, "draft") {
        return Err(ConfigurationError::InUse);
    }
    if !crate::text::str_eq(kind, "openai_compatible") && !has_fresh_probe {
        return Err(ConfigurationError::Invalid(NATIVE_CERTIFICATION_PROBE.to_string()));
    }
    Ok(())
}

/// A native connector certifies only a model its discovery reported.
pub fn certification_model_gate(kind: &str, discovered: bool) -> (r: Result<(), ConfigurationError>)
    ensures
        (kind@ != "openai_compatible"@ && !discovered) ==> (r matches Err(
            ConfigurationError::Invalid(m),
        ) && m@ == NATIVE_CERTIFICATION_DISCOVERY@),
        !(kind@ != "openai_compatible"@ && !discovered) ==> r is Ok,
{
    if !crate::text::str_eq(kind, "openai_compatible") && !discovered {
        return Err(ConfigurationError::Invalid(NATIVE_CERTIFICATION_DISCOVERY.to_string()));
    }
    Ok(())
}

fn tuples_contain(v: &[CapabilityTuple], t: CapabilityTuple) -> (b: bool)
    ensures
        b == v@.contains(t),
{
    let mut k: usize = 0;
    while k < v.len()
        invariant
            k <= v@.len(),
            forall|j: int| 0 <= j < k ==> v@[j] != t,
        decreases v@.len() - k,
    {
        if tuple_eq(v[k], t) {
            assert(v@[k as int] == t);
            return true;
        }
        k = k + 1;
    }
    false
}

/// Whether the stored capabilities of a model are exactly the submitted
/// tuples, as sets.
pub fn same_tuple_set(current: &[CapabilityTuple], submitted: &[CapabilityTuple]) -> (b: bool)
    ensures
        b == (current@.to_set() == submitted@.to_set()),
{
    let mut i: usize = 0;
    while i < current.len()
        invariant
            i <= current@.len(),
            forall|j: int| 0 <= j < i ==> submitted@.contains(#[trigger] current@[j]),
        decreases current@.len() - i,
    {
        if !tuples_contain(submitted, current[i]) {
            assert(current@.to_set().contains(current@[i as int]));
            assert(!submitted@.to_set().contains(current@[i as int]));
            return false;
        }
        i = i + 1;
    }
    let mut k: usize = 0;
    while k < submitted.len()
        invariant
            k <= submitted@.len(),
            forall|j: int| 0 <= j < current@.len() ==> submitted@.contains(#[trigger] current@[j]),
            forall|j: int| 0 <= j < k ==> current@.contains(#[trigger] submitted@[j]),
        decreases submitted@.len() - k,
    {
        if !tuples_contain(current, submitted[k]) {
            assert(submitted@.to_set().contains(submitted@[k as int]));
            assert(!current@.to_set().contains(submitted@[k as int]));
            return false;
        }
        k = k + 1;
    }
    assert(current@.to_set() =~= submitted@.to_set()) by {
        assert forall|t: CapabilityTuple| current@.to_set().contains(t) implies submitted@.to_set().contains(t) by {
            let j = choose|j: int| 0 <= j < current@.len() && current@[j] == t;
            assert(submitted@.contains(current@[j]));
        }
        assert forall|t: CapabilityTuple| submitted@.to_set().contains(t) implies current@.to_set().contains(t) by {
            let j = choose|j: int| 0 <= j < submitted@.len() && submitted@[j] == t;
            assert(current@.contains(submitted@[j]));
        }
    }
    true
}

/// The audit outcome of a certification: all tuples certified, none, or some.
pub fn certification_audit_outcome(certified: usize, attempted: usize) -> (s: &'static str)
    ensures
        certified == attempted ==> s@ == "success"@,
        certified != attempted && certified == 0 ==> s@ == "failure"@,
        certified != attempted && certified != 0 ==> s@ == "partial"@,
{
    if certified == attempted {
        "success"
    } else if certified == 0 {
        "failure"
    } else {
        "partial"
    }
}

/// What activation reads of a provider draft.
#[derive(Clone, Debug)]
pub struct ProviderActivationState {
    pub state: String,
    pub connector_ready: bool,
    /// A successful probe since the settings last changed.
    pub probe_ready: bool,
    /// An unrevoked active credential, or ambient authentication without one.
    pub credential_ready: bool,
    /// At least one enabled model.
    pub has_model: bool,
    /// Every enabled model has capabilities, all of them certified.
    pub capabilities_ready: bool,
}

pub open spec fn activation_ready(p: ProviderActivationState) -> bool {
    p.state@ == "draft"@ && p.connector_ready && p.probe_ready && p.credential_ready && p.has_model
        && p.capabilities_ready
}

/// Whether a provider draft may be activated: the expected ETag, and a draft
/// ready on every count.
pub fn activation_check(etag_matches: bool, provider: &ProviderActivationState) -> (r: Result<
    (),
    ConfigurationError,
>)
    ensures
        !etag_matches ==> r matches Err(ConfigurationError::PreconditionFailed),
        etag_matches && !activation_ready(*provider) ==> r matches Err(
            ConfigurationError::ProviderIncomplete,
        ),
        etag_matches && activation_ready(*provider) ==> r is Ok,
{
    if !etag_matches {
        return Err(ConfigurationError::PreconditionFailed);
    }
    if !crate::text::str_eq(provider.state.as_str(), "draft") || !provider.connector_ready
        || !provider.probe_ready || !provider.credential_ready || !provider.has_model
        || !provider.capabilities_ready {
        return Err(ConfigurationError::ProviderIncomplete);
    }
    Ok(())
}

/// The answer to a conditional write of a draft that matched no row.
pub fn draft_write_refusal(exists: bool) -> (e: ConfigurationError)
    ensures
        exists ==> e is PreconditionFailed,
        !exists ==> e is NotFound,
{
    if exists {
        ConfigurationError::PreconditionFailed
    } else {
        ConfigurationError::NotFound
    }
}

pub const ROUTE_LINEAGE_SLUG: &'static str = "a restored route draft must retain its original stable slug";

/// A draft restored from a route revision keeps that route's slug.
pub fn route_lineage_check(lineage_slug: Option<&str>, slug: &str) -> (r: Result<(), ConfigurationError>)
    ensures
        (lineage_slug matches Some(l) && l@ != slug@) ==> (r matches Err(ConfigurationError::Invalid(m)) && m@ == ROUTE_LINEAGE_SLUG@),
        !(lineage_slug matches Some(l) && l@ != slug@) ==> r is Ok,
{
    match lineage_slug {
        Some(l) => {
            if !crate::text::str_eq(l, slug) {
                return Err(ConfigurationError::Invalid(ROUTE_LINEAGE_SLUG.to_string()));
            }
            Ok(())
        },
        None => Ok(()),
    }
}

pub const DISCOVERY_EMPTY: &'static str = "discovery returned no models";

/// Checks the models a discovery returned: at least one, each valid, no
/// trimmed name twice.
pub fn validate_discovery_models(models: &[DiscoveredModelInput]) -> (r: Result<(), ConfigurationError>)
    ensures
        models@.len() == 0 ==> (r matches Err(ConfigurationError::Invalid(m)) && m@ == DISCOVERY_EMPTY@),
        models@.len() > 0 ==> match crate::catalog::discovery_scan(models@) {
            Some(m) => r matches Err(ConfigurationError::Invalid(msg)) && msg@ == m,
            None => r is Ok,
        },
{
    if models.len() == 0 {
        return Err(ConfigurationError::Invalid(DISCOVERY_EMPTY.to_string()));
    }
    match crate::catalog::scan_discovery_models(models) {
        Ok(_) => Ok(()),
        Err(message) => Err(ConfigurationError::Invalid(message)),
    }
}

pub const ENABLED_MODEL_NEEDS_CAPABILITY: &'static str = "enabled models require at least one reviewed capability";
pub const MODEL_CAPABILITIES_NOT_UNIQUE: &'static str = "model capabilities must be unique";

pub open spec fn record_tuple(c: CapabilityRecord) -> CapabilityTuple {
    (c.operation, c.surface, c.mode)
}

/// The rule a reviewed capability list breaks: an enabled model needs one,
/// none has more than 16, and no tuple appears twice.
pub open spec fn enablement_defect(enabled: bool, capabilities: Seq<CapabilityRecord>) -> Option<Seq<char>> {
    if enabled && capabilities.len() == 0 {
        Some(ENABLED_MODEL_NEEDS_CAPABILITY@)
    } else if capabilities.len() > 16 {
        Some(MODEL_CAPABILITIES_TOO_MANY@)
    } else if exists|i: int, j: int|
        0 <= i < j < capabilities.len() && record_tuple(#[trigger] capabilities[i]) == record_tuple(
            #[trigger] capabilities[j],
        ) {
        Some(MODEL_CAPABILITIES_NOT_UNIQUE@)
    } else {
        None
    }
}

/// Checks the reviewed capabilities a model is enabled or disabled with.
pub fn model_enablement_check(enabled: bool, capabilities: &[CapabilityRecord]) -> (r: Result<
    (),
    ConfigurationError,
>)
    ensures
        match enablement_defect(enabled, capabilities@) {
            Some(m) => r matches Err(ConfigurationError::Invalid(msg)) && msg@ == m,
            None => r is Ok,
        },
{
    if enabled && capabilities.len() == 0 {
        return Err(ConfigurationError::Invalid(ENABLED_MODEL_NEEDS_CAPABILITY.to_string()));
    }
    if capabilities.len() > 16 {
        return Err(ConfigurationError::Invalid(MODEL_CAPABILITIES_TOO_MANY.to_string()));
    }
    let mut j: usize = 0;
    while j < capabilities.len()
        invariant
            j <= capabilities@.len(),
            !(enabled && capabilities@.len() == 0),
            capabilities@.len() <= 16,
            forall|a: int, b: int|
                0 <= a < b < j ==> record_tuple(#[trigger] capabilities@[a]) != record_tuple(
                    #[trigger] capabilities@[b],
                ),
        decreases capabilities@.len() - j,
    {
        let t = (capabilities[j].operation, capabilities[j].surface, capabilities[j].mode);
        let mut i: usize = 0;
        while i < j
            invariant
                i <= j < capabilities@.len(),
                !(enabled && capabilities@.len() == 0),
                capabilities@.len() <= 16,
                t == record_tuple(capabilities@[j as int]),
                forall|a: int| 0 <= a < i ==> record_tuple(capabilities@[a]) != t,
            decreases j - i,
        {
            let u = (capabilities[i].operation, capabilities[i].surface, capabilities[i].mode);
            if tuple_eq(u, t) {
                assert(record_tuple(capabilities@[i as int]) == record_tuple(capabilities@[j as int]));
                return Err(ConfigurationError::Invalid(MODEL_CAPABILITIES_NOT_UNIQUE.to_string()));
            }
            i = i + 1;
        }
        j = j + 1;
    }
    Ok(())
}

/// Whether a provider's models or credentials may change now: the expected
/// ETag, and a provider that is not disabled.
pub fn provider_mutation_gate(etag_matches: bool, state: &str) -> (r: Result<(), ConfigurationError>)
    ensures
        !etag_matches ==> r matches Err(ConfigurationError::PreconditionFailed),
        etag_matches && state@ == "disabled"@ ==> r matches Err(ConfigurationError::InUse),
        etag_matches && state@ != "disabled"@ ==> r is Ok,
{
    if !etag_matches {
        return Err(ConfigurationError::PreconditionFailed);
    }
    if crate::text::str_eq(state, "disabled") {
        return Err(ConfigurationError::InUse);
    }
    Ok(())
}

pub const CREDENTIAL_VERSION_INVALID: &'static str = "credential version is invalid";
pub const MASTER_KEY_VERSION_INVALID: &'static str = "master-key version is invalid";

/// The stored forms of a new credential's version and its master-key
/// version: both positive `i32`.
pub fn credential_rotation_versions(version: u32, key_version: u32) -> (r: Result<
    (i32, i32),
    ConfigurationError,
>)
    ensures
        !(0 < version <= i32::MAX) ==> (r matches Err(ConfigurationError::Invalid(m)) && m@
            == CREDENTIAL_VERSION_INVALID@),
        (0 < version <= i32::MAX) && !(0 < key_version <= i32::MAX) ==> (r matches Err(
            ConfigurationError::Invalid(m),
        ) && m@ == MASTER_KEY_VERSION_INVALID@),
        (0 < version <= i32::MAX) && (0 < key_version <= i32::MAX) ==> r == Ok::<
            (i32, i32),
            ConfigurationError,
        >((version as i32, key_version as i32)),
{
    if version == 0 || version > i32::MAX as u32 {
        return Err(ConfigurationError::Invalid(CREDENTIAL_VERSION_INVALID.to_string()));
    }
    if key_version == 0 || key_version > i32::MAX as u32 {
        return Err(ConfigurationError::Invalid(MASTER_KEY_VERSION_INVALID.to_string()));
    }
    Ok((version as i32, key_version as i32))
}

/// A credential rotation writes the provider's next version, so versions
/// stay consecutive.
pub fn credential_rotation_gate(
    etag_matches: bool,
    state: &str,
    next_version: i64,
    version: i32,
) -> (r: Result<(), ConfigurationError>)
    ensures
        !etag_matches ==> r matches Err(ConfigurationError::PreconditionFailed),
        etag_matches && state@ == "disabled"@ ==> r matches Err(ConfigurationError::InUse),
        etag_matches && state@ != "disabled"@ && next_version != version ==> r matches Err(
            ConfigurationError::PreconditionFailed,
        ),
        etag_matches && state@ != "disabled"@ && next_version == version ==> r is Ok,
{
    provider_mutation_gate(etag_matches, state)?;
    if next_version != version as i64 {
        return Err(ConfigurationError::PreconditionFailed);
    }
    Ok(())
}

/// A credential may be revoked only while nothing uses it: not the draft's
/// credential, not the active revision's, and no live media job's.
pub fn credential_revocation_gate(
    etag_matches: bool,
    is_draft_credential: bool,
    is_activated_credential: bool,
    used_by_live_media_job: bool,
) -> (r: Result<(), ConfigurationError>)
    ensures
        !etag_matches ==> r matches Err(ConfigurationError::PreconditionFailed),
        etag_matches && (is_draft_credential || is_activated_credential || used_by_live_media_job)
            ==> r matches Err(ConfigurationError::InUse),
        etag_matches && !(is_draft_credential || is_activated_credential || used_by_live_media_job)
            ==> r is Ok,
{
    if !etag_matches {
        return Err(ConfigurationError::PreconditionFailed);
    }
    if is_draft_credential || is_activated_credential || used_by_live_media_job {
        return Err(ConfigurationError::InUse);
    }
    Ok(())
}

/// What a new provider draft brings along.
#[derive(Clone, Copy, Debug, Eq, PartialEq, Structural)]
pub struct NewProviderShape {
    pub has_credential: bool,
    pub has_credential_id: bool,
    pub has_model: bool,
    pub has_model_id: bool,
    pub has_display_name: bool,
    pub model_enabled: bool,
    pub has_surface: bool,
}

/// A new draft's optional credential and first model are complete or
/// absent: a credential with its identifier; a model with its identifier
/// and display name, and without a model nothing enabled or routed.
pub fn new_provider_shape_check(p: NewProviderShape) -> (r: Result<(), ConfigurationError>)
    ensures
        p.has_credential != p.has_credential_id ==> r matches Err(ConfigurationError::InvalidCredential),
        p.has_credential == p.has_credential_id && (p.has_model != p.has_model_id || p.has_model
            != p.has_display_name || (!p.has_model && (p.model_enabled || p.has_surface))) ==> r matches Err(
            ConfigurationError::ProviderIncomplete,
        ),
        p.has_credential == p.has_credential_id && !(p.has_model != p.has_model_id || p.has_model
            != p.has_display_name || (!p.has_model && (p.model_enabled || p.has_surface))) ==> r is Ok,
{
    if p.has_credential != p.has_credential_id {
        return Err(ConfigurationError::InvalidCredential);
    }
    if p.has_model != p.has_model_id || p.has_model != p.has_display_name || (!p.has_model && (
    p.model_enabled || p.has_surface)) {
        return Err(ConfigurationError::ProviderIncomplete);
    }
    Ok(())
}

/// Activation revokes the credential of the previous active revision when
/// the new revision uses another one.
pub fn previous_credential_to_revoke(previous: &Option<uuid::Uuid>, activated: &Option<uuid::Uuid>) -> (r: bool)
    ensures
        r == (previous is Some && *previous != *activated),
{
    match (previous, activated) {
        (Some(p), Some(a)) => !crate::carried::same_uuid(p, a),
        (Some(_), None) => true,
        (None, _) => false,
    }
}

/// The credential part of a runtime provider row.
#[derive(Clone, Debug)]
pub struct RuntimeCredential {
    pub credential_id: Option<uuid::Uuid>,
    pub credential_version: Option<u32>,
    pub encrypted_credential: Option<crate::oidc::EncryptedSecret>,
}

/// Whether the credential columns of a runtime row are consistent: versions
/// positive, ciphertext, nonce and key version present together with a
/// twelve-byte nonce, and all of them present exactly with an identifier.
pub open spec fn runtime_credential_ok(
    credential_id: bool,
    credential_version: Option<i32>,
    nonce: Option<Seq<u8>>,
    ciphertext: bool,
    key_version: Option<i32>,
) -> bool {
    &&& (credential_version matches Some(v) ==> v > 0)
    &&& (key_version matches Some(v) ==> v > 0)
    &&& ((nonce is Some && ciphertext && key_version is Some && nonce->0.len() == 12) || (nonce is None
        && !ciphertext && key_version is None))
    &&& credential_id == credential_version is Some
    &&& credential_id == nonce is Some
}

/// Reads the credential columns of a runtime provider row; any
/// inconsistency is an invalid credential.
pub fn runtime_credential_from_row(
    credential_id: Option<uuid::Uuid>,
    credential_version: Option<i32>,
    nonce: Option<Vec<u8>>,
    ciphertext: Option<Vec<u8>>,
    key_version: Option<i32>,
) -> (r: Result<RuntimeCredential, ConfigurationError>)
    ensures
        runtime_credential_ok(
            credential_id is Some,
            credential_version,
            match nonce {
                Some(n) => Some(n@),
                None => None,
            },
            ciphertext is Some,
            key_version,
        ) ==> (r matches Ok(c) && c.credential_id == credential_id && c.credential_version == match credential_version {
            Some(v) => Some(v as u32),
            None => None::<u32>,
        } && (c.encrypted_credential is Some <==> nonce is Some)),
        !runtime_credential_ok(
            credential_id is Some,
            credential_version,
            match nonce {
                Some(n) => Some(n@),
                None => None,
            },
            ciphertext is Some,
            key_version,
        ) ==> r matches Err(ConfigurationError::InvalidCredential),
{
    let version = match credential_version {
        Some(v) => Some(stored_version(v)?),
        None => None,
    };
    let key = match key_version {
        Some(v) => Some(stored_version(v)?),
        None => None,
    };
    let encrypted = match (nonce, ciphertext, key) {
        (Some(nonce), Some(ciphertext), Some(key_version)) => {
            if nonce.len() != 12 {
                return Err(ConfigurationError::InvalidCredential);
            }
            let bytes: [u8; 12] = [
                nonce[0],
                nonce[1],
                nonce[2],
                nonce[3],
                nonce[4],
                nonce[5],
                nonce[6],
                nonce[7],
                nonce[8],
                nonce[9],
                nonce[10],
                nonce[11],
            ];
            Some(crate::oidc::EncryptedSecret { key_version, nonce: bytes, ciphertext })
        },
        (None, None, None) => None,
        _ => return Err(ConfigurationError::InvalidCredential),
    };
    if credential_id.is_some() != version.is_some() || credential_id.is_some() != encrypted.is_some() {
        return Err(ConfigurationError::InvalidCredential);
    }
    Ok(RuntimeCredential { credential_id, credential_version: version, encrypted_credential: encrypted })
}

pub const REVISION_KIND_CHANGE: &'static str = "a historical revision cannot change the provider connector kind";

/// A revision is restored as the draft only under the expected ETag and for
/// the same connector kind.
pub fn restore_revision_gate(etag_matches: bool, provider_kind: &str, revision_kind: &str) -> (r: Result<
    (),
    ConfigurationError,
>)
    ensures
        !etag_matches ==> r matches Err(ConfigurationError::PreconditionFailed),
        etag_matches && provider_kind@ != revision_kind@ ==> (r matches Err(
            ConfigurationError::Invalid(m),
        ) && m@ == REVISION_KIND_CHANGE@),
        etag_matches && provider_kind@ == revision_kind@ ==> r is Ok,
{
    if !etag_matches {
        return Err(ConfigurationError::PreconditionFailed);
    }
    if !crate::text::str_eq(provider_kind, revision_kind) {
        return Err(ConfigurationError::Invalid(REVISION_KIND_CHANGE.to_string()));
    }
    Ok(())
}

} // verus!
