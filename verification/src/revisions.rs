//! What changed between two provider revisions, and between two route
//! revisions. Names and keys are reported as ordered sets: sorted, each
//! once.
use vstd::prelude::*;
use vstd::string::*;

use crate::carried::{hyphenated_uuid, same_uuid, uuid_text, Timestamp};
use crate::configuration::{
    enforce_provider_revision_diff_limit, CapabilityRecord, ConfigurationError,
    PROVIDER_REVISION_DIFF_CAPABILITY_LIMIT, PROVIDER_REVISION_DIFF_MODEL_LIMIT,
};
use crate::domain::{mode_text, operation_text, surface_text, OperationKind};
use crate::ordering::{insert_text, push_contains, sorted_difference, sorted_texts, texts, texts_push};
use crate::text::str_eq;

verus! {

/// A model as a provider revision froze it.
#[derive(Clone, Debug)]
pub struct ProviderRevisionModel {
    pub upstream_model: String,
    pub display_name: String,
    pub enabled: bool,
    pub discovered_at: Option<Timestamp>,
    pub capabilities: Vec<CapabilityRecord>,
}

/// The settings a provider revision froze, and how many models and
/// capability tuples it holds.
#[derive(Clone, Debug)]
pub struct ProviderRevisionSettings {
    pub revision: i32,
    pub name: String,
    pub kind: String,
    pub endpoint: Option<String>,
    pub cloud_region: Option<String>,
    pub cloud_project: Option<String>,
    pub deployment: Option<String>,
    pub api_version: Option<String>,
    pub auth_mode: String,
    pub connector_ready: bool,
    pub credential_version_id: Option<uuid::Uuid>,
    pub model_count: i64,
    pub capability_count: i64,
}

/// What changed from one provider revision to another.
#[derive(Clone, Debug)]
pub struct ProviderRevisionDiff {
    pub from_revision: i32,
    pub to_revision: i32,
    pub name_changed: bool,
    pub endpoint_changed: bool,
    pub cloud_context_changed: bool,
    pub deployment_changed: bool,
    pub api_version_changed: bool,
    pub connector_changed: bool,
    pub credential_changed: bool,
    pub models_added: Vec<String>,
    pub models_removed: Vec<String>,
    pub models_changed: Vec<String>,
    pub capabilities_added: Vec<String>,
    pub capabilities_removed: Vec<String>,
}

/// A stored count as a size: a negative count, or one beyond `usize`, counts
/// as the largest size.
pub open spec fn count_size(count: i64) -> usize {
    if 0 <= count <= usize::MAX {
        count as usize
    } else {
        usize::MAX
    }
}

fn count_as_size(count: i64) -> (s: usize)
    ensures
        s == count_size(count),
{
    if count < 0 {
        usize::MAX
    } else if count as u64 > usize::MAX as u64 {
        usize::MAX
    } else {
        count as usize
    }
}

/// The first ceiling a diff of the two revisions would exceed, checking the
/// older revision first, models before capability tuples.
pub open spec fn diff_ceiling_exceeded(from: ProviderRevisionSettings, to: ProviderRevisionSettings) -> Option<(&'static str, usize)> {
    if count_size(from.model_count) > PROVIDER_REVISION_DIFF_MODEL_LIMIT {
        Some(("models", PROVIDER_REVISION_DIFF_MODEL_LIMIT))
    } else if count_size(from.capability_count) > PROVIDER_REVISION_DIFF_CAPABILITY_LIMIT {
        Some(("capability tuples", PROVIDER_REVISION_DIFF_CAPABILITY_LIMIT))
    } else if count_size(to.model_count) > PROVIDER_REVISION_DIFF_MODEL_LIMIT {
        Some(("models", PROVIDER_REVISION_DIFF_MODEL_LIMIT))
    } else if count_size(to.capability_count) > PROVIDER_REVISION_DIFF_CAPABILITY_LIMIT {
        Some(("capability tuples", PROVIDER_REVISION_DIFF_CAPABILITY_LIMIT))
    } else {
        None
    }
}

/// Refuses a diff of revisions too large to load.
pub fn check_diff_ceilings(from: &ProviderRevisionSettings, to: &ProviderRevisionSettings) -> (r: Result<
    (),
    ConfigurationError,
>)
    ensures
        match diff_ceiling_exceeded(*from, *to) {
            Some((dimension, maximum)) => r matches Err(
                ConfigurationError::ProviderRevisionDiffTooLarge { dimension: d, maximum: m },
            ) && d == dimension && m == maximum,
            None => r is Ok,
        },
{
    enforce_provider_revision_diff_limit(
        count_as_size(from.model_count),
        "models",
        PROVIDER_REVISION_DIFF_MODEL_LIMIT,
    )?;
    enforce_provider_revision_diff_limit(
        count_as_size(from.capability_count),
        "capability tuples",
        PROVIDER_REVISION_DIFF_CAPABILITY_LIMIT,
    )?;
    enforce_provider_revision_diff_limit(
        count_as_size(to.model_count),
        "models",
        PROVIDER_REVISION_DIFF_MODEL_LIMIT,
    )?;
    enforce_provider_revision_diff_limit(
        count_as_size(to.capability_count),
        "capability tuples",
        PROVIDER_REVISION_DIFF_CAPABILITY_LIMIT,
    )?;
    Ok(())
}

pub open spec fn opt_text(o: Option<String>) -> Option<Seq<char>> {
    match o {
        Some(s) => Some(s@),
        None => None,
    }
}

fn same_opt_text(a: &Option<String>, b: &Option<String>) -> (r: bool)
    ensures
        r == (opt_text(*a) == opt_text(*b)),
{
    match (a, b) {
        (Some(x), Some(y)) => str_eq(x.as_str(), y.as_str()),
        (None, None) => true,
        _ => false,
    }
}

/// The index of the last entry with this name: the entry a map keyed by name
/// keeps.
pub open spec fn last_model(models: Seq<ProviderRevisionModel>, name: Seq<char>) -> Option<int>
    decreases models.len(),
{
    if models.len() == 0 {
        None
    } else if models.last().upstream_model@ == name {
        Some(models.len() - 1)
    } else {
        last_model(models.drop_last(), name)
    }
}

pub proof fn last_model_facts(models: Seq<ProviderRevisionModel>, name: Seq<char>)
    ensures
        last_model(models, name) matches Some(i) ==> 0 <= i < models.len()
            && models[i].upstream_model@ == name,
        last_model(models, name) is None <==> !model_names(models).contains(name),
    decreases models.len(),
{
    if models.len() > 0 {
        last_model_facts(models.drop_last(), name);
        assert(model_names(models.drop_last()) =~= model_names(models).drop_last());
        if model_names(models).contains(name) && models.last().upstream_model@ != name {
            let k = choose|k: int| 0 <= k < model_names(models).len() && model_names(models)[k] == name;
            assert(k < models.len() - 1);
            assert(model_names(models.drop_last())[k] == name);
        }
        if models.last().upstream_model@ == name {
            assert(model_names(models)[models.len() - 1] == name);
        }
    }
}

pub open spec fn model_names(models: Seq<ProviderRevisionModel>) -> Seq<Seq<char>> {
    models.map_values(|m: ProviderRevisionModel| m.upstream_model@)
}

pub open spec fn model_state(m: ProviderRevisionModel) -> (Seq<char>, bool, Option<Timestamp>) {
    (m.display_name@, m.enabled, m.discovered_at)
}

/// A model both revisions hold whose name, enablement or discovery differs.
pub open spec fn model_changed(
    from: Seq<ProviderRevisionModel>,
    to: Seq<ProviderRevisionModel>,
    name: Seq<char>,
) -> bool {
    match (last_model(from, name), last_model(to, name)) {
        (Some(i), Some(j)) => model_state(from[i]) != model_state(to[j]),
        _ => false,
    }
}

/// The text of a capability tuple of a model: "model/operation/surface/mode".
pub open spec fn capability_text(model: Seq<char>, c: CapabilityRecord) -> Seq<char> {
    model + seq!['/'] + operation_text(c.operation) + seq!['/'] + surface_text(c.surface) + seq!['/']
        + mode_text(c.mode)
}

pub open spec fn model_capability_texts(m: ProviderRevisionModel) -> Seq<Seq<char>> {
    m.capabilities@.map_values(|c: CapabilityRecord| capability_text(m.upstream_model@, c))
}

/// The capability texts of all models, model by model.
pub open spec fn capability_texts(models: Seq<ProviderRevisionModel>) -> Seq<Seq<char>>
    decreases models.len(),
{
    if models.len() == 0 {
        Seq::empty()
    } else {
        capability_texts(models.drop_last()) + model_capability_texts(models.last())
    }
}

/// The complete meaning of a provider revision diff.
pub open spec fn provider_diff_ok(
    from: ProviderRevisionSettings,
    to: ProviderRevisionSettings,
    from_models: Seq<ProviderRevisionModel>,
    to_models: Seq<ProviderRevisionModel>,
    d: ProviderRevisionDiff,
) -> bool {
    &&& d.from_revision == from.revision
    &&& d.to_revision == to.revision
    &&& d.name_changed == (from.name@ != to.name@)
    &&& d.endpoint_changed == (opt_text(from.endpoint) != opt_text(to.endpoint))
    &&& d.cloud_context_changed == (opt_text(from.cloud_region) != opt_text(to.cloud_region)
        || opt_text(from.cloud_project) != opt_text(to.cloud_project))
    &&& d.deployment_changed == (opt_text(from.deployment) != opt_text(to.deployment))
    &&& d.api_version_changed == (opt_text(from.api_version) != opt_text(to.api_version))
    &&& d.connector_changed == (from.kind@ != to.kind@ || from.auth_mode@ != to.auth_mode@
        || from.connector_ready != to.connector_ready)
    &&& d.credential_changed == (from.credential_version_id != to.credential_version_id)
    &&& sorted_texts(texts(d.models_added@))
    &&& texts(d.models_added@).to_set() == model_names(to_models).to_set().difference(
        model_names(from_models).to_set(),
    )
    &&& sorted_texts(texts(d.models_removed@))
    &&& texts(d.models_removed@).to_set() == model_names(from_models).to_set().difference(
        model_names(to_models).to_set(),
    )
    &&& sorted_texts(texts(d.models_changed@))
    &&& texts(d.models_changed@).to_set() == Set::new(
        |name: Seq<char>| model_changed(from_models, to_models, name),
    )
    &&& sorted_texts(texts(d.capabilities_added@))
    &&& texts(d.capabilities_added@).to_set() == capability_texts(to_models).to_set().difference(
        capability_texts(from_models).to_set(),
    )
    &&& sorted_texts(texts(d.capabilities_removed@))
    &&& texts(d.capabilities_removed@).to_set() == capability_texts(
        from_models,
    ).to_set().difference(capability_texts(to_models).to_set())
}

fn last_model_index(models: &[ProviderRevisionModel], name: &str) -> (r: Option<usize>)
    ensures
        match last_model(models@, name@) {
            Some(i) => r matches Some(j) && j == i,
            None => r is None,
        },
{
    let mut n = models.len();
    assert(models@.take(n as int) =~= models@);
    while n > 0
        invariant
            n <= models@.len(),
            last_model(models@, name@) == last_model(models@.take(n as int), name@),
        decreases n,
    {
        let ghost prefix = models@.take(n as int);
        assert(prefix.last() == models@[n - 1]);
        if str_eq(models[n - 1].upstream_model.as_str(), name) {
            return Some(n - 1);
        }
        assert(prefix.drop_last() =~= models@.take(n - 1));
        n = n - 1;
    }
    None
}

fn names_of(models: &[ProviderRevisionModel]) -> (r: Vec<String>)
    ensures
        texts(r@) == model_names(models@),
{
    let mut r: Vec<String> = Vec::new();
    let mut i: usize = 0;
    while i < models.len()
        invariant
            i <= models@.len(),
            texts(r@) == model_names(models@.take(i as int)),
        decreases models@.len() - i,
    {
        let name = models[i].upstream_model.clone();
        proof {
            texts_push(r@, name);
        }
        r.push(name);
        assert(texts(r@) =~= model_names(models@.take(i + 1)));
        i = i + 1;
    }
    assert(models@.take(models@.len() as int) =~= models@);
    r
}

fn same_model_state(a: &ProviderRevisionModel, b: &ProviderRevisionModel) -> (r: bool)
    ensures
        r == (model_state(*a) == model_state(*b)),
{
    let same_time = match (a.discovered_at, b.discovered_at) {
        (Some(x), Some(y)) => x.micros == y.micros,
        (None, None) => true,
        _ => false,
    };
    str_eq(a.display_name.as_str(), b.display_name.as_str()) && a.enabled == b.enabled && same_time
}

/// The names of the models both revisions hold in different states.
fn changed_model_names(from: &[ProviderRevisionModel], to: &[ProviderRevisionModel]) -> (r: Vec<
    String,
>)
    ensures
        sorted_texts(texts(r@)),
        texts(r@).to_set() == Set::new(|name: Seq<char>| model_changed(from@, to@, name)),
{
    let mut r: Vec<String> = Vec::new();
    let mut i: usize = 0;
    while i < to.len()
        invariant
            i <= to@.len(),
            sorted_texts(texts(r@)),
            texts(r@).to_set() == Set::new(
                |name: Seq<char>|
                    model_changed(from@, to@, name) && model_names(to@.take(i as int)).contains(name),
            ),
        decreases to@.len() - i,
    {
        let name = to[i].upstream_model.as_str();
        let ghost prefix_names = model_names(to@.take(i as int));
        let ghost before = texts(r@);
        assert(model_names(to@.take(i + 1)) =~= prefix_names.push(name@));
        proof {
            last_model_facts(to@, name@);
            last_model_facts(from@, name@);
            assert(model_names(to@)[i as int] == name@);
        }
        let j = last_model_index(to, name).unwrap();
        let changed = match last_model_index(from, name) {
            Some(k) => !same_model_state(&from[k], &to[j]),
            None => false,
        };
        assert(changed == model_changed(from@, to@, name@));
        if changed {
            insert_text(&mut r, to[i].upstream_model.clone());
        }
        assert(texts(r@).to_set() =~= Set::new(
            |n: Seq<char>| model_changed(from@, to@, n) && model_names(to@.take(i + 1)).contains(n),
        )) by {
            assert forall|n: Seq<char>|
                #![trigger model_names(to@.take(i + 1)).contains(n)]
                model_names(to@.take(i + 1)).contains(n) <==> (prefix_names.contains(n) || n
                    == name@) by {
                push_contains(prefix_names, name@, n);
            }
            if changed {
                assert(texts(r@).to_set() == before.to_set().insert(name@));
            } else {
                assert(texts(r@) == before);
            }
        }
        i = i + 1;
    }
    assert(to@.take(to@.len() as int) =~= to@);
    assert(texts(r@).to_set() =~= Set::new(|name: Seq<char>| model_changed(from@, to@, name))) by {
        assert forall|n: Seq<char>| model_changed(from@, to@, n) implies model_names(to@).contains(n) by {
            last_model_facts(to@, n);
        }
    }
    r
}

fn capability_text_of(model: &str, c: &CapabilityRecord) -> (s: String)
    ensures
        s@ == capability_text(model@, *c),
{
    let mut s = String::new();
    s.append(model);
    s.append("/");
    s.append(c.operation.as_str());
    s.append("/");
    s.append(c.surface.as_str());
    s.append("/");
    s.append(c.mode.as_str());
    proof {
        reveal_strlit("/");
    }
    assert(s@ =~= capability_text(model@, *c));
    s
}

fn capability_texts_of(models: &[ProviderRevisionModel]) -> (r: Vec<String>)
    ensures
        texts(r@) == capability_texts(models@),
{
    let mut r: Vec<String> = Vec::new();
    let mut i: usize = 0;
    while i < models.len()
        invariant
            i <= models@.len(),
            texts(r@) == capability_texts(models@.take(i as int)),
        decreases models@.len() - i,
    {
        let m = &models[i];
        let ghost base = texts(r@);
        let mut k: usize = 0;
        while k < m.capabilities.len()
            invariant
                i < models@.len(),
                *m == models@[i as int],
                k <= m.capabilities@.len(),
                texts(r@) == base + model_capability_texts(*m).take(k as int),
            decreases m.capabilities@.len() - k,
        {
            let t = capability_text_of(m.upstream_model.as_str(), &m.capabilities[k]);
            proof {
                texts_push(r@, t);
            }
            r.push(t);
            assert(texts(r@) =~= base + model_capability_texts(*m).take(k + 1));
            k = k + 1;
        }
        assert(models@.take(i + 1).drop_last() =~= models@.take(i as int));
        assert(model_capability_texts(*m).take(m.capabilities@.len() as int) =~= model_capability_texts(*m));
        assert(texts(r@) =~= capability_texts(models@.take(i + 1)));
        i = i + 1;
    }
    assert(models@.take(models@.len() as int) =~= models@);
    r
}

fn same_credential(a: &Option<uuid::Uuid>, b: &Option<uuid::Uuid>) -> (r: bool)
    ensures
        r == (*a == *b),
{
    match (a, b) {
        (Some(x), Some(y)) => same_uuid(x, y),
        (None, None) => true,
        _ => false,
    }
}

/// Compares two provider revisions: their settings, the models each holds
/// (a name counts once, with the state of its last entry), and their
/// capability tuples.
pub fn diff_provider_revisions(
    from: &ProviderRevisionSettings,
    to: &ProviderRevisionSettings,
    from_models: &[ProviderRevisionModel],
    to_models: &[ProviderRevisionModel],
) -> (d: ProviderRevisionDiff)
    ensures
        provider_diff_ok(*from, *to, from_models@, to_models@, d),
{
    let from_names = names_of(from_models);
    let to_names = names_of(to_models);
    let from_capabilities = capability_texts_of(from_models);
    let to_capabilities = capability_texts_of(to_models);
    ProviderRevisionDiff {
        from_revision: from.revision,
        to_revision: to.revision,
        name_changed: !str_eq(from.name.as_str(), to.name.as_str()),
        endpoint_changed: !same_opt_text(&from.endpoint, &to.endpoint),
        cloud_context_changed: !same_opt_text(&from.cloud_region, &to.cloud_region)
            || !same_opt_text(&from.cloud_project, &to.cloud_project),
        deployment_changed: !same_opt_text(&from.deployment, &to.deployment),
        api_version_changed: !same_opt_text(&from.api_version, &to.api_version),
        connector_changed: !str_eq(from.kind.as_str(), to.kind.as_str()) || !str_eq(
            from.auth_mode.as_str(),
            to.auth_mode.as_str(),
        ) || from.connector_ready != to.connector_ready,
        credential_changed: !same_credential(&from.credential_version_id, &to.credential_version_id),
        models_added: sorted_difference(to_names.as_slice(), from_names.as_slice()),
        models_removed: sorted_difference(from_names.as_slice(), to_names.as_slice()),
        models_changed: changed_model_names(from_models, to_models),
        capabilities_added: sorted_difference(to_capabilities.as_slice(), from_capabilities.as_slice()),
        capabilities_removed: sorted_difference(
            from_capabilities.as_slice(),
            to_capabilities.as_slice(),
        ),
    }
}

/// What a route revision diff reads of one target.
#[derive(Clone, Debug)]
pub struct RouteTargetState {
    /// The provider's identifier as its 128-bit value.
    pub provider_id: u128,
    pub upstream_model: String,
    pub priority: i32,
    pub weight: i32,
    pub timeout_ms: i32,
    pub position: i32,
}

/// The settings a route revision froze.
#[derive(Clone, Debug)]
pub struct RouteRevisionSettings {
    pub revision: i32,
    pub slug: String,
    pub overall_timeout_ms: i32,
    pub max_attempts: i16,
    pub operations: Vec<OperationKind>,
    pub targets: Vec<RouteTargetState>,
}

/// What changed from one route revision to another.
#[derive(Clone, Debug)]
pub struct RouteRevisionDiff {
    pub from_revision: i32,
    pub to_revision: i32,
    pub slug_changed: bool,
    pub timeout_changed: bool,
    pub max_attempts_changed: bool,
    pub operations_added: Vec<OperationKind>,
    pub operations_removed: Vec<OperationKind>,
    pub targets_added: Vec<String>,
    pub targets_removed: Vec<String>,
    pub targets_changed: Vec<String>,
}

/// A target's key: the provider's hyphenated identifier and the model, as
/// "provider/model".
pub open spec fn target_key(t: RouteTargetState) -> Seq<char> {
    hyphenated_uuid(t.provider_id) + seq!['/'] + t.upstream_model@
}

pub open spec fn target_value(t: RouteTargetState) -> (i32, i32, i32, i32) {
    (t.priority, t.weight, t.timeout_ms, t.position)
}

pub open spec fn target_keys(targets: Seq<RouteTargetState>) -> Seq<Seq<char>> {
    targets.map_values(|t: RouteTargetState| target_key(t))
}

/// The index of the last occurrence of a text.
pub open spec fn last_index_of(s: Seq<Seq<char>>, key: Seq<char>) -> Option<int>
    decreases s.len(),
{
    if s.len() == 0 {
        None
    } else if s.last() == key {
        Some(s.len() - 1)
    } else {
        last_index_of(s.drop_last(), key)
    }
}

pub proof fn last_index_facts(s: Seq<Seq<char>>, key: Seq<char>)
    ensures
        last_index_of(s, key) matches Some(i) ==> 0 <= i < s.len() && s[i] == key,
        last_index_of(s, key) is None <==> !s.contains(key),
    decreases s.len(),
{
    if s.len() > 0 {
        last_index_facts(s.drop_last(), key);
        if s.contains(key) && s.last() != key {
            let k = choose|k: int| 0 <= k < s.len() && s[k] == key;
            assert(s.drop_last()[k] == key);
        }
        if s.last() == key {
            assert(s[s.len() - 1] == key);
        }
    }
}

/// A target both revisions hold, under the same key, with other settings.
pub open spec fn target_changed(
    from: Seq<RouteTargetState>,
    to: Seq<RouteTargetState>,
    key: Seq<char>,
) -> bool {
    match (last_index_of(target_keys(from), key), last_index_of(target_keys(to), key)) {
        (Some(i), Some(j)) => target_value(from[i]) != target_value(to[j]),
        _ => false,
    }
}

/// The order operations are listed in: the order they are declared in.
pub open spec fn operation_rank(o: OperationKind) -> int {
    match o {
        OperationKind::Generation => 0,
        OperationKind::Embeddings => 1,
        OperationKind::ImageGeneration => 2,
        OperationKind::TokenCount => 3,
        OperationKind::Moderation => 4,
        OperationKind::ModelList => 5,
        OperationKind::ModelGet => 6,
        OperationKind::VideoGet => 7,
        OperationKind::VideoContent => 8,
        OperationKind::VideoDelete => 9,
    }
}

pub open spec fn operations_sorted(s: Seq<OperationKind>) -> bool {
    forall|i: int, j: int|
        0 <= i < j < s.len() ==> operation_rank(#[trigger] s[i]) < operation_rank(#[trigger] s[j])
}

/// The complete meaning of a route revision diff.
pub open spec fn route_diff_ok(from: RouteRevisionSettings, to: RouteRevisionSettings, d: RouteRevisionDiff) -> bool {
    &&& d.from_revision == from.revision
    &&& d.to_revision == to.revision
    &&& d.slug_changed == (from.slug@ != to.slug@)
    &&& d.timeout_changed == (from.overall_timeout_ms != to.overall_timeout_ms)
    &&& d.max_attempts_changed == (from.max_attempts != to.max_attempts)
    &&& operations_sorted(d.operations_added@)
    &&& d.operations_added@.to_set() == to.operations@.to_set().difference(from.operations@.to_set())
    &&& operations_sorted(d.operations_removed@)
    &&& d.operations_removed@.to_set() == from.operations@.to_set().difference(
        to.operations@.to_set(),
    )
    &&& sorted_texts(texts(d.targets_added@))
    &&& texts(d.targets_added@).to_set() == target_keys(to.targets@).to_set().difference(
        target_keys(from.targets@).to_set(),
    )
    &&& sorted_texts(texts(d.targets_removed@))
    &&& texts(d.targets_removed@).to_set() == target_keys(from.targets@).to_set().difference(
        target_keys(to.targets@).to_set(),
    )
    &&& sorted_texts(texts(d.targets_changed@))
    &&& texts(d.targets_changed@).to_set() == Set::new(
        |key: Seq<char>| target_changed(from.targets@, to.targets@, key),
    )
}

fn target_key_of(t: &RouteTargetState) -> (s: String)
    ensures
        s@ == target_key(*t),
{
    let mut s = uuid_text(t.provider_id);
    s.append("/");
    s.append(t.upstream_model.as_str());
    proof {
        reveal_strlit("/");
    }
    assert(s@ =~= target_key(*t));
    s
}

fn target_keys_of(targets: &[RouteTargetState]) -> (r: Vec<String>)
    ensures
        texts(r@) == target_keys(targets@),
{
    let mut r: Vec<String> = Vec::new();
    let mut i: usize = 0;
    while i < targets.len()
        invariant
            i <= targets@.len(),
            texts(r@) == target_keys(targets@.take(i as int)),
        decreases targets@.len() - i,
    {
        let key = target_key_of(&targets[i]);
        proof {
            texts_push(r@, key);
        }
        r.push(key);
        assert(texts(r@) =~= target_keys(targets@.take(i + 1)));
        i = i + 1;
    }
    assert(targets@.take(targets@.len() as int) =~= targets@);
    r
}

fn last_text_index(s: &[String], key: &str) -> (r: Option<usize>)
    ensures
        match last_index_of(texts(s@), key@) {
            Some(i) => r matches Some(j) && j == i,
            None => r is None,
        },
{
    let mut n = s.len();
    assert(texts(s@).take(n as int) =~= texts(s@));
    while n > 0
        invariant
            n <= s@.len(),
            last_index_of(texts(s@), key@) == last_index_of(texts(s@).take(n as int), key@),
        decreases n,
    {
        let ghost prefix = texts(s@).take(n as int);
        assert(prefix.last() == s@[n - 1]@);
        if str_eq(s[n - 1].as_str(), key) {
            return Some(n - 1);
        }
        assert(prefix.drop_last() =~= texts(s@).take(n - 1));
        n = n - 1;
    }
    None
}

fn changed_target_keys(
    from: &[RouteTargetState],
    to: &[RouteTargetState],
    from_keys: &[String],
    to_keys: &[String],
) -> (r: Vec<String>)
    requires
        texts(from_keys@) == target_keys(from@),
        texts(to_keys@) == target_keys(to@),
    ensures
        sorted_texts(texts(r@)),
        texts(r@).to_set() == Set::new(|key: Seq<char>| target_changed(from@, to@, key)),
{
    let mut r: Vec<String> = Vec::new();
    let mut i: usize = 0;
    while i < to_keys.len()
        invariant
            i <= to_keys@.len(),
            texts(from_keys@) == target_keys(from@),
            texts(to_keys@) == target_keys(to@),
            sorted_texts(texts(r@)),
            texts(r@).to_set() == Set::new(
                |key: Seq<char>|
                    target_changed(from@, to@, key) && texts(to_keys@).take(i as int).contains(key),
            ),
        decreases to_keys@.len() - i,
    {
        let key = to_keys[i].as_str();
        let ghost prefix = texts(to_keys@).take(i as int);
        let ghost before = texts(r@);
        assert(texts(to_keys@).take(i + 1) =~= prefix.push(key@));
        proof {
            last_index_facts(texts(to_keys@), key@);
            last_index_facts(texts(from_keys@), key@);
            assert(texts(to_keys@)[i as int] == key@);
        }
        let j = last_text_index(to_keys, key).unwrap();
        let changed = match last_text_index(from_keys, key) {
            Some(k) => {
                let a = &from[k];
                let b = &to[j];
                !(a.priority == b.priority && a.weight == b.weight && a.timeout_ms == b.timeout_ms
                    && a.position == b.position)
            },
            None => false,
        };
        assert(changed == target_changed(from@, to@, key@));
        if changed {
            insert_text(&mut r, to_keys[i].clone());
        }
        assert(texts(r@).to_set() =~= Set::new(
            |k: Seq<char>| target_changed(from@, to@, k) && texts(to_keys@).take(i + 1).contains(k),
        )) by {
            assert forall|k: Seq<char>|
                #![trigger texts(to_keys@).take(i + 1).contains(k)]
                texts(to_keys@).take(i + 1).contains(k) <==> (prefix.contains(k) || k == key@) by {
                push_contains(prefix, key@, k);
            }
            if changed {
                assert(texts(r@).to_set() == before.to_set().insert(key@));
            } else {
                assert(texts(r@) == before);
            }
        }
        i = i + 1;
    }
    assert(texts(to_keys@).take(to_keys@.len() as int) =~= texts(to_keys@));
    assert(texts(r@).to_set() =~= Set::new(|key: Seq<char>| target_changed(from@, to@, key))) by {
        assert forall|k: Seq<char>| target_changed(from@, to@, k) implies texts(to_keys@).contains(k) by {
            last_index_facts(texts(to_keys@), k);
        }
    }
    r
}

fn has_operation(ops: &[OperationKind], o: OperationKind) -> (b: bool)
    ensures
        b == ops@.contains(o),
{
    let mut k: usize = 0;
    while k < ops.len()
        invariant
            k <= ops@.len(),
            forall|j: int| 0 <= j < k ==> ops@[j] != o,
        decreases ops@.len() - k,
    {
        if ops[k] == o {
            assert(ops@[k as int] == o);
            return true;
        }
        k = k + 1;
    }
    false
}

/// The operations of `a` that `b` lacks, in declaration order.
fn operations_difference(a: &[OperationKind], b: &[OperationKind]) -> (r: Vec<OperationKind>)
    ensures
        operations_sorted(r@),
        r@.to_set() == a@.to_set().difference(b@.to_set()),
{
    let all = [
        OperationKind::Generation,
        OperationKind::Embeddings,
        OperationKind::ImageGeneration,
        OperationKind::TokenCount,
        OperationKind::Moderation,
        OperationKind::ModelList,
        OperationKind::ModelGet,
        OperationKind::VideoGet,
        OperationKind::VideoContent,
        OperationKind::VideoDelete,
    ];
    let mut r: Vec<OperationKind> = Vec::new();
    let mut k: usize = 0;
    while k < 10
        invariant
            k <= 10,
            forall|j: int| 0 <= j < 10 ==> operation_rank(#[trigger] all@[j]) == j,
            operations_sorted(r@),
            forall|j: int| 0 <= j < r@.len() ==> operation_rank(#[trigger] r@[j]) < k,
            r@.to_set() == Set::new(
                |o: OperationKind| operation_rank(o) < k && a@.contains(o) && !b@.contains(o),
            ),
        decreases 10 - k,
    {
        let o = all[k];
        let ghost before = r@;
        if has_operation(a, o) && !has_operation(b, o) {
            r.push(o);
            proof {
                crate::ordering::to_set_push(before, o);
            }
        }
        assert(r@.to_set() =~= Set::new(
            |x: OperationKind| operation_rank(x) < k + 1 && a@.contains(x) && !b@.contains(x),
        )) by {
            assert forall|x: OperationKind| operation_rank(x) == k implies x == o by {
                assert(operation_rank(all@[k as int]) == k);
            }
        }
        k = k + 1;
    }
    assert(r@.to_set() =~= a@.to_set().difference(b@.to_set())) by {
        assert forall|x: OperationKind| operation_rank(x) < 10 by {}
    }
    r
}

/// Compares two route revisions: their settings, operations and targets
/// (a key counts once, with the settings of its last target).
pub fn diff_route_revisions(from: &RouteRevisionSettings, to: &RouteRevisionSettings) -> (d:
    RouteRevisionDiff)
    ensures
        route_diff_ok(*from, *to, d),
{
    let from_keys = target_keys_of(from.targets.as_slice());
    let to_keys = target_keys_of(to.targets.as_slice());
    RouteRevisionDiff {
        from_revision: from.revision,
        to_revision: to.revision,
        slug_changed: !str_eq(from.slug.as_str(), to.slug.as_str()),
        timeout_changed: from.overall_timeout_ms != to.overall_timeout_ms,
        max_attempts_changed: from.max_attempts != to.max_attempts,
        operations_added: operations_difference(to.operations.as_slice(), from.operations.as_slice()),
        operations_removed: operations_difference(
            from.operations.as_slice(),
            to.operations.as_slice(),
        ),
        targets_added: sorted_difference(to_keys.as_slice(), from_keys.as_slice()),
        targets_removed: sorted_difference(from_keys.as_slice(), to_keys.as_slice()),
        targets_changed: changed_target_keys(
            from.targets.as_slice(),
            to.targets.as_slice(),
            from_keys.as_slice(),
            to_keys.as_slice(),
        ),
    }
}

proof fn texts_empty_when_set_empty(v: Seq<String>)
    requires
        texts(v).to_set() == Set::<Seq<char>>::empty(),
    ensures
        v.len() == 0,
{
    if v.len() > 0 {
        assert(texts(v).to_set().contains(texts(v)[0]));
    }
}

/// A provider revision compared with itself shows no change at all.
pub proof fn provider_self_diff_is_empty(
    settings: ProviderRevisionSettings,
    models: Seq<ProviderRevisionModel>,
    d: ProviderRevisionDiff,
)
    requires
        provider_diff_ok(settings, settings, models, models, d),
    ensures
        !d.name_changed && !d.endpoint_changed && !d.cloud_context_changed
            && !d.deployment_changed && !d.api_version_changed && !d.connector_changed
            && !d.credential_changed,
        d.models_added@.len() == 0,
        d.models_removed@.len() == 0,
        d.models_changed@.len() == 0,
        d.capabilities_added@.len() == 0,
        d.capabilities_removed@.len() == 0,
{
    assert(model_names(models).to_set().difference(model_names(models).to_set()) =~= Set::empty());
    assert(capability_texts(models).to_set().difference(capability_texts(models).to_set())
        =~= Set::empty());
    assert(Set::new(|name: Seq<char>| model_changed(models, models, name)) =~= Set::empty());
    texts_empty_when_set_empty(d.models_added@);
    texts_empty_when_set_empty(d.models_removed@);
    texts_empty_when_set_empty(d.models_changed@);
    texts_empty_when_set_empty(d.capabilities_added@);
    texts_empty_when_set_empty(d.capabilities_removed@);
}

/// A route revision compared with itself shows no change at all.
pub proof fn route_self_diff_is_empty(settings: RouteRevisionSettings, d: RouteRevisionDiff)
    requires
        route_diff_ok(settings, settings, d),
    ensures
        !d.slug_changed && !d.timeout_changed && !d.max_attempts_changed,
        d.operations_added@.len() == 0,
        d.operations_removed@.len() == 0,
        d.targets_added@.len() == 0,
        d.targets_removed@.len() == 0,
        d.targets_changed@.len() == 0,
{
    let ops = settings.operations@.to_set();
    assert(ops.difference(ops) =~= Set::empty());
    if d.operations_added@.len() > 0 {
        assert(d.operations_added@.to_set().contains(d.operations_added@[0]));
    }
    if d.operations_removed@.len() > 0 {
        assert(d.operations_removed@.to_set().contains(d.operations_removed@[0]));
    }
    let keys = target_keys(settings.targets@).to_set();
    assert(keys.difference(keys) =~= Set::empty());
    assert(Set::new(|key: Seq<char>| target_changed(settings.targets@, settings.targets@, key))
        =~= Set::empty());
    texts_empty_when_set_empty(d.targets_added@);
    texts_empty_when_set_empty(d.targets_removed@);
    texts_empty_when_set_empty(d.targets_changed@);
}

/// A model both revisions hold is listed as changed exactly when its display
/// name, its enablement or its discovery time differs between them (each
/// revision read by the last entry with that name). Models held by only one
/// revision are never listed as changed.
pub proof fn changed_models_are_those_whose_state_differs(
    from: ProviderRevisionSettings,
    to: ProviderRevisionSettings,
    from_models: Seq<ProviderRevisionModel>,
    to_models: Seq<ProviderRevisionModel>,
    d: ProviderRevisionDiff,
    name: Seq<char>,
)
    requires
        provider_diff_ok(from, to, from_models, to_models, d),
    ensures
        texts(d.models_changed@).contains(name) <==> (exists|i: int, j: int|
            last_model(from_models, name) == Some(i) && last_model(to_models, name) == Some(j) && (
            from_models[i].display_name@ != to_models[j].display_name@ || from_models[i].enabled
                != to_models[j].enabled || from_models[i].discovered_at
                != to_models[j].discovered_at)),
{
    let changed = Set::new(|n: Seq<char>| model_changed(from_models, to_models, n));
    assert(texts(d.models_changed@).contains(name) <==> texts(d.models_changed@).to_set().contains(
        name,
    ));
    assert(changed.contains(name) == model_changed(from_models, to_models, name));
    if let (Some(i), Some(j)) = (last_model(from_models, name), last_model(to_models, name)) {
        let a = model_state(from_models[i]);
        let b = model_state(to_models[j]);
        assert((a != b) <==> (a.0 != b.0 || a.1 != b.1 || a.2 != b.2));
    }
}

/// Comparing two provider revisions the other way round swaps what was added
/// and what was removed, and finds the same changes.
pub proof fn provider_diff_reverses(
    from: ProviderRevisionSettings,
    to: ProviderRevisionSettings,
    from_models: Seq<ProviderRevisionModel>,
    to_models: Seq<ProviderRevisionModel>,
    forward: ProviderRevisionDiff,
    backward: ProviderRevisionDiff,
)
    requires
        provider_diff_ok(from, to, from_models, to_models, forward),
        provider_diff_ok(to, from, to_models, from_models, backward),
    ensures
        texts(forward.models_added@) == texts(backward.models_removed@),
        texts(forward.models_removed@) == texts(backward.models_added@),
        texts(forward.models_changed@) == texts(backward.models_changed@),
        texts(forward.capabilities_added@) == texts(backward.capabilities_removed@),
        texts(forward.capabilities_removed@) == texts(backward.capabilities_added@),
        forward.name_changed == backward.name_changed,
        forward.endpoint_changed == backward.endpoint_changed,
        forward.cloud_context_changed == backward.cloud_context_changed,
        forward.deployment_changed == backward.deployment_changed,
        forward.api_version_changed == backward.api_version_changed,
        forward.connector_changed == backward.connector_changed,
        forward.credential_changed == backward.credential_changed,
{
    crate::ordering::sorted_texts_unique(texts(forward.models_added@), texts(backward.models_removed@));
    crate::ordering::sorted_texts_unique(texts(forward.models_removed@), texts(backward.models_added@));
    assert(Set::new(|name: Seq<char>| model_changed(from_models, to_models, name)) =~= Set::new(
        |name: Seq<char>| model_changed(to_models, from_models, name),
    ));
    crate::ordering::sorted_texts_unique(
        texts(forward.models_changed@),
        texts(backward.models_changed@),
    );
    crate::ordering::sorted_texts_unique(
        texts(forward.capabilities_added@),
        texts(backward.capabilities_removed@),
    );
    crate::ordering::sorted_texts_unique(
        texts(forward.capabilities_removed@),
        texts(backward.capabilities_added@),
    );
}

/// Operation lists in declaration order with the same elements are the same
/// list.
proof fn operations_sorted_unique(s: Seq<OperationKind>, t: Seq<OperationKind>)
    requires
        operations_sorted(s),
        operations_sorted(t),
        s.to_set() == t.to_set(),
    ensures
        s == t,
    decreases s.len(),
{
    if s.len() == 0 {
        if t.len() > 0 {
            assert(t.to_set().contains(t[0]));
        }
        assert(s =~= t);
    } else if t.len() == 0 {
        assert(s.to_set().contains(s[0]));
    } else {
        assert(t.to_set().contains(s[0]));
        assert(s.to_set().contains(t[0]));
        let i = choose|i: int| 0 <= i < t.len() && t[i] == s[0];
        let j = choose|j: int| 0 <= j < s.len() && s[j] == t[0];
        if i > 0 && j > 0 {
            assert(operation_rank(t[0]) < operation_rank(t[i]));
            assert(operation_rank(s[0]) < operation_rank(s[j]));
        }
        assert(s[0] == t[0]);
        let s1 = s.drop_first();
        let t1 = t.drop_first();
        assert(s1.to_set() =~= t1.to_set()) by {
            assert forall|x: OperationKind| s1.to_set().contains(x) implies t1.to_set().contains(
                x,
            ) by {
                let k = choose|k: int| 0 <= k < s1.len() && s1[k] == x;
                assert(operation_rank(s[0]) < operation_rank(s[k + 1]));
                assert(s.to_set().contains(x));
                let m = choose|m: int| 0 <= m < t.len() && t[m] == x;
                assert(m != 0);
                assert(t1[m - 1] == x);
            }
            assert forall|x: OperationKind| t1.to_set().contains(x) implies s1.to_set().contains(
                x,
            ) by {
                let k = choose|k: int| 0 <= k < t1.len() && t1[k] == x;
                assert(operation_rank(t[0]) < operation_rank(t[k + 1]));
                assert(t.to_set().contains(x));
                let m = choose|m: int| 0 <= m < s.len() && s[m] == x;
                assert(m != 0);
                assert(s1[m - 1] == x);
            }
        }
        assert(operations_sorted(s1));
        assert(operations_sorted(t1));
        operations_sorted_unique(s1, t1);
        assert forall|k: int| 0 <= k < s.len() implies s[k] == t[k] by {
            if k > 0 {
                assert(s[k] == s1[k - 1]);
                assert(t[k] == t1[k - 1]);
            }
        }
        assert(s =~= t);
    }
}

/// Comparing two route revisions the other way round swaps what was added
/// and what was removed, and finds the same changes.
pub proof fn route_diff_reverses(
    from: RouteRevisionSettings,
    to: RouteRevisionSettings,
    forward: RouteRevisionDiff,
    backward: RouteRevisionDiff,
)
    requires
        route_diff_ok(from, to, forward),
        route_diff_ok(to, from, backward),
    ensures
        forward.operations_added@ == backward.operations_removed@,
        forward.operations_removed@ == backward.operations_added@,
        texts(forward.targets_added@) == texts(backward.targets_removed@),
        texts(forward.targets_removed@) == texts(backward.targets_added@),
        texts(forward.targets_changed@) == texts(backward.targets_changed@),
        forward.slug_changed == backward.slug_changed,
        forward.timeout_changed == backward.timeout_changed,
        forward.max_attempts_changed == backward.max_attempts_changed,
{
    operations_sorted_unique(forward.operations_added@, backward.operations_removed@);
    operations_sorted_unique(forward.operations_removed@, backward.operations_added@);
    crate::ordering::sorted_texts_unique(texts(forward.targets_added@), texts(backward.targets_removed@));
    crate::ordering::sorted_texts_unique(texts(forward.targets_removed@), texts(backward.targets_added@));
    assert(Set::new(|key: Seq<char>| target_changed(from.targets@, to.targets@, key)) =~= Set::new(
        |key: Seq<char>| target_changed(to.targets@, from.targets@, key),
    ));
    crate::ordering::sorted_texts_unique(
        texts(forward.targets_changed@),
        texts(backward.targets_changed@),
    );
}

} // verus!
