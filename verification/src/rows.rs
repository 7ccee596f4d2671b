//! Stored rows of the provider inventory and their capabilities, and how
//! they are split and read back.
use vstd::prelude::*;

use crate::carried::{same_uuid, Timestamp};
use crate::configuration::{
    enforce_provider_revision_diff_limit, CapabilityRecord, ConfigurationError,
};
use crate::domain::{
    mode_from_text, operation_from_text, source_from_text, surface_from_text, CapabilitySource,
    OperationKind, Surface, TransportMode,
};

verus! {

/// One stored capability, its enumerations still as text.
#[derive(Clone, Debug)]
pub struct CapabilityRow {
    pub operation: String,
    pub surface: String,
    pub mode: String,
    pub source: String,
    pub certified_at: Option<Timestamp>,
}

/// A capability row of a draft model.
#[derive(Clone, Debug)]
pub struct ModelCapabilityRow {
    pub provider_model_id: uuid::Uuid,
    pub operation: String,
    pub surface: String,
    pub mode: String,
    pub source: String,
    pub certified_at: Option<Timestamp>,
}

impl ModelCapabilityRow {
    /// Separates the model the capability belongs to from the capability.
    pub fn split(self) -> (r: (uuid::Uuid, CapabilityRow))
        ensures
            r.0 == self.provider_model_id,
            r.1 == (CapabilityRow {
                operation: self.operation,
                surface: self.surface,
                mode: self.mode,
                source: self.source,
                certified_at: self.certified_at,
            }),
    {
        (
            self.provider_model_id,
            CapabilityRow {
                operation: self.operation,
                surface: self.surface,
                mode: self.mode,
                source: self.source,
                certified_at: self.certified_at,
            },
        )
    }
}

/// A capability row of a model frozen in a provider revision.
#[derive(Clone, Debug)]
pub struct RevisionCapabilityRow {
    pub provider_revision_model_id: uuid::Uuid,
    pub operation: String,
    pub surface: String,
    pub mode: String,
    pub source: String,
    pub certified_at: Option<Timestamp>,
}

impl RevisionCapabilityRow {
    /// Separates the revision model the capability belongs to from the
    /// capability.
    pub fn split(self) -> (r: (uuid::Uuid, CapabilityRow))
        ensures
            r.0 == self.provider_revision_model_id,
            r.1 == (CapabilityRow {
                operation: self.operation,
                surface: self.surface,
                mode: self.mode,
                source: self.source,
                certified_at: self.certified_at,
            }),
    {
        (
            self.provider_revision_model_id,
            CapabilityRow {
                operation: self.operation,
                surface: self.surface,
                mode: self.mode,
                source: self.source,
                certified_at: self.certified_at,
            },
        )
    }
}

/// A model of a provider's draft inventory.
#[derive(Clone, Debug)]
pub struct ProviderModelRow {
    pub id: uuid::Uuid,
    pub upstream_model: String,
    pub display_name: String,
    pub enabled: bool,
    pub discovered_at: Option<Timestamp>,
}

/// A model listed across providers, with the provider it belongs to.
#[derive(Clone, Debug)]
pub struct ProviderInventoryRow {
    pub id: uuid::Uuid,
    pub upstream_model: String,
    pub display_name: String,
    pub enabled: bool,
    pub discovered_at: Option<Timestamp>,
    pub provider_id: uuid::Uuid,
    pub provider_name: String,
    pub provider_kind: String,
}

impl ProviderInventoryRow {
    /// The model part of the row.
    pub fn model(self) -> (m: ProviderModelRow)
        ensures
            m == (ProviderModelRow {
                id: self.id,
                upstream_model: self.upstream_model,
                display_name: self.display_name,
                enabled: self.enabled,
                discovered_at: self.discovered_at,
            }),
    {
        ProviderModelRow {
            id: self.id,
            upstream_model: self.upstream_model,
            display_name: self.display_name,
            enabled: self.enabled,
            discovered_at: self.discovered_at,
        }
    }
}

/// What a stored capability row reads as: each enumeration must be one the
/// gateway knows, else the row is reported as an invalid stored value.
pub open spec fn capability_from_text(row: CapabilityRow) -> Result<CapabilityRecord, &'static str> {
    match (
        operation_from_text(row.operation@),
        surface_from_text(row.surface@),
        mode_from_text(row.mode@),
        source_from_text(row.source@),
    ) {
        (None, _, _, _) => Err("capability operation"),
        (Some(_), None, _, _) => Err("capability surface"),
        (Some(_), Some(_), None, _) => Err("capability transport mode"),
        (Some(_), Some(_), Some(_), None) => Err("capability source"),
        (Some(operation), Some(surface), Some(mode), Some(source)) => Ok(
            CapabilityRecord { operation, surface, mode, source, certified_at: row.certified_at },
        ),
    }
}

/// Reads a stored capability.
pub fn capability_from_row(row: &CapabilityRow) -> (r: Result<CapabilityRecord, ConfigurationError>)
    ensures
        match capability_from_text(*row) {
            Ok(c) => r matches Ok(v) && v == c,
            Err(what) => r matches Err(ConfigurationError::InvalidStoredValue(w)) && w == what,
        },
{
    let operation = match OperationKind::parse(row.operation.as_str()) {
        Some(o) => o,
        None => return Err(ConfigurationError::InvalidStoredValue("capability operation")),
    };
    let surface = match Surface::parse(row.surface.as_str()) {
        Some(s) => s,
        None => return Err(ConfigurationError::InvalidStoredValue("capability surface")),
    };
    let mode = match TransportMode::parse(row.mode.as_str()) {
        Some(m) => m,
        None => return Err(ConfigurationError::InvalidStoredValue("capability transport mode")),
    };
    let source = match CapabilitySource::parse(row.source.as_str()) {
        Some(c) => c,
        None => return Err(ConfigurationError::InvalidStoredValue("capability source")),
    };
    Ok(CapabilityRecord { operation, surface, mode, source, certified_at: row.certified_at })
}

/// A model of a provider's inventory with its capabilities.
#[derive(Clone, Debug)]
pub struct ProviderModelRecord {
    pub id: uuid::Uuid,
    pub upstream_model: String,
    pub display_name: String,
    pub enabled: bool,
    pub discovered_at: Option<Timestamp>,
    pub capabilities: Vec<CapabilityRecord>,
}

/// A model frozen in a provider revision, with the draft model it was taken
/// from.
#[derive(Clone, Debug)]
pub struct ProviderRevisionModelRow {
    pub revision_model_id: uuid::Uuid,
    pub source_provider_model_id: uuid::Uuid,
    pub upstream_model: String,
    pub display_name: String,
    pub enabled: bool,
    pub discovered_at: Option<Timestamp>,
}

/// Draft capability rows as (model, capability) pairs, as `split` gives them.
pub open spec fn model_capability_pairs(rows: Seq<ModelCapabilityRow>) -> Seq<
    (uuid::Uuid, CapabilityRow),
> {
    rows.map_values(
        |r: ModelCapabilityRow|
            (
                r.provider_model_id,
                CapabilityRow {
                    operation: r.operation,
                    surface: r.surface,
                    mode: r.mode,
                    source: r.source,
                    certified_at: r.certified_at,
                },
            ),
    )
}

/// Revision capability rows as (revision model, capability) pairs, as
/// `split` gives them.
pub open spec fn revision_capability_pairs(rows: Seq<RevisionCapabilityRow>) -> Seq<
    (uuid::Uuid, CapabilityRow),
> {
    rows.map_values(
        |r: RevisionCapabilityRow|
            (
                r.provider_revision_model_id,
                CapabilityRow {
                    operation: r.operation,
                    surface: r.surface,
                    mode: r.mode,
                    source: r.source,
                    certified_at: r.certified_at,
                },
            ),
    )
}

/// Why the first capability row that does not read fails, if one does.
pub open spec fn first_capability_defect(rows: Seq<(uuid::Uuid, CapabilityRow)>) -> Option<
    &'static str,
>
    decreases rows.len(),
{
    if rows.len() == 0 {
        None
    } else {
        match first_capability_defect(rows.drop_last()) {
            Some(what) => Some(what),
            None => match capability_from_text(rows.last().1) {
                Err(what) => Some(what),
                Ok(_) => None,
            },
        }
    }
}

/// The capabilities that the rows owned by `key` read as, in row order.
pub open spec fn owned_capabilities(rows: Seq<(uuid::Uuid, CapabilityRow)>, key: uuid::Uuid) -> Seq<
    CapabilityRecord,
>
    decreases rows.len(),
{
    if rows.len() == 0 {
        Seq::empty()
    } else {
        let earlier = owned_capabilities(rows.drop_last(), key);
        if rows.last().0 == key {
            match capability_from_text(rows.last().1) {
                Ok(c) => earlier.push(c),
                Err(_) => earlier,
            }
        } else {
            earlier
        }
    }
}

/// The capabilities the model at `i` of a listing receives: those its key
/// owns, unless an earlier model of the listing has the same key and has
/// taken them already.
pub open spec fn listed_capabilities(
    keys: Seq<uuid::Uuid>,
    i: int,
    rows: Seq<(uuid::Uuid, CapabilityRow)>,
) -> Seq<CapabilityRecord> {
    if exists|j: int| 0 <= j < i && keys[j] == keys[i] {
        Seq::empty()
    } else {
        owned_capabilities(rows, keys[i])
    }
}

/// A defect in a prefix of the rows is the first defect of all of them.
proof fn prefix_defect_is_first(rows: Seq<(uuid::Uuid, CapabilityRow)>, n: int)
    requires
        0 <= n <= rows.len(),
        first_capability_defect(rows.take(n)) is Some,
    ensures
        first_capability_defect(rows) == first_capability_defect(rows.take(n)),
    decreases rows.len() - n,
{
    if n < rows.len() {
        assert(rows.drop_last().take(n) =~= rows.take(n));
        prefix_defect_is_first(rows.drop_last(), n);
    } else {
        assert(rows.take(n) =~= rows);
    }
}

/// Reads every capability row in order; the first one that does not read
/// decides the error.
fn read_capability_pairs(pairs: &Vec<(uuid::Uuid, CapabilityRow)>) -> (r: Result<
    Vec<(uuid::Uuid, CapabilityRecord)>,
    ConfigurationError,
>)
    ensures
        match first_capability_defect(pairs@) {
            Some(what) => r matches Err(ConfigurationError::InvalidStoredValue(w)) && w == what,
            None => r matches Ok(v) && v.len() == pairs.len() && forall|k: int|
                0 <= k < pairs.len() ==> (#[trigger] v[k]).0 == pairs[k].0 && capability_from_text(
                    pairs[k].1,
                ) == Ok::<CapabilityRecord, &'static str>(v[k].1),
        },
{
    let mut out: Vec<(uuid::Uuid, CapabilityRecord)> = Vec::new();
    let mut i: usize = 0;
    while i < pairs.len()
        invariant
            0 <= i <= pairs.len(),
            out.len() == i,
            first_capability_defect(pairs@.take(i as int)) is None,
            forall|k: int|
                0 <= k < i ==> (#[trigger] out[k]).0 == pairs[k].0 && capability_from_text(
                    pairs[k].1,
                ) == Ok::<CapabilityRecord, &'static str>(out[k].1),
        decreases pairs.len() - i,
    {
        proof {
            assert(pairs@.take(i + 1).drop_last() =~= pairs@.take(i as int));
        }
        match capability_from_row(&pairs[i].1) {
            Ok(c) => {
                out.push((pairs[i].0, c));
            },
            Err(e) => {
                proof {
                    prefix_defect_is_first(pairs@, i + 1);
                }
                return Err(e);
            },
        }
        i = i + 1;
    }
    proof {
        assert(pairs@.take(pairs.len() as int) =~= pairs@);
    }
    Ok(out)
}

/// The capabilities of the model at `i` of a listing whose keys are `keys`.
fn capabilities_for(
    keys: &Vec<uuid::Uuid>,
    i: usize,
    parsed: &Vec<(uuid::Uuid, CapabilityRecord)>,
    Ghost(pairs): Ghost<Seq<(uuid::Uuid, CapabilityRow)>>,
) -> (caps: Vec<CapabilityRecord>)
    requires
        i < keys.len(),
        parsed.len() == pairs.len(),
        forall|k: int|
            0 <= k < pairs.len() ==> (#[trigger] parsed[k]).0 == pairs[k].0 && capability_from_text(
                pairs[k].1,
            ) == Ok::<CapabilityRecord, &'static str>(parsed[k].1),
    ensures
        caps@ == listed_capabilities(keys@, i as int, pairs),
{
    let mut j: usize = 0;
    while j < i
        invariant
            0 <= j <= i < keys.len(),
            forall|jj: int| 0 <= jj < j ==> keys@[jj] != keys@[i as int],
        decreases i - j,
    {
        if same_uuid(&keys[j], &keys[i]) {
            assert(0 <= j < i && keys@[j as int] == keys@[i as int]);
            return Vec::new();
        }
        j = j + 1;
    }
    let mut caps: Vec<CapabilityRecord> = Vec::new();
    let mut k: usize = 0;
    while k < parsed.len()
        invariant
            0 <= k <= parsed.len(),
            i < keys.len(),
            parsed.len() == pairs.len(),
            forall|kk: int|
                0 <= kk < pairs.len() ==> (#[trigger] parsed[kk]).0 == pairs[kk].0
                    && capability_from_text(pairs[kk].1) == Ok::<CapabilityRecord, &'static str>(
                    parsed[kk].1,
                ),
            caps@ == owned_capabilities(pairs.take(k as int), keys@[i as int]),
        decreases parsed.len() - k,
    {
        proof {
            assert(pairs.take(k + 1).drop_last() =~= pairs.take(k as int));
        }
        if same_uuid(&parsed[k].0, &keys[i]) {
            caps.push(parsed[k].1);
        }
        k = k + 1;
    }
    proof {
        assert(pairs.take(parsed.len() as int) =~= pairs);
    }
    caps
}

/// The keys of a draft listing: each model's own ID.
pub open spec fn model_row_ids(rows: Seq<ProviderModelRow>) -> Seq<uuid::Uuid> {
    rows.map_values(|r: ProviderModelRow| r.id)
}

/// The keys of a revision listing: the IDs of the frozen models, which the
/// revision's capability rows point to.
pub open spec fn revision_row_keys(rows: Seq<ProviderRevisionModelRow>) -> Seq<uuid::Uuid> {
    rows.map_values(|r: ProviderRevisionModelRow| r.revision_model_id)
}

/// A frozen model as a model of the inventory: it keeps the ID of the draft
/// model it was taken from.
pub open spec fn revision_model_row(r: ProviderRevisionModelRow) -> ProviderModelRow {
    ProviderModelRow {
        id: r.source_provider_model_id,
        upstream_model: r.upstream_model,
        display_name: r.display_name,
        enabled: r.enabled,
        discovered_at: r.discovered_at,
    }
}

/// A record is its row with the given capabilities.
pub open spec fn record_carries(
    record: ProviderModelRecord,
    row: ProviderModelRow,
    capabilities: Seq<CapabilityRecord>,
) -> bool {
    &&& record.id == row.id
    &&& record.upstream_model == row.upstream_model
    &&& record.display_name == row.display_name
    &&& record.enabled == row.enabled
    &&& record.discovered_at == row.discovered_at
    &&& record.capabilities@ == capabilities
}

/// The records of a listing: the model at `i`, keyed by `keys[i]`, with the
/// capabilities of `listed_capabilities`.
fn records_with_capabilities(
    keys: &Vec<uuid::Uuid>,
    rows: Vec<ProviderModelRow>,
    parsed: &Vec<(uuid::Uuid, CapabilityRecord)>,
    Ghost(pairs): Ghost<Seq<(uuid::Uuid, CapabilityRow)>>,
) -> (out: Vec<ProviderModelRecord>)
    requires
        keys.len() == rows.len(),
        parsed.len() == pairs.len(),
        forall|k: int|
            0 <= k < pairs.len() ==> (#[trigger] parsed[k]).0 == pairs[k].0 && capability_from_text(
                pairs[k].1,
            ) == Ok::<CapabilityRecord, &'static str>(parsed[k].1),
    ensures
        out.len() == rows.len(),
        forall|i: int|
            0 <= i < rows.len() ==> record_carries(
                #[trigger] out[i],
                rows[i],
                listed_capabilities(keys@, i, pairs),
            ),
{
    let ghost row_view = rows@;
    let mut out: Vec<ProviderModelRecord> = Vec::new();
    let mut n: usize = 0;
    for row in it: rows.into_iter()
        invariant
            it.seq() == row_view,
            n == it.index(),
            out.len() == n,
            keys.len() == row_view.len(),
            parsed.len() == pairs.len(),
            forall|k: int|
                0 <= k < pairs.len() ==> (#[trigger] parsed[k]).0 == pairs[k].0
                    && capability_from_text(pairs[k].1) == Ok::<CapabilityRecord, &'static str>(
                    parsed[k].1,
                ),
            forall|k: int|
                0 <= k < n ==> record_carries(
                    #[trigger] out[k],
                    row_view[k],
                    listed_capabilities(keys@, k, pairs),
                ),
    {
        let capabilities = capabilities_for(keys, n, parsed, Ghost(pairs));
        out.push(
            ProviderModelRecord {
                id: row.id,
                upstream_model: row.upstream_model,
                display_name: row.display_name,
                enabled: row.enabled,
                discovered_at: row.discovered_at,
                capabilities,
            },
        );
        n = n + 1;
    }
    out
}

/// The draft models of a listing, each with the capabilities its rows carry.
/// Every capability row is read, in order; the first one that does not read
/// makes the whole listing fail.
pub fn provider_models_from_rows(
    rows: Vec<ProviderModelRow>,
    capability_rows: Vec<ModelCapabilityRow>,
) -> (r: Result<Vec<ProviderModelRecord>, ConfigurationError>)
    ensures
        match first_capability_defect(model_capability_pairs(capability_rows@)) {
            Some(what) => r matches Err(ConfigurationError::InvalidStoredValue(w)) && w == what,
            None => r matches Ok(models) && models.len() == rows.len() && forall|i: int|
                0 <= i < rows.len() ==> record_carries(
                    #[trigger] models[i],
                    rows[i],
                    listed_capabilities(
                        model_row_ids(rows@),
                        i,
                        model_capability_pairs(capability_rows@),
                    ),
                ),
        },
{
    let ghost cap_view = capability_rows@;
    let mut pairs: Vec<(uuid::Uuid, CapabilityRow)> = Vec::new();
    for row in it: capability_rows.into_iter()
        invariant
            it.seq() == cap_view,
            pairs.len() == it.index(),
            pairs@ =~= model_capability_pairs(cap_view.take(it.index() as int)),
    {
        pairs.push(row.split());
        proof {
            assert(model_capability_pairs(cap_view.take(pairs.len() as int)) =~= model_capability_pairs(
                cap_view.take(pairs.len() - 1),
            ).push(pairs@.last()));
        }
    }
    proof {
        assert(cap_view.take(cap_view.len() as int) =~= cap_view);
    }
    let mut keys: Vec<uuid::Uuid> = Vec::new();
    let mut i: usize = 0;
    while i < rows.len()
        invariant
            0 <= i <= rows.len(),
            keys@ =~= model_row_ids(rows@.take(i as int)),
        decreases rows.len() - i,
    {
        keys.push(rows[i].id);
        i = i + 1;
    }
    proof {
        assert(rows@.take(rows.len() as int) =~= rows@);
    }
    let parsed = match read_capability_pairs(&pairs) {
        Ok(v) => v,
        Err(e) => {
            return Err(e);
        },
    };
    Ok(records_with_capabilities(&keys, rows, &parsed, Ghost(pairs@)))
}

/// The models frozen in a provider revision, each with the capabilities its
/// rows carry and the ID of the draft model it was taken from. With a limit,
/// more capability rows than the limit are refused before any is read.
pub fn provider_revision_models_from_rows(
    rows: Vec<ProviderRevisionModelRow>,
    capability_rows: Vec<RevisionCapabilityRow>,
    capability_limit: Option<usize>,
) -> (r: Result<Vec<ProviderModelRecord>, ConfigurationError>)
    ensures
        (capability_limit matches Some(limit) && capability_rows.len() > limit) ==> (r matches Err(
            ConfigurationError::ProviderRevisionDiffTooLarge { dimension: d, maximum: m },
        ) && d == "capability tuples" && capability_limit == Some(m)),
        !(capability_limit matches Some(limit) && capability_rows.len() > limit) ==> match first_capability_defect(
            revision_capability_pairs(capability_rows@),
        ) {
            Some(what) => r matches Err(ConfigurationError::InvalidStoredValue(w)) && w == what,
            None => r matches Ok(models) && models.len() == rows.len() && forall|i: int|
                0 <= i < rows.len() ==> record_carries(
                    #[trigger] models[i],
                    revision_model_row(rows[i]),
                    listed_capabilities(
                        revision_row_keys(rows@),
                        i,
                        revision_capability_pairs(capability_rows@),
                    ),
                ),
        },
{
    if let Some(limit) = capability_limit {
        match enforce_provider_revision_diff_limit(capability_rows.len(), "capability tuples", limit) {
            Ok(()) => {},
            Err(e) => {
                return Err(e);
            },
        }
    }
    let ghost cap_view = capability_rows@;
    let mut pairs: Vec<(uuid::Uuid, CapabilityRow)> = Vec::new();
    for row in it: capability_rows.into_iter()
        invariant
            it.seq() == cap_view,
            pairs.len() == it.index(),
            pairs@ =~= revision_capability_pairs(cap_view.take(it.index() as int)),
    {
        pairs.push(row.split());
        proof {
            assert(revision_capability_pairs(cap_view.take(pairs.len() as int))
                =~= revision_capability_pairs(cap_view.take(pairs.len() - 1)).push(
                pairs@.last(),
            ));
        }
    }
    proof {
        assert(cap_view.take(cap_view.len() as int) =~= cap_view);
    }
    let ghost row_view = rows@;
    let mut keys: Vec<uuid::Uuid> = Vec::new();
    let mut models: Vec<ProviderModelRow> = Vec::new();
    for row in it: rows.into_iter()
        invariant
            it.seq() == row_view,
            keys.len() == it.index(),
            models.len() == it.index(),
            keys@ =~= revision_row_keys(row_view.take(it.index() as int)),
            forall|k: int| 0 <= k < models.len() ==> #[trigger] models[k] == revision_model_row(row_view[k]),
    {
        keys.push(row.revision_model_id);
        models.push(
            ProviderModelRow {
                id: row.source_provider_model_id,
                upstream_model: row.upstream_model,
                display_name: row.display_name,
                enabled: row.enabled,
                discovered_at: row.discovered_at,
            },
        );
        proof {
            assert(revision_row_keys(row_view.take(keys.len() as int)) =~= revision_row_keys(
                row_view.take(keys.len() - 1),
            ).push(keys@.last()));
        }
    }
    proof {
        assert(row_view.take(row_view.len() as int) =~= row_view);
    }
    let parsed = match read_capability_pairs(&pairs) {
        Ok(v) => v,
        Err(e) => {
            return Err(e);
        },
    };
    Ok(records_with_capabilities(&keys, models, &parsed, Ghost(pairs@)))
}

} // verus!
