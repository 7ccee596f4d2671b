//! The checks on route drafts: their shape when created, their targets,
//! and the verdicts of validation and activation.
use vstd::prelude::*;
use vstd::string::*;

use crate::carried::{hyphenated_uuid, uuid_text};
use crate::configuration::ConfigurationError;
use crate::domain::{operation_from_text, OperationKind};

verus! {

pub const ROUTE_OPERATION_REQUIRED: &'static str = "at least one operation is required";
pub const ROUTE_TARGET_REQUIRED: &'static str = "at least one target is required";
pub const ROUTE_ATTEMPTS_INVALID: &'static str = "max_attempts must be between one and the target count";
pub const ROUTE_TIMEOUT_TOO_LARGE: &'static str = "overall timeout is too large";
pub const ROUTE_TIMEOUT_NOT_POSITIVE: &'static str = "overall timeout must be positive";
pub const ROUTE_ATTEMPTS_TOO_LARGE: &'static str = "max attempts is too large";
pub const ROUTE_TARGET_SHAPE: &'static str = "target weight/timeout is invalid";
pub const ROUTE_TARGET_WEIGHT_TOO_LARGE: &'static str = "target weight is too large";
pub const ROUTE_TARGET_TIMEOUT_TOO_LARGE: &'static str = "target timeout is too large";
pub const ROUTE_TOO_MANY_TARGETS: &'static str = "too many targets";

/// The first rule a new route draft breaks, once its slug is accepted.
pub open spec fn new_route_defect(
    operations: nat,
    targets: nat,
    overall_timeout_ms: u64,
    max_attempts: u16,
) -> Option<Seq<char>> {
    if operations == 0 {
        Some(ROUTE_OPERATION_REQUIRED@)
    } else if targets == 0 {
        Some(ROUTE_TARGET_REQUIRED@)
    } else if max_attempts == 0 || max_attempts > targets {
        Some(ROUTE_ATTEMPTS_INVALID@)
    } else if overall_timeout_ms > i32::MAX {
        Some(ROUTE_TIMEOUT_TOO_LARGE@)
    } else if overall_timeout_ms == 0 {
        Some(ROUTE_TIMEOUT_NOT_POSITIVE@)
    } else if max_attempts > i16::MAX {
        Some(ROUTE_ATTEMPTS_TOO_LARGE@)
    } else {
        None
    }
}

/// Checks a new draft's operation and target counts, attempts and
/// deadline, and gives the deadline and attempts in their column widths.
pub fn new_route_draft_check(
    operations: usize,
    targets: usize,
    overall_timeout_ms: u64,
    max_attempts: u16,
) -> (r: Result<(i32, i16), ConfigurationError>)
    ensures
        match new_route_defect(operations as nat, targets as nat, overall_timeout_ms, max_attempts) {
            Some(m) => r matches Err(ConfigurationError::InvalidRoute(msg)) && msg@ == m,
            None => r == Ok::<(i32, i16), ConfigurationError>(
                (overall_timeout_ms as i32, max_attempts as i16),
            ),
        },
{
    if operations == 0 {
        return Err(ConfigurationError::InvalidRoute(ROUTE_OPERATION_REQUIRED.to_string()));
    }
    if targets == 0 {
        return Err(ConfigurationError::InvalidRoute(ROUTE_TARGET_REQUIRED.to_string()));
    }
    if max_attempts == 0 || max_attempts as usize > targets {
        return Err(ConfigurationError::InvalidRoute(ROUTE_ATTEMPTS_INVALID.to_string()));
    }
    if overall_timeout_ms > i32::MAX as u64 {
        return Err(ConfigurationError::InvalidRoute(ROUTE_TIMEOUT_TOO_LARGE.to_string()));
    }
    if overall_timeout_ms == 0 {
        return Err(ConfigurationError::InvalidRoute(ROUTE_TIMEOUT_NOT_POSITIVE.to_string()));
    }
    if max_attempts > i16::MAX as u16 {
        return Err(ConfigurationError::InvalidRoute(ROUTE_ATTEMPTS_TOO_LARGE.to_string()));
    }
    Ok((overall_timeout_ms as i32, max_attempts as i16))
}

/// A target's weight and timeout are positive, and its timeout fits in the
/// route's deadline.
pub fn route_target_shape(weight: u32, timeout_ms: u64, overall_timeout_ms: u64) -> (r: Result<
    (),
    ConfigurationError,
>)
    ensures
        (weight == 0 || timeout_ms == 0 || timeout_ms > overall_timeout_ms) ==> (r matches Err(
            ConfigurationError::InvalidRoute(m),
        ) && m@ == ROUTE_TARGET_SHAPE@),
        !(weight == 0 || timeout_ms == 0 || timeout_ms > overall_timeout_ms) ==> r is Ok,
{
    if weight == 0 || timeout_ms == 0 || timeout_ms > overall_timeout_ms {
        return Err(ConfigurationError::InvalidRoute(ROUTE_TARGET_SHAPE.to_string()));
    }
    Ok(())
}

/// A target's weight, timeout and position in their column widths.
pub fn route_target_columns(weight: u32, timeout_ms: u64, position: usize) -> (r: Result<
    (i32, i32, i32),
    ConfigurationError,
>)
    ensures
        weight > i32::MAX ==> (r matches Err(ConfigurationError::InvalidRoute(m)) && m@
            == ROUTE_TARGET_WEIGHT_TOO_LARGE@),
        weight <= i32::MAX && timeout_ms > i32::MAX ==> (r matches Err(
            ConfigurationError::InvalidRoute(m),
        ) && m@ == ROUTE_TARGET_TIMEOUT_TOO_LARGE@),
        weight <= i32::MAX && timeout_ms <= i32::MAX && position > i32::MAX ==> (r matches Err(
            ConfigurationError::InvalidRoute(m),
        ) && m@ == ROUTE_TOO_MANY_TARGETS@),
        weight <= i32::MAX && timeout_ms <= i32::MAX && position <= i32::MAX ==> r == Ok::<
            (i32, i32, i32),
            ConfigurationError,
        >((weight as i32, timeout_ms as i32, position as i32)),
{
    if weight > i32::MAX as u32 {
        return Err(ConfigurationError::InvalidRoute(ROUTE_TARGET_WEIGHT_TOO_LARGE.to_string()));
    }
    if timeout_ms > i32::MAX as u64 {
        return Err(ConfigurationError::InvalidRoute(ROUTE_TARGET_TIMEOUT_TOO_LARGE.to_string()));
    }
    if position > i32::MAX as usize {
        return Err(ConfigurationError::InvalidRoute(ROUTE_TOO_MANY_TARGETS.to_string()));
    }
    Ok((weight as i32, timeout_ms as i32, position as i32))
}

/// A draft is validated only under its expected ETag.
pub fn route_validation_gate(found: bool, etag_matches: bool) -> (r: Result<(), ConfigurationError>)
    ensures
        !found ==> r matches Err(ConfigurationError::RouteNotFound),
        found && !etag_matches ==> r matches Err(ConfigurationError::PreconditionFailed),
        found && etag_matches ==> r is Ok,
{
    if !found {
        return Err(ConfigurationError::RouteNotFound);
    }
    if !etag_matches {
        return Err(ConfigurationError::PreconditionFailed);
    }
    Ok(())
}

/// A draft is activated only under its expected ETag and once validated.
pub fn route_activation_gate(etag_matches: bool, state: &str) -> (r: Result<(), ConfigurationError>)
    ensures
        !etag_matches ==> r matches Err(ConfigurationError::PreconditionFailed),
        etag_matches && state@ != "validated"@ ==> r matches Err(ConfigurationError::RouteNotValidated),
        etag_matches && state@ == "validated"@ ==> r is Ok,
{
    if !etag_matches {
        return Err(ConfigurationError::PreconditionFailed);
    }
    if !crate::text::str_eq(state, "validated") {
        return Err(ConfigurationError::RouteNotValidated);
    }
    Ok(())
}

pub const DRAFT_WITHOUT_TARGET: &'static str = "the draft must contain at least one target";

/// What revalidating a draft found, in the order it looks.
pub struct RevalidationFindings {
    pub target_count: i64,
    /// The first target, as "provider/model", that no activated provider
    /// revision serves.
    pub unavailable_target: Option<String>,
    /// The first operation no activated target has a certified capability for.
    pub uncovered_operation: Option<String>,
    /// The first active media job whose exact target the draft drops, as the
    /// 128-bit value of its identifier.
    pub media_job_without_target: Option<u128>,
    /// The first "job/operation" lifecycle capability a media job still needs.
    pub media_job_without_lifecycle: Option<String>,
}

pub open spec fn revalidation_refusal(f: RevalidationFindings) -> Option<Seq<char>> {
    if f.target_count == 0 {
        Some(DRAFT_WITHOUT_TARGET@)
    } else if f.unavailable_target is Some {
        Some(
            "target provider/model is not in an activated provider revision: "@
                + f.unavailable_target->0@,
        )
    } else if f.uncovered_operation is Some {
        Some(
            "no activated target has a certified capability for route operation "@
                + f.uncovered_operation->0@,
        )
    } else if f.media_job_without_target is Some {
        Some(
            "active media job "@ + hyphenated_uuid(f.media_job_without_target->0)
                + " requires its exact provider/model target"@,
        )
    } else if f.media_job_without_lifecycle is Some {
        Some(
            "active media job requires an exact certified lifecycle capability: "@
                + f.media_job_without_lifecycle->0@,
        )
    } else {
        None
    }
}

/// The verdict of revalidating a draft before it is validated or activated.
pub fn revalidation_verdict(f: &RevalidationFindings) -> (r: Result<(), ConfigurationError>)
    ensures
        match revalidation_refusal(*f) {
            Some(m) => r matches Err(ConfigurationError::InvalidRoute(msg)) && msg@ == m,
            None => r is Ok,
        },
{
    if f.target_count == 0 {
        return Err(ConfigurationError::InvalidRoute(DRAFT_WITHOUT_TARGET.to_string()));
    }
    if let Some(target) = &f.unavailable_target {
        let mut m = String::from_str("target provider/model is not in an activated provider revision: ");
        m.append(target.as_str());
        return Err(ConfigurationError::InvalidRoute(m));
    }
    if let Some(operation) = &f.uncovered_operation {
        let mut m = String::from_str(
            "no activated target has a certified capability for route operation ",
        );
        m.append(operation.as_str());
        return Err(ConfigurationError::InvalidRoute(m));
    }
    if let Some(job) = f.media_job_without_target {
        let mut m = String::from_str("active media job ");
        let id = uuid_text(job);
        m.append(id.as_str());
        m.append(" requires its exact provider/model target");
        return Err(ConfigurationError::InvalidRoute(m));
    }
    if let Some(requirement) = &f.media_job_without_lifecycle {
        let mut m = String::from_str(
            "active media job requires an exact certified lifecycle capability: ",
        );
        m.append(requirement.as_str());
        return Err(ConfigurationError::InvalidRoute(m));
    }
    Ok(())
}

pub const SIMULATION_SEED_INVALID: &'static str = "simulation seed must contain 1-256 bytes";

/// A route simulation's seed is 1 to 256 bytes.
pub fn simulation_seed_check(seed: &str) -> (r: Result<(), ConfigurationError>)
    ensures
        (1 <= seed.spec_bytes().len() <= 256) ==> r is Ok,
        !(1 <= seed.spec_bytes().len() <= 256) ==> (r matches Err(ConfigurationError::Invalid(m))
            && m@ == SIMULATION_SEED_INVALID@),
{
    let n = seed.as_bytes().len();
    if n == 0 || n > 256 {
        return Err(ConfigurationError::Invalid(SIMULATION_SEED_INVALID.to_string()));
    }
    Ok(())
}

/// Every stored operation name is one the gateway knows.
pub open spec fn operations_known(values: Seq<String>) -> bool {
    forall|k: int| 0 <= k < values.len() ==> (#[trigger] operation_from_text(values[k]@)) is Some
}

/// Reads the stored operations of a route draft or revision, in order. An
/// unknown name means the row is corrupt; it is reported as an invalid
/// stored value named `what`.
pub fn stored_operations(values: &Vec<String>, what: &'static str) -> (r: Result<
    Vec<OperationKind>,
    ConfigurationError,
>)
    ensures
        operations_known(values@) ==> (r matches Ok(v) && v.len() == values.len() && forall|k: int|
            0 <= k < values.len() ==> Some(#[trigger] v[k]) == operation_from_text(values[k]@)),
        !operations_known(values@) ==> (r matches Err(ConfigurationError::InvalidStoredValue(w))
            && w == what),
{
    let mut out: Vec<OperationKind> = Vec::new();
    let mut i: usize = 0;
    while i < values.len()
        invariant
            0 <= i <= values.len(),
            out.len() == i,
            forall|k: int| 0 <= k < i ==> Some(#[trigger] out[k]) == operation_from_text(values[k]@),
        decreases values.len() - i,
    {
        match OperationKind::parse(values[i].as_str()) {
            Some(o) => {
                out.push(o);
            },
            None => {
                assert(operation_from_text(values[i as int]@) is None);
                return Err(ConfigurationError::InvalidStoredValue(what));
            },
        }
        i = i + 1;
    }
    assert forall|k: int| 0 <= k < values.len() implies (#[trigger] operation_from_text(
        values[k]@,
    )) is Some by {
        assert(Some(out[k]) == operation_from_text(values[k]@));
    }
    Ok(out)
}

} // verus!
