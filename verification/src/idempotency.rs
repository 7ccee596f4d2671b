//! What a claim of an idempotency key decides: run the request, answer with
//! the stored response, or refuse it.
use vstd::prelude::*;

use crate::catalog::CatalogError;
use crate::configuration::ConfigurationError;
use crate::identity::IdentityError;

verus! {

/// What claiming the idempotency key of a replayable request found: a fresh
/// key, the stored response of the same request, the key used by another
/// request, or the same request still running.
pub enum ReplayableIdempotencyClaim<R> {
    Execute,
    Replay(R),
    Conflict,
    InProgress,
}

/// The verdict of an identity request on its claim: `None` to run it,
/// `Some` with the stored response to replay it, or the refusal.
pub fn claim_replay<R>(claim: ReplayableIdempotencyClaim<R>) -> (r: Result<Option<R>, IdentityError>)
    ensures
        match claim {
            ReplayableIdempotencyClaim::Execute => r matches Ok(None),
            ReplayableIdempotencyClaim::Replay(x) => r matches Ok(Some(y)) && y == x,
            ReplayableIdempotencyClaim::Conflict => r matches Err(IdentityError::IdempotencyConflict),
            ReplayableIdempotencyClaim::InProgress => r matches Err(
                IdentityError::IdempotencyInProgress,
            ),
        },
{
    match claim {
        ReplayableIdempotencyClaim::Execute => Ok(None),
        ReplayableIdempotencyClaim::Replay(response) => Ok(Some(response)),
        ReplayableIdempotencyClaim::Conflict => Err(IdentityError::IdempotencyConflict),
        ReplayableIdempotencyClaim::InProgress => Err(IdentityError::IdempotencyInProgress),
    }
}

/// The verdict of a configuration request on its claim, as for identity
/// requests.
pub fn configuration_claim_replay<R>(claim: ReplayableIdempotencyClaim<R>) -> (r: Result<
    Option<R>,
    ConfigurationError,
>)
    ensures
        match claim {
            ReplayableIdempotencyClaim::Execute => r matches Ok(None),
            ReplayableIdempotencyClaim::Replay(x) => r matches Ok(Some(y)) && y == x,
            ReplayableIdempotencyClaim::Conflict => r matches Err(
                ConfigurationError::IdempotencyConflict,
            ),
            ReplayableIdempotencyClaim::InProgress => r matches Err(
                ConfigurationError::IdempotencyInProgress,
            ),
        },
{
    match claim {
        ReplayableIdempotencyClaim::Execute => Ok(None),
        ReplayableIdempotencyClaim::Replay(response) => Ok(Some(response)),
        ReplayableIdempotencyClaim::Conflict => Err(ConfigurationError::IdempotencyConflict),
        ReplayableIdempotencyClaim::InProgress => Err(ConfigurationError::IdempotencyInProgress),
    }
}

/// The verdict of a catalog request on its claim, as for identity requests.
pub fn catalog_claim_replay<R>(claim: ReplayableIdempotencyClaim<R>) -> (r: Result<
    Option<R>,
    CatalogError,
>)
    ensures
        match claim {
            ReplayableIdempotencyClaim::Execute => r matches Ok(None),
            ReplayableIdempotencyClaim::Replay(x) => r matches Ok(Some(y)) && y == x,
            ReplayableIdempotencyClaim::Conflict => r matches Err(CatalogError::IdempotencyConflict),
            ReplayableIdempotencyClaim::InProgress => r matches Err(
                CatalogError::IdempotencyInProgress,
            ),
        },
{
    match claim {
        ReplayableIdempotencyClaim::Execute => Ok(None),
        ReplayableIdempotencyClaim::Replay(response) => Ok(Some(response)),
        ReplayableIdempotencyClaim::Conflict => Err(CatalogError::IdempotencyConflict),
        ReplayableIdempotencyClaim::InProgress => Err(CatalogError::IdempotencyInProgress),
    }
}

/// A non-replayable mutation goes ahead only when its idempotency key was
/// claimed fresh; a key already used is a conflict.
pub fn claim_mutation(claimed: bool) -> (r: Result<(), IdentityError>)
    ensures
        claimed ==> r is Ok,
        !claimed ==> r matches Err(IdentityError::IdempotencyConflict),
{
    if !claimed {
        return Err(IdentityError::IdempotencyConflict);
    }
    Ok(())
}

/// The same rule for configuration mutations.
pub fn configuration_claim_mutation(claimed: bool) -> (r: Result<(), ConfigurationError>)
    ensures
        claimed ==> r is Ok,
        !claimed ==> r matches Err(ConfigurationError::IdempotencyConflict),
{
    if !claimed {
        return Err(ConfigurationError::IdempotencyConflict);
    }
    Ok(())
}

} // verus!
