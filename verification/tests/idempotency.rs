use olp_storage::catalog::CatalogError;
use olp_storage::configuration::ConfigurationError;
use olp_storage::idempotency::{
    catalog_claim_replay, claim_mutation, claim_replay, configuration_claim_mutation,
    configuration_claim_replay, ReplayableIdempotencyClaim,
};
use olp_storage::identity::IdentityError;

#[test]
fn claims_decide_between_running_replaying_and_refusing() {
    assert!(matches!(claim_replay::<u8>(ReplayableIdempotencyClaim::Execute), Ok(None)));
    assert!(matches!(claim_replay(ReplayableIdempotencyClaim::Replay(7u8)), Ok(Some(7))));
    assert!(matches!(
        claim_replay::<u8>(ReplayableIdempotencyClaim::Conflict),
        Err(IdentityError::IdempotencyConflict)
    ));
    assert!(matches!(
        claim_replay::<u8>(ReplayableIdempotencyClaim::InProgress),
        Err(IdentityError::IdempotencyInProgress)
    ));
    assert!(matches!(
        configuration_claim_replay::<u8>(ReplayableIdempotencyClaim::InProgress),
        Err(ConfigurationError::IdempotencyInProgress)
    ));
    assert!(matches!(
        catalog_claim_replay(ReplayableIdempotencyClaim::Replay("stored")),
        Ok(Some("stored"))
    ));
    assert!(matches!(
        catalog_claim_replay::<u8>(ReplayableIdempotencyClaim::Conflict),
        Err(CatalogError::IdempotencyConflict)
    ));
}

#[test]
fn mutations_need_a_fresh_key() {
    assert!(claim_mutation(true).is_ok());
    assert!(matches!(claim_mutation(false), Err(IdentityError::IdempotencyConflict)));
    assert!(configuration_claim_mutation(true).is_ok());
    assert!(matches!(
        configuration_claim_mutation(false),
        Err(ConfigurationError::IdempotencyConflict)
    ));
}
