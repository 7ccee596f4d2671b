//! Decisions around the Valkey scripts that hold distributed target circuits.
use vstd::prelude::*;
use vstd::string::*;

use crate::carried::{hyphenated_uuid, uuid_text};
use crate::duration::Duration;
use crate::text::str_eq;

verus! {

/// The largest integer that Valkey's Lua (IEEE-754 doubles) holds exactly.
pub const MAX_LUA_INTEGER: u64 = 9_007_199_254_740_991;
pub const DURATION_INVALID: &'static str = "duration must be a positive Lua-safe integer";

/// Whether a caller may send a request to a target, and whether it does so
/// as the single half-open probe.
#[derive(Clone, Debug, Eq, PartialEq)]
pub enum DistributedCircuitPermit {
    Denied,
    Acquired { probe_token: Option<String> },
}

/// Why a circuit operation did not go through. Connection failures of the
/// Valkey client are reported by the adapter.
#[derive(Debug)]
pub enum CircuitStoreError {
    InvalidConfiguration(&'static str),
    UnexpectedResponse,
}

/// A duration in whole milliseconds when it is positive and Lua-safe.
pub open spec fn circuit_duration_ms(d: Duration) -> Result<u64, CircuitStoreError> {
    let ms = d@ / 1_000_000;
    if ms == 0 || ms > MAX_LUA_INTEGER {
        Err(CircuitStoreError::InvalidConfiguration(DURATION_INVALID))
    } else {
        Ok(ms as u64)
    }
}

pub fn duration_ms(duration: Duration) -> (r: Result<u64, CircuitStoreError>)
    ensures
        r == circuit_duration_ms(duration),
{
    let millis = duration.as_millis();
    let milliseconds: u64 = if millis > u64::MAX as u128 {
        u64::MAX
    } else {
        millis as u64
    };
    if milliseconds == 0 || milliseconds > MAX_LUA_INTEGER {
        return Err(CircuitStoreError::InvalidConfiguration(DURATION_INVALID));
    }
    Ok(milliseconds)
}

/// The circuit scripts answer 0 or 1.
pub fn parse_boolean_response(response: i64) -> (r: Result<bool, CircuitStoreError>)
    ensures
        r == if response == 0 {
            Ok(false)
        } else if response == 1 {
            Ok(true)
        } else {
            Err(CircuitStoreError::UnexpectedResponse)
        },
{
    match response {
        0 => Ok(false),
        1 => Ok(true),
        _ => Err(CircuitStoreError::UnexpectedResponse),
    }
}

/// The script arguments of an acquisition: probe lease and retention in ms.
pub fn acquire_arguments(probe_lease: Duration, retention: Duration) -> (r: Result<
    (u64, u64),
    CircuitStoreError,
>)
    ensures
        match (circuit_duration_ms(probe_lease), circuit_duration_ms(retention)) {
            (Err(e), _) => r == Err::<(u64, u64), CircuitStoreError>(e),
            (Ok(_), Err(e)) => r == Err::<(u64, u64), CircuitStoreError>(e),
            (Ok(p), Ok(q)) => r == Ok::<(u64, u64), CircuitStoreError>((p, q)),
        },
{
    let probe = duration_ms(probe_lease)?;
    let keep = duration_ms(retention)?;
    Ok((probe, keep))
}

/// The meaning of the acquisition script's reply `(status, token)`: a probe
/// is granted only when the script echoes the caller's own token.
pub open spec fn permit_reply(status: Seq<char>, response_token: Seq<char>, token: Seq<char>) -> Option<Option<Seq<char>>> {
    if status == "denied"@ && response_token.len() == 0 {
        Some(None)
    } else if status == "closed"@ && response_token.len() == 0 {
        Some(Some(Seq::empty()))
    } else if status == "probe"@ && response_token == token {
        Some(Some(token))
    } else {
        None
    }
}

/// Turns the acquisition script's reply into a permit.
pub fn acquire_permit(status: &str, response_token: &str, token: String) -> (r: Result<
    DistributedCircuitPermit,
    CircuitStoreError,
>)
    ensures
        (status@ == "denied"@ && response_token@.len() == 0) ==> r matches Ok(
            DistributedCircuitPermit::Denied,
        ),
        (status@ == "closed"@ && response_token@.len() == 0) ==> r matches Ok(
            DistributedCircuitPermit::Acquired { probe_token: None },
        ),
        (status@ == "probe"@ && response_token@ == token@) ==> (r matches Ok(
            DistributedCircuitPermit::Acquired { probe_token: Some(t) },
        ) && t@ == token@),
        permit_reply(status@, response_token@, token@) is None ==> r matches Err(
            CircuitStoreError::UnexpectedResponse,
        ),
{
    proof {
        reveal_strlit("denied");
        reveal_strlit("closed");
        reveal_strlit("probe");
        assert("denied"@[0] != "closed"@[0]);
        assert("denied"@ != "closed"@);
        assert("denied"@.len() != "probe"@.len());
        assert("closed"@.len() != "probe"@.len());
    }
    let empty = response_token.unicode_len() == 0;
    if str_eq(status, "denied") && empty {
        Ok(DistributedCircuitPermit::Denied)
    } else if str_eq(status, "closed") && empty {
        Ok(DistributedCircuitPermit::Acquired { probe_token: None })
    } else if str_eq(status, "probe") && str_eq(response_token, token.as_str()) {
        Ok(DistributedCircuitPermit::Acquired { probe_token: Some(token) })
    } else {
        Err(CircuitStoreError::UnexpectedResponse)
    }
}

/// The probe token argument of the success and failure scripts; a caller
/// without a probe sends the empty token.
pub fn probe_token_argument<'a>(probe_token: Option<&'a str>) -> (s: &'a str)
    ensures
        s@ == match probe_token {
            Some(t) => t@,
            None => Seq::<char>::empty(),
        },
{
    match probe_token {
        Some(t) => t,
        None => {
            proof {
                reveal_strlit("");
            }
            ""
        },
    }
}

/// The script arguments of a failure: threshold (at least one), open duration
/// and retention in milliseconds.
pub fn failure_arguments(
    failure_threshold: u32,
    open_duration: Duration,
    retention: Duration,
) -> (r: Result<(u32, u64, u64), CircuitStoreError>)
    ensures
        match (circuit_duration_ms(open_duration), circuit_duration_ms(retention)) {
            (Err(e), _) => r == Err::<(u32, u64, u64), CircuitStoreError>(e),
            (Ok(_), Err(e)) => r == Err::<(u32, u64, u64), CircuitStoreError>(e),
            (Ok(p), Ok(q)) => r == Ok::<(u32, u64, u64), CircuitStoreError>(
                (if failure_threshold >= 1 { failure_threshold } else { 1 }, p, q),
            ),
        },
{
    let threshold = if failure_threshold >= 1 {
        failure_threshold
    } else {
        1
    };
    let open = duration_ms(open_duration)?;
    let keep = duration_ms(retention)?;
    Ok((threshold, open, keep))
}

/// A health check succeeds only on the exact reply "PONG".
pub fn ping_reply(reply: &str) -> (r: Result<(), CircuitStoreError>)
    ensures
        r == if reply@ == "PONG"@ {
            Ok(())
        } else {
            Err(CircuitStoreError::UnexpectedResponse)
        },
{
    if str_eq(reply, "PONG") {
        Ok(())
    } else {
        Err(CircuitStoreError::UnexpectedResponse)
    }
}

/// The Valkey key of a target's circuit: the namespace, a colon and the
/// target's hyphenated identifier.
pub open spec fn circuit_key_text(namespace: Seq<char>, target: u128) -> Seq<char> {
    namespace + seq![':'] + hyphenated_uuid(target)
}

/// Derives the key of a target's circuit from the 128-bit value of its
/// identifier.
pub fn circuit_key(namespace: &str, target: u128) -> (k: String)
    ensures
        k@ == circuit_key_text(namespace@, target),
{
    let mut k = String::from_str(namespace);
    k.append(":");
    let id = uuid_text(target);
    k.append(id.as_str());
    proof {
        reveal_strlit(":");
    }
    assert(k@ =~= circuit_key_text(namespace@, target));
    k
}

} // verus!
