use olp_storage::duration::Duration;
use olp_storage::limits::{
    limit_keys, validate_namespace, LimitError, LimitLease, LimitRequest, ReservationScriptResult,
    MAX_LUA_INTEGER,
};

fn valid_request() -> LimitRequest<'static> {
    LimitRequest {
        lookup_id: "lookup_01",
        requests_per_minute: Some(60),
        tokens_per_minute: Some(1_000),
        max_concurrency: Some(4),
        requested_tokens: 1,
        lease_ttl: Duration::from_secs(10),
    }
}

fn hash_tag(key: &str) -> Option<&str> {
    let start = key.find('{')? + 1;
    let end = key[start..].find('}')? + start;
    if end > start {
        Some(&key[start..end])
    } else {
        None
    }
}

#[test]
fn identifies_keys_that_must_fail_closed() {
    let unlimited = LimitRequest {
        requests_per_minute: None,
        tokens_per_minute: None,
        max_concurrency: None,
        ..valid_request()
    };
    assert!(!unlimited.has_hard_limits());

    assert!(LimitRequest {
        requests_per_minute: Some(60),
        ..unlimited
    }
    .has_hard_limits());
}

#[test]
fn rejects_values_that_would_disable_or_bypass_hard_limits() {
    let valid = valid_request();
    assert!(valid.validate().is_ok());

    for invalid in [
        LimitRequest {
            requests_per_minute: Some(0),
            ..valid.clone()
        },
        LimitRequest {
            tokens_per_minute: Some(-1),
            ..valid.clone()
        },
        LimitRequest {
            requested_tokens: -1,
            ..valid.clone()
        },
        LimitRequest {
            requested_tokens: 0,
            ..valid.clone()
        },
        LimitRequest {
            max_concurrency: Some(MAX_LUA_INTEGER + 1),
            ..valid.clone()
        },
        LimitRequest {
            lease_ttl: Duration::zero(),
            ..valid.clone()
        },
        LimitRequest {
            lookup_id: "bad}{slot",
            ..valid
        },
    ] {
        assert!(matches!(
            invalid.validate(),
            Err(LimitError::InvalidRequest(_))
        ));
    }
}

#[test]
fn stable_keys_share_one_cluster_hash_tag() {
    let first = limit_keys("olp:v2:limits", "lookup_01");
    let second = limit_keys("olp:v2:limits", "lookup_02");

    assert_eq!(hash_tag(&first.rate), Some("lookup_01"));
    assert_eq!(hash_tag(&first.concurrency), Some("lookup_01"));
    assert_ne!(hash_tag(&first.rate), hash_tag(&second.rate));
    assert!(!first.rate.contains(":rpm:"));
    assert!(!first.rate.contains(":tpm:"));
}

#[test]
fn derived_keys_have_their_documented_text() {
    let keys = limit_keys("olp:v2:limits", "lookup_01");
    assert_eq!(keys.rate, "olp:v2:limits:{lookup_01}:rate");
    assert_eq!(keys.concurrency, "olp:v2:limits:{lookup_01}:concurrency:v2");
}

#[test]
fn script_result_parser_rejects_malformed_responses() {
    assert!(matches!(
        ReservationScriptResult::parse_value(&redis::Value::Array(Vec::new())),
        Err(LimitError::UnexpectedResponse)
    ));
    for response in [
        (2, 1, "ok".to_owned(), 0, 1, 0),
        (1, 1, "ok".to_owned(), 1, 1, 0),
        (1, 0, "rpm".to_owned(), 0, 1, 0),
        (1, 0, "rpm".to_owned(), 60_001, 1, 0),
        (1, 0, "rpm".to_owned(), 1, 0, 0),
        (1, 0, "rpm".to_owned(), 1, 1, 1),
        (1, 0, "unknown".to_owned(), 1, 1, 0),
        (1, -1, "malformed_rate_state".to_owned(), 1, 1, 0),
    ] {
        assert!(matches!(
            ReservationScriptResult::parse(response),
            Err(LimitError::UnexpectedResponse)
        ));
    }
}

#[test]
fn script_result_parser_accepts_documented_replies() {
    assert_eq!(
        ReservationScriptResult::parse((1, 1, "ok".to_owned(), 0, 7, 0)).unwrap(),
        ReservationScriptResult::Granted {
            window_id: 7,
            concurrency_expires_at_ms: None
        }
    );
    assert_eq!(
        ReservationScriptResult::parse((1, 1, "ok".to_owned(), 0, 7, 1234)).unwrap(),
        ReservationScriptResult::Granted {
            window_id: 7,
            concurrency_expires_at_ms: Some(1234)
        }
    );
    assert_eq!(
        ReservationScriptResult::parse((1, -1, "malformed_rate_state".to_owned(), 0, 1, 0))
            .unwrap(),
        ReservationScriptResult::MalformedState
    );
    assert_eq!(
        ReservationScriptResult::parse((1, -1, "invalid_arguments".to_owned(), 0, 0, 0)).unwrap(),
        ReservationScriptResult::ScriptFailure
    );
}

#[test]
fn decoded_valkey_reply_is_interpreted() {
    let value = redis::Value::Array(vec![
        redis::Value::Int(1),
        redis::Value::Int(1),
        redis::Value::BulkString(b"ok".to_vec()),
        redis::Value::Int(0),
        redis::Value::Int(5),
        redis::Value::Int(0),
    ]);
    assert_eq!(
        ReservationScriptResult::parse_value(&value).unwrap(),
        ReservationScriptResult::Granted {
            window_id: 5,
            concurrency_expires_at_ms: None
        }
    );
}

#[test]
fn lease_debug_redacts_internal_identifiers() {
    let lease = LimitLease::from_parts(
        "private-lease".to_owned(),
        "private-rate-key".to_owned(),
        "private-concurrency-key".to_owned(),
        1,
        2,
        true,
        Some(3),
    );
    let debug = lease.debug_string();
    assert!(!debug.contains("private-lease"));
    assert!(!debug.contains("private-rate-key"));
    assert!(!debug.contains("private-concurrency-key"));
    assert!(debug.contains("[REDACTED]"));
}

#[test]
fn namespaces_cannot_override_the_redis_cluster_hash_tag() {
    assert!(validate_namespace("olp:v2:limits").is_ok());
    assert!(validate_namespace("olp:{shared}").is_err());
    assert!(validate_namespace("").is_err());
}
