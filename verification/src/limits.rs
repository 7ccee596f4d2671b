//! Distributed request, token and concurrency limits kept in Valkey.
//!
//! The adapter runs one Lua script per reservation; this module validates the
//! request, derives the keys and script arguments, and decides what each
//! script reply means for the caller.
use vstd::prelude::*;
use vstd::string::*;

use crate::duration::Duration;
use crate::text::{ascii_alphanumeric, push_char, push_signed_decimal, signed_decimal, str_eq};

verus! {

/// The largest integer that Valkey's Lua (IEEE-754 doubles) holds exactly;
/// every limit, score and duration handed to the scripts stays within it.
pub const MAX_LUA_INTEGER: i64 = 9_007_199_254_740_991;
/// The reply layout version that the reservation script returns.
pub const SCRIPT_RESPONSE_VERSION: i64 = 1;
/// Length of the fixed rate window in milliseconds.
pub const FIXED_WINDOW_MS: i64 = 60_000;

pub const LOOKUP_ID_INVALID: &'static str = "API key lookup ID must be 8-40 ASCII letters, digits, or underscores";
pub const REQUESTS_PER_MINUTE_INVALID: &'static str = "requests_per_minute must be a positive Lua-safe integer";
pub const TOKENS_PER_MINUTE_INVALID: &'static str = "tokens_per_minute must be a positive Lua-safe integer";
pub const MAX_CONCURRENCY_INVALID: &'static str = "max_concurrency must be a positive Lua-safe integer";
pub const REQUESTED_TOKENS_INVALID: &'static str = "requested_tokens must be a non-negative Lua-safe integer";
pub const REQUESTED_TOKENS_ZERO: &'static str = "requested_tokens must be positive when a token limit is configured";
pub const LEASE_TTL_ZERO: &'static str = "concurrency lease TTL must be greater than zero";
pub const LEASE_TTL_OUT_OF_RANGE: &'static str = "concurrency lease TTL exceeds the supported range";
pub const LEASE_TTL_NOT_LUA_SAFE: &'static str = "concurrency lease TTL exceeds Valkey Lua's safe integer range";
pub const ACTUAL_TOKENS_INVALID: &'static str = "actual_tokens must be a non-negative Lua-safe integer";
pub const NAMESPACE_INVALID: &'static str = "Valkey namespace must be 1-128 ASCII letters, digits, colons, underscores, or hyphens";

/// The limit that a rejected reservation ran into.
#[derive(Debug, Clone, Copy, PartialEq, Eq, Structural)]
pub enum LimitDimension {
    Requests,
    Tokens,
    Concurrency,
    Unknown,
}

/// Why a limit operation did not go through. Connection failures of the
/// Valkey client are reported by the adapter.
#[derive(Debug)]
pub enum LimitError {
    MalformedState,
    UnexpectedResponse,
    UnsupportedServer,
    InvalidRequest(&'static str),
    Exceeded { dimension: LimitDimension, retry_after: Duration },
}

/// One reservation: the key's lookup ID, its optional hard limits, the tokens
/// to reserve, and how long a concurrency slot is held.
#[derive(Debug, Clone)]
pub struct LimitRequest<'a> {
    pub lookup_id: &'a str,
    pub requests_per_minute: Option<i64>,
    pub tokens_per_minute: Option<i64>,
    pub max_concurrency: Option<i64>,
    pub requested_tokens: i64,
    pub lease_ttl: Duration,
}

pub open spec fn lookup_char(c: char) -> bool {
    (c as u32) < 128 && (ascii_alphanumeric(c as u8) || c == '_')
}

/// 8 to 40 characters, each an ASCII letter, digit or underscore.
pub open spec fn valid_lookup_id(s: Seq<char>) -> bool {
    8 <= s.len() <= 40 && forall|i: int| 0 <= i < s.len() ==> lookup_char(#[trigger] s[i])
}

pub open spec fn lua_safe(v: int) -> bool {
    0 <= v <= MAX_LUA_INTEGER
}

/// An absent limit, or one from 1 to the Lua-safe maximum.
pub open spec fn valid_optional_limit(v: Option<i64>) -> bool {
    v matches Some(x) ==> 1 <= x <= MAX_LUA_INTEGER
}

/// The first rule a request breaks, in the order the checks are made.
pub open spec fn limit_request_defect(r: LimitRequest) -> Option<&'static str> {
    if !valid_lookup_id(r.lookup_id@) {
        Some(LOOKUP_ID_INVALID)
    } else if !valid_optional_limit(r.requests_per_minute) {
        Some(REQUESTS_PER_MINUTE_INVALID)
    } else if !valid_optional_limit(r.tokens_per_minute) {
        Some(TOKENS_PER_MINUTE_INVALID)
    } else if !valid_optional_limit(r.max_concurrency) {
        Some(MAX_CONCURRENCY_INVALID)
    } else if !lua_safe(r.requested_tokens as int) {
        Some(REQUESTED_TOKENS_INVALID)
    } else if r.tokens_per_minute is Some && r.requested_tokens == 0 {
        Some(REQUESTED_TOKENS_ZERO)
    } else if r.lease_ttl@ == 0 {
        Some(LEASE_TTL_ZERO)
    } else {
        None
    }
}

fn check_optional_limit(v: Option<i64>) -> (ok: bool)
    ensures
        ok == valid_optional_limit(v),
{
    match v {
        Some(x) => 1 <= x && x <= MAX_LUA_INTEGER,
        None => true,
    }
}

/// Whether a string is a valid API key lookup ID.
pub fn is_valid_lookup_id(s: &str) -> (ok: bool)
    ensures
        ok == valid_lookup_id(s@),
{
    let n = s.unicode_len();
    if n < 8 || n > 40 {
        return false;
    }
    let mut i: usize = 0;
    while i < n
        invariant
            n == s@.len(),
            i <= n,
            forall|j: int| 0 <= j < i ==> lookup_char(#[trigger] s@[j]),
        decreases n - i,
    {
        let c = s.get_char(i);
        let code = c as u32;
        let ok = code < 128 && ((48 <= code && code <= 57) || (65 <= code && code <= 90) || (97
            <= code && code <= 122) || c == '_');
        if !ok {
            assert(!lookup_char(s@[i as int]));
            return false;
        }
        assert(lookup_char(s@[i as int]));
        i = i + 1;
    }
    true
}

impl<'a> LimitRequest<'a> {
    /// Whether any hard limit applies, so that a failure must fail closed.
    pub fn has_hard_limits(&self) -> (b: bool)
        ensures
            b == (self.requests_per_minute is Some || self.tokens_per_minute is Some
                || self.max_concurrency is Some),
    {
        self.requests_per_minute.is_some() || self.tokens_per_minute.is_some()
            || self.max_concurrency.is_some()
    }

    /// Rejects values that would disable or bypass a hard limit.
    pub fn validate(&self) -> (r: Result<(), LimitError>)
        ensures
            r == match limit_request_defect(*self) {
                Some(message) => Err(LimitError::InvalidRequest(message)),
                None => Ok(()),
            },
    {
        if !is_valid_lookup_id(self.lookup_id) {
            return Err(LimitError::InvalidRequest(LOOKUP_ID_INVALID));
        }
        if !check_optional_limit(self.requests_per_minute) {
            return Err(LimitError::InvalidRequest(REQUESTS_PER_MINUTE_INVALID));
        }
        if !check_optional_limit(self.tokens_per_minute) {
            return Err(LimitError::InvalidRequest(TOKENS_PER_MINUTE_INVALID));
        }
        if !check_optional_limit(self.max_concurrency) {
            return Err(LimitError::InvalidRequest(MAX_CONCURRENCY_INVALID));
        }
        if !(0 <= self.requested_tokens && self.requested_tokens <= MAX_LUA_INTEGER) {
            return Err(LimitError::InvalidRequest(REQUESTED_TOKENS_INVALID));
        }
        if self.tokens_per_minute.is_some() && self.requested_tokens == 0 {
            return Err(LimitError::InvalidRequest(REQUESTED_TOKENS_ZERO));
        }
        if self.lease_ttl.is_zero() {
            return Err(LimitError::InvalidRequest(LEASE_TTL_ZERO));
        }
        Ok(())
    }
}

/// A namespace character: ASCII letter, digit, ':', '_' or '-'.
pub open spec fn namespace_char(c: char) -> bool {
    (c as u32) < 128 && (ascii_alphanumeric(c as u8) || c == ':' || c == '_' || c == '-')
}

/// 1 to 128 namespace characters; braces, which would set the Redis Cluster
/// hash tag, are never among them.
pub open spec fn valid_namespace(s: Seq<char>) -> bool {
    1 <= s.len() <= 128 && forall|i: int| 0 <= i < s.len() ==> namespace_char(#[trigger] s[i])
}

pub fn validate_namespace(namespace: &str) -> (r: Result<(), LimitError>)
    ensures
        r == if valid_namespace(namespace@) {
            Ok(())
        } else {
            Err(LimitError::InvalidRequest(NAMESPACE_INVALID))
        },
{
    let n = namespace.unicode_len();
    if n < 1 || n > 128 {
        return Err(LimitError::InvalidRequest(NAMESPACE_INVALID));
    }
    let mut i: usize = 0;
    while i < n
        invariant
            n == namespace@.len(),
            i <= n,
            forall|j: int| 0 <= j < i ==> namespace_char(#[trigger] namespace@[j]),
        decreases n - i,
    {
        let c = namespace.get_char(i);
        let code = c as u32;
        let ok = code < 128 && ((48 <= code && code <= 57) || (65 <= code && code <= 90) || (97
            <= code && code <= 122) || c == ':' || c == '_' || c == '-');
        if !ok {
            assert(!namespace_char(namespace@[i as int]));
            return Err(LimitError::InvalidRequest(NAMESPACE_INVALID));
        }
        assert(namespace_char(namespace@[i as int]));
        i = i + 1;
    }
    Ok(())
}

/// The Valkey keys of one API key: both carry the lookup ID as their hash tag.
pub struct LimitKeys {
    pub rate: String,
    pub concurrency: String,
}

/// `{namespace}:{lookup_id}` with the lookup ID in braces.
pub open spec fn key_prefix(namespace: Seq<char>, lookup_id: Seq<char>) -> Seq<char> {
    namespace + seq![':', '{'] + lookup_id + seq!['}']
}

pub open spec fn rate_key(namespace: Seq<char>, lookup_id: Seq<char>) -> Seq<char> {
    key_prefix(namespace, lookup_id) + seq![':', 'r', 'a', 't', 'e']
}

pub open spec fn concurrency_key(namespace: Seq<char>, lookup_id: Seq<char>) -> Seq<char> {
    key_prefix(namespace, lookup_id) + seq![
        ':', 'c', 'o', 'n', 'c', 'u', 'r', 'r', 'e', 'n', 'c', 'y', ':', 'v', '2'
    ]
}

fn push_all(out: &mut String, chars: &str)
    ensures
        final(out)@ == old(out)@ + chars@,
{
    out.append(chars);
}

fn push_seq(out: &mut String, chars: &Vec<char>)
    ensures
        final(out)@ == old(out)@ + chars@,
{
    let mut i: usize = 0;
    while i < chars.len()
        invariant
            i <= chars@.len(),
            out@ == old(out)@ + chars@.take(i as int),
        decreases chars@.len() - i,
    {
        push_char(out, chars[i]);
        assert(chars@.take(i as int).push(chars@[i as int]) =~= chars@.take(i + 1));
        i = i + 1;
    }
    assert(chars@.take(chars@.len() as int) =~= chars@);
}

/// Derives the rate and concurrency keys of a lookup ID.
pub fn limit_keys(namespace: &str, lookup_id: &str) -> (keys: LimitKeys)
    ensures
        keys.rate@ == rate_key(namespace@, lookup_id@),
        keys.concurrency@ == concurrency_key(namespace@, lookup_id@),
{
    let mut prefix = String::new();
    push_all(&mut prefix, namespace);
    push_char(&mut prefix, ':');
    push_char(&mut prefix, '{');
    push_all(&mut prefix, lookup_id);
    push_char(&mut prefix, '}');
    assert(prefix@ =~= key_prefix(namespace@, lookup_id@));
    let mut rate = prefix.clone();
    push_seq(&mut rate, &vec![':', 'r', 'a', 't', 'e']);
    let mut concurrency = prefix;
    push_seq(
        &mut concurrency,
        &vec![':', 'c', 'o', 'n', 'c', 'u', 'r', 'r', 'e', 'n', 'c', 'y', ':', 'v', '2'],
    );
    assert(rate@ =~= rate_key(namespace@, lookup_id@));
    assert(concurrency@ =~= concurrency_key(namespace@, lookup_id@));
    LimitKeys { rate, concurrency }
}

/// The Redis Cluster hash tag of a key: what stands between the first '{'
/// and the first '}' after it, when that is not empty.
pub open spec fn hash_tag(key: Seq<char>) -> Option<Seq<char>> {
    if exists|i: int| 0 <= i < key.len() && key[i] == '{' {
        let open = choose|i: int|
            0 <= i < key.len() && key[i] == '{' && forall|j: int| 0 <= j < i ==> key[j] != '{';
        if exists|k: int| open < k < key.len() && key[k] == '}' {
            let close = choose|k: int|
                open < k < key.len() && key[k] == '}' && forall|j: int|
                    open < j < k ==> key[j] != '}';
            if close > open + 1 {
                Some(key.subrange(open + 1, close))
            } else {
                None
            }
        } else {
            None
        }
    } else {
        None
    }
}

/// Both keys of a valid lookup ID under a valid namespace hash to the slot
/// of the lookup ID itself, so one script can touch both.
pub proof fn limit_keys_share_lookup_hash_tag(namespace: Seq<char>, lookup_id: Seq<char>)
    requires
        valid_namespace(namespace),
        valid_lookup_id(lookup_id),
    ensures
        hash_tag(rate_key(namespace, lookup_id)) == Some(lookup_id),
        hash_tag(concurrency_key(namespace, lookup_id)) == Some(lookup_id),
{
    let n = namespace.len() as int;
    let m = lookup_id.len() as int;
    let keys = seq![rate_key(namespace, lookup_id), concurrency_key(namespace, lookup_id)];
    assert forall|t: int| 0 <= t < 2 implies hash_tag(#[trigger] keys[t]) == Some(lookup_id) by {
        let key = keys[t];
        assert(key[n + 1] == '{');
        assert forall|j: int| 0 <= j < n + 1 implies key[j] != '{' by {
            if j < n {
                assert(key[j] == namespace[j]);
                assert(namespace_char(namespace[j]));
            }
        }
        let open = choose|i: int|
            0 <= i < key.len() && key[i] == '{' && forall|j: int| 0 <= j < i ==> key[j] != '{';
        if open < n + 1 {
            assert(key[open] == namespace[open]);
            assert(namespace_char(namespace[open]));
        }
        assert(open == n + 1);
        assert(key[n + 2 + m] == '}');
        assert forall|j: int| open < j < n + 2 + m implies key[j] != '}' by {
            assert(key[j] == lookup_id[j - n - 2]);
            assert(lookup_char(lookup_id[j - n - 2]));
        }
        let close = choose|k: int|
            open < k < key.len() && key[k] == '}' && forall|j: int| open < j < k ==> key[j] != '}';
        if close < n + 2 + m {
            assert(key[close] == lookup_id[close - n - 2]);
            assert(lookup_char(lookup_id[close - n - 2]));
        }
        if close > n + 2 + m {
            assert(key[n + 2 + m] != '}');
        }
        assert(close == n + 2 + m);
        assert(key.subrange(open + 1, close) =~= lookup_id);
    }
    assert(keys[0] == rate_key(namespace, lookup_id));
    assert(keys[1] == concurrency_key(namespace, lookup_id));
}


/// What one run of the reservation script decided.
#[derive(Debug, Clone, PartialEq, Eq, Structural)]
pub enum ReservationScriptResult {
    Granted { window_id: i64, concurrency_expires_at_ms: Option<i64> },
    Rejected { dimension: LimitDimension, retry_after_ms: u64 },
    MalformedState,
    ScriptFailure,
}

/// The reply of the reservation script: version, status, detail, retry delay,
/// window ID and concurrency lease expiry.
pub type RawReservationScriptResponse = (i64, i64, String, i64, i64, i64);

/// The meaning of a script reply; anything outside the documented reply
/// shapes is an unexpected response.
pub open spec fn reservation_reply(
    version: i64,
    status: i64,
    detail: Seq<char>,
    retry_after_ms: i64,
    window_id: i64,
    lease_expiry_ms: i64,
) -> Result<ReservationScriptResult, LimitError> {
    if version != SCRIPT_RESPONSE_VERSION || !lua_safe(window_id as int) || !lua_safe(
        lease_expiry_ms as int,
    ) {
        Err(LimitError::UnexpectedResponse)
    } else if status == 1 && detail == "ok"@ && retry_after_ms == 0 && window_id > 0 {
        Ok(
            ReservationScriptResult::Granted {
                window_id,
                concurrency_expires_at_ms: if lease_expiry_ms > 0 {
                    Some(lease_expiry_ms)
                } else {
                    None
                },
            },
        )
    } else if status == 0 && (detail == "rpm"@ || detail == "tpm"@) && 1 <= retry_after_ms
        <= FIXED_WINDOW_MS && window_id > 0 && lease_expiry_ms == 0 {
        Ok(
            ReservationScriptResult::Rejected {
                dimension: if detail == "rpm"@ {
                    LimitDimension::Requests
                } else {
                    LimitDimension::Tokens
                },
                retry_after_ms: retry_after_ms as u64,
            },
        )
    } else if status == 0 && detail == "concurrency"@ && 1 <= retry_after_ms <= MAX_LUA_INTEGER
        && window_id > 0 && lease_expiry_ms == 0 {
        Ok(
            ReservationScriptResult::Rejected {
                dimension: LimitDimension::Concurrency,
                retry_after_ms: retry_after_ms as u64,
            },
        )
    } else if status == -1 && (detail == "malformed_rate_state"@ || detail
        == "malformed_concurrency_state"@) && retry_after_ms == 0 && window_id > 0
        && lease_expiry_ms == 0 {
        Ok(ReservationScriptResult::MalformedState)
    } else if status == -1 && (detail == "invalid_arguments"@ || detail == "invalid_server_time"@)
        && retry_after_ms == 0 && window_id == 0 && lease_expiry_ms == 0 {
        Ok(ReservationScriptResult::ScriptFailure)
    } else {
        Err(LimitError::UnexpectedResponse)
    }
}

/// A rejection names the limit that refused: a reply whose detail is "rpm"
/// is a rejection on requests, "tpm" on tokens, and "concurrency" on
/// concurrent leases; every well-formed rejection reply of a fixed-window
/// limit is reported with its own dimension and retry delay.
pub proof fn rejection_names_its_dimension(
    version: i64,
    status: i64,
    detail: Seq<char>,
    retry_after_ms: i64,
    window_id: i64,
    lease_expiry_ms: i64,
)
    ensures
        reservation_reply(version, status, detail, retry_after_ms, window_id, lease_expiry_ms) matches Ok(
            ReservationScriptResult::Rejected { dimension, .. },
        ) ==> (dimension is Requests <==> detail == "rpm"@) && (dimension is Tokens <==> detail
            == "tpm"@) && (dimension is Concurrency <==> detail == "concurrency"@),
        (version == 1 && status == 0 && detail == "rpm"@ && 1 <= retry_after_ms <= 60_000 && 0
            < window_id <= MAX_LUA_INTEGER && lease_expiry_ms == 0) ==> reservation_reply(
            version,
            status,
            detail,
            retry_after_ms,
            window_id,
            lease_expiry_ms,
        ) == Ok::<ReservationScriptResult, LimitError>(
            ReservationScriptResult::Rejected {
                dimension: LimitDimension::Requests,
                retry_after_ms: retry_after_ms as u64,
            },
        ),
        (version == 1 && status == 0 && detail == "tpm"@ && 1 <= retry_after_ms <= 60_000 && 0
            < window_id <= MAX_LUA_INTEGER && lease_expiry_ms == 0) ==> reservation_reply(
            version,
            status,
            detail,
            retry_after_ms,
            window_id,
            lease_expiry_ms,
        ) == Ok::<ReservationScriptResult, LimitError>(
            ReservationScriptResult::Rejected {
                dimension: LimitDimension::Tokens,
                retry_after_ms: retry_after_ms as u64,
            },
        ),
{
    reveal_strlit("rpm");
    reveal_strlit("tpm");
    reveal_strlit("ok");
    reveal_strlit("concurrency");
    assert("rpm"@ != "tpm"@) by {
        assert("rpm"@[0] != "tpm"@[0]);
    }
    assert("rpm"@ != "concurrency"@) by {
        assert("rpm"@.len() != "concurrency"@.len());
    }
    assert("tpm"@ != "concurrency"@) by {
        assert("tpm"@.len() != "concurrency"@.len());
    }
}

impl ReservationScriptResult {
    /// Interprets a decoded reply of the reservation script.
    pub fn parse(response: RawReservationScriptResponse) -> (r: Result<Self, LimitError>)
        ensures
            r == reservation_reply(
                response.0,
                response.1,
                response.2@,
                response.3,
                response.4,
                response.5,
            ),
    {
        let (version, status, detail, retry_after_ms, window_id, lease_expiry_ms) = response;
        if version != SCRIPT_RESPONSE_VERSION || !(0 <= window_id && window_id <= MAX_LUA_INTEGER)
            || !(0 <= lease_expiry_ms && lease_expiry_ms <= MAX_LUA_INTEGER) {
            return Err(LimitError::UnexpectedResponse);
        }
        let detail = detail.as_str();
        let is_rpm = str_eq(detail, "rpm");
        if status == 1 && str_eq(detail, "ok") && retry_after_ms == 0 && window_id > 0 {
            Ok(
                ReservationScriptResult::Granted {
                    window_id,
                    concurrency_expires_at_ms: if lease_expiry_ms > 0 {
                        Some(lease_expiry_ms)
                    } else {
                        None
                    },
                },
            )
        } else if status == 0 && (is_rpm || str_eq(detail, "tpm")) && 1 <= retry_after_ms
            && retry_after_ms <= FIXED_WINDOW_MS && window_id > 0 && lease_expiry_ms == 0 {
            Ok(
                ReservationScriptResult::Rejected {
                    dimension: if is_rpm {
                        LimitDimension::Requests
                    } else {
                        LimitDimension::Tokens
                    },
                    retry_after_ms: retry_after_ms as u64,
                },
            )
        } else if status == 0 && str_eq(detail, "concurrency") && 1 <= retry_after_ms
            && retry_after_ms <= MAX_LUA_INTEGER && window_id > 0 && lease_expiry_ms == 0 {
            Ok(
                ReservationScriptResult::Rejected {
                    dimension: LimitDimension::Concurrency,
                    retry_after_ms: retry_after_ms as u64,
                },
            )
        } else if status == -1 && (str_eq(detail, "malformed_rate_state") || str_eq(
            detail,
            "malformed_concurrency_state",
        )) && retry_after_ms == 0 && window_id > 0 && lease_expiry_ms == 0 {
            Ok(ReservationScriptResult::MalformedState)
        } else if status == -1 && (str_eq(detail, "invalid_arguments") || str_eq(
            detail,
            "invalid_server_time",
        )) && retry_after_ms == 0 && window_id == 0 && lease_expiry_ms == 0 {
            Ok(ReservationScriptResult::ScriptFailure)
        } else {
            Err(LimitError::UnexpectedResponse)
        }
    }
}

/// A reply value of the Valkey client, carried through unread.
#[verifier::external_type_specification]
#[verifier::external_body]
pub struct ExRedisValue(redis::Value);

/// What the six-field tuple decode of `redis::FromRedisValue` makes of a
/// reply: the fields as plain values, or nothing where the reply is not such
/// a tuple. It depends on the reply alone.
pub uninterp spec fn decoded_reply(v: redis::Value) -> Option<(i64, i64, Seq<char>, i64, i64, i64)>;

/// Calls `FromRedisValue::from_redis_value_ref` for the six-field reply tuple;
/// its outcome is named by `decoded_reply`. A reply of another shape gives an
/// error, which becomes `None`.
#[verifier::external_body]
fn decode_reservation_reply(value: &redis::Value) -> (r: Option<RawReservationScriptResponse>)
    ensures
        match decoded_reply(*value) {
            None => r is None,
            Some(t) => r matches Some(x) && x.0 == t.0 && x.1 == t.1 && x.2@ == t.2 && x.3 == t.3
                && x.4 == t.4 && x.5 == t.5,
        },
{
    <RawReservationScriptResponse as redis::FromRedisValue>::from_redis_value_ref(value).ok()
}

impl ReservationScriptResult {
    /// Decodes a raw Valkey reply and interprets it; a reply that is not a
    /// six-field tuple of the right types is an unexpected response.
    pub fn parse_value(value: &redis::Value) -> (r: Result<Self, LimitError>)
        ensures
            match decoded_reply(*value) {
                None => r == Err::<Self, LimitError>(LimitError::UnexpectedResponse),
                Some(t) => r == reservation_reply(t.0, t.1, t.2, t.3, t.4, t.5),
            },
    {
        match decode_reservation_reply(value) {
            None => Err(LimitError::UnexpectedResponse),
            Some(response) => Self::parse(response),
        }
    }
}

/// A lease TTL in whole milliseconds, when it fits Lua's safe integers.
pub open spec fn lease_ttl_ms(d: Duration) -> Result<i64, LimitError> {
    let ms = d@ / 1_000_000;
    if ms > i64::MAX {
        Err(LimitError::InvalidRequest(LEASE_TTL_OUT_OF_RANGE))
    } else if ms > MAX_LUA_INTEGER {
        Err(LimitError::InvalidRequest(LEASE_TTL_NOT_LUA_SAFE))
    } else {
        Ok(ms as i64)
    }
}

pub fn duration_ms(duration: Duration) -> (r: Result<i64, LimitError>)
    ensures
        r == lease_ttl_ms(duration),
{
    let millis = duration.as_millis();
    if millis > i64::MAX as u128 {
        return Err(LimitError::InvalidRequest(LEASE_TTL_OUT_OF_RANGE));
    }
    let milliseconds = millis as i64;
    if milliseconds > MAX_LUA_INTEGER {
        return Err(LimitError::InvalidRequest(LEASE_TTL_NOT_LUA_SAFE));
    }
    Ok(milliseconds)
}

/// Everything the reservation script is called with, except the lease ID.
pub struct ReservationPlan {
    pub keys: LimitKeys,
    /// 0 stands for "no requests-per-minute limit".
    pub requests_per_minute: i64,
    /// 0 stands for "no tokens-per-minute limit".
    pub tokens_per_minute: i64,
    pub requested_tokens: i64,
    /// 0 stands for "no concurrency limit".
    pub max_concurrency: i64,
    pub ttl_ms: i64,
}

pub open spec fn or_zero(v: Option<i64>) -> i64 {
    match v {
        Some(x) => x,
        None => 0,
    }
}

/// Validates a reservation and derives the script's keys and arguments.
pub fn plan_reservation(namespace: &str, request: &LimitRequest) -> (r: Result<
    ReservationPlan,
    LimitError,
>)
    ensures
        limit_request_defect(*request) matches Some(m) ==> r == Err::<ReservationPlan, LimitError>(
            LimitError::InvalidRequest(m),
        ),
        limit_request_defect(*request) is None ==> match lease_ttl_ms(request.lease_ttl) {
            Err(e) => r == Err::<ReservationPlan, LimitError>(e),
            Ok(ttl) => r matches Ok(plan) && {
                &&& plan.keys.rate@ == rate_key(namespace@, request.lookup_id@)
                &&& plan.keys.concurrency@ == concurrency_key(namespace@, request.lookup_id@)
                &&& plan.requests_per_minute == or_zero(request.requests_per_minute)
                &&& plan.tokens_per_minute == or_zero(request.tokens_per_minute)
                &&& plan.requested_tokens == request.requested_tokens
                &&& plan.max_concurrency == or_zero(request.max_concurrency)
                &&& plan.ttl_ms == ttl
            },
        },
{
    request.validate()?;
    let keys = limit_keys(namespace, request.lookup_id);
    let ttl_ms = duration_ms(request.lease_ttl)?;
    Ok(
        ReservationPlan {
            keys,
            requests_per_minute: match request.requests_per_minute {
                Some(v) => v,
                None => 0,
            },
            tokens_per_minute: match request.tokens_per_minute {
                Some(v) => v,
                None => 0,
            },
            requested_tokens: request.requested_tokens,
            max_concurrency: match request.max_concurrency {
                Some(v) => v,
                None => 0,
            },
            ttl_ms,
        },
    )
}

/// A granted reservation. The lease ID and keys stay inside the library and
/// the adapter; the text form shows only the counters.
#[derive(Clone)]
pub struct LimitLease {
    lease_id: String,
    concurrency_key: String,
    rate_key: String,
    rate_window_id: i64,
    reserved_tokens: i64,
    has_token_reservation: bool,
    concurrency_expires_at_ms: Option<i64>,
}

/// The content of a lease.
pub struct LeaseView {
    pub lease_id: Seq<char>,
    pub concurrency_key: Seq<char>,
    pub rate_key: Seq<char>,
    pub rate_window_id: i64,
    pub reserved_tokens: i64,
    pub has_token_reservation: bool,
    pub concurrency_expires_at_ms: Option<i64>,
}

impl View for LimitLease {
    type V = LeaseView;

    closed spec fn view(&self) -> LeaseView {
        LeaseView {
            lease_id: self.lease_id@,
            concurrency_key: self.concurrency_key@,
            rate_key: self.rate_key@,
            rate_window_id: self.rate_window_id,
            reserved_tokens: self.reserved_tokens,
            has_token_reservation: self.has_token_reservation,
            concurrency_expires_at_ms: self.concurrency_expires_at_ms,
        }
    }
}

impl LimitLease {
    pub fn from_parts(
        lease_id: String,
        rate_key: String,
        concurrency_key: String,
        rate_window_id: i64,
        reserved_tokens: i64,
        has_token_reservation: bool,
        concurrency_expires_at_ms: Option<i64>,
    ) -> (lease: LimitLease)
        ensures
            lease@ == (LeaseView {
                lease_id: lease_id@,
                concurrency_key: concurrency_key@,
                rate_key: rate_key@,
                rate_window_id,
                reserved_tokens,
                has_token_reservation,
                concurrency_expires_at_ms,
            }),
    {
        LimitLease {
            lease_id,
            concurrency_key,
            rate_key,
            rate_window_id,
            reserved_tokens,
            has_token_reservation,
            concurrency_expires_at_ms,
        }
    }

    pub fn lease_id(&self) -> (s: &str)
        ensures
            s@ == self@.lease_id,
    {
        self.lease_id.as_str()
    }

    pub fn rate_key(&self) -> (s: &str)
        ensures
            s@ == self@.rate_key,
    {
        self.rate_key.as_str()
    }

    pub fn concurrency_key(&self) -> (s: &str)
        ensures
            s@ == self@.concurrency_key,
    {
        self.concurrency_key.as_str()
    }

    pub fn rate_window_id(&self) -> (v: i64)
        ensures
            v == self@.rate_window_id,
    {
        self.rate_window_id
    }

    pub fn reserved_tokens(&self) -> (v: i64)
        ensures
            v == self@.reserved_tokens,
    {
        self.reserved_tokens
    }

    /// The lease in the layout of `{:?}`, with the lease ID and both keys
    /// replaced by a redaction marker.
    pub fn debug_string(&self) -> (s: String)
        ensures
            s@ == lease_debug_text(
                self@.rate_window_id,
                self@.reserved_tokens,
                self@.has_token_reservation,
                self@.concurrency_expires_at_ms,
            ),
    {
        let mut s = String::new();
        s.append("LimitLease { lease_id: \"[REDACTED]\", rate_key: \"[REDACTED]\", concurrency_key: \"[REDACTED]\", rate_window_id: ");
        push_signed_decimal(&mut s, self.rate_window_id);
        s.append(", reserved_tokens: ");
        push_signed_decimal(&mut s, self.reserved_tokens);
        s.append(", has_token_reservation: ");
        if self.has_token_reservation {
            s.append("true");
        } else {
            s.append("false");
        }
        s.append(", concurrency_expires_at_ms: ");
        match self.concurrency_expires_at_ms {
            Some(v) => {
                s.append("Some(");
                push_signed_decimal(&mut s, v);
                s.append(")");
            },
            None => {
                s.append("None");
            },
        }
        s.append(" }");
        s
    }
}

/// The text form of a lease; it is made of the counters alone.
pub open spec fn lease_debug_text(
    rate_window_id: i64,
    reserved_tokens: i64,
    has_token_reservation: bool,
    concurrency_expires_at_ms: Option<i64>,
) -> Seq<char> {
    "LimitLease { lease_id: \"[REDACTED]\", rate_key: \"[REDACTED]\", concurrency_key: \"[REDACTED]\", rate_window_id: "@
        + signed_decimal(rate_window_id as int) + ", reserved_tokens: "@ + signed_decimal(
        reserved_tokens as int,
    ) + ", has_token_reservation: "@ + (if has_token_reservation {
        "true"@
    } else {
        "false"@
    }) + ", concurrency_expires_at_ms: "@ + (match concurrency_expires_at_ms {
        Some(v) => "Some("@ + signed_decimal(v as int) + ")"@,
        None => "None"@,
    }) + " }"@
}

/// Two leases that differ only in their lease IDs and keys have the same text
/// form: neither identifier can be read from it.
pub proof fn lease_text_hides_identifiers(a: LeaseView, b: LeaseView)
    requires
        a.rate_window_id == b.rate_window_id,
        a.reserved_tokens == b.reserved_tokens,
        a.has_token_reservation == b.has_token_reservation,
        a.concurrency_expires_at_ms == b.concurrency_expires_at_ms,
    ensures
        lease_debug_text(
            a.rate_window_id,
            a.reserved_tokens,
            a.has_token_reservation,
            a.concurrency_expires_at_ms,
        ) == lease_debug_text(
            b.rate_window_id,
            b.reserved_tokens,
            b.has_token_reservation,
            b.concurrency_expires_at_ms,
        ),
{
}

/// What a script reply means for the caller of a reservation. A grant is
/// accepted only when it carries a concurrency expiry exactly when the request
/// has a concurrency limit.
pub open spec fn reservation_outcome_spec(
    request: LimitRequest,
    rate_key: Seq<char>,
    concurrency_key: Seq<char>,
    lease_id: Seq<char>,
    reply: ReservationScriptResult,
) -> Result<LeaseView, LimitError> {
    match reply {
        ReservationScriptResult::Granted { window_id, concurrency_expires_at_ms } => {
            if (request.max_concurrency is Some) == (concurrency_expires_at_ms is Some) {
                Ok(
                    LeaseView {
                        lease_id,
                        concurrency_key,
                        rate_key,
                        rate_window_id: window_id,
                        reserved_tokens: request.requested_tokens,
                        has_token_reservation: request.tokens_per_minute is Some,
                        concurrency_expires_at_ms,
                    },
                )
            } else {
                Err(LimitError::UnexpectedResponse)
            }
        },
        ReservationScriptResult::Rejected { dimension, retry_after_ms } => Err(
            LimitError::Exceeded { dimension, retry_after: arbitrary() },
        ),
        ReservationScriptResult::MalformedState => Err(LimitError::MalformedState),
        ReservationScriptResult::ScriptFailure => Err(LimitError::UnexpectedResponse),
    }
}

/// Turns the script's reply into a lease or the error the caller sees.
pub fn reservation_outcome(
    request: &LimitRequest,
    plan: ReservationPlan,
    lease_id: String,
    reply: ReservationScriptResult,
) -> (r: Result<LimitLease, LimitError>)
    ensures
        reply matches ReservationScriptResult::Rejected { dimension, retry_after_ms } ==> (
        r matches Err(LimitError::Exceeded { dimension: d, retry_after }) && d == dimension
            && retry_after@ == retry_after_ms * 1_000_000),
        !(reply is Rejected) ==> match reservation_outcome_spec(
            *request,
            plan.keys.rate@,
            plan.keys.concurrency@,
            lease_id@,
            reply,
        ) {
            Ok(v) => (r matches Ok(lease) && lease@ == v),
            Err(e) => r == Err::<LimitLease, LimitError>(e),
        },
{
    match reply {
        ReservationScriptResult::Granted { window_id, concurrency_expires_at_ms } => {
            if request.max_concurrency.is_some() == concurrency_expires_at_ms.is_some() {
                Ok(
                    LimitLease {
                        lease_id,
                        rate_key: plan.keys.rate,
                        concurrency_key: plan.keys.concurrency,
                        rate_window_id: window_id,
                        reserved_tokens: request.requested_tokens,
                        has_token_reservation: request.tokens_per_minute.is_some(),
                        concurrency_expires_at_ms,
                    },
                )
            } else {
                Err(LimitError::UnexpectedResponse)
            }
        },
        ReservationScriptResult::Rejected { dimension, retry_after_ms } => Err(
            LimitError::Exceeded { dimension, retry_after: Duration::from_millis(retry_after_ms) },
        ),
        ReservationScriptResult::MalformedState => Err(LimitError::MalformedState),
        ReservationScriptResult::ScriptFailure => Err(LimitError::UnexpectedResponse),
    }
}

/// Whether releasing a lease needs the release script: only a lease that holds
/// a concurrency slot has anything to release.
pub fn release_needed(lease: &LimitLease) -> (b: bool)
    ensures
        b == (lease@.concurrency_expires_at_ms is Some),
{
    lease.concurrency_expires_at_ms.is_some()
}

/// Whether reconciling the actual token use needs the reconcile script.
/// Leases without a token reservation and exact reservations need nothing.
pub fn reconcile_needed(lease: &LimitLease, actual_tokens: i64) -> (r: Result<bool, LimitError>)
    ensures
        r == if !lease@.has_token_reservation {
            Ok(false)
        } else if !lua_safe(actual_tokens as int) {
            Err(LimitError::InvalidRequest(ACTUAL_TOKENS_INVALID))
        } else {
            Ok(actual_tokens != lease@.reserved_tokens)
        },
{
    if !lease.has_token_reservation {
        return Ok(false);
    }
    if !(0 <= actual_tokens && actual_tokens <= MAX_LUA_INTEGER) {
        return Err(LimitError::InvalidRequest(ACTUAL_TOKENS_INVALID));
    }
    Ok(actual_tokens != lease.reserved_tokens)
}

/// The reconcile script answers 0 or 1; anything else means the stored state
/// is malformed.
pub fn reconcile_reply(result: i64) -> (r: Result<(), LimitError>)
    ensures
        r == if result == 0 || result == 1 {
            Ok(())
        } else {
            Err(LimitError::MalformedState)
        },
{
    if result == 0 || result == 1 {
        Ok(())
    } else {
        Err(LimitError::MalformedState)
    }
}

/// A health check succeeds only on the exact reply "PONG".
pub fn ping_reply(reply: &str) -> (r: Result<(), LimitError>)
    ensures
        r == if reply@ == "PONG"@ {
            Ok(())
        } else {
            Err(LimitError::UnexpectedResponse)
        },
{
    if str_eq(reply, "PONG") {
        Ok(())
    } else {
        Err(LimitError::UnexpectedResponse)
    }
}

} // verus!
