//! API keys: the checks on a key's name, scopes, route allowlist, expiry and
//! hard limits before a key is created or changed, and the answer to an
//! update that matched no row.
use vstd::prelude::*;
use vstd::string::*;

use crate::carried::Timestamp;
use crate::catalog::CatalogError;
use crate::configuration::ConfigurationError;
use crate::domain::MAX_TOKENS_PER_MINUTE;
use crate::text::{control_char, decimal, push_decimal, str_eq, trim_str, trimmed};

verus! {

/// Why an API-key operation did not go through. Database and runtime
/// compilation failures are reported by the adapter.
#[derive(Debug)]
pub enum AccessError {
    Invalid(String),
    NotFound,
    PreconditionFailed,
    IdempotencyConflict,
    IdempotencyInProgress,
}

/// What a key may be used for.
#[derive(Clone, Copy, Debug, Eq, PartialEq, Structural)]
pub enum ApiKeyScope {
    Inference,
    ModelsRead,
}

impl ApiKeyScope {
    pub fn as_str(self) -> (s: &'static str)
        ensures
            s@ == scope_text(self),
    {
        match self {
            ApiKeyScope::Inference => "inference",
            ApiKeyScope::ModelsRead => "models_read",
        }
    }
}

pub open spec fn scope_text(scope: ApiKeyScope) -> Seq<char> {
    match scope {
        ApiKeyScope::Inference => "inference"@,
        ApiKeyScope::ModelsRead => "models_read"@,
    }
}

/// The optional hard limits of a new key; each configured limit is positive.
#[derive(Clone, Copy, Debug, Eq, PartialEq)]
pub struct ApiKeyLimits {
    pub requests_per_minute: Option<u64>,
    pub tokens_per_minute: Option<u64>,
    pub concurrency: Option<u64>,
}

/// The hard limits in the widths of their database columns.
#[derive(Clone, Copy, Debug, Eq, PartialEq)]
pub struct ApiKeyLimitColumns {
    pub requests_per_minute: Option<i32>,
    pub tokens_per_minute: Option<i64>,
    pub max_concurrency: Option<i32>,
}

pub const KEY_NAME_INVALID: &'static str = "name must contain 1-100 characters";
pub const KEY_SCOPE_REQUIRED: &'static str = "at least one scope is required";
pub const KEY_SCOPES_NOT_UNIQUE: &'static str = "scope entries must be unique";
pub const KEY_ROUTES_NOT_UNIQUE: &'static str = "route allowlist entries must be unique";
pub const KEY_EXPIRY_PAST: &'static str = "expiration must be in the future";
pub const RPM_TOO_LARGE: &'static str = "RPM limit is too large";
pub const TPM_TOO_LARGE: &'static str = "TPM limit is too large";
pub const CONCURRENCY_TOO_LARGE: &'static str = "concurrency limit is too large";

/// Whether no two entries of a sequence are equal.
pub open spec fn distinct<T>(s: Seq<T>) -> bool {
    forall|i: int, j: int| 0 <= i < j < s.len() ==> s[i] != s[j]
}

/// Whether no two strings of a sequence have the same text.
pub open spec fn distinct_texts(s: Seq<String>) -> bool {
    forall|i: int, j: int| 0 <= i < j < s.len() ==> s[i]@ != s[j]@
}

/// The first rule a new key's name, scopes and allowlist break. The name is
/// counted before it is trimmed.
pub open spec fn new_key_defect(
    name: Seq<char>,
    scopes: Seq<ApiKeyScope>,
    allowed_routes: Seq<String>,
) -> Option<Seq<char>> {
    if trimmed(name).len() == 0 || name.len() > 100 {
        Some(KEY_NAME_INVALID@)
    } else if scopes.len() == 0 {
        Some(KEY_SCOPE_REQUIRED@)
    } else if !distinct(scopes) {
        Some(KEY_SCOPES_NOT_UNIQUE@)
    } else if !distinct_texts(allowed_routes) {
        Some(KEY_ROUTES_NOT_UNIQUE@)
    } else {
        None
    }
}

fn scopes_distinct(scopes: &[ApiKeyScope]) -> (b: bool)
    ensures
        b == distinct(scopes@),
{
    let mut i: usize = 0;
    while i < scopes.len()
        invariant
            i <= scopes@.len(),
            forall|a: int, b: int| 0 <= a < b < scopes@.len() && a < i ==> scopes@[a] != scopes@[b],
        decreases scopes@.len() - i,
    {
        let mut j: usize = i + 1;
        while j < scopes.len()
            invariant
                i < scopes@.len(),
                i < j <= scopes@.len(),
                forall|a: int, b: int| 0 <= a < b < scopes@.len() && a < i ==> scopes@[a] != scopes@[b],
                forall|b: int| i < b < j ==> scopes@[i as int] != scopes@[b],
            decreases scopes@.len() - j,
        {
            if scopes[i] == scopes[j] {
                return false;
            }
            j = j + 1;
        }
        i = i + 1;
    }
    true
}

/// Whether the strings of a slice are pairwise different.
pub fn texts_distinct(values: &[String]) -> (b: bool)
    ensures
        b == distinct_texts(values@),
{
    let mut i: usize = 0;
    while i < values.len()
        invariant
            i <= values@.len(),
            forall|a: int, b: int| 0 <= a < b < values@.len() && a < i ==> values@[a]@ != values@[b]@,
        decreases values@.len() - i,
    {
        let mut j: usize = i + 1;
        while j < values.len()
            invariant
                i < values@.len(),
                i < j <= values@.len(),
                forall|a: int, b: int| 0 <= a < b < values@.len() && a < i ==> values@[a]@ != values@[b]@,
                forall|b: int| i < b < j ==> values@[i as int]@ != values@[b]@,
            decreases values@.len() - j,
        {
            if str_eq(values[i].as_str(), values[j].as_str()) {
                return false;
            }
            j = j + 1;
        }
        i = i + 1;
    }
    true
}

/// Checks a new key's name, scopes and route allowlist, in that order.
pub fn validate_new_api_key(
    name: &str,
    scopes: &[ApiKeyScope],
    allowed_routes: &[String],
) -> (r: Result<(), AccessError>)
    ensures
        match new_key_defect(name@, scopes@, allowed_routes@) {
            Some(m) => r matches Err(AccessError::Invalid(msg)) && msg@ == m,
            None => r is Ok,
        },
{
    if trim_str(name).unicode_len() == 0 || name.unicode_len() > 100 {
        return Err(AccessError::Invalid(KEY_NAME_INVALID.to_string()));
    }
    if scopes.len() == 0 {
        return Err(AccessError::Invalid(KEY_SCOPE_REQUIRED.to_string()));
    }
    if !scopes_distinct(scopes) {
        return Err(AccessError::Invalid(KEY_SCOPES_NOT_UNIQUE.to_string()));
    }
    if !texts_distinct(allowed_routes) {
        return Err(AccessError::Invalid(KEY_ROUTES_NOT_UNIQUE.to_string()));
    }
    Ok(())
}

/// The stored columns of a new key's limits, once its expiry is known to lie
/// ahead of `now`.
pub open spec fn new_key_columns_spec(
    expires_at: Option<Timestamp>,
    now: Timestamp,
    limits: ApiKeyLimits,
) -> Result<ApiKeyLimitColumns, Seq<char>> {
    if expires_at matches Some(t) && t.micros <= now.micros {
        Err(KEY_EXPIRY_PAST@)
    } else if limits.requests_per_minute matches Some(v) && v > i32::MAX {
        Err(RPM_TOO_LARGE@)
    } else if limits.tokens_per_minute matches Some(v) && v > i64::MAX {
        Err(TPM_TOO_LARGE@)
    } else if limits.concurrency matches Some(v) && v > i32::MAX {
        Err(CONCURRENCY_TOO_LARGE@)
    } else {
        Ok(
            ApiKeyLimitColumns {
                requests_per_minute: match limits.requests_per_minute {
                    Some(v) => Some(v as i32),
                    None => None,
                },
                tokens_per_minute: match limits.tokens_per_minute {
                    Some(v) => Some(v as i64),
                    None => None,
                },
                max_concurrency: match limits.concurrency {
                    Some(v) => Some(v as i32),
                    None => None,
                },
            },
        )
    }
}

/// Checks a new key's expiry and converts its limits to column widths.
pub fn new_api_key_columns(
    expires_at: Option<Timestamp>,
    now: Timestamp,
    limits: &ApiKeyLimits,
) -> (r: Result<ApiKeyLimitColumns, AccessError>)
    ensures
        match new_key_columns_spec(expires_at, now, *limits) {
            Ok(c) => r == Ok::<ApiKeyLimitColumns, AccessError>(c),
            Err(m) => r matches Err(AccessError::Invalid(msg)) && msg@ == m,
        },
{
    if let Some(t) = expires_at {
        if t.micros <= now.micros {
            return Err(AccessError::Invalid(KEY_EXPIRY_PAST.to_string()));
        }
    }
    let requests_per_minute = match limits.requests_per_minute {
        Some(v) => {
            if v > i32::MAX as u64 {
                return Err(AccessError::Invalid(RPM_TOO_LARGE.to_string()));
            }
            Some(v as i32)
        },
        None => None,
    };
    let tokens_per_minute = match limits.tokens_per_minute {
        Some(v) => {
            if v > i64::MAX as u64 {
                return Err(AccessError::Invalid(TPM_TOO_LARGE.to_string()));
            }
            Some(v as i64)
        },
        None => None,
    };
    let max_concurrency = match limits.concurrency {
        Some(v) => {
            if v > i32::MAX as u64 {
                return Err(AccessError::Invalid(CONCURRENCY_TOO_LARGE.to_string()));
            }
            Some(v as i32)
        },
        None => None,
    };
    Ok(ApiKeyLimitColumns { requests_per_minute, tokens_per_minute, max_concurrency })
}

/// The requested state of an existing key.
#[derive(Clone, Debug)]
pub struct UpdateApiKeyInput {
    pub name: String,
    pub scopes: Vec<String>,
    pub allowed_routes: Vec<String>,
    pub requests_per_minute: Option<u32>,
    pub tokens_per_minute: Option<u64>,
    pub max_concurrency: Option<u32>,
    pub expires_at: Option<Timestamp>,
}

/// What an accepted key update writes.
#[derive(Clone, Debug)]
pub struct ApiKeyUpdate {
    /// The trimmed name.
    pub name: String,
    pub requests_per_minute: Option<i32>,
    pub tokens_per_minute: Option<i64>,
    pub max_concurrency: Option<i32>,
}

pub const UPDATE_NAME_INVALID: &'static str = "API-key name must contain 1-100 characters";
pub const UPDATE_NAME_NOT_VISIBLE: &'static str = "API-key name must contain 1-100 visible characters without control or bidi formatting";
pub const UPDATE_SCOPE_REQUIRED: &'static str = "at least one API-key scope is required";
pub const UPDATE_SCOPES_INVALID: &'static str = "API-key scopes must be unique inference or models_read values";
pub const UPDATE_ROUTES_NOT_UNIQUE: &'static str = "allowlisted routes must be unique";
pub const UPDATE_EXPIRY_PAST: &'static str = "API-key expiration must be in the future";
pub const UPDATE_TPM_ABOVE_LIMITER: &'static str = "TPM limit exceeds the distributed limiter maximum";
pub const UPDATE_LIMITS_NOT_POSITIVE: &'static str = "hard limits must be positive when configured";

/// A control character or a bidirectional formatting character, which a
/// key name must not hold.
pub open spec fn unsafe_display_char(c: char) -> bool {
    ||| control_char(c)
    ||| (c as u32) == 0x061c
    ||| (c as u32) == 0x200e
    ||| (c as u32) == 0x200f
    ||| (0x202a <= (c as u32) && (c as u32) <= 0x202e)
    ||| (0x2066 <= (c as u32) && (c as u32) <= 0x2069)
}

/// Whether a string holds a character that would hide or reorder its text.
pub fn has_unsafe_display_characters(s: &str) -> (r: bool)
    ensures
        r == exists|j: int| 0 <= j < s@.len() && unsafe_display_char(#[trigger] s@[j]),
{
    let n = s.unicode_len();
    let mut i: usize = 0;
    while i < n
        invariant
            n == s@.len(),
            i <= n,
            forall|j: int| 0 <= j < i ==> !unsafe_display_char(#[trigger] s@[j]),
        decreases n - i,
    {
        let code = s.get_char(i) as u32;
        if code <= 0x1f || (0x7f <= code && code <= 0x9f) || code == 0x061c || code == 0x200e
            || code == 0x200f || (0x202a <= code && code <= 0x202e) || (0x2066 <= code && code
            <= 0x2069) {
            assert(unsafe_display_char(s@[i as int]));
            return true;
        }
        i = i + 1;
    }
    false
}

pub const ALLOWLISTED_ROUTE_INVALID: &'static str = "invalid allowlisted route: ";

/// The error text of the first allowlisted route that does not parse.
pub open spec fn first_route_error(checks: Seq<Result<(), String>>) -> Option<Seq<char>>
    decreases checks.len(),
{
    if checks.len() == 0 {
        None
    } else {
        match checks[0] {
            Err(e) => Some(e@),
            Ok(_) => first_route_error(checks.drop_first()),
        }
    }
}

/// The message for the first allowlisted route that does not parse, if any.
fn route_check_message(checks: &[Result<(), String>]) -> (m: Option<String>)
    ensures
        match first_route_error(checks@) {
            Some(e) => m matches Some(s) && s@ == ALLOWLISTED_ROUTE_INVALID@ + e,
            None => m is None,
        },
{
    let mut i: usize = 0;
    assert(checks@.skip(0) =~= checks@);
    while i < checks.len()
        invariant
            i <= checks@.len(),
            first_route_error(checks@) == first_route_error(checks@.skip(i as int)),
        decreases checks@.len() - i,
    {
        assert(checks@.skip(i as int)[0] == checks@[i as int]);
        match &checks[i] {
            Err(e) => {
                let mut s = String::from_str(ALLOWLISTED_ROUTE_INVALID);
                s.append(e.as_str());
                return Some(s);
            },
            Ok(()) => {},
        }
        assert(checks@.skip(i as int).drop_first() =~= checks@.skip(i + 1));
        i = i + 1;
    }
    None
}

pub open spec fn scope_text_ok(s: Seq<char>) -> bool {
    s == "inference"@ || s == "models_read"@
}

pub open spec fn allowlist_too_long_text(max_routes: usize) -> Seq<char> {
    "API-key route allowlist cannot exceed "@ + decimal(max_routes as nat) + " entries"@
}

/// The first rule an update of a key breaks. The strict checks, made where
/// the runtime configuration is published, also refuse invisible name
/// characters, allowlists over `max_routes` and token limits the distributed
/// limiter cannot hold.
pub open spec fn key_update_defect(
    input: UpdateApiKeyInput,
    route_checks: Seq<Result<(), String>>,
    now: Timestamp,
    strict: bool,
    max_routes: usize,
) -> Option<Seq<char>> {
    let name = trimmed(input.name@);
    if name.len() == 0 || name.len() > 100 || (strict && exists|j: int|
        0 <= j < name.len() && unsafe_display_char(#[trigger] name[j])) {
        Some(if strict { UPDATE_NAME_NOT_VISIBLE@ } else { UPDATE_NAME_INVALID@ })
    } else if input.scopes@.len() == 0 {
        Some(UPDATE_SCOPE_REQUIRED@)
    } else if strict && input.allowed_routes@.len() > max_routes {
        Some(allowlist_too_long_text(max_routes))
    } else if !distinct_texts(input.scopes@) || exists|j: int|
        0 <= j < input.scopes@.len() && !scope_text_ok(#[trigger] input.scopes@[j]@) {
        Some(UPDATE_SCOPES_INVALID@)
    } else if first_route_error(route_checks) is Some {
        Some(ALLOWLISTED_ROUTE_INVALID@ + first_route_error(route_checks)->0)
    } else if !distinct_texts(input.allowed_routes@) {
        Some(UPDATE_ROUTES_NOT_UNIQUE@)
    } else if input.expires_at matches Some(t) && t.micros <= now.micros {
        Some(UPDATE_EXPIRY_PAST@)
    } else if input.requests_per_minute matches Some(v) && v > i32::MAX {
        Some(RPM_TOO_LARGE@)
    } else if strict && (input.tokens_per_minute matches Some(v) && v > MAX_TOKENS_PER_MINUTE) {
        Some(UPDATE_TPM_ABOVE_LIMITER@)
    } else if input.tokens_per_minute matches Some(v) && v > i64::MAX {
        Some(TPM_TOO_LARGE@)
    } else if input.max_concurrency matches Some(v) && v > i32::MAX {
        Some(CONCURRENCY_TOO_LARGE@)
    } else if input.requests_per_minute == Some(0u32) || input.tokens_per_minute == Some(0u64)
        || input.max_concurrency == Some(0u32) {
        Some(UPDATE_LIMITS_NOT_POSITIVE@)
    } else {
        None
    }
}

/// What an accepted update writes: the trimmed name and the limits in
/// column widths.
pub open spec fn key_update_written(u: ApiKeyUpdate, input: UpdateApiKeyInput) -> bool {
    &&& u.name@ == trimmed(input.name@)
    &&& u.requests_per_minute == match input.requests_per_minute {
        Some(v) => Some(v as i32),
        None => None::<i32>,
    }
    &&& u.tokens_per_minute == match input.tokens_per_minute {
        Some(v) => Some(v as i64),
        None => None::<i64>,
    }
    &&& u.max_concurrency == match input.max_concurrency {
        Some(v) => Some(v as i32),
        None => None::<i32>,
    }
}

fn scopes_known(scopes: &[String]) -> (b: bool)
    ensures
        b == forall|j: int| 0 <= j < scopes@.len() ==> scope_text_ok(#[trigger] scopes@[j]@),
{
    let mut i: usize = 0;
    while i < scopes.len()
        invariant
            i <= scopes@.len(),
            forall|j: int| 0 <= j < i ==> scope_text_ok(#[trigger] scopes@[j]@),
        decreases scopes@.len() - i,
    {
        let s = scopes[i].as_str();
        if !(str_eq(s, "inference") || str_eq(s, "models_read")) {
            assert(!scope_text_ok(scopes@[i as int]@));
            return false;
        }
        i = i + 1;
    }
    true
}

fn allowlist_too_long_message(max_routes: usize) -> (m: String)
    ensures
        m@ == allowlist_too_long_text(max_routes),
{
    let mut m = String::from_str("API-key route allowlist cannot exceed ");
    push_decimal(&mut m, max_routes as u64);
    m.append(" entries");
    m
}

/// The checks shared by both update paths, in the order they are made.
fn check_key_update(
    input: &UpdateApiKeyInput,
    route_checks: &[Result<(), String>],
    now: Timestamp,
    strict: bool,
    max_routes: usize,
) -> (r: Result<ApiKeyUpdate, String>)
    ensures
        match key_update_defect(*input, route_checks@, now, strict, max_routes) {
            Some(m) => r matches Err(msg) && msg@ == m,
            None => r matches Ok(u) && key_update_written(u, *input),
        },
{
    let name = trim_str(input.name.as_str());
    let n = name.unicode_len();
    if n == 0 || n > 100 || (strict && has_unsafe_display_characters(name)) {
        let message = if strict {
            UPDATE_NAME_NOT_VISIBLE
        } else {
            UPDATE_NAME_INVALID
        };
        return Err(message.to_string());
    }
    if input.scopes.len() == 0 {
        return Err(UPDATE_SCOPE_REQUIRED.to_string());
    }
    if strict && input.allowed_routes.len() > max_routes {
        return Err(allowlist_too_long_message(max_routes));
    }
    if !texts_distinct(input.scopes.as_slice()) || !scopes_known(input.scopes.as_slice()) {
        return Err(UPDATE_SCOPES_INVALID.to_string());
    }
    if let Some(m) = route_check_message(route_checks) {
        return Err(m);
    }
    if !texts_distinct(input.allowed_routes.as_slice()) {
        return Err(UPDATE_ROUTES_NOT_UNIQUE.to_string());
    }
    if let Some(t) = input.expires_at {
        if t.micros <= now.micros {
            return Err(UPDATE_EXPIRY_PAST.to_string());
        }
    }
    let requests_per_minute = match input.requests_per_minute {
        Some(v) => {
            if v > i32::MAX as u32 {
                return Err(RPM_TOO_LARGE.to_string());
            }
            Some(v as i32)
        },
        None => None,
    };
    if strict {
        if let Some(v) = input.tokens_per_minute {
            if v > MAX_TOKENS_PER_MINUTE {
                return Err(UPDATE_TPM_ABOVE_LIMITER.to_string());
            }
        }
    }
    let tokens_per_minute = match input.tokens_per_minute {
        Some(v) => {
            if v > i64::MAX as u64 {
                return Err(TPM_TOO_LARGE.to_string());
            }
            Some(v as i64)
        },
        None => None,
    };
    let max_concurrency = match input.max_concurrency {
        Some(v) => {
            if v > i32::MAX as u32 {
                return Err(CONCURRENCY_TOO_LARGE.to_string());
            }
            Some(v as i32)
        },
        None => None,
    };
    if requests_per_minute == Some(0i32) || tokens_per_minute == Some(0i64) || max_concurrency
        == Some(0i32) {
        return Err(UPDATE_LIMITS_NOT_POSITIVE.to_string());
    }
    Ok(
        ApiKeyUpdate {
            name: name.to_string(),
            requests_per_minute,
            tokens_per_minute,
            max_concurrency,
        },
    )
}

/// Checks an update of a key where the runtime configuration is published:
/// with visible names, at most `max_routes` allowlisted routes and token
/// limits the distributed limiter can hold. `route_checks` holds, for each
/// allowlisted route in order, the outcome of `RouteSlug::parse` on it (the
/// parse error as text).
pub fn validate_api_key_update(
    input: &UpdateApiKeyInput,
    route_checks: &[Result<(), String>],
    now: Timestamp,
    max_routes: usize,
) -> (r: Result<ApiKeyUpdate, ConfigurationError>)
    requires
        route_checks@.len() == input.allowed_routes@.len(),
    ensures
        match key_update_defect(*input, route_checks@, now, true, max_routes) {
            Some(m) => r matches Err(ConfigurationError::Invalid(msg)) && msg@ == m,
            None => r matches Ok(u) && key_update_written(u, *input),
        },
{
    match check_key_update(input, route_checks, now, true, max_routes) {
        Ok(u) => Ok(u),
        Err(m) => Err(ConfigurationError::Invalid(m)),
    }
}

/// Checks an update of a key made through the catalog; `route_checks` is as
/// for `validate_api_key_update`.
pub fn validate_api_key_catalog_update(
    input: &UpdateApiKeyInput,
    route_checks: &[Result<(), String>],
    now: Timestamp,
) -> (r: Result<ApiKeyUpdate, CatalogError>)
    requires
        route_checks@.len() == input.allowed_routes@.len(),
    ensures
        match key_update_defect(*input, route_checks@, now, false, 0) {
            Some(m) => r matches Err(CatalogError::Invalid(msg)) && msg@ == m,
            None => r matches Ok(u) && key_update_written(u, *input),
        },
{
    match check_key_update(input, route_checks, now, false, 0) {
        Ok(u) => Ok(u),
        Err(m) => Err(CatalogError::Invalid(m)),
    }
}

/// Why a conditional update or rotation of a key matched no row: the key is
/// gone, its ETag moved on, or it is revoked or expired.
pub enum StaleKeyOutcome {
    NotFound,
    PreconditionFailed,
    RevokedOrExpired,
}

/// Decides why a conditional write of a key matched no row, from whether the
/// key still exists and whether its current ETag is the expected one.
pub fn stale_key_outcome(exists: bool, etag_matches: bool) -> (r: StaleKeyOutcome)
    ensures
        !exists ==> r is NotFound,
        exists && !etag_matches ==> r is PreconditionFailed,
        exists && etag_matches ==> r is RevokedOrExpired,
{
    if !exists {
        StaleKeyOutcome::NotFound
    } else if !etag_matches {
        StaleKeyOutcome::PreconditionFailed
    } else {
        StaleKeyOutcome::RevokedOrExpired
    }
}

pub const KEY_UPDATE_STALE: &'static str = "revoked or expired keys cannot be updated";
pub const KEY_ROTATION_STALE: &'static str = "revoked or expired keys cannot be rotated";

/// The conditional write of a key that matched no row.
#[derive(Clone, Copy, Debug, Eq, PartialEq, Structural)]
pub enum KeyWrite {
    Update,
    Rotation,
}

pub open spec fn stale_key_text(write: KeyWrite) -> Seq<char> {
    match write {
        KeyWrite::Update => KEY_UPDATE_STALE@,
        KeyWrite::Rotation => KEY_ROTATION_STALE@,
    }
}

fn stale_key_message(write: KeyWrite) -> (m: String)
    ensures
        m@ == stale_key_text(write),
{
    match write {
        KeyWrite::Update => KEY_UPDATE_STALE.to_string(),
        KeyWrite::Rotation => KEY_ROTATION_STALE.to_string(),
    }
}

/// The error of a key write that matched no row: the key is gone, its ETag
/// moved on, or it is revoked or expired and cannot take the write.
pub fn stale_key_error(exists: bool, etag_matches: bool, write: KeyWrite) -> (e: ConfigurationError)
    ensures
        !exists ==> e is NotFound,
        exists && !etag_matches ==> e is PreconditionFailed,
        exists && etag_matches ==> (e matches ConfigurationError::Invalid(m) && m@ == stale_key_text(
            write,
        )),
{
    match stale_key_outcome(exists, etag_matches) {
        StaleKeyOutcome::NotFound => ConfigurationError::NotFound,
        StaleKeyOutcome::PreconditionFailed => ConfigurationError::PreconditionFailed,
        StaleKeyOutcome::RevokedOrExpired => ConfigurationError::Invalid(stale_key_message(write)),
    }
}

/// The same error for a key write made through the catalog.
pub fn stale_key_catalog_error(exists: bool, etag_matches: bool, write: KeyWrite) -> (e: CatalogError)
    ensures
        !exists ==> e is NotFound,
        exists && !etag_matches ==> e is PreconditionFailed,
        exists && etag_matches ==> (e matches CatalogError::Invalid(m) && m@ == stale_key_text(
            write,
        )),
{
    match stale_key_outcome(exists, etag_matches) {
        StaleKeyOutcome::NotFound => CatalogError::NotFound,
        StaleKeyOutcome::PreconditionFailed => CatalogError::PreconditionFailed,
        StaleKeyOutcome::RevokedOrExpired => CatalogError::Invalid(stale_key_message(write)),
    }
}

/// An update that the strict checks accept configures only positive limits
/// that fit their columns and, for tokens, the distributed limiter.
pub proof fn accepted_key_update_limits(
    input: UpdateApiKeyInput,
    route_checks: Seq<Result<(), String>>,
    now: Timestamp,
    max_routes: usize,
)
    requires
        key_update_defect(input, route_checks, now, true, max_routes) is None,
    ensures
        input.requests_per_minute matches Some(v) ==> 0 < v <= i32::MAX,
        input.tokens_per_minute matches Some(v) ==> 0 < v <= MAX_TOKENS_PER_MINUTE,
        input.max_concurrency matches Some(v) ==> 0 < v <= i32::MAX,
        input.allowed_routes@.len() <= max_routes,
        first_route_error(route_checks) is None,
        trimmed(input.name@).len() <= 100,
{
}

} // verus!
