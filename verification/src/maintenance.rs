//! The retention settings of the maintenance pass, the cutoffs derived from
//! them, and the counts it reports.
use vstd::prelude::*;
use vstd::string::*;

use crate::carried::Timestamp;

verus! {

/// Why a maintenance pass stopped. Database failures are reported by the
/// adapter.
#[derive(Debug)]
pub enum MaintenanceError {
    InvalidSetting { key: String },
    InvalidCount { name: &'static str },
}

/// The rows each step of a maintenance pass rolled up or deleted.
#[derive(Clone, Debug, Eq, PartialEq)]
pub struct MaintenanceReport {
    pub rollup_rows: u64,
    pub request_metadata_gap_rollup_rows: u64,
    pub request_rows: u64,
    pub usage_rows: u64,
    pub audit_rows: u64,
    pub request_metadata_gap_rows: u64,
    pub request_metadata_epoch_rows: u64,
    pub request_metadata_receipt_rows: u64,
    pub session_rows: u64,
    pub invitation_rows: u64,
    pub idempotency_rows: u64,
    pub oidc_flow_rows: u64,
    pub outbox_rows: u64,
    pub media_job_rows: u64,
}

pub open spec fn report_is_empty(r: MaintenanceReport) -> bool {
    &&& r.rollup_rows == 0
    &&& r.request_metadata_gap_rollup_rows == 0
    &&& r.request_rows == 0
    &&& r.usage_rows == 0
    &&& r.audit_rows == 0
    &&& r.request_metadata_gap_rows == 0
    &&& r.request_metadata_epoch_rows == 0
    &&& r.request_metadata_receipt_rows == 0
    &&& r.session_rows == 0
    &&& r.invitation_rows == 0
    &&& r.idempotency_rows == 0
    &&& r.oidc_flow_rows == 0
    &&& r.outbox_rows == 0
    &&& r.media_job_rows == 0
}

/// The report of a pass that did nothing, as when another replica holds the
/// maintenance lock.
impl Default for MaintenanceReport {
    fn default() -> (r: Self)
        ensures
            report_is_empty(r),
    {
        MaintenanceReport {
            rollup_rows: 0,
            request_metadata_gap_rollup_rows: 0,
            request_rows: 0,
            usage_rows: 0,
            audit_rows: 0,
            request_metadata_gap_rows: 0,
            request_metadata_epoch_rows: 0,
            request_metadata_receipt_rows: 0,
            session_rows: 0,
            invitation_rows: 0,
            idempotency_rows: 0,
            oidc_flow_rows: 0,
            outbox_rows: 0,
            media_job_rows: 0,
        }
    }
}

/// A count returned by the database; a negative one is refused with its name.
pub fn checked_count(value: i64, name: &'static str) -> (r: Result<u64, MaintenanceError>)
    ensures
        value >= 0 ==> (r matches Ok(v) && v == value),
        value < 0 ==> (r matches Err(MaintenanceError::InvalidCount { name: n }) && n == name),
{
    if value >= 0 {
        Ok(value as u64)
    } else {
        Err(MaintenanceError::InvalidCount { name })
    }
}

pub const REQUESTS_RETENTION_KEY: &'static str = "retention.requests_days";
pub const USAGE_RETENTION_KEY: &'static str = "retention.usage_days";
pub const AUDIT_RETENTION_KEY: &'static str = "retention.audit_days";

/// How many days requests, usage facts and audit events are kept.
#[derive(Clone, Copy, Debug, Eq, PartialEq, Structural)]
pub struct RetentionPolicy {
    pub requests_days: i64,
    pub usage_days: i64,
    pub audit_days: i64,
}

pub open spec fn default_policy() -> RetentionPolicy {
    RetentionPolicy { requests_days: 30, usage_days: 90, audit_days: 365 }
}

pub open spec fn is_digit(c: char) -> bool {
    '0' <= c && c <= '9'
}

/// The value of a string of decimal digits.
pub open spec fn digits_value(d: Seq<char>) -> int
    decreases d.len(),
{
    if d.len() == 0 {
        0
    } else {
        10 * digits_value(d.drop_last()) + (d.last() as int - '0' as int)
    }
}

/// A string with at least one character, all of them decimal digits.
pub open spec fn all_digits(d: Seq<char>) -> bool {
    d.len() > 0 && forall|j: int| 0 <= j < d.len() ==> is_digit(#[trigger] d[j])
}

/// What follows an optional leading '+'.
pub open spec fn unsigned_part(s: Seq<char>) -> Seq<char> {
    if s.len() > 0 && s[0] == '+' {
        s.drop_first()
    } else {
        s
    }
}

/// A retention setting: an integer as `i64::from_str` reads it (an optional
/// sign, then one or more decimal digits) from 1 to 3650. A negative value,
/// or one too large for `i64`, is outside that range anyway.
pub open spec fn retention_days(s: Seq<char>) -> Option<i64> {
    let body = unsigned_part(s);
    if all_digits(body) && 1 <= digits_value(body) <= 3650 {
        Some(digits_value(body) as i64)
    } else {
        None
    }
}

proof fn digits_value_grows(d: Seq<char>, c: char)
    requires
        forall|j: int| 0 <= j < d.len() ==> is_digit(#[trigger] d[j]),
        is_digit(c),
    ensures
        digits_value(d.push(c)) == 10 * digits_value(d) + (c as int - '0' as int),
        digits_value(d) >= 0,
    decreases d.len(),
{
    assert(d.push(c).drop_last() =~= d);
    if d.len() > 0 {
        digits_value_grows(d.drop_last(), d.last());
        assert(d.drop_last().push(d.last()) =~= d);
    }
}

/// Reads a retention setting.
pub fn parse_retention_days(s: &str) -> (r: Option<i64>)
    ensures
        r == retention_days(s@),
{
    let n = s.unicode_len();
    let start: usize = if n > 0 && s.get_char(0) == '+' {
        1
    } else {
        0
    };
    let ghost body = unsigned_part(s@);
    assert(body =~= s@.subrange(start as int, n as int));
    if start == n {
        return None;
    }
    // The value read so far, held at 10000 once it passes the range.
    let mut acc: i64 = 0;
    let mut i: usize = start;
    assert(s@.subrange(start as int, start as int) =~= Seq::<char>::empty());
    while i < n
        invariant
            n == s@.len(),
            start <= i <= n,
            body =~= s@.subrange(start as int, n as int),
            body == unsigned_part(s@),
            forall|j: int| start <= j < i ==> is_digit(#[trigger] s@[j]),
            acc == if digits_value(s@.subrange(start as int, i as int)) < 10000 {
                digits_value(s@.subrange(start as int, i as int))
            } else {
                10000
            },
            digits_value(s@.subrange(start as int, i as int)) >= 0,
        decreases n - i,
    {
        let c = s.get_char(i);
        if !('0' <= c && c <= '9') {
            assert(c == body[i - start]);
            assert(!is_digit(body[i - start]));
            return None;
        }
        let ghost prefix = s@.subrange(start as int, i as int);
        proof {
            digits_value_grows(prefix, c);
            assert(s@.subrange(start as int, i + 1) =~= prefix.push(c));
        }
        let d = (c as u32 - '0' as u32) as i64;
        if acc >= 10000 {
            acc = 10000;
        } else {
            let next = acc * 10 + d;
            acc = if next < 10000 {
                next
            } else {
                10000
            };
        }
        i = i + 1;
    }
    assert(s@.subrange(start as int, n as int) =~= body);
    if 1 <= acc && acc <= 3650 {
        Some(acc)
    } else {
        None
    }
}

/// The policy the settings give: each listed key overrides its default, and
/// any setting that is not an integer from 1 to 3650 is refused by key.
pub open spec fn policy_from_settings(settings: Seq<(String, String)>) -> Result<RetentionPolicy, Seq<char>>
    decreases settings.len(),
{
    if settings.len() == 0 {
        Ok(default_policy())
    } else {
        match policy_from_settings(settings.drop_last()) {
            Err(key) => Err(key),
            Ok(p) => {
                let (key, value) = settings.last();
                match retention_days(value@) {
                    None => Err(key@),
                    Some(days) => Ok(
                        if key@ == REQUESTS_RETENTION_KEY@ {
                            RetentionPolicy { requests_days: days, ..p }
                        } else if key@ == USAGE_RETENTION_KEY@ {
                            RetentionPolicy { usage_days: days, ..p }
                        } else if key@ == AUDIT_RETENTION_KEY@ {
                            RetentionPolicy { audit_days: days, ..p }
                        } else {
                            p
                        },
                    ),
                }
            },
        }
    }
}

/// Reads the retention policy from the stored `(key, value)` settings, in
/// the order they were read.
pub fn retention_policy(settings: &[(String, String)]) -> (r: Result<RetentionPolicy, MaintenanceError>)
    ensures
        match policy_from_settings(settings@) {
            Ok(p) => r == Ok::<RetentionPolicy, MaintenanceError>(p),
            Err(key) => r matches Err(MaintenanceError::InvalidSetting { key: k }) && k@ == key,
        },
{
    let mut policy = RetentionPolicy { requests_days: 30, usage_days: 90, audit_days: 365 };
    let mut i: usize = 0;
    assert(settings@.take(0) =~= Seq::<(String, String)>::empty());
    while i < settings.len()
        invariant
            i <= settings@.len(),
            policy_from_settings(settings@.take(i as int)) == Ok::<RetentionPolicy, Seq<char>>(policy),
        decreases settings@.len() - i,
    {
        let ghost prefix = settings@.take(i + 1);
        assert(prefix.drop_last() =~= settings@.take(i as int));
        assert(prefix.last() == settings@[i as int]);
        let key = settings[i].0.as_str();
        let value = settings[i].1.as_str();
        match parse_retention_days(value) {
            None => {
                proof { policy_settles(settings@, i + 1); }
                return Err(MaintenanceError::InvalidSetting { key: key.to_string() });
            },
            Some(days) => {
                if crate::text::str_eq(key, REQUESTS_RETENTION_KEY) {
                    policy = RetentionPolicy { requests_days: days, ..policy };
                } else if crate::text::str_eq(key, USAGE_RETENTION_KEY) {
                    policy = RetentionPolicy { usage_days: days, ..policy };
                } else if crate::text::str_eq(key, AUDIT_RETENTION_KEY) {
                    policy = RetentionPolicy { audit_days: days, ..policy };
                }
            },
        }
        i = i + 1;
    }
    assert(settings@.take(settings@.len() as int) =~= settings@);
    Ok(policy)
}

/// Once a prefix of the settings is refused, so are all of them.
proof fn policy_settles(settings: Seq<(String, String)>, n: int)
    requires
        0 <= n <= settings.len(),
        policy_from_settings(settings.take(n)) is Err,
    ensures
        policy_from_settings(settings) == policy_from_settings(settings.take(n)),
    decreases settings.len() - n,
{
    if n < settings.len() {
        assert(settings.take(n + 1).drop_last() =~= settings.take(n));
        policy_settles(settings, n + 1);
    } else {
        assert(settings.take(n) =~= settings);
    }
}

pub const MICROS_PER_DAY: i64 = 86_400_000_000;

/// The instants before which requests, usage facts and audit events expire.
#[derive(Clone, Copy, Debug, Eq, PartialEq, Structural)]
pub struct RetentionCutoffs {
    pub requests: Timestamp,
    pub usage: Timestamp,
    pub audit: Timestamp,
}

pub open spec fn policy_in_range(p: RetentionPolicy) -> bool {
    &&& 1 <= p.requests_days <= 3650
    &&& 1 <= p.usage_days <= 3650
    &&& 1 <= p.audit_days <= 3650
}

/// Each cutoff lies its number of whole days before `now`.
pub fn retention_cutoffs(now: Timestamp, policy: RetentionPolicy) -> (c: RetentionCutoffs)
    requires
        policy_in_range(policy),
        now.micros >= i64::MIN + 3650 * MICROS_PER_DAY,
    ensures
        c.requests.micros == now.micros - policy.requests_days * MICROS_PER_DAY,
        c.usage.micros == now.micros - policy.usage_days * MICROS_PER_DAY,
        c.audit.micros == now.micros - policy.audit_days * MICROS_PER_DAY,
        c.requests.micros < now.micros && c.usage.micros < now.micros && c.audit.micros
            < now.micros,
{
    assert(policy.requests_days * MICROS_PER_DAY <= 3650 * MICROS_PER_DAY) by (nonlinear_arith)
        requires
            policy.requests_days <= 3650,
    ;
    assert(policy.usage_days * MICROS_PER_DAY <= 3650 * MICROS_PER_DAY) by (nonlinear_arith)
        requires
            policy.usage_days <= 3650,
    ;
    assert(policy.audit_days * MICROS_PER_DAY <= 3650 * MICROS_PER_DAY) by (nonlinear_arith)
        requires
            policy.audit_days <= 3650,
    ;
    assert(policy.requests_days * MICROS_PER_DAY > 0) by (nonlinear_arith)
        requires
            policy.requests_days >= 1,
    ;
    assert(policy.usage_days * MICROS_PER_DAY > 0) by (nonlinear_arith)
        requires
            policy.usage_days >= 1,
    ;
    assert(policy.audit_days * MICROS_PER_DAY > 0) by (nonlinear_arith)
        requires
            policy.audit_days >= 1,
    ;
    RetentionCutoffs {
        requests: Timestamp { micros: now.micros - policy.requests_days * MICROS_PER_DAY },
        usage: Timestamp { micros: now.micros - policy.usage_days * MICROS_PER_DAY },
        audit: Timestamp { micros: now.micros - policy.audit_days * MICROS_PER_DAY },
    }
}

/// Every policy that the settings give keeps each kind of record between 1
/// and 3650 days.
pub proof fn settings_policy_in_range(settings: Seq<(String, String)>)
    ensures
        policy_from_settings(settings) matches Ok(p) ==> policy_in_range(p),
    decreases settings.len(),
{
    if settings.len() > 0 {
        settings_policy_in_range(settings.drop_last());
    }
}

} // verus!
