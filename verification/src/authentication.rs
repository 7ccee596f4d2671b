//! Recent-authentication grants that gate security-sensitive changes.
use vstd::prelude::*;

use crate::carried::Timestamp;
use crate::text::str_eq;

verus! {

/// The security change a recent-authentication grant was issued for.
#[derive(Clone, Copy, Debug, Eq, PartialEq, Structural)]
pub enum RecentAuthPurpose {
    PasswordEnrollment,
    OidcLink,
    OidcUnlink,
}

pub open spec fn purpose_text(p: RecentAuthPurpose) -> Seq<char> {
    match p {
        RecentAuthPurpose::PasswordEnrollment => "password_enrollment"@,
        RecentAuthPurpose::OidcLink => "oidc_link"@,
        RecentAuthPurpose::OidcUnlink => "oidc_unlink"@,
    }
}

pub open spec fn purpose_from_text(s: Seq<char>) -> Option<RecentAuthPurpose> {
    if s == "password_enrollment"@ {
        Some(RecentAuthPurpose::PasswordEnrollment)
    } else if s == "oidc_link"@ {
        Some(RecentAuthPurpose::OidcLink)
    } else if s == "oidc_unlink"@ {
        Some(RecentAuthPurpose::OidcUnlink)
    } else {
        None
    }
}

/// Only unlinking names the resource (the identity) that the grant covers.
pub open spec fn purpose_requires_resource(p: RecentAuthPurpose) -> bool {
    p is OidcUnlink
}

pub open spec fn purpose_audit_action(p: RecentAuthPurpose) -> Seq<char> {
    match p {
        RecentAuthPurpose::PasswordEnrollment => "authentication.recent_for_password_enrollment"@,
        RecentAuthPurpose::OidcLink => "authentication.recent_for_oidc_link"@,
        RecentAuthPurpose::OidcUnlink => "authentication.recent_for_oidc_unlink"@,
    }
}

impl RecentAuthPurpose {
    pub fn as_str(self) -> (s: &'static str)
        ensures
            s@ == purpose_text(self),
    {
        match self {
            RecentAuthPurpose::PasswordEnrollment => "password_enrollment",
            RecentAuthPurpose::OidcLink => "oidc_link",
            RecentAuthPurpose::OidcUnlink => "oidc_unlink",
        }
    }

    pub fn requires_resource(self) -> (b: bool)
        ensures
            b == purpose_requires_resource(self),
    {
        matches!(self, RecentAuthPurpose::OidcUnlink)
    }

    pub fn parse(value: &str) -> (r: Option<Self>)
        ensures
            r == purpose_from_text(value@),
    {
        if str_eq(value, "password_enrollment") {
            Some(RecentAuthPurpose::PasswordEnrollment)
        } else if str_eq(value, "oidc_link") {
            Some(RecentAuthPurpose::OidcLink)
        } else if str_eq(value, "oidc_unlink") {
            Some(RecentAuthPurpose::OidcUnlink)
        } else {
            None
        }
    }

    pub fn audit_action(self) -> (s: &'static str)
        ensures
            s@ == purpose_audit_action(self),
    {
        match self {
            RecentAuthPurpose::PasswordEnrollment => "authentication.recent_for_password_enrollment",
            RecentAuthPurpose::OidcLink => "authentication.recent_for_oidc_link",
            RecentAuthPurpose::OidcUnlink => "authentication.recent_for_oidc_unlink",
        }
    }
}

/// A purpose read back from its stored text is the purpose that was stored.
pub proof fn purpose_text_round_trip(p: RecentAuthPurpose)
    ensures
        purpose_from_text(purpose_text(p)) == Some(p),
{
    reveal_strlit("password_enrollment");
    reveal_strlit("oidc_link");
    reveal_strlit("oidc_unlink");
    assert("password_enrollment"@.len() != "oidc_link"@.len());
    assert("password_enrollment"@.len() != "oidc_unlink"@.len());
    assert("oidc_link"@.len() != "oidc_unlink"@.len());
}

/// The longest lifetime of a recent-authentication grant: fifteen minutes.
pub const MAX_RECENT_AUTH_TTL_NANOS: i128 = 900_000_000_000;

/// A signed span given as whole seconds and the nanoseconds of the same sign
/// below one second, as `chrono::TimeDelta` reports it.
pub open spec fn span_nanos(seconds: i64, subsec_nanos: i32) -> int {
    seconds * 1_000_000_000 + subsec_nanos
}

/// Whether a grant request is well formed: the resource is named exactly when
/// the purpose requires one, and the lifetime is positive and at most fifteen
/// minutes.
pub open spec fn recent_auth_request_valid(
    purpose: RecentAuthPurpose,
    has_resource: bool,
    ttl_seconds: i64,
    ttl_subsec_nanos: i32,
) -> bool {
    &&& has_resource == purpose_requires_resource(purpose)
    &&& span_nanos(ttl_seconds, ttl_subsec_nanos) > 0
    &&& span_nanos(ttl_seconds, ttl_subsec_nanos) <= MAX_RECENT_AUTH_TTL_NANOS
}

pub fn validate_recent_auth_request(
    purpose: RecentAuthPurpose,
    has_resource: bool,
    ttl_seconds: i64,
    ttl_subsec_nanos: i32,
) -> (ok: bool)
    ensures
        ok == recent_auth_request_valid(purpose, has_resource, ttl_seconds, ttl_subsec_nanos),
{
    let nanos = ttl_seconds as i128 * 1_000_000_000 + ttl_subsec_nanos as i128;
    has_resource == purpose.requires_resource() && nanos > 0 && nanos <= MAX_RECENT_AUTH_TTL_NANOS
}

/// Whether a stored grant may be installed or consumed for this purpose: the
/// resource is present exactly when the purpose requires one.
pub fn resource_matches_purpose(purpose: RecentAuthPurpose, has_resource: bool) -> (ok: bool)
    ensures
        ok == (has_resource == purpose_requires_resource(purpose)),
{
    has_resource == purpose.requires_resource()
}

/// Whether a grant may be installed on a session: its resource is present
/// exactly when the purpose requires one, and it expires after now.
pub fn grant_installable(
    purpose: RecentAuthPurpose,
    has_resource: bool,
    expires_at: Timestamp,
    now: Timestamp,
) -> (ok: bool)
    ensures
        ok == (has_resource == purpose_requires_resource(purpose) && expires_at.micros
            > now.micros),
{
    resource_matches_purpose(purpose, has_resource) && expires_at.micros > now.micros
}

} // verus!
