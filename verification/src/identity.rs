//! Accounts, invitations and scoped identity resources: the rules the store
//! applies before and between its queries.
use vstd::prelude::*;

use crate::carried::Timestamp;
use vstd::string::*;
use vstd::utf8::*;

use crate::text::{
    contains_char, contains_substring, debug_quoted, debug_str, lowercase_str, lowercased,
    occurs_in, str_eq, trim_str, trimmed,
};

verus! {

/// The installation-wide role of a user, from most to least privileged.
#[derive(Clone, Copy, Debug, Eq, PartialEq, Structural)]
pub enum Role {
    Owner,
    Operator,
    Developer,
    Viewer,
}

pub open spec fn role_text(r: Role) -> Seq<char> {
    match r {
        Role::Owner => "owner"@,
        Role::Operator => "operator"@,
        Role::Developer => "developer"@,
        Role::Viewer => "viewer"@,
    }
}

pub open spec fn role_from_text(s: Seq<char>) -> Option<Role> {
    if s == "owner"@ {
        Some(Role::Owner)
    } else if s == "operator"@ {
        Some(Role::Operator)
    } else if s == "developer"@ {
        Some(Role::Developer)
    } else if s == "viewer"@ {
        Some(Role::Viewer)
    } else {
        None
    }
}

impl Role {
    pub fn as_str(self) -> (s: &'static str)
        ensures
            s@ == role_text(self),
    {
        match self {
            Role::Owner => "owner",
            Role::Operator => "operator",
            Role::Developer => "developer",
            Role::Viewer => "viewer",
        }
    }

    /// The role named by `value`; roles are a closed set.
    pub fn parse(value: &str) -> (r: Option<Role>)
        ensures
            r == role_from_text(value@),
    {
        if str_eq(value, "owner") {
            Some(Role::Owner)
        } else if str_eq(value, "operator") {
            Some(Role::Operator)
        } else if str_eq(value, "developer") {
            Some(Role::Developer)
        } else if str_eq(value, "viewer") {
            Some(Role::Viewer)
        } else {
            None
        }
    }
}

/// The text of every role reads back as that role.
pub proof fn role_text_round_trip(r: Role)
    ensures
        role_from_text(role_text(r)) == Some(r),
{
    reveal_strlit("owner");
    reveal_strlit("operator");
    reveal_strlit("developer");
    reveal_strlit("viewer");
    assert("owner"@.len() != "operator"@.len());
    assert("owner"@.len() != "developer"@.len());
    assert("owner"@.len() != "viewer"@.len());
    assert("operator"@.len() != "developer"@.len());
    assert("operator"@.len() != "viewer"@.len());
    assert("developer"@.len() != "viewer"@.len());
}

/// The error of reading an unknown role.
#[derive(Clone, Copy, Debug, Eq, PartialEq)]
pub struct UnknownRole;

impl core::str::FromStr for Role {
    type Err = UnknownRole;

    fn from_str(value: &str) -> (r: Result<Role, UnknownRole>)
        ensures
            match role_from_text(value@) {
                Some(role) => r == Ok::<Role, UnknownRole>(role),
                None => r == Err::<Role, UnknownRole>(UnknownRole),
            },
    {
        match Role::parse(value) {
            Some(role) => Ok(role),
            None => Err(UnknownRole),
        }
    }
}

/// The role of a membership in a team or project.
#[derive(Clone, Copy, Debug, Eq, PartialEq, Structural)]
pub enum ScopedRole {
    Admin,
    Member,
}

/// Why an identity operation did not go through. Database and runtime
/// compilation failures are reported by the adapter.
#[derive(Debug)]
pub enum IdentityError {
    Invalid(String),
    NotFound,
    PreconditionFailed,
    LastOwner,
    EmailAlreadyMember,
    PendingInvitationExists,
    ScopedNameAlreadyExists,
    InvitationUnavailable,
    SessionForbidden,
    CorruptIdentity,
    IdempotencyConflict,
    IdempotencyInProgress,
    LocalPasswordUnavailable,
    LocalPasswordAlreadyConfigured,
    RecentAuthenticationRequired,
    SessionUnavailable,
    Forbidden,
}

/// Reads a stored role; an unknown one means the row is corrupt.
pub fn parse_role(value: String) -> (r: Result<Role, IdentityError>)
    ensures
        match role_from_text(value@) {
            Some(role) => r matches Ok(p) && p == role,
            None => r matches Err(IdentityError::CorruptIdentity),
        },
{
    match Role::parse(value.as_str()) {
        Some(role) => Ok(role),
        None => Err(IdentityError::CorruptIdentity),
    }
}

/// Reads a stored membership role: "admin" or "member".
pub fn parse_scoped_role(value: &str) -> (r: Result<ScopedRole, IdentityError>)
    ensures
        value@ == "admin"@ ==> r matches Ok(ScopedRole::Admin),
        value@ != "admin"@ && value@ == "member"@ ==> r matches Ok(ScopedRole::Member),
        value@ != "admin"@ && value@ != "member"@ ==> r matches Err(IdentityError::CorruptIdentity),
{
    if str_eq(value, "admin") {
        Ok(ScopedRole::Admin)
    } else if str_eq(value, "member") {
        Ok(ScopedRole::Member)
    } else {
        Err(IdentityError::CorruptIdentity)
    }
}

pub const EMAIL_INVALID: &'static str = "email is invalid";

/// The lowercased, trimmed form of an invitation email.
pub open spec fn normalized_email_text(email: Seq<char>) -> Seq<char> {
    lowercased(trimmed(email))
}

/// At most 254 bytes, with an '@' that is neither first nor last.
pub open spec fn email_shape_ok(email: Seq<char>) -> bool {
    &&& encode_utf8(email).len() <= 254
    &&& email.contains('@')
    &&& email[0] != '@'
    &&& email[email.len() - 1] != '@'
}

/// Normalizes an invitation email: trimmed, lowercased, and of plausible
/// shape.
pub fn normalize_email(email: &str) -> (r: Result<String, IdentityError>)
    ensures
        email_shape_ok(normalized_email_text(email@)) ==> (r matches Ok(e) && e@
            == normalized_email_text(email@)),
        !email_shape_ok(normalized_email_text(email@)) ==> (r matches Err(IdentityError::Invalid(m))
            && m@ == EMAIL_INVALID@),
{
    let email = lowercase_str(trim_str(email));
    if email_has_shape(email.as_str()) {
        Ok(email)
    } else {
        Err(IdentityError::Invalid(EMAIL_INVALID.to_string()))
    }
}

/// Whether a string has the shape `email_shape_ok` asks for.
pub fn email_has_shape(email: &str) -> (ok: bool)
    ensures
        ok == email_shape_ok(email@),
{
    let bytes = email.as_bytes().len();
    if bytes > 254 || !contains_char(email, '@') {
        return false;
    }
    let n = email.unicode_len();
    email.get_char(0) != '@' && email.get_char(n - 1) != '@'
}

pub const NAME_INVALID: &'static str = "name must contain between 1 and 120 characters";

/// A team, project or service account name: trimmed, 1 to 120 characters.
pub fn valid_name(value: &str) -> (r: Result<&str, IdentityError>)
    ensures
        (1 <= trimmed(value@).len() <= 120) ==> (r matches Ok(v) && v@ == trimmed(value@)),
        !(1 <= trimmed(value@).len() <= 120) ==> (r matches Err(IdentityError::Invalid(m)) && m@
            == NAME_INVALID@),
{
    let value = trim_str(value);
    let n = value.unicode_len();
    if n == 0 || n > 120 {
        return Err(IdentityError::Invalid(NAME_INVALID.to_string()));
    }
    Ok(value)
}

pub const DISPLAY_NAME_INVALID: &'static str = "display name must contain 1-100 characters";

/// A profile display name: trimmed, 1 to 100 characters.
pub fn validate_display_name(display_name: &str) -> (r: Result<&str, IdentityError>)
    ensures
        (1 <= trimmed(display_name@).len() <= 100) ==> (r matches Ok(v) && v@ == trimmed(
            display_name@,
        )),
        !(1 <= trimmed(display_name@).len() <= 100) ==> (r matches Err(IdentityError::Invalid(m))
            && m@ == DISPLAY_NAME_INVALID@),
{
    let value = trim_str(display_name);
    let n = value.unicode_len();
    if n == 0 || n > 100 {
        return Err(IdentityError::Invalid(DISPLAY_NAME_INVALID.to_string()));
    }
    Ok(value)
}

/// Length in bytes of an invitation token (32 random bytes, base64url).
pub const INVITATION_TOKEN_LEN: usize = 43;

/// An invitation acceptance names a well-formed token and a display name of
/// 1 to 100 characters that is not blank; anything else hides whether the
/// invitation exists.
pub fn validate_acceptance(token: &str, display_name: &str) -> (r: Result<(), IdentityError>)
    ensures
        (token.spec_bytes().len() == INVITATION_TOKEN_LEN && trimmed(display_name@).len() > 0
            && display_name@.len() <= 100) ==> r is Ok,
        !(token.spec_bytes().len() == INVITATION_TOKEN_LEN && trimmed(display_name@).len() > 0
            && display_name@.len() <= 100) ==> r matches Err(IdentityError::InvitationUnavailable),
{
    if token.as_bytes().len() != INVITATION_TOKEN_LEN || trim_str(display_name).unicode_len() == 0
        || display_name.unicode_len() > 100 {
        return Err(IdentityError::InvitationUnavailable);
    }
    Ok(())
}

/// Microseconds in thirty days.
pub const THIRTY_DAYS_MICROS: i64 = 2_592_000_000_000;
pub const EXPIRY_INVALID: &'static str = "expiration must be within the next 30 days";

/// An invitation expires after now and at most thirty days from now. Times
/// are microseconds since the Unix epoch.
pub fn validate_invitation_expiry(expires_at: i64, now: i64) -> (r: Result<(), IdentityError>)
    ensures
        (expires_at > now && expires_at <= now + THIRTY_DAYS_MICROS) ==> r is Ok,
        !(expires_at > now && expires_at <= now + THIRTY_DAYS_MICROS) ==> (r matches Err(
            IdentityError::Invalid(m),
        ) && m@ == EXPIRY_INVALID@),
{
    if expires_at <= now || expires_at as i128 > now as i128 + THIRTY_DAYS_MICROS as i128 {
        return Err(IdentityError::Invalid(EXPIRY_INVALID.to_string()));
    }
    Ok(())
}

/// A stored invitation can be accepted only while neither accepted nor
/// revoked nor expired.
pub fn invitation_available(accepted: bool, revoked: bool, expired: bool) -> (r: Result<
    (),
    IdentityError,
>)
    ensures
        (!accepted && !revoked && !expired) ==> r is Ok,
        (accepted || revoked || expired) ==> r matches Err(IdentityError::InvitationUnavailable),
{
    if accepted || revoked || expired {
        Err(IdentityError::InvitationUnavailable)
    } else {
        Ok(())
    }
}

pub const ACCESS_CHANGE_REQUIRED: &'static str = "role or active status is required";

/// A user access update must change the role, the active flag, or both.
pub fn require_access_change(role: Option<Role>, active: Option<bool>) -> (r: Result<
    (),
    IdentityError,
>)
    ensures
        (role is Some || active is Some) ==> r is Ok,
        (role is None && active is None) ==> (r matches Err(IdentityError::Invalid(m)) && m@
            == ACCESS_CHANGE_REQUIRED@),
{
    if role.is_none() && active.is_none() {
        return Err(IdentityError::Invalid(ACCESS_CHANGE_REQUIRED.to_string()));
    }
    Ok(())
}

pub const SCOPED_CHANGE_REQUIRED: &'static str = "name or active status is required";

/// A team, project or service account update changes the name, the active
/// flag, or both; a new name is validated like a created one.
pub fn scoped_update_input<'a>(name: Option<&'a str>, active: Option<bool>) -> (r: Result<
    Option<&'a str>,
    IdentityError,
>)
    ensures
        (name is None && active is None) ==> (r matches Err(IdentityError::Invalid(m)) && m@
            == SCOPED_CHANGE_REQUIRED@),
        (name is None && active is Some) ==> r matches Ok(None),
        name matches Some(n) ==> ((1 <= trimmed(n@).len() <= 120) ==> (r matches Ok(Some(v))
            && v@ == trimmed(n@))),
        name matches Some(n) ==> (!(1 <= trimmed(n@).len() <= 120) ==> (r matches Err(
            IdentityError::Invalid(m),
        ) && m@ == NAME_INVALID@)),
{
    if name.is_none() && active.is_none() {
        return Err(IdentityError::Invalid(SCOPED_CHANGE_REQUIRED.to_string()));
    }
    match name {
        Some(n) => {
            let v = valid_name(n)?;
            Ok(Some(v))
        },
        None => Ok(None),
    }
}

/// A local password change needs a local password, an active user whose
/// security version matches the current session, and the expected ETag.
pub fn password_change_precheck(
    has_local_password: bool,
    active: bool,
    security_version: i64,
    session_security_version: i64,
    session_current: bool,
    etag_matches: bool,
) -> (r: Result<(), IdentityError>)
    ensures
        !has_local_password ==> r matches Err(IdentityError::LocalPasswordUnavailable),
        has_local_password && !(active && security_version == session_security_version
            && session_current) ==> r matches Err(IdentityError::SessionUnavailable),
        has_local_password && active && security_version == session_security_version
            && session_current && !etag_matches ==> r matches Err(
            IdentityError::PreconditionFailed,
        ),
        has_local_password && active && security_version == session_security_version
            && session_current && etag_matches ==> r is Ok,
{
    if !has_local_password {
        return Err(IdentityError::LocalPasswordUnavailable);
    }
    if !active || security_version != session_security_version || !session_current {
        return Err(IdentityError::SessionUnavailable);
    }
    if !etag_matches {
        return Err(IdentityError::PreconditionFailed);
    }
    Ok(())
}

/// Enrolling a first local password needs a user without one, active at the
/// session's security version, the expected ETag, and a consumed
/// recent-authentication grant.
pub fn password_enrollment_precheck(
    has_local_password: bool,
    active: bool,
    security_version: i64,
    session_security_version: i64,
    etag_matches: bool,
    recent_authentication_consumed: bool,
) -> (r: Result<(), IdentityError>)
    ensures
        has_local_password ==> r matches Err(IdentityError::LocalPasswordAlreadyConfigured),
        !has_local_password && !(active && security_version == session_security_version) ==> r
            matches Err(IdentityError::SessionUnavailable),
        !has_local_password && active && security_version == session_security_version
            && !etag_matches ==> r matches Err(IdentityError::PreconditionFailed),
        !has_local_password && active && security_version == session_security_version
            && etag_matches && !recent_authentication_consumed ==> r matches Err(
            IdentityError::RecentAuthenticationRequired,
        ),
        !has_local_password && active && security_version == session_security_version
            && etag_matches && recent_authentication_consumed ==> r is Ok,
{
    if has_local_password {
        return Err(IdentityError::LocalPasswordAlreadyConfigured);
    }
    if !active || security_version != session_security_version {
        return Err(IdentityError::SessionUnavailable);
    }
    if !etag_matches {
        return Err(IdentityError::PreconditionFailed);
    }
    if !recent_authentication_consumed {
        return Err(IdentityError::RecentAuthenticationRequired);
    }
    Ok(())
}

/// A user may revoke their own sessions; revoking another user's session
/// needs the right to manage all users.
pub fn session_revocation_allowed(own_session: bool, can_manage_all: bool) -> (r: Result<
    (),
    IdentityError,
>)
    ensures
        (own_session || can_manage_all) ==> r is Ok,
        !(own_session || can_manage_all) ==> r matches Err(IdentityError::SessionForbidden),
{
    if !own_session && !can_manage_all {
        return Err(IdentityError::SessionForbidden);
    }
    Ok(())
}

pub const PROJECT_MEMBERSHIPS_REMAIN: &'static str = "remove project memberships before the team membership";

/// A team membership can be removed only after the user's project
/// memberships in that team.
pub fn team_membership_removable(has_project_memberships: bool) -> (r: Result<(), IdentityError>)
    ensures
        !has_project_memberships ==> r is Ok,
        has_project_memberships ==> (r matches Err(IdentityError::Invalid(m)) && m@
            == PROJECT_MEMBERSHIPS_REMAIN@),
{
    if has_project_memberships {
        return Err(IdentityError::Invalid(PROJECT_MEMBERSHIPS_REMAIN.to_string()));
    }
    Ok(())
}

/// A conditional update that matched no row failed its precondition when the
/// resource exists and names a missing resource otherwise.
pub fn missing_or_changed(exists: bool) -> (e: IdentityError)
    ensures
        exists ==> e is PreconditionFailed,
        !exists ==> e is NotFound,
{
    if exists {
        IdentityError::PreconditionFailed
    } else {
        IdentityError::NotFound
    }
}

/// A pending or settled invitation.
#[derive(Clone, Debug)]
pub struct InvitationRecord {
    pub id: uuid::Uuid,
    pub email: String,
    pub role: Role,
    pub invited_by: uuid::Uuid,
    pub expires_at: Timestamp,
    pub accepted_at: Option<Timestamp>,
    pub revoked_at: Option<Timestamp>,
    pub created_at: Timestamp,
}

/// An invitation row, its role still as text.
#[derive(Clone, Debug)]
pub struct InvitationRow {
    pub id: uuid::Uuid,
    pub email: String,
    pub role: String,
    pub invited_by: uuid::Uuid,
    pub expires_at: Timestamp,
    pub accepted_at: Option<Timestamp>,
    pub revoked_at: Option<Timestamp>,
    pub created_at: Timestamp,
}

/// Reads an invitation row; an unknown role means the row is corrupt.
pub fn invitation_from_row(row: InvitationRow) -> (r: Result<InvitationRecord, IdentityError>)
    ensures
        match role_from_text(row.role@) {
            Some(role) => r matches Ok(i) && i.id == row.id && i.email@ == row.email@ && i.role
                == role && i.invited_by == row.invited_by && i.expires_at == row.expires_at
                && i.accepted_at == row.accepted_at && i.revoked_at == row.revoked_at
                && i.created_at == row.created_at,
            None => r matches Err(IdentityError::CorruptIdentity),
        },
{
    let role = parse_role(row.role)?;
    Ok(
        InvitationRecord {
            id: row.id,
            email: row.email,
            role,
            invited_by: row.invited_by,
            expires_at: row.expires_at,
            accepted_at: row.accepted_at,
            revoked_at: row.revoked_at,
            created_at: row.created_at,
        },
    )
}

/// An email can be invited only when no member holds it and no invitation
/// for it is pending.
pub fn invitation_conflicts(member_exists: bool, pending_exists: bool) -> (r: Result<
    (),
    IdentityError,
>)
    ensures
        member_exists ==> r matches Err(IdentityError::EmailAlreadyMember),
        !member_exists && pending_exists ==> r matches Err(IdentityError::PendingInvitationExists),
        !member_exists && !pending_exists ==> r is Ok,
{
    if member_exists {
        return Err(IdentityError::EmailAlreadyMember);
    }
    if pending_exists {
        return Err(IdentityError::PendingInvitationExists);
    }
    Ok(())
}

/// A local account.
#[derive(Clone, Debug)]
pub struct UserRecord {
    pub id: uuid::Uuid,
    pub email: String,
    pub display_name: String,
    pub role: Role,
    pub active: bool,
    pub etag: uuid::Uuid,
    pub created_at: Timestamp,
    pub updated_at: Timestamp,
}

/// A user row, its role still as text.
#[derive(Clone, Debug)]
pub struct UserRow {
    pub id: uuid::Uuid,
    pub email: String,
    pub display_name: String,
    pub role: String,
    pub active: bool,
    pub etag: uuid::Uuid,
    pub created_at: Timestamp,
    pub updated_at: Timestamp,
}

/// A user row read together with its security version.
#[derive(Clone, Debug)]
pub struct PasswordUserRow {
    pub id: uuid::Uuid,
    pub email: String,
    pub display_name: String,
    pub role: String,
    pub active: bool,
    pub etag: uuid::Uuid,
    pub security_version: i64,
    pub created_at: Timestamp,
    pub updated_at: Timestamp,
}

impl PasswordUserRow {
    /// The user part of the row.
    pub fn into_user(self) -> (u: UserRow)
        ensures
            u == (UserRow {
                id: self.id,
                email: self.email,
                display_name: self.display_name,
                role: self.role,
                active: self.active,
                etag: self.etag,
                created_at: self.created_at,
                updated_at: self.updated_at,
            }),
    {
        UserRow {
            id: self.id,
            email: self.email,
            display_name: self.display_name,
            role: self.role,
            active: self.active,
            etag: self.etag,
            created_at: self.created_at,
            updated_at: self.updated_at,
        }
    }
}

/// Reads a user row; an unknown role means the row is corrupt.
pub fn user_from_row(row: UserRow) -> (r: Result<UserRecord, IdentityError>)
    ensures
        match role_from_text(row.role@) {
            Some(role) => r matches Ok(u) && u.id == row.id && u.email@ == row.email@
                && u.display_name@ == row.display_name@ && u.role == role && u.active == row.active
                && u.etag == row.etag && u.created_at == row.created_at && u.updated_at
                == row.updated_at,
            None => r matches Err(IdentityError::CorruptIdentity),
        },
{
    let role = parse_role(row.role)?;
    Ok(
        UserRecord {
            id: row.id,
            email: row.email,
            display_name: row.display_name,
            role,
            active: row.active,
            etag: row.etag,
            created_at: row.created_at,
            updated_at: row.updated_at,
        },
    )
}

/// Whether a database error is the check that keeps one active owner: a
/// check violation (SQLSTATE 23514) that names the last active owner.
pub fn is_last_owner_violation(code: Option<&str>, message: &str) -> (b: bool)
    ensures
        b == (code matches Some(c) && c@ == "23514"@ && occurs_in("last active owner"@, message@)),
{
    match code {
        Some(c) => str_eq(c, "23514") && contains_substring(message, "last active owner"),
        None => false,
    }
}

/// What the first owner submits to set up an installation.
pub struct InstallationSetupInput {
    pub installation_name: String,
    pub email: String,
    pub display_name: String,
    pub password_hash: String,
}

/// The text form of a setup request; the password hash is not part of it.
pub open spec fn setup_input_debug_text(
    installation_name: Seq<char>,
    email: Seq<char>,
    display_name: Seq<char>,
) -> Seq<char> {
    "InstallationSetupInput { installation_name: "@ + debug_quoted(installation_name)
        + ", email: "@ + debug_quoted(email) + ", display_name: "@ + debug_quoted(display_name)
        + ", password_hash: \"[REDACTED]\" }"@
}

impl InstallationSetupInput {
    /// The request in the layout of `{:?}`, with the password hash replaced by
    /// a redaction marker.
    pub fn debug_string(&self) -> (s: String)
        ensures
            s@ == setup_input_debug_text(
                self.installation_name@,
                self.email@,
                self.display_name@,
            ),
    {
        let mut s = String::new();
        s.append("InstallationSetupInput { installation_name: ");
        let name = debug_str(self.installation_name.as_str());
        s.append(name.as_str());
        s.append(", email: ");
        let email = debug_str(self.email.as_str());
        s.append(email.as_str());
        s.append(", display_name: ");
        let display = debug_str(self.display_name.as_str());
        s.append(display.as_str());
        s.append(", password_hash: \"[REDACTED]\" }");
        s
    }
}

/// What an invitee submits to accept an invitation.
pub struct AcceptInvitation {
    pub token: String,
    pub display_name: String,
    pub password_hash: String,
}

/// The text form of an acceptance; neither the token nor the password hash
/// is part of it.
pub open spec fn acceptance_debug_text(display_name: Seq<char>) -> Seq<char> {
    "AcceptInvitation { token: \"[REDACTED]\", display_name: "@ + debug_quoted(display_name)
        + ", password_hash: \"[REDACTED]\" }"@
}

impl AcceptInvitation {
    /// The acceptance in the layout of `{:?}`, with the token and the password
    /// hash replaced by redaction markers.
    pub fn debug_string(&self) -> (s: String)
        ensures
            s@ == acceptance_debug_text(self.display_name@),
    {
        let mut s = String::new();
        s.append("AcceptInvitation { token: \"[REDACTED]\", display_name: ");
        let display = debug_str(self.display_name.as_str());
        s.append(display.as_str());
        s.append(", password_hash: \"[REDACTED]\" }");
        s
    }
}

} // verus!
