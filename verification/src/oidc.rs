//! OpenID Connect: role mapping, claim and identity normalization, and the
//! secret material of an authorization flow.
use vstd::prelude::*;
use vstd::string::*;
use vstd::utf8::*;

use crate::authentication::{purpose_requires_resource, RecentAuthPurpose};
use crate::carried::{hyphenated_uuid, uuid_bits, uuid_debug, Timestamp};
use crate::identity::{role_from_text, Role};
use crate::secrets::{
    base64_url_unpadded, encode_base64_url, is_token_of_32_bytes, random_token, secret_str,
    secret_text, sha256, sha256_digest, token_digest, SecretText,
};
use crate::text::{
    contains_char, control_char, debug_quoted, debug_str, decimal, has_control_char,
    lowercase_str, lowercased, push_decimal, str_eq, take_at_most, take_chars, trim_str, trimmed,
};

verus! {

/// Why an OIDC operation did not go through. Database failures are reported
/// by the adapter.
#[derive(Debug)]
pub enum OidcError {
    Invalid(String),
    NotConfigured,
    Disabled,
    PreconditionRequired,
    PreconditionFailed,
    FlowUnavailable,
    FlowCapacity,
    FlowRateLimited,
    IdentityAlreadyLinked,
    IdentityNotFound,
    LastAuthenticationMethod,
    LinkRequired,
    ProvisioningDenied,
    InactiveUser,
    Corrupt,
    SessionUnavailable,
    ReauthenticationIdentityMismatch,
    RecentAuthenticationRequired,
    FlowSessionMismatch,
}

/// A claim value (an email or a group) and the role it grants.
#[derive(Clone, Debug, PartialEq, Eq)]
pub struct OidcRoleMapping {
    pub claim_value: String,
    pub role: Role,
}

/// A secret sealed under a versioned master key.
#[derive(Clone, Debug)]
pub struct EncryptedSecret {
    pub key_version: u32,
    pub nonce: [u8; 12],
    pub ciphertext: Vec<u8>,
}

/// The installation's identity provider configuration.
#[derive(Clone)]
pub struct OidcConfiguration {
    pub id: uuid::Uuid,
    pub discovery_url: String,
    pub issuer: String,
    pub authorization_endpoint: String,
    pub token_endpoint: String,
    pub jwks_uri: String,
    pub token_endpoint_auth_method: String,
    pub client_id: String,
    pub encrypted_client_secret: EncryptedSecret,
    pub scopes: Vec<String>,
    pub email_claim: String,
    pub groups_claim: String,
    pub default_role: Option<Role>,
    pub email_role_mappings: Vec<OidcRoleMapping>,
    pub group_role_mappings: Vec<OidcRoleMapping>,
    pub enabled: bool,
    pub etag: uuid::Uuid,
    pub created_at: Timestamp,
    pub updated_at: Timestamp,
}

/// Privilege order of roles: lower is stronger.
pub open spec fn role_rank_spec(role: Role) -> u8 {
    match role {
        Role::Owner => 0,
        Role::Operator => 1,
        Role::Developer => 2,
        Role::Viewer => 3,
    }
}

pub fn role_rank(role: Role) -> (rank: u8)
    ensures
        rank == role_rank_spec(role),
{
    match role {
        Role::Owner => 0,
        Role::Operator => 1,
        Role::Developer => 2,
        Role::Viewer => 3,
    }
}

/// The role of the first mapping whose claim value is `value`.
pub open spec fn first_claim_match(m: Seq<OidcRoleMapping>, value: Seq<char>) -> Option<Role>
    decreases m.len(),
{
    if m.len() == 0 {
        None
    } else if m[0].claim_value@ == value {
        Some(m[0].role)
    } else {
        first_claim_match(m.drop_first(), value)
    }
}

/// Whether one of the asserted groups is the mapping's claim value.
pub open spec fn group_matched(mapping: OidcRoleMapping, groups: Seq<String>) -> bool {
    exists|k: int| 0 <= k < groups.len() && groups[k]@ == mapping.claim_value@
}

/// The strongest role among the mappings of asserted groups; of equally
/// strong ones the first.
pub open spec fn strongest_group_role(m: Seq<OidcRoleMapping>, groups: Seq<String>) -> Option<Role>
    decreases m.len(),
{
    if m.len() == 0 {
        None
    } else {
        let rest = strongest_group_role(m.drop_last(), groups);
        let last = m.last();
        if group_matched(last, groups) && (rest is None || role_rank_spec(last.role)
            < role_rank_spec(rest.unwrap())) {
            Some(last.role)
        } else {
            rest
        }
    }
}

/// Exact email mappings first, then the strongest mapped group, then the
/// default role.
pub open spec fn mapped_role_spec(
    email_mappings: Seq<OidcRoleMapping>,
    group_mappings: Seq<OidcRoleMapping>,
    default_role: Option<Role>,
    email: Seq<char>,
    groups: Seq<String>,
) -> Option<Role> {
    match first_claim_match(email_mappings, lowercased(trimmed(email))) {
        Some(role) => Some(role),
        None => match strongest_group_role(group_mappings, groups) {
            Some(role) => Some(role),
            None => default_role,
        },
    }
}

fn find_claim(m: &Vec<OidcRoleMapping>, value: &str) -> (r: Option<Role>)
    ensures
        r == first_claim_match(m@, value@),
{
    let mut i: usize = 0;
    assert(m@.skip(0) =~= m@);
    while i < m.len()
        invariant
            i <= m@.len(),
            first_claim_match(m@, value@) == first_claim_match(m@.skip(i as int), value@),
        decreases m@.len() - i,
    {
        assert(m@.skip(i as int)[0] == m@[i as int]);
        if str_eq(m[i].claim_value.as_str(), value) {
            return Some(m[i].role);
        }
        assert(m@.skip(i as int).drop_first() =~= m@.skip(i + 1));
        i = i + 1;
    }
    None
}

fn in_groups(groups: &[String], value: &str) -> (b: bool)
    ensures
        b == exists|k: int| 0 <= k < groups@.len() && groups@[k]@ == value@,
{
    let mut k: usize = 0;
    while k < groups.len()
        invariant
            k <= groups@.len(),
            forall|j: int| 0 <= j < k ==> groups@[j]@ != value@,
        decreases groups@.len() - k,
    {
        if str_eq(groups[k].as_str(), value) {
            return true;
        }
        k = k + 1;
    }
    false
}

fn strongest_group(m: &Vec<OidcRoleMapping>, groups: &[String]) -> (r: Option<Role>)
    ensures
        r == strongest_group_role(m@, groups@),
{
    let mut best: Option<Role> = None;
    let mut i: usize = 0;
    assert(m@.take(0) =~= Seq::<OidcRoleMapping>::empty());
    while i < m.len()
        invariant
            i <= m@.len(),
            best == strongest_group_role(m@.take(i as int), groups@),
        decreases m@.len() - i,
    {
        let mapping = &m[i];
        let matched = in_groups(groups, mapping.claim_value.as_str());
        assert(m@.take(i + 1).drop_last() =~= m@.take(i as int));
        assert(m@.take(i + 1).last() == m@[i as int]);
        let better = match best {
            None => true,
            Some(b) => role_rank(mapping.role) < role_rank(b),
        };
        if matched && better {
            best = Some(mapping.role);
        }
        i = i + 1;
    }
    assert(m@.take(m@.len() as int) =~= m@);
    best
}

/// The text form of a configuration: its identity, issuer, client, state and
/// version; the client secret is not part of it.
pub open spec fn configuration_debug_text(
    id: Seq<char>,
    issuer: Seq<char>,
    client_id: Seq<char>,
    enabled: bool,
    etag: Seq<char>,
) -> Seq<char> {
    "OidcConfiguration { id: "@ + id + ", issuer: "@ + debug_quoted(issuer) + ", client_id: "@
        + debug_quoted(client_id) + ", encrypted_client_secret: \"[REDACTED]\", enabled: "@ + (
    if enabled {
        "true"@
    } else {
        "false"@
    }) + ", etag: "@ + etag + ", .. }"@
}

impl OidcConfiguration {
    /// The configuration in the layout of `{:?}`, with the encrypted client
    /// secret replaced by a redaction marker and the other settings left out.
    pub fn debug_string(&self) -> (s: String)
        ensures
            s@ == configuration_debug_text(
                hyphenated_uuid(uuid_bits(self.id)),
                self.issuer@,
                self.client_id@,
                self.enabled,
                hyphenated_uuid(uuid_bits(self.etag)),
            ),
    {
        let id = uuid_debug(&self.id);
        let etag = uuid_debug(&self.etag);
        let mut s = String::new();
        s.append("OidcConfiguration { id: ");
        s.append(id.as_str());
        s.append(", issuer: ");
        let issuer = debug_str(self.issuer.as_str());
        s.append(issuer.as_str());
        s.append(", client_id: ");
        let client = debug_str(self.client_id.as_str());
        s.append(client.as_str());
        s.append(", encrypted_client_secret: \"[REDACTED]\", enabled: ");
        if self.enabled {
            s.append("true");
        } else {
            s.append("false");
        }
        s.append(", etag: ");
        s.append(etag.as_str());
        s.append(", .. }");
        s
    }
}

impl OidcConfiguration {
    /// The role an authenticated identity is mapped to: an exact email mapping
    /// takes precedence; otherwise the most privileged role among the asserted
    /// groups; otherwise the default.
    pub fn mapped_role(&self, email: &str, groups: &[String]) -> (r: Option<Role>)
        ensures
            r == mapped_role_spec(
                self.email_role_mappings@,
                self.group_role_mappings@,
                self.default_role,
                email@,
                groups@,
            ),
    {
        let normalized_email = lowercase_str(trim_str(email));
        match find_claim(&self.email_role_mappings, normalized_email.as_str()) {
            Some(role) => Some(role),
            None => match strongest_group(&self.group_role_mappings, groups) {
                Some(role) => Some(role),
                None => self.default_role,
            },
        }
    }
}

/// The group role is absent exactly when no group mapping matched, and is
/// otherwise the role of a matched mapping that is at least as privileged as
/// every other matched mapping.
pub proof fn strongest_group_role_facts(m: Seq<OidcRoleMapping>, groups: Seq<String>)
    ensures
        strongest_group_role(m, groups) is None <==> forall|i: int|
            0 <= i < m.len() ==> !group_matched(#[trigger] m[i], groups),
        strongest_group_role(m, groups) matches Some(r) ==> exists|i: int|
            0 <= i < m.len() && group_matched(#[trigger] m[i], groups) && m[i].role == r,
        strongest_group_role(m, groups) matches Some(r) ==> forall|i: int|
            0 <= i < m.len() && group_matched(#[trigger] m[i], groups) ==> role_rank_spec(r)
                <= role_rank_spec(m[i].role),
    decreases m.len(),
{
    if m.len() > 0 {
        let init = m.drop_last();
        strongest_group_role_facts(init, groups);
        assert forall|i: int| 0 <= i < init.len() implies #[trigger] init[i] == m[i] by {}
        let last = m.len() - 1;
        if strongest_group_role(m, groups) is None {
            assert forall|i: int| 0 <= i < m.len() implies !group_matched(#[trigger] m[i], groups) by {
                if i < last {
                    assert(init[i] == m[i]);
                }
            }
        }
        if let Some(r) = strongest_group_role(m, groups) {
            if strongest_group_role(init, groups) == Some(r) && !(group_matched(m[last], groups) && (
            strongest_group_role(init, groups) is None || role_rank_spec(m[last].role)
                < role_rank_spec(strongest_group_role(init, groups).unwrap()))) {
                let i = choose|i: int|
                    0 <= i < init.len() && group_matched(#[trigger] init[i], groups) && init[i].role
                        == r;
                assert(m[i] == init[i]);
            } else {
                assert(group_matched(m[last], groups) && m[last].role == r);
            }
            assert forall|i: int|
                0 <= i < m.len() && group_matched(#[trigger] m[i], groups) implies role_rank_spec(r)
                <= role_rank_spec(m[i].role) by {
                if i < last {
                    assert(init[i] == m[i]);
                }
            }
        }
    }
}

/// The email mapping that decides is the first one whose claim value is the
/// normalized email.
pub proof fn first_claim_match_is_first(m: Seq<OidcRoleMapping>, value: Seq<char>, i: int)
    requires
        0 <= i < m.len(),
        m[i].claim_value@ == value,
        forall|j: int| 0 <= j < i ==> m[j].claim_value@ != value,
    ensures
        first_claim_match(m, value) == Some(m[i].role),
    decreases i,
{
    if i > 0 {
        assert(m[0].claim_value@ != value);
        let rest = m.drop_first();
        assert forall|j: int| 0 <= j < i - 1 implies rest[j].claim_value@ != value by {
            assert(rest[j] == m[j + 1]);
        }
        first_claim_match_is_first(rest, value, i - 1);
    }
}

/// Without a mapping for the value there is no email match.
pub proof fn first_claim_match_absent(m: Seq<OidcRoleMapping>, value: Seq<char>)
    requires
        forall|j: int| 0 <= j < m.len() ==> m[j].claim_value@ != value,
    ensures
        first_claim_match(m, value) is None,
    decreases m.len(),
{
    if m.len() > 0 {
        let rest = m.drop_first();
        assert forall|j: int| 0 <= j < rest.len() implies rest[j].claim_value@ != value by {
            assert(rest[j] == m[j + 1]);
        }
        first_claim_match_absent(rest, value);
    }
}

/// Role mapping precedence: an exact email mapping decides; without one the
/// strongest mapped group decides (see `strongest_group_role_facts`); with
/// neither, the default role applies.
pub proof fn mapped_role_precedence(
    email_mappings: Seq<OidcRoleMapping>,
    group_mappings: Seq<OidcRoleMapping>,
    default_role: Option<Role>,
    email: Seq<char>,
    groups: Seq<String>,
)
    ensures
        first_claim_match(email_mappings, lowercased(trimmed(email))) matches Some(role)
            ==> mapped_role_spec(email_mappings, group_mappings, default_role, email, groups)
            == Some(role),
        first_claim_match(email_mappings, lowercased(trimmed(email))) is None ==> (
        strongest_group_role(group_mappings, groups) matches Some(role) ==> mapped_role_spec(
            email_mappings,
            group_mappings,
            default_role,
            email,
            groups,
        ) == Some(role)),
        first_claim_match(email_mappings, lowercased(trimmed(email))) is None && (forall|i: int|
            0 <= i < group_mappings.len() ==> !group_matched(#[trigger] group_mappings[i], groups))
            ==> mapped_role_spec(email_mappings, group_mappings, default_role, email, groups)
            == default_role,
{
    strongest_group_role_facts(group_mappings, groups);
}

/// The role a configuration maps an identity to, with `e` the trimmed,
/// lowercased email and `G` the group mappings whose claim value is among the
/// asserted groups: the role of the first email mapping whose claim value is
/// `e`, if there is one; otherwise, if `G` is not empty, the most privileged
/// role in `G` (Owner, then Operator, Developer, Viewer); otherwise the
/// configuration's default role.
pub proof fn mapped_role_law(c: OidcConfiguration, email: Seq<char>, groups: Seq<String>)
    ensures
        ({
            let em = c.email_role_mappings@;
            let gm = c.group_role_mappings@;
            let e = lowercased(trimmed(email));
            let r = mapped_role_spec(em, gm, c.default_role, email, groups);
            &&& forall|i: int|
                0 <= i < em.len() && (#[trigger] em[i]).claim_value@ == e && (forall|j: int|
                    0 <= j < i ==> em[j].claim_value@ != e) ==> r == Some(em[i].role)
            &&& ((forall|i: int| 0 <= i < em.len() ==> (#[trigger] em[i]).claim_value@ != e)
                && (exists|i: int| 0 <= i < gm.len() && group_matched(#[trigger] gm[i], groups)))
                ==> (r matches Some(role) && (exists|i: int|
                0 <= i < gm.len() && group_matched(#[trigger] gm[i], groups) && gm[i].role
                    == role) && (forall|i: int|
                0 <= i < gm.len() && group_matched(#[trigger] gm[i], groups) ==> role_rank_spec(
                    role,
                ) <= role_rank_spec(gm[i].role)))
            &&& ((forall|i: int| 0 <= i < em.len() ==> (#[trigger] em[i]).claim_value@ != e)
                && (forall|i: int| 0 <= i < gm.len() ==> !group_matched(#[trigger] gm[i], groups)))
                ==> r == c.default_role
        }),
{
    let em = c.email_role_mappings@;
    let gm = c.group_role_mappings@;
    let e = lowercased(trimmed(email));
    strongest_group_role_facts(gm, groups);
    assert forall|i: int|
        0 <= i < em.len() && (#[trigger] em[i]).claim_value@ == e && (forall|j: int|
            0 <= j < i ==> em[j].claim_value@ != e) implies mapped_role_spec(
        em,
        gm,
        c.default_role,
        email,
        groups,
    ) == Some(em[i].role) by {
        first_claim_match_is_first(em, e, i);
    }
    if forall|i: int| 0 <= i < em.len() ==> (#[trigger] em[i]).claim_value@ != e {
        first_claim_match_absent(em, e);
    }
}

/// Whether some group mapping that matches an asserted group grants `role`.
pub open spec fn group_grants(m: Seq<OidcRoleMapping>, groups: Seq<String>, role: Role) -> bool {
    exists|i: int| 0 <= i < m.len() && group_matched(#[trigger] m[i], groups) && m[i].role == role
}

/// Roles rank by privilege: an owner outranks an operator, who outranks a
/// developer, who outranks a viewer (a lower rank is stronger).
pub proof fn role_rank_orders_privilege()
    ensures
        role_rank_spec(Role::Owner) < role_rank_spec(Role::Operator),
        role_rank_spec(Role::Operator) < role_rank_spec(Role::Developer),
        role_rank_spec(Role::Developer) < role_rank_spec(Role::Viewer),
{
}

/// Without an email mapping for the identity, the most privileged role among
/// the matched groups wins: Owner if any matched group grants it, else
/// Operator, else Developer, else Viewer.
pub proof fn most_privileged_group_role_wins(c: OidcConfiguration, email: Seq<char>, groups: Seq<String>)
    requires
        forall|i: int|
            0 <= i < c.email_role_mappings@.len() ==> (#[trigger] c.email_role_mappings@[i]).claim_value@
                != lowercased(trimmed(email)),
    ensures
        ({
            let gm = c.group_role_mappings@;
            let r = mapped_role_spec(c.email_role_mappings@, gm, c.default_role, email, groups);
            &&& group_grants(gm, groups, Role::Owner) ==> r == Some(Role::Owner)
            &&& (!group_grants(gm, groups, Role::Owner) && group_grants(gm, groups, Role::Operator))
                ==> r == Some(Role::Operator)
            &&& (!group_grants(gm, groups, Role::Owner) && !group_grants(gm, groups, Role::Operator)
                && group_grants(gm, groups, Role::Developer)) ==> r == Some(Role::Developer)
            &&& (!group_grants(gm, groups, Role::Owner) && !group_grants(gm, groups, Role::Operator)
                && !group_grants(gm, groups, Role::Developer) && group_grants(
                gm,
                groups,
                Role::Viewer,
            )) ==> r == Some(Role::Viewer)
        }),
{
    let gm = c.group_role_mappings@;
    first_claim_match_absent(c.email_role_mappings@, lowercased(trimmed(email)));
    strongest_group_role_facts(gm, groups);
    if let Some(r) = strongest_group_role(gm, groups) {
        let k = choose|k: int| 0 <= k < gm.len() && group_matched(#[trigger] gm[k], groups) && gm[k].role == r;
        assert(group_grants(gm, groups, r));
        if group_grants(gm, groups, Role::Owner) {
            let i = choose|i: int| 0 <= i < gm.len() && group_matched(#[trigger] gm[i], groups) && gm[i].role == Role::Owner;
            assert(role_rank_spec(r) <= role_rank_spec(gm[i].role));
        }
        if group_grants(gm, groups, Role::Operator) {
            let i = choose|i: int| 0 <= i < gm.len() && group_matched(#[trigger] gm[i], groups) && gm[i].role == Role::Operator;
            assert(role_rank_spec(r) <= role_rank_spec(gm[i].role));
        }
        if group_grants(gm, groups, Role::Developer) {
            let i = choose|i: int| 0 <= i < gm.len() && group_matched(#[trigger] gm[i], groups) && gm[i].role == Role::Developer;
            assert(role_rank_spec(r) <= role_rank_spec(gm[i].role));
        }
    } else {
        if group_grants(gm, groups, Role::Viewer) {
            let i = choose|i: int| 0 <= i < gm.len() && group_matched(#[trigger] gm[i], groups) && gm[i].role == Role::Viewer;
            assert(!group_matched(gm[i], groups));
        }
        if group_grants(gm, groups, Role::Developer) {
            let i = choose|i: int| 0 <= i < gm.len() && group_matched(#[trigger] gm[i], groups) && gm[i].role == Role::Developer;
            assert(!group_matched(gm[i], groups));
        }
        if group_grants(gm, groups, Role::Operator) {
            let i = choose|i: int| 0 <= i < gm.len() && group_matched(#[trigger] gm[i], groups) && gm[i].role == Role::Operator;
            assert(!group_matched(gm[i], groups));
        }
        if group_grants(gm, groups, Role::Owner) {
            let i = choose|i: int| 0 <= i < gm.len() && group_matched(#[trigger] gm[i], groups) && gm[i].role == Role::Owner;
            assert(!group_matched(gm[i], groups));
        }
    }
}

#[derive(Clone, Copy, Debug, Eq, PartialEq, Structural)]
pub enum OidcFlowPurpose {
    Login,
    Link,
    Reauthenticate,
}

pub open spec fn flow_purpose_text(p: OidcFlowPurpose) -> Seq<char> {
    match p {
        OidcFlowPurpose::Login => "login"@,
        OidcFlowPurpose::Link => "link"@,
        OidcFlowPurpose::Reauthenticate => "reauthenticate"@,
    }
}

pub open spec fn flow_purpose_from_text(s: Seq<char>) -> Option<OidcFlowPurpose> {
    if s == "login"@ {
        Some(OidcFlowPurpose::Login)
    } else if s == "link"@ {
        Some(OidcFlowPurpose::Link)
    } else if s == "reauthenticate"@ {
        Some(OidcFlowPurpose::Reauthenticate)
    } else {
        None
    }
}

/// A flow purpose read back from its stored text is the purpose stored.
pub proof fn flow_purpose_round_trip(p: OidcFlowPurpose)
    ensures
        flow_purpose_from_text(flow_purpose_text(p)) == Some(p),
{
    reveal_strlit("login");
    reveal_strlit("link");
    reveal_strlit("reauthenticate");
    assert("login"@.len() != "link"@.len());
    assert("login"@.len() != "reauthenticate"@.len());
    assert("link"@.len() != "reauthenticate"@.len());
}

impl OidcFlowPurpose {
    pub fn as_str(self) -> (s: &'static str)
        ensures
            s@ == flow_purpose_text(self),
    {
        match self {
            OidcFlowPurpose::Login => "login",
            OidcFlowPurpose::Link => "link",
            OidcFlowPurpose::Reauthenticate => "reauthenticate",
        }
    }

    /// Reads a stored flow purpose; unknown text means the row is corrupt.
    pub fn parse(value: &str) -> (r: Result<Self, OidcError>)
        ensures
            match flow_purpose_from_text(value@) {
                Some(p) => r matches Ok(q) && q == p,
                None => r matches Err(OidcError::Corrupt),
            },
    {
        if str_eq(value, "login") {
            Ok(OidcFlowPurpose::Login)
        } else if str_eq(value, "link") {
            Ok(OidcFlowPurpose::Link)
        } else if str_eq(value, "reauthenticate") {
            Ok(OidcFlowPurpose::Reauthenticate)
        } else {
            Err(OidcError::Corrupt)
        }
    }
}

pub const EMAIL_INVALID: &'static str = "email is invalid";

/// An identity provider's email is usable when, trimmed and lowercased, it
/// has at most 254 bytes, an '@' that is neither first nor last, and no
/// control characters.
pub open spec fn oidc_email_ok(email: Seq<char>) -> bool {
    &&& encode_utf8(email).len() <= 254
    &&& email.contains('@')
    &&& email[0] != '@'
    &&& email[email.len() - 1] != '@'
    &&& forall|i: int| 0 <= i < email.len() ==> !control_char(#[trigger] email[i])
}

pub fn normalize_email(email: &str) -> (r: Result<String, OidcError>)
    ensures
        oidc_email_ok(lowercased(trimmed(email@))) ==> (r matches Ok(e) && e@ == lowercased(
            trimmed(email@),
        )),
        !oidc_email_ok(lowercased(trimmed(email@))) ==> (r matches Err(OidcError::Invalid(m)) && m@
            == EMAIL_INVALID@),
{
    let email = lowercase_str(trim_str(email));
    let s = email.as_str();
    if s.as_bytes().len() > 254 || !contains_char(s, '@') {
        return Err(OidcError::Invalid(EMAIL_INVALID.to_string()));
    }
    let n = s.unicode_len();
    if s.get_char(0) == '@' || s.get_char(n - 1) == '@' || has_control_char(s) {
        return Err(OidcError::Invalid(EMAIL_INVALID.to_string()));
    }
    Ok(email)
}

/// The part of an email before its first '@', or all of it without one.
pub open spec fn local_part(email: Seq<char>) -> Seq<char> {
    if email.contains('@') {
        let i = choose|i: int|
            0 <= i < email.len() && email[i] == '@' && forall|j: int| 0 <= j < i ==> email[j] != '@';
        email.take(i)
    } else {
        email
    }
}

/// The display name of a provisioned user: the trimmed claim when it is not
/// blank, otherwise the email's local part; at most 100 characters either way.
pub open spec fn display_name_for(display_name: Option<Seq<char>>, email: Seq<char>) -> Seq<char> {
    let candidate = trimmed(
        match display_name {
            Some(d) => d,
            None => Seq::<char>::empty(),
        },
    );
    if candidate.len() == 0 {
        take_at_most(local_part(email), 100)
    } else {
        take_at_most(candidate, 100)
    }
}

fn local_part_of(email: &str) -> (r: &str)
    ensures
        r@ == local_part(email@),
{
    let n = email.unicode_len();
    let mut i: usize = 0;
    while i < n
        invariant
            n == email@.len(),
            i <= n,
            forall|j: int| 0 <= j < i ==> email@[j] != '@',
        decreases n - i,
    {
        if email.get_char(i) == '@' {
            let ghost k = choose|k: int|
                0 <= k < email@.len() && email@[k] == '@' && forall|j: int|
                    0 <= j < k ==> email@[j] != '@';
            assert(email@.contains('@'));
            assert(k == i) by {
                if k > i {
                    assert(email@[i as int] == '@');
                }
            }
            return email.substring_char(0, i);
        }
        i = i + 1;
    }
    assert(!email@.contains('@'));
    assert(email@.subrange(0, n as int) =~= email@);
    email.substring_char(0, n)
}

pub fn normalize_display_name(display_name: Option<&str>, email: &str) -> (r: String)
    ensures
        r@ == display_name_for(
            match display_name {
                Some(d) => Some(d@),
                None => None,
            },
            email@,
        ),
{
    let raw = match display_name {
        Some(d) => d,
        None => {
            proof {
                reveal_strlit("");
                assert(""@ =~= Seq::<char>::empty());
            }
            ""
        },
    };
    let candidate = trim_str(raw);
    if candidate.unicode_len() == 0 {
        take_chars(local_part_of(email), 100)
    } else {
        take_chars(candidate, 100)
    }
}

pub const SUBJECT_INVALID: &'static str = "OIDC subject is invalid";

/// A subject identifier: 1 to 255 bytes without control characters.
pub open spec fn subject_ok(subject: Seq<char>) -> bool {
    &&& subject.len() > 0
    &&& encode_utf8(subject).len() <= 255
    &&& forall|i: int| 0 <= i < subject.len() ==> !control_char(#[trigger] subject[i])
}

pub fn validate_subject(subject: &str) -> (r: Result<(), OidcError>)
    ensures
        subject_ok(subject@) ==> r is Ok,
        !subject_ok(subject@) ==> (r matches Err(OidcError::Invalid(m)) && m@ == SUBJECT_INVALID@),
{
    if subject.unicode_len() == 0 || subject.as_bytes().len() > 255 || has_control_char(subject) {
        Err(OidcError::Invalid(SUBJECT_INVALID.to_string()))
    } else {
        Ok(())
    }
}

/// A claim name character: ASCII letter, digit, '_', '.', ':' or '-'.
pub open spec fn claim_name_char(c: char) -> bool {
    (c as u32) < 128 && (crate::text::ascii_alphanumeric(c as u8) || c == '_' || c == '.' || c
        == ':' || c == '-')
}

/// 1 to 128 claim name characters.
pub open spec fn claim_name_ok(value: Seq<char>) -> bool {
    1 <= value.len() <= 128 && forall|i: int| 0 <= i < value.len() ==> claim_name_char(#[trigger] value[i])
}

pub fn valid_claim_name(value: &str) -> (b: bool)
    ensures
        b == claim_name_ok(value@),
{
    let n = value.unicode_len();
    if n == 0 || n > 128 {
        return false;
    }
    let mut i: usize = 0;
    while i < n
        invariant
            n == value@.len(),
            i <= n,
            forall|j: int| 0 <= j < i ==> claim_name_char(#[trigger] value@[j]),
        decreases n - i,
    {
        let c = value.get_char(i);
        let code = c as u32;
        let ok = code < 128 && ((48 <= code && code <= 57) || (65 <= code && code <= 90) || (97
            <= code && code <= 122) || c == '_' || c == '.' || c == ':' || c == '-');
        if !ok {
            assert(!claim_name_char(value@[i as int]));
            return false;
        }
        assert(claim_name_char(value@[i as int]));
        i = i + 1;
    }
    true
}


/// The one-time secrets of an authorization flow: state, browser binding,
/// nonce and PKCE verifier. Only their digests are stored.
pub struct OidcFlowMaterial {
    state: SecretText,
    browser_binding: SecretText,
    nonce: SecretText,
    pkce_verifier: SecretText,
}

impl OidcFlowMaterial {
    pub closed spec fn state_text(&self) -> Seq<char> {
        secret_text(self.state)
    }

    pub closed spec fn browser_binding_text(&self) -> Seq<char> {
        secret_text(self.browser_binding)
    }

    pub closed spec fn nonce_text(&self) -> Seq<char> {
        secret_text(self.nonce)
    }

    pub closed spec fn pkce_verifier_text(&self) -> Seq<char> {
        secret_text(self.pkce_verifier)
    }

    /// Four independent fresh tokens.
    pub fn generate() -> (m: Self)
        ensures
            is_token_of_32_bytes(m.state_text()),
            is_token_of_32_bytes(m.browser_binding_text()),
            is_token_of_32_bytes(m.nonce_text()),
            is_token_of_32_bytes(m.pkce_verifier_text()),
    {
        OidcFlowMaterial {
            state: random_token(),
            browser_binding: random_token(),
            nonce: random_token(),
            pkce_verifier: random_token(),
        }
    }

    pub fn state(&self) -> (s: &str)
        ensures
            s@ == self.state_text(),
    {
        secret_str(&self.state)
    }

    pub fn browser_binding(&self) -> (s: &str)
        ensures
            s@ == self.browser_binding_text(),
    {
        secret_str(&self.browser_binding)
    }

    pub fn nonce(&self) -> (s: &str)
        ensures
            s@ == self.nonce_text(),
    {
        secret_str(&self.nonce)
    }

    pub fn pkce_verifier(&self) -> (s: &str)
        ensures
            s@ == self.pkce_verifier_text(),
    {
        secret_str(&self.pkce_verifier)
    }

    /// The S256 PKCE challenge: unpadded URL-safe base64 of the SHA-256 of
    /// the verifier.
    pub fn pkce_challenge(&self) -> (s: String)
        ensures
            s@ == base64_url_unpadded(sha256(encode_utf8(self.pkce_verifier_text()))),
            s@.len() == 43,
    {
        let digest = sha256_digest(secret_str(&self.pkce_verifier).as_bytes());
        encode_base64_url(digest.as_slice())
    }

    pub fn state_digest(&self) -> (d: [u8; 32])
        ensures
            d@ == sha256(encode_utf8(self.state_text())),
    {
        token_digest(secret_str(&self.state))
    }

    pub fn browser_binding_digest(&self) -> (d: [u8; 32])
        ensures
            d@ == sha256(encode_utf8(self.browser_binding_text())),
    {
        token_digest(secret_str(&self.browser_binding))
    }

    /// The text form of the material, which shows none of it.
    pub fn debug_string(&self) -> (s: String)
        ensures
            s@ == "OidcFlowMaterial([REDACTED])"@,
    {
        String::from_str("OidcFlowMaterial([REDACTED])")
    }
}

pub const SESSION_LIFETIME_INVALID: &'static str = "session lifetime is invalid";

/// When a session created at `now` with a lifetime of `ttl_micros` expires:
/// the lifetime must be positive and the instant representable.
pub fn session_expiry(now: Timestamp, ttl_micros: i64) -> (r: Result<Timestamp, OidcError>)
    ensures
        (ttl_micros > 0 && now.micros + ttl_micros <= i64::MAX) ==> (r matches Ok(t) && t.micros
            == now.micros + ttl_micros),
        !(ttl_micros > 0 && now.micros + ttl_micros <= i64::MAX) ==> (r matches Err(
            OidcError::Invalid(m),
        ) && m@ == SESSION_LIFETIME_INVALID@),
{
    if ttl_micros <= 0 || now.micros > i64::MAX - ttl_micros {
        return Err(OidcError::Invalid(SESSION_LIFETIME_INVALID.to_string()));
    }
    Ok(Timestamp { micros: now.micros + ttl_micros })
}

/// The local account an OIDC identity is already linked to.
#[derive(Clone, Copy, Debug, Eq, PartialEq, Structural)]
pub struct LinkedAccount {
    pub active: bool,
    pub role: Role,
    /// The account has no local password: OIDC alone manages its role.
    pub oidc_only: bool,
}

/// What an OIDC login does to the local accounts.
#[derive(Clone, Copy, Debug, Eq, PartialEq, Structural)]
pub enum LoginPlan {
    /// Sign in the linked account; an OIDC-only account whose mapped role
    /// changed takes the new role, and its older sessions are revoked.
    Existing { sync_role: Option<Role> },
    /// Create an account with this role and link the identity to it.
    Provision { role: Role },
}

/// Decides an OIDC login from the linked account, if any, and the role the
/// configuration maps the identity's claims to, if any.
pub fn plan_oidc_login(linked: Option<LinkedAccount>, mapped_role: Option<Role>) -> (r: Result<
    LoginPlan,
    OidcError,
>)
    ensures
        match linked {
            Some(a) => if !a.active {
                r matches Err(OidcError::InactiveUser)
            } else if !a.oidc_only {
                r == Ok::<LoginPlan, OidcError>(LoginPlan::Existing { sync_role: None })
            } else {
                match mapped_role {
                    None => r matches Err(OidcError::ProvisioningDenied),
                    Some(role) => r == Ok::<LoginPlan, OidcError>(
                        LoginPlan::Existing {
                            sync_role: if role == a.role {
                                None
                            } else {
                                Some(role)
                            },
                        },
                    ),
                }
            },
            None => match mapped_role {
                None => r matches Err(OidcError::ProvisioningDenied),
                Some(role) => r == Ok::<LoginPlan, OidcError>(LoginPlan::Provision { role }),
            },
        },
{
    match linked {
        Some(a) => {
            if !a.active {
                return Err(OidcError::InactiveUser);
            }
            if !a.oidc_only {
                return Ok(LoginPlan::Existing { sync_role: None });
            }
            match mapped_role {
                None => Err(OidcError::ProvisioningDenied),
                Some(role) => {
                    let sync_role = if role == a.role {
                        None
                    } else {
                        Some(role)
                    };
                    Ok(LoginPlan::Existing { sync_role })
                },
            }
        },
        None => match mapped_role {
            None => Err(OidcError::ProvisioningDenied),
            Some(role) => Ok(LoginPlan::Provision { role }),
        },
    }
}

/// The email of an account provisioned on login: the identity must assert
/// one, and it must be a valid address.
pub fn provisioning_email(email: Option<&str>) -> (r: Result<String, OidcError>)
    ensures
        email is None ==> r matches Err(OidcError::ProvisioningDenied),
        (email matches Some(e) && oidc_email_ok(lowercased(trimmed(e@)))) ==> (r matches Ok(v)
            && v@ == lowercased(trimmed(email->0@))),
        (email matches Some(e) && !oidc_email_ok(lowercased(trimmed(e@)))) ==> (r matches Err(
            OidcError::Invalid(m),
        ) && m@ == EMAIL_INVALID@),
{
    match email {
        None => Err(OidcError::ProvisioningDenied),
        Some(e) => normalize_email(e),
    }
}

/// A provisioned account may not take an email that a local account already
/// holds: that account must link the identity explicitly.
pub fn provisioning_collision(collision: bool) -> (r: Result<(), OidcError>)
    ensures
        collision ==> r matches Err(OidcError::LinkRequired),
        !collision ==> r is Ok,
{
    if collision {
        Err(OidcError::LinkRequired)
    } else {
        Ok(())
    }
}

/// What linking an identity to a signed-in account reads.
#[derive(Clone, Copy, Debug, Eq, PartialEq, Structural)]
pub struct LinkState {
    pub user_found: bool,
    /// The initiating session exists for the user and has not expired.
    pub session_found: bool,
    pub user_active: bool,
    /// The user's security version is the one the session was issued under.
    pub security_version_matches: bool,
    /// The session still carries the user's current security version.
    pub session_current: bool,
    /// Whether the identity is linked already, and if so to this user.
    pub subject_linked_to_user: Option<bool>,
    /// The user has another identity at the same issuer.
    pub other_identity_at_issuer: bool,
}

pub open spec fn link_refusal(s: LinkState) -> Option<OidcError> {
    if !s.user_found {
        Some(OidcError::InactiveUser)
    } else if !s.session_found {
        Some(OidcError::FlowUnavailable)
    } else if !s.user_active {
        Some(OidcError::InactiveUser)
    } else if !s.security_version_matches || !s.session_current {
        Some(OidcError::SessionUnavailable)
    } else if s.subject_linked_to_user == Some(false) || s.other_identity_at_issuer {
        Some(OidcError::IdentityAlreadyLinked)
    } else {
        None
    }
}

/// Whether an identity may be linked to the signed-in user, checked in the
/// order the link transaction reads its rows.
pub fn link_check(s: LinkState) -> (r: Result<(), OidcError>)
    ensures
        match link_refusal(s) {
            Some(e) => r == Err::<(), OidcError>(e),
            None => r is Ok,
        },
{
    if !s.user_found {
        return Err(OidcError::InactiveUser);
    }
    if !s.session_found {
        return Err(OidcError::FlowUnavailable);
    }
    if !s.user_active {
        return Err(OidcError::InactiveUser);
    }
    if !s.security_version_matches || !s.session_current {
        return Err(OidcError::SessionUnavailable);
    }
    if s.subject_linked_to_user == Some(false) || s.other_identity_at_issuer {
        return Err(OidcError::IdentityAlreadyLinked);
    }
    Ok(())
}

/// The email recorded with a new link: the asserted email when it is valid,
/// nothing otherwise.
pub fn link_email(email: Option<&str>) -> (r: Option<String>)
    ensures
        (email matches Some(e) && oidc_email_ok(lowercased(trimmed(e@)))) ==> (r matches Some(v)
            && v@ == lowercased(trimmed(email->0@))),
        !(email matches Some(e) && oidc_email_ok(lowercased(trimmed(e@)))) ==> r is None,
{
    match email {
        None => None,
        Some(e) => match normalize_email(e) {
            Ok(v) => Some(v),
            Err(_) => None,
        },
    }
}

pub const LOGIN_FLOW_STATELESS: &'static str = "new OIDC login flows are stateless and cannot be persisted";
pub const FLOW_METADATA_INVALID: &'static str = "authorization flow metadata is invalid";
pub const FLOW_SECURITY_CONTEXT_INVALID: &'static str = "authorization flow security context is invalid";
pub const FLOW_PURPOSE_METADATA_INVALID: &'static str = "authorization flow purpose metadata is invalid";

/// What a new link or reauthentication flow carries, as far as its checks
/// read it.
#[derive(Clone, Copy, Debug, Eq, PartialEq, Structural)]
pub struct NewFlowRequest {
    pub purpose: OidcFlowPurpose,
    pub expires_at: Timestamp,
    pub has_actor_user: bool,
    pub has_actor_session: bool,
    pub actor_security_version: Option<i64>,
    pub recent_auth_purpose: Option<RecentAuthPurpose>,
    pub has_recent_auth_resource: bool,
    pub has_recent_auth_token: bool,
}

/// A link flow carries the one-time grant it consumes and no grant request;
/// a reauthentication flow carries the grant it will issue, with a resource
/// exactly when that grant's purpose needs one.
pub open spec fn flow_purpose_metadata_ok(f: NewFlowRequest) -> bool {
    match f.purpose {
        OidcFlowPurpose::Link => f.recent_auth_purpose is None && !f.has_recent_auth_resource
            && f.has_recent_auth_token,
        OidcFlowPurpose::Reauthenticate => match f.recent_auth_purpose {
            Some(p) => !f.has_recent_auth_token && f.has_recent_auth_resource
                == purpose_requires_resource(p),
            None => false,
        },
        OidcFlowPurpose::Login => false,
    }
}

pub open spec fn new_flow_defect(f: NewFlowRequest, now: Timestamp) -> Option<Seq<char>> {
    if f.purpose is Login {
        Some(LOGIN_FLOW_STATELESS@)
    } else if f.expires_at.micros <= now.micros || !f.has_actor_user || !f.has_actor_session {
        Some(FLOW_METADATA_INVALID@)
    } else if !(f.actor_security_version matches Some(v) && v > 0) {
        Some(FLOW_SECURITY_CONTEXT_INVALID@)
    } else if !flow_purpose_metadata_ok(f) {
        Some(FLOW_PURPOSE_METADATA_INVALID@)
    } else {
        None
    }
}

/// Checks a flow before it is stored: login flows are never stored, and a
/// stored flow is bound to a live session and carries the metadata of its
/// purpose.
pub fn check_new_flow(f: NewFlowRequest, now: Timestamp) -> (r: Result<(), OidcError>)
    ensures
        match new_flow_defect(f, now) {
            Some(m) => r matches Err(OidcError::Invalid(msg)) && msg@ == m,
            None => r is Ok,
        },
{
    if matches!(f.purpose, OidcFlowPurpose::Login) {
        return Err(OidcError::Invalid(LOGIN_FLOW_STATELESS.to_string()));
    }
    if f.expires_at.micros <= now.micros || !f.has_actor_user || !f.has_actor_session {
        return Err(OidcError::Invalid(FLOW_METADATA_INVALID.to_string()));
    }
    match f.actor_security_version {
        Some(v) => {
            if v <= 0 {
                return Err(OidcError::Invalid(FLOW_SECURITY_CONTEXT_INVALID.to_string()));
            }
        },
        None => return Err(OidcError::Invalid(FLOW_SECURITY_CONTEXT_INVALID.to_string())),
    }
    let metadata_ok = match f.purpose {
        OidcFlowPurpose::Link => f.recent_auth_purpose.is_none() && !f.has_recent_auth_resource
            && f.has_recent_auth_token,
        OidcFlowPurpose::Reauthenticate => match f.recent_auth_purpose {
            Some(p) => !f.has_recent_auth_token && f.has_recent_auth_resource
                == p.requires_resource(),
            None => false,
        },
        OidcFlowPurpose::Login => false,
    };
    if !metadata_ok {
        return Err(OidcError::Invalid(FLOW_PURPOSE_METADATA_INVALID.to_string()));
    }
    Ok(())
}

/// At most this many authorization flows are outstanding at once.
pub const MAX_ACTIVE_FLOWS: i64 = 10_000;
/// At most this many authorization flows start per minute.
pub const MAX_AUTHORIZATION_FLOWS_PER_MINUTE: i64 = 300;

/// Whether another flow may be stored, given the live flows and those
/// created in the last minute.
pub fn flow_capacity_check(active_flows: i64, recent_flows: i64) -> (r: Result<(), OidcError>)
    ensures
        active_flows >= MAX_ACTIVE_FLOWS ==> r matches Err(OidcError::FlowCapacity),
        active_flows < MAX_ACTIVE_FLOWS && recent_flows >= MAX_AUTHORIZATION_FLOWS_PER_MINUTE
            ==> r matches Err(OidcError::FlowRateLimited),
        active_flows < MAX_ACTIVE_FLOWS && recent_flows < MAX_AUTHORIZATION_FLOWS_PER_MINUTE
            ==> r is Ok,
{
    if active_flows >= MAX_ACTIVE_FLOWS {
        return Err(OidcError::FlowCapacity);
    }
    if recent_flows >= MAX_AUTHORIZATION_FLOWS_PER_MINUTE {
        return Err(OidcError::FlowRateLimited);
    }
    Ok(())
}

/// How far ahead a browser-held login flow may expire: eleven minutes.
pub const LOGIN_FLOW_HORIZON_MICROS: i64 = 660_000_000;

/// A browser-held login flow is claimable while it has not expired and its
/// expiry lies within the horizon.
pub fn login_flow_window(expires_at: Timestamp, now: Timestamp) -> (r: Result<(), OidcError>)
    ensures
        (now.micros < expires_at.micros <= now.micros + LOGIN_FLOW_HORIZON_MICROS) ==> r is Ok,
        !(now.micros < expires_at.micros <= now.micros + LOGIN_FLOW_HORIZON_MICROS) ==> r matches Err(
            OidcError::FlowUnavailable,
        ),
{
    if expires_at.micros <= now.micros || (expires_at.micros as i128) - (now.micros as i128)
        > LOGIN_FLOW_HORIZON_MICROS as i128 {
        return Err(OidcError::FlowUnavailable);
    }
    Ok(())
}

/// The outcome of consuming a browser-held login flow: it must lie in the
/// window, and the store must have recorded this consumption as the first
/// one of the flow (`recorded`); a flow consumed before is unavailable.
pub fn login_flow_consumption(expires_at: Timestamp, now: Timestamp, recorded: bool) -> (r: Result<
    (),
    OidcError,
>)
    ensures
        (now.micros < expires_at.micros <= now.micros + LOGIN_FLOW_HORIZON_MICROS && recorded)
            ==> r is Ok,
        !(now.micros < expires_at.micros <= now.micros + LOGIN_FLOW_HORIZON_MICROS && recorded)
            ==> r matches Err(OidcError::FlowUnavailable),
{
    login_flow_window(expires_at, now)?;
    if !recorded {
        return Err(OidcError::FlowUnavailable);
    }
    Ok(())
}

/// A callback's state and browser binding are 43-byte tokens; anything else
/// cannot name a flow.
pub fn flow_tokens_shape(state: &str, browser_binding: &str) -> (r: Result<(), OidcError>)
    ensures
        (encode_utf8(state@).len() == 43 && encode_utf8(browser_binding@).len() == 43) ==> r is Ok,
        !(encode_utf8(state@).len() == 43 && encode_utf8(browser_binding@).len() == 43)
            ==> r matches Err(OidcError::FlowUnavailable),
{
    if state.as_bytes().len() != 43 || browser_binding.as_bytes().len() != 43 {
        return Err(OidcError::FlowUnavailable);
    }
    Ok(())
}

/// A callback from another session than the one that started the flow must
/// not consume it.
pub fn flow_session_check(initiating_session_matches: bool) -> (r: Result<(), OidcError>)
    ensures
        initiating_session_matches ==> r is Ok,
        !initiating_session_matches ==> r matches Err(OidcError::FlowSessionMismatch),
{
    if initiating_session_matches {
        Ok(())
    } else {
        Err(OidcError::FlowSessionMismatch)
    }
}

/// Reads a stored encrypted payload: a non-negative key version and a
/// twelve-byte nonce, else the row is corrupt.
pub fn encrypted_from_row(key_version: i32, nonce: Vec<u8>, ciphertext: Vec<u8>) -> (r: Result<
    EncryptedSecret,
    OidcError,
>)
    ensures
        (key_version >= 0 && nonce@.len() == 12) ==> (r matches Ok(e) && e.key_version
            == key_version && e.nonce@ == nonce@ && e.ciphertext@ == ciphertext@),
        !(key_version >= 0 && nonce@.len() == 12) ==> r matches Err(OidcError::Corrupt),
{
    if key_version < 0 || nonce.len() != 12 {
        return Err(OidcError::Corrupt);
    }
    let bytes: [u8; 12] = [
        nonce[0],
        nonce[1],
        nonce[2],
        nonce[3],
        nonce[4],
        nonce[5],
        nonce[6],
        nonce[7],
        nonce[8],
        nonce[9],
        nonce[10],
        nonce[11],
    ];
    assert(bytes@ =~= nonce@);
    Ok(EncryptedSecret { key_version: key_version as u32, nonce: bytes, ciphertext })
}

/// A text column that must be present and non-empty.
pub fn required_string(value: Option<String>) -> (r: Result<String, OidcError>)
    ensures
        (value matches Some(s) && s@.len() > 0) ==> r == Ok::<String, OidcError>(value->0),
        !(value matches Some(s) && s@.len() > 0) ==> r matches Err(OidcError::Corrupt),
{
    match value {
        Some(s) => {
            if s.as_str().unicode_len() == 0 {
                Err(OidcError::Corrupt)
            } else {
                Ok(s)
            }
        },
        None => Err(OidcError::Corrupt),
    }
}

/// The answer of the configuration check that starts every OIDC
/// transaction: the configuration read under the expected ETag is enabled,
/// disabled, or gone.
pub fn configuration_gate(enabled: Option<bool>) -> (r: Result<(), OidcError>)
    ensures
        enabled == Some(true) ==> r is Ok,
        enabled == Some(false) ==> r matches Err(OidcError::Disabled),
        enabled is None ==> r matches Err(OidcError::PreconditionFailed),
{
    match enabled {
        Some(true) => Ok(()),
        Some(false) => Err(OidcError::Disabled),
        None => Err(OidcError::PreconditionFailed),
    }
}

/// The local account an OIDC sign-in or link resolved to.
#[derive(Clone, Debug)]
pub struct OidcAuthenticatedUser {
    pub id: uuid::Uuid,
    pub email: String,
    pub display_name: String,
    pub role: Role,
}

/// A user row as read for an OIDC sign-in, its role still as text.
#[derive(Clone, Debug)]
pub struct AuthenticatedUserRow {
    pub id: uuid::Uuid,
    pub email: String,
    pub display_name: String,
    pub role: String,
}

/// Reads a user row; a role the library does not know means the row is
/// corrupt.
pub fn authenticated_user_from_row(row: AuthenticatedUserRow) -> (r: Result<
    OidcAuthenticatedUser,
    OidcError,
>)
    ensures
        match role_from_text(row.role@) {
            Some(role) => r matches Ok(u) && u.id == row.id && u.email@ == row.email@
                && u.display_name@ == row.display_name@ && u.role == role,
            None => r matches Err(OidcError::Corrupt),
        },
{
    match Role::parse(row.role.as_str()) {
        Some(role) => Ok(
            OidcAuthenticatedUser {
                id: row.id,
                email: row.email,
                display_name: row.display_name,
                role,
            },
        ),
        None => Err(OidcError::Corrupt),
    }
}

/// What removing a linked identity reads.
#[derive(Clone, Copy, Debug, Eq, PartialEq, Structural)]
pub struct UnlinkState {
    pub user_found: bool,
    pub user_active: bool,
    /// The user's security version is the one the session was issued under.
    pub security_version_matches: bool,
    /// The one-time recent-authentication grant for this identity was
    /// consumed.
    pub grant_consumed: bool,
    /// The identity is linked to this user.
    pub identity_linked: bool,
    /// How many identities the user has linked, this one included.
    pub linked_identities: usize,
    pub has_local_password: bool,
}

pub open spec fn unlink_refusal(s: UnlinkState) -> Option<OidcError> {
    if !s.user_found || !s.user_active {
        Some(OidcError::InactiveUser)
    } else if !s.security_version_matches {
        Some(OidcError::SessionUnavailable)
    } else if !s.grant_consumed {
        Some(OidcError::RecentAuthenticationRequired)
    } else if !s.identity_linked {
        Some(OidcError::IdentityNotFound)
    } else if !s.has_local_password && s.linked_identities <= 1 {
        Some(OidcError::LastAuthenticationMethod)
    } else {
        None
    }
}

/// Whether an identity may be unlinked, checked in the order the unlink
/// transaction reads its rows. An accepted unlink always leaves the user a
/// way to sign in: a local password or another identity.
pub fn unlink_check(s: UnlinkState) -> (r: Result<(), OidcError>)
    ensures
        match unlink_refusal(s) {
            Some(e) => r == Err::<(), OidcError>(e),
            None => r is Ok,
        },
        r is Ok ==> s.has_local_password || s.linked_identities - 1 >= 1,
{
    if !s.user_found || !s.user_active {
        return Err(OidcError::InactiveUser);
    }
    if !s.security_version_matches {
        return Err(OidcError::SessionUnavailable);
    }
    if !s.grant_consumed {
        return Err(OidcError::RecentAuthenticationRequired);
    }
    if !s.identity_linked {
        return Err(OidcError::IdentityNotFound);
    }
    if !s.has_local_password && s.linked_identities <= 1 {
        return Err(OidcError::LastAuthenticationMethod);
    }
    Ok(())
}

/// The key under which sign-ins of one subject are serialised: the issuer's
/// length in bytes, the issuer and the subject, separated by colons. The
/// length keeps "a:b" + "c" apart from "a" + "b:c".
pub open spec fn subject_lock_text(issuer: Seq<char>, subject: Seq<char>) -> Seq<char> {
    decimal(encode_utf8(issuer).len()) + seq![':'] + issuer + seq![':'] + subject
}

pub fn subject_lock_key(issuer: &str, subject: &str) -> (k: String)
    ensures
        k@ == subject_lock_text(issuer@, subject@),
{
    let mut k = String::new();
    push_decimal(&mut k, issuer.as_bytes().len() as u64);
    k.append(":");
    k.append(issuer);
    k.append(":");
    k.append(subject);
    proof {
        reveal_strlit(":");
    }
    assert(k@ =~= subject_lock_text(issuer@, subject@));
    k
}

} // verus!
