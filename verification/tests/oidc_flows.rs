use olp_storage::authentication::RecentAuthPurpose;
use olp_storage::carried::Timestamp;
use olp_storage::identity::Role;
use olp_storage::oidc::{
    authenticated_user_from_row, check_new_flow, configuration_gate, encrypted_from_row,
    flow_capacity_check, flow_session_check, flow_tokens_shape, link_check, link_email,
    login_flow_consumption, login_flow_window, plan_oidc_login, provisioning_collision, provisioning_email,
    required_string, session_expiry, subject_lock_key, unlink_check, AuthenticatedUserRow,
    LinkState, LinkedAccount, LoginPlan, NewFlowRequest, OidcError, OidcFlowPurpose, UnlinkState,
};

#[test]
fn login_decisions_follow_the_linked_account_and_mapped_role() {
    let linked = |active, oidc_only| {
        Some(LinkedAccount {
            active,
            role: Role::Developer,
            oidc_only,
        })
    };
    assert!(matches!(
        plan_oidc_login(linked(false, true), Some(Role::Owner)),
        Err(OidcError::InactiveUser)
    ));
    assert_eq!(
        plan_oidc_login(linked(true, false), None).unwrap(),
        LoginPlan::Existing { sync_role: None }
    );
    assert!(matches!(
        plan_oidc_login(linked(true, true), None),
        Err(OidcError::ProvisioningDenied)
    ));
    assert_eq!(
        plan_oidc_login(linked(true, true), Some(Role::Operator)).unwrap(),
        LoginPlan::Existing {
            sync_role: Some(Role::Operator)
        }
    );
    assert_eq!(
        plan_oidc_login(linked(true, true), Some(Role::Developer)).unwrap(),
        LoginPlan::Existing { sync_role: None }
    );
    assert_eq!(
        plan_oidc_login(None, Some(Role::Viewer)).unwrap(),
        LoginPlan::Provision { role: Role::Viewer }
    );
    assert!(matches!(
        plan_oidc_login(None, None),
        Err(OidcError::ProvisioningDenied)
    ));
}

#[test]
fn provisioning_needs_a_valid_unused_email() {
    assert_eq!(
        provisioning_email(Some(" New@Example.TEST ")).unwrap(),
        "new@example.test"
    );
    assert!(matches!(
        provisioning_email(None),
        Err(OidcError::ProvisioningDenied)
    ));
    assert!(matches!(
        provisioning_email(Some("nobody")),
        Err(OidcError::Invalid(message)) if message == "email is invalid"
    ));
    assert!(provisioning_collision(false).is_ok());
    assert!(matches!(
        provisioning_collision(true),
        Err(OidcError::LinkRequired)
    ));
    assert_eq!(link_email(Some("A@B.test")), Some("a@b.test".to_owned()));
    assert_eq!(link_email(Some("@b.test")), None);
    assert_eq!(link_email(None), None);
}

fn linkable() -> LinkState {
    LinkState {
        user_found: true,
        session_found: true,
        user_active: true,
        security_version_matches: true,
        session_current: true,
        subject_linked_to_user: None,
        other_identity_at_issuer: false,
    }
}

#[test]
fn links_are_refused_in_read_order() {
    assert!(link_check(linkable()).is_ok());
    assert!(link_check(LinkState {
        subject_linked_to_user: Some(true),
        ..linkable()
    })
    .is_ok());
    assert!(matches!(
        link_check(LinkState {
            user_found: false,
            ..linkable()
        }),
        Err(OidcError::InactiveUser)
    ));
    assert!(matches!(
        link_check(LinkState {
            session_found: false,
            user_active: false,
            ..linkable()
        }),
        Err(OidcError::FlowUnavailable)
    ));
    assert!(matches!(
        link_check(LinkState {
            session_current: false,
            ..linkable()
        }),
        Err(OidcError::SessionUnavailable)
    ));
    assert!(matches!(
        link_check(LinkState {
            subject_linked_to_user: Some(false),
            ..linkable()
        }),
        Err(OidcError::IdentityAlreadyLinked)
    ));
    assert!(matches!(
        link_check(LinkState {
            other_identity_at_issuer: true,
            ..linkable()
        }),
        Err(OidcError::IdentityAlreadyLinked)
    ));
}

fn unlinkable() -> UnlinkState {
    UnlinkState {
        user_found: true,
        user_active: true,
        security_version_matches: true,
        grant_consumed: true,
        identity_linked: true,
        linked_identities: 2,
        has_local_password: false,
    }
}

#[test]
fn the_last_sign_in_method_cannot_be_unlinked() {
    assert!(unlink_check(unlinkable()).is_ok());
    assert!(matches!(
        unlink_check(UnlinkState {
            linked_identities: 1,
            ..unlinkable()
        }),
        Err(OidcError::LastAuthenticationMethod)
    ));
    assert!(unlink_check(UnlinkState {
        linked_identities: 1,
        has_local_password: true,
        ..unlinkable()
    })
    .is_ok());
    assert!(matches!(
        unlink_check(UnlinkState {
            grant_consumed: false,
            ..unlinkable()
        }),
        Err(OidcError::RecentAuthenticationRequired)
    ));
    assert!(matches!(
        unlink_check(UnlinkState {
            identity_linked: false,
            ..unlinkable()
        }),
        Err(OidcError::IdentityNotFound)
    ));
    assert!(matches!(
        unlink_check(UnlinkState {
            security_version_matches: false,
            ..unlinkable()
        }),
        Err(OidcError::SessionUnavailable)
    ));
    assert!(matches!(
        unlink_check(UnlinkState {
            user_active: false,
            ..unlinkable()
        }),
        Err(OidcError::InactiveUser)
    ));
}

fn link_flow() -> NewFlowRequest {
    NewFlowRequest {
        purpose: OidcFlowPurpose::Link,
        expires_at: Timestamp { micros: 2_000 },
        has_actor_user: true,
        has_actor_session: true,
        actor_security_version: Some(3),
        recent_auth_purpose: None,
        has_recent_auth_resource: false,
        has_recent_auth_token: true,
    }
}

#[test]
fn stored_flows_carry_the_metadata_of_their_purpose() {
    let now = Timestamp { micros: 1_000 };
    let message = |result| match result {
        Err(OidcError::Invalid(message)) => message,
        _ => panic!("expected an invalid flow"),
    };
    assert!(check_new_flow(link_flow(), now).is_ok());
    assert_eq!(
        message(check_new_flow(
            NewFlowRequest {
                purpose: OidcFlowPurpose::Login,
                ..link_flow()
            },
            now
        )),
        "new OIDC login flows are stateless and cannot be persisted"
    );
    assert_eq!(
        message(check_new_flow(
            NewFlowRequest {
                expires_at: now,
                ..link_flow()
            },
            now
        )),
        "authorization flow metadata is invalid"
    );
    assert_eq!(
        message(check_new_flow(
            NewFlowRequest {
                actor_security_version: Some(0),
                ..link_flow()
            },
            now
        )),
        "authorization flow security context is invalid"
    );
    assert_eq!(
        message(check_new_flow(
            NewFlowRequest {
                has_recent_auth_token: false,
                ..link_flow()
            },
            now
        )),
        "authorization flow purpose metadata is invalid"
    );
    let reauthenticate = NewFlowRequest {
        purpose: OidcFlowPurpose::Reauthenticate,
        recent_auth_purpose: Some(RecentAuthPurpose::OidcUnlink),
        has_recent_auth_resource: true,
        has_recent_auth_token: false,
        ..link_flow()
    };
    assert!(check_new_flow(reauthenticate, now).is_ok());
    assert!(check_new_flow(
        NewFlowRequest {
            has_recent_auth_resource: false,
            ..reauthenticate
        },
        now
    )
    .is_err());
}

#[test]
fn flow_capacity_and_windows_are_bounded() {
    assert!(flow_capacity_check(9_999, 299).is_ok());
    assert!(matches!(
        flow_capacity_check(10_000, 0),
        Err(OidcError::FlowCapacity)
    ));
    assert!(matches!(
        flow_capacity_check(0, 300),
        Err(OidcError::FlowRateLimited)
    ));
    let now = Timestamp { micros: 0 };
    assert!(login_flow_window(Timestamp { micros: 660_000_000 }, now).is_ok());
    assert!(login_flow_window(Timestamp { micros: 660_000_001 }, now).is_err());
    assert!(login_flow_window(now, now).is_err());
    let token = "a".repeat(43);
    assert!(flow_tokens_shape(&token, &token).is_ok());
    assert!(matches!(
        flow_tokens_shape(&token, "short"),
        Err(OidcError::FlowUnavailable)
    ));
    assert!(flow_session_check(true).is_ok());
    assert!(matches!(
        flow_session_check(false),
        Err(OidcError::FlowSessionMismatch)
    ));
}

#[test]
fn stored_flow_rows_are_checked_when_read() {
    let secret = encrypted_from_row(2, vec![7; 12], vec![1, 2, 3]).unwrap();
    assert_eq!(secret.key_version, 2);
    assert_eq!(secret.nonce, [7; 12]);
    assert_eq!(secret.ciphertext, vec![1, 2, 3]);
    assert!(matches!(
        encrypted_from_row(-1, vec![7; 12], vec![]),
        Err(OidcError::Corrupt)
    ));
    assert!(matches!(
        encrypted_from_row(1, vec![7; 11], vec![]),
        Err(OidcError::Corrupt)
    ));
    assert_eq!(required_string(Some("x".to_owned())).unwrap(), "x");
    assert!(matches!(
        required_string(Some(String::new())),
        Err(OidcError::Corrupt)
    ));
    assert!(matches!(required_string(None), Err(OidcError::Corrupt)));
    assert!(configuration_gate(Some(true)).is_ok());
    assert!(matches!(
        configuration_gate(Some(false)),
        Err(OidcError::Disabled)
    ));
    assert!(matches!(
        configuration_gate(None),
        Err(OidcError::PreconditionFailed)
    ));
    let user = authenticated_user_from_row(AuthenticatedUserRow {
        id: uuid::Uuid::from_u128(5),
        email: "a@b.test".to_owned(),
        display_name: "A".to_owned(),
        role: "operator".to_owned(),
    })
    .unwrap();
    assert_eq!(user.role, Role::Operator);
    assert!(matches!(
        authenticated_user_from_row(AuthenticatedUserRow {
            id: uuid::Uuid::from_u128(5),
            email: "a@b.test".to_owned(),
            display_name: "A".to_owned(),
            role: "root".to_owned(),
        }),
        Err(OidcError::Corrupt)
    ));
}

#[test]
fn sessions_expire_after_a_positive_lifetime() {
    let now = Timestamp { micros: 100 };
    assert_eq!(session_expiry(now, 50).unwrap(), Timestamp { micros: 150 });
    assert!(matches!(
        session_expiry(now, 0),
        Err(OidcError::Invalid(message)) if message == "session lifetime is invalid"
    ));
    assert!(session_expiry(Timestamp { micros: i64::MAX }, 1).is_err());
}

#[test]
fn subject_locks_are_prefixed_by_the_issuer_length() {
    assert_eq!(
        subject_lock_key("https://idp", "sub-1"),
        "11:https://idp:sub-1"
    );
    assert_ne!(subject_lock_key("a:b", "c"), subject_lock_key("a", "b:c"));
    assert_eq!(
        OidcFlowPurpose::parse(OidcFlowPurpose::Reauthenticate.as_str()).unwrap(),
        OidcFlowPurpose::Reauthenticate
    );
    assert!(matches!(
        OidcFlowPurpose::parse("logout"),
        Err(OidcError::Corrupt)
    ));
}

#[test]
fn a_login_flow_is_consumed_only_in_its_window_and_once() {
    let now = Timestamp { micros: 1_000_000 };
    let soon = Timestamp { micros: 1_000_000 + 600_000_000 };
    assert!(login_flow_consumption(soon, now, true).is_ok());
    assert!(matches!(login_flow_consumption(soon, now, false), Err(OidcError::FlowUnavailable)));
    assert!(matches!(login_flow_consumption(now, now, true), Err(OidcError::FlowUnavailable)));
    let far = Timestamp { micros: 1_000_000 + 660_000_001 };
    assert!(matches!(login_flow_consumption(far, now, true), Err(OidcError::FlowUnavailable)));
    let edge = Timestamp { micros: i64::MAX };
    assert!(matches!(
        login_flow_window(edge, Timestamp { micros: i64::MIN }),
        Err(OidcError::FlowUnavailable)
    ));
}
