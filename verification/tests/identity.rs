use olp_storage::carried::Timestamp;
use olp_storage::identity::{
    invitation_conflicts, invitation_from_row, is_last_owner_violation, normalize_email,
    user_from_row, AcceptInvitation, IdentityError, InstallationSetupInput, InvitationRow,
    PasswordUserRow, Role,
};

#[test]
fn roles_are_a_closed_fixed_set() {
    for role in ["owner", "operator", "developer", "viewer"] {
        assert_eq!(role.parse::<Role>().unwrap().as_str(), role);
    }
    assert!("administrator".parse::<Role>().is_err());
}

#[test]
fn invitation_email_normalization_is_strict() {
    assert_eq!(
        normalize_email("  Person@Example.TEST ").unwrap(),
        "person@example.test"
    );
    assert!(normalize_email("not-an-email").is_err());
    assert!(normalize_email("@example.test").is_err());
}

#[test]
fn invitation_rows_and_conflicts() {
    let row = |role: &str| InvitationRow {
        id: uuid::Uuid::from_u128(1),
        email: "a@b.test".to_owned(),
        role: role.to_owned(),
        invited_by: uuid::Uuid::from_u128(2),
        expires_at: Timestamp { micros: 10 },
        accepted_at: None,
        revoked_at: None,
        created_at: Timestamp { micros: 1 },
    };
    let invitation = invitation_from_row(row("developer")).unwrap();
    assert_eq!(invitation.role, Role::Developer);
    assert_eq!(invitation.expires_at, Timestamp { micros: 10 });
    assert!(matches!(
        invitation_from_row(row("superuser")),
        Err(IdentityError::CorruptIdentity)
    ));
    assert!(invitation_conflicts(false, false).is_ok());
    assert!(matches!(
        invitation_conflicts(true, true),
        Err(IdentityError::EmailAlreadyMember)
    ));
    assert!(matches!(
        invitation_conflicts(false, true),
        Err(IdentityError::PendingInvitationExists)
    ));
}

#[test]
fn user_rows_read_back_with_known_roles() {
    let row = PasswordUserRow {
        id: uuid::Uuid::from_u128(3),
        email: "o@example.test".to_owned(),
        display_name: "Owner".to_owned(),
        role: "owner".to_owned(),
        active: true,
        etag: uuid::Uuid::from_u128(4),
        security_version: 7,
        created_at: Timestamp { micros: 1 },
        updated_at: Timestamp { micros: 2 },
    };
    let user = user_from_row(row.clone().into_user()).unwrap();
    assert_eq!(user.role, Role::Owner);
    assert_eq!(user.display_name, "Owner");
    assert_eq!(user.updated_at, Timestamp { micros: 2 });
    let corrupt = PasswordUserRow {
        role: "god".to_owned(),
        ..row
    };
    assert!(matches!(
        user_from_row(corrupt.into_user()),
        Err(IdentityError::CorruptIdentity)
    ));
}

#[test]
fn only_the_owner_check_counts_as_last_owner() {
    assert!(is_last_owner_violation(
        Some("23514"),
        "new row violates check: last active owner required"
    ));
    assert!(!is_last_owner_violation(Some("23514"), "other check"));
    assert!(!is_last_owner_violation(Some("23505"), "last active owner"));
    assert!(!is_last_owner_violation(None, "last active owner"));
}

#[test]
fn setup_input_text_form_redacts_the_password_hash() {
    let input = InstallationSetupInput {
        installation_name: "Acme \"Labs\"".to_owned(),
        email: "owner@example.test".to_owned(),
        display_name: "Owner".to_owned(),
        password_hash: "argon2-secret-hash".to_owned(),
    };
    let text = input.debug_string();
    assert_eq!(
        text,
        "InstallationSetupInput { installation_name: \"Acme \\\"Labs\\\"\", email: \"owner@example.test\", display_name: \"Owner\", password_hash: \"[REDACTED]\" }"
    );
    assert!(!text.contains("argon2-secret-hash"));
}

#[test]
fn acceptance_text_form_redacts_token_and_password_hash() {
    let acceptance = AcceptInvitation {
        token: "a".repeat(43),
        display_name: "New Member".to_owned(),
        password_hash: "argon2-secret-hash".to_owned(),
    };
    let text = acceptance.debug_string();
    assert_eq!(
        text,
        "AcceptInvitation { token: \"[REDACTED]\", display_name: \"New Member\", password_hash: \"[REDACTED]\" }"
    );
    assert!(!text.contains(&"a".repeat(43)));
    assert!(!text.contains("argon2-secret-hash"));
}
