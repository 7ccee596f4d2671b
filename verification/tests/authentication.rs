use olp_storage::authentication::{grant_installable, RecentAuthPurpose};
use olp_storage::carried::Timestamp;

#[test]
fn grants_install_only_with_a_matching_resource_and_a_future_expiry() {
    let now = Timestamp { micros: 1_000 };
    let later = Timestamp { micros: 2_000 };
    assert!(grant_installable(RecentAuthPurpose::OidcUnlink, true, later, now));
    assert!(grant_installable(RecentAuthPurpose::PasswordEnrollment, false, later, now));
    assert!(!grant_installable(RecentAuthPurpose::OidcUnlink, false, later, now));
    assert!(!grant_installable(RecentAuthPurpose::OidcLink, true, later, now));
    assert!(!grant_installable(RecentAuthPurpose::OidcLink, false, now, now));
}
