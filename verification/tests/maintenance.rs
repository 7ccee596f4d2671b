use olp_storage::carried::Timestamp;
use olp_storage::maintenance::{
    checked_count, parse_retention_days, retention_cutoffs, retention_policy, MaintenanceError,
    MaintenanceReport, RetentionPolicy, MICROS_PER_DAY,
};

#[test]
fn retention_settings_are_whole_days_up_to_ten_years() {
    assert_eq!(parse_retention_days("30"), Some(30));
    assert_eq!(parse_retention_days("+7"), Some(7));
    assert_eq!(parse_retention_days("0030"), Some(30));
    assert_eq!(parse_retention_days("3650"), Some(3650));
    assert_eq!(parse_retention_days("3651"), None);
    assert_eq!(parse_retention_days("0"), None);
    assert_eq!(parse_retention_days("-5"), None);
    assert_eq!(parse_retention_days("+"), None);
    assert_eq!(parse_retention_days(""), None);
    assert_eq!(parse_retention_days("7 "), None);
    assert_eq!(parse_retention_days("99999999999999999999999"), None);
}

#[test]
fn retention_policy_overrides_defaults_by_key() {
    assert_eq!(
        retention_policy(&[]).unwrap(),
        RetentionPolicy {
            requests_days: 30,
            usage_days: 90,
            audit_days: 365
        }
    );
    let settings = vec![
        ("retention.usage_days".to_owned(), "120".to_owned()),
        ("retention.audit_days".to_owned(), "10".to_owned()),
    ];
    assert_eq!(
        retention_policy(&settings).unwrap(),
        RetentionPolicy {
            requests_days: 30,
            usage_days: 120,
            audit_days: 10
        }
    );
    let invalid = vec![
        ("retention.requests_days".to_owned(), "5".to_owned()),
        ("retention.audit_days".to_owned(), "forever".to_owned()),
    ];
    assert!(matches!(
        retention_policy(&invalid),
        Err(MaintenanceError::InvalidSetting { key }) if key == "retention.audit_days"
    ));
}

#[test]
fn cutoffs_lie_whole_days_before_now() {
    let now = Timestamp {
        micros: 1_700_000_000_000_000,
    };
    let cutoffs = retention_cutoffs(
        now,
        RetentionPolicy {
            requests_days: 30,
            usage_days: 90,
            audit_days: 365,
        },
    );
    assert_eq!(cutoffs.requests.micros, now.micros - 30 * MICROS_PER_DAY);
    assert_eq!(cutoffs.usage.micros, now.micros - 90 * 86_400_000_000);
    assert_eq!(cutoffs.audit.micros, 1_700_000_000_000_000 - 365 * 86_400_000_000);
}

#[test]
fn negative_counts_are_refused_by_name() {
    assert_eq!(checked_count(12, "usage").unwrap(), 12);
    assert!(matches!(
        checked_count(-1, "usage rollup"),
        Err(MaintenanceError::InvalidCount { name: "usage rollup" })
    ));
}

#[test]
fn a_skipped_pass_reports_nothing() {
    let report = MaintenanceReport::default();
    assert_eq!(report.rollup_rows, 0);
    assert_eq!(report.oidc_flow_rows, 0);
    assert_eq!(report.media_job_rows, 0);
}
