use olp_storage::domain::{OperationKind, Surface};
use olp_storage::carried::Timestamp;
use olp_storage::media_jobs::{
    refresh_poll_state, MediaJobPoll, MediaJobPollState,
    allows_refresh_transition, media_job_labels, validate_reservation, MediaJobError,
    MediaJobLabels, MediaJobLifecycle, MediaJobState,
};

#[test]
fn refresh_transitions_never_regress_or_change_terminal_outcomes() {
    assert!(allows_refresh_transition(
        MediaJobState::Queued,
        MediaJobState::Succeeded
    ));
    assert!(!allows_refresh_transition(
        MediaJobState::Running,
        MediaJobState::Queued
    ));
    assert!(!allows_refresh_transition(
        MediaJobState::Succeeded,
        MediaJobState::Running
    ));
    assert!(!allows_refresh_transition(
        MediaJobState::Failed,
        MediaJobState::Cancelled
    ));
    assert!(MediaJobLifecycle::Creating.needs_reconciliation());
    assert!(MediaJobLifecycle::DeletePending.needs_reconciliation());
    assert!(!MediaJobLifecycle::Active.needs_reconciliation());
    assert!(!MediaJobLifecycle::Deleted.needs_reconciliation());
}

const V7_ID: u128 = 0x0190_163d_8694_739b_aea5_966c_26f8_ad91;
const V4_ID: u128 = 0x9b2c_8f4e_1d3a_4c5b_8e7f_0a1b_2c3d_4e5f;

fn invalid_message(result: Result<(), MediaJobError>) -> String {
    match result {
        Err(MediaJobError::Invalid(message)) => message,
        other => panic!("expected an invalid reservation, got {other:?}"),
    }
}

#[test]
fn reservations_need_a_time_ordered_id_a_model_and_a_route() {
    assert!(validate_reservation(V7_ID, "sora-2", "video").is_ok());
    let expected = "reservation ID, provider model, route, and operation are required";
    assert_eq!(invalid_message(validate_reservation(V4_ID, "sora-2", "video")), expected);
    assert_eq!(invalid_message(validate_reservation(V7_ID, "  ", "video")), expected);
    assert_eq!(invalid_message(validate_reservation(V7_ID, "sora-2", "")), expected);
}

#[test]
fn stored_media_job_labels_are_read_back_or_reported() {
    assert_eq!(
        media_job_labels("video_get", "openai", "running", "active", 3).unwrap(),
        MediaJobLabels {
            operation: OperationKind::VideoGet,
            surface: Surface::OpenAi,
            state: MediaJobState::Running,
            lifecycle: MediaJobLifecycle::Active,
            reconciliation_attempts: 3,
        }
    );
    let message = |result: Result<MediaJobLabels, MediaJobError>| match result {
        Err(MediaJobError::Invalid(message)) => message,
        other => panic!("expected an invalid row, got {other:?}"),
    };
    assert_eq!(
        message(media_job_labels("teleport", "openai", "running", "active", 0)),
        "database returned an unknown operation"
    );
    assert_eq!(
        message(media_job_labels("video_get", "smoke", "running", "active", 0)),
        "database returned an unknown surface"
    );
    assert!(matches!(
        media_job_labels("video_get", "openai", "paused", "active", 0),
        Err(MediaJobError::Invalid(_))
    ));
    assert!(matches!(
        media_job_labels("video_get", "openai", "running", "dormant", 0),
        Err(MediaJobError::Invalid(_))
    ));
    assert_eq!(
        message(media_job_labels("video_get", "openai", "running", "active", -1)),
        "reconciliation attempt count is invalid"
    );
}

fn stored(state: MediaJobState, polled: Option<i64>) -> MediaJobPollState {
    MediaJobPollState {
        state,
        content_available: false,
        expires_at: Some(Timestamp { micros: 50 }),
        error_class: None,
        last_polled_at: polled.map(|micros| Timestamp { micros }),
    }
}

fn poll(state: MediaJobState, at: i64) -> MediaJobPoll {
    MediaJobPoll {
        state,
        content_available: matches!(state, MediaJobState::Succeeded),
        expires_at: None,
        error_class: None,
        last_polled_at: Timestamp { micros: at },
    }
}

#[test]
fn polls_merge_forward_and_leave_stale_results_out() {
    let merged = refresh_poll_state(stored(MediaJobState::Running, Some(10)), poll(MediaJobState::Succeeded, 20)).unwrap();
    assert_eq!(merged.state, MediaJobState::Succeeded);
    assert!(merged.content_available);
    assert_eq!(merged.expires_at, Some(Timestamp { micros: 50 }));
    assert_eq!(merged.last_polled_at, Some(Timestamp { micros: 20 }));

    let stale = refresh_poll_state(stored(MediaJobState::Running, Some(30)), poll(MediaJobState::Succeeded, 20)).unwrap();
    assert_eq!(stale.state, MediaJobState::Running);
    assert_eq!(stale.last_polled_at, Some(Timestamp { micros: 30 }));

    let backward = refresh_poll_state(stored(MediaJobState::Running, None), poll(MediaJobState::Queued, 20)).unwrap();
    assert_eq!(backward.state, MediaJobState::Running);
    assert_eq!(backward.last_polled_at, None);

    let mut inconsistent = poll(MediaJobState::Running, 20);
    inconsistent.error_class = Some("timeout".to_owned());
    assert!(matches!(
        refresh_poll_state(stored(MediaJobState::Running, None), inconsistent),
        Err(MediaJobError::Invalid(m)) if m == "an error class is valid only for a failed job"
    ));
}
