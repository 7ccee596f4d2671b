//! Durable lifecycle of asynchronous media jobs.
//!
//! A job is reserved before the upstream create, becomes active once the
//! upstream identity is attached, and is reconciled in the background until
//! it is deleted. Poll results only move the job state forward.
use vstd::prelude::*;

use vstd::string::*;

use crate::carried::{uuid_version, uuid_version_field, Timestamp};
use crate::domain::{operation_from_text, surface_from_text, OperationKind, Surface};
use crate::text::{str_eq, trim_str, trimmed};

verus! {

/// Page size ceiling of media job listings.
pub const MAX_PAGE_SIZE: u16 = 200;
pub const UNKNOWN_LIFECYCLE: &'static str = "database returned an unknown media job lifecycle";
pub const UNKNOWN_STATE: &'static str = "database returned an unknown media job state";

/// Batch ceiling of one reconciliation claim.
pub const MAX_RECONCILIATION_BATCH: u16 = 32;

/// Why a media job operation did not go through. Database failures are
/// reported by the adapter.
#[derive(Debug)]
pub enum MediaJobError {
    NotFound,
    PreconditionFailed,
    UpstreamIdentityConflict,
    Invalid(String),
}

#[derive(Clone, Copy, Debug, Eq, PartialEq, Structural)]
pub enum MediaJobLifecycle {
    Creating,
    Active,
    CreateAmbiguous,
    CreateCleanupPending,
    DeletePending,
    Deleted,
}

/// The stored text of a lifecycle.
pub open spec fn lifecycle_text(l: MediaJobLifecycle) -> Seq<char> {
    match l {
        MediaJobLifecycle::Creating => "creating"@,
        MediaJobLifecycle::Active => "active"@,
        MediaJobLifecycle::CreateAmbiguous => "create_ambiguous"@,
        MediaJobLifecycle::CreateCleanupPending => "create_cleanup_pending"@,
        MediaJobLifecycle::DeletePending => "delete_pending"@,
        MediaJobLifecycle::Deleted => "deleted"@,
    }
}

/// The lifecycle stored as `s`, if any.
pub open spec fn lifecycle_from_text(s: Seq<char>) -> Option<MediaJobLifecycle> {
    if s == "creating"@ {
        Some(MediaJobLifecycle::Creating)
    } else if s == "active"@ {
        Some(MediaJobLifecycle::Active)
    } else if s == "create_ambiguous"@ {
        Some(MediaJobLifecycle::CreateAmbiguous)
    } else if s == "create_cleanup_pending"@ {
        Some(MediaJobLifecycle::CreateCleanupPending)
    } else if s == "delete_pending"@ {
        Some(MediaJobLifecycle::DeletePending)
    } else if s == "deleted"@ {
        Some(MediaJobLifecycle::Deleted)
    } else {
        None
    }
}

/// Lifecycles in which a job still needs background reconciliation.
pub open spec fn lifecycle_needs_reconciliation(l: MediaJobLifecycle) -> bool {
    l is Creating || l is CreateAmbiguous || l is CreateCleanupPending || l is DeletePending
}

impl MediaJobLifecycle {
    pub fn as_str(self) -> (s: &'static str)
        ensures
            s@ == lifecycle_text(self),
    {
        match self {
            MediaJobLifecycle::Creating => "creating",
            MediaJobLifecycle::Active => "active",
            MediaJobLifecycle::CreateAmbiguous => "create_ambiguous",
            MediaJobLifecycle::CreateCleanupPending => "create_cleanup_pending",
            MediaJobLifecycle::DeletePending => "delete_pending",
            MediaJobLifecycle::Deleted => "deleted",
        }
    }

    /// Reads a stored lifecycle; unknown text means the row is corrupt.
    pub fn parse(value: &str) -> (r: Result<Self, MediaJobError>)
        ensures
            match lifecycle_from_text(value@) {
                Some(l) => r matches Ok(p) && p == l,
                None => r matches Err(MediaJobError::Invalid(m)) && m@ == UNKNOWN_LIFECYCLE@,
            },
    {
        if str_eq(value, "creating") {
            Ok(MediaJobLifecycle::Creating)
        } else if str_eq(value, "active") {
            Ok(MediaJobLifecycle::Active)
        } else if str_eq(value, "create_ambiguous") {
            Ok(MediaJobLifecycle::CreateAmbiguous)
        } else if str_eq(value, "create_cleanup_pending") {
            Ok(MediaJobLifecycle::CreateCleanupPending)
        } else if str_eq(value, "delete_pending") {
            Ok(MediaJobLifecycle::DeletePending)
        } else if str_eq(value, "deleted") {
            Ok(MediaJobLifecycle::Deleted)
        } else {
            Err(MediaJobError::Invalid(UNKNOWN_LIFECYCLE.to_string()))
        }
    }

    pub fn needs_reconciliation(self) -> (b: bool)
        ensures
            b == lifecycle_needs_reconciliation(self),
    {
        match self {
            MediaJobLifecycle::Creating
            | MediaJobLifecycle::CreateAmbiguous
            | MediaJobLifecycle::CreateCleanupPending
            | MediaJobLifecycle::DeletePending => true,
            _ => false,
        }
    }
}

#[derive(Clone, Copy, Debug, Eq, PartialEq, Structural)]
pub enum MediaJobState {
    Queued,
    Running,
    Succeeded,
    Failed,
    Cancelled,
}

pub open spec fn state_text(s: MediaJobState) -> Seq<char> {
    match s {
        MediaJobState::Queued => "queued"@,
        MediaJobState::Running => "running"@,
        MediaJobState::Succeeded => "succeeded"@,
        MediaJobState::Failed => "failed"@,
        MediaJobState::Cancelled => "cancelled"@,
    }
}

pub open spec fn state_from_text(s: Seq<char>) -> Option<MediaJobState> {
    if s == "queued"@ {
        Some(MediaJobState::Queued)
    } else if s == "running"@ {
        Some(MediaJobState::Running)
    } else if s == "succeeded"@ {
        Some(MediaJobState::Succeeded)
    } else if s == "failed"@ {
        Some(MediaJobState::Failed)
    } else if s == "cancelled"@ {
        Some(MediaJobState::Cancelled)
    } else {
        None
    }
}

impl MediaJobState {
    pub fn as_str(self) -> (s: &'static str)
        ensures
            s@ == state_text(self),
    {
        match self {
            MediaJobState::Queued => "queued",
            MediaJobState::Running => "running",
            MediaJobState::Succeeded => "succeeded",
            MediaJobState::Failed => "failed",
            MediaJobState::Cancelled => "cancelled",
        }
    }

    /// Reads a stored state; unknown text means the row is corrupt.
    pub fn parse(value: &str) -> (r: Result<Self, MediaJobError>)
        ensures
            match state_from_text(value@) {
                Some(s) => r matches Ok(p) && p == s,
                None => r matches Err(MediaJobError::Invalid(m)) && m@ == UNKNOWN_STATE@,
            },
    {
        if str_eq(value, "queued") {
            Ok(MediaJobState::Queued)
        } else if str_eq(value, "running") {
            Ok(MediaJobState::Running)
        } else if str_eq(value, "succeeded") {
            Ok(MediaJobState::Succeeded)
        } else if str_eq(value, "failed") {
            Ok(MediaJobState::Failed)
        } else if str_eq(value, "cancelled") {
            Ok(MediaJobState::Cancelled)
        } else {
            Err(MediaJobError::Invalid(UNKNOWN_STATE.to_string()))
        }
    }
}

/// A lifecycle or state read back from its stored text is the one stored.
pub proof fn lifecycle_text_round_trip(l: MediaJobLifecycle)
    ensures
        lifecycle_from_text(lifecycle_text(l)) == Some(l),
{
    match l {
        MediaJobLifecycle::Creating => {
            reveal_strlit("creating");
        },
        MediaJobLifecycle::Active => {
            reveal_strlit("active");
            reveal_strlit("creating");
            assert("active"@.len() != "creating"@.len());
        },
        MediaJobLifecycle::CreateAmbiguous => {
            reveal_strlit("create_ambiguous");
            reveal_strlit("creating");
            assert("create_ambiguous"@.len() != "creating"@.len());
            reveal_strlit("active");
            assert("create_ambiguous"@.len() != "active"@.len());
        },
        MediaJobLifecycle::CreateCleanupPending => {
            reveal_strlit("create_cleanup_pending");
            reveal_strlit("creating");
            assert("create_cleanup_pending"@.len() != "creating"@.len());
            reveal_strlit("active");
            assert("create_cleanup_pending"@.len() != "active"@.len());
            reveal_strlit("create_ambiguous");
            assert("create_cleanup_pending"@.len() != "create_ambiguous"@.len());
        },
        MediaJobLifecycle::DeletePending => {
            reveal_strlit("delete_pending");
            reveal_strlit("creating");
            assert("delete_pending"@.len() != "creating"@.len());
            reveal_strlit("active");
            assert("delete_pending"@.len() != "active"@.len());
            reveal_strlit("create_ambiguous");
            assert("delete_pending"@.len() != "create_ambiguous"@.len());
            reveal_strlit("create_cleanup_pending");
            assert("delete_pending"@.len() != "create_cleanup_pending"@.len());
        },
        MediaJobLifecycle::Deleted => {
            reveal_strlit("deleted");
            reveal_strlit("creating");
            assert("deleted"@.len() != "creating"@.len());
            reveal_strlit("active");
            assert("deleted"@.len() != "active"@.len());
            reveal_strlit("create_ambiguous");
            assert("deleted"@.len() != "create_ambiguous"@.len());
            reveal_strlit("create_cleanup_pending");
            assert("deleted"@.len() != "create_cleanup_pending"@.len());
            reveal_strlit("delete_pending");
            assert("deleted"@.len() != "delete_pending"@.len());
        },
    }
}

pub proof fn state_text_round_trip(s: MediaJobState)
    ensures
        state_from_text(state_text(s)) == Some(s),
{
    match s {
        MediaJobState::Queued => {
            reveal_strlit("queued");
        },
        MediaJobState::Running => {
            reveal_strlit("running");
            reveal_strlit("queued");
            assert("running"@.len() != "queued"@.len());
        },
        MediaJobState::Succeeded => {
            reveal_strlit("succeeded");
            reveal_strlit("queued");
            assert("succeeded"@.len() != "queued"@.len());
            reveal_strlit("running");
            assert("succeeded"@.len() != "running"@.len());
        },
        MediaJobState::Failed => {
            reveal_strlit("failed");
            reveal_strlit("queued");
            assert("failed"@[0] != "queued"@[0]);
            reveal_strlit("running");
            assert("failed"@.len() != "running"@.len());
            reveal_strlit("succeeded");
            assert("failed"@.len() != "succeeded"@.len());
        },
        MediaJobState::Cancelled => {
            reveal_strlit("cancelled");
            reveal_strlit("queued");
            assert("cancelled"@.len() != "queued"@.len());
            reveal_strlit("running");
            assert("cancelled"@.len() != "running"@.len());
            reveal_strlit("succeeded");
            assert("cancelled"@[0] != "succeeded"@[0]);
            reveal_strlit("failed");
            assert("cancelled"@.len() != "failed"@.len());
        },
    }
}

/// Whether a state is final: succeeded, failed or cancelled.
pub open spec fn terminal_state(s: MediaJobState) -> bool {
    s is Succeeded || s is Failed || s is Cancelled
}

/// The progress order of states: queued, then running, then a final state.
pub open spec fn state_rank(s: MediaJobState) -> int {
    match s {
        MediaJobState::Queued => 0,
        MediaJobState::Running => 1,
        _ => 2,
    }
}

/// A poll result may move a queued job anywhere and a running job to anything
/// but queued; a final state can only be confirmed, never changed.
pub open spec fn refresh_transition_allowed(current: MediaJobState, incoming: MediaJobState) -> bool {
    match current {
        MediaJobState::Queued => true,
        MediaJobState::Running => !(incoming is Queued),
        MediaJobState::Succeeded => incoming is Succeeded,
        MediaJobState::Failed => incoming is Failed,
        MediaJobState::Cancelled => incoming is Cancelled,
    }
}

pub fn allows_refresh_transition(current: MediaJobState, incoming: MediaJobState) -> (b: bool)
    ensures
        b == refresh_transition_allowed(current, incoming),
{
    match current {
        MediaJobState::Queued => true,
        MediaJobState::Running => !matches!(incoming, MediaJobState::Queued),
        MediaJobState::Succeeded => matches!(incoming, MediaJobState::Succeeded),
        MediaJobState::Failed => matches!(incoming, MediaJobState::Failed),
        MediaJobState::Cancelled => matches!(incoming, MediaJobState::Cancelled),
    }
}

/// Refreshes never regress a job and never change a final outcome.
pub proof fn refresh_never_regresses(current: MediaJobState, incoming: MediaJobState)
    requires
        refresh_transition_allowed(current, incoming),
    ensures
        state_rank(current) <= state_rank(incoming),
        terminal_state(current) ==> incoming == current,
{
}

/// Whether a poll result is written: it must not be older than the last
/// applied poll and its state change must be allowed. Times are in
/// microseconds since the Unix epoch.
pub open spec fn refresh_applies(
    current: MediaJobState,
    current_last_polled_at: Option<i64>,
    incoming: MediaJobState,
    incoming_polled_at: i64,
) -> bool {
    let stale = match current_last_polled_at {
        Some(last) => last > incoming_polled_at,
        None => false,
    };
    !stale && refresh_transition_allowed(current, incoming)
}

pub fn should_apply_refresh(
    current: MediaJobState,
    current_last_polled_at: Option<i64>,
    incoming: MediaJobState,
    incoming_polled_at: i64,
) -> (b: bool)
    ensures
        b == refresh_applies(current, current_last_polled_at, incoming, incoming_polled_at),
{
    let stale = match current_last_polled_at {
        Some(last) => last > incoming_polled_at,
        None => false,
    };
    !stale && allows_refresh_transition(current, incoming)
}

pub const CONTENT_REQUIRES_SUCCESS: &'static str = "content is available only for a succeeded job";
pub const ERROR_CLASS_REQUIRES_FAILURE: &'static str = "an error class is valid only for a failed job";

/// The first inconsistency between a poll result's state and its payload.
pub open spec fn update_defect(
    state: MediaJobState,
    content_available: bool,
    has_error_class: bool,
) -> Option<Seq<char>> {
    if content_available && !(state is Succeeded) {
        Some(CONTENT_REQUIRES_SUCCESS@)
    } else if has_error_class && !(state is Failed) {
        Some(ERROR_CLASS_REQUIRES_FAILURE@)
    } else {
        None
    }
}

/// Checks that content is reported only for a succeeded job and an error
/// class only for a failed one. The progress percentage is checked by the
/// adapter.
pub fn validate_update_outcome(
    state: MediaJobState,
    content_available: bool,
    error_class: &Option<String>,
) -> (r: Result<(), MediaJobError>)
    ensures
        match update_defect(state, content_available, error_class is Some) {
            Some(m) => r matches Err(MediaJobError::Invalid(msg)) && msg@ == m,
            None => r is Ok,
        },
{
    if content_available && !matches!(state, MediaJobState::Succeeded) {
        return Err(MediaJobError::Invalid(CONTENT_REQUIRES_SUCCESS.to_string()));
    }
    if error_class.is_some() && !matches!(state, MediaJobState::Failed) {
        return Err(MediaJobError::Invalid(ERROR_CLASS_REQUIRES_FAILURE.to_string()));
    }
    Ok(())
}

/// The stored fields of a job that a poll result refreshes. The progress
/// percentage is a float and is merged by the adapter: the larger of the
/// stored and the polled value.
#[derive(Clone, Debug)]
pub struct MediaJobPollState {
    pub state: MediaJobState,
    pub content_available: bool,
    pub expires_at: Option<Timestamp>,
    pub error_class: Option<String>,
    pub last_polled_at: Option<Timestamp>,
}

/// What one poll of the upstream job reported, apart from its progress.
#[derive(Clone, Debug)]
pub struct MediaJobPoll {
    pub state: MediaJobState,
    pub content_available: bool,
    pub expires_at: Option<Timestamp>,
    pub error_class: Option<String>,
    pub last_polled_at: Timestamp,
}

/// Whether the poll is written over the stored job.
pub open spec fn poll_applies(current: MediaJobPollState, poll: MediaJobPoll) -> bool {
    refresh_applies(
        current.state,
        match current.last_polled_at {
            Some(t) => Some(t.micros),
            None => None,
        },
        poll.state,
        poll.last_polled_at.micros,
    )
}

/// The job after a poll is written: the polled state; content, once
/// available, stays available; an expiry or error class that the poll does
/// not report keeps its stored value; the poll time is recorded.
pub open spec fn poll_merged(current: MediaJobPollState, poll: MediaJobPoll) -> MediaJobPollState {
    MediaJobPollState {
        state: poll.state,
        content_available: current.content_available || poll.content_available,
        expires_at: if poll.expires_at is Some {
            poll.expires_at
        } else {
            current.expires_at
        },
        error_class: if poll.error_class is Some {
            poll.error_class
        } else {
            current.error_class
        },
        last_polled_at: Some(poll.last_polled_at),
    }
}

/// Refreshes a job with a poll result: an inconsistent result is refused; a
/// stale result, or one that would move the job backward or change a final
/// outcome, leaves the job as it is; otherwise the result is merged in.
pub fn refresh_poll_state(current: MediaJobPollState, poll: MediaJobPoll) -> (r: Result<
    MediaJobPollState,
    MediaJobError,
>)
    ensures
        match update_defect(poll.state, poll.content_available, poll.error_class is Some) {
            Some(m) => r matches Err(MediaJobError::Invalid(msg)) && msg@ == m,
            None => r matches Ok(s) && s == if poll_applies(current, poll) {
                poll_merged(current, poll)
            } else {
                current
            },
        },
{
    match validate_update_outcome(poll.state, poll.content_available, &poll.error_class) {
        Ok(()) => {},
        Err(e) => {
            return Err(e);
        },
    }
    let current_polled = match current.last_polled_at {
        Some(t) => Some(t.micros),
        None => None,
    };
    if !should_apply_refresh(current.state, current_polled, poll.state, poll.last_polled_at.micros) {
        return Ok(current);
    }
    let expires_at = match poll.expires_at {
        Some(t) => Some(t),
        None => current.expires_at,
    };
    let error_class = match poll.error_class {
        Some(c) => Some(c),
        None => current.error_class,
    };
    Ok(
        MediaJobPollState {
            state: poll.state,
            content_available: current.content_available || poll.content_available,
            expires_at,
            error_class,
            last_polled_at: Some(poll.last_polled_at),
        },
    )
}

/// A poll that keeps a job where it is or moves it forward, and does not
/// change a final outcome, is allowed: in particular a job is always allowed
/// to stay queued or running, and to finish.
pub proof fn forward_polls_are_allowed(current: MediaJobState, incoming: MediaJobState)
    requires
        state_rank(current) <= state_rank(incoming),
        terminal_state(current) ==> incoming == current,
    ensures
        refresh_transition_allowed(current, incoming),
{
}

/// A poll no older than the last one applied, which keeps the job's state or
/// moves it forward without changing a final outcome, is written: the job
/// takes the polled state and records the poll time.
pub proof fn fresh_forward_poll_is_written(current: MediaJobPollState, poll: MediaJobPoll)
    requires
        current.last_polled_at matches Some(t) ==> t.micros <= poll.last_polled_at.micros,
        state_rank(current.state) <= state_rank(poll.state),
        terminal_state(current.state) ==> poll.state == current.state,
    ensures
        poll_applies(current, poll),
        poll_merged(current, poll).state == poll.state,
        poll_merged(current, poll).last_polled_at == Some(poll.last_polled_at),
{
    forward_polls_are_allowed(current.state, poll.state);
}

/// A written poll never moves a job backward, and a final outcome is never
/// replaced.
pub proof fn poll_never_regresses(current: MediaJobPollState, poll: MediaJobPoll)
    requires
        poll_applies(current, poll),
    ensures
        state_rank(current.state) <= state_rank(poll_merged(current, poll).state),
        terminal_state(current.state) ==> poll_merged(current, poll).state == current.state,
        current.content_available ==> poll_merged(current, poll).content_available,
{
}

pub const UPSTREAM_ID_EMPTY: &'static str = "upstream job ID cannot be empty";

/// An upstream job ID must not be blank.
pub fn validate_upstream_job_id(upstream_job_id: &str) -> (r: Result<(), MediaJobError>)
    ensures
        trimmed(upstream_job_id@).len() == 0 ==> (r matches Err(MediaJobError::Invalid(msg))
            && msg@ == UPSTREAM_ID_EMPTY@),
        trimmed(upstream_job_id@).len() != 0 ==> r is Ok,
{
    if trim_str(upstream_job_id).unicode_len() == 0 {
        Err(MediaJobError::Invalid(UPSTREAM_ID_EMPTY.to_string()))
    } else {
        Ok(())
    }
}

/// The lifecycle moves the store makes.
#[derive(Clone, Copy, Debug, Eq, PartialEq, Structural)]
pub enum LifecycleEvent {
    /// The upstream create returned a job ID.
    AttachUpstream,
    /// The upstream create's outcome is unknown.
    MarkCreateAmbiguous,
    /// The upstream job exists but must be cleaned up.
    MarkCreateCleanupPending,
    /// A client asked for deletion.
    BeginDeletion,
    /// The upstream provider accepted the deletion.
    FinalizeDeletion,
}

/// The lifecycle a job moves to on an event, when the event applies to its
/// current lifecycle.
pub open spec fn lifecycle_step(current: MediaJobLifecycle, event: LifecycleEvent) -> Option<
    MediaJobLifecycle,
> {
    match event {
        LifecycleEvent::AttachUpstream => if current is Creating || current is CreateAmbiguous {
            Some(MediaJobLifecycle::Active)
        } else {
            None
        },
        LifecycleEvent::MarkCreateAmbiguous => if current is Creating || current is CreateAmbiguous {
            Some(MediaJobLifecycle::CreateAmbiguous)
        } else {
            None
        },
        LifecycleEvent::MarkCreateCleanupPending => if current is Creating || current
            is CreateAmbiguous || current is CreateCleanupPending {
            Some(MediaJobLifecycle::CreateCleanupPending)
        } else {
            None
        },
        LifecycleEvent::BeginDeletion => if current is Active {
            Some(MediaJobLifecycle::DeletePending)
        } else {
            None
        },
        LifecycleEvent::FinalizeDeletion => if lifecycle_needs_reconciliation(current) {
            Some(MediaJobLifecycle::Deleted)
        } else {
            None
        },
    }
}

pub fn lifecycle_transition(current: MediaJobLifecycle, event: LifecycleEvent) -> (next: Option<
    MediaJobLifecycle,
>)
    ensures
        next == lifecycle_step(current, event),
{
    match event {
        LifecycleEvent::AttachUpstream => match current {
            MediaJobLifecycle::Creating | MediaJobLifecycle::CreateAmbiguous => Some(
                MediaJobLifecycle::Active,
            ),
            _ => None,
        },
        LifecycleEvent::MarkCreateAmbiguous => match current {
            MediaJobLifecycle::Creating | MediaJobLifecycle::CreateAmbiguous => Some(
                MediaJobLifecycle::CreateAmbiguous,
            ),
            _ => None,
        },
        LifecycleEvent::MarkCreateCleanupPending => match current {
            MediaJobLifecycle::Creating
            | MediaJobLifecycle::CreateAmbiguous
            | MediaJobLifecycle::CreateCleanupPending => Some(
                MediaJobLifecycle::CreateCleanupPending,
            ),
            _ => None,
        },
        LifecycleEvent::BeginDeletion => match current {
            MediaJobLifecycle::Active => Some(MediaJobLifecycle::DeletePending),
            _ => None,
        },
        LifecycleEvent::FinalizeDeletion => if current.needs_reconciliation() {
            Some(MediaJobLifecycle::Deleted)
        } else {
            None
        },
    }
}

/// The lifecycles an event applies to, in the order the store lists them in
/// its conditional update.
pub fn event_sources(event: LifecycleEvent) -> (sources: Vec<MediaJobLifecycle>)
    ensures
        forall|l: MediaJobLifecycle| sources@.contains(l) <==> lifecycle_step(l, event) is Some,
{
    let v = match event {
        LifecycleEvent::AttachUpstream | LifecycleEvent::MarkCreateAmbiguous => vec![
            MediaJobLifecycle::Creating,
            MediaJobLifecycle::CreateAmbiguous,
        ],
        LifecycleEvent::MarkCreateCleanupPending => vec![
            MediaJobLifecycle::Creating,
            MediaJobLifecycle::CreateAmbiguous,
            MediaJobLifecycle::CreateCleanupPending,
        ],
        LifecycleEvent::BeginDeletion => vec![MediaJobLifecycle::Active],
        LifecycleEvent::FinalizeDeletion => vec![
            MediaJobLifecycle::Creating,
            MediaJobLifecycle::CreateAmbiguous,
            MediaJobLifecycle::CreateCleanupPending,
            MediaJobLifecycle::DeletePending,
        ],
    };
    proof {
        assert forall|l: MediaJobLifecycle| v@.contains(l) <==> lifecycle_step(l, event) is Some by {
            if lifecycle_step(l, event) is Some {
                match l {
                    MediaJobLifecycle::Creating => assert(v@[0] == l),
                    MediaJobLifecycle::CreateAmbiguous => assert(v@[1] == l),
                    MediaJobLifecycle::CreateCleanupPending => assert(v@[2] == l),
                    MediaJobLifecycle::DeletePending => assert(v@[3] == l),
                    MediaJobLifecycle::Active => assert(v@[0] == l),
                    MediaJobLifecycle::Deleted => {},
                }
            }
        }
    }
    v
}

/// A deleted job is a tombstone: no event moves it again.
pub proof fn deleted_is_final(event: LifecycleEvent)
    ensures
        lifecycle_step(MediaJobLifecycle::Deleted, event) is None,
{
}

/// Only attaching the upstream identity makes a job active, and an active
/// job leaves that lifecycle only through a deletion request.
pub proof fn active_only_through_attach(current: MediaJobLifecycle, event: LifecycleEvent)
    ensures
        lifecycle_step(current, event) == Some(MediaJobLifecycle::Active) ==> event
            is AttachUpstream,
        current is Active && lifecycle_step(current, event) is Some ==> event is BeginDeletion,
{
}

/// Every move but attaching and finalizing leaves the job in a lifecycle that
/// the background reconciler picks up.
pub proof fn pending_moves_are_reconciled(current: MediaJobLifecycle, event: LifecycleEvent)
    requires
        lifecycle_step(current, event) is Some,
        !(event is AttachUpstream),
        !(event is FinalizeDeletion),
    ensures
        lifecycle_needs_reconciliation(lifecycle_step(current, event).unwrap()),
{
}

/// When the attaching update matched no row, a retry of the same attach is
/// still a success if the job is already active with this exact upstream ID.
pub fn attach_already_applied(
    lifecycle: MediaJobLifecycle,
    current_upstream_job_id: Option<&str>,
    upstream_job_id: &str,
) -> (r: Result<(), MediaJobError>)
    ensures
        r is Ok <==> (lifecycle is Active && (current_upstream_job_id matches Some(id) && id@
            == upstream_job_id@)),
        r is Err ==> r matches Err(MediaJobError::PreconditionFailed),
{
    let same = match current_upstream_job_id {
        Some(id) => str_eq(id, upstream_job_id),
        None => false,
    };
    if matches!(lifecycle, MediaJobLifecycle::Active) && same {
        Ok(())
    } else {
        Err(MediaJobError::PreconditionFailed)
    }
}

/// A deletion request succeeds when it moved the job, or when the job was
/// already pending deletion or deleted; repeated requests see the same
/// tombstone.
pub fn deletion_request_outcome(rows_affected: u64, lifecycle: MediaJobLifecycle) -> (r: Result<
    (),
    MediaJobError,
>)
    ensures
        r is Ok <==> (rows_affected == 1 || lifecycle is DeletePending || lifecycle is Deleted),
        r is Err ==> r matches Err(MediaJobError::PreconditionFailed),
{
    if rows_affected == 1 || matches!(
        lifecycle,
        MediaJobLifecycle::DeletePending | MediaJobLifecycle::Deleted
    ) {
        Ok(())
    } else {
        Err(MediaJobError::PreconditionFailed)
    }
}

/// A conditional update that matched no row failed its precondition when the
/// job exists and names a missing job otherwise.
pub fn missing_or_changed(exists: bool) -> (e: MediaJobError)
    ensures
        exists ==> e is PreconditionFailed,
        !exists ==> e is NotFound,
{
    if exists {
        MediaJobError::PreconditionFailed
    } else {
        MediaJobError::NotFound
    }
}

pub const RECONCILIATION_ERROR_CLASS_INVALID: &'static str = "reconciliation error class must contain 1-120 bytes";

/// A reconciliation error class, when given, has 1 to 120 bytes.
pub fn validate_reconciliation_error_class(error_class: Option<&str>) -> (r: Result<(), MediaJobError>)
    ensures
        (error_class matches Some(c) && (c.spec_bytes().len() == 0 || c.spec_bytes().len() > 120))
            ==> (r matches Err(MediaJobError::Invalid(m)) && m@ == RECONCILIATION_ERROR_CLASS_INVALID@),
        !(error_class matches Some(c) && (c.spec_bytes().len() == 0 || c.spec_bytes().len() > 120))
            ==> r is Ok,
{
    match error_class {
        Some(c) => {
            let n = c.as_bytes().len();
            if n == 0 || n > 120 {
                Err(MediaJobError::Invalid(RECONCILIATION_ERROR_CLASS_INVALID.to_string()))
            } else {
                Ok(())
            }
        },
        None => Ok(()),
    }
}

/// Clamps a requested page size into 1..=maximum.
pub fn clamp_limit(limit: u16, maximum: u16) -> (r: u16)
    requires
        maximum >= 1,
    ensures
        r == if limit < 1 {
            1
        } else if limit > maximum {
            maximum
        } else {
            limit
        },
{
    if limit < 1 {
        1
    } else if limit > maximum {
        maximum
    } else {
        limit
    }
}

#[derive(Clone, Copy, Debug, Eq, PartialEq, Structural)]
pub enum MediaJobOrder {
    Ascending,
    Descending,
}

/// Counts of one background reconciliation pass.
#[derive(Clone, Debug, Default, Eq, PartialEq, Structural)]
pub struct MediaReconciliationPass {
    pub claimed: u16,
    pub completed: u16,
    pub failed: u16,
}

pub const RESERVATION_INCOMPLETE: &'static str =
    "reservation ID, provider model, route, and operation are required";

/// A reservation carries a time-ordered (version 7) ID, and a provider model
/// and a route that are not blank. The ID is given as its 128-bit value.
pub fn validate_reservation(id: u128, provider_model: &str, route_slug: &str) -> (r: Result<
    (),
    MediaJobError,
>)
    ensures
        (uuid_version_field(id) == 7 && trimmed(provider_model@).len() > 0 && trimmed(
            route_slug@,
        ).len() > 0) ==> r is Ok,
        !(uuid_version_field(id) == 7 && trimmed(provider_model@).len() > 0 && trimmed(
            route_slug@,
        ).len() > 0) ==> (r matches Err(MediaJobError::Invalid(m)) && m@
            == RESERVATION_INCOMPLETE@),
{
    if uuid_version(id) != 7 || trim_str(provider_model).unicode_len() == 0 || trim_str(
        route_slug,
    ).unicode_len() == 0 {
        return Err(MediaJobError::Invalid(RESERVATION_INCOMPLETE.to_string()));
    }
    Ok(())
}

/// The labels of a stored media job, read back from their stored text.
#[derive(Clone, Copy, Debug, Eq, PartialEq, Structural)]
pub struct MediaJobLabels {
    pub operation: OperationKind,
    pub surface: Surface,
    pub state: MediaJobState,
    pub lifecycle: MediaJobLifecycle,
    pub reconciliation_attempts: u32,
}

pub const UNKNOWN_OPERATION: &'static str = "database returned an unknown operation";
pub const UNKNOWN_SURFACE: &'static str = "database returned an unknown surface";
pub const ATTEMPTS_INVALID: &'static str = "reconciliation attempt count is invalid";

/// Reads the labels of a stored media job in the order the row is read:
/// operation, surface, state, lifecycle, then the attempt count, which must
/// not be negative. The first that fails decides the error.
pub fn media_job_labels(
    operation: &str,
    surface: &str,
    state: &str,
    lifecycle: &str,
    attempts: i32,
) -> (r: Result<MediaJobLabels, MediaJobError>)
    ensures
        operation_from_text(operation@) is None ==> (r matches Err(MediaJobError::Invalid(m)) && m@
            == UNKNOWN_OPERATION@),
        operation_from_text(operation@) is Some && surface_from_text(surface@) is None ==> (
        r matches Err(MediaJobError::Invalid(m)) && m@ == UNKNOWN_SURFACE@),
        operation_from_text(operation@) is Some && surface_from_text(surface@) is Some
            && state_from_text(state@) is None ==> (r matches Err(MediaJobError::Invalid(m)) && m@
            == UNKNOWN_STATE@),
        operation_from_text(operation@) is Some && surface_from_text(surface@) is Some
            && state_from_text(state@) is Some && lifecycle_from_text(lifecycle@) is None
            ==> (r matches Err(MediaJobError::Invalid(m)) && m@ == UNKNOWN_LIFECYCLE@),
        operation_from_text(operation@) is Some && surface_from_text(surface@) is Some
            && state_from_text(state@) is Some && lifecycle_from_text(lifecycle@) is Some
            && attempts < 0 ==> (r matches Err(MediaJobError::Invalid(m)) && m@
            == ATTEMPTS_INVALID@),
        operation_from_text(operation@) is Some && surface_from_text(surface@) is Some
            && state_from_text(state@) is Some && lifecycle_from_text(lifecycle@) is Some
            && attempts >= 0 ==> r == Ok::<MediaJobLabels, MediaJobError>(
            MediaJobLabels {
                operation: operation_from_text(operation@)->0,
                surface: surface_from_text(surface@)->0,
                state: state_from_text(state@)->0,
                lifecycle: lifecycle_from_text(lifecycle@)->0,
                reconciliation_attempts: attempts as u32,
            },
        ),
{
    let operation = match OperationKind::parse(operation) {
        Some(o) => o,
        None => {
            return Err(MediaJobError::Invalid(UNKNOWN_OPERATION.to_string()));
        },
    };
    let surface = match Surface::parse(surface) {
        Some(s) => s,
        None => {
            return Err(MediaJobError::Invalid(UNKNOWN_SURFACE.to_string()));
        },
    };
    let state = MediaJobState::parse(state)?;
    let lifecycle = MediaJobLifecycle::parse(lifecycle)?;
    if attempts < 0 {
        return Err(MediaJobError::Invalid(ATTEMPTS_INVALID.to_string()));
    }
    Ok(
        MediaJobLabels {
            operation,
            surface,
            state,
            lifecycle,
            reconciliation_attempts: attempts as u32,
        },
    )
}

} // verus!
