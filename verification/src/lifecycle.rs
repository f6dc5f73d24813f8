//! Lifecycle decisions of the SQL generation repository: which side effects
//! a persistence plan asks for, when a provider task is polled, how its
//! dispatch status is recorded, and the bounds the background worker applies.
use vstd::prelude::*;

use crate::generation::ImageGenerationRuntimeStatus;
use crate::text::{text_eq, trim_nonblank, trimmed_nonblank};

verus! {

/// A generation whose provider task is still running is polled again.
pub open spec fn poll_due_spec(status: ImageGenerationRuntimeStatus) -> bool {
    match status {
        ImageGenerationRuntimeStatus::Queued => true,
        ImageGenerationRuntimeStatus::Dispatching => true,
        ImageGenerationRuntimeStatus::Submitted => true,
        ImageGenerationRuntimeStatus::Rendering => true,
        ImageGenerationRuntimeStatus::CancelRequested => true,
        _ => false,
    }
}

/// Whether the provider task of a generation in this status is due for
/// polling.
pub fn provider_poll_due(status: ImageGenerationRuntimeStatus) -> (r: bool)
    ensures
        r == poll_due_spec(status),
{
    match status {
        ImageGenerationRuntimeStatus::Queued => true,
        ImageGenerationRuntimeStatus::Dispatching => true,
        ImageGenerationRuntimeStatus::Submitted => true,
        ImageGenerationRuntimeStatus::Rendering => true,
        ImageGenerationRuntimeStatus::CancelRequested => true,
        _ => false,
    }
}

/// The dispatch status recorded for a provider task: running tasks are
/// rendering, failed, cancelled and expired ones failed, the rest completed.
pub open spec fn dispatch_status_spec(status: ImageGenerationRuntimeStatus) -> Seq<char> {
    if poll_due_spec(status) {
        "rendering"@
    } else if status == ImageGenerationRuntimeStatus::Failed || status
        == ImageGenerationRuntimeStatus::Cancelled || status == ImageGenerationRuntimeStatus::Expired {
        "failed"@
    } else {
        "completed"@
    }
}

/// The dispatch status recorded for a provider task.
pub fn dispatch_status_for_runtime(status: ImageGenerationRuntimeStatus) -> (s: &'static str)
    ensures
        s@ == dispatch_status_spec(status),
{
    if provider_poll_due(status) {
        "rendering"
    } else if status == ImageGenerationRuntimeStatus::Failed || status
        == ImageGenerationRuntimeStatus::Cancelled || status == ImageGenerationRuntimeStatus::Expired {
        "failed"
    } else {
        "completed"
    }
}

/// A task that is polled is never recorded as finished, and a finished task
/// is never polled.
pub proof fn lemma_polled_tasks_are_rendering(status: ImageGenerationRuntimeStatus)
    ensures
        poll_due_spec(status) <==> dispatch_status_spec(status) == "rendering"@,
{
    reveal_strlit("rendering");
    reveal_strlit("failed");
    reveal_strlit("completed");
    if !poll_due_spec(status) {
        assert(dispatch_status_spec(status) != "rendering"@) by {
            let d = dispatch_status_spec(status);
            assert(d[0] != 'r');
        }
    }
}

/// A side effect of persisting a generation.
#[derive(Clone, Copy, Debug, PartialEq, Eq, Structural)]
pub enum LifecycleStep {
    MarkProviderSubmitted,
    UpsertProviderTask,
    MarkGenerationFailed,
    EnqueueNotifications,
}

/// The persistence plan names a repository method.
pub open spec fn names_method(methods: Seq<String>, name: Seq<char>) -> bool {
    exists|i: int| 0 <= i < methods.len() && #[trigger] methods[i]@ == name
}

/// The side effects a persistence plan asks for, in the order they run.
pub open spec fn lifecycle_steps_spec(methods: Seq<String>) -> Seq<LifecycleStep> {
    let a = if names_method(methods, "mark_provider_submitted"@) {
        seq![LifecycleStep::MarkProviderSubmitted]
    } else {
        Seq::empty()
    };
    let b = if names_method(methods, "upsert_provider_task"@) {
        seq![LifecycleStep::UpsertProviderTask]
    } else {
        Seq::empty()
    };
    let c = if names_method(methods, "mark_generation_failed"@) {
        seq![LifecycleStep::MarkGenerationFailed]
    } else {
        Seq::empty()
    };
    let d = if names_method(methods, "enqueue_notification"@) {
        seq![LifecycleStep::EnqueueNotifications]
    } else {
        Seq::empty()
    };
    a + b + c + d
}

/// Whether a list of method names holds a name.
pub fn names_repository_method(methods: &Vec<String>, name: &str) -> (r: bool)
    ensures
        r == names_method(methods@, name@),
{
    let mut k: usize = 0;
    while k < methods.len()
        invariant
            k <= methods.len(),
            forall|i: int| 0 <= i < k ==> methods@[i]@ != name@,
        decreases methods.len() - k,
    {
        if text_eq(methods[k].as_str(), name) {
            return true;
        }
        k = k + 1;
    }
    false
}

/// The side effects to run after a generation row is written.
pub fn plan_lifecycle_side_effects(methods: &Vec<String>) -> (steps: Vec<LifecycleStep>)
    ensures
        steps@ == lifecycle_steps_spec(methods@),
{
    let mut steps: Vec<LifecycleStep> = Vec::new();
    if names_repository_method(methods, "mark_provider_submitted") {
        steps.push(LifecycleStep::MarkProviderSubmitted);
    }
    let ghost s1 = steps@;
    if names_repository_method(methods, "upsert_provider_task") {
        steps.push(LifecycleStep::UpsertProviderTask);
    }
    let ghost s2 = steps@;
    if names_repository_method(methods, "mark_generation_failed") {
        steps.push(LifecycleStep::MarkGenerationFailed);
    }
    let ghost s3 = steps@;
    if names_repository_method(methods, "enqueue_notification") {
        steps.push(LifecycleStep::EnqueueNotifications);
    }
    assert(steps@ =~= lifecycle_steps_spec(methods@));
    steps
}

/// Whether a refresh should also mark the generation succeeded.
pub fn marks_generation_succeeded(methods: &Vec<String>) -> (r: bool)
    ensures
        r == names_method(methods@, "mark_generation_succeeded"@),
{
    names_repository_method(methods, "mark_generation_succeeded")
}

/// The provider task id to upsert: the trimmed id, or nothing to upsert when
/// it is absent or blank.
pub fn provider_task_to_upsert(provider_task_id: Option<&str>) -> (r: Option<String>)
    ensures
        (match r {
            Some(s) => Some(s@),
            None => None,
        }) == trimmed_nonblank(
            match provider_task_id {
                Some(s) => Some(s@),
                None => None,
            },
        ),
{
    trim_nonblank(provider_task_id)
}

/// A provider task that is due for polling, as the background worker reads
/// it.
#[derive(Clone, Debug, Eq, PartialEq)]
pub struct DueProviderTaskRow {
    pub task_uuid: String,
    pub tenant_id: i64,
    pub organization_id: i64,
    pub generation_uuid: String,
    pub user_id: i64,
    pub provider_code: String,
    pub provider_task_id: String,
}

/// A notification that is due for delivery, as the background worker reads
/// it.
pub struct PendingNotificationRow {
    pub outbox_uuid: String,
    pub tenant_id: i64,
    pub organization_id: i64,
    pub aggregate_type: String,
    pub aggregate_id: String,
    pub event_type: String,
    pub payload_snapshot: serde_json::Value,
    pub metadata: serde_json::Value,
    pub delivery_attempts: i32,
}

// ---------------------------------------------------------------------------
// Bounds
// ---------------------------------------------------------------------------

/// `v.clamp(lo, hi)`.
pub open spec fn clamp_spec(v: i64, lo: i64, hi: i64) -> i64 {
    if v < lo {
        lo
    } else if v > hi {
        hi
    } else {
        v
    }
}

/// `i64::clamp`; the bounds must be ordered, as `clamp` demands.
pub fn clamp_i64(v: i64, lo: i64, hi: i64) -> (r: i64)
    requires
        lo <= hi,
    ensures
        r == clamp_spec(v, lo, hi),
        lo <= r <= hi,
{
    if v < lo {
        lo
    } else if v > hi {
        hi
    } else {
        v
    }
}

/// How many due provider tasks the worker reads at once: 1 to 100.
pub fn due_task_batch_limit(limit: i64) -> (r: i64)
    ensures
        r == clamp_spec(limit, 1, 100),
{
    clamp_i64(limit, 1, 100)
}

/// The delay before a provider task is polled again: 5 seconds to an hour.
pub fn provider_poll_interval_seconds(seconds: i64) -> (r: i64)
    ensures
        r == clamp_spec(seconds, 5, 3600),
{
    clamp_i64(seconds, 5, 3600)
}

/// The delay before a failed notification is retried: 5 seconds to a day.
pub fn notification_retry_seconds(seconds: i64) -> (r: i64)
    ensures
        r == clamp_spec(seconds, 5, 86400),
{
    clamp_i64(seconds, 5, 86400)
}

/// The page window of a generation listing: 1 to 100 rows from a
/// non-negative offset.
pub fn generation_page_window(limit: i64, offset: i64) -> (w: (i64, i64))
    ensures
        w.0 == clamp_spec(limit, 1, 100),
        w.1 == (if offset < 0 {
            0
        } else {
            offset
        }),
{
    let l = clamp_i64(limit, 1, 100);
    let o = if offset < 0 {
        0
    } else {
        offset
    };
    (l, o)
}

/// The resolution a generation job is stored with: the requested one, else
/// `1024x1024`.
pub fn job_resolution(requested: &Option<String>) -> (r: String)
    ensures
        r@ == (match requested {
            Some(s) => s@,
            None => "1024x1024"@,
        }),
{
    match requested {
        Some(s) => s.clone(),
        None => "1024x1024".to_owned(),
    }
}

/// The style a generation job is stored with: the requested one, else
/// `default`.
pub fn job_style(requested: &Option<String>) -> (r: String)
    ensures
        r@ == (match requested {
            Some(s) => s@,
            None => "default"@,
        }),
{
    match requested {
        Some(s) => s.clone(),
        None => "default".to_owned(),
    }
}

} // verus!
