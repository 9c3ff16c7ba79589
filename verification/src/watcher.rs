//! The completion watcher: what happens to a running job on each observation
//! of its process.
//!
//! The caller owns the process. Whenever it has looked at the process, it
//! hands what it saw to `watch_step` together with the registry, carries out
//! the action that comes back, and stops when the state that comes back is
//! terminal. Cancellation is looked for before completion, so a job that was
//! cancelled is never reported as succeeded, even if its worker finished in
//! the same instant.

use crate::decoder::{decode_failure, decode_success, decoded_view};
use crate::outcome::{JobOutcome, JobOutcomeView};
use crate::registry::JobRegistry;
use vstd::prelude::*;

verus! {

/// The states of a job. `Running` is the state a job starts in; the other
/// three are terminal.
#[derive(Debug, Clone, Copy, PartialEq, Eq, Structural)]
pub enum JobState {
    Running,
    Succeeded,
    Failed,
    Cancelled,
}

/// What a non-blocking look at the process showed.
#[derive(Debug, Clone, Copy, PartialEq, Eq)]
pub enum ProcessStatus {
    /// The process has not exited.
    Running,
    /// The process has exited, with this exit code, or without one if a
    /// signal ended it.
    Exited(Option<i32>),
    /// The look at the process failed: nothing is known of it.
    Unknown,
}

/// What the caller must do after a step.
#[derive(Debug, Clone, Copy, PartialEq, Eq, Structural)]
pub enum WatchAction {
    /// Kill the process and report the job as cancelled. Whatever the process
    /// wrote is not to be read.
    Kill,
    /// Collect what the process wrote and decode it.
    Collect,
    /// Look at the process again after the polling interval.
    Wait,
    /// Give the job up and report the error that the look at the process
    /// met. Nothing is decoded.
    Abandon,
}

/// The result of one step: the state the job is in now, and what to do.
#[derive(Debug, Clone, Copy, PartialEq, Eq, Structural)]
pub struct WatchStep {
    pub state: JobState,
    pub action: WatchAction,
}

impl JobState {
    /// Whether the job has ended.
    pub open spec fn terminal(self) -> bool {
        !(self is Running)
    }

    /// Whether the job has ended.
    pub fn is_terminal(&self) -> (ended: bool)
        ensures
            ended == self.terminal(),
    {
        match self {
            JobState::Running => false,
            _ => true,
        }
    }
}

/// Whether an exit indicates success: the exit code is zero. An exit without
/// a code is no success.
pub open spec fn exit_succeeded(code: Option<i32>) -> bool {
    code == Some(0i32)
}

/// The transition rule. `active` says whether the registry still holds the
/// job.
///
/// 1. A job that the registry no longer holds is cancelled, whatever its
///    process has done.
/// 2. Otherwise a job whose process has exited has succeeded or failed, by
///    its exit code.
/// 3. Otherwise a job whose process could not be looked at has failed.
/// 4. Otherwise the job keeps running.
pub open spec fn watch_transition(active: bool, status: ProcessStatus) -> WatchStep {
    if !active {
        WatchStep { state: JobState::Cancelled, action: WatchAction::Kill }
    } else {
        match status {
            ProcessStatus::Exited(code) => WatchStep {
                state: if exit_succeeded(code) {
                    JobState::Succeeded
                } else {
                    JobState::Failed
                },
                action: WatchAction::Collect,
            },
            ProcessStatus::Unknown => WatchStep {
                state: JobState::Failed,
                action: WatchAction::Abandon,
            },
            ProcessStatus::Running => WatchStep {
                state: JobState::Running,
                action: WatchAction::Wait,
            },
        }
    }
}

/// The registry after a step for `job_id`: without the job if the step ended
/// it, unchanged if not.
pub open spec fn registry_after_step(
    registry: Set<Seq<char>>,
    job_id: Seq<char>,
    status: ProcessStatus,
) -> Set<Seq<char>> {
    if watch_transition(registry.contains(job_id), status).state.terminal() {
        registry.remove(job_id)
    } else {
        registry
    }
}

/// The outcome of a job in a given state, if the state is terminal. A
/// cancelled job has the outcome `Cancelled` whatever its process wrote.
pub open spec fn concluded_view(state: JobState, stdout: Seq<u8>, stderr: Seq<u8>) -> Option<
    JobOutcomeView,
> {
    match state {
        JobState::Running => None,
        JobState::Succeeded => Some(decoded_view(true, stdout, stderr)),
        JobState::Failed => Some(decoded_view(false, stdout, stderr)),
        JobState::Cancelled => Some(JobOutcomeView::Cancelled),
    }
}

/// Whether an exit indicates success.
pub fn exit_success(code: Option<i32>) -> (success: bool)
    ensures
        success == exit_succeeded(code),
{
    match code {
        Some(value) => value == 0,
        None => false,
    }
}

/// Takes one step of a running job: applies the transition rule to the
/// registry as it is now and to what the process showed, and removes the job
/// from the registry if the step ended it. No other job is touched.
pub fn watch_step(registry: &mut JobRegistry, job_id: &str, status: ProcessStatus) -> (step:
    WatchStep)
    ensures
        step == watch_transition(old(registry)@.contains(job_id@), status),
        final(registry)@ == registry_after_step(old(registry)@, job_id@, status),
        step.state.terminal() ==> !final(registry)@.contains(job_id@),
        !step.state.terminal() ==> final(registry)@ == old(registry)@,
{
    if !registry.is_active(job_id) {
        assert(registry@.remove(job_id@) =~= registry@);
        return WatchStep { state: JobState::Cancelled, action: WatchAction::Kill };
    }
    match status {
        ProcessStatus::Exited(code) => {
            registry.unregister(job_id);
            let state = if exit_success(code) {
                JobState::Succeeded
            } else {
                JobState::Failed
            };
            WatchStep { state, action: WatchAction::Collect }
        },
        ProcessStatus::Unknown => {
            registry.unregister(job_id);
            WatchStep { state: JobState::Failed, action: WatchAction::Abandon }
        },
        ProcessStatus::Running => WatchStep {
            state: JobState::Running,
            action: WatchAction::Wait,
        },
    }
}

/// Gives the outcome of a job that has reached `state`, from what its
/// process wrote. A succeeded job is decoded from its standard output, a
/// failed one from its standard error, and for a cancelled one nothing is
/// decoded. A job that is still running has no outcome. This is for a job
/// whose output was collected or whose process was killed; the outcome of a
/// job that was given up is that of `abandon_job`.
pub fn conclude(state: JobState, stdout: &[u8], stderr: &[u8]) -> (outcome: Option<JobOutcome>)
    ensures
        match outcome {
            Some(reached) => concluded_view(state, stdout@, stderr@) == Some(reached@),
            None => concluded_view(state, stdout@, stderr@) is None,
        },
        outcome is Some <==> state.terminal(),
{
    match state {
        JobState::Running => None,
        JobState::Succeeded => Some(decode_success(stdout)),
        JobState::Failed => Some(decode_failure(stderr)),
        JobState::Cancelled => Some(JobOutcome::Cancelled),
    }
}

/// Cancellation wins. Once a running job has been cancelled, that is, removed
/// from the registry, its next step ends it as cancelled, whatever its
/// process has done by then, and its outcome is `Cancelled` whatever the
/// process has written: a cancelled job never succeeds.
pub proof fn lemma_cancelled_job_never_succeeds(
    registry: Set<Seq<char>>,
    job_id: Seq<char>,
    status: ProcessStatus,
    stdout: Seq<u8>,
    stderr: Seq<u8>,
)
    ensures
        ({
            let cancelled = registry.remove(job_id);
            let step = watch_transition(cancelled.contains(job_id), status);
            &&& step == WatchStep { state: JobState::Cancelled, action: WatchAction::Kill }
            &&& concluded_view(step.state, stdout, stderr) == Some(JobOutcomeView::Cancelled)
            &&& registry_after_step(cancelled, job_id, status) == cancelled
        }),
{
    let cancelled = registry.remove(job_id);
    assert(cancelled.remove(job_id) =~= cancelled);
}

/// A job that runs to its natural end leaves the registry. If the job is
/// still wanted when its process is seen to have exited, the step ends it as
/// succeeded or failed, by its exit code, and the registry no longer holds
/// it afterwards.
pub proof fn lemma_completed_job_leaves_registry(
    registry: Set<Seq<char>>,
    job_id: Seq<char>,
    code: Option<i32>,
)
    requires
        registry.contains(job_id),
    ensures
        ({
            let step = watch_transition(registry.contains(job_id), ProcessStatus::Exited(code));
            &&& step.state == if exit_succeeded(code) {
                JobState::Succeeded
            } else {
                JobState::Failed
            }
            &&& step.action == WatchAction::Collect
            &&& !registry_after_step(registry, job_id, ProcessStatus::Exited(code)).contains(
                job_id,
            )
        }),
{
}

/// Every step that ends a job leaves the registry without it, and a step
/// that does not end the job leaves the registry as it was.
pub proof fn lemma_terminal_step_unregisters(
    registry: Set<Seq<char>>,
    job_id: Seq<char>,
    status: ProcessStatus,
)
    ensures
        watch_transition(registry.contains(job_id), status).state.terminal()
            ==> !registry_after_step(registry, job_id, status).contains(job_id),
        !watch_transition(registry.contains(job_id), status).state.terminal()
            ==> registry_after_step(registry, job_id, status) == registry,
{
}

/// Jobs with distinct identifiers do not interfere. Cancelling one job, or
/// taking a step of it, changes neither whether the other is active nor what
/// the other's next step decides; and the cancelled one is still reported as
/// cancelled.
pub proof fn lemma_distinct_jobs_do_not_interfere(
    registry: Set<Seq<char>>,
    job_id: Seq<char>,
    other_id: Seq<char>,
    status: ProcessStatus,
    other_status: ProcessStatus,
)
    requires
        job_id != other_id,
    ensures
        registry.remove(job_id).contains(other_id) == registry.contains(other_id),
        registry_after_step(registry, job_id, status).contains(other_id) == registry.contains(
            other_id,
        ),
        watch_transition(registry.remove(job_id).contains(other_id), other_status)
            == watch_transition(registry.contains(other_id), other_status),
        watch_transition(
            registry_after_step(registry, job_id, status).contains(other_id),
            other_status,
        ) == watch_transition(registry.contains(other_id), other_status),
        watch_transition(
            registry_after_step(registry.remove(job_id), other_id, other_status).contains(job_id),
            status,
        ).state == JobState::Cancelled,
{
}

} // verus!
