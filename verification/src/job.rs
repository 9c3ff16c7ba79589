//! The start of a job, and its end when it fails for a reason of its
//! surroundings: everything that is decided about a job while no worker
//! speaks for it.
//!
//! The registry holds the jobs that are running. A job that is refused never
//! enters it, and a job that is given up leaves it.

use crate::command::{
    binary_path, build_command, request_fault, selected_algorithm, texts, worker_arguments,
    JobRequest, Platform, WorkerCommand,
};
use crate::error::JobError;
use crate::outcome::{JobOutcome, JobOutcomeView};
use crate::preflight::{check_inputs, input_fault, FileFacts};
use crate::registry::JobRegistry;
use vstd::prelude::*;

verus! {

/// The error with which a job is refused before its worker is spawned, if it
/// is refused. A fault of the input files is reported before a fault of the
/// request.
pub open spec fn start_fault(
    tutors: FileFacts,
    courses: FileFacts,
    request: JobRequest,
) -> Option<JobError> {
    match input_fault(tutors, courses) {
        Some(fault) => Some(JobError::InvalidInput(fault)),
        None => request_fault(request),
    }
}

/// Starts a job: checks its input files, resolves the command of its worker,
/// and enters the job in the registry.
///
/// A job that is refused, for its input files or for its request, never
/// enters the registry: the call leaves the registry as it was, and nothing
/// is to be spawned. A job that is accepted is registered, and the command
/// that comes back is the one to spawn.
pub fn prepare_job(
    registry: &mut JobRegistry,
    command_id: &str,
    tutors: &FileFacts,
    courses: &FileFacts,
    request: &JobRequest,
    platform: Platform,
) -> (prepared: Result<WorkerCommand, JobError>)
    ensures
        match prepared {
            Ok(command) => {
                &&& start_fault(*tutors, *courses, *request) is None
                &&& selected_algorithm(request.algorithm@) matches Some(worker)
                &&& command.executable@ == binary_path(platform, worker)
                &&& texts(command.args@) == worker_arguments(*request)
            },
            Err(error) => start_fault(*tutors, *courses, *request) == Some(error),
        },
        final(registry)@ == if start_fault(*tutors, *courses, *request) is Some {
            old(registry)@
        } else {
            old(registry)@.insert(command_id@)
        },
        prepared is Err ==> final(registry)@ == old(registry)@,
{
    match check_inputs(tutors, courses) {
        Ok(_) => {},
        Err(error) => {
            return Err(error);
        },
    }
    match build_command(request, platform) {
        Ok(command) => {
            registry.register(command_id);
            Ok(command)
        },
        Err(error) => Err(error),
    }
}

/// Gives up a job that was registered and then met `error`: its worker could
/// not be spawned, or its process could not be polled, killed or read. The
/// job leaves the registry, and its outcome is a failure with the error's
/// message. No other job is touched.
pub fn abandon_job(registry: &mut JobRegistry, command_id: &str, error: &JobError) -> (outcome:
    JobOutcome)
    ensures
        final(registry)@ == old(registry)@.remove(command_id@),
        outcome@ == JobOutcomeView::Failure(error.message_text()),
{
    registry.unregister(command_id);
    JobOutcome::from_error(error)
}

/// A job that fails before any worker runs leaves the registry as it was.
/// For a job that is refused this is what `prepare_job` ensures. For a job
/// that was accepted and whose worker could then not be spawned, the
/// registration of `prepare_job` is undone by `abandon_job`: if the job was
/// not registered before, the registry is again what it was.
pub proof fn lemma_failed_start_leaves_registry(registry: Set<Seq<char>>, command_id: Seq<char>)
    requires
        !registry.contains(command_id),
    ensures
        registry.insert(command_id).remove(command_id) == registry,
{
    assert(registry.insert(command_id).remove(command_id) =~= registry);
}

} // verus!
