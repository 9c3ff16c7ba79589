//! The set of jobs that are still wanted.
//!
//! Presence of an identifier means that its job should keep running; removing
//! it is how a job is cancelled. The registry is plain data: whoever shares it
//! between concurrent jobs guards it with a lock and holds that lock for one
//! call at a time.

use vstd::hash_set::StringHashSet;
use vstd::prelude::*;

verus! {

/// The identifiers of the active jobs.
pub struct JobRegistry {
    active: StringHashSet,
}

impl View for JobRegistry {
    type V = Set<Seq<char>>;

    closed spec fn view(&self) -> Set<Seq<char>> {
        self.active@
    }
}

impl JobRegistry {
    /// A registry with no active job.
    pub fn new() -> (registry: Self)
        ensures
            registry@ == Set::<Seq<char>>::empty(),
    {
        JobRegistry { active: StringHashSet::new() }
    }

    /// Marks `job_id` as active. Registering an active job changes nothing.
    pub fn register(&mut self, job_id: &str)
        ensures
            final(self)@ == old(self)@.insert(job_id@),
    {
        self.active.insert(job_id.to_owned());
    }

    /// Whether `job_id` is still wanted.
    pub fn is_active(&self, job_id: &str) -> (active: bool)
        ensures
            active == self@.contains(job_id@),
    {
        self.active.contains(job_id)
    }

    /// Removes `job_id`. Removing an unknown job changes nothing.
    pub fn unregister(&mut self, job_id: &str)
        ensures
            final(self)@ == old(self)@.remove(job_id@),
            !old(self)@.contains(job_id@) ==> final(self)@ == old(self)@,
    {
        self.active.remove(job_id);
    }
}

/// Requests that the job `command_id` stop. The request consists of removing
/// the job from the registry; the watcher of that job sees the removal on its
/// next observation. There is no failure: for a job that is unknown or already
/// finished the registry is left as it was.
pub fn cancel_algorithm(registry: &mut JobRegistry, command_id: &str)
    ensures
        final(registry)@ == old(registry)@.remove(command_id@),
        !old(registry)@.contains(command_id@) ==> final(registry)@ == old(registry)@,
{
    registry.unregister(command_id);
}

/// Cancelling a job that is not in the registry, because it was never
/// registered or has already finished, leaves the registry as it was.
pub proof fn lemma_cancel_unknown_changes_nothing(registry: Set<Seq<char>>, job_id: Seq<char>)
    requires
        !registry.contains(job_id),
    ensures
        registry.remove(job_id) == registry,
{
    assert(registry.remove(job_id) =~= registry);
}

/// Registering twice is registering once, and so is unregistering.
pub proof fn lemma_registry_calls_are_idempotent(registry: Set<Seq<char>>, job_id: Seq<char>)
    ensures
        registry.insert(job_id).insert(job_id) == registry.insert(job_id),
        registry.remove(job_id).remove(job_id) == registry.remove(job_id),
{
    assert(registry.insert(job_id).insert(job_id) =~= registry.insert(job_id));
    assert(registry.remove(job_id).remove(job_id) =~= registry.remove(job_id));
}

} // verus!
