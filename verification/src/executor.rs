use vstd::prelude::*;
use crate::job::JobStatus;

verus! {

/// A model of the execution serializer together with the statuses the job
/// store shows: at any moment one task at most holds the execution slot,
/// and a job runs only while its task holds it. The store's rows change
/// only through the three transitions below, which is what the single
/// mutex around the slot enforces.
#[verifier::ext_equal]
pub struct ExecutorModel {
    pub slot: Option<Seq<char>>,
    pub statuses: Map<Seq<char>, JobStatus>,
}

/// The exclusivity invariant: every running job is the slot's holder.
pub open spec fn executor_inv(m: ExecutorModel) -> bool {
    forall|j: Seq<char>|
        m.statuses.dom().contains(j) && (#[trigger] m.statuses[j]) is Running ==> m.slot == Some(j)
}

/// A fresh job enters the store queued.
pub open spec fn spec_create_job(m: ExecutorModel, j: Seq<char>) -> ExecutorModel {
    ExecutorModel { slot: m.slot, statuses: m.statuses.insert(j, JobStatus::Queued) }
}

/// A queued job's task acquires the free slot and marks the job running.
pub open spec fn spec_acquire_slot(m: ExecutorModel, j: Seq<char>) -> ExecutorModel {
    ExecutorModel { slot: Some(j), statuses: m.statuses.insert(j, JobStatus::Running) }
}

/// The slot's holder finishes: its job becomes terminal and the slot is
/// released.
pub open spec fn spec_release_slot(m: ExecutorModel, j: Seq<char>, st: JobStatus) -> ExecutorModel {
    ExecutorModel { slot: None, statuses: m.statuses.insert(j, st) }
}

/// Creating a job preserves exclusivity: a queued job does not run.
pub proof fn lemma_create_preserves_inv(m: ExecutorModel, j: Seq<char>)
    requires
        executor_inv(m),
        !m.statuses.dom().contains(j) || !(m.statuses[j] is Running),
    ensures
        executor_inv(spec_create_job(m, j)),
{
}

/// Acquiring the free slot preserves exclusivity: the one job made running
/// is the new holder, and no other job was running while the slot was
/// free.
pub proof fn lemma_acquire_preserves_inv(m: ExecutorModel, j: Seq<char>)
    requires
        executor_inv(m),
        m.slot is None,
    ensures
        executor_inv(spec_acquire_slot(m, j)),
{
}

/// Releasing the slot preserves exclusivity: the holder's job leaves the
/// running state, and nothing else ran.
pub proof fn lemma_release_preserves_inv(m: ExecutorModel, j: Seq<char>, st: JobStatus)
    requires
        executor_inv(m),
        m.slot == Some(j),
        st.spec_is_terminal(),
    ensures
        executor_inv(spec_release_slot(m, j, st)),
{
}

/// Law: execution exclusivity. Under the invariant the transitions above
/// preserve, no two distinct jobs are running at once.
pub proof fn lemma_at_most_one_running(m: ExecutorModel, j1: Seq<char>, j2: Seq<char>)
    requires
        executor_inv(m),
        m.statuses.dom().contains(j1),
        m.statuses.dom().contains(j2),
        m.statuses[j1] is Running,
        m.statuses[j2] is Running,
    ensures
        j1 == j2,
{
}

} // verus!
