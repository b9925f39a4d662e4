//! The polling task: each round, submit one poll per bound instance to the
//! execution environment and collect every outcome before reporting the
//! round complete.

use vstd::prelude::*;
use std::sync::Arc;
use crate::plugin::Framework;
use crate::plugin::PluginInstance;
use crate::plugin::WorkKind;
use crate::plugin::WorkOutcome;
use crate::scheduler::Task;

verus! {

/// The observed completions of one round: one outcome per covered instance,
/// in instance order.
#[derive(Debug)]
pub struct RoundReport {
    pub outcomes: Vec<WorkOutcome>,
}

impl RoundReport {
    /// The report covers the given instances with the given unit of work:
    /// exactly one outcome per instance, each attributed to its instance's
    /// identity and carrying the result of exactly that instance's work —
    /// so one failing instance changes no other instance's outcome.
    pub open spec fn covers(&self, instances: Seq<PluginInstance>, work: WorkKind) -> bool {
        &&& self.outcomes@.len() == instances.len()
        &&& forall|i: int|
            0 <= i < instances.len() ==> {
                &&& (#[trigger] self.outcomes@[i]).key@ == instances[i]@.key()
                &&& self.outcomes@[i].result == instances[i].work_result(work)
            }
    }

    /// Whether every unit of work in the round succeeded.
    pub fn all_ok(&self) -> (r: bool)
        ensures
            r <==> forall|i: int|
                0 <= i < self.outcomes@.len() ==> (#[trigger] self.outcomes@[i]).result is Ok,
    {
        let n = self.outcomes.len();
        let mut i: usize = 0;
        while i < n
            invariant
                0 <= i <= n,
                n == self.outcomes@.len(),
                forall|j: int| 0 <= j < i ==> (#[trigger] self.outcomes@[j]).result is Ok,
            decreases n - i,
        {
            if self.outcomes[i].result.is_err() {
                return false;
            }
            i = i + 1;
        }
        true
    }
}

/// One complete round: submits one unit of work per instance to the
/// execution environment, in order, and reports only once every instance's
/// outcome — success or failure — has been observed.
pub fn run_round(
    environment: &Framework,
    instances: &Vec<PluginInstance>,
    work: WorkKind,
) -> (r: RoundReport)
    ensures
        r.covers(instances@, work),
{
    let n = instances.len();
    let mut outcomes: Vec<WorkOutcome> = Vec::new();
    let mut i: usize = 0;
    while i < n
        invariant
            0 <= i <= n,
            n == instances@.len(),
            outcomes@.len() == i,
            forall|j: int|
                0 <= j < i ==> {
                    &&& (#[trigger] outcomes@[j]).key@ == instances@[j]@.key()
                    &&& outcomes@[j].result == instances@[j].work_result(work)
                },
        decreases n - i,
    {
        let outcome = environment.submit(&instances[i], work);
        outcomes.push(outcome);
        i = i + 1;
    }
    RoundReport { outcomes }
}

/// A failing instance is contained within its own outcome: in any report
/// that covers a round's instances, every other instance's outcome is
/// exactly its own work's result, whatever happened to the failing one.
pub proof fn lemma_round_failure_contained(
    r: RoundReport,
    instances: Seq<PluginInstance>,
    work: WorkKind,
    failing: int,
    other: int,
)
    requires
        r.covers(instances, work),
        0 <= failing < instances.len(),
        0 <= other < instances.len(),
        other != failing,
    ensures
        r.outcomes@[other].result == instances[other].work_result(work),
        instances[other].work_result(work) is Ok ==> r.outcomes@[other].result is Ok,
{
}

/// The recurring poll task: closes over the shared, read-only collection of
/// bound instances and the shared execution environment.
pub struct Poller {
    pub instances: Arc<Vec<PluginInstance>>,
    pub environment: Arc<Framework>,
}

impl Poller {
    pub fn new(instances: Arc<Vec<PluginInstance>>, environment: Arc<Framework>) -> (r: Poller)
        ensures
            r.instances@ == instances@,
            r.environment == environment,
    {
        Poller { instances, environment }
    }
}

impl Task for Poller {
    open spec fn covered_instances(&self) -> Seq<PluginInstance> {
        self.instances@
    }

    open spec fn work(&self) -> WorkKind {
        WorkKind::Poll
    }

    fn run_once(&self) -> (r: RoundReport) {
        run_round(&self.environment, &self.instances, WorkKind::Poll)
    }
}

} // verus!
