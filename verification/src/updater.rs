//! The updating task: the poll task's sibling, submitting one update per
//! bound instance each round. It shares the instance collection with the
//! poller without synchronization, since the collection is never mutated.

use vstd::prelude::*;
use std::sync::Arc;
use crate::plugin::Framework;
use crate::plugin::PluginInstance;
use crate::plugin::WorkKind;
use crate::poller::run_round;
use crate::poller::RoundReport;
use crate::scheduler::Task;

verus! {

/// The recurring update task over the shared, read-only collection of bound
/// instances.
pub struct Updater {
    pub instances: Arc<Vec<PluginInstance>>,
    pub environment: Arc<Framework>,
}

impl Updater {
    pub fn new(instances: Arc<Vec<PluginInstance>>, environment: Arc<Framework>) -> (r: Updater)
        ensures
            r.instances@ == instances@,
            r.environment == environment,
    {
        Updater { instances, environment }
    }
}

impl Task for Updater {
    open spec fn covered_instances(&self) -> Seq<PluginInstance> {
        self.instances@
    }

    open spec fn work(&self) -> WorkKind {
        WorkKind::Update
    }

    fn run_once(&self) -> (r: RoundReport) {
        run_round(&self.environment, &self.instances, WorkKind::Update)
    }
}

} // verus!
