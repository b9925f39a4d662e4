//! The plugin contract: construction from a configuration section, binding to
//! the shared execution environment, and the poll and update operations of a
//! live instance. The built-in plugin families live here as well.

use vstd::prelude::*;
use crate::config::get_int_field;
use crate::config::int_field_of;
use crate::errors::Error;
use crate::keys::PluginKey;
use crate::keys::PluginKind;

verus! {

/// The mathematical content of a plugin, before or after binding: its
/// identity and the data its family was configured with.
pub enum PluginModel {
    Heartbeat { key: (PluginKind, Seq<char>) },
    Threshold { key: (PluginKind, Seq<char>), value: i64, limit: i64 },
}

impl PluginModel {
    pub open spec fn key(self) -> (PluginKind, Seq<char>) {
        match self {
            PluginModel::Heartbeat { key } => key,
            PluginModel::Threshold { key, .. } => key,
        }
    }
}

/// A registry entry: the constructor of one plugin family. Applying it to a
/// configuration section yields a plugin that is not yet bound.
#[derive(Clone, Copy, Debug, PartialEq, Eq, Structural)]
pub enum Constructor {
    /// A plugin that reports success on every poll and update.
    Heartbeat,
    /// A plugin configured with a reading and a limit; its poll fails while
    /// the reading exceeds the limit.
    Threshold,
}

impl Constructor {
    /// What constructing this family from a section yields: a plugin model,
    /// or nothing when the section's fields do not match the family's shape.
    pub open spec fn construct_spec(
        self,
        key: (PluginKind, Seq<char>),
        section: toml::Value,
    ) -> Option<PluginModel> {
        match self {
            Constructor::Heartbeat => Some(PluginModel::Heartbeat { key }),
            Constructor::Threshold => match (
                int_field_of(section, "value"@),
                int_field_of(section, "limit"@),
            ) {
                (Some(value), Some(limit)) => Some(
                    PluginModel::Threshold { key, value, limit },
                ),
                _ => None,
            },
        }
    }

    /// Constructs a plugin of this family from one configuration section;
    /// fails with a decode error when the section's fields do not match the
    /// family's expected shape.
    pub fn construct(self, key: &PluginKey, section: &toml::Value) -> (r: Result<Plugin, Error>)
        ensures
            match self.construct_spec(key@, *section) {
                Some(m) => r matches Ok(p) && p@ == m,
                None => r matches Err(e) && e is Decode,
            },
    {
        match self {
            Constructor::Heartbeat => Ok(Plugin::Heartbeat { key: key.duplicate() }),
            Constructor::Threshold => {
                let value = get_int_field(section, "value");
                let limit = get_int_field(section, "limit");
                match (value, limit) {
                    (Some(value), Some(limit)) => Ok(
                        Plugin::Threshold { key: key.duplicate(), value, limit },
                    ),
                    _ => Err(Error::Decode),
                }
            },
        }
    }
}

/// A constructed plugin that has not yet been bound to the execution
/// environment.
#[derive(Debug)]
pub enum Plugin {
    Heartbeat { key: PluginKey },
    Threshold { key: PluginKey, value: i64, limit: i64 },
}

impl Plugin {
    pub open spec fn view(&self) -> PluginModel {
        match self {
            Plugin::Heartbeat { key } => PluginModel::Heartbeat { key: key@ },
            Plugin::Threshold { key, value, limit } => PluginModel::Threshold {
                key: key@,
                value: *value,
                limit: *limit,
            },
        }
    }

    /// Binds this plugin to the shared execution environment, producing the
    /// live, schedulable instance. Called once per configured plugin, at
    /// startup; none of the built-in families can fail here.
    pub fn setup(self, environment: &Framework) -> (r: Result<PluginInstance, Error>)
        ensures
            r matches Ok(instance) && instance@ == self@,
    {
        match self {
            Plugin::Heartbeat { key } => Ok(PluginInstance::Heartbeat { key }),
            Plugin::Threshold { key, value, limit } => Ok(
                PluginInstance::Threshold { key, value, limit },
            ),
        }
    }
}

/// A steady-state fault of one plugin instance during one round. Contained at
/// the round level: logged and attributed, never fatal.
#[derive(Clone, Copy, Debug, PartialEq, Eq, Structural)]
pub enum PluginFault {
    /// A threshold plugin's reading exceeds its configured limit.
    OverLimit { value: i64, limit: i64 },
}

/// A live, bound plugin instance: the schedulable unit of work. The set of
/// instances is built once at startup and only ever read afterwards, so both
/// recurring tasks may share it without synchronization.
#[derive(Debug)]
pub enum PluginInstance {
    Heartbeat { key: PluginKey },
    Threshold { key: PluginKey, value: i64, limit: i64 },
}

impl PluginInstance {
    pub open spec fn view(&self) -> PluginModel {
        match self {
            PluginInstance::Heartbeat { key } => PluginModel::Heartbeat { key: key@ },
            PluginInstance::Threshold { key, value, limit } => PluginModel::Threshold {
                key: key@,
                value: *value,
                limit: *limit,
            },
        }
    }

    /// What one poll of this instance returns.
    pub open spec fn poll_result(&self) -> Result<(), PluginFault> {
        match self@ {
            PluginModel::Heartbeat { .. } => Ok(()),
            PluginModel::Threshold { value, limit, .. } => if value <= limit {
                Ok(())
            } else {
                Err(PluginFault::OverLimit { value, limit })
            },
        }
    }

    /// What one update of this instance returns.
    pub open spec fn update_result(&self) -> Result<(), PluginFault> {
        Ok(())
    }

    /// What submitting the given unit of work on this instance returns.
    pub open spec fn work_result(&self, work: WorkKind) -> Result<(), PluginFault> {
        match work {
            WorkKind::Poll => self.poll_result(),
            WorkKind::Update => self.update_result(),
        }
    }

    /// One read-only observation; safe to invoke on every tick.
    pub fn poll(&self) -> (r: Result<(), PluginFault>)
        ensures
            r == self.poll_result(),
    {
        match self {
            PluginInstance::Heartbeat { .. } => Ok(()),
            PluginInstance::Threshold { value, limit, .. } => {
                if *value <= *limit {
                    Ok(())
                } else {
                    Err(PluginFault::OverLimit { value: *value, limit: *limit })
                }
            },
        }
    }

    /// One refresh step.
    pub fn update(&self) -> (r: Result<(), PluginFault>)
        ensures
            r == self.update_result(),
    {
        match self {
            PluginInstance::Heartbeat { .. } => Ok(()),
            PluginInstance::Threshold { .. } => Ok(()),
        }
    }

    /// This instance's identity, for attributing round outcomes.
    pub fn identity(&self) -> (k: PluginKey)
        ensures
            k@ == self@.key(),
    {
        match self {
            PluginInstance::Heartbeat { key } => key.duplicate(),
            PluginInstance::Threshold { key, .. } => key.duplicate(),
        }
    }
}

/// The two units of work a recurring task can submit for an instance.
#[derive(Clone, Copy, Debug, PartialEq, Eq, Structural)]
pub enum WorkKind {
    Poll,
    Update,
}

/// The observed completion of one submitted unit of work, attributed to the
/// instance it ran for.
#[derive(Debug)]
pub struct WorkOutcome {
    pub key: PluginKey,
    pub result: Result<(), PluginFault>,
}

/// The shared execution environment handed to every plugin at bind time. It
/// carries the configured worker capacity — a fixed bound, sized independent
/// of the number of plugins — and exposes one capability: submit a unit of
/// work and observe its completion. Here a submitted unit runs to completion
/// before `submit` returns; the contract constrains only the outcome, so a
/// driver that spreads rounds over several workers satisfies the same
/// interface.
pub struct Framework {
    workers: usize,
}

impl Framework {
    /// The configured size of the worker pool.
    pub closed spec fn pool_size(&self) -> usize {
        self.workers
    }

    pub fn new(workers: usize) -> (r: Framework)
        requires
            workers >= 1,
        ensures
            r.pool_size() == workers,
    {
        Framework { workers }
    }

    /// Submits one unit of work for one instance and observes its completion:
    /// the outcome carries the instance's identity and the result of exactly
    /// that unit of work. A slow or failing unit affects its own outcome
    /// only.
    pub fn submit(&self, instance: &PluginInstance, work: WorkKind) -> (o: WorkOutcome)
        ensures
            o.key@ == instance@.key(),
            o.result == instance.work_result(work),
    {
        let result = match work {
            WorkKind::Poll => instance.poll(),
            WorkKind::Update => instance.update(),
        };
        WorkOutcome { key: instance.identity(), result }
    }
}

} // verus!
