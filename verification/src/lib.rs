//! Core of a long-running monitoring agent: plugin identities and the
//! registry that resolves them, configuration loading, the shared execution
//! environment, and the recurring-task scheduler that drives the poll and
//! update rounds.

mod agent;
mod config;
mod errors;
mod keys;
mod loader;
mod plugin;
mod poller;
mod registry;
mod scheduler;
mod updater;

pub use agent::bind_all;
pub use config::int_field_of;
pub use config::opt_string_view;
pub use config::sections_view;
pub use config::str_field_of;
pub use config::toml_parse_of;
pub use errors::Error;
pub use keys::PluginKey;
pub use keys::PluginKind;
pub use keys::colon_split;
pub use keys::kind_for_name;
pub use keys::parse_key_spec;
pub use keys::parse_plugin_key;
pub use loader::SectionFate;
pub use loader::all_models;
pub use loader::config_error_matches;
pub use loader::config_models;
pub use loader::error_matches_fate;
pub use loader::failing_files;
pub use loader::file_error_matches;
pub use loader::file_loads;
pub use loader::file_models;
pub use loader::first_bad_section;
pub use loader::load_config;
pub use loader::load_configs;
pub use loader::load_instance;
pub use loader::load_section;
pub use loader::load_sections;
pub use loader::section_fate;
pub use loader::section_loads;
pub use loader::section_model;
pub use loader::section_plugin_type;
pub use loader::sections_all_load;
pub use plugin::Constructor;
pub use plugin::Framework;
pub use plugin::Plugin;
pub use plugin::PluginFault;
pub use plugin::PluginInstance;
pub use plugin::PluginModel;
pub use plugin::WorkKind;
pub use plugin::WorkOutcome;
pub use poller::Poller;
pub use poller::RoundReport;
pub use poller::lemma_round_failure_contained;
pub use poller::run_round;
pub use registry::Registry;
pub use registry::has_key;
pub use registry::lemma_map_of_contains;
pub use registry::lemma_map_of_index;
pub use registry::load_plugins;
pub use registry::map_of;
pub use scheduler::CountingTimer;
pub use scheduler::Scheduler;
pub use scheduler::SchedulerAction;
pub use scheduler::SchedulerEvent;
pub use scheduler::SchedulerState;
pub use scheduler::ShutdownFlag;
pub use scheduler::ShutdownSignal;
pub use scheduler::Task;
pub use scheduler::TimerSource;
pub use scheduler::action_at;
pub use scheduler::lemma_failed_round_rearms;
pub use scheduler::lemma_start_waits_for_completion;
pub use scheduler::lemma_rounds_never_overlap;
pub use scheduler::lemma_stopped_stays_stopped;
pub use scheduler::rounds_completed;
pub use scheduler::rounds_started;
pub use scheduler::run_rounds;
pub use scheduler::run_until_shutdown;
pub use scheduler::state_after;
pub use scheduler::step_spec;
pub use updater::Updater;
