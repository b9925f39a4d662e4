use std::sync::Arc;
use sysmon::bind_all;
use sysmon::load_config;
use sysmon::run_round;
use sysmon::run_rounds;
use sysmon::Constructor;
use sysmon::CountingTimer;
use sysmon::Error;
use sysmon::Framework;
use sysmon::PluginFault;
use sysmon::PluginInstance;
use sysmon::PluginKind;
use sysmon::Poller;
use sysmon::Registry;
use sysmon::Scheduler;
use sysmon::SchedulerAction;
use sysmon::SchedulerEvent;
use sysmon::SchedulerState;
use sysmon::Task;
use sysmon::Updater;
use sysmon::WorkKind;

fn sensor_registry() -> Registry {
    let mut registry = Registry::new();
    registry.register(PluginKind::Sensor, "cpu".to_string(), Constructor::Heartbeat);
    registry.register(PluginKind::Sensor, "memory".to_string(), Constructor::Threshold);
    registry
}

fn bound_instances(registry: &Registry, text: &str, environment: &Framework) -> Vec<PluginInstance> {
    let plugins = load_config(registry, text).expect("config loads");
    bind_all(plugins, environment).expect("all plugins bind")
}

const MIXED_CONFIG: &str = "[cpu]\ntype = \"sensor:cpu\"\n\n[memory]\ntype = \"sensor:memory\"\nvalue = 10\nlimit = 5\n";

#[test]
fn one_round_submits_one_unit_per_instance() {
    let registry = sensor_registry();
    let environment = Framework::new(4);
    let text = "[a]\ntype = \"sensor:cpu\"\n\n[b]\ntype = \"sensor:cpu\"\n\n[c]\ntype = \"sensor:cpu\"\n";
    let instances = bound_instances(&registry, text, &environment);
    assert_eq!(instances.len(), 3);
    let report = run_round(&environment, &instances, WorkKind::Poll);
    assert_eq!(report.outcomes.len(), 3);
    for outcome in &report.outcomes {
        assert_eq!(outcome.key.kind, PluginKind::Sensor);
        assert!(outcome.result.is_ok());
    }
}

#[test]
fn failing_instance_leaves_other_outcomes_intact() {
    let registry = sensor_registry();
    let environment = Framework::new(4);
    let instances = bound_instances(&registry, MIXED_CONFIG, &environment);
    assert_eq!(instances.len(), 2);
    let report = run_round(&environment, &instances, WorkKind::Poll);
    assert_eq!(report.outcomes.len(), 2);
    assert_eq!(report.outcomes[0].key.plugin_type, "cpu");
    assert!(report.outcomes[0].result.is_ok());
    assert_eq!(report.outcomes[1].key.plugin_type, "memory");
    assert_eq!(
        report.outcomes[1].result,
        Err(PluginFault::OverLimit { value: 10, limit: 5 })
    );
    assert!(!report.all_ok());
}

#[test]
fn poller_round_attributes_every_outcome() {
    let registry = sensor_registry();
    let environment = Arc::new(Framework::new(4));
    let plugins = load_config(&registry, MIXED_CONFIG).expect("config loads");
    let instances = Arc::new(bind_all(plugins, &environment).expect("all bind"));
    let poller = Poller::new(instances.clone(), environment.clone());
    let report = poller.run_once();
    assert_eq!(report.outcomes.len(), 2);
    assert_eq!(report.outcomes[0].key.plugin_type, "cpu");
    assert_eq!(report.outcomes[1].key.plugin_type, "memory");
    assert!(report.outcomes[0].result.is_ok());
    assert!(report.outcomes[1].result.is_err());
}

#[test]
fn updater_round_succeeds_for_every_instance() {
    let registry = sensor_registry();
    let environment = Arc::new(Framework::new(4));
    let plugins = load_config(&registry, MIXED_CONFIG).expect("config loads");
    let instances = Arc::new(bind_all(plugins, &environment).expect("all bind"));
    let updater = Updater::new(instances.clone(), environment.clone());
    let report = updater.run_once();
    assert_eq!(report.outcomes.len(), 2);
    assert!(report.all_ok());
}

#[test]
fn missing_plugin_aborts_startup_before_any_round() {
    let registry = sensor_registry();
    let failure = load_config(&registry, "[disk]\ntype = \"sensor:disk\"\n").unwrap_err();
    match failure {
        Error::Section { name, cause } => {
            assert_eq!(name, "disk");
            match *cause {
                Error::MissingPlugin { key } => {
                    assert_eq!(key.kind, PluginKind::Sensor);
                    assert_eq!(key.plugin_type, "disk");
                },
                other => panic!("expected a missing plugin error, got {:?}", other),
            }
        },
        other => panic!("expected a section error, got {:?}", other),
    }
}

#[test]
fn rounds_keep_running_after_a_failing_round() {
    let registry = sensor_registry();
    let environment = Arc::new(Framework::new(2));
    let plugins = load_config(&registry, MIXED_CONFIG).expect("config loads");
    let instances = Arc::new(bind_all(plugins, &environment).expect("all bind"));
    let poller = Poller::new(instances.clone(), environment.clone());
    let mut timer = CountingTimer::new();
    let reports = run_rounds(&mut timer, 5, &poller, 3);
    assert_eq!(reports.len(), 3);
    for report in &reports {
        assert_eq!(report.outcomes.len(), 2);
        assert!(report.outcomes[0].result.is_ok());
        assert!(report.outcomes[1].result.is_err());
    }
}

#[test]
fn scheduler_never_starts_a_round_while_one_is_in_flight() {
    let mut scheduler = Scheduler::new(5);
    assert!(matches!(scheduler.state, SchedulerState::Armed));
    assert!(matches!(scheduler.step(SchedulerEvent::Tick), SchedulerAction::StartRound));
    assert!(matches!(scheduler.state, SchedulerState::Firing));
    assert!(matches!(scheduler.step(SchedulerEvent::Tick), SchedulerAction::Ignore));
    assert!(matches!(scheduler.state, SchedulerState::Firing));
    assert!(matches!(
        scheduler.step(SchedulerEvent::RoundDone { ok: false }),
        SchedulerAction::WaitTick
    ));
    assert!(matches!(scheduler.state, SchedulerState::Armed));
    assert!(matches!(scheduler.step(SchedulerEvent::Tick), SchedulerAction::StartRound));
}

#[test]
fn stray_completion_while_armed_is_ignored() {
    let mut scheduler = Scheduler::new(1);
    assert!(matches!(
        scheduler.step(SchedulerEvent::RoundDone { ok: true }),
        SchedulerAction::Ignore
    ));
    assert!(matches!(scheduler.state, SchedulerState::Armed));
}

#[test]
fn the_driver_waits_once_per_round() {
    let registry = sensor_registry();
    let environment = Arc::new(Framework::new(1));
    let plugins = load_config(&registry, "[a]\ntype = \"sensor:cpu\"\n").expect("config loads");
    let instances = Arc::new(bind_all(plugins, &environment).expect("all bind"));
    let poller = Poller::new(instances.clone(), environment.clone());
    let mut timer = CountingTimer::new();
    let reports = run_rounds(&mut timer, 1, &poller, 4);
    assert_eq!(reports.len(), 4);
    assert_eq!(timer.ticks, 4);
}

#[test]
fn bind_all_binds_every_loaded_plugin() {
    let registry = sensor_registry();
    let environment = Framework::new(4);
    let plugins = load_config(&registry, MIXED_CONFIG).expect("config loads");
    let instances = bind_all(plugins, &environment).expect("all bind");
    assert_eq!(instances.len(), 2);
}

#[test]
fn plugin_failures_carry_the_plugin_identity() {
    let key = sysmon::PluginKey::new(PluginKind::Sensor, "cpu".to_string());
    let failure = Error::Plugin { key, detail: "could not open its resource".to_string() };
    assert!(failure.cause().is_none());
    match failure {
        Error::Plugin { key, detail } => {
            assert_eq!(key.plugin_type, "cpu");
            assert!(!detail.is_empty());
        },
        other => panic!("expected a plugin error, got {:?}", other),
    }
}

#[test]
fn shutdown_requested_at_the_boundary_runs_no_round() {
    let registry = sensor_registry();
    let environment = Arc::new(Framework::new(1));
    let plugins = load_config(&registry, "[a]\ntype = \"sensor:cpu\"\n").expect("config loads");
    let instances = Arc::new(bind_all(plugins, &environment).expect("all bind"));
    let poller = Poller::new(instances.clone(), environment.clone());
    let mut timer = CountingTimer::new();
    let signal = sysmon::ShutdownFlag { requested: true };
    let reports = sysmon::run_until_shutdown(&mut timer, 5, &poller, &signal, 10);
    assert!(reports.is_empty());
    assert_eq!(timer.ticks, 0);
}

#[test]
fn without_shutdown_the_driver_runs_every_round() {
    let registry = sensor_registry();
    let environment = Arc::new(Framework::new(1));
    let plugins = load_config(&registry, "[a]\ntype = \"sensor:cpu\"\n").expect("config loads");
    let instances = Arc::new(bind_all(plugins, &environment).expect("all bind"));
    let poller = Poller::new(instances.clone(), environment.clone());
    let mut timer = CountingTimer::new();
    let signal = sysmon::ShutdownFlag { requested: false };
    let reports = sysmon::run_until_shutdown(&mut timer, 5, &poller, &signal, 10);
    assert_eq!(reports.len(), 10);
    assert_eq!(timer.ticks, 10);
}

#[test]
fn a_stopped_scheduler_ignores_every_later_event() {
    let mut scheduler = Scheduler::new(2);
    assert!(matches!(scheduler.step(SchedulerEvent::Shutdown), SchedulerAction::Stop));
    assert!(matches!(scheduler.state, SchedulerState::Stopped));
    assert!(matches!(scheduler.step(SchedulerEvent::Tick), SchedulerAction::Ignore));
    assert!(matches!(scheduler.state, SchedulerState::Stopped));
    assert!(matches!(
        scheduler.step(SchedulerEvent::RoundDone { ok: true }),
        SchedulerAction::Ignore
    ));
    assert!(matches!(scheduler.state, SchedulerState::Stopped));
}

#[test]
fn shutdown_while_firing_lets_the_round_report_first() {
    let mut scheduler = Scheduler::new(2);
    assert!(matches!(scheduler.step(SchedulerEvent::Tick), SchedulerAction::StartRound));
    assert!(matches!(scheduler.step(SchedulerEvent::Shutdown), SchedulerAction::Ignore));
    assert!(matches!(scheduler.state, SchedulerState::Firing));
    assert!(matches!(
        scheduler.step(SchedulerEvent::RoundDone { ok: true }),
        SchedulerAction::WaitTick
    ));
    assert!(matches!(scheduler.step(SchedulerEvent::Shutdown), SchedulerAction::Stop));
    assert!(matches!(scheduler.state, SchedulerState::Stopped));
}
