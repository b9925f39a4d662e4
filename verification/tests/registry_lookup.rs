use sysmon::load_plugins;
use sysmon::Constructor;
use sysmon::PluginKey;
use sysmon::PluginKind;
use sysmon::Registry;

#[test]
fn lookup_registered_key_returns_its_constructor() {
    let mut registry = Registry::new();
    assert!(registry.register(PluginKind::Sensor, "cpu".to_string(), Constructor::Heartbeat));
    let key = PluginKey::new(PluginKind::Sensor, "cpu".to_string());
    assert_eq!(registry.lookup(&key), Some(Constructor::Heartbeat));
}

#[test]
fn lookup_unregistered_key_returns_nothing() {
    let mut registry = Registry::new();
    registry.register(PluginKind::Sensor, "cpu".to_string(), Constructor::Heartbeat);
    let disk = PluginKey::new(PluginKind::Sensor, "disk".to_string());
    let output = PluginKey::new(PluginKind::Output, "cpu".to_string());
    assert_eq!(registry.lookup(&disk), None);
    assert_eq!(registry.lookup(&output), None);
}

#[test]
fn register_rejects_a_duplicate_identity() {
    let mut registry = Registry::new();
    assert!(registry.register(PluginKind::Sensor, "cpu".to_string(), Constructor::Heartbeat));
    assert!(!registry.register(PluginKind::Sensor, "cpu".to_string(), Constructor::Threshold));
    assert_eq!(registry.count(), 1);
    let key = PluginKey::new(PluginKind::Sensor, "cpu".to_string());
    assert_eq!(registry.lookup(&key), Some(Constructor::Heartbeat));
}

#[test]
fn load_plugins_registers_the_builtin_families() {
    let registry = load_plugins();
    let heartbeat = PluginKey::new(PluginKind::Sensor, "heartbeat".to_string());
    let threshold = PluginKey::new(PluginKind::Sensor, "threshold".to_string());
    assert_eq!(registry.lookup(&heartbeat), Some(Constructor::Heartbeat));
    assert_eq!(registry.lookup(&threshold), Some(Constructor::Threshold));
    assert_eq!(registry.count(), 2);
}

#[test]
fn keys_lists_identities_in_registration_order() {
    let mut registry = Registry::new();
    registry.register(PluginKind::Sensor, "cpu".to_string(), Constructor::Heartbeat);
    registry.register(PluginKind::Output, "console".to_string(), Constructor::Heartbeat);
    let keys = registry.keys();
    assert_eq!(keys.len(), 2);
    assert_eq!(keys[0].kind, PluginKind::Sensor);
    assert_eq!(keys[0].plugin_type, "cpu");
    assert_eq!(keys[1].kind, PluginKind::Output);
    assert_eq!(keys[1].plugin_type, "console");
}
