use sysmon::load_config;
use sysmon::load_configs;
use sysmon::load_plugins;
use sysmon::load_section;
use sysmon::Constructor;
use sysmon::Error;
use sysmon::PluginKind;
use sysmon::Registry;

fn section_of(text: &str) -> toml::Value {
    let table: toml::Table = text.parse().expect("section text parses");
    toml::Value::Table(table)
}

fn sensor_registry() -> Registry {
    let mut registry = Registry::new();
    registry.register(PluginKind::Sensor, "cpu".to_string(), Constructor::Heartbeat);
    registry.register(PluginKind::Sensor, "memory".to_string(), Constructor::Threshold);
    registry
}

#[test]
fn section_with_heartbeat_type_loads() {
    let registry = load_plugins();
    let section = section_of("type = \"sensor:heartbeat\"");
    assert!(load_section(&registry, &section).is_ok());
}

#[test]
fn section_missing_type_field_fails_with_decode_error() {
    let registry = load_plugins();
    let section = section_of("name = \"something\"");
    let failure = load_section(&registry, &section).unwrap_err();
    assert!(matches!(failure, Error::Decode));
}

#[test]
fn section_with_non_string_type_fails_with_decode_error() {
    let registry = load_plugins();
    let section = section_of("type = 42");
    let failure = load_section(&registry, &section).unwrap_err();
    assert!(matches!(failure, Error::Decode));
}

#[test]
fn section_that_is_no_table_fails_with_decode_error() {
    let registry = load_plugins();
    let section = toml::Value::Integer(7);
    let failure = load_section(&registry, &section).unwrap_err();
    assert!(matches!(failure, Error::Decode));
}

#[test]
fn threshold_without_its_fields_fails_with_decode_error() {
    let registry = load_plugins();
    let section = section_of("type = \"sensor:threshold\"\nvalue = 3");
    let failure = load_section(&registry, &section).unwrap_err();
    assert!(matches!(failure, Error::Decode));
}

#[test]
fn ill_formed_type_token_fails_with_key_syntax_error() {
    let registry = load_plugins();
    let section = section_of("type = \"nonsense\"");
    let failure = load_section(&registry, &section).unwrap_err();
    match failure {
        Error::KeySyntax { token } => assert_eq!(token, "nonsense"),
        other => panic!("expected a key syntax error, got {:?}", other),
    }
}

#[test]
fn unregistered_key_fails_with_missing_plugin() {
    let registry = sensor_registry();
    let section = section_of("type = \"sensor:disk\"");
    let failure = load_section(&registry, &section).unwrap_err();
    match failure {
        Error::MissingPlugin { key } => {
            assert_eq!(key.kind, PluginKind::Sensor);
            assert_eq!(key.plugin_type, "disk");
        },
        other => panic!("expected a missing plugin error, got {:?}", other),
    }
}

#[test]
fn invalid_section_fails_fast_naming_that_section() {
    let registry = load_plugins();
    let text = "[alpha]\ntype = \"sensor:heartbeat\"\n\n[beta]\nname = \"no type here\"\n\n[gamma]\ntype = \"also bad\"\n";
    let failure = load_config(&registry, text).unwrap_err();
    match failure {
        Error::Section { name, cause } => {
            assert_eq!(name, "beta");
            assert!(matches!(*cause, Error::Decode));
        },
        other => panic!("expected a section error, got {:?}", other),
    }
}

#[test]
fn syntactically_invalid_text_fails_with_parse_error() {
    let registry = load_plugins();
    let failure = load_config(&registry, "this is not [ valid toml").unwrap_err();
    match failure {
        Error::Parse { messages } => assert!(!messages.is_empty()),
        other => panic!("expected a parse error, got {:?}", other),
    }
}

#[test]
fn valid_config_loads_every_section() {
    let registry = load_plugins();
    let text = "[one]\ntype = \"sensor:heartbeat\"\n\n[two]\ntype = \"sensor:threshold\"\nvalue = 1\nlimit = 5\n";
    let plugins = load_config(&registry, text).expect("config loads");
    assert_eq!(plugins.len(), 2);
}

#[test]
fn a_failing_file_does_not_skip_the_next_file() {
    let registry = load_plugins();
    let files = vec![
        ("broken.toml".to_string(), "not [ valid".to_string()),
        (
            "good.toml".to_string(),
            "[one]\ntype = \"sensor:heartbeat\"\n".to_string(),
        ),
    ];
    let errors = load_configs(&registry, &files).unwrap_err();
    assert_eq!(errors.len(), 1);
    match &errors[0] {
        Error::File { path, cause } => {
            assert_eq!(path, "broken.toml");
            assert!(matches!(**cause, Error::Parse { .. }));
        },
        other => panic!("expected a file error, got {:?}", other),
    }
}

#[test]
fn every_failing_file_is_reported_with_its_path() {
    let registry = load_plugins();
    let files = vec![
        ("first.toml".to_string(), "not [ valid".to_string()),
        (
            "second.toml".to_string(),
            "[one]\ntype = \"sensor:heartbeat\"\n".to_string(),
        ),
        (
            "third.toml".to_string(),
            "[bad]\ntype = \"sensor:disk\"\n".to_string(),
        ),
    ];
    let errors = load_configs(&registry, &files).unwrap_err();
    assert_eq!(errors.len(), 2);
    match &errors[0] {
        Error::File { path, .. } => assert_eq!(path, "first.toml"),
        other => panic!("expected a file error, got {:?}", other),
    }
    match &errors[1] {
        Error::File { path, cause } => {
            assert_eq!(path, "third.toml");
            match &**cause {
                Error::Section { name, cause } => {
                    assert_eq!(name, "bad");
                    assert!(matches!(&**cause, Error::MissingPlugin { .. }));
                },
                other => panic!("expected a section error, got {:?}", other),
            }
        },
        other => panic!("expected a file error, got {:?}", other),
    }
}

#[test]
fn configs_that_all_load_are_concatenated_in_order() {
    let registry = load_plugins();
    let files = vec![
        (
            "a.toml".to_string(),
            "[one]\ntype = \"sensor:heartbeat\"\n".to_string(),
        ),
        (
            "b.toml".to_string(),
            "[two]\ntype = \"sensor:heartbeat\"\n\n[three]\ntype = \"sensor:heartbeat\"\n".to_string(),
        ),
    ];
    let plugins = load_configs(&registry, &files).expect("all files load");
    assert_eq!(plugins.len(), 3);
}

#[test]
fn context_errors_expose_their_cause() {
    let registry = load_plugins();
    let failure = load_config(&registry, "[s]\nname = 1\n").unwrap_err();
    let cause = failure.cause().expect("a section error has a cause");
    assert!(matches!(cause, Error::Decode));
    assert!(cause.cause().is_none());
}
