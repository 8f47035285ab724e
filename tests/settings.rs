use accelerator::config::Config;
use accelerator::error::AcceleratorError;

const DOC: &str = "[linux64]\nqueue = \"55 48 89 e5\"\ncount = 3\n[win64]\npoll = \"48 83\"\nplain = 1\n";

#[test]
fn section_values_are_read() {
    let config = Config::parse(DOC, "linux64").unwrap();
    assert_eq!(config.get_value("queue").unwrap(), "55 48 89 e5");
    let other = Config::parse(DOC, "win64").unwrap();
    assert_eq!(other.get_value("poll").unwrap(), "48 83");
}

#[test]
fn missing_section_is_reported() {
    match Config::parse(DOC, "linux32") {
        Err(AcceleratorError::EntryMissing(k)) => assert_eq!(k, "linux32"),
        other => panic!("unexpected {:?}", other),
    }
}

#[test]
fn section_that_is_no_table_is_invalid() {
    match Config::parse(DOC, "plain") {
        Err(AcceleratorError::EntryMissing(k)) => assert_eq!(k, "plain"),
        other => panic!("unexpected {:?}", other),
    }
    match Config::parse("plain = 1\n", "plain") {
        Err(AcceleratorError::EntryInvalid(k)) => assert_eq!(k, "plain"),
        other => panic!("unexpected {:?}", other),
    }
}

#[test]
fn malformed_text_is_rejected() {
    assert!(matches!(
        Config::parse("[linux64\nqueue = ", "linux64"),
        Err(AcceleratorError::MalformedConfig)
    ));
    assert_eq!(AcceleratorError::MalformedConfig.message(), "config is no valid TOML");
}

#[test]
fn values_that_are_no_strings_are_invalid() {
    let config = Config::parse(DOC, "linux64").unwrap();
    match config.get_value("count") {
        Err(AcceleratorError::EntryInvalid(k)) => assert_eq!(k, "count"),
        other => panic!("unexpected {:?}", other),
    }
    match config.get_value("absent") {
        Err(AcceleratorError::EntryMissing(k)) => assert_eq!(k, "absent"),
        other => panic!("unexpected {:?}", other),
    }
}

#[test]
fn section_from_built_table() {
    let mut inner = toml::Table::new();
    inner.insert("key".to_string(), toml::Value::String("value".to_string()));
    let mut doc = toml::Table::new();
    doc.insert("target".to_string(), toml::Value::Table(inner));
    doc.insert("number".to_string(), toml::Value::Integer(4));
    let config = Config::from_table(doc.clone(), "target").unwrap();
    assert_eq!(config.get_value("key").unwrap(), "value");
    assert!(matches!(Config::from_table(doc.clone(), "number"), Err(AcceleratorError::EntryInvalid(_))));
    assert!(matches!(Config::from_table(doc, "none"), Err(AcceleratorError::EntryMissing(_))));
}
