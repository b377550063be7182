use mt::capability::CoreMT;
use mt::config::common::Frequency;
use mt::config::document::Entry;
use mt::config::{Config, ConfigError, InnerConfig, MTConfig};
use mt::tonality::note::Note;

const SECTIONS: &str = "[tonality]\n[timbre]\n[stracture]\n[harmony]\n[stream]\n";

fn document(hz: &str) -> String {
    format!("hz = {}\n{}", hz, SECTIONS)
}

fn hz(c: &InnerConfig) -> f32 {
    match c.common.hz {
        Frequency::Float(bits) => f64::from_bits(bits) as f32,
        Frequency::Integer(i) => i as f32,
    }
}

#[test]
fn test_confiog() {}

#[test]
fn minimal_document_loads() {
    let c = InnerConfig::new(&document("440.0")).unwrap();
    assert_eq!(hz(&c), 440.0);
    assert_eq!(c.common.hz, Frequency::Float(440.0f64.to_bits()));
}

#[test]
fn happy_path_read_and_reload() {
    let doc = document("440.0");
    let mut handle = Config::new("mt.toml", Some(&doc)).unwrap();
    assert_eq!(handle.path(), "mt.toml");
    let snap = handle.read();
    assert_eq!(snap.path, "mt.toml");
    assert_eq!(hz(&snap.config), 440.0f32);
    assert!(handle.reload(Some(&doc)));
    assert_eq!(hz(&handle.read().config), 440.0);
}

#[test]
fn reload_swaps_value() {
    let mut handle = Config::new("mt.toml", Some(&document("440.0"))).unwrap();
    assert!(handle.reload(Some(&document("432.0"))));
    assert_eq!(hz(&handle.read().config), 432.0);
}

#[test]
fn failed_reload_preserves_state() {
    let mut handle = Config::new("mt.toml", Some(&document("440.0"))).unwrap();
    assert!(!handle.reload(Some(&document("\"not a number\""))));
    assert_eq!(hz(&handle.read().config), 440.0);
    assert!(!handle.reload(None));
    assert_eq!(hz(&handle.read().config), 440.0);
}

#[test]
fn missing_section_is_schema_error() {
    let doc = "hz = 440.0\n[tonality]\n[timbre]\n[stracture]\n[stream]\n";
    assert_eq!(InnerConfig::new(doc), Err(ConfigError::Schema));
    assert!(matches!(Config::new("mt.toml", Some(doc)), Err(ConfigError::Schema)));
    let mut handle = Config::new("mt.toml", Some(&document("440.0"))).unwrap();
    assert!(!handle.reload(Some(doc)));
    assert_eq!(hz(&handle.read().config), 440.0);
}

#[test]
fn missing_frequency_is_schema_error() {
    assert_eq!(InnerConfig::new(SECTIONS), Err(ConfigError::Schema));
}

#[test]
fn unknown_root_key_is_schema_error() {
    let doc = format!("hz = 440.0\ntempo = 120\n{}", SECTIONS);
    assert_eq!(InnerConfig::new(&doc), Err(ConfigError::Schema));
    let doc = format!("{}[extra]\n", document("440.0"));
    assert_eq!(InnerConfig::new(&doc), Err(ConfigError::Schema));
}

#[test]
fn unknown_section_field_is_schema_error() {
    let doc = "hz = 440.0\n[tonality]\nroot = \"C\"\n[timbre]\n[stracture]\n[harmony]\n[stream]\n";
    assert_eq!(InnerConfig::new(doc), Err(ConfigError::Schema));
}

#[test]
fn common_as_section_is_schema_error() {
    let doc = format!("[common]\nhz = 440.0\n{}", SECTIONS);
    assert_eq!(InnerConfig::new(&doc), Err(ConfigError::Schema));
}

#[test]
fn wrong_types_are_schema_errors() {
    assert_eq!(InnerConfig::new(&document("true")), Err(ConfigError::Schema));
    let doc = "hz = 440.0\ntonality = 1\n[timbre]\n[stracture]\n[harmony]\n[stream]\n";
    assert_eq!(InnerConfig::new(doc), Err(ConfigError::Schema));
}

#[test]
fn whole_number_frequency_loads() {
    let c = InnerConfig::new(&document("440")).unwrap();
    assert_eq!(c.common.hz, Frequency::Integer(440));
    assert_eq!(hz(&c), 440.0);
}

#[test]
fn invalid_text_is_schema_error() {
    assert_eq!(InnerConfig::new("hz = = 440.0"), Err(ConfigError::Schema));
    let doc = format!("hz = 440.0\nhz = 432.0\n{}", SECTIONS);
    assert_eq!(InnerConfig::new(&doc), Err(ConfigError::Schema));
}

#[test]
fn unreadable_file_is_io_error() {
    assert!(matches!(MTConfig::new("missing.toml", None), Err(ConfigError::Io)));
    assert!(matches!(Config::new("missing.toml", None), Err(ConfigError::Io)));
}

#[test]
fn table_binds_to_schema() {
    let mut t = toml::Table::new();
    t.insert("hz".to_string(), toml::Value::Float(432.0));
    for s in ["tonality", "timbre", "stracture", "harmony", "stream"] {
        t.insert(s.to_string(), toml::Value::Table(toml::Table::new()));
    }
    let c = InnerConfig::from_table(&t).unwrap();
    assert_eq!(hz(&c), 432.0);
    t.insert("hz".to_string(), toml::Value::Integer(415));
    assert_eq!(InnerConfig::from_table(&t).unwrap().common.hz, Frequency::Integer(415));
    t.insert("hz".to_string(), toml::Value::String("440".to_string()));
    assert_eq!(InnerConfig::from_table(&t), Err(ConfigError::Schema));
    t.insert("common".to_string(), toml::Value::Table(toml::Table::new()));
    assert_eq!(InnerConfig::from_table(&t), Err(ConfigError::Schema));
}

#[test]
fn entry_kinds() {
    assert_ne!(Entry::Float(0), Entry::Table(0));
    assert_ne!(Entry::Table(0), Entry::Table(1));
    assert_ne!(Entry::Integer(0), Entry::Other);
}

#[test]
fn mtconfig_reload_is_all_or_nothing() {
    let mut m = MTConfig::new("mt.toml", Some(&document("440.0"))).unwrap();
    let before = m.snapshot();
    assert!(!m.reload(Some("not toml at all =")));
    assert_eq!(m.snapshot(), before);
    assert_eq!(m.path, "mt.toml");
    assert!(m.reload(Some(&document("432.0"))));
    assert_eq!(hz(&m.snapshot()), 432.0);
    assert_eq!(hz(&before), 440.0);
}

#[test]
fn snapshot_independent_of_reload() {
    let mut handle = Config::new("mt.toml", Some(&document("440.0"))).unwrap();
    let snap = handle.read();
    assert!(handle.reload(Some(&document("432.0"))));
    assert_eq!(hz(&snap.config), 440.0);
    assert_eq!(hz(&handle.read().config), 432.0);
}

#[test]
fn interleaved_reads_see_whole_versions() {
    let mut handle = Config::new("mt.toml", Some(&document("440.0"))).unwrap();
    let docs = [document("440.0"), document("432.0")];
    for i in 0..50 {
        let before = handle.read();
        assert!(handle.reload(Some(&docs[(i + 1) % 2])));
        let after = handle.read();
        assert_eq!(hz(&before.config), if i % 2 == 0 { 440.0 } else { 432.0 });
        assert_eq!(hz(&after.config), if i % 2 == 0 { 432.0 } else { 440.0 });
        assert_eq!(after.path, "mt.toml");
    }
}

#[test]
fn capability_reads_through_handle() {
    let handle = Config::new("mt.toml", Some(&document("432.0"))).unwrap();
    let c = <Note as CoreMT>::config(&handle);
    let d = handle.read();
    assert_eq!(c.config, d.config);
    assert_eq!(c.path, "mt.toml");
    assert_eq!(hz(&c.config), 432.0);
}
