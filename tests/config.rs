use attest::config::{get_string_list, ConfigError, ConfigKey, ConfigValue, ListItem, RunConfig};

fn text(s: &str) -> ConfigValue {
    ConfigValue::Text(s.to_string())
}

fn list(items: &[&str]) -> ConfigValue {
    ConfigValue::List(items.iter().map(|s| ListItem::Text(s.to_string())).collect())
}

fn entry(k: &str, v: ConfigValue) -> (String, ConfigValue) {
    (k.to_string(), v)
}

#[test]
fn full_configuration_is_read() {
    let entries = vec![
        entry("build", list(&["g++", "main.cpp"])),
        entry("run", list(&["./a.out"])),
        entry("test", list(&["python3", "judge.py"])),
        entry("file_path", text("main.cpp")),
        entry("deps_files", list(&["lib.h"])),
        entry("lang", text("5001")),
    ];
    let c = RunConfig::from_entries(&entries).unwrap();
    assert_eq!(c.build, Some(vec!["g++".to_string(), "main.cpp".to_string()]));
    assert_eq!(c.run, vec!["./a.out".to_string()]);
    assert_eq!(c.test, Some(vec!["python3".to_string(), "judge.py".to_string()]));
    assert_eq!(c.file_path, Some("main.cpp".to_string()));
    assert_eq!(c.deps_files, Some(vec!["lib.h".to_string()]));
}

#[test]
fn run_alone_is_enough() {
    let c = RunConfig::from_entries(&vec![entry("run", list(&["cat"]))]).unwrap();
    assert_eq!(c.build, None);
    assert_eq!(c.test, None);
    assert_eq!(c.file_path, None);
    assert_eq!(c.deps_files, None);
}

#[test]
fn missing_run_is_an_error() {
    let r = RunConfig::from_entries(&vec![entry("build", list(&["make"]))]);
    assert!(matches!(r, Err(ConfigError::MissingRun)));
}

#[test]
fn empty_run_is_an_error() {
    let r = RunConfig::from_entries(&vec![entry("run", list(&[]))]);
    assert!(matches!(r, Err(ConfigError::EmptyRun)));
}

#[test]
fn run_that_is_not_a_list_is_an_error() {
    let r = RunConfig::from_entries(&vec![entry("run", text("cat"))]);
    assert!(matches!(r, Err(ConfigError::NotList(ConfigKey::Run))));
}

#[test]
fn build_item_that_is_not_text_is_an_error() {
    let entries = vec![
        entry("build", ConfigValue::List(vec![ListItem::Other])),
        entry("run", list(&["cat"])),
    ];
    let r = RunConfig::from_entries(&entries);
    assert!(matches!(r, Err(ConfigError::NotText(ConfigKey::Build))));
}

#[test]
fn file_path_that_is_not_text_is_an_error() {
    let entries = vec![entry("run", list(&["cat"])), entry("file_path", ConfigValue::Other)];
    let r = RunConfig::from_entries(&entries);
    assert!(matches!(r, Err(ConfigError::NotText(ConfigKey::FilePath))));
}

#[test]
fn deps_that_are_not_a_list_count_as_absent() {
    let entries = vec![entry("run", list(&["cat"])), entry("deps_files", text("lib.h"))];
    let c = RunConfig::from_entries(&entries).unwrap();
    assert_eq!(c.deps_files, None);
}

#[test]
fn first_entry_of_a_key_wins() {
    let entries = vec![entry("test", list(&["a"])), entry("test", list(&["b"]))];
    let r = get_string_list(&entries, ConfigKey::Test).unwrap();
    assert_eq!(r, Some(vec!["a".to_string()]));
    assert_eq!(get_string_list(&entries, ConfigKey::Build).unwrap(), None);
}

#[test]
fn configurations_compare_by_value() {
    let a = RunConfig::from_entries(&vec![entry("run", list(&["cat"]))]).unwrap();
    let b = a.duplicate();
    assert!(a.same_as(&b));
    let c = RunConfig::from_entries(&vec![entry("run", list(&["cat", "-n"]))]).unwrap();
    assert!(!a.same_as(&c));
}

#[test]
fn configuration_from_toml_text() {
    let text = "build = [\"g++\", \"main.cpp\"]\nrun = [\"./a.out\"]\nfile_path = \"main.cpp\"\nlang = \"5001\"\n";
    let c = RunConfig::parse(text).unwrap();
    assert_eq!(c.build, Some(vec!["g++".to_string(), "main.cpp".to_string()]));
    assert_eq!(c.run, vec!["./a.out".to_string()]);
    assert_eq!(c.file_path, Some("main.cpp".to_string()));
}

#[test]
fn toml_values_are_classified() {
    let t = attest::config::config_table("run = [\"a\", 1]\nn = 3\ns = \"x\"\n").unwrap();
    assert_eq!(t.len(), 3);
    assert!(matches!(RunConfig::from_entries(&t), Err(ConfigError::NotText(ConfigKey::Run))));
    assert!(t.iter().any(|(k, v)| k == "n" && matches!(v, ConfigValue::Other)));
    assert!(t.iter().any(|(k, v)| k == "s" && matches!(v, ConfigValue::Text(x) if x == "x")));
}

#[test]
fn malformed_toml_is_an_error() {
    assert!(matches!(RunConfig::parse("run = ["), Err(ConfigError::Malformed)));
    assert!(matches!(RunConfig::parse(""), Err(ConfigError::MissingRun)));
}

#[test]
fn ignored_deps_entry_is_detected() {
    let t = attest::config::config_table("run = [\"a\"]\ndeps_files = \"x.h\"\n").unwrap();
    assert!(attest::config::deps_ignored(&t));
    let t = attest::config::config_table("run = [\"a\"]\ndeps_files = [\"x.h\"]\n").unwrap();
    assert!(!attest::config::deps_ignored(&t));
}

#[test]
fn configuration_error_messages() {
    let minus = "\x1b[31m[-]\x1b[m";
    assert_eq!(
        ConfigError::MissingRun.message(),
        format!("{} \"attest.toml\" must have \"run\" value", minus)
    );
    assert_eq!(
        ConfigError::NotList(ConfigKey::Build).message(),
        format!("{} \"build\" value has to be array", minus)
    );
    assert_eq!(
        ConfigError::NotText(ConfigKey::Test).message(),
        format!("{} items of \"test\" value have to be string", minus)
    );
    assert_eq!(
        ConfigError::NotText(ConfigKey::FilePath).message(),
        format!("{} the \"file_path\" value has to be string", minus)
    );
    assert_eq!(
        ConfigError::Malformed.message(),
        format!("{} \"attest.toml\" has wrong format", minus)
    );
    assert_eq!(
        ConfigError::EmptyRun.message(),
        format!("{} the length of \"run\" value has to be more than 0", minus)
    );
}
