use attest::config::RunConfig;
use attest::engine::build_plan;
use attest::staleness::CacheState;

fn config(build: Option<Vec<&str>>, deps: Option<Vec<&str>>) -> RunConfig {
    RunConfig {
        build: build.map(|b| b.into_iter().map(String::from).collect()),
        run: vec!["./a.out".to_string()],
        test: None,
        file_path: Some("main.cpp".to_string()),
        deps_files: deps.map(|d| d.into_iter().map(String::from).collect()),
    }
}

#[test]
fn second_check_needs_no_build() {
    let cfg = config(Some(vec!["g++", "main.cpp"]), Some(vec!["lib.h"]));
    let deps = vec!["int f();".to_string()];
    let mut cache = CacheState::new();
    assert!(cache.needs_build(&cfg, Some("int main(){}"), &deps, false));
    assert!(!cache.needs_build(&cfg, Some("int main(){}"), &deps, false));
    assert!(!cache.needs_build(&cfg, Some("int main(){}"), &deps, false));
}

#[test]
fn forced_build_always_builds_then_settles() {
    let cfg = config(Some(vec!["make"]), None);
    let mut cache = CacheState::new();
    assert!(cache.needs_build(&cfg, Some("x"), &Vec::new(), true));
    assert!(cache.needs_build(&cfg, Some("x"), &Vec::new(), true));
    assert!(!cache.needs_build(&cfg, Some("x"), &Vec::new(), false));
}

#[test]
fn changed_source_needs_build() {
    let cfg = config(Some(vec!["make"]), None);
    let mut cache = CacheState::new();
    cache.needs_build(&cfg, Some("version one"), &Vec::new(), false);
    assert!(cache.needs_build(&cfg, Some("version two"), &Vec::new(), false));
    assert!(!cache.needs_build(&cfg, Some("version two"), &Vec::new(), false));
}

#[test]
fn missing_source_does_not_force_build() {
    let cfg = config(Some(vec!["make"]), None);
    let mut cache = CacheState::new();
    cache.needs_build(&cfg, None, &Vec::new(), false);
    assert!(!cache.needs_build(&cfg, None, &Vec::new(), false));
    assert_eq!(cache.source_fingerprint, None);
}

#[test]
fn changed_configuration_needs_build() {
    let mut cache = CacheState::new();
    let a = config(Some(vec!["make"]), None);
    let b = config(Some(vec!["make", "-j"]), None);
    cache.needs_build(&a, Some("s"), &Vec::new(), false);
    assert!(cache.needs_build(&b, Some("s"), &Vec::new(), false));
    assert!(!cache.needs_build(&b, Some("s"), &Vec::new(), false));
}

#[test]
fn changed_dependency_needs_build() {
    let cfg = config(Some(vec!["make"]), Some(vec!["a.h", "b.h"]));
    let mut cache = CacheState::new();
    let v1 = vec!["A".to_string(), "B".to_string()];
    let v2 = vec!["A".to_string(), "B2".to_string()];
    cache.needs_build(&cfg, Some("s"), &v1, false);
    assert!(!cache.needs_build(&cfg, Some("s"), &v1, false));
    assert!(cache.needs_build(&cfg, Some("s"), &v2, false));
    assert!(!cache.needs_build(&cfg, Some("s"), &v2, false));
}

#[test]
fn removed_dependency_needs_build() {
    let mut cache = CacheState::new();
    let two = vec!["A".to_string(), "B".to_string()];
    let ab = Some(vec!["a.h".to_string(), "b.h".to_string()]);
    let a = Some(vec!["a.h".to_string()]);
    cache.check_deps(&ab, &two);
    assert!(cache.check_deps(&ab, &two));
    assert!(!cache.check_deps(&a, &vec!["A".to_string()]));
    assert_eq!(cache.dependency_fingerprints.len(), 1);
    assert!(cache.check_deps(&None, &Vec::new()));
}

#[test]
fn source_check_records_fingerprint() {
    let mut cache = CacheState::new();
    assert!(cache.check_source(None));
    assert!(!cache.check_source(Some("abc")));
    let first = cache.source_fingerprint;
    assert!(first.is_some());
    assert!(cache.check_source(Some("abc")));
    assert!(!cache.check_source(Some("abd")));
    assert_ne!(cache.source_fingerprint, first);
}

#[test]
fn config_check_records_snapshot() {
    let mut cache = CacheState::new();
    let a = config(None, None);
    assert!(!cache.check_config(&a));
    assert!(cache.check_config(&a));
    assert!(cache.config_snapshot.is_some());
}

#[test]
fn no_build_entry_builds_nothing() {
    let cfg = config(None, None);
    let mut cache = CacheState::new();
    assert!(build_plan(&cfg, &mut cache, Some("s"), &Vec::new(), true).is_none());
    assert!(cache.config_snapshot.is_none());
}

#[test]
fn empty_build_entry_builds_nothing() {
    let cfg = config(Some(Vec::new()), None);
    let mut cache = CacheState::new();
    assert!(build_plan(&cfg, &mut cache, Some("s"), &Vec::new(), true).is_none());
}

#[test]
fn stale_build_entry_gives_command() {
    let cfg = config(Some(vec!["g++", "-O2", "main.cpp"]), None);
    let mut cache = CacheState::new();
    let c = build_plan(&cfg, &mut cache, Some("s"), &Vec::new(), false).unwrap();
    assert_eq!(c.program, "g++");
    assert_eq!(c.args, vec!["-O2", "main.cpp"]);
    assert_eq!(c.input, "");
    assert!(build_plan(&cfg, &mut cache, Some("s"), &Vec::new(), false).is_none());
}
