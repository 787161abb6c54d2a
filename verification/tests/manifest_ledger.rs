use charoite::build_system::BuildSystem;
use charoite::ledger::{delete, upsert, InstalledPackage};
use charoite::manifest::detect_from_manifest;
use charoite::remove::{remove_plan, RemoveError};

fn record(name: &str, location: &str) -> InstalledPackage {
    InstalledPackage {
        name: name.to_string(),
        source: None,
        build_system: "Make".to_string(),
        location: location.to_string(),
        build_file: Some("Makefile".to_string()),
        hash: None,
        version: None,
        last_commit_hash: None,
        install_date: None,
        last_commit_date: None,
    }
}

fn names(l: &[InstalledPackage]) -> Vec<String> {
    l.iter().map(|p| p.name.clone()).collect()
}

#[test]
fn manifest_overrides_generic_detection() {
    let text = r#"{"build_system":"cargo","dependencies":["openssl","zlib"],"flags":["--locked"]}"#;
    let d = detect_from_manifest("charoite.json", text).unwrap();
    assert_eq!(d.backend, BuildSystem::Cargo);
    assert_eq!(d.marker_file, Some("charoite.json".to_string()));
    assert_eq!(d.dependencies, vec!["openssl".to_string(), "zlib".to_string()]);
    assert_eq!(d.extra_flags, vec!["--locked".to_string()]);
}

#[test]
fn manifest_without_backend_means_make() {
    let d = detect_from_manifest("radon.json", r#"{"dependencies":[]}"#).unwrap();
    assert_eq!(d.backend, BuildSystem::Make);
    assert_eq!(d.dependencies, Vec::<String>::new());
    assert_eq!(d.extra_flags, Vec::<String>::new());
}

#[test]
fn manifest_with_unrecognised_backend_is_unknown() {
    let d = detect_from_manifest("charoite.json", r#"{"build_system":"bazel"}"#).unwrap();
    assert_eq!(d.backend, BuildSystem::Unknown);
}

#[test]
fn malformed_manifest_is_fatal() {
    assert!(detect_from_manifest("charoite.json", "not json at all").is_none());
}

#[test]
fn upsert_appends_new_names_in_order() {
    let l = upsert(Vec::new(), record("a", "/usr/local/bin/a"));
    let l = upsert(l, record("b", "/usr/local/bin/b"));
    assert_eq!(names(&l), vec!["a".to_string(), "b".to_string()]);
}

#[test]
fn upsert_twice_keeps_one_record_with_the_new_fields() {
    let l = upsert(Vec::new(), record("a", "/usr/local/bin/a"));
    let l = upsert(l, record("b", "/usr/local/bin/b"));
    let mut newer = record("a", "/usr/local/bin/a");
    newer.version = Some("2.0".to_string());
    let l = upsert(l, newer);
    assert_eq!(names(&l), vec!["b".to_string(), "a".to_string()]);
    let l2 = {
        let mut again = record("a", "/usr/local/bin/a");
        again.version = Some("2.0".to_string());
        upsert(l, again)
    };
    assert_eq!(names(&l2), vec!["b".to_string(), "a".to_string()]);
    let a: Vec<&InstalledPackage> = l2.iter().filter(|p| p.name == "a").collect();
    assert_eq!(a.len(), 1);
    assert_eq!(a[0].version, Some("2.0".to_string()));
}

#[test]
fn delete_removes_exactly_the_named_record() {
    let l = upsert(Vec::new(), record("a", "/usr/local/bin/a"));
    let l = upsert(l, record("b", "/usr/local/bin/b"));
    let l = delete(l, "a").unwrap();
    assert_eq!(names(&l), vec!["b".to_string()]);
}

#[test]
fn delete_of_an_absent_name_reports_not_found() {
    let l = upsert(Vec::new(), record("a", "/usr/local/bin/a"));
    assert!(delete(l, "zzz").is_none());
}

#[test]
fn remove_plan_not_found() {
    let l = vec![record("a", "/usr/local/bin/a")];
    match remove_plan(l, "other", true) {
        Err(RemoveError::NotFound) => {},
        _ => panic!("expected a not-found error"),
    }
}

#[test]
fn remove_plan_missing_artifact() {
    let l = vec![record("a", "/usr/local/bin/a")];
    match remove_plan(l, "a", false) {
        Err(RemoveError::ArtifactMissing) => {},
        _ => panic!("expected a missing-artifact error"),
    }
}

#[test]
fn remove_plan_elevates_for_system_directories() {
    let l = vec![record("a", "/usr/local/bin/a"), record("b", "/usr/local/bin/b")];
    let plan = remove_plan(l, "a", true).unwrap();
    assert_eq!(plan.command.program, "rm");
    assert_eq!(plan.command.args, vec!["-f".to_string(), "/usr/local/bin/a".to_string()]);
    assert!(plan.command.elevate);
    assert_eq!(names(&plan.remaining), vec!["b".to_string()]);
}

#[test]
fn remove_plan_stays_plain_outside_system_directories() {
    let l = vec![record("a", "/home/u/.local/bin/a")];
    let plan = remove_plan(l, "a", true).unwrap();
    assert!(!plan.command.elevate);
    assert_eq!(plan.remaining.len(), 0);
}
