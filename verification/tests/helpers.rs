use charoite::build_system::{backend_from_name, backend_label, fixed_deps, BuildSystem};
use charoite::digest::content_hash;
use charoite::extract::extract_cargo_version;
use charoite::extract::parse_cargo_deps;
use charoite::location::{
    clone_url, get_install_path, get_privilege_command, host_domain, parent_dir, repo_name_of,
    source_tag,
};

#[test]
fn backend_names_round_between_manifest_and_ledger() {
    assert_eq!(backend_from_name("cargo"), BuildSystem::Cargo);
    assert_eq!(backend_from_name("make"), BuildSystem::Make);
    assert_eq!(backend_from_name("meson"), BuildSystem::Meson);
    assert_eq!(backend_from_name("bazel"), BuildSystem::Unknown);
    assert_eq!(backend_label(BuildSystem::Cargo), "Cargo");
    assert_eq!(backend_label(BuildSystem::Autotools), "Autotools");
}

#[test]
fn fixed_dependency_sets() {
    assert_eq!(fixed_deps(BuildSystem::Cmake), vec!["cmake".to_string()]);
    assert_eq!(fixed_deps(BuildSystem::Meson), vec!["meson".to_string(), "ninja".to_string()]);
    assert_eq!(fixed_deps(BuildSystem::Nimble), vec!["nim".to_string(), "nimble".to_string()]);
    assert_eq!(fixed_deps(BuildSystem::Make), Vec::<String>::new());
}

#[test]
fn install_locations_are_the_two_canonical_ones() {
    let local = get_install_path(true, "/home/u");
    assert_eq!(local.bin_path, "/home/u/.local/bin");
    assert!(!local.elevate);
    let system = get_install_path(false, "/home/u");
    assert_eq!(system.bin_path, "/usr/local/bin");
    assert!(system.elevate);
}

#[test]
fn privilege_command_prefers_doas() {
    assert_eq!(get_privilege_command(true), "doas");
    assert_eq!(get_privilege_command(false), "sudo");
}

#[test]
fn repository_coordinates() {
    assert_eq!(host_domain(false, false), "github.com");
    assert_eq!(host_domain(true, false), "gitlab.com");
    assert_eq!(host_domain(false, true), "codeberg.org");
    assert_eq!(host_domain(true, true), "codeberg.org");
    assert_eq!(source_tag(false, false), None);
    assert_eq!(source_tag(true, false), Some("gitlab".to_string()));
    assert_eq!(source_tag(false, true), Some("codeberg".to_string()));
    assert_eq!(clone_url("github.com", "user/repo"), "https://github.com/user/repo");
    assert_eq!(repo_name_of("user/repo"), "repo");
    assert_eq!(repo_name_of("repo"), "repo");
}

#[test]
fn parent_directories() {
    assert_eq!(parent_dir("/usr/local/bin"), "/usr/local");
    assert_eq!(parent_dir("/home/u/.local/bin"), "/home/u/.local");
    assert_eq!(parent_dir("plain"), "");
}

#[test]
fn content_hash_is_the_sha256_hex() {
    assert_eq!(
        content_hash(&[]),
        "e3b0c44298fc1c149afbf4c8996fb92427ae41e4649b934ca495991b7852b855",
    );
    assert_eq!(
        content_hash(b"abc"),
        "ba7816bf8f01cfea414140de5dae2223b00361a396177a9cb410ff61f20015ad",
    );
}

#[test]
fn cargo_metadata_dependencies_are_read_or_default_empty() {
    let json = r#"{"package":{"metadata":{"charoite":{"dependencies":["zlib","openssl"]}}}}"#;
    assert_eq!(parse_cargo_deps(json), vec!["zlib".to_string(), "openssl".to_string()]);
    // a manifest that does not parse as JSON yields no dependencies
    assert_eq!(parse_cargo_deps("[package]\nname = \"x\"\n"), Vec::<String>::new());
    // a JSON manifest without the metadata table yields none either
    assert_eq!(parse_cargo_deps(r#"{"package":{}}"#), Vec::<String>::new());
}

#[test]
fn cargo_version_is_read_from_the_manifest_text() {
    let text = "[package]\nname = \"x\"\nversion = \"1.2.3\"\n";
    assert_eq!(extract_cargo_version(text), Some("1.2.3".to_string()));
    assert_eq!(extract_cargo_version("[package]\nname = \"x\"\n"), None);
    assert_eq!(extract_cargo_version("version = broken\n"), None);
}
