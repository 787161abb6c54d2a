use charoite::build_system::BuildSystem;
use charoite::install::{
    cargo_install_steps, install_cmds, install_kind, pip_install_cmd, pip_requirements_cmd,
    stack_install_step, InstallKind, InstallStep,
};
use charoite::location::{get_install_path, InstallLocation};
use charoite::plan::{build_plan, needs_build_subdir, WorkDir};

fn flags(xs: &[&str]) -> Vec<String> {
    xs.iter().map(|s| s.to_string()).collect()
}

fn system_location() -> InstallLocation {
    get_install_path(false, "/home/u")
}

fn local_location() -> InstallLocation {
    get_install_path(true, "/home/u")
}

#[test]
fn make_build_joins_flags_into_one_argument() {
    let cmds = build_plan(BuildSystem::Make, &flags(&["-j4", "V=1"]), false).unwrap();
    assert_eq!(cmds.len(), 1);
    assert_eq!(cmds[0].program, "make");
    assert_eq!(cmds[0].args, vec!["-f".to_string(), "Makefile".to_string(), "-j4 V=1".to_string()]);
    assert!(!cmds[0].elevate);
    assert_eq!(cmds[0].dir, WorkDir::Source);
}

#[test]
fn make_build_prefers_the_bsd_makefile_when_present() {
    let cmds = build_plan(BuildSystem::Make, &flags(&[]), true).unwrap();
    assert_eq!(cmds[0].args[1], "BSDMakefile");
}

#[test]
fn autotools_build_configures_then_makes() {
    let cmds = build_plan(BuildSystem::Autotools, &flags(&["--prefix=/usr"]), false).unwrap();
    assert_eq!(cmds.len(), 2);
    assert_eq!(cmds[0].program, "./configure");
    assert_eq!(cmds[0].args, vec!["--prefix=/usr".to_string()]);
    assert_eq!(cmds[1].program, "make");
    assert_eq!(cmds[1].args, Vec::<String>::new());
}

#[test]
fn cargo_build_is_release_with_flags_appended() {
    let cmds = build_plan(BuildSystem::Cargo, &flags(&["--locked"]), false).unwrap();
    assert_eq!(cmds.len(), 1);
    assert_eq!(cmds[0].program, "cargo");
    assert_eq!(
        cmds[0].args,
        vec!["build".to_string(), "--release".to_string(), "--locked".to_string()],
    );
}

#[test]
fn cmake_and_meson_build_in_a_subdirectory() {
    assert!(needs_build_subdir(BuildSystem::Cmake));
    assert!(needs_build_subdir(BuildSystem::Meson));
    assert!(!needs_build_subdir(BuildSystem::Make));
    let cmds = build_plan(BuildSystem::Cmake, &flags(&[]), false).unwrap();
    assert_eq!(cmds.len(), 2);
    assert_eq!(cmds[0].args, vec!["-DCMAKE_BUILD_TYPE=Release".to_string(), "..".to_string()]);
    assert_eq!(cmds[0].dir, WorkDir::BuildSubdir);
    assert_eq!(cmds[1].args, vec!["--build".to_string(), ".".to_string()]);
    let cmds = build_plan(BuildSystem::Meson, &flags(&[]), false).unwrap();
    assert_eq!(cmds[0].program, "meson");
    assert_eq!(cmds[1].program, "ninja");
    assert_eq!(cmds[1].args, vec!["-C".to_string(), "build".to_string()]);
}

#[test]
fn stack_build_installs_to_its_bin() {
    let cmds = build_plan(BuildSystem::Stack, &flags(&[]), false).unwrap();
    assert_eq!(
        cmds[0].args,
        vec![
            "install".to_string(),
            "".to_string(),
            "--local-bin-path".to_string(),
            "bin".to_string(),
        ],
    );
}

#[test]
fn pip_has_no_build_step_and_unknown_no_plan() {
    assert_eq!(build_plan(BuildSystem::Pip, &flags(&[]), false).unwrap().len(), 0);
    assert!(build_plan(BuildSystem::Unknown, &flags(&[]), false).is_none());
}

#[test]
fn install_kinds_dispatch() {
    assert_eq!(install_kind(BuildSystem::Cargo), InstallKind::CargoCopy);
    assert_eq!(install_kind(BuildSystem::Stack), InstallKind::StackSearch);
    assert_eq!(install_kind(BuildSystem::Pip), InstallKind::PipInstall);
    assert_eq!(install_kind(BuildSystem::Make), InstallKind::Commands);
    assert_eq!(install_kind(BuildSystem::Unknown), InstallKind::Unsupported);
}

#[test]
fn make_install_uses_the_prefix_above_the_bin_directory() {
    let cmds = install_cmds(BuildSystem::Make, &local_location()).unwrap();
    assert_eq!(cmds.len(), 1);
    assert_eq!(cmds[0].program, "make");
    assert_eq!(cmds[0].args, vec!["install".to_string(), "PREFIX=/home/u/.local".to_string()]);
    assert!(!cmds[0].elevate);
}

#[test]
fn system_installs_are_elevated() {
    let cmds = install_cmds(BuildSystem::Cmake, &system_location()).unwrap();
    assert_eq!(cmds[0].args, vec!["--install".to_string(), ".".to_string()]);
    assert!(cmds[0].elevate);
    assert_eq!(cmds[0].dir, WorkDir::BuildSubdir);
    let cmds = install_cmds(BuildSystem::Ninja, &system_location()).unwrap();
    assert_eq!(cmds[0].program, "ninja");
    assert_eq!(cmds[0].args, vec!["install".to_string()]);
    assert!(install_cmds(BuildSystem::Cargo, &system_location()).is_none());
}

#[test]
fn cargo_install_copies_every_binary_once() {
    let binaries = flags(&["foo", "foo-cli"]);
    let steps = cargo_install_steps(&system_location(), "/tmp/build/foo", &binaries).unwrap();
    assert_eq!(steps.len(), 2);
    // the ledger is updated once, for the repository's own name only
    let record = charoite::ledger::InstalledPackage {
        name: "foo".to_string(),
        source: None,
        build_system: "Cargo".to_string(),
        location: "/usr/local/bin/foo".to_string(),
        build_file: Some("Cargo.toml".to_string()),
        hash: None,
        version: None,
        last_commit_hash: None,
        install_date: None,
        last_commit_date: None,
    };
    let ledger = charoite::ledger::upsert(Vec::new(), record);
    assert_eq!(ledger.len(), 1);
    assert_eq!(ledger[0].name, "foo");
    for (step, name) in steps.iter().zip(["foo", "foo-cli"]) {
        match step {
            InstallStep::Run(c) => {
                assert_eq!(c.program, "cp");
                assert_eq!(
                    c.args,
                    vec![
                        format!("/tmp/build/foo/target/release/{}", name),
                        format!("/usr/local/bin/{}", name),
                    ],
                );
                assert!(c.elevate);
            },
            InstallStep::CopyFile { .. } => panic!("system install must run an elevated copy"),
        }
    }
}

#[test]
fn local_cargo_install_copies_plainly() {
    let binaries = flags(&["foo"]);
    let steps = cargo_install_steps(&local_location(), "/tmp/build/foo", &binaries).unwrap();
    match &steps[0] {
        InstallStep::CopyFile { from, to } => {
            assert_eq!(from, "/tmp/build/foo/target/release/foo");
            assert_eq!(to, "/home/u/.local/bin/foo");
        },
        InstallStep::Run(_) => panic!("local install copies without elevation"),
    }
}

#[test]
fn cargo_install_with_nothing_built_fails() {
    assert!(cargo_install_steps(&system_location(), "/tmp/build/foo", &Vec::new()).is_none());
}

#[test]
fn stack_install_copies_the_found_binary_or_fails() {
    assert!(stack_install_step(&system_location(), "pkg", None).is_none());
    let step =
        stack_install_step(&local_location(), "pkg", Some("/tmp/build/pkg/bin/pkg".to_string()))
            .unwrap();
    match step {
        InstallStep::CopyFile { from, to } => {
            assert_eq!(from, "/tmp/build/pkg/bin/pkg");
            assert_eq!(to, "/home/u/.local/bin/pkg");
        },
        InstallStep::Run(_) => panic!("local install copies without elevation"),
    }
}

#[test]
fn pip_install_needs_pip_and_respects_the_location() {
    assert!(pip_install_cmd(&system_location(), false).is_none());
    let c = pip_install_cmd(&system_location(), true).unwrap();
    assert_eq!(c.args, vec!["install".to_string(), ".".to_string()]);
    assert!(c.elevate);
    let c = pip_install_cmd(&local_location(), true).unwrap();
    assert_eq!(c.args, vec!["install".to_string(), "--user".to_string(), ".".to_string()]);
    assert!(!c.elevate);
}

#[test]
fn pip_requirements_precede_the_install() {
    let c = pip_requirements_cmd(true, "/tmp/build/x/requirements.txt");
    assert_eq!(
        c.args,
        vec![
            "install".to_string(),
            "--user".to_string(),
            "-r".to_string(),
            "/tmp/build/x/requirements.txt".to_string(),
        ],
    );
    assert!(!c.elevate);
    let c = pip_requirements_cmd(false, "/tmp/build/x/requirements.txt");
    assert!(c.elevate);
    assert_eq!(c.args[0], "install");
    assert_eq!(c.args[1], "-r");
}
