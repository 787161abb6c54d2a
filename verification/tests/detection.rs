use charoite::build_system::BuildSystem;
use charoite::detect::{
    candidates, extraction_source, finish_detection, is_custom_marker, resolve_selection,
    ExtractionSource, TreeMarkers,
};
use charoite::extract::{parse_autotools_deps, parse_make_deps, uses_pkg_config};
use charoite::location::makefile_variant;

fn no_markers() -> TreeMarkers {
    TreeMarkers {
        radon_json: false,
        charoite_json: false,
        cargo_toml: false,
        makefile: false,
        configure: false,
        cmake_lists: false,
        meson_build: false,
        build_ninja: false,
        nimble: false,
        stack_yaml: false,
        requirements_txt: false,
    }
}

#[test]
fn single_marker_selects_without_prompt() {
    let mut m = no_markers();
    m.cargo_toml = true;
    let cands = candidates(&m);
    assert_eq!(cands.len(), 1);
    assert_eq!(cands[0].marker, "Cargo.toml");
    assert_eq!(cands[0].backend, BuildSystem::Cargo);
    // a single candidate is selected outright; no answer is consulted
    assert_eq!(resolve_selection(cands.len(), None), Some(0));
}

#[test]
fn each_generic_marker_maps_to_its_backend() {
    let cases: Vec<(fn(&mut TreeMarkers), &str, BuildSystem)> = vec![
        (|m| m.makefile = true, "Makefile", BuildSystem::Make),
        (|m| m.configure = true, "configure", BuildSystem::Autotools),
        (|m| m.cmake_lists = true, "CMakeLists.txt", BuildSystem::Cmake),
        (|m| m.meson_build = true, "meson.build", BuildSystem::Meson),
        (|m| m.build_ninja = true, "build.ninja", BuildSystem::Ninja),
        (|m| m.nimble = true, "*.nimble", BuildSystem::Nimble),
        (|m| m.stack_yaml = true, "stack.yaml", BuildSystem::Stack),
        (|m| m.requirements_txt = true, "requirements.txt", BuildSystem::Pip),
    ];
    for (set, marker, backend) in cases {
        let mut m = no_markers();
        set(&mut m);
        let cands = candidates(&m);
        assert_eq!(cands.len(), 1);
        assert_eq!(cands[0].marker, marker);
        assert_eq!(cands[0].backend, backend);
    }
}

#[test]
fn zero_markers_yield_nothing() {
    let m = no_markers();
    let cands = candidates(&m);
    assert_eq!(cands.len(), 0);
    assert_eq!(resolve_selection(0, None), None);
}

#[test]
fn ambiguous_detection_follows_the_answer() {
    let mut m = no_markers();
    m.cargo_toml = true;
    m.makefile = true;
    let cands = candidates(&m);
    assert_eq!(cands.len(), 2);
    assert_eq!(cands[0].marker, "Cargo.toml");
    assert_eq!(cands[1].marker, "Makefile");
    assert_eq!(resolve_selection(2, Some("1")), Some(0));
    assert_eq!(resolve_selection(2, Some("2")), Some(1));
    assert_eq!(resolve_selection(2, Some("9")), None);
    assert_eq!(resolve_selection(2, Some("abc")), None);
    assert_eq!(resolve_selection(2, Some("0")), None);
}

#[test]
fn custom_manifests_come_first() {
    let mut m = no_markers();
    m.charoite_json = true;
    m.cargo_toml = true;
    let cands = candidates(&m);
    assert_eq!(cands.len(), 2);
    assert_eq!(cands[0].marker, "charoite.json");
    assert_eq!(cands[0].backend, BuildSystem::Unknown);
    assert!(is_custom_marker(&cands[0].marker));
    assert!(!is_custom_marker(&cands[1].marker));
}

#[test]
fn a_lone_makefile_with_a_dependency_comment() {
    // the full path: one marker, selected without a prompt, scanned for deps
    let mut m = no_markers();
    m.makefile = true;
    let cands = candidates(&m);
    let idx = resolve_selection(cands.len(), None).unwrap();
    assert_eq!(cands[idx].backend, BuildSystem::Make);
    let deps = parse_make_deps("# DEPENDENCIES: zlib, ncurses\nall:\n");
    assert_eq!(deps, vec!["zlib".to_string(), "ncurses".to_string()]);
    // Make extracts no flags
}

#[test]
fn makefile_dependency_comment_is_read() {
    let text = "CC=gcc\n# DEPENDENCIES: zlib, ncurses\nall:\n\tcc main.c\n";
    assert_eq!(parse_make_deps(text), vec!["zlib".to_string(), "ncurses".to_string()]);
}

#[test]
fn makefile_without_comment_has_no_dependencies() {
    let text = "all:\n\tcc main.c\n";
    assert_eq!(parse_make_deps(text), Vec::<String>::new());
}

#[test]
fn configure_markers_imply_dependencies() {
    let (deps, warn) = parse_autotools_deps("PKG_CHECK_MODULES(GTK)\nAC_PROG_CC\n");
    assert_eq!(deps, vec!["pkg-config".to_string(), "gcc".to_string()]);
    assert!(!warn);
    let (deps, warn) = parse_autotools_deps("AC_PROG_CXX\n");
    assert_eq!(deps, vec!["g++".to_string()]);
    assert!(warn);
}

#[test]
fn pkg_config_heuristic_per_backend() {
    assert!(uses_pkg_config(BuildSystem::Autotools, ""));
    assert!(uses_pkg_config(BuildSystem::Make, "LIBS=$(shell pkg-config --libs x)\n"));
    assert!(!uses_pkg_config(BuildSystem::Make, "all:\n"));
    assert!(uses_pkg_config(BuildSystem::Cmake, "pkg_check_modules(X y)"));
    assert!(uses_pkg_config(BuildSystem::Cmake, "find_package(PkgConfig REQUIRED)"));
    assert!(!uses_pkg_config(BuildSystem::Cmake, "project(x)"));
    assert!(uses_pkg_config(BuildSystem::Meson, "x = dependency('gtk')"));
    assert!(!uses_pkg_config(BuildSystem::Cargo, "pkg-config"));
}

#[test]
fn makefile_variant_order() {
    assert_eq!(makefile_variant(true, true, true), "Makefile");
    assert_eq!(makefile_variant(false, true, true), "makefile");
    assert_eq!(makefile_variant(false, false, true), "GNUMakefile");
    assert_eq!(makefile_variant(false, false, false), "Makefile");
}

#[test]
fn finish_detection_dispatches_per_backend() {
    assert_eq!(extraction_source(BuildSystem::Make), ExtractionSource::MakefileVariant);
    assert_eq!(extraction_source(BuildSystem::Autotools), ExtractionSource::ConfigureFile);
    assert_eq!(extraction_source(BuildSystem::Cargo), ExtractionSource::CargoManifest);
    assert_eq!(extraction_source(BuildSystem::Meson), ExtractionSource::NoFile);

    let (d, warn) = finish_detection("Makefile", BuildSystem::Make, "# DEPENDENCIES: zlib\n");
    assert_eq!(d.backend, BuildSystem::Make);
    assert_eq!(d.marker_file, Some("Makefile".to_string()));
    assert_eq!(d.dependencies, vec!["zlib".to_string()]);
    assert_eq!(d.extra_flags, Vec::<String>::new());
    assert!(!warn);

    let (d, warn) = finish_detection("configure", BuildSystem::Autotools, "AC_PROG_CC\n");
    assert_eq!(d.dependencies, vec!["gcc".to_string()]);
    assert!(warn);

    let (d, _) = finish_detection("meson.build", BuildSystem::Meson, "");
    assert_eq!(d.dependencies, vec!["meson".to_string(), "ninja".to_string()]);
}
