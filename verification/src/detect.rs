//! Build-system detection: which marker files a source tree holds, which
//! candidate the operator's answer selects, and the detection result that
//! drives the rest of an install.

use vstd::prelude::*;
use crate::build_system::{fixed_deps, spec_fixed_deps, BuildSystem};
use crate::extract::{
    cargo_metadata_deps_of, parse_autotools_deps, parse_cargo_deps, parse_make_deps,
    spec_autotools_deps, spec_make_deps,
};
use crate::text::{parse_usize, spec_contains, spec_parse_usize, str_eq};

verus! {

/// Which marker files are present in a source tree. The caller tests the
/// filesystem once and hands the outcome in.
pub struct TreeMarkers {
    pub radon_json: bool,
    pub charoite_json: bool,
    pub cargo_toml: bool,
    pub makefile: bool,
    pub configure: bool,
    pub cmake_lists: bool,
    pub meson_build: bool,
    pub build_ninja: bool,
    pub nimble: bool,
    pub stack_yaml: bool,
    pub requirements_txt: bool,
}

/// One detection candidate: a marker file present in the tree and the
/// backend it stands for. A custom manifest carries `Unknown` here, since
/// its backend comes from the manifest's own text.
pub struct Candidate {
    pub marker: String,
    pub backend: BuildSystem,
}

/// The ghost image of a [`Candidate`].
pub struct CandidateView {
    pub marker: Seq<char>,
    pub backend: BuildSystem,
}

impl DeepView for Candidate {
    type V = CandidateView;

    open spec fn deep_view(&self) -> CandidateView {
        CandidateView { marker: self.marker@, backend: self.backend }
    }
}

/// The candidates a tree's markers yield, in discovery order: custom
/// manifests first, then the generic markers in their fixed order.
pub open spec fn spec_candidates(m: TreeMarkers) -> Seq<CandidateView> {
    let r = Seq::<CandidateView>::empty();
    let r = if m.radon_json {
        r.push(CandidateView { marker: "radon.json"@, backend: BuildSystem::Unknown })
    } else {
        r
    };
    let r = if m.charoite_json {
        r.push(CandidateView { marker: "charoite.json"@, backend: BuildSystem::Unknown })
    } else {
        r
    };
    let r = if m.cargo_toml {
        r.push(CandidateView { marker: "Cargo.toml"@, backend: BuildSystem::Cargo })
    } else {
        r
    };
    let r = if m.makefile {
        r.push(CandidateView { marker: "Makefile"@, backend: BuildSystem::Make })
    } else {
        r
    };
    let r = if m.configure {
        r.push(CandidateView { marker: "configure"@, backend: BuildSystem::Autotools })
    } else {
        r
    };
    let r = if m.cmake_lists {
        r.push(CandidateView { marker: "CMakeLists.txt"@, backend: BuildSystem::Cmake })
    } else {
        r
    };
    let r = if m.meson_build {
        r.push(CandidateView { marker: "meson.build"@, backend: BuildSystem::Meson })
    } else {
        r
    };
    let r = if m.build_ninja {
        r.push(CandidateView { marker: "build.ninja"@, backend: BuildSystem::Ninja })
    } else {
        r
    };
    let r = if m.nimble {
        r.push(CandidateView { marker: "*.nimble"@, backend: BuildSystem::Nimble })
    } else {
        r
    };
    let r = if m.stack_yaml {
        r.push(CandidateView { marker: "stack.yaml"@, backend: BuildSystem::Stack })
    } else {
        r
    };
    let r = if m.requirements_txt {
        r.push(CandidateView { marker: "requirements.txt"@, backend: BuildSystem::Pip })
    } else {
        r
    };
    r
}

/// Collect the detection candidates of a tree, in discovery order.
#[verifier::rlimit(60)]
pub fn candidates(m: &TreeMarkers) -> (r: Vec<Candidate>)
    ensures
        r.deep_view() == spec_candidates(*m),
{
    let mut r: Vec<Candidate> = Vec::new();
    let ghost mut g: Seq<CandidateView> = Seq::empty();
    proof {
        assert(r.deep_view() =~= g);
    }
    if m.radon_json {
        r.push(Candidate { marker: String::from_str("radon.json"), backend: BuildSystem::Unknown });
        proof {
            g = g.push(CandidateView { marker: "radon.json"@, backend: BuildSystem::Unknown });
            assert(r.deep_view() =~= g);
        }
    }
    if m.charoite_json {
        r.push(
            Candidate { marker: String::from_str("charoite.json"), backend: BuildSystem::Unknown },
        );
        proof {
            g = g.push(CandidateView { marker: "charoite.json"@, backend: BuildSystem::Unknown });
            assert(r.deep_view() =~= g);
        }
    }
    if m.cargo_toml {
        r.push(Candidate { marker: String::from_str("Cargo.toml"), backend: BuildSystem::Cargo });
        proof {
            g = g.push(CandidateView { marker: "Cargo.toml"@, backend: BuildSystem::Cargo });
            assert(r.deep_view() =~= g);
        }
    }
    if m.makefile {
        r.push(Candidate { marker: String::from_str("Makefile"), backend: BuildSystem::Make });
        proof {
            g = g.push(CandidateView { marker: "Makefile"@, backend: BuildSystem::Make });
            assert(r.deep_view() =~= g);
        }
    }
    if m.configure {
        r.push(Candidate { marker: String::from_str("configure"), backend: BuildSystem::Autotools });
        proof {
            g = g.push(CandidateView { marker: "configure"@, backend: BuildSystem::Autotools });
            assert(r.deep_view() =~= g);
        }
    }
    if m.cmake_lists {
        r.push(
            Candidate { marker: String::from_str("CMakeLists.txt"), backend: BuildSystem::Cmake },
        );
        proof {
            g = g.push(CandidateView { marker: "CMakeLists.txt"@, backend: BuildSystem::Cmake });
            assert(r.deep_view() =~= g);
        }
    }
    if m.meson_build {
        r.push(Candidate { marker: String::from_str("meson.build"), backend: BuildSystem::Meson });
        proof {
            g = g.push(CandidateView { marker: "meson.build"@, backend: BuildSystem::Meson });
            assert(r.deep_view() =~= g);
        }
    }
    if m.build_ninja {
        r.push(Candidate { marker: String::from_str("build.ninja"), backend: BuildSystem::Ninja });
        proof {
            g = g.push(CandidateView { marker: "build.ninja"@, backend: BuildSystem::Ninja });
            assert(r.deep_view() =~= g);
        }
    }
    if m.nimble {
        r.push(Candidate { marker: String::from_str("*.nimble"), backend: BuildSystem::Nimble });
        proof {
            g = g.push(CandidateView { marker: "*.nimble"@, backend: BuildSystem::Nimble });
            assert(r.deep_view() =~= g);
        }
    }
    if m.stack_yaml {
        r.push(Candidate { marker: String::from_str("stack.yaml"), backend: BuildSystem::Stack });
        proof {
            g = g.push(CandidateView { marker: "stack.yaml"@, backend: BuildSystem::Stack });
            assert(r.deep_view() =~= g);
        }
    }
    if m.requirements_txt {
        r.push(
            Candidate { marker: String::from_str("requirements.txt"), backend: BuildSystem::Pip },
        );
        proof {
            g = g.push(CandidateView { marker: "requirements.txt"@, backend: BuildSystem::Pip });
            assert(r.deep_view() =~= g);
        }
    }
    r
}

/// How many recognized markers a tree holds.
pub open spec fn spec_marker_count(m: TreeMarkers) -> int {
    (if m.radon_json {
        1int
    } else {
        0
    }) + (if m.charoite_json {
        1int
    } else {
        0
    }) + (if m.cargo_toml {
        1int
    } else {
        0
    }) + (if m.makefile {
        1int
    } else {
        0
    }) + (if m.configure {
        1int
    } else {
        0
    }) + (if m.cmake_lists {
        1int
    } else {
        0
    }) + (if m.meson_build {
        1int
    } else {
        0
    }) + (if m.build_ninja {
        1int
    } else {
        0
    }) + (if m.nimble {
        1int
    } else {
        0
    }) + (if m.stack_yaml {
        1int
    } else {
        0
    }) + (if m.requirements_txt {
        1int
    } else {
        0
    })
}

/// A tree with exactly one recognized marker yields exactly one
/// candidate — that marker's own — which the selection takes outright,
/// consulting no operator answer.
pub proof fn lemma_single_marker_single_candidate(m: TreeMarkers)
    requires
        spec_marker_count(m) == 1,
    ensures
        spec_candidates(m).len() == 1,
        m.cargo_toml ==> spec_candidates(m)[0] == (CandidateView {
            marker: "Cargo.toml"@,
            backend: BuildSystem::Cargo,
        }),
        m.makefile ==> spec_candidates(m)[0] == (CandidateView {
            marker: "Makefile"@,
            backend: BuildSystem::Make,
        }),
        m.configure ==> spec_candidates(m)[0] == (CandidateView {
            marker: "configure"@,
            backend: BuildSystem::Autotools,
        }),
        m.cmake_lists ==> spec_candidates(m)[0] == (CandidateView {
            marker: "CMakeLists.txt"@,
            backend: BuildSystem::Cmake,
        }),
        m.meson_build ==> spec_candidates(m)[0] == (CandidateView {
            marker: "meson.build"@,
            backend: BuildSystem::Meson,
        }),
        m.build_ninja ==> spec_candidates(m)[0] == (CandidateView {
            marker: "build.ninja"@,
            backend: BuildSystem::Ninja,
        }),
        m.nimble ==> spec_candidates(m)[0] == (CandidateView {
            marker: "*.nimble"@,
            backend: BuildSystem::Nimble,
        }),
        m.stack_yaml ==> spec_candidates(m)[0] == (CandidateView {
            marker: "stack.yaml"@,
            backend: BuildSystem::Stack,
        }),
        m.requirements_txt ==> spec_candidates(m)[0] == (CandidateView {
            marker: "requirements.txt"@,
            backend: BuildSystem::Pip,
        }),
{
}

/// A tree with no recognized marker yields no candidate: nothing can be
/// selected, and the caller must abort.
pub proof fn lemma_no_marker_no_candidate(m: TreeMarkers)
    requires
        spec_marker_count(m) == 0,
    ensures
        spec_candidates(m).len() == 0,
{
}

/// The candidate index an operator's answer selects among `n` candidates:
/// the answer read as a number `c` picks candidate `c - 1` when `1 <= c <= n`;
/// anything else selects nothing.
pub open spec fn spec_choice_index(n: nat, answer: Seq<char>) -> Option<nat> {
    let c = spec_parse_usize(answer);
    if 1 <= c <= n {
        Some((c - 1) as nat)
    } else {
        None
    }
}

/// Resolve a detection among `n` candidates. With none there is nothing to
/// select; a single candidate is selected outright, and no answer is
/// consulted; among several, the operator's answer decides, and an invalid
/// or out-of-range answer selects nothing.
pub fn resolve_selection(n: usize, answer: Option<&str>) -> (r: Option<usize>)
    ensures
        n == 0 ==> r is None,
        n == 1 ==> r == Some(0usize),
        n > 1 ==> r == match answer {
            None => None::<usize>,
            Some(a) => match spec_choice_index(n as nat, a@) {
                None => None::<usize>,
                Some(i) => Some(i as usize),
            },
        },
{
    if n == 0 {
        None
    } else if n == 1 {
        Some(0)
    } else {
        match answer {
            None => None,
            Some(a) => {
                let c = parse_usize(a);
                if 1 <= c && c <= n {
                    Some(c - 1)
                } else {
                    None
                }
            },
        }
    }
}

/// What a detection concluded: the chosen backend, the marker file it came
/// from, and the dependencies and extra flags extracted for it.
pub struct DetectionResult {
    pub backend: BuildSystem,
    pub marker_file: Option<String>,
    pub dependencies: Vec<String>,
    pub extra_flags: Vec<String>,
}

/// Is this marker one of the two custom manifest filenames?
pub open spec fn spec_is_custom_marker(marker: Seq<char>) -> bool {
    marker == "radon.json"@ || marker == "charoite.json"@
}

/// Is this marker a custom manifest?
pub fn is_custom_marker(marker: &str) -> (r: bool)
    ensures
        r == spec_is_custom_marker(marker@),
{
    str_eq(marker, "radon.json") || str_eq(marker, "charoite.json")
}

/// Which file of the tree, if any, a backend's extractor scans.
#[derive(Clone, Copy, PartialEq, Eq, Structural, Debug)]
pub enum ExtractionSource {
    /// The first Makefile variant present.
    MakefileVariant,
    /// The `configure` script.
    ConfigureFile,
    /// The Cargo manifest.
    CargoManifest,
    /// Nothing: the backend's dependencies are fixed.
    NoFile,
}

/// Which file a backend's extractor needs read.
pub fn extraction_source(backend: BuildSystem) -> (r: ExtractionSource)
    ensures
        r == match backend {
            BuildSystem::Make => ExtractionSource::MakefileVariant,
            BuildSystem::Autotools => ExtractionSource::ConfigureFile,
            BuildSystem::Cargo => ExtractionSource::CargoManifest,
            _ => ExtractionSource::NoFile,
        },
{
    match backend {
        BuildSystem::Make => ExtractionSource::MakefileVariant,
        BuildSystem::Autotools => ExtractionSource::ConfigureFile,
        BuildSystem::Cargo => ExtractionSource::CargoManifest,
        _ => ExtractionSource::NoFile,
    }
}

/// The dependencies a generic (non-manifest) detection extracts from the
/// text of the backend's scanned file.
pub open spec fn spec_extracted_deps(backend: BuildSystem, text: Seq<char>) -> Seq<Seq<char>> {
    match backend {
        BuildSystem::Make => spec_make_deps(text),
        BuildSystem::Autotools => spec_autotools_deps(text),
        BuildSystem::Cargo => match cargo_metadata_deps_of(text) {
            Some(deps) => deps,
            None => Seq::empty(),
        },
        other => spec_fixed_deps(other),
    }
}

/// Finish a generic detection: the chosen marker's backend, with the
/// dependencies its extractor finds in the scanned file's text, and no
/// flags — only a custom manifest ever supplies flags. Also reports
/// whether to warn that an Autotools project lacks pkg-config integration.
pub fn finish_detection(marker: &str, backend: BuildSystem, text: &str) -> (r: (
    DetectionResult,
    bool,
))
    ensures
        r.0.backend == backend,
        r.0.marker_file matches Some(f) && f@ == marker@,
        r.0.dependencies.deep_view() == spec_extracted_deps(backend, text@),
        r.0.extra_flags@.len() == 0,
        r.1 == (backend == BuildSystem::Autotools && !spec_contains(text@, "PKG_CHECK_MODULES"@)),
{
    let mut warn = false;
    let dependencies = match backend {
        BuildSystem::Make => parse_make_deps(text),
        BuildSystem::Autotools => {
            let (deps, missing) = parse_autotools_deps(text);
            warn = missing;
            deps
        },
        BuildSystem::Cargo => parse_cargo_deps(text),
        other => fixed_deps(other),
    };
    (
        DetectionResult {
            backend,
            marker_file: Some(marker.to_owned()),
            dependencies,
            extra_flags: Vec::new(),
        },
        warn,
    )
}

} // verus!
