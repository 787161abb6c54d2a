//! Backend-specific extraction of dependencies and flags from the files of
//! a source tree. All scanning here is over file contents the caller read;
//! nothing in this module touches the filesystem.

use vstd::prelude::*;
use crate::build_system::BuildSystem;
use crate::text::{
    contains_str, spec_contains, spec_split, spec_trim, split_str, starts_with_str, trim_str,
};

verus! {

/// The first line satisfying `pred`, scanning in order.
pub open spec fn first_line_where(
    lines: Seq<Seq<char>>,
    pred: spec_fn(Seq<char>) -> bool,
) -> Option<Seq<char>>
    decreases lines.len(),
{
    if lines.len() == 0 {
        None
    } else if pred(lines[0]) {
        Some(lines[0])
    } else {
        first_line_where(lines.skip(1), pred)
    }
}

proof fn lemma_first_line_where_skip(
    lines: Seq<Seq<char>>,
    pred: spec_fn(Seq<char>) -> bool,
    i: int,
)
    requires
        0 <= i <= lines.len(),
        forall|k: int| 0 <= k < i ==> !pred(lines[k]),
    ensures
        first_line_where(lines, pred) == first_line_where(lines.skip(i), pred),
    decreases i,
{
    if i > 0 {
        lemma_first_line_where_skip(lines.skip(1), pred, i - 1);
        assert(lines.skip(1).skip(i - 1) =~= lines.skip(i));
        assert forall|k: int| 0 <= k < i - 1 implies !pred(lines.skip(1)[k]) by {
            assert(lines.skip(1)[k] == lines[k + 1]);
        }
    } else {
        assert(lines.skip(0) =~= lines);
    }
}

/// The dependency comment a Makefile may carry.
pub open spec fn spec_make_dep_marker() -> Seq<char> {
    "# DEPENDENCIES:"@
}

/// The dependencies named by the first `# DEPENDENCIES:` comment line of a
/// Makefile: the text between the line's first and second colon, split at
/// commas and trimmed. A Makefile without such a line has none.
pub open spec fn spec_make_deps(text: Seq<char>) -> Seq<Seq<char>> {
    let lines = spec_split(text, '\n');
    match first_line_where(lines, |l: Seq<char>| spec_contains(l, spec_make_dep_marker())) {
        None => Seq::empty(),
        Some(line) => {
            let fields = spec_split(line, ':');
            if fields.len() >= 2 {
                spec_split(fields[1], ',').map_values(|p: Seq<char>| spec_trim(p))
            } else {
                Seq::empty()
            }
        },
    }
}

/// Scan a Makefile's text for its `# DEPENDENCIES:` comment line.
#[verifier::loop_isolation(false)]
pub fn parse_make_deps(text: &str) -> (r: Vec<String>)
    ensures
        r.deep_view() == spec_make_deps(text@),
{
    let ghost pred = |l: Seq<char>| spec_contains(l, spec_make_dep_marker());
    let lines = split_str(text, '\n');
    let mut i: usize = 0;
    while i < lines.len()
        invariant
            i <= lines@.len(),
            forall|k: int| 0 <= k < i ==> !pred(lines.deep_view()[k]),
        decreases lines@.len() - i,
    {
        if contains_str(lines[i].as_str(), "# DEPENDENCIES:") {
            proof {
                lemma_first_line_where_skip(lines.deep_view(), pred, i as int);
                assert(lines.deep_view().skip(i as int)[0] == lines.deep_view()[i as int]);
                assert(first_line_where(lines.deep_view(), pred) == Some(
                    lines.deep_view()[i as int],
                ));
            }
            let fields = split_str(lines[i].as_str(), ':');
            if fields.len() >= 2 {
                let parts = split_str(fields[1].as_str(), ',');
                let mut out: Vec<String> = Vec::new();
                let mut j: usize = 0;
                while j < parts.len()
                    invariant
                        j <= parts@.len(),
                        out.deep_view().len() == j,
                        forall|k: int|
                            0 <= k < j ==> out.deep_view()[k] == spec_trim(
                                #[trigger] parts.deep_view()[k],
                            ),
                    decreases parts@.len() - j,
                {
                    out.push(trim_str(parts[j].as_str()).to_owned());
                    j += 1;
                }
                proof {
                    assert(out.deep_view() =~= parts.deep_view().map_values(
                        |p: Seq<char>| spec_trim(p),
                    ));
                }
                return out;
            } else {
                return Vec::new();
            }
        }
        i += 1;
    }
    let empty: Vec<String> = Vec::new();
    proof {
        lemma_first_line_where_skip(lines.deep_view(), pred, lines@.len() as int);
        assert(lines.deep_view().skip(lines@.len() as int) =~= Seq::<Seq<char>>::empty());
        assert(empty.deep_view() =~= Seq::<Seq<char>>::empty());
    }
    empty
}

/// The dependencies an Autotools `configure` text implies: `pkg-config`
/// when it checks modules through pkg-config, a C compiler when it probes
/// for one, a C++ compiler likewise.
pub open spec fn spec_autotools_deps(text: Seq<char>) -> Seq<Seq<char>> {
    (if spec_contains(text, "PKG_CHECK_MODULES"@) {
        seq!["pkg-config"@]
    } else {
        Seq::empty()
    }) + (if spec_contains(text, "AC_PROG_CC"@) {
        seq!["gcc"@]
    } else {
        Seq::empty()
    }) + (if spec_contains(text, "AC_PROG_CXX"@) {
        seq!["g++"@]
    } else {
        Seq::empty()
    })
}

/// Scan a `configure` text. Besides the dependencies, reports whether the
/// project lacks pkg-config integration, so the caller can warn.
pub fn parse_autotools_deps(text: &str) -> (r: (Vec<String>, bool))
    ensures
        r.0.deep_view() == spec_autotools_deps(text@),
        r.1 == !spec_contains(text@, "PKG_CHECK_MODULES"@),
{
    let mut deps: Vec<String> = Vec::new();
    let has_pkg = contains_str(text, "PKG_CHECK_MODULES");
    if has_pkg {
        deps.push(String::from_str("pkg-config"));
    }
    if contains_str(text, "AC_PROG_CC") {
        deps.push(String::from_str("gcc"));
    }
    if contains_str(text, "AC_PROG_CXX") {
        deps.push(String::from_str("g++"));
    }
    proof {
        assert(deps.deep_view() =~= spec_autotools_deps(text@));
    }
    (deps, !has_pkg)
}

/// Does the build description appear to use pkg-config for dependency
/// discovery? Autotools always does; Make, CMake and Meson are judged by a
/// substring scan of their marker file; every other backend does not.
pub open spec fn spec_uses_pkg_config(b: BuildSystem, marker_text: Seq<char>) -> bool {
    match b {
        BuildSystem::Autotools => true,
        BuildSystem::Make => spec_contains(marker_text, "pkg-config"@),
        BuildSystem::Cmake => spec_contains(marker_text, "pkg_check_modules"@) || spec_contains(
            marker_text,
            "pkg_search_module"@,
        ) || spec_contains(marker_text, "find_package(PkgConfig"@),
        BuildSystem::Meson => spec_contains(marker_text, "dependency("@),
        _ => false,
    }
}

/// The pkg-config usage heuristic, over the marker file's text.
pub fn uses_pkg_config(b: BuildSystem, marker_text: &str) -> (r: bool)
    ensures
        r == spec_uses_pkg_config(b, marker_text@),
{
    match b {
        BuildSystem::Autotools => true,
        BuildSystem::Make => contains_str(marker_text, "pkg-config"),
        BuildSystem::Cmake => contains_str(marker_text, "pkg_check_modules") || contains_str(
            marker_text,
            "pkg_search_module",
        ) || contains_str(marker_text, "find_package(PkgConfig"),
        BuildSystem::Meson => contains_str(marker_text, "dependency("),
        _ => false,
    }
}

/// What reading a Cargo manifest's vendor metadata yields: `None` where
/// the text is not a JSON document carrying the
/// `package.metadata.charoite.dependencies` array, otherwise that array's
/// string entries, in order.
pub uninterp spec fn cargo_metadata_deps_of(text: Seq<char>) -> Option<Seq<Seq<char>>>;

/// Relies on serde_json::from_str and serde_json::Value's accessors: the
/// array read from a fixed text is a function of the text alone.
#[verifier::external_body]
fn parse_cargo_metadata_json(text: &str) -> (r: Option<Vec<String>>)
    ensures
        r.deep_view() == cargo_metadata_deps_of(text@),
{
    let v: serde_json::Value = serde_json::from_str(text).ok()?;
    let deps = v.get("package")?.get("metadata")?.get("charoite")?.get("dependencies")?
        .as_array()?;
    Some(deps.iter().filter_map(|d| d.as_str().map(|s| s.to_string())).collect())
}

/// The vendor-specific dependency list of a Cargo manifest's text; a text
/// without one has no dependencies.
pub fn parse_cargo_deps(text: &str) -> (r: Vec<String>)
    ensures
        r.deep_view() == match cargo_metadata_deps_of(text@) {
            Some(deps) => deps,
            None => Seq::empty(),
        },
{
    match parse_cargo_metadata_json(text) {
        Some(deps) => deps,
        None => {
            let empty: Vec<String> = Vec::new();
            proof {
                assert(empty.deep_view() =~= Seq::<Seq<char>>::empty());
            }
            empty
        },
    }
}

/// The package version a Cargo manifest's text states: the text between the
/// first two double quotes of the first line starting `version = `.
pub open spec fn spec_cargo_version(text: Seq<char>) -> Option<Seq<char>> {
    let lines = spec_split(text, '\n');
    match first_line_where(
        lines,
        |l: Seq<char>| l.len() >= "version = "@.len() && l.subrange(0, "version = "@.len() as int)
            == "version = "@,
    ) {
        None => None,
        Some(line) => {
            let fields = spec_split(line, '"');
            if fields.len() >= 2 {
                Some(fields[1])
            } else {
                None
            }
        },
    }
}

/// Read the package version out of a Cargo manifest's text.
#[verifier::loop_isolation(false)]
pub fn extract_cargo_version(text: &str) -> (r: Option<String>)
    ensures
        r.deep_view() == spec_cargo_version(text@),
{
    let ghost pred = |l: Seq<char>| l.len() >= "version = "@.len() && l.subrange(
        0,
        "version = "@.len() as int,
    ) == "version = "@;
    let lines = split_str(text, '\n');
    let mut i: usize = 0;
    while i < lines.len()
        invariant
            i <= lines@.len(),
            forall|k: int| 0 <= k < i ==> !pred(lines.deep_view()[k]),
        decreases lines@.len() - i,
    {
        if starts_with_str(lines[i].as_str(), "version = ") {
            proof {
                lemma_first_line_where_skip(lines.deep_view(), pred, i as int);
                assert(lines.deep_view().skip(i as int)[0] == lines.deep_view()[i as int]);
                assert(first_line_where(lines.deep_view(), pred) == Some(
                    lines.deep_view()[i as int],
                ));
            }
            let fields = split_str(lines[i].as_str(), '"');
            if fields.len() >= 2 {
                return Some(fields[1].clone());
            } else {
                return None;
            }
        }
        i += 1;
    }
    proof {
        lemma_first_line_where_skip(lines.deep_view(), pred, lines@.len() as int);
        assert(lines.deep_view().skip(lines@.len() as int) =~= Seq::<Seq<char>>::empty());
    }
    None
}

} // verus!
