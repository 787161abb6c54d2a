//! The install pipeline's order: one stage after another, each blocking,
//! a failing stage aborting everything behind it — with the one exception
//! of patching, whose failures are reported and passed over.

use vstd::prelude::*;
use crate::text::{append_all, spec_trim, trim_str};

verus! {

/// The stages of one install, in the order they run.
#[derive(Clone, Copy, PartialEq, Eq, Structural, Debug)]
pub enum Stage {
    /// Remove what a previous attempt left in the build area.
    CleanPrior,
    /// Clone the repository.
    Clone,
    /// Apply the operator's patches, if any.
    Patch,
    /// Detect the build system and extract dependencies and flags.
    Detect,
    /// Confirm the pkg-config heuristic with the operator where needed.
    Confirm,
    /// Check that every extracted dependency is present.
    DepsCheck,
    /// Run the backend's build commands.
    Build,
    /// Backend-specific work between build and install.
    PostBuild,
    /// Place the artifacts at the chosen location.
    Install,
    /// Record the install in the ledger.
    RecordLedger,
    /// The install finished.
    Done,
    /// The install stopped early.
    Aborted,
}

/// The stage after `s` once `s` finished with outcome `ok`: the next stage
/// in order on success, `Aborted` on failure — except after `Patch`, where
/// a failure is reported but the pipeline goes on. `Done` and `Aborted`
/// are terminal.
pub open spec fn spec_advance(s: Stage, ok: bool) -> Stage {
    match s {
        Stage::CleanPrior => if ok {
            Stage::Clone
        } else {
            Stage::Aborted
        },
        Stage::Clone => if ok {
            Stage::Patch
        } else {
            Stage::Aborted
        },
        Stage::Patch => Stage::Detect,
        Stage::Detect => if ok {
            Stage::Confirm
        } else {
            Stage::Aborted
        },
        Stage::Confirm => if ok {
            Stage::DepsCheck
        } else {
            Stage::Aborted
        },
        Stage::DepsCheck => if ok {
            Stage::Build
        } else {
            Stage::Aborted
        },
        Stage::Build => if ok {
            Stage::PostBuild
        } else {
            Stage::Aborted
        },
        Stage::PostBuild => if ok {
            Stage::Install
        } else {
            Stage::Aborted
        },
        Stage::Install => if ok {
            Stage::RecordLedger
        } else {
            Stage::Aborted
        },
        Stage::RecordLedger => if ok {
            Stage::Done
        } else {
            Stage::Aborted
        },
        Stage::Done => Stage::Done,
        Stage::Aborted => Stage::Aborted,
    }
}

/// Step the pipeline: the next stage after `s` finished with outcome `ok`.
pub fn advance(s: Stage, ok: bool) -> (r: Stage)
    ensures
        r == spec_advance(s, ok),
{
    match s {
        Stage::CleanPrior => if ok {
            Stage::Clone
        } else {
            Stage::Aborted
        },
        Stage::Clone => if ok {
            Stage::Patch
        } else {
            Stage::Aborted
        },
        Stage::Patch => Stage::Detect,
        Stage::Detect => if ok {
            Stage::Confirm
        } else {
            Stage::Aborted
        },
        Stage::Confirm => if ok {
            Stage::DepsCheck
        } else {
            Stage::Aborted
        },
        Stage::DepsCheck => if ok {
            Stage::Build
        } else {
            Stage::Aborted
        },
        Stage::Build => if ok {
            Stage::PostBuild
        } else {
            Stage::Aborted
        },
        Stage::PostBuild => if ok {
            Stage::Install
        } else {
            Stage::Aborted
        },
        Stage::Install => if ok {
            Stage::RecordLedger
        } else {
            Stage::Aborted
        },
        Stage::RecordLedger => if ok {
            Stage::Done
        } else {
            Stage::Aborted
        },
        Stage::Done => Stage::Done,
        Stage::Aborted => Stage::Aborted,
    }
}

/// Where the pipeline stands after running from `s` through the given
/// stage outcomes, in order.
pub open spec fn spec_run(s: Stage, outcomes: Seq<bool>) -> Stage
    decreases outcomes.len(),
{
    if outcomes.len() == 0 {
        s
    } else {
        spec_run(spec_advance(s, outcomes[0]), outcomes.skip(1))
    }
}

/// An aborted pipeline stays aborted, whatever else happens.
pub proof fn lemma_aborted_is_terminal(outcomes: Seq<bool>)
    ensures
        spec_run(Stage::Aborted, outcomes) == Stage::Aborted,
    decreases outcomes.len(),
{
    if outcomes.len() > 0 {
        lemma_aborted_is_terminal(outcomes.skip(1));
    }
}

/// A detection that fails — no recognised marker, or no candidate selected
/// — aborts the pipeline at once: whatever outcomes follow, it never
/// reaches the build or install stages.
pub proof fn lemma_failed_detection_builds_nothing(outcomes: Seq<bool>)
    ensures
        spec_run(spec_advance(Stage::Detect, false), outcomes) == Stage::Aborted,
        spec_run(spec_advance(Stage::Detect, false), outcomes) != Stage::Build,
        spec_run(spec_advance(Stage::Detect, false), outcomes) != Stage::Install,
{
    lemma_aborted_is_terminal(outcomes);
}

/// The flags handed to the build: the extracted flags first, then the
/// operator's, so that the operator's reach the tool last.
pub fn merged_flags(extracted: Vec<String>, operator: &Vec<String>) -> (r: Vec<String>)
    ensures
        r.deep_view() == extracted.deep_view() + operator.deep_view(),
{
    let mut r = extracted;
    append_all(&mut r, operator);
    r
}

/// Whether a dependency counts as present. `pkg-config` itself answers
/// with its own version probe; any other tool is present when `which`
/// finds it, or failing that when an available pkg-config knows it as a
/// module.
pub fn dependency_present(
    is_pkg_config: bool,
    probe_ok: bool,
    pkg_config_available: bool,
    module_found: bool,
) -> (r: bool)
    ensures
        r == if is_pkg_config {
            probe_ok
        } else {
            probe_ok || (pkg_config_available && module_found)
        },
{
    if is_pkg_config {
        probe_ok
    } else if probe_ok {
        true
    } else {
        pkg_config_available && module_found
    }
}

/// Does the operator's answer to a proceed-anyway prompt accept? Only a
/// lone `y` or `Y`, once trimmed, does.
pub open spec fn spec_accepts_proceed(answer: Seq<char>) -> bool {
    spec_trim(answer) == seq!['y'] || spec_trim(answer) == seq!['Y']
}

/// Read the operator's answer to a proceed-anyway prompt.
pub fn accepts_proceed(answer: &str) -> (r: bool)
    ensures
        r == spec_accepts_proceed(answer@),
{
    let t = trim_str(answer);
    let len = t.unicode_len();
    if len != 1 {
        return false;
    }
    let c = t.get_char(0);
    if c == 'y' || c == 'Y' {
        proof {
            assert(t@ =~= seq![c]);
        }
        true
    } else {
        proof {
            assert(t@ != seq!['y'] && t@ != seq!['Y']) by {
                assert(seq!['y'][0] == 'y' && seq!['Y'][0] == 'Y');
            }
        }
        false
    }
}

} // verus!
