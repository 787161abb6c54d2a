//! Removal: look a package up in the ledger, plan the deletion of its
//! artifact, and shrink the ledger. The caller deletes the file and
//! rewrites the ledger; any failure before that leaves both untouched.

use vstd::prelude::*;
use crate::ledger::{delete, spec_has_name, spec_remove_name, InstalledPackage};
use crate::location::{parent_dir, spec_parent_dir};
use crate::plan::{Cmd, CmdView, WorkDir};
use crate::text::str_eq;

verus! {

/// The location of the first record named `name`, if any.
pub open spec fn spec_lookup(l: Seq<InstalledPackage>, name: Seq<char>) -> Option<Seq<char>>
    decreases l.len(),
{
    if l.len() == 0 {
        None
    } else if l[0].name@ == name {
        Some(l[0].location@)
    } else {
        spec_lookup(l.skip(1), name)
    }
}

/// A record named `name` exists exactly when the lookup finds one.
pub proof fn lemma_lookup_iff_has_name(l: Seq<InstalledPackage>, name: Seq<char>)
    ensures
        spec_lookup(l, name) is Some <==> spec_has_name(l, name),
    decreases l.len(),
{
    if l.len() > 0 && l[0].name@ != name {
        lemma_lookup_iff_has_name(l.skip(1), name);
        if spec_lookup(l, name) is Some {
            let i = choose|i: int|
                0 <= i < l.skip(1).len() && l.skip(1)[i].name@ == name;
            assert(l[i + 1].name@ == name);
        }
        if spec_has_name(l, name) {
            let i = choose|i: int| 0 <= i < l.len() && l[i].name@ == name;
            assert(l.skip(1)[i - 1].name@ == name);
        }
    }
}

/// Find the recorded artifact location of `name`.
#[verifier::loop_isolation(false)]
pub fn lookup_location(ledger: &Vec<InstalledPackage>, name: &str) -> (r: Option<String>)
    ensures
        r.deep_view() == spec_lookup(ledger@, name@),
{
    let mut i: usize = 0;
    proof {
        assert(ledger@.skip(0) =~= ledger@);
    }
    while i < ledger.len()
        invariant
            i <= ledger@.len(),
            spec_lookup(ledger@, name@) == spec_lookup(ledger@.skip(i as int), name@),
        decreases ledger@.len() - i,
    {
        proof {
            assert(ledger@.skip(i as int)[0] == ledger@[i as int]);
            assert(ledger@.skip(i as int).skip(1) =~= ledger@.skip(i + 1));
        }
        if str_eq(ledger[i].name.as_str(), name) {
            return Some(ledger[i].location.clone());
        }
        i += 1;
    }
    proof {
        assert(ledger@.skip(ledger@.len() as int) =~= Seq::<InstalledPackage>::empty());
    }
    None
}

/// Is this directory one of the fixed system binary directories, writes
/// to which need elevation?
pub open spec fn spec_is_system_dir(d: Seq<char>) -> bool {
    ||| d == "/usr/bin"@
    ||| d == "/usr/local/bin"@
    ||| d == "/bin"@
    ||| d == "/sbin"@
    ||| d == "/usr/sbin"@
}

/// Is this one of the fixed system binary directories?
pub fn is_system_dir(d: &str) -> (r: bool)
    ensures
        r == spec_is_system_dir(d@),
{
    str_eq(d, "/usr/bin") || str_eq(d, "/usr/local/bin") || str_eq(d, "/bin") || str_eq(d, "/sbin")
        || str_eq(d, "/usr/sbin")
}

/// The command that deletes an installed artifact: `rm -f` on its path,
/// elevated exactly when the containing directory is a system directory.
pub fn removal_command(location: &str) -> (r: Cmd)
    ensures
        r.deep_view() == (CmdView {
            program: "rm"@,
            args: seq!["-f"@, location@],
            elevate: spec_is_system_dir(spec_parent_dir(location@)),
            dir: WorkDir::Inherit,
        }),
{
    let parent = parent_dir(location);
    let elevate = is_system_dir(parent.as_str());
    let mut args: Vec<String> = Vec::new();
    args.push(String::from_str("-f"));
    args.push(location.to_owned());
    let c = Cmd { program: String::from_str("rm"), args, elevate, dir: WorkDir::Inherit };
    proof {
        assert(c.deep_view().args =~= seq!["-f"@, location@]);
    }
    c
}

/// Why a removal could not go ahead.
#[derive(Clone, Copy, PartialEq, Eq, Structural, Debug)]
pub enum RemoveError {
    /// No ledger record carries the name.
    NotFound,
    /// The recorded artifact is no longer on disk.
    ArtifactMissing,
}

/// Everything a removal that may go ahead needs: the deletion command and
/// the ledger to write back.
pub struct RemovalPlan {
    pub command: Cmd,
    pub remaining: Vec<InstalledPackage>,
}

/// Decide a removal. `name` must be recorded and its artifact still on
/// disk (the caller tests the recorded location and passes the outcome);
/// then the artifact is deleted by the planned command and the ledger
/// shrinks by exactly the records of that name. On either error the
/// ledger is left for the caller to keep as it was.
pub fn remove_plan(ledger: Vec<InstalledPackage>, name: &str, artifact_exists: bool) -> (r: Result<
    RemovalPlan,
    RemoveError,
>)
    ensures
        match spec_lookup(ledger@, name@) {
            None => r matches Err(e) && e == RemoveError::NotFound,
            Some(loc) => if artifact_exists {
                r matches Ok(plan) && plan.remaining@ == spec_remove_name(ledger@, name@)
                    && plan.command.deep_view() == (CmdView {
                    program: "rm"@,
                    args: seq!["-f"@, loc],
                    elevate: spec_is_system_dir(spec_parent_dir(loc)),
                    dir: WorkDir::Inherit,
                })
            } else {
                r matches Err(e) && e == RemoveError::ArtifactMissing
            },
        },
{
    let location = match lookup_location(&ledger, name) {
        None => {
            return Err(RemoveError::NotFound);
        },
        Some(loc) => loc,
    };
    if !artifact_exists {
        return Err(RemoveError::ArtifactMissing);
    }
    let command = removal_command(location.as_str());
    proof {
        lemma_lookup_iff_has_name(ledger@, name@);
    }
    let remaining = match delete(ledger, name) {
        Some(v) => v,
        None => unreached(),
    };
    Ok(RemovalPlan { command, remaining })
}

/// The command that publishes a rewritten ledger: an elevated move of the
/// freshly written temporary file onto the ledger's canonical path. The
/// move is always elevated — the ledger directory is privileged whatever
/// the package's own install location was.
pub fn ledger_replace_command(temp_path: &str, ledger_path: &str) -> (r: Cmd)
    ensures
        r.deep_view() == (CmdView {
            program: "mv"@,
            args: seq![temp_path@, ledger_path@],
            elevate: true,
            dir: WorkDir::Inherit,
        }),
{
    let mut args: Vec<String> = Vec::new();
    args.push(temp_path.to_owned());
    args.push(ledger_path.to_owned());
    let c = Cmd { program: String::from_str("mv"), args, elevate: true, dir: WorkDir::Inherit };
    proof {
        assert(c.deep_view().args =~= seq![temp_path@, ledger_path@]);
    }
    c
}

} // verus!
