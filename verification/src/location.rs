//! Install locations, repository coordinates and small path calculations.

use vstd::prelude::*;
use crate::text::{spec_split, split_str};

verus! {

/// Where artifacts land: the binary directory, and whether writing there
/// needs elevated privilege. Exactly two values ever arise: the user-local
/// directory without elevation, and the system-wide one with it.
pub struct InstallLocation {
    pub bin_path: String,
    pub elevate: bool,
}

/// Choose the install location: user-local under the given home directory,
/// or the system-wide binary directory, which needs elevation.
pub fn get_install_path(local: bool, home: &str) -> (r: InstallLocation)
    ensures
        local ==> r.bin_path@ == home@ + "/.local/bin"@ && !r.elevate,
        !local ==> r.bin_path@ == "/usr/local/bin"@ && r.elevate,
{
    if local {
        let mut p = home.to_owned();
        p.append("/.local/bin");
        InstallLocation { bin_path: p, elevate: false }
    } else {
        InstallLocation { bin_path: String::from_str("/usr/local/bin"), elevate: true }
    }
}

/// The privilege-escalation binary to use: `doas` where it is installed,
/// else `sudo`. The caller tests for `/usr/bin/doas` and hands the outcome in.
pub fn get_privilege_command(doas_present: bool) -> (r: String)
    ensures
        r@ == if doas_present {
            "doas"@
        } else {
            "sudo"@
        },
{
    if doas_present {
        String::from_str("doas")
    } else {
        String::from_str("sudo")
    }
}

/// Index of the last `/` in `s`, or `-1` if none.
pub open spec fn spec_last_slash(s: Seq<char>) -> int
    decreases s.len(),
{
    if s.len() == 0 {
        -1
    } else if s[s.len() - 1] == '/' {
        s.len() - 1
    } else {
        spec_last_slash(s.take(s.len() - 1))
    }
}

/// The text before the last `/` of a path; a path without one has an empty
/// parent.
pub open spec fn spec_parent_dir(s: Seq<char>) -> Seq<char> {
    if spec_last_slash(s) >= 0 {
        s.take(spec_last_slash(s))
    } else {
        Seq::empty()
    }
}

/// The parent directory of a path.
#[verifier::loop_isolation(false)]
pub fn parent_dir(s: &str) -> (r: String)
    ensures
        r@ == spec_parent_dir(s@),
{
    let len = s.unicode_len();
    let mut end: usize = len;
    proof {
        assert(s@.take(len as int) =~= s@);
    }
    while end > 0
        invariant
            end <= len,
            len == s@.len(),
            spec_last_slash(s@) == spec_last_slash(s@.take(end as int)),
        decreases end,
    {
        if s.get_char(end - 1) == '/' {
            proof {
                assert(s@.take(end as int)[end - 1] == s@[end - 1]);
                assert(spec_last_slash(s@.take(end as int)) == end - 1);
            }
            return s.substring_char(0, end - 1).to_owned();
        }
        proof {
            assert(s@.take(end as int)[end - 1] == s@[end - 1]);
            assert(s@.take(end as int).take(end - 1) =~= s@.take(end - 1));
        }
        end -= 1;
    }
    proof {
        assert(s@.take(0) =~= Seq::<char>::empty());
        assert(spec_last_slash(s@) == -1);
    }
    String::new()
}

/// `dir` and `name` joined with a single `/`.
pub fn join_path(dir: &str, name: &str) -> (r: String)
    ensures
        r@ == dir@ + "/"@ + name@,
{
    let mut r = dir.to_owned();
    r.append("/");
    r.append(name);
    r
}

/// The final segment of a repository reference: the text after its last
/// `/`, the whole reference if it has none. This is the package's name.
pub open spec fn spec_repo_name(repo: Seq<char>) -> Seq<char> {
    spec_split(repo, '/').last()
}

/// The package name of a repository reference.
pub fn repo_name_of(repo: &str) -> (r: String)
    ensures
        r@ == spec_repo_name(repo@),
{
    let parts = split_str(repo, '/');
    proof {
        assert(parts.deep_view().len() >= 1);
        assert(parts.deep_view()[parts@.len() - 1] == parts@[parts@.len() - 1]@);
    }
    parts[parts.len() - 1].clone()
}

/// The host a repository is cloned from: `codeberg.org` when selected,
/// else `gitlab.com` when selected, else `github.com`.
pub fn host_domain(gitlab: bool, codeberg: bool) -> (r: String)
    ensures
        codeberg ==> r@ == "codeberg.org"@,
        !codeberg && gitlab ==> r@ == "gitlab.com"@,
        !codeberg && !gitlab ==> r@ == "github.com"@,
{
    if codeberg {
        String::from_str("codeberg.org")
    } else if gitlab {
        String::from_str("gitlab.com")
    } else {
        String::from_str("github.com")
    }
}

/// The host tag recorded in the ledger: the selected forge's short name,
/// or none for the default host.
pub fn source_tag(gitlab: bool, codeberg: bool) -> (r: Option<String>)
    ensures
        codeberg ==> (r matches Some(t) && t@ == "codeberg"@),
        !codeberg && gitlab ==> (r matches Some(t) && t@ == "gitlab"@),
        !codeberg && !gitlab ==> r is None,
{
    if codeberg {
        Some(String::from_str("codeberg"))
    } else if gitlab {
        Some(String::from_str("gitlab"))
    } else {
        None
    }
}

/// The URL a repository reference is cloned from.
pub fn clone_url(domain: &str, repo: &str) -> (r: String)
    ensures
        r@ == "https://"@ + domain@ + "/"@ + repo@,
{
    let mut r = String::from_str("https://");
    r.append(domain);
    r.append("/");
    r.append(repo);
    r
}

/// The Makefile variant to scan for dependencies: the first present among
/// `Makefile`, `makefile` and `GNUMakefile`, defaulting to `Makefile`.
pub fn makefile_variant(upper: bool, lower: bool, gnu: bool) -> (r: String)
    ensures
        upper ==> r@ == "Makefile"@,
        !upper && lower ==> r@ == "makefile"@,
        !upper && !lower && gnu ==> r@ == "GNUMakefile"@,
        !upper && !lower && !gnu ==> r@ == "Makefile"@,
{
    if upper {
        String::from_str("Makefile")
    } else if lower {
        String::from_str("makefile")
    } else if gnu {
        String::from_str("GNUMakefile")
    } else {
        String::from_str("Makefile")
    }
}

} // verus!
