//! Install planning: for each backend, the commands or file copies that
//! place the built artifacts at the chosen location.

use vstd::prelude::*;
use crate::build_system::BuildSystem;
use crate::location::{spec_parent_dir, InstallLocation, parent_dir, join_path};
use crate::plan::{Cmd, CmdView, WorkDir};

verus! {

/// How a backend installs.
#[derive(Clone, Copy, PartialEq, Eq, Structural, Debug)]
pub enum InstallKind {
    /// Copy every file of the release output directory.
    CargoCopy,
    /// Run the backend's fixed install commands.
    Commands,
    /// Search the backend's `bin` output for the package's binary and copy it.
    StackSearch,
    /// Run the Python package installer.
    PipInstall,
    /// Nothing can be installed.
    Unsupported,
}

/// Which install procedure a backend takes.
pub fn install_kind(b: BuildSystem) -> (r: InstallKind)
    ensures
        r == match b {
            BuildSystem::Cargo => InstallKind::CargoCopy,
            BuildSystem::Make => InstallKind::Commands,
            BuildSystem::Autotools => InstallKind::Commands,
            BuildSystem::Cmake => InstallKind::Commands,
            BuildSystem::Meson => InstallKind::Commands,
            BuildSystem::Ninja => InstallKind::Commands,
            BuildSystem::Nimble => InstallKind::Commands,
            BuildSystem::Stack => InstallKind::StackSearch,
            BuildSystem::Pip => InstallKind::PipInstall,
            BuildSystem::Unknown => InstallKind::Unsupported,
        },
{
    match b {
        BuildSystem::Cargo => InstallKind::CargoCopy,
        BuildSystem::Make => InstallKind::Commands,
        BuildSystem::Autotools => InstallKind::Commands,
        BuildSystem::Cmake => InstallKind::Commands,
        BuildSystem::Meson => InstallKind::Commands,
        BuildSystem::Ninja => InstallKind::Commands,
        BuildSystem::Nimble => InstallKind::Commands,
        BuildSystem::Stack => InstallKind::StackSearch,
        BuildSystem::Pip => InstallKind::PipInstall,
        BuildSystem::Unknown => InstallKind::Unsupported,
    }
}

/// The install commands of the command-driven backends. `Make` installs
/// under the prefix above the binary directory; CMake and Meson/Ninja
/// install from the `build` subdirectory; every command is elevated
/// exactly when the location demands it.
pub open spec fn spec_install_cmds(
    b: BuildSystem,
    parent: Seq<char>,
    elevate: bool,
) -> Option<Seq<CmdView>> {
    match b {
        BuildSystem::Make => Some(
            seq![
                CmdView {
                    program: "make"@,
                    args: seq!["install"@, "PREFIX="@ + parent],
                    elevate,
                    dir: WorkDir::Source,
                },
            ],
        ),
        BuildSystem::Autotools => Some(
            seq![
                CmdView {
                    program: "make"@,
                    args: seq!["install"@],
                    elevate,
                    dir: WorkDir::Source,
                },
            ],
        ),
        BuildSystem::Cmake => Some(
            seq![
                CmdView {
                    program: "cmake"@,
                    args: seq!["--install"@, "."@],
                    elevate,
                    dir: WorkDir::BuildSubdir,
                },
            ],
        ),
        BuildSystem::Meson => Some(
            seq![
                CmdView {
                    program: "ninja"@,
                    args: seq!["install"@],
                    elevate,
                    dir: WorkDir::BuildSubdir,
                },
            ],
        ),
        BuildSystem::Ninja => Some(
            seq![
                CmdView {
                    program: "ninja"@,
                    args: seq!["install"@],
                    elevate,
                    dir: WorkDir::BuildSubdir,
                },
            ],
        ),
        BuildSystem::Nimble => Some(
            seq![
                CmdView {
                    program: "nimble"@,
                    args: seq!["install"@],
                    elevate,
                    dir: WorkDir::Source,
                },
            ],
        ),
        _ => None,
    }
}

/// Plan the install commands of a command-driven backend; `None` for every
/// backend that installs another way.
pub fn install_cmds(b: BuildSystem, loc: &InstallLocation) -> (r: Option<Vec<Cmd>>)
    ensures
        r.deep_view() == spec_install_cmds(b, spec_parent_dir(loc.bin_path@), loc.elevate),
{
    match b {
        BuildSystem::Make => {
            let prefix = parent_dir(loc.bin_path.as_str());
            let mut arg = String::from_str("PREFIX=");
            arg.append(prefix.as_str());
            let mut args: Vec<String> = Vec::new();
            args.push(String::from_str("install"));
            args.push(arg);
            let mut cmds: Vec<Cmd> = Vec::new();
            cmds.push(
                Cmd {
                    program: String::from_str("make"),
                    args,
                    elevate: loc.elevate,
                    dir: WorkDir::Source,
                },
            );
            proof {
                let p = spec_install_cmds(b, spec_parent_dir(loc.bin_path@), loc.elevate)->Some_0;
                assert(cmds.deep_view()[0].args =~= p[0].args);
                assert(cmds.deep_view() =~= p);
            }
            Some(cmds)
        },
        BuildSystem::Autotools => Some(
            one_install_cmd(
                "make",
                loc.elevate,
                WorkDir::Source,
                Ghost(spec_install_cmds(b, spec_parent_dir(loc.bin_path@), loc.elevate)->Some_0),
            ),
        ),
        BuildSystem::Cmake => {
            let mut args: Vec<String> = Vec::new();
            args.push(String::from_str("--install"));
            args.push(String::from_str("."));
            let mut cmds: Vec<Cmd> = Vec::new();
            cmds.push(
                Cmd {
                    program: String::from_str("cmake"),
                    args,
                    elevate: loc.elevate,
                    dir: WorkDir::BuildSubdir,
                },
            );
            proof {
                let p = spec_install_cmds(b, spec_parent_dir(loc.bin_path@), loc.elevate)->Some_0;
                assert(cmds.deep_view()[0].args =~= p[0].args);
                assert(cmds.deep_view() =~= p);
            }
            Some(cmds)
        },
        BuildSystem::Meson => Some(
            one_install_cmd(
                "ninja",
                loc.elevate,
                WorkDir::BuildSubdir,
                Ghost(spec_install_cmds(b, spec_parent_dir(loc.bin_path@), loc.elevate)->Some_0),
            ),
        ),
        BuildSystem::Ninja => Some(
            one_install_cmd(
                "ninja",
                loc.elevate,
                WorkDir::BuildSubdir,
                Ghost(spec_install_cmds(b, spec_parent_dir(loc.bin_path@), loc.elevate)->Some_0),
            ),
        ),
        BuildSystem::Nimble => Some(
            one_install_cmd(
                "nimble",
                loc.elevate,
                WorkDir::Source,
                Ghost(spec_install_cmds(b, spec_parent_dir(loc.bin_path@), loc.elevate)->Some_0),
            ),
        ),
        _ => None,
    }
}

/// A single `<program> install` command.
fn one_install_cmd(program: &str, elevate: bool, dir: WorkDir, expect: Ghost<Seq<CmdView>>) -> (r:
    Vec<Cmd>)
    requires
        expect@ == seq![
            CmdView { program: program@, args: seq!["install"@], elevate, dir },
        ],
    ensures
        r.deep_view() == expect@,
{
    let mut args: Vec<String> = Vec::new();
    args.push(String::from_str("install"));
    let mut cmds: Vec<Cmd> = Vec::new();
    cmds.push(Cmd { program: program.to_owned(), args, elevate, dir });
    proof {
        assert(cmds.deep_view()[0].args =~= expect@[0].args);
        assert(cmds.deep_view() =~= expect@);
    }
    cmds
}

/// One step of an install: run a command, or copy one file.
pub enum InstallStep {
    Run(Cmd),
    CopyFile { from: String, to: String },
}

/// The ghost image of an [`InstallStep`].
pub enum InstallStepView {
    Run(CmdView),
    CopyFile { from: Seq<char>, to: Seq<char> },
}

impl DeepView for InstallStep {
    type V = InstallStepView;

    open spec fn deep_view(&self) -> InstallStepView {
        match self {
            InstallStep::Run(c) => InstallStepView::Run(c.deep_view()),
            InstallStep::CopyFile { from, to } => InstallStepView::CopyFile {
                from: from@,
                to: to@,
            },
        }
    }
}

/// How one artifact reaches its destination: a plain copy, or an elevated
/// `cp` where the destination demands privilege.
pub open spec fn spec_copy_step(elevate: bool, from: Seq<char>, to: Seq<char>) -> InstallStepView {
    if elevate {
        InstallStepView::Run(
            CmdView { program: "cp"@, args: seq![from, to], elevate: true, dir: WorkDir::Inherit },
        )
    } else {
        InstallStepView::CopyFile { from, to }
    }
}

/// Copy one file to its destination, elevated when required.
fn copy_step(elevate: bool, from: String, to: String) -> (r: InstallStep)
    ensures
        r.deep_view() == spec_copy_step(elevate, from@, to@),
{
    if elevate {
        let mut args: Vec<String> = Vec::new();
        let ghost fv = from@;
        let ghost tv = to@;
        args.push(from);
        args.push(to);
        let c = Cmd {
            program: String::from_str("cp"),
            args,
            elevate: true,
            dir: WorkDir::Inherit,
        };
        proof {
            assert(c.deep_view().args =~= seq![fv, tv]);
        }
        InstallStep::Run(c)
    } else {
        InstallStep::CopyFile { from, to }
    }
}

/// Plan the copies of a Cargo install: every file of the release output
/// directory goes to the binary directory under its own name. An empty
/// release directory means there is nothing to install, a hard failure.
#[verifier::loop_isolation(false)]
pub fn cargo_install_steps(loc: &InstallLocation, build_dir: &str, binaries: &Vec<String>) -> (r:
    Option<Vec<InstallStep>>)
    ensures
        r is Some <==> binaries@.len() > 0,
        r matches Some(steps) ==> {
            &&& steps.deep_view().len() == binaries@.len()
            &&& forall|k: int|
                0 <= k < binaries@.len() ==> steps.deep_view()[k] == spec_copy_step(
                    loc.elevate,
                    build_dir@ + "/target/release/"@ + binaries.deep_view()[k],
                    loc.bin_path@ + "/"@ + binaries.deep_view()[k],
                )
        },
{
    if binaries.len() == 0 {
        return None;
    }
    let mut release_dir = build_dir.to_owned();
    release_dir.append("/target/release");
    let mut steps: Vec<InstallStep> = Vec::new();
    let mut i: usize = 0;
    while i < binaries.len()
        invariant
            i <= binaries@.len(),
            release_dir@ == build_dir@ + "/target/release"@,
            steps.deep_view().len() == i,
            forall|k: int|
                0 <= k < i ==> steps.deep_view()[k] == spec_copy_step(
                    loc.elevate,
                    build_dir@ + "/target/release/"@ + binaries.deep_view()[k],
                    loc.bin_path@ + "/"@ + binaries.deep_view()[k],
                ),
        decreases binaries@.len() - i,
    {
        let name = &binaries[i];
        let from = join_path(release_dir.as_str(), name.as_str());
        let to = join_path(loc.bin_path.as_str(), name.as_str());
        proof {
            reveal_strlit("/target/release");
            reveal_strlit("/target/release/");
            reveal_strlit("/");
            assert(binaries.deep_view()[i as int] == binaries@[i as int]@);
            assert(from@ =~= build_dir@ + "/target/release/"@ + binaries.deep_view()[i as int]);
        }
        let step = copy_step(loc.elevate, from, to);
        let ghost prev_deep = steps.deep_view();
        let ghost prev_view = steps@;
        proof {
            assert(forall|k: int|
                0 <= k < prev_view.len() ==> #[trigger] prev_deep[k] == prev_view[k].deep_view());
        }
        steps.push(step);
        proof {
            assert(forall|k: int|
                0 <= k < steps@.len() ==> #[trigger] steps.deep_view()[k]
                    == steps@[k].deep_view());
            assert forall|k: int| 0 <= k < i + 1 implies steps.deep_view()[k] == spec_copy_step(
                loc.elevate,
                build_dir@ + "/target/release/"@ + binaries.deep_view()[k],
                loc.bin_path@ + "/"@ + binaries.deep_view()[k],
            ) by {
                if k < i {
                    assert(steps@[k] == prev_view[k]);
                    assert(prev_deep[k] == spec_copy_step(
                        loc.elevate,
                        build_dir@ + "/target/release/"@ + binaries.deep_view()[k],
                        loc.bin_path@ + "/"@ + binaries.deep_view()[k],
                    ));
                } else {
                    assert(steps@[k] == step);
                }
            }
        }
        i += 1;
    }
    Some(steps)
}

/// Plan a Stack install: the binary found under the backend's `bin` output
/// goes to the binary directory under the package's name; no binary found
/// is a failure.
pub fn stack_install_step(loc: &InstallLocation, repo_name: &str, found: Option<String>) -> (r:
    Option<InstallStep>)
    ensures
        r is Some <==> found is Some,
        r matches Some(step) ==> step.deep_view() == spec_copy_step(
            loc.elevate,
            found->Some_0@,
            loc.bin_path@ + "/"@ + repo_name@,
        ),
{
    match found {
        None => None,
        Some(binary) => {
            let to = join_path(loc.bin_path.as_str(), repo_name);
            Some(copy_step(loc.elevate, binary, to))
        },
    }
}

/// Plan a Pip install: `pip install .`, elevated system-wide or `--user`
/// locally; a missing `pip` is a failure.
pub fn pip_install_cmd(loc: &InstallLocation, has_pip: bool) -> (r: Option<Cmd>)
    ensures
        r is Some <==> has_pip,
        r matches Some(c) ==> c.deep_view() == (CmdView {
            program: "pip"@,
            args: if loc.elevate {
                seq!["install"@, "."@]
            } else {
                seq!["install"@, "--user"@, "."@]
            },
            elevate: loc.elevate,
            dir: WorkDir::Source,
        }),
{
    if !has_pip {
        return None;
    }
    let mut args: Vec<String> = Vec::new();
    args.push(String::from_str("install"));
    if !loc.elevate {
        args.push(String::from_str("--user"));
    }
    args.push(String::from_str("."));
    let c = Cmd {
        program: String::from_str("pip"),
        args,
        elevate: loc.elevate,
        dir: WorkDir::Source,
    };
    proof {
        if loc.elevate {
            assert(c.deep_view().args =~= seq!["install"@, "."@]);
        } else {
            assert(c.deep_view().args =~= seq!["install"@, "--user"@, "."@]);
        }
    }
    Some(c)
}

/// Plan the pre-install of a Pip dependency manifest: `pip install -r`
/// over the given file, `--user` locally, elevated otherwise.
pub fn pip_requirements_cmd(local: bool, requirements_path: &str) -> (r: Cmd)
    ensures
        r.deep_view() == (CmdView {
            program: "pip"@,
            args: if local {
                seq!["install"@, "--user"@, "-r"@, requirements_path@]
            } else {
                seq!["install"@, "-r"@, requirements_path@]
            },
            elevate: !local,
            dir: WorkDir::Inherit,
        }),
{
    let mut args: Vec<String> = Vec::new();
    args.push(String::from_str("install"));
    if local {
        args.push(String::from_str("--user"));
    }
    args.push(String::from_str("-r"));
    args.push(requirements_path.to_owned());
    let c = Cmd {
        program: String::from_str("pip"),
        args,
        elevate: !local,
        dir: WorkDir::Inherit,
    };
    proof {
        if local {
            assert(c.deep_view().args =~= seq![
                "install"@,
                "--user"@,
                "-r"@,
                requirements_path@,
            ]);
        } else {
            assert(c.deep_view().args =~= seq!["install"@, "-r"@, requirements_path@]);
        }
    }
    c
}

} // verus!
