//! Command planning: the fixed sequence of external commands each backend
//! needs to build, and to install, expressed as data. The caller runs the
//! commands; nothing here does.

use vstd::prelude::*;
use crate::build_system::BuildSystem;
use crate::text::{join_with, spec_join};

verus! {

/// Where a planned command runs.
#[derive(Clone, Copy, PartialEq, Eq, Structural, Debug)]
pub enum WorkDir {
    /// In the source tree.
    Source,
    /// In the `build` subdirectory of the source tree.
    BuildSubdir,
    /// Wherever the caller happens to be.
    Inherit,
}

/// One external command: what to run, with which arguments, where, and
/// whether under elevated privilege.
pub struct Cmd {
    pub program: String,
    pub args: Vec<String>,
    pub elevate: bool,
    pub dir: WorkDir,
}

/// The ghost image of a [`Cmd`].
pub struct CmdView {
    pub program: Seq<char>,
    pub args: Seq<Seq<char>>,
    pub elevate: bool,
    pub dir: WorkDir,
}

impl DeepView for Cmd {
    type V = CmdView;

    open spec fn deep_view(&self) -> CmdView {
        CmdView {
            program: self.program@,
            args: self.args.deep_view(),
            elevate: self.elevate,
            dir: self.dir,
        }
    }
}

/// Does this backend build inside a `build` subdirectory the caller must
/// create first?
pub fn needs_build_subdir(b: BuildSystem) -> (r: bool)
    ensures
        r == (b == BuildSystem::Cmake || b == BuildSystem::Meson),
{
    match b {
        BuildSystem::Cmake => true,
        BuildSystem::Meson => true,
        _ => false,
    }
}

/// The build commands of each backend, in order. Flags reach Make, Nimble
/// and Stack joined into one argument, the other flag-taking backends as
/// separate arguments; Pip has no build step, and `Unknown` has no plan.
pub open spec fn spec_build_plan(
    b: BuildSystem,
    flags: Seq<Seq<char>>,
    has_bsd_makefile: bool,
) -> Option<Seq<CmdView>> {
    match b {
        BuildSystem::Make => Some(
            seq![
                CmdView {
                    program: "make"@,
                    args: seq![
                        "-f"@,
                        if has_bsd_makefile { "BSDMakefile"@ } else { "Makefile"@ },
                        spec_join(flags, " "@),
                    ],
                    elevate: false,
                    dir: WorkDir::Source,
                },
            ],
        ),
        BuildSystem::Autotools => Some(
            seq![
                CmdView {
                    program: "./configure"@,
                    args: flags,
                    elevate: false,
                    dir: WorkDir::Source,
                },
                CmdView { program: "make"@, args: seq![], elevate: false, dir: WorkDir::Source },
            ],
        ),
        BuildSystem::Cargo => Some(
            seq![
                CmdView {
                    program: "cargo"@,
                    args: seq!["build"@, "--release"@] + flags,
                    elevate: false,
                    dir: WorkDir::Source,
                },
            ],
        ),
        BuildSystem::Cmake => Some(
            seq![
                CmdView {
                    program: "cmake"@,
                    args: seq!["-DCMAKE_BUILD_TYPE=Release"@, ".."@],
                    elevate: false,
                    dir: WorkDir::BuildSubdir,
                },
                CmdView {
                    program: "cmake"@,
                    args: seq!["--build"@, "."@],
                    elevate: false,
                    dir: WorkDir::BuildSubdir,
                },
            ],
        ),
        BuildSystem::Meson => Some(
            seq![
                CmdView {
                    program: "meson"@,
                    args: seq!["setup"@, "build"@],
                    elevate: false,
                    dir: WorkDir::Source,
                },
                CmdView {
                    program: "ninja"@,
                    args: seq!["-C"@, "build"@],
                    elevate: false,
                    dir: WorkDir::Source,
                },
            ],
        ),
        BuildSystem::Ninja => Some(
            seq![CmdView { program: "ninja"@, args: flags, elevate: false, dir: WorkDir::Source }],
        ),
        BuildSystem::Nimble => Some(
            seq![
                CmdView {
                    program: "nimble"@,
                    args: seq!["build"@, spec_join(flags, " "@)],
                    elevate: false,
                    dir: WorkDir::Source,
                },
            ],
        ),
        BuildSystem::Stack => Some(
            seq![
                CmdView {
                    program: "stack"@,
                    args: seq![
                        "install"@,
                        spec_join(flags, " "@),
                        "--local-bin-path"@,
                        "bin"@,
                    ],
                    elevate: false,
                    dir: WorkDir::Source,
                },
            ],
        ),
        BuildSystem::Pip => Some(seq![]),
        BuildSystem::Unknown => None,
    }
}

/// Plan the build of a backend; `None` exactly for `Unknown`.
#[verifier::rlimit(60)]
pub fn build_plan(b: BuildSystem, flags: &Vec<String>, has_bsd_makefile: bool) -> (r: Option<
    Vec<Cmd>,
>)
    ensures
        r.deep_view() == spec_build_plan(b, flags.deep_view(), has_bsd_makefile),
{
    let mut cmds: Vec<Cmd> = Vec::new();
    match b {
        BuildSystem::Make => {
            let mut args: Vec<String> = Vec::new();
            args.push(String::from_str("-f"));
            args.push(
                if has_bsd_makefile {
                    String::from_str("BSDMakefile")
                } else {
                    String::from_str("Makefile")
                },
            );
            args.push(join_with(flags, " "));
            let c = Cmd {
                program: String::from_str("make"),
                args,
                elevate: false,
                dir: WorkDir::Source,
            };
            cmds.push(c);
            proof {
                let p = spec_build_plan(b, flags.deep_view(), has_bsd_makefile)->Some_0;
                assert(cmds.deep_view()[0].args =~= p[0].args);
                assert(cmds.deep_view() =~= p);
            }
            Some(cmds)
        },
        BuildSystem::Autotools => {
            let mut args: Vec<String> = Vec::new();
            crate::text::append_all(&mut args, flags);
            proof {
                assert(args.deep_view() =~= flags.deep_view());
            }
            cmds.push(
                Cmd {
                    program: String::from_str("./configure"),
                    args,
                    elevate: false,
                    dir: WorkDir::Source,
                },
            );
            cmds.push(
                Cmd {
                    program: String::from_str("make"),
                    args: Vec::new(),
                    elevate: false,
                    dir: WorkDir::Source,
                },
            );
            proof {
                let p = spec_build_plan(b, flags.deep_view(), has_bsd_makefile)->Some_0;
                assert(cmds.deep_view()[0].args =~= p[0].args);
                assert(cmds.deep_view()[1].args =~= p[1].args);
                assert(cmds.deep_view() =~= p);
            }
            Some(cmds)
        },
        BuildSystem::Cargo => {
            let mut args: Vec<String> = Vec::new();
            args.push(String::from_str("build"));
            args.push(String::from_str("--release"));
            proof {
                assert(args.deep_view() =~= seq!["build"@, "--release"@]);
            }
            crate::text::append_all(&mut args, flags);
            cmds.push(
                Cmd {
                    program: String::from_str("cargo"),
                    args,
                    elevate: false,
                    dir: WorkDir::Source,
                },
            );
            proof {
                let p = spec_build_plan(b, flags.deep_view(), has_bsd_makefile)->Some_0;
                assert(cmds.deep_view()[0].args =~= p[0].args);
                assert(cmds.deep_view() =~= p);
            }
            Some(cmds)
        },
        BuildSystem::Cmake => {
            let mut args1: Vec<String> = Vec::new();
            args1.push(String::from_str("-DCMAKE_BUILD_TYPE=Release"));
            args1.push(String::from_str(".."));
            cmds.push(
                Cmd {
                    program: String::from_str("cmake"),
                    args: args1,
                    elevate: false,
                    dir: WorkDir::BuildSubdir,
                },
            );
            let mut args2: Vec<String> = Vec::new();
            args2.push(String::from_str("--build"));
            args2.push(String::from_str("."));
            cmds.push(
                Cmd {
                    program: String::from_str("cmake"),
                    args: args2,
                    elevate: false,
                    dir: WorkDir::BuildSubdir,
                },
            );
            proof {
                let p = spec_build_plan(b, flags.deep_view(), has_bsd_makefile)->Some_0;
                assert(cmds.deep_view()[0].args =~= p[0].args);
                assert(cmds.deep_view()[1].args =~= p[1].args);
                assert(cmds.deep_view() =~= p);
            }
            Some(cmds)
        },
        BuildSystem::Meson => {
            let mut args1: Vec<String> = Vec::new();
            args1.push(String::from_str("setup"));
            args1.push(String::from_str("build"));
            cmds.push(
                Cmd {
                    program: String::from_str("meson"),
                    args: args1,
                    elevate: false,
                    dir: WorkDir::Source,
                },
            );
            let mut args2: Vec<String> = Vec::new();
            args2.push(String::from_str("-C"));
            args2.push(String::from_str("build"));
            cmds.push(
                Cmd {
                    program: String::from_str("ninja"),
                    args: args2,
                    elevate: false,
                    dir: WorkDir::Source,
                },
            );
            proof {
                let p = spec_build_plan(b, flags.deep_view(), has_bsd_makefile)->Some_0;
                assert(cmds.deep_view()[0].args =~= p[0].args);
                assert(cmds.deep_view()[1].args =~= p[1].args);
                assert(cmds.deep_view() =~= p);
            }
            Some(cmds)
        },
        BuildSystem::Ninja => {
            let mut args: Vec<String> = Vec::new();
            crate::text::append_all(&mut args, flags);
            proof {
                assert(args.deep_view() =~= flags.deep_view());
            }
            cmds.push(
                Cmd {
                    program: String::from_str("ninja"),
                    args,
                    elevate: false,
                    dir: WorkDir::Source,
                },
            );
            proof {
                let p = spec_build_plan(b, flags.deep_view(), has_bsd_makefile)->Some_0;
                assert(cmds.deep_view()[0].args =~= p[0].args);
                assert(cmds.deep_view() =~= p);
            }
            Some(cmds)
        },
        BuildSystem::Nimble => {
            let mut args: Vec<String> = Vec::new();
            args.push(String::from_str("build"));
            args.push(join_with(flags, " "));
            cmds.push(
                Cmd {
                    program: String::from_str("nimble"),
                    args,
                    elevate: false,
                    dir: WorkDir::Source,
                },
            );
            proof {
                let p = spec_build_plan(b, flags.deep_view(), has_bsd_makefile)->Some_0;
                assert(cmds.deep_view()[0].args =~= p[0].args);
                assert(cmds.deep_view() =~= p);
            }
            Some(cmds)
        },
        BuildSystem::Stack => {
            let mut args: Vec<String> = Vec::new();
            args.push(String::from_str("install"));
            args.push(join_with(flags, " "));
            args.push(String::from_str("--local-bin-path"));
            args.push(String::from_str("bin"));
            cmds.push(
                Cmd {
                    program: String::from_str("stack"),
                    args,
                    elevate: false,
                    dir: WorkDir::Source,
                },
            );
            proof {
                let p = spec_build_plan(b, flags.deep_view(), has_bsd_makefile)->Some_0;
                assert(cmds.deep_view()[0].args =~= p[0].args);
                assert(cmds.deep_view() =~= p);
            }
            Some(cmds)
        },
        BuildSystem::Pip => {
            proof {
                assert(cmds.deep_view() =~= Seq::<CmdView>::empty());
            }
            Some(cmds)
        },
        BuildSystem::Unknown => None,
    }
}

} // verus!
