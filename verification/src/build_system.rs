//! The closed set of build backends this package manager can drive.

use vstd::prelude::*;
use crate::text::str_eq;

verus! {

/// A build backend. `Unknown` is a terminal failure tag: nothing is ever
/// built for it.
#[derive(Clone, Copy, PartialEq, Eq, Structural, Debug)]
pub enum BuildSystem {
    Make,
    Autotools,
    Cargo,
    Cmake,
    Meson,
    Ninja,
    Nimble,
    Stack,
    Pip,
    Unknown,
}

impl BuildSystem {
    /// True for every backend that can actually be built and installed.
    pub open spec fn is_buildable(self) -> bool {
        self != BuildSystem::Unknown
    }
}

/// The backend a custom manifest names with `name`; any name outside the
/// recognised set reads as `Unknown`.
pub open spec fn spec_backend_from_name(name: Seq<char>) -> BuildSystem {
    if name == "make"@ {
        BuildSystem::Make
    } else if name == "autotools"@ {
        BuildSystem::Autotools
    } else if name == "cargo"@ {
        BuildSystem::Cargo
    } else if name == "cmake"@ {
        BuildSystem::Cmake
    } else if name == "meson"@ {
        BuildSystem::Meson
    } else if name == "ninja"@ {
        BuildSystem::Ninja
    } else if name == "nimble"@ {
        BuildSystem::Nimble
    } else if name == "stack"@ {
        BuildSystem::Stack
    } else if name == "pip"@ {
        BuildSystem::Pip
    } else {
        BuildSystem::Unknown
    }
}

/// Map a backend name from a custom manifest to its backend tag.
pub fn backend_from_name(name: &str) -> (r: BuildSystem)
    ensures
        r == spec_backend_from_name(name@),
{
    if str_eq(name, "make") {
        BuildSystem::Make
    } else if str_eq(name, "autotools") {
        BuildSystem::Autotools
    } else if str_eq(name, "cargo") {
        BuildSystem::Cargo
    } else if str_eq(name, "cmake") {
        BuildSystem::Cmake
    } else if str_eq(name, "meson") {
        BuildSystem::Meson
    } else if str_eq(name, "ninja") {
        BuildSystem::Ninja
    } else if str_eq(name, "nimble") {
        BuildSystem::Nimble
    } else if str_eq(name, "stack") {
        BuildSystem::Stack
    } else if str_eq(name, "pip") {
        BuildSystem::Pip
    } else {
        BuildSystem::Unknown
    }
}

/// The display name of a backend, as recorded in the ledger.
pub open spec fn spec_backend_label(b: BuildSystem) -> Seq<char> {
    match b {
        BuildSystem::Make => "Make"@,
        BuildSystem::Autotools => "Autotools"@,
        BuildSystem::Cargo => "Cargo"@,
        BuildSystem::Cmake => "Cmake"@,
        BuildSystem::Meson => "Meson"@,
        BuildSystem::Ninja => "Ninja"@,
        BuildSystem::Nimble => "Nimble"@,
        BuildSystem::Stack => "Stack"@,
        BuildSystem::Pip => "Pip"@,
        BuildSystem::Unknown => "Unknown"@,
    }
}

/// The display name of a backend, as recorded in the ledger.
pub fn backend_label(b: BuildSystem) -> (r: String)
    ensures
        r@ == spec_backend_label(b),
{
    match b {
        BuildSystem::Make => String::from_str("Make"),
        BuildSystem::Autotools => String::from_str("Autotools"),
        BuildSystem::Cargo => String::from_str("Cargo"),
        BuildSystem::Cmake => String::from_str("Cmake"),
        BuildSystem::Meson => String::from_str("Meson"),
        BuildSystem::Ninja => String::from_str("Ninja"),
        BuildSystem::Nimble => String::from_str("Nimble"),
        BuildSystem::Stack => String::from_str("Stack"),
        BuildSystem::Pip => String::from_str("Pip"),
        BuildSystem::Unknown => String::from_str("Unknown"),
    }
}

/// The fixed tool dependencies of the backends whose requirements do not
/// come from scanning the source tree.
pub open spec fn spec_fixed_deps(b: BuildSystem) -> Seq<Seq<char>> {
    match b {
        BuildSystem::Cmake => seq!["cmake"@],
        BuildSystem::Meson => seq!["meson"@, "ninja"@],
        BuildSystem::Ninja => seq!["ninja"@],
        BuildSystem::Nimble => seq!["nim"@, "nimble"@],
        BuildSystem::Stack => seq!["stack"@],
        BuildSystem::Pip => seq!["pip"@],
        _ => seq![],
    }
}

/// The fixed tool dependencies of a backend.
pub fn fixed_deps(b: BuildSystem) -> (r: Vec<String>)
    ensures
        r.deep_view() == spec_fixed_deps(b),
{
    let mut r: Vec<String> = Vec::new();
    match b {
        BuildSystem::Cmake => {
            r.push(String::from_str("cmake"));
        },
        BuildSystem::Meson => {
            r.push(String::from_str("meson"));
            r.push(String::from_str("ninja"));
        },
        BuildSystem::Ninja => {
            r.push(String::from_str("ninja"));
        },
        BuildSystem::Nimble => {
            r.push(String::from_str("nim"));
            r.push(String::from_str("nimble"));
        },
        BuildSystem::Stack => {
            r.push(String::from_str("stack"));
        },
        BuildSystem::Pip => {
            r.push(String::from_str("pip"));
        },
        _ => {},
    }
    proof {
        assert(r.deep_view() =~= spec_fixed_deps(b));
    }
    r
}

} // verus!
