//! The closed set of CPU architectures that catalog entries are keyed by.

use vstd::prelude::*;
use crate::error::InstallError;
use crate::text::{chars_of, lower_of, lowercase, str_eq, string_of, trim, trim_bounds};

verus! {

#[derive(Debug, Clone, Copy, PartialEq, Eq, Hash, Structural)]
pub enum Architecture {
    Aarch64,
    Arm,
    X86_64,
    I686,
    Riscv64,
}

/// The canonical name of each architecture.
pub open spec fn arch_name(a: Architecture) -> Seq<char> {
    match a {
        Architecture::Aarch64 => "aarch64"@,
        Architecture::Arm => "arm"@,
        Architecture::X86_64 => "x86_64"@,
        Architecture::I686 => "i686"@,
        Architecture::Riscv64 => "riscv64"@,
    }
}

/// The architecture that an already lowercased machine name stands for,
/// vendor aliases included.
pub open spec fn arch_of_lower(t: Seq<char>) -> Option<Architecture> {
    if t == "aarch64"@ || t == "arm64"@ {
        Some(Architecture::Aarch64)
    } else if t == "arm"@ || t == "armv7"@ || t == "armhf"@ {
        Some(Architecture::Arm)
    } else if t == "x86_64"@ || t == "amd64"@ {
        Some(Architecture::X86_64)
    } else if t == "i686"@ || t == "x86"@ {
        Some(Architecture::I686)
    } else if t == "riscv64"@ {
        Some(Architecture::Riscv64)
    } else {
        None
    }
}

/// The architecture picked by a menu answer `1` to `5`.
pub open spec fn arch_of_choice(t: Seq<char>) -> Option<Architecture> {
    if t == "1"@ {
        Some(Architecture::Aarch64)
    } else if t == "2"@ {
        Some(Architecture::Arm)
    } else if t == "3"@ {
        Some(Architecture::X86_64)
    } else if t == "4"@ {
        Some(Architecture::I686)
    } else if t == "5"@ {
        Some(Architecture::Riscv64)
    } else {
        None
    }
}

impl Architecture {
    pub fn to_str(&self) -> (r: &'static str)
        ensures
            r@ == arch_name(*self),
    {
        match self {
            Architecture::Aarch64 => "aarch64",
            Architecture::Arm => "arm",
            Architecture::X86_64 => "x86_64",
            Architecture::I686 => "i686",
            Architecture::Riscv64 => "riscv64",
        }
    }

    /// Maps a machine name, in any letter case, to an architecture.
    pub fn from_str(s: &str) -> (r: Option<Architecture>)
        ensures
            r == arch_of_lower(lower_of(s@)),
    {
        let l = lowercase(s);
        let t = l.as_str();
        if str_eq(t, "aarch64") || str_eq(t, "arm64") {
            Some(Architecture::Aarch64)
        } else if str_eq(t, "arm") || str_eq(t, "armv7") || str_eq(t, "armhf") {
            Some(Architecture::Arm)
        } else if str_eq(t, "x86_64") || str_eq(t, "amd64") {
            Some(Architecture::X86_64)
        } else if str_eq(t, "i686") || str_eq(t, "x86") {
            Some(Architecture::I686)
        } else if str_eq(t, "riscv64") {
            Some(Architecture::Riscv64)
        } else {
            None
        }
    }
}

/// Interprets what the host's machine-name probe printed: surrounding
/// whitespace is ignored, and an unmapped name is an error that carries it.
pub fn resolve_architecture(probe_output: &str) -> (r: Result<Architecture, InstallError>)
    ensures
        match arch_of_lower(lower_of(trim(probe_output@))) {
            Some(a) => r == Ok::<Architecture, InstallError>(a),
            None => r matches Err(InstallError::UnsupportedArchitecture(n)) && n@ == trim(
                probe_output@,
            ),
        },
{
    let v = chars_of(probe_output);
    let (a, b) = trim_bounds(&v, 0, v.len());
    assert(v@.subrange(0, v@.len() as int) =~= v@);
    let name = string_of(&v, a, b);
    match Architecture::from_str(name.as_str()) {
        Some(arch) => Ok(arch),
        None => Err(InstallError::UnsupportedArchitecture(name)),
    }
}

/// Interprets one answer to the numbered architecture menu; `None` asks again.
pub fn arch_from_choice(input: &str) -> (r: Option<Architecture>)
    ensures
        r == arch_of_choice(trim(input@)),
{
    let v = chars_of(input);
    let (a, b) = trim_bounds(&v, 0, v.len());
    assert(v@.subrange(0, v@.len() as int) =~= v@);
    let t = string_of(&v, a, b);
    let t = t.as_str();
    if str_eq(t, "1") {
        Some(Architecture::Aarch64)
    } else if str_eq(t, "2") {
        Some(Architecture::Arm)
    } else if str_eq(t, "3") {
        Some(Architecture::X86_64)
    } else if str_eq(t, "4") {
        Some(Architecture::I686)
    } else if str_eq(t, "5") {
        Some(Architecture::Riscv64)
    } else {
        None
    }
}

} // verus!
