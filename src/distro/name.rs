//! The closed set of catalog entries and their package-manager families.

use vstd::prelude::*;

verus! {

#[derive(Debug, Clone, Copy, PartialEq, Eq, Hash, Structural)]
pub enum DistroName {
    Adelie,
    Deepin,
    Debian,
    Chimera,
    Opensuse,
    Artix,
    Manjaro,
    Archlinux,
    Void,
    Fedora,
    Ubuntu,
    Rockylinux,
    Alpine,
    Pardus,
}

/// How an installed tree is customised after extraction, by package-manager
/// convention.
#[derive(Debug, Clone, Copy, PartialEq, Eq, Structural)]
pub enum Family {
    /// apt-based: the package-source list is replaced from a template.
    Apt,
    /// yum/dnf-based: hosts and resolver files are rewritten.
    Rpm,
    /// yum/dnf-based with discrete repository files, which are replaced too.
    RpmWithRepos,
    /// No customisation.
    Plain,
}

/// The canonical lowercase tag of each entry.
pub open spec fn tag_of(n: DistroName) -> Seq<char> {
    match n {
        DistroName::Adelie => "adelie"@,
        DistroName::Deepin => "deepin"@,
        DistroName::Debian => "debian"@,
        DistroName::Chimera => "chimera"@,
        DistroName::Opensuse => "opensuse"@,
        DistroName::Artix => "artix"@,
        DistroName::Manjaro => "manjaro"@,
        DistroName::Archlinux => "archlinux"@,
        DistroName::Void => "void"@,
        DistroName::Fedora => "fedora"@,
        DistroName::Ubuntu => "ubuntu"@,
        DistroName::Rockylinux => "rockylinux"@,
        DistroName::Alpine => "alpine"@,
        DistroName::Pardus => "pardus"@,
    }
}

/// The human-readable name of each entry.
pub open spec fn display_of(n: DistroName) -> Seq<char> {
    match n {
        DistroName::Adelie => "Adelie"@,
        DistroName::Deepin => "Deepin"@,
        DistroName::Debian => "Debian"@,
        DistroName::Chimera => "Chimera"@,
        DistroName::Opensuse => "openSUSE"@,
        DistroName::Artix => "Artix"@,
        DistroName::Manjaro => "Manjaro"@,
        DistroName::Archlinux => "Arch Linux"@,
        DistroName::Void => "Void"@,
        DistroName::Fedora => "Fedora"@,
        DistroName::Ubuntu => "Ubuntu"@,
        DistroName::Rockylinux => "Rocky Linux"@,
        DistroName::Alpine => "Alpine"@,
        DistroName::Pardus => "Pardus"@,
    }
}

pub open spec fn family_of(n: DistroName) -> Family {
    match n {
        DistroName::Debian | DistroName::Ubuntu | DistroName::Deepin | DistroName::Pardus => Family::Apt,
        DistroName::Rockylinux => Family::Rpm,
        DistroName::Fedora => Family::RpmWithRepos,
        _ => Family::Plain,
    }
}

impl DistroName {
    pub fn as_str(&self) -> (r: &'static str)
        ensures
            r@ == tag_of(*self),
    {
        match self {
            DistroName::Adelie => "adelie",
            DistroName::Deepin => "deepin",
            DistroName::Debian => "debian",
            DistroName::Chimera => "chimera",
            DistroName::Opensuse => "opensuse",
            DistroName::Artix => "artix",
            DistroName::Manjaro => "manjaro",
            DistroName::Archlinux => "archlinux",
            DistroName::Void => "void",
            DistroName::Fedora => "fedora",
            DistroName::Ubuntu => "ubuntu",
            DistroName::Rockylinux => "rockylinux",
            DistroName::Alpine => "alpine",
            DistroName::Pardus => "pardus",
        }
    }

    /// The human-readable name.
    pub fn to_string(&self) -> (r: String)
        ensures
            r@ == display_of(*self),
    {
        let s = match self {
            DistroName::Adelie => "Adelie",
            DistroName::Deepin => "Deepin",
            DistroName::Debian => "Debian",
            DistroName::Chimera => "Chimera",
            DistroName::Opensuse => "openSUSE",
            DistroName::Artix => "Artix",
            DistroName::Manjaro => "Manjaro",
            DistroName::Archlinux => "Arch Linux",
            DistroName::Void => "Void",
            DistroName::Fedora => "Fedora",
            DistroName::Ubuntu => "Ubuntu",
            DistroName::Rockylinux => "Rocky Linux",
            DistroName::Alpine => "Alpine",
            DistroName::Pardus => "Pardus",
        };
        String::from_str(s)
    }

    pub fn family(&self) -> (r: Family)
        ensures
            r == family_of(*self),
    {
        match self {
            DistroName::Debian | DistroName::Ubuntu | DistroName::Deepin | DistroName::Pardus => Family::Apt,
            DistroName::Rockylinux => Family::Rpm,
            DistroName::Fedora => Family::RpmWithRepos,
            _ => Family::Plain,
        }
    }
}

} // verus!
