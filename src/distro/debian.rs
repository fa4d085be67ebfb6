//! Catalog entries for Debian and the distros built on it.

use vstd::prelude::*;
use crate::arch::Architecture;
use crate::distro::catalog::entry_ok;
use crate::distro::definition::{create_distro, string_views, url_texts, DistroDefinition};
use crate::distro::name::DistroName;

verus! {

pub fn get_definitions() -> (r: Vec<DistroDefinition>)
    ensures
        r@.len() == 4,
        forall|i: int| 0 <= i < r@.len() ==> entry_ok(#[trigger] r@[i]),
        r@[0].name == DistroName::Debian,
        r@[1].name == DistroName::Ubuntu,
        r@[2].name == DistroName::Deepin,
        r@[3].name == DistroName::Pardus,
{
    let mut r: Vec<DistroDefinition> = Vec::new();
    let d = create_distro(
        DistroName::Debian,
        "Debian",
        vec![
            (Architecture::Aarch64, "https://ghproxy.com/https://github.com/termux/proot-distro/releases/download/v4.29.0/debian-trixie-aarch64-pd-v4.29.0.tar.xz"),
            (Architecture::Arm, "https://ghproxy.com/https://github.com/termux/proot-distro/releases/download/v4.29.0/debian-trixie-arm-pd-v4.29.0.tar.xz"),
            (Architecture::X86_64, "https://ghproxy.com/https://github.com/termux/proot-distro/releases/download/v4.29.0/debian-trixie-x86_64-pd-v4.29.0.tar.xz"),
            (Architecture::I686, "https://ghproxy.com/https://github.com/termux/proot-distro/releases/download/v4.29.0/debian-trixie-i686-pd-v4.29.0.tar.xz"),
        ],
        "The universal operating system",
        vec!["build-essential", "devscripts", "curl", "wget", "git", "vim", "htop", "tmux"],
    );
    assert(d.arches() =~= seq![Architecture::Aarch64, Architecture::Arm, Architecture::X86_64, Architecture::I686]);
    assert(url_texts(d.urls@) =~= seq!["https://ghproxy.com/https://github.com/termux/proot-distro/releases/download/v4.29.0/debian-trixie-aarch64-pd-v4.29.0.tar.xz"@, "https://ghproxy.com/https://github.com/termux/proot-distro/releases/download/v4.29.0/debian-trixie-arm-pd-v4.29.0.tar.xz"@, "https://ghproxy.com/https://github.com/termux/proot-distro/releases/download/v4.29.0/debian-trixie-x86_64-pd-v4.29.0.tar.xz"@, "https://ghproxy.com/https://github.com/termux/proot-distro/releases/download/v4.29.0/debian-trixie-i686-pd-v4.29.0.tar.xz"@]);
    assert(string_views(d.default_packages@) =~= seq!["build-essential"@, "devscripts"@, "curl"@, "wget"@, "git"@, "vim"@, "htop"@, "tmux"@]);
    assert(entry_ok(d));
    r.push(d);
    let d = create_distro(
        DistroName::Ubuntu,
        "Ubuntu",
        vec![
            (Architecture::Aarch64, "https://ghproxy.com/https://github.com/termux/proot-distro/releases/download/v4.30.1/ubuntu-questing-aarch64-pd-v4.30.1.tar.xz"),
            (Architecture::Arm, "https://ghproxy.com/https://github.com/termux/proot-distro/releases/download/v4.30.1/ubuntu-questing-arm-pd-v4.30.1.tar.xz"),
            (Architecture::X86_64, "https://ghproxy.com/https://github.com/termux/proot-distro/releases/download/v4.30.1/ubuntu-questing-x86_64-pd-v4.30.1.tar.xz"),
        ],
        "Ubuntu is a Debian-based Linux operating system",
        vec!["build-essential", "curl", "wget", "git", "vim", "htop"],
    );
    assert(d.arches() =~= seq![Architecture::Aarch64, Architecture::Arm, Architecture::X86_64]);
    assert(url_texts(d.urls@) =~= seq!["https://ghproxy.com/https://github.com/termux/proot-distro/releases/download/v4.30.1/ubuntu-questing-aarch64-pd-v4.30.1.tar.xz"@, "https://ghproxy.com/https://github.com/termux/proot-distro/releases/download/v4.30.1/ubuntu-questing-arm-pd-v4.30.1.tar.xz"@, "https://ghproxy.com/https://github.com/termux/proot-distro/releases/download/v4.30.1/ubuntu-questing-x86_64-pd-v4.30.1.tar.xz"@]);
    assert(string_views(d.default_packages@) =~= seq!["build-essential"@, "curl"@, "wget"@, "git"@, "vim"@, "htop"@]);
    assert(entry_ok(d));
    r.push(d);
    let d = create_distro(
        DistroName::Deepin,
        "Deepin",
        vec![
            (Architecture::Aarch64, "https://ghproxy.com/https://github.com/termux/proot-distro/releases/download/v4.29.0/deepin-aarch64-pd-v4.29.0.tar.xz"),
            (Architecture::X86_64, "https://ghproxy.com/https://github.com/termux/proot-distro/releases/download/v4.29.0/deepin-x86_64-pd-v4.29.0.tar.xz"),
        ],
        "Deepin is a Linux distribution based on Debian",
        vec!["vim", "curl", "wget"],
    );
    assert(d.arches() =~= seq![Architecture::Aarch64, Architecture::X86_64]);
    assert(url_texts(d.urls@) =~= seq!["https://ghproxy.com/https://github.com/termux/proot-distro/releases/download/v4.29.0/deepin-aarch64-pd-v4.29.0.tar.xz"@, "https://ghproxy.com/https://github.com/termux/proot-distro/releases/download/v4.29.0/deepin-x86_64-pd-v4.29.0.tar.xz"@]);
    assert(string_views(d.default_packages@) =~= seq!["vim"@, "curl"@, "wget"@]);
    assert(entry_ok(d));
    r.push(d);
    let d = create_distro(
        DistroName::Pardus,
        "Pardus",
        vec![
            (Architecture::Aarch64, "https://ghproxy.com/https://github.com/termux/proot-distro/releases/download/v4.29.0/pardus-aarch64-pd-v4.29.0.tar.xz"),
            (Architecture::X86_64, "https://ghproxy.com/https://github.com/termux/proot-distro/releases/download/v4.29.0/pardus-x86_64-pd-v4.29.0.tar.xz"),
            (Architecture::I686, "https://ghproxy.com/https://github.com/termux/proot-distro/releases/download/v4.29.0/pardus-i686-pd-v4.29.0.tar.xz"),
        ],
        "Pardus is a Debian-based Linux distribution",
        vec!["vim", "curl", "wget"],
    );
    assert(d.arches() =~= seq![Architecture::Aarch64, Architecture::X86_64, Architecture::I686]);
    assert(url_texts(d.urls@) =~= seq!["https://ghproxy.com/https://github.com/termux/proot-distro/releases/download/v4.29.0/pardus-aarch64-pd-v4.29.0.tar.xz"@, "https://ghproxy.com/https://github.com/termux/proot-distro/releases/download/v4.29.0/pardus-x86_64-pd-v4.29.0.tar.xz"@, "https://ghproxy.com/https://github.com/termux/proot-distro/releases/download/v4.29.0/pardus-i686-pd-v4.29.0.tar.xz"@]);
    assert(string_views(d.default_packages@) =~= seq!["vim"@, "curl"@, "wget"@]);
    assert(entry_ok(d));
    r.push(d);
    r
}

} // verus!
