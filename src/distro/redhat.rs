//! Catalog entries for the Red Hat family.

use vstd::prelude::*;
use crate::arch::Architecture;
use crate::distro::catalog::entry_ok;
use crate::distro::definition::{create_distro, string_views, url_texts, DistroDefinition};
use crate::distro::name::DistroName;

verus! {

pub fn get_definitions() -> (r: Vec<DistroDefinition>)
    ensures
        r@.len() == 2,
        forall|i: int| 0 <= i < r@.len() ==> entry_ok(#[trigger] r@[i]),
        r@[0].name == DistroName::Fedora,
        r@[1].name == DistroName::Rockylinux,
{
    let mut r: Vec<DistroDefinition> = Vec::new();
    let d = create_distro(
        DistroName::Fedora,
        "Fedora",
        vec![
            (Architecture::Aarch64, "https://ghproxy.com/https://github.com/termux/proot-distro/releases/download/v4.29.0/fedora-aarch64-pd-v4.29.0.tar.xz"),
            (Architecture::X86_64, "https://ghproxy.com/https://github.com/termux/proot-distro/releases/download/v4.29.0/fedora-x86_64-pd-v4.29.0.tar.xz"),
        ],
        "Fedora creates an innovative, free, and open source platform for hardware, clouds, and containers",
        vec!["@development-tools", "curl", "wget", "git", "vim", "htop", "tmux", "dnf-plugins-core"],
    );
    assert(d.arches() =~= seq![Architecture::Aarch64, Architecture::X86_64]);
    assert(url_texts(d.urls@) =~= seq!["https://ghproxy.com/https://github.com/termux/proot-distro/releases/download/v4.29.0/fedora-aarch64-pd-v4.29.0.tar.xz"@, "https://ghproxy.com/https://github.com/termux/proot-distro/releases/download/v4.29.0/fedora-x86_64-pd-v4.29.0.tar.xz"@]);
    assert(string_views(d.default_packages@) =~= seq!["@development-tools"@, "curl"@, "wget"@, "git"@, "vim"@, "htop"@, "tmux"@, "dnf-plugins-core"@]);
    assert(entry_ok(d));
    r.push(d);
    let d = create_distro(
        DistroName::Rockylinux,
        "Rocky Linux",
        vec![
            (Architecture::Aarch64, "https://ghproxy.com/https://github.com/termux/proot-distro/releases/download/v4.29.0/rocky-aarch64-pd-v4.29.0.tar.xz"),
            (Architecture::X86_64, "https://ghproxy.com/https://github.com/termux/proot-distro/releases/download/v4.29.0/rocky-x86_64-pd-v4.29.0.tar.xz"),
        ],
        "Rocky Linux is a community enterprise operating system designed to be 100% bug-for-bug compatible with Enterprise Linux",
        vec!["vim", "curl", "wget"],
    );
    assert(d.arches() =~= seq![Architecture::Aarch64, Architecture::X86_64]);
    assert(url_texts(d.urls@) =~= seq!["https://ghproxy.com/https://github.com/termux/proot-distro/releases/download/v4.29.0/rocky-aarch64-pd-v4.29.0.tar.xz"@, "https://ghproxy.com/https://github.com/termux/proot-distro/releases/download/v4.29.0/rocky-x86_64-pd-v4.29.0.tar.xz"@]);
    assert(string_views(d.default_packages@) =~= seq!["vim"@, "curl"@, "wget"@]);
    assert(entry_ok(d));
    r.push(d);
    r
}

} // verus!
