//! Catalog entries for Alpine and openSUSE.

use vstd::prelude::*;
use crate::arch::Architecture;
use crate::distro::catalog::entry_ok;
use crate::distro::definition::{create_distro, string_views, url_texts, DistroDefinition};
use crate::distro::name::DistroName;

verus! {

pub fn get_definitions() -> (r: Vec<DistroDefinition>)
    ensures
        r@.len() == 2,
        forall|i: int| 0 <= i < r@.len() ==> entry_ok(#[trigger] r@[i]),
        r@[0].name == DistroName::Alpine,
        r@[1].name == DistroName::Opensuse,
{
    let mut r: Vec<DistroDefinition> = Vec::new();
    let d = create_distro(
        DistroName::Alpine,
        "Alpine",
        vec![
            (Architecture::Aarch64, "https://ghproxy.com/https://github.com/termux/proot-distro/releases/download/v4.30.1/alpine-aarch64-pd-v4.30.1.tar.xz"),
            (Architecture::Arm, "https://ghproxy.com/https://github.com/termux/proot-distro/releases/download/v4.30.1/alpine-arm-pd-v4.30.1.tar.xz"),
            (Architecture::X86_64, "https://ghproxy.com/https://github.com/termux/proot-distro/releases/download/v4.30.1/alpine-x86_64-pd-v4.30.1.tar.xz"),
            (Architecture::I686, "https://ghproxy.com/https://github.com/termux/proot-distro/releases/download/v4.30.1/alpine-i686-pd-v4.30.1.tar.xz"),
            (Architecture::Riscv64, "https://ghproxy.com/https://github.com/termux/proot-distro/releases/download/v4.30.1/alpine-riscv64-pd-v4.30.1.tar.xz"),
        ],
        "Alpine Linux is a security-oriented, lightweight Linux distribution based on musl libc and busybox",
        vec!["vim", "curl", "wget"],
    );
    assert(d.arches() =~= seq![Architecture::Aarch64, Architecture::Arm, Architecture::X86_64, Architecture::I686, Architecture::Riscv64]);
    assert(url_texts(d.urls@) =~= seq!["https://ghproxy.com/https://github.com/termux/proot-distro/releases/download/v4.30.1/alpine-aarch64-pd-v4.30.1.tar.xz"@, "https://ghproxy.com/https://github.com/termux/proot-distro/releases/download/v4.30.1/alpine-arm-pd-v4.30.1.tar.xz"@, "https://ghproxy.com/https://github.com/termux/proot-distro/releases/download/v4.30.1/alpine-x86_64-pd-v4.30.1.tar.xz"@, "https://ghproxy.com/https://github.com/termux/proot-distro/releases/download/v4.30.1/alpine-i686-pd-v4.30.1.tar.xz"@, "https://ghproxy.com/https://github.com/termux/proot-distro/releases/download/v4.30.1/alpine-riscv64-pd-v4.30.1.tar.xz"@]);
    assert(string_views(d.default_packages@) =~= seq!["vim"@, "curl"@, "wget"@]);
    assert(entry_ok(d));
    r.push(d);
    let d = create_distro(
        DistroName::Opensuse,
        "openSUSE",
        vec![
            (Architecture::Aarch64, "https://ghproxy.com/https://github.com/termux/proot-distro/releases/download/v4.29.0/opensuse-aarch64-pd-v4.29.0.tar.xz"),
            (Architecture::Arm, "https://ghproxy.com/https://github.com/termux/proot-distro/releases/download/v4.29.0/opensuse-arm-pd-v4.29.0.tar.xz"),
            (Architecture::X86_64, "https://ghproxy.com/https://github.com/termux/proot-distro/releases/download/v4.29.0/opensuse-x86_64-pd-v4.29.0.tar.xz"),
            (Architecture::I686, "https://ghproxy.com/https://github.com/termux/proot-distro/releases/download/v4.29.0/opensuse-i686-pd-v4.29.0.tar.xz"),
        ],
        "The makers' choice for sysadmins, developers and desktop users",
        vec!["vim", "curl", "wget"],
    );
    assert(d.arches() =~= seq![Architecture::Aarch64, Architecture::Arm, Architecture::X86_64, Architecture::I686]);
    assert(url_texts(d.urls@) =~= seq!["https://ghproxy.com/https://github.com/termux/proot-distro/releases/download/v4.29.0/opensuse-aarch64-pd-v4.29.0.tar.xz"@, "https://ghproxy.com/https://github.com/termux/proot-distro/releases/download/v4.29.0/opensuse-arm-pd-v4.29.0.tar.xz"@, "https://ghproxy.com/https://github.com/termux/proot-distro/releases/download/v4.29.0/opensuse-x86_64-pd-v4.29.0.tar.xz"@, "https://ghproxy.com/https://github.com/termux/proot-distro/releases/download/v4.29.0/opensuse-i686-pd-v4.29.0.tar.xz"@]);
    assert(string_views(d.default_packages@) =~= seq!["vim"@, "curl"@, "wget"@]);
    assert(entry_ok(d));
    r.push(d);
    r
}

} // verus!
