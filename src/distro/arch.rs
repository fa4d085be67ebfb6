//! Catalog entries for Arch Linux, its derivatives, and other independent distros.

use vstd::prelude::*;
use crate::arch::Architecture;
use crate::distro::catalog::entry_ok;
use crate::distro::definition::{create_distro, string_views, url_texts, DistroDefinition};
use crate::distro::name::DistroName;

verus! {

pub fn get_definitions() -> (r: Vec<DistroDefinition>)
    ensures
        r@.len() == 5,
        forall|i: int| 0 <= i < r@.len() ==> entry_ok(#[trigger] r@[i]),
        r@[0].name == DistroName::Archlinux,
        r@[1].name == DistroName::Manjaro,
        r@[2].name == DistroName::Artix,
        r@[3].name == DistroName::Void,
        r@[4].name == DistroName::Chimera,
{
    let mut r: Vec<DistroDefinition> = Vec::new();
    let d = create_distro(
        DistroName::Archlinux,
        "Arch Linux",
        vec![
            (Architecture::Aarch64, "https://ghproxy.com/https://github.com/termux/proot-distro/releases/download/v4.29.0/archlinux-aarch64-pd-v4.29.0.tar.xz"),
            (Architecture::Arm, "https://ghproxy.com/https://github.com/termux/proot-distro/releases/download/v4.29.0/archlinux-arm-pd-v4.29.0.tar.xz"),
            (Architecture::X86_64, "https://ghproxy.com/https://github.com/termux/proot-distro/releases/download/v4.29.0/archlinux-x86_64-pd-v4.29.0.tar.xz"),
            (Architecture::I686, "https://ghproxy.com/https://github.com/termux/proot-distro/releases/download/v4.29.0/archlinux-i686-pd-v4.29.0.tar.xz"),
        ],
        "A simple, lightweight Linux distribution",
        vec!["vim", "curl", "wget"],
    );
    assert(d.arches() =~= seq![Architecture::Aarch64, Architecture::Arm, Architecture::X86_64, Architecture::I686]);
    assert(url_texts(d.urls@) =~= seq!["https://ghproxy.com/https://github.com/termux/proot-distro/releases/download/v4.29.0/archlinux-aarch64-pd-v4.29.0.tar.xz"@, "https://ghproxy.com/https://github.com/termux/proot-distro/releases/download/v4.29.0/archlinux-arm-pd-v4.29.0.tar.xz"@, "https://ghproxy.com/https://github.com/termux/proot-distro/releases/download/v4.29.0/archlinux-x86_64-pd-v4.29.0.tar.xz"@, "https://ghproxy.com/https://github.com/termux/proot-distro/releases/download/v4.29.0/archlinux-i686-pd-v4.29.0.tar.xz"@]);
    assert(string_views(d.default_packages@) =~= seq!["vim"@, "curl"@, "wget"@]);
    assert(entry_ok(d));
    r.push(d);
    let d = create_distro(
        DistroName::Manjaro,
        "Manjaro",
        vec![
            (Architecture::Aarch64, "https://ghproxy.com/https://github.com/termux/proot-distro/releases/download/v4.29.0/manjaro-aarch64-pd-v4.29.0.tar.xz"),
        ],
        "Manjaro is a user-friendly Linux distribution based on Arch Linux",
        vec!["vim", "curl", "wget"],
    );
    assert(d.arches() =~= seq![Architecture::Aarch64]);
    assert(url_texts(d.urls@) =~= seq!["https://ghproxy.com/https://github.com/termux/proot-distro/releases/download/v4.29.0/manjaro-aarch64-pd-v4.29.0.tar.xz"@]);
    assert(string_views(d.default_packages@) =~= seq!["vim"@, "curl"@, "wget"@]);
    assert(entry_ok(d));
    r.push(d);
    let d = create_distro(
        DistroName::Artix,
        "Artix",
        vec![
            (Architecture::Aarch64, "https://ghproxy.com/https://github.com/termux/proot-distro/releases/download/v4.29.0/artix-aarch64-pd-v4.29.0.tar.xz"),
        ],
        "Artix Linux is a fork of Arch Linux with openrc",
        vec!["vim", "curl", "wget"],
    );
    assert(d.arches() =~= seq![Architecture::Aarch64]);
    assert(url_texts(d.urls@) =~= seq!["https://ghproxy.com/https://github.com/termux/proot-distro/releases/download/v4.29.0/artix-aarch64-pd-v4.29.0.tar.xz"@]);
    assert(string_views(d.default_packages@) =~= seq!["vim"@, "curl"@, "wget"@]);
    assert(entry_ok(d));
    r.push(d);
    let d = create_distro(
        DistroName::Void,
        "Void",
        vec![
            (Architecture::Aarch64, "https://ghproxy.com/https://github.com/termux/proot-distro/releases/download/v4.29.0/void-aarch64-pd-v4.29.0.tar.xz"),
            (Architecture::Arm, "https://ghproxy.com/https://github.com/termux/proot-distro/releases/download/v4.29.0/void-arm-pd-v4.29.0.tar.xz"),
            (Architecture::X86_64, "https://ghproxy.com/https://github.com/termux/proot-distro/releases/download/v4.29.0/void-x86_64-pd-v4.29.0.tar.xz"),
            (Architecture::I686, "https://ghproxy.com/https://github.com/termux/proot-distro/releases/download/v4.29.0/void-i686-pd-v4.29.0.tar.xz"),
        ],
        "Void is a general purpose operating system, based on the monolithic Linux kernel",
        vec!["vim", "curl", "wget"],
    );
    assert(d.arches() =~= seq![Architecture::Aarch64, Architecture::Arm, Architecture::X86_64, Architecture::I686]);
    assert(url_texts(d.urls@) =~= seq!["https://ghproxy.com/https://github.com/termux/proot-distro/releases/download/v4.29.0/void-aarch64-pd-v4.29.0.tar.xz"@, "https://ghproxy.com/https://github.com/termux/proot-distro/releases/download/v4.29.0/void-arm-pd-v4.29.0.tar.xz"@, "https://ghproxy.com/https://github.com/termux/proot-distro/releases/download/v4.29.0/void-x86_64-pd-v4.29.0.tar.xz"@, "https://ghproxy.com/https://github.com/termux/proot-distro/releases/download/v4.29.0/void-i686-pd-v4.29.0.tar.xz"@]);
    assert(string_views(d.default_packages@) =~= seq!["vim"@, "curl"@, "wget"@]);
    assert(entry_ok(d));
    r.push(d);
    let d = create_distro(
        DistroName::Chimera,
        "Chimera",
        vec![
            (Architecture::Aarch64, "https://ghproxy.com/https://github.com/termux/proot-distro/releases/download/v4.29.0/chimera-aarch64-pd-v4.29.0.tar.xz"),
            (Architecture::X86_64, "https://ghproxy.com/https://github.com/termux/proot-distro/releases/download/v4.29.0/chimera-x86_64-pd-v4.29.0.tar.xz"),
            (Architecture::Riscv64, "https://ghproxy.com/https://github.com/termux/proot-distro/releases/download/v4.29.0/chimera-riscv64-pd-v4.29.0.tar.xz"),
        ],
        "Chimera Linux is a modern, general-purpose non-GNU Linux distribution",
        vec!["vim", "curl", "wget"],
    );
    assert(d.arches() =~= seq![Architecture::Aarch64, Architecture::X86_64, Architecture::Riscv64]);
    assert(url_texts(d.urls@) =~= seq!["https://ghproxy.com/https://github.com/termux/proot-distro/releases/download/v4.29.0/chimera-aarch64-pd-v4.29.0.tar.xz"@, "https://ghproxy.com/https://github.com/termux/proot-distro/releases/download/v4.29.0/chimera-x86_64-pd-v4.29.0.tar.xz"@, "https://ghproxy.com/https://github.com/termux/proot-distro/releases/download/v4.29.0/chimera-riscv64-pd-v4.29.0.tar.xz"@]);
    assert(string_views(d.default_packages@) =~= seq!["vim"@, "curl"@, "wget"@]);
    assert(entry_ok(d));
    r.push(d);
    r
}

} // verus!
