//! Catalog entry for Adelie Linux.

use vstd::prelude::*;
use crate::arch::Architecture;
use crate::distro::catalog::entry_ok;
use crate::distro::definition::{create_distro, string_views, url_texts, DistroDefinition};
use crate::distro::name::DistroName;

verus! {

pub fn get_definition() -> (r: Vec<DistroDefinition>)
    ensures
        r@.len() == 1,
        forall|i: int| 0 <= i < r@.len() ==> entry_ok(#[trigger] r@[i]),
        r@[0].name == DistroName::Adelie,
{
    let mut r: Vec<DistroDefinition> = Vec::new();
    let d = create_distro(
        DistroName::Adelie,
        "Adelie",
        vec![
            (Architecture::Aarch64, "https://ghproxy.com/https://github.com/termux/proot-distro/releases/download/v4.29.0/adelie-aarch64-pd-v4.29.0.tar.xz"),
            (Architecture::Arm, "https://ghproxy.com/https://github.com/termux/proot-distro/releases/download/v4.29.0/adelie-armv7-pd-v4.29.0.tar.xz"),
            (Architecture::X86_64, "https://ghproxy.com/https://github.com/termux/proot-distro/releases/download/v4.29.0/adelie-x86_64-pd-v4.29.0.tar.xz"),
        ],
        "A Linux distribution built on the shoulders of giants",
        vec!["vim", "curl", "wget"],
    );
    assert(d.arches() =~= seq![Architecture::Aarch64, Architecture::Arm, Architecture::X86_64]);
    assert(url_texts(d.urls@) =~= seq!["https://ghproxy.com/https://github.com/termux/proot-distro/releases/download/v4.29.0/adelie-aarch64-pd-v4.29.0.tar.xz"@, "https://ghproxy.com/https://github.com/termux/proot-distro/releases/download/v4.29.0/adelie-armv7-pd-v4.29.0.tar.xz"@, "https://ghproxy.com/https://github.com/termux/proot-distro/releases/download/v4.29.0/adelie-x86_64-pd-v4.29.0.tar.xz"@]);
    assert(string_views(d.default_packages@) =~= seq!["vim"@, "curl"@, "wget"@]);
    assert(entry_ok(d));
    r.push(d);
    r
}

} // verus!
