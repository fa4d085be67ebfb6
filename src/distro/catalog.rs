//! The whole catalog, and lookups over it by name and by architecture.

use vstd::prelude::*;
use crate::arch::Architecture;
use crate::distro::definition::{string_views, url_texts, DistroDefinition};
use crate::distro::name::{display_of, tag_of, DistroName};
use crate::distro::{adelie, arch, debian, others, redhat};
use crate::text::{lower_of, lowercase, str_eq};

verus! {

/// The architectures that each entry has a URL for, in catalog order.
pub open spec fn arches_of(n: DistroName) -> Seq<Architecture> {
    match n {
        DistroName::Adelie => seq![Architecture::Aarch64, Architecture::Arm, Architecture::X86_64],
        DistroName::Debian => seq![Architecture::Aarch64, Architecture::Arm, Architecture::X86_64, Architecture::I686],
        DistroName::Ubuntu => seq![Architecture::Aarch64, Architecture::Arm, Architecture::X86_64],
        DistroName::Deepin => seq![Architecture::Aarch64, Architecture::X86_64],
        DistroName::Pardus => seq![Architecture::Aarch64, Architecture::X86_64, Architecture::I686],
        DistroName::Archlinux => seq![Architecture::Aarch64, Architecture::Arm, Architecture::X86_64, Architecture::I686],
        DistroName::Manjaro => seq![Architecture::Aarch64],
        DistroName::Artix => seq![Architecture::Aarch64],
        DistroName::Void => seq![Architecture::Aarch64, Architecture::Arm, Architecture::X86_64, Architecture::I686],
        DistroName::Chimera => seq![Architecture::Aarch64, Architecture::X86_64, Architecture::Riscv64],
        DistroName::Fedora => seq![Architecture::Aarch64, Architecture::X86_64],
        DistroName::Rockylinux => seq![Architecture::Aarch64, Architecture::X86_64],
        DistroName::Alpine => seq![Architecture::Aarch64, Architecture::Arm, Architecture::X86_64, Architecture::I686, Architecture::Riscv64],
        DistroName::Opensuse => seq![Architecture::Aarch64, Architecture::Arm, Architecture::X86_64, Architecture::I686],
    }
}

/// The download URL of each entry, one per architecture, in the order of `arches_of`.
pub open spec fn urls_of(n: DistroName) -> Seq<Seq<char>> {
    match n {
        DistroName::Adelie => seq![
            "https://ghproxy.com/https://github.com/termux/proot-distro/releases/download/v4.29.0/adelie-aarch64-pd-v4.29.0.tar.xz"@,
            "https://ghproxy.com/https://github.com/termux/proot-distro/releases/download/v4.29.0/adelie-armv7-pd-v4.29.0.tar.xz"@,
            "https://ghproxy.com/https://github.com/termux/proot-distro/releases/download/v4.29.0/adelie-x86_64-pd-v4.29.0.tar.xz"@,
        ],
        DistroName::Debian => seq![
            "https://ghproxy.com/https://github.com/termux/proot-distro/releases/download/v4.29.0/debian-trixie-aarch64-pd-v4.29.0.tar.xz"@,
            "https://ghproxy.com/https://github.com/termux/proot-distro/releases/download/v4.29.0/debian-trixie-arm-pd-v4.29.0.tar.xz"@,
            "https://ghproxy.com/https://github.com/termux/proot-distro/releases/download/v4.29.0/debian-trixie-x86_64-pd-v4.29.0.tar.xz"@,
            "https://ghproxy.com/https://github.com/termux/proot-distro/releases/download/v4.29.0/debian-trixie-i686-pd-v4.29.0.tar.xz"@,
        ],
        DistroName::Ubuntu => seq![
            "https://ghproxy.com/https://github.com/termux/proot-distro/releases/download/v4.30.1/ubuntu-questing-aarch64-pd-v4.30.1.tar.xz"@,
            "https://ghproxy.com/https://github.com/termux/proot-distro/releases/download/v4.30.1/ubuntu-questing-arm-pd-v4.30.1.tar.xz"@,
            "https://ghproxy.com/https://github.com/termux/proot-distro/releases/download/v4.30.1/ubuntu-questing-x86_64-pd-v4.30.1.tar.xz"@,
        ],
        DistroName::Deepin => seq![
            "https://ghproxy.com/https://github.com/termux/proot-distro/releases/download/v4.29.0/deepin-aarch64-pd-v4.29.0.tar.xz"@,
            "https://ghproxy.com/https://github.com/termux/proot-distro/releases/download/v4.29.0/deepin-x86_64-pd-v4.29.0.tar.xz"@,
        ],
        DistroName::Pardus => seq![
            "https://ghproxy.com/https://github.com/termux/proot-distro/releases/download/v4.29.0/pardus-aarch64-pd-v4.29.0.tar.xz"@,
            "https://ghproxy.com/https://github.com/termux/proot-distro/releases/download/v4.29.0/pardus-x86_64-pd-v4.29.0.tar.xz"@,
            "https://ghproxy.com/https://github.com/termux/proot-distro/releases/download/v4.29.0/pardus-i686-pd-v4.29.0.tar.xz"@,
        ],
        DistroName::Archlinux => seq![
            "https://ghproxy.com/https://github.com/termux/proot-distro/releases/download/v4.29.0/archlinux-aarch64-pd-v4.29.0.tar.xz"@,
            "https://ghproxy.com/https://github.com/termux/proot-distro/releases/download/v4.29.0/archlinux-arm-pd-v4.29.0.tar.xz"@,
            "https://ghproxy.com/https://github.com/termux/proot-distro/releases/download/v4.29.0/archlinux-x86_64-pd-v4.29.0.tar.xz"@,
            "https://ghproxy.com/https://github.com/termux/proot-distro/releases/download/v4.29.0/archlinux-i686-pd-v4.29.0.tar.xz"@,
        ],
        DistroName::Manjaro => seq![
            "https://ghproxy.com/https://github.com/termux/proot-distro/releases/download/v4.29.0/manjaro-aarch64-pd-v4.29.0.tar.xz"@,
        ],
        DistroName::Artix => seq![
            "https://ghproxy.com/https://github.com/termux/proot-distro/releases/download/v4.29.0/artix-aarch64-pd-v4.29.0.tar.xz"@,
        ],
        DistroName::Void => seq![
            "https://ghproxy.com/https://github.com/termux/proot-distro/releases/download/v4.29.0/void-aarch64-pd-v4.29.0.tar.xz"@,
            "https://ghproxy.com/https://github.com/termux/proot-distro/releases/download/v4.29.0/void-arm-pd-v4.29.0.tar.xz"@,
            "https://ghproxy.com/https://github.com/termux/proot-distro/releases/download/v4.29.0/void-x86_64-pd-v4.29.0.tar.xz"@,
            "https://ghproxy.com/https://github.com/termux/proot-distro/releases/download/v4.29.0/void-i686-pd-v4.29.0.tar.xz"@,
        ],
        DistroName::Chimera => seq![
            "https://ghproxy.com/https://github.com/termux/proot-distro/releases/download/v4.29.0/chimera-aarch64-pd-v4.29.0.tar.xz"@,
            "https://ghproxy.com/https://github.com/termux/proot-distro/releases/download/v4.29.0/chimera-x86_64-pd-v4.29.0.tar.xz"@,
            "https://ghproxy.com/https://github.com/termux/proot-distro/releases/download/v4.29.0/chimera-riscv64-pd-v4.29.0.tar.xz"@,
        ],
        DistroName::Fedora => seq![
            "https://ghproxy.com/https://github.com/termux/proot-distro/releases/download/v4.29.0/fedora-aarch64-pd-v4.29.0.tar.xz"@,
            "https://ghproxy.com/https://github.com/termux/proot-distro/releases/download/v4.29.0/fedora-x86_64-pd-v4.29.0.tar.xz"@,
        ],
        DistroName::Rockylinux => seq![
            "https://ghproxy.com/https://github.com/termux/proot-distro/releases/download/v4.29.0/rocky-aarch64-pd-v4.29.0.tar.xz"@,
            "https://ghproxy.com/https://github.com/termux/proot-distro/releases/download/v4.29.0/rocky-x86_64-pd-v4.29.0.tar.xz"@,
        ],
        DistroName::Alpine => seq![
            "https://ghproxy.com/https://github.com/termux/proot-distro/releases/download/v4.30.1/alpine-aarch64-pd-v4.30.1.tar.xz"@,
            "https://ghproxy.com/https://github.com/termux/proot-distro/releases/download/v4.30.1/alpine-arm-pd-v4.30.1.tar.xz"@,
            "https://ghproxy.com/https://github.com/termux/proot-distro/releases/download/v4.30.1/alpine-x86_64-pd-v4.30.1.tar.xz"@,
            "https://ghproxy.com/https://github.com/termux/proot-distro/releases/download/v4.30.1/alpine-i686-pd-v4.30.1.tar.xz"@,
            "https://ghproxy.com/https://github.com/termux/proot-distro/releases/download/v4.30.1/alpine-riscv64-pd-v4.30.1.tar.xz"@,
        ],
        DistroName::Opensuse => seq![
            "https://ghproxy.com/https://github.com/termux/proot-distro/releases/download/v4.29.0/opensuse-aarch64-pd-v4.29.0.tar.xz"@,
            "https://ghproxy.com/https://github.com/termux/proot-distro/releases/download/v4.29.0/opensuse-arm-pd-v4.29.0.tar.xz"@,
            "https://ghproxy.com/https://github.com/termux/proot-distro/releases/download/v4.29.0/opensuse-x86_64-pd-v4.29.0.tar.xz"@,
            "https://ghproxy.com/https://github.com/termux/proot-distro/releases/download/v4.29.0/opensuse-i686-pd-v4.29.0.tar.xz"@,
        ],
    }
}

/// The description of each entry.
pub open spec fn description_of(n: DistroName) -> Seq<char> {
    match n {
        DistroName::Adelie => "A Linux distribution built on the shoulders of giants"@,
        DistroName::Debian => "The universal operating system"@,
        DistroName::Ubuntu => "Ubuntu is a Debian-based Linux operating system"@,
        DistroName::Deepin => "Deepin is a Linux distribution based on Debian"@,
        DistroName::Pardus => "Pardus is a Debian-based Linux distribution"@,
        DistroName::Archlinux => "A simple, lightweight Linux distribution"@,
        DistroName::Manjaro => "Manjaro is a user-friendly Linux distribution based on Arch Linux"@,
        DistroName::Artix => "Artix Linux is a fork of Arch Linux with openrc"@,
        DistroName::Void => "Void is a general purpose operating system, based on the monolithic Linux kernel"@,
        DistroName::Chimera => "Chimera Linux is a modern, general-purpose non-GNU Linux distribution"@,
        DistroName::Fedora => "Fedora creates an innovative, free, and open source platform for hardware, clouds, and containers"@,
        DistroName::Rockylinux => "Rocky Linux is a community enterprise operating system designed to be 100% bug-for-bug compatible with Enterprise Linux"@,
        DistroName::Alpine => "Alpine Linux is a security-oriented, lightweight Linux distribution based on musl libc and busybox"@,
        DistroName::Opensuse => "The makers' choice for sysadmins, developers and desktop users"@,
    }
}

/// The default package list of each entry.
pub open spec fn packages_of(n: DistroName) -> Seq<Seq<char>> {
    match n {
        DistroName::Adelie => seq!["vim"@, "curl"@, "wget"@],
        DistroName::Debian => seq!["build-essential"@, "devscripts"@, "curl"@, "wget"@, "git"@, "vim"@, "htop"@, "tmux"@],
        DistroName::Ubuntu => seq!["build-essential"@, "curl"@, "wget"@, "git"@, "vim"@, "htop"@],
        DistroName::Deepin => seq!["vim"@, "curl"@, "wget"@],
        DistroName::Pardus => seq!["vim"@, "curl"@, "wget"@],
        DistroName::Archlinux => seq!["vim"@, "curl"@, "wget"@],
        DistroName::Manjaro => seq!["vim"@, "curl"@, "wget"@],
        DistroName::Artix => seq!["vim"@, "curl"@, "wget"@],
        DistroName::Void => seq!["vim"@, "curl"@, "wget"@],
        DistroName::Chimera => seq!["vim"@, "curl"@, "wget"@],
        DistroName::Fedora => seq!["@development-tools"@, "curl"@, "wget"@, "git"@, "vim"@, "htop"@, "tmux"@, "dnf-plugins-core"@],
        DistroName::Rockylinux => seq!["vim"@, "curl"@, "wget"@],
        DistroName::Alpine => seq!["vim"@, "curl"@, "wget"@],
        DistroName::Opensuse => seq!["vim"@, "curl"@, "wget"@],
    }
}

/// The entries of the catalog, in order.
pub open spec fn catalog_names() -> Seq<DistroName> {
    seq![
        DistroName::Adelie,
        DistroName::Debian,
        DistroName::Ubuntu,
        DistroName::Deepin,
        DistroName::Pardus,
        DistroName::Archlinux,
        DistroName::Manjaro,
        DistroName::Artix,
        DistroName::Void,
        DistroName::Chimera,
        DistroName::Fedora,
        DistroName::Rockylinux,
        DistroName::Alpine,
        DistroName::Opensuse,
    ]
}

/// A catalog entry as the catalog defines it for its name.
pub open spec fn entry_ok(d: DistroDefinition) -> bool {
    &&& d.arches() == arches_of(d.name)
    &&& url_texts(d.urls@) == urls_of(d.name)
    &&& d.display_name@ == display_of(d.name)
    &&& d.description@ == description_of(d.name)
    &&& string_views(d.default_packages@) == packages_of(d.name)
    &&& d.wf()
}

/// The first name in `names` whose tag is `t`.
pub open spec fn first_with_tag(names: Seq<DistroName>, t: Seq<char>) -> Option<DistroName>
    decreases names.len(),
{
    if names.len() == 0 {
        None
    } else if tag_of(names[0]) == t {
        Some(names[0])
    } else {
        first_with_tag(names.drop_first(), t)
    }
}

/// The entry that a user-supplied name selects, in any letter case.
pub open spec fn distro_named(name: Seq<char>) -> Option<DistroName> {
    first_with_tag(catalog_names(), lower_of(name))
}

/// The names, in order, of the entries of `names` that support `a`.
pub open spec fn names_for_arch(names: Seq<DistroName>, a: Architecture) -> Seq<DistroName>
    decreases names.len(),
{
    if names.len() == 0 {
        Seq::empty()
    } else {
        let p = names_for_arch(names.drop_last(), a);
        if arches_of(names.last()).contains(a) {
            p.push(names.last())
        } else {
            p
        }
    }
}

pub fn get_all_distros() -> (r: Vec<DistroDefinition>)
    ensures
        r@.len() == catalog_names().len(),
        forall|i: int| 0 <= i < r@.len() ==> (#[trigger] r@[i]).name == catalog_names()[i] && entry_ok(r@[i]),
{
    let mut r = adelie::get_definition();
    let mut d = debian::get_definitions();
    r.append(&mut d);
    let mut a = arch::get_definitions();
    r.append(&mut a);
    let mut h = redhat::get_definitions();
    r.append(&mut h);
    let mut o = others::get_definitions();
    r.append(&mut o);
    assert forall|i: int| 0 <= i < r@.len() implies (#[trigger] r@[i]).name == catalog_names()[i] && entry_ok(r@[i]) by {
        if i < 1 {
        } else if i < 5 {
        } else if i < 10 {
        } else if i < 12 {
        } else {
        }
    }
    r
}

/// Looks an entry up by its tag, ignoring letter case; `None` when no entry
/// has that tag.
pub fn get_distro_by_name(name: &str) -> (r: Option<DistroDefinition>)
    ensures
        match r {
            Some(d) => distro_named(name@) == Some(d.name) && entry_ok(d),
            None => distro_named(name@).is_none(),
        },
{
    let lower = lowercase(name);
    let mut all = get_all_distros();
    let ghost names = catalog_names();
    let mut i: usize = 0;
    assert(names.subrange(0, names.len() as int) =~= names);
    while i < all.len()
        invariant
            all@.len() == names.len(),
            i <= all@.len(),
            lower@ == lower_of(name@),
            forall|j: int| 0 <= j < all@.len() ==> (#[trigger] all@[j]).name == names[j] && entry_ok(all@[j]),
            distro_named(name@) == first_with_tag(names.subrange(i as int, names.len() as int), lower@),
        decreases all@.len() - i,
    {
        let ghost rest = names.subrange(i as int, names.len() as int);
        assert(rest.drop_first() =~= names.subrange(i + 1, names.len() as int));
        if str_eq(all[i].name.as_str(), lower.as_str()) {
            let d = all.remove(i);
            return Some(d);
        }
        i = i + 1;
    }
    None
}

/// The entries that have a URL for `arch`, in catalog order.
pub fn get_distros_for_arch(arch: &Architecture) -> (r: Vec<DistroDefinition>)
    ensures
        r@.len() == names_for_arch(catalog_names(), *arch).len(),
        forall|i: int| 0 <= i < r@.len() ==> (#[trigger] r@[i]).name == names_for_arch(catalog_names(), *arch)[i]
            && entry_ok(r@[i]) && r@[i].supports(*arch),
{
    let mut all = get_all_distros();
    let ghost names = catalog_names();
    let ghost orig = all@;
    let mut r: Vec<DistroDefinition> = Vec::new();
    let mut i: usize = 0;
    assert(names.subrange(0, 0) =~= Seq::<DistroName>::empty());
    while all.len() > 0
        invariant
            names == catalog_names(),
            names.len() == 14,
            orig.len() == names.len(),
            forall|j: int| 0 <= j < orig.len() ==> (#[trigger] orig[j]).name == names[j] && entry_ok(orig[j]),
            i <= names.len(),
            all@ == orig.subrange(i as int, orig.len() as int),
            all@.len() == orig.len() - i,
            r@.len() == names_for_arch(names.subrange(0, i as int), *arch).len(),
            forall|k: int| 0 <= k < r@.len() ==> (#[trigger] r@[k]).name == names_for_arch(names.subrange(0, i as int), *arch)[k]
                && entry_ok(r@[k]) && r@[k].supports(*arch),
        decreases all@.len(),
    {
        assert(i < orig.len());
        let d = all.remove(0);
        assert(d == orig[i as int]);
        assert(names.subrange(0, i + 1).drop_last() =~= names.subrange(0, i as int));
        assert(all@ =~= orig.subrange(i + 1, orig.len() as int));
        if d.supports_arch(arch) {
            r.push(d);
        }
        i = i + 1;
    }
    assert(names.subrange(0, i as int) =~= names);
    r
}

/// Two names that lowercase alike select the same entry.
pub proof fn lemma_lookup_ignores_case(a: Seq<char>, b: Seq<char>)
    requires
        lower_of(a) == lower_of(b),
    ensures
        distro_named(a) == distro_named(b),
{
}

proof fn lemma_first_with_tag_none(names: Seq<DistroName>, t: Seq<char>)
    requires
        forall|i: int| 0 <= i < names.len() ==> tag_of(#[trigger] names[i]) != t,
    ensures
        first_with_tag(names, t).is_none(),
    decreases names.len(),
{
    if names.len() > 0 {
        assert(tag_of(names[0]) != t);
        assert forall|i: int| 0 <= i < names.drop_first().len() implies tag_of(#[trigger] names.drop_first()[i]) != t by {
            assert(names.drop_first()[i] == names[i + 1]);
        }
        lemma_first_with_tag_none(names.drop_first(), t);
    }
}

/// A name whose lowercase form is no entry's tag selects nothing.
pub proof fn lemma_unregistered_not_found(name: Seq<char>)
    requires
        forall|n: DistroName| tag_of(n) != lower_of(name),
    ensures
        distro_named(name).is_none(),
{
    lemma_first_with_tag_none(catalog_names(), lower_of(name));
}

/// Every entry is supported on exactly the architectures it has a URL for.
pub proof fn lemma_catalog_urls_match_arches(d: DistroDefinition, a: Architecture)
    requires
        entry_ok(d),
    ensures
        d.supports(a) <==> d.url_of(a).is_some(),
        d.supports(a) <==> arches_of(d.name).contains(a),
{
    crate::distro::definition::lemma_supports_iff_url(&d, a);
}

proof fn lemma_tags_distinct(a: DistroName, b: DistroName)
    requires
        a != b,
    ensures
        tag_of(a) != tag_of(b),
{
    reveal_strlit("adelie");
    reveal_strlit("deepin");
    reveal_strlit("debian");
    reveal_strlit("chimera");
    reveal_strlit("opensuse");
    reveal_strlit("artix");
    reveal_strlit("manjaro");
    reveal_strlit("archlinux");
    reveal_strlit("void");
    reveal_strlit("fedora");
    reveal_strlit("ubuntu");
    reveal_strlit("rockylinux");
    reveal_strlit("alpine");
    reveal_strlit("pardus");
    if tag_of(a).len() == tag_of(b).len() {
        assert(tag_of(a)[0] != tag_of(b)[0] || tag_of(a)[1] != tag_of(b)[1] || tag_of(a)[2] != tag_of(b)[2]);
    }
}

proof fn lemma_first_with_tag_found(names: Seq<DistroName>, n: DistroName)
    requires
        names.contains(n),
    ensures
        first_with_tag(names, tag_of(n)) == Some(n),
    decreases names.len(),
{
    if names[0] == n {
    } else {
        lemma_tags_distinct(names[0], n);
        let i = choose|i: int| 0 <= i < names.len() && names[i] == n;
        assert(names.drop_first()[i - 1] == n);
        lemma_first_with_tag_found(names.drop_first(), n);
    }
}

/// A name whose lowercase form is an entry's tag selects that entry.
pub proof fn lemma_registered_found(name: Seq<char>, n: DistroName)
    requires
        lower_of(name) == tag_of(n),
    ensures
        distro_named(name) == Some(n),
{
    let names = catalog_names();
    let i: int = match n {
        DistroName::Adelie => 0,
        DistroName::Debian => 1,
        DistroName::Ubuntu => 2,
        DistroName::Deepin => 3,
        DistroName::Pardus => 4,
        DistroName::Archlinux => 5,
        DistroName::Manjaro => 6,
        DistroName::Artix => 7,
        DistroName::Void => 8,
        DistroName::Chimera => 9,
        DistroName::Fedora => 10,
        DistroName::Rockylinux => 11,
        DistroName::Alpine => 12,
        DistroName::Opensuse => 13,
    };
    assert(names[i] == n);
    lemma_first_with_tag_found(names, n);
}

proof fn lemma_urls_of_nonempty(n: DistroName, i: int)
    requires
        0 <= i < urls_of(n).len(),
    ensures
        urls_of(n)[i].len() > 0,
{
    match n {
        DistroName::Adelie => {
            reveal_strlit("https://ghproxy.com/https://github.com/termux/proot-distro/releases/download/v4.29.0/adelie-aarch64-pd-v4.29.0.tar.xz");
            reveal_strlit("https://ghproxy.com/https://github.com/termux/proot-distro/releases/download/v4.29.0/adelie-armv7-pd-v4.29.0.tar.xz");
            reveal_strlit("https://ghproxy.com/https://github.com/termux/proot-distro/releases/download/v4.29.0/adelie-x86_64-pd-v4.29.0.tar.xz");
        },
        DistroName::Debian => {
            reveal_strlit("https://ghproxy.com/https://github.com/termux/proot-distro/releases/download/v4.29.0/debian-trixie-aarch64-pd-v4.29.0.tar.xz");
            reveal_strlit("https://ghproxy.com/https://github.com/termux/proot-distro/releases/download/v4.29.0/debian-trixie-arm-pd-v4.29.0.tar.xz");
            reveal_strlit("https://ghproxy.com/https://github.com/termux/proot-distro/releases/download/v4.29.0/debian-trixie-x86_64-pd-v4.29.0.tar.xz");
            reveal_strlit("https://ghproxy.com/https://github.com/termux/proot-distro/releases/download/v4.29.0/debian-trixie-i686-pd-v4.29.0.tar.xz");
        },
        DistroName::Ubuntu => {
            reveal_strlit("https://ghproxy.com/https://github.com/termux/proot-distro/releases/download/v4.30.1/ubuntu-questing-aarch64-pd-v4.30.1.tar.xz");
            reveal_strlit("https://ghproxy.com/https://github.com/termux/proot-distro/releases/download/v4.30.1/ubuntu-questing-arm-pd-v4.30.1.tar.xz");
            reveal_strlit("https://ghproxy.com/https://github.com/termux/proot-distro/releases/download/v4.30.1/ubuntu-questing-x86_64-pd-v4.30.1.tar.xz");
        },
        DistroName::Deepin => {
            reveal_strlit("https://ghproxy.com/https://github.com/termux/proot-distro/releases/download/v4.29.0/deepin-aarch64-pd-v4.29.0.tar.xz");
            reveal_strlit("https://ghproxy.com/https://github.com/termux/proot-distro/releases/download/v4.29.0/deepin-x86_64-pd-v4.29.0.tar.xz");
        },
        DistroName::Pardus => {
            reveal_strlit("https://ghproxy.com/https://github.com/termux/proot-distro/releases/download/v4.29.0/pardus-aarch64-pd-v4.29.0.tar.xz");
            reveal_strlit("https://ghproxy.com/https://github.com/termux/proot-distro/releases/download/v4.29.0/pardus-x86_64-pd-v4.29.0.tar.xz");
            reveal_strlit("https://ghproxy.com/https://github.com/termux/proot-distro/releases/download/v4.29.0/pardus-i686-pd-v4.29.0.tar.xz");
        },
        DistroName::Archlinux => {
            reveal_strlit("https://ghproxy.com/https://github.com/termux/proot-distro/releases/download/v4.29.0/archlinux-aarch64-pd-v4.29.0.tar.xz");
            reveal_strlit("https://ghproxy.com/https://github.com/termux/proot-distro/releases/download/v4.29.0/archlinux-arm-pd-v4.29.0.tar.xz");
            reveal_strlit("https://ghproxy.com/https://github.com/termux/proot-distro/releases/download/v4.29.0/archlinux-x86_64-pd-v4.29.0.tar.xz");
            reveal_strlit("https://ghproxy.com/https://github.com/termux/proot-distro/releases/download/v4.29.0/archlinux-i686-pd-v4.29.0.tar.xz");
        },
        DistroName::Manjaro => {
            reveal_strlit("https://ghproxy.com/https://github.com/termux/proot-distro/releases/download/v4.29.0/manjaro-aarch64-pd-v4.29.0.tar.xz");
        },
        DistroName::Artix => {
            reveal_strlit("https://ghproxy.com/https://github.com/termux/proot-distro/releases/download/v4.29.0/artix-aarch64-pd-v4.29.0.tar.xz");
        },
        DistroName::Void => {
            reveal_strlit("https://ghproxy.com/https://github.com/termux/proot-distro/releases/download/v4.29.0/void-aarch64-pd-v4.29.0.tar.xz");
            reveal_strlit("https://ghproxy.com/https://github.com/termux/proot-distro/releases/download/v4.29.0/void-arm-pd-v4.29.0.tar.xz");
            reveal_strlit("https://ghproxy.com/https://github.com/termux/proot-distro/releases/download/v4.29.0/void-x86_64-pd-v4.29.0.tar.xz");
            reveal_strlit("https://ghproxy.com/https://github.com/termux/proot-distro/releases/download/v4.29.0/void-i686-pd-v4.29.0.tar.xz");
        },
        DistroName::Chimera => {
            reveal_strlit("https://ghproxy.com/https://github.com/termux/proot-distro/releases/download/v4.29.0/chimera-aarch64-pd-v4.29.0.tar.xz");
            reveal_strlit("https://ghproxy.com/https://github.com/termux/proot-distro/releases/download/v4.29.0/chimera-x86_64-pd-v4.29.0.tar.xz");
            reveal_strlit("https://ghproxy.com/https://github.com/termux/proot-distro/releases/download/v4.29.0/chimera-riscv64-pd-v4.29.0.tar.xz");
        },
        DistroName::Fedora => {
            reveal_strlit("https://ghproxy.com/https://github.com/termux/proot-distro/releases/download/v4.29.0/fedora-aarch64-pd-v4.29.0.tar.xz");
            reveal_strlit("https://ghproxy.com/https://github.com/termux/proot-distro/releases/download/v4.29.0/fedora-x86_64-pd-v4.29.0.tar.xz");
        },
        DistroName::Rockylinux => {
            reveal_strlit("https://ghproxy.com/https://github.com/termux/proot-distro/releases/download/v4.29.0/rocky-aarch64-pd-v4.29.0.tar.xz");
            reveal_strlit("https://ghproxy.com/https://github.com/termux/proot-distro/releases/download/v4.29.0/rocky-x86_64-pd-v4.29.0.tar.xz");
        },
        DistroName::Alpine => {
            reveal_strlit("https://ghproxy.com/https://github.com/termux/proot-distro/releases/download/v4.30.1/alpine-aarch64-pd-v4.30.1.tar.xz");
            reveal_strlit("https://ghproxy.com/https://github.com/termux/proot-distro/releases/download/v4.30.1/alpine-arm-pd-v4.30.1.tar.xz");
            reveal_strlit("https://ghproxy.com/https://github.com/termux/proot-distro/releases/download/v4.30.1/alpine-x86_64-pd-v4.30.1.tar.xz");
            reveal_strlit("https://ghproxy.com/https://github.com/termux/proot-distro/releases/download/v4.30.1/alpine-i686-pd-v4.30.1.tar.xz");
            reveal_strlit("https://ghproxy.com/https://github.com/termux/proot-distro/releases/download/v4.30.1/alpine-riscv64-pd-v4.30.1.tar.xz");
        },
        DistroName::Opensuse => {
            reveal_strlit("https://ghproxy.com/https://github.com/termux/proot-distro/releases/download/v4.29.0/opensuse-aarch64-pd-v4.29.0.tar.xz");
            reveal_strlit("https://ghproxy.com/https://github.com/termux/proot-distro/releases/download/v4.29.0/opensuse-arm-pd-v4.29.0.tar.xz");
            reveal_strlit("https://ghproxy.com/https://github.com/termux/proot-distro/releases/download/v4.29.0/opensuse-x86_64-pd-v4.29.0.tar.xz");
            reveal_strlit("https://ghproxy.com/https://github.com/termux/proot-distro/releases/download/v4.29.0/opensuse-i686-pd-v4.29.0.tar.xz");
        },
    }
}

/// A catalog entry's URL for an architecture, when it has one, is never empty.
pub proof fn lemma_catalog_url_nonempty(d: DistroDefinition, a: Architecture)
    requires
        entry_ok(d),
        d.url_of(a) is Some,
    ensures
        d.url_of(a).unwrap().len() > 0,
{
    crate::distro::definition::lemma_url_in_member(d.urls@, a);
    let j = choose|j: int| 0 <= j < d.urls@.len() && #[trigger] url_texts(d.urls@)[j] == d.url_of(a).unwrap();
    lemma_urls_of_nonempty(d.name, j);
}

} // verus!
