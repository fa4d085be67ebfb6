use termos::arch::Architecture;
use termos::distro::catalog::{get_all_distros, get_distro_by_name, get_distros_for_arch};
use termos::distro::name::{DistroName, Family};
use termos::distro::{arch, debian, others, redhat};

const ALL_ARCHES: [Architecture; 5] = [
    Architecture::Aarch64,
    Architecture::Arm,
    Architecture::X86_64,
    Architecture::I686,
    Architecture::Riscv64,
];

#[test]
fn definitions_test_all_distros_count() {
    let distros = get_all_distros();
    assert_eq!(distros.len(), 14);
}

#[test]
fn base_test_all_distros_count() {
    let distros = get_all_distros();
    assert_eq!(distros.len(), 14);
}

#[test]
fn definitions_test_distro_name_as_str() {
    assert_eq!(DistroName::Ubuntu.as_str(), "ubuntu");
    assert_eq!(DistroName::Debian.as_str(), "debian");
    assert_eq!(DistroName::Archlinux.as_str(), "archlinux");
}

#[test]
fn name_test_distro_name_as_str() {
    assert_eq!(DistroName::Ubuntu.as_str(), "ubuntu");
    assert_eq!(DistroName::Debian.as_str(), "debian");
    assert_eq!(DistroName::Archlinux.as_str(), "archlinux");
}

#[test]
fn test_distro_name_to_string() {
    assert_eq!(DistroName::Ubuntu.to_string(), "Ubuntu");
    assert_eq!(DistroName::Opensuse.to_string(), "openSUSE");
    assert_eq!(DistroName::Rockylinux.to_string(), "Rocky Linux");
}

#[test]
fn test_distro_name_display() {
    assert_eq!(format!("{}", DistroName::Alpine.as_str()), "alpine");
    assert_eq!(format!("{}", DistroName::Fedora.as_str()), "fedora");
}

#[test]
fn definitions_test_get_distro_by_name() {
    let distro = get_distro_by_name("ubuntu");
    assert!(distro.is_some());
    assert_eq!(distro.unwrap().name.as_str(), "ubuntu");

    let distro = get_distro_by_name("nonexistent");
    assert!(distro.is_none());
}

#[test]
fn base_test_get_distro_by_name() {
    let distro = get_distro_by_name("ubuntu");
    assert!(distro.is_some());
    assert_eq!(distro.unwrap().name.as_str(), "ubuntu");

    let distro = get_distro_by_name("nonexistent");
    assert!(distro.is_none());
}

#[test]
fn definitions_test_get_distros_for_arch() {
    let aarch64_distros = get_distros_for_arch(&Architecture::Aarch64);
    assert!(aarch64_distros.len() > 0);
    for distro in &aarch64_distros {
        assert!(distro.supports_arch(&Architecture::Aarch64));
    }
}

#[test]
fn base_test_get_distros_for_arch() {
    let aarch64_distros = get_distros_for_arch(&Architecture::Aarch64);
    assert!(aarch64_distros.len() > 0);
    for distro in &aarch64_distros {
        assert!(distro.supports_arch(&Architecture::Aarch64));
    }
}

#[test]
fn test_ubuntu_urls() {
    let ubuntu = get_distro_by_name("ubuntu").unwrap();
    assert!(ubuntu.supports_arch(&Architecture::Aarch64));
    assert!(ubuntu.supports_arch(&Architecture::Arm));
    assert!(ubuntu.supports_arch(&Architecture::X86_64));
    assert!(!ubuntu.supports_arch(&Architecture::I686));
    assert!(!ubuntu.supports_arch(&Architecture::Riscv64));
}

#[test]
fn definitions_test_alpine_all_archs() {
    let alpine = get_distro_by_name("alpine").unwrap();
    assert!(alpine.supports_arch(&Architecture::Aarch64));
    assert!(alpine.supports_arch(&Architecture::Arm));
    assert!(alpine.supports_arch(&Architecture::X86_64));
    assert!(alpine.supports_arch(&Architecture::I686));
    assert!(alpine.supports_arch(&Architecture::Riscv64));
}

#[test]
fn others_test_alpine_all_archs() {
    let definitions = others::get_definitions();
    let alpine = definitions.iter().find(|d| matches!(d.name, DistroName::Alpine));
    assert!(alpine.is_some());
    let alpine_def = alpine.unwrap();
    assert!(alpine_def.supports_arch(&Architecture::Aarch64));
    assert!(alpine_def.supports_arch(&Architecture::Arm));
    assert!(alpine_def.supports_arch(&Architecture::X86_64));
    assert!(alpine_def.supports_arch(&Architecture::I686));
    assert!(alpine_def.supports_arch(&Architecture::Riscv64));
}

#[test]
fn test_opensuse_definitions() {
    let definitions = others::get_definitions();
    let opensuse = definitions.iter().find(|d| matches!(d.name, DistroName::Opensuse));
    assert!(opensuse.is_some());
    let opensuse_def = opensuse.unwrap();
    assert!(opensuse_def.supports_arch(&Architecture::Aarch64));
    assert!(opensuse_def.supports_arch(&Architecture::Arm));
    assert!(opensuse_def.supports_arch(&Architecture::X86_64));
    assert!(opensuse_def.supports_arch(&Architecture::I686));
    assert!(!opensuse_def.supports_arch(&Architecture::Riscv64));
}

#[test]
fn test_arch_definitions() {
    let definitions = arch::get_definitions();
    assert!(definitions.len() >= 5);
    let archlinux = definitions.iter().find(|d| matches!(d.name, DistroName::Archlinux));
    assert!(archlinux.is_some());
    let arch_def = archlinux.unwrap();
    assert!(arch_def.supports_arch(&Architecture::Aarch64));
    assert!(arch_def.supports_arch(&Architecture::Arm));
    assert!(arch_def.supports_arch(&Architecture::X86_64));
    assert!(arch_def.supports_arch(&Architecture::I686));
    assert!(!arch_def.supports_arch(&Architecture::Riscv64));
}

#[test]
fn test_debian_definitions() {
    let definitions = debian::get_definitions();
    assert!(definitions.len() >= 4);
    let debian = definitions.iter().find(|d| matches!(d.name, DistroName::Debian));
    assert!(debian.is_some());
    let debian_def = debian.unwrap();
    assert!(debian_def.supports_arch(&Architecture::Aarch64));
    assert!(debian_def.supports_arch(&Architecture::Arm));
    assert!(debian_def.supports_arch(&Architecture::X86_64));
    assert!(debian_def.supports_arch(&Architecture::I686));
    assert!(!debian_def.supports_arch(&Architecture::Riscv64));
}

#[test]
fn test_ubuntu_definitions() {
    let definitions = debian::get_definitions();
    let ubuntu = definitions.iter().find(|d| matches!(d.name, DistroName::Ubuntu));
    assert!(ubuntu.is_some());
    let ubuntu_def = ubuntu.unwrap();
    assert!(ubuntu_def.supports_arch(&Architecture::Aarch64));
    assert!(ubuntu_def.supports_arch(&Architecture::Arm));
    assert!(ubuntu_def.supports_arch(&Architecture::X86_64));
    assert!(!ubuntu_def.supports_arch(&Architecture::I686));
    assert!(!ubuntu_def.supports_arch(&Architecture::Riscv64));
}

#[test]
fn test_fedora_definitions() {
    let definitions = redhat::get_definitions();
    assert_eq!(definitions.len(), 2);
    let fedora = definitions.iter().find(|d| matches!(d.name, DistroName::Fedora));
    assert!(fedora.is_some());
    let fedora_def = fedora.unwrap();
    assert!(fedora_def.supports_arch(&Architecture::Aarch64));
    assert!(fedora_def.supports_arch(&Architecture::X86_64));
    assert!(!fedora_def.supports_arch(&Architecture::Arm));
    assert!(!fedora_def.supports_arch(&Architecture::I686));
    assert!(!fedora_def.supports_arch(&Architecture::Riscv64));
}

#[test]
fn test_rocky_definitions() {
    let definitions = redhat::get_definitions();
    let rocky = definitions.iter().find(|d| matches!(d.name, DistroName::Rockylinux));
    assert!(rocky.is_some());
    let rocky_def = rocky.unwrap();
    assert!(rocky_def.supports_arch(&Architecture::Aarch64));
    assert!(rocky_def.supports_arch(&Architecture::X86_64));
    assert!(!rocky_def.supports_arch(&Architecture::Arm));
    assert!(!rocky_def.supports_arch(&Architecture::I686));
    assert!(!rocky_def.supports_arch(&Architecture::Riscv64));
}

#[test]
fn every_entry_supports_exactly_the_arches_it_has_urls_for() {
    for d in get_all_distros() {
        for a in ALL_ARCHES.iter() {
            assert_eq!(d.supports_arch(a), d.get_url(a).is_some());
        }
    }
}

#[test]
fn catalog_urls_name_the_distro_and_arch() {
    let ubuntu = get_distro_by_name("ubuntu").unwrap();
    assert_eq!(
        ubuntu.get_url(&Architecture::X86_64).unwrap(),
        "https://ghproxy.com/https://github.com/termux/proot-distro/releases/download/v4.30.1/ubuntu-questing-x86_64-pd-v4.30.1.tar.xz"
    );
    assert!(ubuntu.get_url(&Architecture::I686).is_none());
    let adelie = get_distro_by_name("adelie").unwrap();
    assert!(adelie.get_url(&Architecture::Arm).unwrap().contains("adelie-armv7"));
}

#[test]
fn lookup_ignores_letter_case() {
    let a = get_distro_by_name("Ubuntu").unwrap();
    let b = get_distro_by_name("ubuntu").unwrap();
    assert_eq!(a.name, b.name);
    assert_eq!(get_distro_by_name("ROCKYLINUX").unwrap().name, DistroName::Rockylinux);
    assert!(get_distro_by_name("kali").is_none());
    assert!(get_distro_by_name("").is_none());
}

#[test]
fn catalog_order_and_display_names() {
    let names: Vec<&str> = get_all_distros().iter().map(|d| d.name.as_str()).collect();
    assert_eq!(
        names,
        vec![
            "adelie", "debian", "ubuntu", "deepin", "pardus", "archlinux", "manjaro", "artix",
            "void", "chimera", "fedora", "rockylinux", "alpine", "opensuse"
        ]
    );
    let arch = get_distro_by_name("archlinux").unwrap();
    assert_eq!(arch.display_name, "Arch Linux");
    assert_eq!(arch.default_packages, vec!["vim", "curl", "wget"]);
}

#[test]
fn riscv64_entries_are_chimera_and_alpine() {
    let names: Vec<DistroName> = get_distros_for_arch(&Architecture::Riscv64).iter().map(|d| d.name).collect();
    assert_eq!(names, vec![DistroName::Chimera, DistroName::Alpine]);
}

#[test]
fn families_follow_package_managers() {
    assert_eq!(DistroName::Ubuntu.family(), Family::Apt);
    assert_eq!(DistroName::Pardus.family(), Family::Apt);
    assert_eq!(DistroName::Fedora.family(), Family::RpmWithRepos);
    assert_eq!(DistroName::Rockylinux.family(), Family::Rpm);
    assert_eq!(DistroName::Alpine.family(), Family::Plain);
}

#[test]
fn catalog_entries_carry_their_descriptions_and_packages() {
    let fedora = get_distro_by_name("Fedora").unwrap();
    assert_eq!(fedora.description, "Fedora creates an innovative, free, and open source platform for hardware, clouds, and containers");
    assert_eq!(fedora.default_packages.len(), 8);
    assert_eq!(fedora.default_packages[0], "@development-tools");
    for d in get_all_distros() {
        for a in ALL_ARCHES.iter() {
            if let Some(u) = d.get_url(a) {
                assert!(!u.is_empty());
            }
        }
    }
}
