use termos::arch::Architecture;
use termos::distro::catalog::get_distro_by_name;
use termos::distro::meta::{PlatformInfo, SystemMeta};
use termos::distro::name::Family;
use termos::error::InstallError;
use termos::installer::{
    customization_steps, extract_command, generate_start_script, next_stage, pick_first_existing,
    plan_install, resolve_source, InstallAction, sources_list_candidates, verify_extraction, DistroType, FsStep,
    InstallStage, LinuxDistro, SourcePlan,
};

#[test]
fn debian_install_plan_without_custom_link() {
    let distro = LinuxDistro::new(DistroType::Debian);
    let config = distro.get_config();
    let plan = resolve_source(None, &config);
    assert_eq!(
        plan,
        SourcePlan::CatalogClone {
            repo_url: "https://gitee.com/sqlsec/termux-debian".to_string(),
            checkout_dir: "termux-debian".to_string(),
            archive: "termux-debian/debian-rootfs-arm64.tar.xz".to_string(),
        }
    );
    assert_eq!(plan.cleanup_path(), "termux-debian");
    assert_eq!(verify_extraction(true), Ok(()));
    let id = distro.generate_instance_id(&vec!["debian1".to_string()]);
    assert_eq!(id, "debian2");
    let p = PlatformInfo { now_secs: Some(0), user: Some("me".to_string()), is_root: false };
    let meta = distro.build_meta(distro.system_name(&id), "https://mirrors.163.com/debian/".to_string(), &p);
    assert_eq!(meta.os_type, "debian");
    assert_eq!(meta.name, "debian2");
    assert!(meta.to_string().contains("os_type = debian\n"));
    let candidates = sources_list_candidates(DistroType::Debian.tag());
    assert_eq!(candidates, vec!["debian/sources.list", "/root/TermuxForLinux/debian/sources.list"]);
    let first = pick_first_existing(&vec![false, true]).unwrap();
    let steps = customization_steps(distro.distro_type.family(), "inst/filesys", Some(candidates[first].clone()), None);
    assert_eq!(
        steps,
        vec![
            FsStep::RemoveFile("inst/filesys/etc/apt/sources.list".to_string()),
            FsStep::CopyFile {
                from: "/root/TermuxForLinux/debian/sources.list".to_string(),
                to: "inst/filesys/etc/apt/sources.list".to_string(),
            },
        ]
    );
    let script = generate_start_script(None);
    assert!(script.starts_with("#!/data/data/com.termux/files/usr/bin/bash\n"));
    assert!(script.contains("command+=\" /bin/bash --login\"\n"));
}

#[test]
fn custom_link_replaces_catalog_source() {
    let config = LinuxDistro::new(DistroType::Ubuntu).get_config();
    let plan = resolve_source(Some("https://x/u.tar.xz".to_string()), &config);
    assert_eq!(plan.archive_path(), "ubuntu-rootfs-arm64.tar.xz");
    assert_eq!(plan.cleanup_path(), "ubuntu-rootfs-arm64.tar.xz");
    assert!(matches!(plan, SourcePlan::CustomLink { ref url, .. } if url == "https://x/u.tar.xz"));
}

#[test]
fn missing_template_writes_empty_source_list() {
    assert_eq!(pick_first_existing(&vec![false, false]), None);
    let steps = customization_steps(Family::Apt, "f", None, None);
    assert_eq!(steps[1], FsStep::WriteFile { path: "f/etc/apt/sources.list".to_string(), contents: String::new() });
}

#[test]
fn rpm_families_rewrite_hosts_and_resolver() {
    let centos = customization_steps(DistroType::CentOS.family(), "f", None, None);
    assert_eq!(centos.len(), 3);
    assert_eq!(centos[0], FsStep::CreateDir("f/tmp".to_string()));
    let fedora = customization_steps(DistroType::Fedora.family(), "f", None, Some("fedora".to_string()));
    assert_eq!(fedora.len(), 4);
    assert_eq!(fedora[2], FsStep::ClearDir("f/etc/yum.repos.d".to_string()));
    assert_eq!(
        fedora[3],
        FsStep::CopyMatching { from: "fedora".to_string(), to: "f/etc/yum.repos.d".to_string(), suffix: ".repo".to_string() }
    );
    assert!(customization_steps(Family::Plain, "f", None, None).is_empty());
}

#[test]
fn stages_only_move_forward() {
    let mut s = InstallStage::ResolveArchitecture;
    let mut seen = 0;
    while s != InstallStage::Done {
        s = next_stage(s, true);
        seen += 1;
    }
    assert_eq!(seen, 10);
    assert_eq!(next_stage(InstallStage::Download, false), InstallStage::Failed);
    assert_eq!(next_stage(InstallStage::Failed, true), InstallStage::Failed);
}

#[test]
fn missing_binaries_directory_is_a_corrupt_archive() {
    assert_eq!(verify_extraction(false), Err(InstallError::CorruptArchive));
}

#[test]
fn preset_instance_and_custom_name() {
    let d = LinuxDistro::new_with_instance(DistroType::Kali, "k9".to_string(), Some("lab".to_string()));
    assert_eq!(d.generate_instance_id(&vec!["kali3".to_string()]), "k9");
    assert_eq!(d.system_name("k9"), "lab");
    let n = LinuxDistro::with_name(DistroType::Fedora, "mine".to_string());
    assert_eq!(n.generate_instance_id(&vec![]), "fedora1");
}

#[test]
fn extract_command_text() {
    assert_eq!(
        extract_command("a.tar.xz", "fs", true),
        "proot --link2symlink tar -xJf a.tar.xz -C fs --exclude=dev ||:"
    );
    assert_eq!(extract_command("a.tar.xz", "fs", false), "proot --link2symlink tar -xJf a.tar.xz -C fs ||:");
}

#[test]
fn launcher_uses_configured_shell() {
    let script = generate_start_script(Some("/bin/zsh --login"));
    assert!(script.contains("command+=\" /bin/zsh --login\"\n"));
    assert!(!script.contains("/bin/bash --login"));
    assert!(script.contains("unset LD_PRELOAD"));
    assert!(script.ends_with("fi\n"));
}

#[test]
fn debian_catalog_install_runs_every_stage_in_order() {

    let def = get_distro_by_name("debian").unwrap();
    let p = PlatformInfo { now_secs: Some(0), user: Some("me".to_string()), is_root: false };
    let mut meta = SystemMeta::new("debian1".to_string(), def.name.as_str().to_string(), &p);
    meta.mirror_url = Some("https://mirrors.163.com/debian/".to_string());
    let steps = customization_steps(def.name.family(), "/t/debian1/filesys", Some("debian/sources.list".to_string()), None);
    let mut job = plan_install(&def, Architecture::Aarch64, None, "/t/debian1", &meta, None, steps).unwrap();
    let mut seen: Vec<InstallAction> = Vec::new();
    while !job.is_finished() {
        seen.extend(job.actions());
        job.advance(true);
    }
    assert_eq!(job.stage, InstallStage::Done);
    assert_eq!(seen.len(), 8);
    assert_eq!(
        seen[0],
        InstallAction::Download {
            url: def.get_url(&Architecture::Aarch64).unwrap().clone(),
            dest: "/t/debian1/rootfs.tar.xz".to_string(),
        }
    );
    assert_eq!(
        seen[1],
        InstallAction::Extract { archive: "/t/debian1/rootfs.tar.xz".to_string(), dest: "/t/debian1/filesys".to_string() }
    );
    assert_eq!(seen[2], InstallAction::RemovePath("/t/debian1/rootfs.tar.xz".to_string()));
    assert_eq!(seen[3], InstallAction::RequirePath("/t/debian1/filesys/bin".to_string()));
    match &seen[4] {
        InstallAction::WriteFile { path, contents } => {
            assert_eq!(path, "/t/debian1/meta.txt");
            assert!(contents.contains("os_type = debian\n"));
        }
        other => panic!("unexpected {:?}", other),
    }
    assert_eq!(seen[5], InstallAction::Customize);
    assert_eq!(
        job.customization[1],
        FsStep::CopyFile { from: "debian/sources.list".to_string(), to: "/t/debian1/filesys/etc/apt/sources.list".to_string() }
    );
    assert!(matches!(&seen[6], InstallAction::WriteFile { path, .. } if path == "/t/debian1/start.sh"));
    assert_eq!(seen[7], InstallAction::MakeExecutable("/t/debian1/start.sh".to_string()));
}

#[test]
fn failed_download_ends_the_install() {

    let def = get_distro_by_name("fedora").unwrap();
    let p = PlatformInfo { now_secs: None, user: None, is_root: true };
    let meta = SystemMeta::new("f1".to_string(), "fedora".to_string(), &p);
    assert_eq!(
        plan_install(&def, Architecture::Arm, None, "/t/f1", &meta, None, vec![]).err(),
        Some(InstallError::UnsupportedArchitecture("arm".to_string()))
    );
    let mut job = plan_install(&def, Architecture::Arm, Some("https://x/f.tar.xz".to_string()), "/t/f1", &meta, None, vec![]).unwrap();
    assert_eq!(job.failure(), InstallError::DownloadFailed("https://x/f.tar.xz".to_string()));
    job.advance(false);
    assert_eq!(job.stage, InstallStage::Failed);
    assert!(job.is_finished());
    assert!(job.actions().is_empty());
}
