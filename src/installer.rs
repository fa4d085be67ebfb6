//! The install pipeline's decisions: which source to fetch, where the
//! archive lies and what to delete afterwards, how to customise the tree for
//! its distro family, the launcher script, and the order of the stages.

use vstd::prelude::*;
use crate::arch::Architecture;
use crate::distro::definition::DistroDefinition;
use crate::distro::meta::{meta_text, permissions_default, created_default, user_default, PlatformInfo, SystemMeta};
use crate::distro::name::Family;
use crate::error::InstallError;
use crate::instance::{generate_instance_id, join_path, join_path_exec, max_suffix, names_view};
use crate::text::{concat, decimal_of};

verus! {

/// The distros that the archive-or-clone install path knows.
#[derive(Debug, Clone, Copy, PartialEq, Eq, Structural)]
pub enum DistroType {
    Ubuntu,
    Kali,
    Debian,
    CentOS,
    Fedora,
}

pub open spec fn type_tag(t: DistroType) -> Seq<char> {
    match t {
        DistroType::Ubuntu => "ubuntu"@,
        DistroType::Kali => "kali"@,
        DistroType::Debian => "debian"@,
        DistroType::CentOS => "centos"@,
        DistroType::Fedora => "fedora"@,
    }
}

pub open spec fn type_family(t: DistroType) -> Family {
    match t {
        DistroType::Ubuntu | DistroType::Kali | DistroType::Debian => Family::Apt,
        DistroType::CentOS => Family::Rpm,
        DistroType::Fedora => Family::RpmWithRepos,
    }
}

impl DistroType {
    /// The lowercase name, which instance IDs and metadata use.
    pub fn tag(&self) -> (r: &'static str)
        ensures
            r@ == type_tag(*self),
    {
        match self {
            DistroType::Ubuntu => "ubuntu",
            DistroType::Kali => "kali",
            DistroType::Debian => "debian",
            DistroType::CentOS => "centos",
            DistroType::Fedora => "fedora",
        }
    }

    /// The human-readable name.
    pub fn to_string(&self) -> (r: String)
        ensures
            r@ == match self {
                DistroType::Ubuntu => "Ubuntu"@,
                DistroType::Kali => "Kali"@,
                DistroType::Debian => "Debian"@,
                DistroType::CentOS => "CentOS"@,
                DistroType::Fedora => "Fedora"@,
            },
            r@.len() > 0,
    {
        let s = match self {
            DistroType::Ubuntu => "Ubuntu",
            DistroType::Kali => "Kali",
            DistroType::Debian => "Debian",
            DistroType::CentOS => "CentOS",
            DistroType::Fedora => "Fedora",
        };
        proof {
            reveal_strlit("Ubuntu");
            reveal_strlit("Kali");
            reveal_strlit("Debian");
            reveal_strlit("CentOS");
            reveal_strlit("Fedora");
        }
        String::from_str(s)
    }

    pub fn family(&self) -> (r: Family)
        ensures
            r == type_family(*self),
    {
        match self {
            DistroType::Ubuntu | DistroType::Kali | DistroType::Debian => Family::Apt,
            DistroType::CentOS => Family::Rpm,
            DistroType::Fedora => Family::RpmWithRepos,
        }
    }
}

/// Where a distro's rootfs comes from and how it is unpacked.
pub struct DistroConfig {
    pub os_name: String,
    /// The archive's file name.
    pub tarball: String,
    /// The directory that cloning the catalog repository creates.
    pub image_dir: String,
    pub repo_url: String,
    pub screenfetch_name: String,
    /// Whether `dev` is left out of the extraction.
    pub exclude_dev: bool,
    /// Whether removal must first grant permissions on the tree.
    pub needs_chmod: bool,
    pub default_mirror: String,
}

fn distro_config(
    os_name: &str,
    tarball: &str,
    image_dir: &str,
    repo_url: &str,
    screenfetch_name: &str,
    exclude_dev: bool,
    needs_chmod: bool,
    default_mirror: &str,
) -> (r: DistroConfig)
    ensures
        r.os_name@ == os_name@,
        r.tarball@ == tarball@,
        r.image_dir@ == image_dir@,
        r.repo_url@ == repo_url@,
        r.screenfetch_name@ == screenfetch_name@,
        r.exclude_dev == exclude_dev,
        r.needs_chmod == needs_chmod,
        r.default_mirror@ == default_mirror@,
{
    DistroConfig {
        os_name: String::from_str(os_name),
        tarball: String::from_str(tarball),
        image_dir: String::from_str(image_dir),
        repo_url: String::from_str(repo_url),
        screenfetch_name: String::from_str(screenfetch_name),
        exclude_dev,
        needs_chmod,
        default_mirror: String::from_str(default_mirror),
    }
}

/// The archive file name of each distro.
pub open spec fn tarball_of(t: DistroType) -> Seq<char> {
    match t {
        DistroType::Ubuntu => "ubuntu-rootfs-arm64.tar.xz"@,
        DistroType::Kali => "kali-rootfs-arm64.tar.xz"@,
        DistroType::Debian => "debian-rootfs-arm64.tar.xz"@,
        DistroType::CentOS => "centos-rootfs-arm64.tar.xz"@,
        DistroType::Fedora => "fedora-rootfs-arm64.tar.xz"@,
    }
}

/// The clone directory of each distro.
pub open spec fn image_dir_of(t: DistroType) -> Seq<char> {
    match t {
        DistroType::Ubuntu => "termux-ubuntu"@,
        DistroType::Kali => "termux-kali"@,
        DistroType::Debian => "termux-debian"@,
        DistroType::CentOS => "termux-centos"@,
        DistroType::Fedora => "termux-fedora"@,
    }
}

/// The display name of each distro's configuration.
pub open spec fn os_name_of(t: DistroType) -> Seq<char> {
    match t {
        DistroType::Ubuntu => "Ubuntu"@,
        DistroType::Kali => "Kali"@,
        DistroType::Debian => "Debian"@,
        DistroType::CentOS => "CentOS"@,
        DistroType::Fedora => "Fedora"@,
    }
}

/// The name shown in the system-information banner of each distro.
pub open spec fn screenfetch_name_of(t: DistroType) -> Seq<char> {
    match t {
        DistroType::Ubuntu => "Ubuntu"@,
        DistroType::Kali => "Kali Linux"@,
        DistroType::Debian => "Debian"@,
        DistroType::CentOS => "CentOS"@,
        DistroType::Fedora => "Fedora"@,
    }
}

/// The catalog repository of each distro.
pub open spec fn repo_url_of(t: DistroType) -> Seq<char> {
    match t {
        DistroType::Ubuntu => "https://gitee.com/sqlsec/termux-ubuntu.git"@,
        DistroType::Kali => "https://gitee.com/sqlsec/termux-kali"@,
        DistroType::Debian => "https://gitee.com/sqlsec/termux-debian"@,
        DistroType::CentOS => "https://gitee.com/sqlsec/termux-centos"@,
        DistroType::Fedora => "https://gitee.com/sqlsec/termux-fedora"@,
    }
}

/// The built-in mirror of each distro.
pub open spec fn mirror_of(t: DistroType) -> Seq<char> {
    match t {
        DistroType::Ubuntu => "https://mirrors.ustc.edu.cn/ubuntu/"@,
        DistroType::Kali => "http://http.kali.org/kali/"@,
        DistroType::Debian => "https://mirrors.163.com/debian/"@,
        DistroType::CentOS => "https://mirrors.aliyun.com/centos/"@,
        DistroType::Fedora => "https://mirrors.tuna.tsinghua.edu.cn/fedora/"@,
    }
}

/// One distro to install, optionally under a preset ID or a custom name.
pub struct LinuxDistro {
    pub distro_type: DistroType,
    pub instance_id: Option<String>,
    pub custom_name: Option<String>,
}

impl LinuxDistro {
    pub fn new(distro_type: DistroType) -> (r: LinuxDistro)
        ensures
            r.distro_type == distro_type,
            r.instance_id.is_none(),
            r.custom_name.is_none(),
    {
        LinuxDistro { distro_type, instance_id: None, custom_name: None }
    }

    pub fn with_name(distro_type: DistroType, custom_name: String) -> (r: LinuxDistro)
        ensures
            r.distro_type == distro_type,
            r.instance_id.is_none(),
            r.custom_name matches Some(n) && n@ == custom_name@,
    {
        LinuxDistro { distro_type, instance_id: None, custom_name: Some(custom_name) }
    }

    pub fn new_with_instance(distro_type: DistroType, instance_id: String, custom_name: Option<String>) -> (r: LinuxDistro)
        ensures
            r.distro_type == distro_type,
            r.instance_id matches Some(i) && i@ == instance_id@,
            r.custom_name == custom_name,
    {
        LinuxDistro { distro_type, instance_id: Some(instance_id), custom_name }
    }

    /// The source and unpacking settings of this distro.
    pub fn get_config(&self) -> (r: DistroConfig)
        ensures
            r.tarball@ == tarball_of(self.distro_type),
            r.image_dir@ == image_dir_of(self.distro_type),
            r.os_name@ == os_name_of(self.distro_type),
            r.screenfetch_name@ == screenfetch_name_of(self.distro_type),
            r.repo_url@ == repo_url_of(self.distro_type),
            r.default_mirror@ == mirror_of(self.distro_type),
            r.exclude_dev == (self.distro_type == DistroType::Ubuntu || self.distro_type == DistroType::CentOS),
            r.needs_chmod == (self.distro_type == DistroType::CentOS || self.distro_type == DistroType::Fedora),
    {
        match self.distro_type {
            DistroType::Ubuntu => distro_config(
                "Ubuntu",
                "ubuntu-rootfs-arm64.tar.xz",
                "termux-ubuntu",
                "https://gitee.com/sqlsec/termux-ubuntu.git",
                "Ubuntu",
                true,
                false,
                "https://mirrors.ustc.edu.cn/ubuntu/",
            ),
            DistroType::Kali => distro_config(
                "Kali",
                "kali-rootfs-arm64.tar.xz",
                "termux-kali",
                "https://gitee.com/sqlsec/termux-kali",
                "Kali Linux",
                false,
                false,
                "http://http.kali.org/kali/",
            ),
            DistroType::Debian => distro_config(
                "Debian",
                "debian-rootfs-arm64.tar.xz",
                "termux-debian",
                "https://gitee.com/sqlsec/termux-debian",
                "Debian",
                false,
                false,
                "https://mirrors.163.com/debian/",
            ),
            DistroType::CentOS => distro_config(
                "CentOS",
                "centos-rootfs-arm64.tar.xz",
                "termux-centos",
                "https://gitee.com/sqlsec/termux-centos",
                "CentOS",
                true,
                true,
                "https://mirrors.aliyun.com/centos/",
            ),
            DistroType::Fedora => distro_config(
                "Fedora",
                "fedora-rootfs-arm64.tar.xz",
                "termux-fedora",
                "https://gitee.com/sqlsec/termux-fedora",
                "Fedora",
                false,
                true,
                "https://mirrors.tuna.tsinghua.edu.cn/fedora/",
            ),
        }
    }

    /// The instance ID to install under: the preset one, else a fresh one
    /// after the IDs in `existing`.
    pub fn generate_instance_id(&self, existing: &Vec<String>) -> (r: String)
        ensures
            match self.instance_id {
                Some(id) => r@ == id@,
                None => r@ == type_tag(self.distro_type) + decimal_of(
                    (max_suffix(names_view(existing@), type_tag(self.distro_type)) + 1) as nat,
                ),
            },
    {
        match &self.instance_id {
            Some(id) => id.clone(),
            None => generate_instance_id(self.distro_type.tag(), existing),
        }
    }

    /// The name shown for the instance: the custom name, else its ID.
    pub fn system_name(&self, instance_id: &str) -> (r: String)
        ensures
            match self.custom_name {
                Some(n) => r@ == n@,
                None => r@ == instance_id@,
            },
    {
        match &self.custom_name {
            Some(n) => n.clone(),
            None => String::from_str(instance_id),
        }
    }

    /// The metadata written for a fresh install of this distro.
    pub fn build_meta(&self, system_name: String, mirror_url: String, platform: &PlatformInfo) -> (r: SystemMeta)
        ensures
            r.name@ == system_name@,
            r.os_type@ == type_tag(self.distro_type),
            r.created_at@ == created_default(*platform),
            r.user_group@ == user_default(*platform),
            r.permissions@ == permissions_default(*platform),
            r.mirror_url matches Some(m) && m@ == mirror_url@,
    {
        let mut meta = SystemMeta::new(system_name, String::from_str(self.distro_type.tag()), platform);
        meta.mirror_url = Some(mirror_url);
        meta
    }
}

/// Where the rootfs comes from.
#[derive(Debug, Clone, PartialEq, Eq)]
pub enum SourcePlan {
    /// Fetch `url` into the file `archive`.
    CustomLink { url: String, archive: String },
    /// Clone `repo_url` into `checkout_dir`, which holds the archive.
    CatalogClone { repo_url: String, checkout_dir: String, archive: String },
}

/// The configured custom link, when there is one, replaces the catalog source.
pub fn resolve_source(custom_link: Option<String>, config: &DistroConfig) -> (r: SourcePlan)
    ensures
        match custom_link {
            Some(l) => r matches SourcePlan::CustomLink { url, archive } && url@ == l@
                && archive@ == config.tarball@,
            None => r matches SourcePlan::CatalogClone { repo_url, checkout_dir, archive }
                && repo_url@ == config.repo_url@ && checkout_dir@ == config.image_dir@
                && archive@ == join_path(config.image_dir@, config.tarball@),
        },
{
    match custom_link {
        Some(l) => SourcePlan::CustomLink { url: l, archive: config.tarball.clone() },
        None => SourcePlan::CatalogClone {
            repo_url: config.repo_url.clone(),
            checkout_dir: config.image_dir.clone(),
            archive: join_path_exec(config.image_dir.as_str(), config.tarball.as_str()),
        },
    }
}

impl SourcePlan {
    /// The archive to extract.
    pub fn archive_path(&self) -> (r: String)
        ensures
            match self {
                SourcePlan::CustomLink { archive, .. } => r@ == archive@,
                SourcePlan::CatalogClone { archive, .. } => r@ == archive@,
            },
    {
        match self {
            SourcePlan::CustomLink { archive, .. } => archive.clone(),
            SourcePlan::CatalogClone { archive, .. } => archive.clone(),
        }
    }

    /// What is deleted once extraction succeeded: the fetched archive, or
    /// the whole cloned tree.
    pub fn cleanup_path(&self) -> (r: String)
        ensures
            match self {
                SourcePlan::CustomLink { archive, .. } => r@ == archive@,
                SourcePlan::CatalogClone { checkout_dir, .. } => r@ == checkout_dir@,
            },
    {
        match self {
            SourcePlan::CustomLink { archive, .. } => archive.clone(),
            SourcePlan::CatalogClone { checkout_dir, .. } => checkout_dir.clone(),
        }
    }
}

/// The command that unpacks `archive` into `dest`, leaving out `dev` when asked.
pub fn extract_command(archive: &str, dest: &str, exclude_dev: bool) -> (r: String)
    ensures
        r@ == "proot --link2symlink tar -xJf "@ + archive@ + " -C "@ + dest@ + (if exclude_dev {
            " --exclude=dev ||:"@
        } else {
            " ||:"@
        }),
{
    let a = concat("proot --link2symlink tar -xJf ", archive);
    let b = concat(a.as_str(), " -C ");
    let c = concat(b.as_str(), dest);
    if exclude_dev {
        concat(c.as_str(), " --exclude=dev ||:")
    } else {
        concat(c.as_str(), " ||:")
    }
}

/// The stages of an install, in the only order they run.
#[derive(Debug, Clone, Copy, PartialEq, Eq, Structural)]
pub enum InstallStage {
    ResolveArchitecture,
    SelectDistro,
    AllocateInstance,
    ResolveSource,
    Download,
    Extract,
    VerifyExtraction,
    WriteMetadata,
    ApplyCustomization,
    GenerateLauncher,
    Done,
    Failed,
}

/// The position of a stage in the pipeline; `Failed` stands apart.
pub open spec fn stage_index(s: InstallStage) -> int {
    match s {
        InstallStage::ResolveArchitecture => 0,
        InstallStage::SelectDistro => 1,
        InstallStage::AllocateInstance => 2,
        InstallStage::ResolveSource => 3,
        InstallStage::Download => 4,
        InstallStage::Extract => 5,
        InstallStage::VerifyExtraction => 6,
        InstallStage::WriteMetadata => 7,
        InstallStage::ApplyCustomization => 8,
        InstallStage::GenerateLauncher => 9,
        InstallStage::Done => 10,
        InstallStage::Failed => -1,
    }
}

/// The stage that follows a successful one.
pub open spec fn successor(s: InstallStage) -> InstallStage {
    match s {
        InstallStage::ResolveArchitecture => InstallStage::SelectDistro,
        InstallStage::SelectDistro => InstallStage::AllocateInstance,
        InstallStage::AllocateInstance => InstallStage::ResolveSource,
        InstallStage::ResolveSource => InstallStage::Download,
        InstallStage::Download => InstallStage::Extract,
        InstallStage::Extract => InstallStage::VerifyExtraction,
        InstallStage::VerifyExtraction => InstallStage::WriteMetadata,
        InstallStage::WriteMetadata => InstallStage::ApplyCustomization,
        InstallStage::ApplyCustomization => InstallStage::GenerateLauncher,
        InstallStage::GenerateLauncher => InstallStage::Done,
        InstallStage::Done => InstallStage::Done,
        InstallStage::Failed => InstallStage::Failed,
    }
}

/// The stage after `stage` once it has succeeded or failed: the next one in
/// order, or `Failed`, which like `Done` is final.
pub fn next_stage(stage: InstallStage, succeeded: bool) -> (r: InstallStage)
    ensures
        r == if stage == InstallStage::Done || stage == InstallStage::Failed {
            stage
        } else if succeeded {
            successor(stage)
        } else {
            InstallStage::Failed
        },
{
    match stage {
        InstallStage::Done => InstallStage::Done,
        InstallStage::Failed => InstallStage::Failed,
        _ => if !succeeded {
            InstallStage::Failed
        } else {
            match stage {
                InstallStage::ResolveArchitecture => InstallStage::SelectDistro,
                InstallStage::SelectDistro => InstallStage::AllocateInstance,
                InstallStage::AllocateInstance => InstallStage::ResolveSource,
                InstallStage::ResolveSource => InstallStage::Download,
                InstallStage::Download => InstallStage::Extract,
                InstallStage::Extract => InstallStage::VerifyExtraction,
                InstallStage::VerifyExtraction => InstallStage::WriteMetadata,
                InstallStage::WriteMetadata => InstallStage::ApplyCustomization,
                InstallStage::ApplyCustomization => InstallStage::GenerateLauncher,
                _ => InstallStage::Done,
            }
        },
    }
}

/// The pipeline is strictly linear: a successful stage leads to the one
/// whose position is next, so no stage is ever revisited, and every stage
/// but `Done` and `Failed` has a successor other than itself.
pub proof fn lemma_stages_linear(s: InstallStage)
    requires
        s != InstallStage::Done,
        s != InstallStage::Failed,
    ensures
        stage_index(successor(s)) == stage_index(s) + 1,
        successor(s) != InstallStage::Failed,
        0 <= stage_index(s) < 10,
{
}

/// Extraction succeeded only when the tree has its binaries directory.
pub fn verify_extraction(bin_dir_exists: bool) -> (r: Result<(), InstallError>)
    ensures
        bin_dir_exists ==> r is Ok,
        !bin_dir_exists ==> r == Err::<(), InstallError>(InstallError::CorruptArchive),
{
    if bin_dir_exists {
        Ok(())
    } else {
        Err(InstallError::CorruptArchive)
    }
}

/// A filesystem step of the post-extraction customisation.
#[derive(Debug, Clone, PartialEq, Eq)]
pub enum FsStep {
    /// Remove the file if it is there.
    RemoveFile(String),
    /// Copy a file over another.
    CopyFile { from: String, to: String },
    /// Write a file with the given contents.
    WriteFile { path: String, contents: String },
    /// Create a directory and its parents.
    CreateDir(String),
    /// Remove every entry of a directory.
    ClearDir(String),
    /// Copy the files of `from` whose names end with `suffix` into `to`.
    CopyMatching { from: String, to: String, suffix: String },
}

/// The index of the first `true` in `flags`.
pub open spec fn first_true(flags: Seq<bool>) -> Option<int>
    decreases flags.len(),
{
    if flags.len() == 0 {
        None
    } else if flags[0] {
        Some(0)
    } else {
        match first_true(flags.drop_first()) {
            Some(i) => Some(i + 1),
            None => None,
        }
    }
}

/// The first candidate that exists.
pub fn pick_first_existing(exists: &Vec<bool>) -> (r: Option<usize>)
    ensures
        match r {
            Some(i) => first_true(exists@) == Some(i as int),
            None => first_true(exists@).is_none(),
        },
{
    let mut i: usize = exists.len();
    let mut found: Option<usize> = None;
    while i > 0
        invariant
            i <= exists@.len(),
            match found {
                Some(k) => i <= k < exists@.len() && first_true(exists@.subrange(i as int, exists@.len() as int)) == Some(k - i),
                None => first_true(exists@.subrange(i as int, exists@.len() as int)).is_none(),
            },
        decreases i,
    {
        let ghost rest = exists@.subrange(i - 1, exists@.len() as int);
        assert(rest.drop_first() =~= exists@.subrange(i as int, exists@.len() as int));
        if exists[i - 1] {
            found = Some(i - 1);
        }
        i = i - 1;
    }
    assert(exists@.subrange(0, exists@.len() as int) =~= exists@);
    found
}

/// The candidate package-source templates of an apt-based distro, tried in order.
pub fn sources_list_candidates(tag: &str) -> (r: Vec<String>)
    ensures
        r@.len() == 2,
        r@[0]@ == tag@ + "/sources.list"@,
        r@[1]@ == "/root/TermuxForLinux/"@ + tag@ + "/sources.list"@,
{
    let mut r: Vec<String> = Vec::new();
    r.push(concat(tag, "/sources.list"));
    let a = concat("/root/TermuxForLinux/", tag);
    r.push(concat(a.as_str(), "/sources.list"));
    r
}

/// The candidate directories of repository files, tried in order.
pub fn repo_dir_candidates() -> (r: Vec<String>)
    ensures
        r@.len() == 2,
        r@[0]@ == "fedora"@,
        r@[1]@ == "/root/TermuxForLinux/fedora"@,
{
    let mut r: Vec<String> = Vec::new();
    r.push(String::from_str("fedora"));
    r.push(String::from_str("/root/TermuxForLinux/fedora"));
    r
}

/// The customisation of an extracted tree under `filesys` for a distro of
/// `family`. `template` is the first existing package-source template, and
/// `repo_source` the first existing repository-file directory.
pub fn customization_steps(
    family: Family,
    filesys: &str,
    template: Option<String>,
    repo_source: Option<String>,
) -> (r: Vec<FsStep>)
    ensures
        family == Family::Plain ==> r@.len() == 0,
        family == Family::Apt ==> r@.len() == 2 && (r@[0] matches FsStep::RemoveFile(p) && p@
            == join_path(filesys@, "etc/apt/sources.list"@)) && match template {
            Some(t) => (r@[1] matches FsStep::CopyFile { from, to } && from@ == t@ && to@
                == join_path(filesys@, "etc/apt/sources.list"@)),
            None => (r@[1] matches FsStep::WriteFile { path, contents } && path@ == join_path(
                filesys@,
                "etc/apt/sources.list"@,
            ) && contents@.len() == 0),
        },
        family == Family::Rpm ==> r@.len() == 3 && (r@[0] matches FsStep::CreateDir(p) && p@
            == join_path(filesys@, "tmp"@)) && (r@[1] matches FsStep::WriteFile { path, contents }
            && path@ == join_path(filesys@, "etc/hosts"@) && contents@ == "127.0.0.1 localhost\n"@)
            && (r@[2] matches FsStep::WriteFile { path, contents } && path@ == join_path(
            filesys@,
            "etc/resolv.conf"@,
        ) && contents@ == "nameserver 8.8.8.8\nnameserver 8.8.4.4\n"@),
        family == Family::RpmWithRepos ==> (r@[0] matches FsStep::WriteFile { path, contents }
            && path@ == join_path(filesys@, "etc/hosts"@) && contents@ == "127.0.0.1 localhost\n"@)
            && (r@[1] matches FsStep::WriteFile { path, contents } && path@ == join_path(
            filesys@,
            "etc/resolv.conf"@,
        ) && contents@ == "nameserver 8.8.4.4\nnameserver 8.8.4.4\n"@) && (r@[2] matches FsStep::ClearDir(
            p,
        ) && p@ == join_path(filesys@, "etc/yum.repos.d"@)) && match repo_source {
            Some(d) => r@.len() == 4 && (r@[3] matches FsStep::CopyMatching { from, to, suffix }
                && from@ == d@ && to@ == join_path(filesys@, "etc/yum.repos.d"@) && suffix@
                == ".repo"@),
            None => r@.len() == 3,
        },
{
    let mut r: Vec<FsStep> = Vec::new();
    match family {
        Family::Plain => {},
        Family::Apt => {
            let list = join_path_exec(filesys, "etc/apt/sources.list");
            let list2 = join_path_exec(filesys, "etc/apt/sources.list");
            r.push(FsStep::RemoveFile(list));
            match template {
                Some(t) => r.push(FsStep::CopyFile { from: t, to: list2 }),
                None => {
                    let e = String::new();
                    r.push(FsStep::WriteFile { path: list2, contents: e });
                },
            }
        },
        Family::Rpm => {
            r.push(FsStep::CreateDir(join_path_exec(filesys, "tmp")));
            r.push(
                FsStep::WriteFile {
                    path: join_path_exec(filesys, "etc/hosts"),
                    contents: String::from_str("127.0.0.1 localhost\n"),
                },
            );
            r.push(
                FsStep::WriteFile {
                    path: join_path_exec(filesys, "etc/resolv.conf"),
                    contents: String::from_str("nameserver 8.8.8.8\nnameserver 8.8.4.4\n"),
                },
            );
        },
        Family::RpmWithRepos => {
            r.push(
                FsStep::WriteFile {
                    path: join_path_exec(filesys, "etc/hosts"),
                    contents: String::from_str("127.0.0.1 localhost\n"),
                },
            );
            r.push(
                FsStep::WriteFile {
                    path: join_path_exec(filesys, "etc/resolv.conf"),
                    contents: String::from_str("nameserver 8.8.4.4\nnameserver 8.8.4.4\n"),
                },
            );
            r.push(FsStep::ClearDir(join_path_exec(filesys, "etc/yum.repos.d")));
            match repo_source {
                Some(d) => r.push(
                    FsStep::CopyMatching {
                        from: d,
                        to: join_path_exec(filesys, "etc/yum.repos.d"),
                        suffix: String::from_str(".repo"),
                    },
                ),
                None => {},
            }
        },
    }
    r
}

/// The launcher script up to the login-shell command.
pub const LAUNCHER_HEAD: &'static str = "#!/data/data/com.termux/files/usr/bin/bash
cd $(dirname $0)
## unset LD_PRELOAD in case termux-exec is installed
unset LD_PRELOAD
command=\"proot\"
command+=\" --link2symlink\"
command+=\" -0\"
command+=\" -r filesys\"
if [ -n \"$(ls -A binds)\" ]; then
    for f in binds/* ;do
      . $f
    done
fi
command+=\" -b /dev\"
command+=\" -b /proc\"
command+=\" -b filesys/root:/dev/shm\"
## uncomment the following line to have access to the home directory of termux
#command+=\" -b /data/data/com.termux/files/home:/root\"
## uncomment the following line to mount /sdcard directly to /
#command+=\" -b /sdcard\"
command+=\" -w /root\"
command+=\" /usr/bin/env -i\"
command+=\" HOME=/root\"
command+=\" PATH=/usr/local/sbin:/usr/local/bin:/bin:/usr/bin:/sbin:/usr/sbin:/usr/games:/usr/local/games\"
command+=\" TERM=$TERM\"
command+=\" LANG=C.UTF-8\"
command+=\" ";

/// The launcher script after the login-shell command.
pub const LAUNCHER_TAIL: &'static str = "\"
com=\"$@\"
if [ -z \"$1\" ];then
    exec $command
else
    $command -c \"$com\"
fi
";

/// The login-shell command used when none is configured.
pub const DEFAULT_SHELL: &'static str = "/bin/bash --login";

/// The launcher script of an instance, running `shell` (or the default
/// login shell) inside the containerised tree.
pub fn generate_start_script(shell: Option<&str>) -> (r: String)
    ensures
        r@ == LAUNCHER_HEAD@ + match shell {
            Some(s) => s@,
            None => DEFAULT_SHELL@,
        } + LAUNCHER_TAIL@,
{
    let s = match shell {
        Some(s) => s,
        None => DEFAULT_SHELL,
    };
    let a = concat(LAUNCHER_HEAD, s);
    concat(a.as_str(), LAUNCHER_TAIL)
}

/// One thing the caller does for an install, in the order given.
#[derive(Debug, Clone, PartialEq, Eq)]
pub enum InstallAction {
    /// Fetch `url` into the file `dest`, reporting progress.
    Download { url: String, dest: String },
    /// Unpack the archive `archive` into the directory `dest`, reporting progress.
    Extract { archive: String, dest: String },
    /// Delete the path, recursively.
    RemovePath(String),
    /// Fail unless the path exists.
    RequirePath(String),
    /// Write a file with the given contents.
    WriteFile { path: String, contents: String },
    /// Mark a file executable.
    MakeExecutable(String),
    /// Apply the job's customisation steps.
    Customize,
}

/// An install in progress, from the download on; the earlier stages (the
/// architecture, the distro, the instance ID and the source) are settled
/// when it is planned.
pub struct InstallJob {
    pub stage: InstallStage,
    pub url: String,
    pub archive: String,
    pub filesys: String,
    pub meta_path: String,
    pub meta_text: String,
    pub launcher_path: String,
    pub launcher: String,
    pub customization: Vec<FsStep>,
}

/// Plans the install of `def` for `arch` into `instance_dir`: a custom link,
/// when configured, replaces the catalog URL; without either there is
/// nothing to install for this architecture.
pub fn plan_install(
    def: &DistroDefinition,
    arch: Architecture,
    custom_link: Option<String>,
    instance_dir: &str,
    meta: &SystemMeta,
    shell: Option<&str>,
    customization: Vec<FsStep>,
) -> (r: Result<InstallJob, InstallError>)
    ensures
        custom_link.is_none() && def.url_of(arch).is_none() ==> (r matches Err(
            InstallError::UnsupportedArchitecture(a),
        ) && a@ == crate::arch::arch_name(arch)),
        !(custom_link.is_none() && def.url_of(arch).is_none()) ==> (r matches Ok(job) && {
            &&& job.stage == InstallStage::Download
            &&& job.url@ == match custom_link {
                Some(l) => l@,
                None => def.url_of(arch).unwrap(),
            }
            &&& job.archive@ == join_path(instance_dir@, "rootfs.tar.xz"@)
            &&& job.filesys@ == join_path(instance_dir@, "filesys"@)
            &&& job.meta_path@ == join_path(instance_dir@, "meta.txt"@)
            &&& job.meta_text@ == meta_text(*meta)
            &&& job.launcher_path@ == join_path(instance_dir@, "start.sh"@)
            &&& job.launcher@ == LAUNCHER_HEAD@ + match shell {
                Some(s) => s@,
                None => DEFAULT_SHELL@,
            } + LAUNCHER_TAIL@
            &&& job.customization == customization
        }),
{
    let url = match custom_link {
        Some(l) => l,
        None => match def.get_url(&arch) {
            Some(u) => u.clone(),
            None => {
                return Err(InstallError::UnsupportedArchitecture(String::from_str(arch.to_str())));
            },
        },
    };
    Ok(InstallJob {
        stage: InstallStage::Download,
        url,
        archive: join_path_exec(instance_dir, "rootfs.tar.xz"),
        filesys: join_path_exec(instance_dir, "filesys"),
        meta_path: join_path_exec(instance_dir, "meta.txt"),
        meta_text: meta.to_string(),
        launcher_path: join_path_exec(instance_dir, "start.sh"),
        launcher: generate_start_script(shell),
        customization,
    })
}

impl InstallJob {
    /// What the current stage asks of the caller. After a successful
    /// extraction the archive is removed whatever its source, and the tree
    /// must then hold its binaries directory.
    pub fn actions(&self) -> (r: Vec<InstallAction>)
        ensures
            self.stage == InstallStage::Download ==> r@.len() == 1 && (r@[0] matches InstallAction::Download {
                url,
                dest,
            } && url@ == self.url@ && dest@ == self.archive@),
            self.stage == InstallStage::Extract ==> r@.len() == 1 && (r@[0] matches InstallAction::Extract {
                archive,
                dest,
            } && archive@ == self.archive@ && dest@ == self.filesys@),
            self.stage == InstallStage::VerifyExtraction ==> r@.len() == 2 && (r@[0] matches InstallAction::RemovePath(
                p,
            ) && p@ == self.archive@) && (r@[1] matches InstallAction::RequirePath(p) && p@
                == join_path(self.filesys@, "bin"@)),
            self.stage == InstallStage::WriteMetadata ==> r@.len() == 1 && (r@[0] matches InstallAction::WriteFile {
                path,
                contents,
            } && path@ == self.meta_path@ && contents@ == self.meta_text@),
            self.stage == InstallStage::ApplyCustomization ==> r@ == seq![InstallAction::Customize],
            self.stage == InstallStage::GenerateLauncher ==> r@.len() == 2 && (r@[0] matches InstallAction::WriteFile {
                path,
                contents,
            } && path@ == self.launcher_path@ && contents@ == self.launcher@) && (r@[1] matches InstallAction::MakeExecutable(
                p,
            ) && p@ == self.launcher_path@),
            self.stage != InstallStage::Download && self.stage != InstallStage::Extract && self.stage
                != InstallStage::VerifyExtraction && self.stage != InstallStage::WriteMetadata
                && self.stage != InstallStage::ApplyCustomization && self.stage
                != InstallStage::GenerateLauncher ==> r@.len() == 0,
    {
        let mut r: Vec<InstallAction> = Vec::new();
        match self.stage {
            InstallStage::Download => {
                r.push(InstallAction::Download { url: self.url.clone(), dest: self.archive.clone() });
            },
            InstallStage::Extract => {
                r.push(InstallAction::Extract { archive: self.archive.clone(), dest: self.filesys.clone() });
            },
            InstallStage::VerifyExtraction => {
                r.push(InstallAction::RemovePath(self.archive.clone()));
                r.push(InstallAction::RequirePath(join_path_exec(self.filesys.as_str(), "bin")));
            },
            InstallStage::WriteMetadata => {
                r.push(
                    InstallAction::WriteFile {
                        path: self.meta_path.clone(),
                        contents: self.meta_text.clone(),
                    },
                );
            },
            InstallStage::ApplyCustomization => {
                r.push(InstallAction::Customize);
                assert(r@ =~= seq![InstallAction::Customize]);
            },
            InstallStage::GenerateLauncher => {
                r.push(
                    InstallAction::WriteFile {
                        path: self.launcher_path.clone(),
                        contents: self.launcher.clone(),
                    },
                );
                r.push(InstallAction::MakeExecutable(self.launcher_path.clone()));
            },
            _ => {},
        }
        r
    }

    /// The error that ends the install when the current stage fails.
    pub fn failure(&self) -> (r: InstallError)
        ensures
            self.stage == InstallStage::Download ==> (r matches InstallError::DownloadFailed(u) && u@
                == self.url@),
            self.stage == InstallStage::Extract ==> r == InstallError::ExtractionFailed,
            self.stage == InstallStage::VerifyExtraction ==> r == InstallError::CorruptArchive,
            self.stage != InstallStage::Download && self.stage != InstallStage::Extract && self.stage
                != InstallStage::VerifyExtraction ==> (r matches InstallError::ConfigIOError(m) && m@
                == "could not write the instance files"@),
    {
        match self.stage {
            InstallStage::Download => InstallError::DownloadFailed(self.url.clone()),
            InstallStage::Extract => InstallError::ExtractionFailed,
            InstallStage::VerifyExtraction => InstallError::CorruptArchive,
            _ => InstallError::ConfigIOError(String::from_str("could not write the instance files")),
        }
    }

    /// Records how the current stage's actions went.
    pub fn advance(&mut self, succeeded: bool)
        ensures
            final(self).stage == if old(self).stage == InstallStage::Done || old(self).stage
                == InstallStage::Failed {
                old(self).stage
            } else if succeeded {
                successor(old(self).stage)
            } else {
                InstallStage::Failed
            },
            final(self).url == old(self).url,
            final(self).archive == old(self).archive,
            final(self).filesys == old(self).filesys,
            final(self).meta_path == old(self).meta_path,
            final(self).meta_text == old(self).meta_text,
            final(self).launcher_path == old(self).launcher_path,
            final(self).launcher == old(self).launcher,
            final(self).customization == old(self).customization,
    {
        self.stage = next_stage(self.stage, succeeded);
    }

    pub fn is_finished(&self) -> (r: bool)
        ensures
            r == (self.stage == InstallStage::Done || self.stage == InstallStage::Failed),
    {
        self.stage == InstallStage::Done || self.stage == InstallStage::Failed
    }
}

} // verus!
