use termos::arch::{arch_from_choice, resolve_architecture, Architecture};
use termos::error::InstallError;
use termos::i18n::{I18nLoader, Language, Translator};
use termos::ui::{DownloadProgressBar, ExtractionProgressBar, Theme};

#[test]
fn test_architecture_to_str() {
    assert_eq!(Architecture::Aarch64.to_str(), "aarch64");
    assert_eq!(Architecture::Arm.to_str(), "arm");
    assert_eq!(Architecture::X86_64.to_str(), "x86_64");
    assert_eq!(Architecture::I686.to_str(), "i686");
    assert_eq!(Architecture::Riscv64.to_str(), "riscv64");
}

#[test]
fn test_architecture_from_str() {
    assert_eq!(Architecture::from_str("aarch64"), Some(Architecture::Aarch64));
    assert_eq!(Architecture::from_str("arm64"), Some(Architecture::Aarch64));
    assert_eq!(Architecture::from_str("arm"), Some(Architecture::Arm));
    assert_eq!(Architecture::from_str("x86_64"), Some(Architecture::X86_64));
    assert_eq!(Architecture::from_str("amd64"), Some(Architecture::X86_64));
    assert_eq!(Architecture::from_str("i686"), Some(Architecture::I686));
    assert_eq!(Architecture::from_str("riscv64"), Some(Architecture::Riscv64));
    assert_eq!(Architecture::from_str("unknown"), None);
}

#[test]
fn probe_output_is_trimmed_and_case_folded() {
    assert_eq!(resolve_architecture("ARMv7\n"), Ok(Architecture::Arm));
    assert_eq!(resolve_architecture(" AMD64 "), Ok(Architecture::X86_64));
    assert_eq!(
        resolve_architecture("sparc64\n"),
        Err(InstallError::UnsupportedArchitecture("sparc64".to_string()))
    );
}

#[test]
fn menu_choices_map_to_arches() {
    assert_eq!(arch_from_choice("1\n"), Some(Architecture::Aarch64));
    assert_eq!(arch_from_choice(" 5 "), Some(Architecture::Riscv64));
    assert_eq!(arch_from_choice("6"), None);
    assert_eq!(arch_from_choice(""), None);
}

#[test]
fn error_messages_name_their_subject() {
    assert_eq!(InstallError::SystemNotFound("x1".to_string()).to_string(), "System not found: x1");
    assert_eq!(InstallError::UnknownDistro("zz".to_string()).to_string(), "未找到 zz 的镜像源配置");
}

#[test]
fn theme_wraps_only_when_colors_are_on() {
    assert_eq!(Theme::new(true).success("ok"), "ok");
    assert_eq!(Theme::new(false).error("bad"), "\x1b[31mbad\x1b[0m");
    assert_eq!(Theme::new(false).colorize("t", "1;35"), "\x1b[1;35mt\x1b[0m");
}

#[test]
fn download_bar_renders_percentage() {
    let mut b = DownloadProgressBar::new("DL".to_string());
    assert_eq!(b.render(), "  DL   0% [                    ]");
    b.set_total_size(400);
    b.update(100);
    assert_eq!(b.render(), "  DL  25% [=====               ]");
    assert!(!b.is_complete());
    b.update(400);
    assert!(b.is_complete());
}

#[test]
fn extraction_bar_shortens_long_names() {
    let mut b = ExtractionProgressBar::new(3, "X".to_string());
    b.increment("./usr/share/doc/some-package/changelog.Debian.gz");
    assert_eq!(b.extracted_files, 1);
    assert_eq!(b.file_display(), "...package/changelog.Debian.gz");
    b.update(3, "./bin");
    assert_eq!(b.render(), "  X 100% [====================] [./bin]");
}

#[test]
fn language_codes() {
    assert_eq!(Language::from_code("ZH"), Some(Language::Chinese));
    assert_eq!(Language::from_code("English"), Some(Language::English));
    assert_eq!(Language::from_code("fr"), None);
    assert_eq!(Language::Chinese.as_code(), "zh");
    assert_eq!(Language::English.as_name(), "English");
}

#[test]
fn translator_falls_back_to_bracketed_key_and_fills_placeholders() {
    let t = Translator::new(
        Language::English,
        vec![("greet".to_string(), "Hello {0}, meet {1}; bye {0}".to_string())],
    );
    assert_eq!(t.t("missing"), "[missing]");
    assert_eq!(t.t_fmt("greet", &["Ann", "Bo"]), "Hello Ann, meet Bo; bye Ann");
    assert_eq!(t.get_language(), Language::English);
    assert_eq!(t.get_language_name(), "English");
}

#[test]
fn locale_tables_load_from_toml_or_defaults() {
    let loader = I18nLoader::new("/locales".to_string());
    assert_eq!(loader.locale_file(Language::Chinese), "/locales/zh.toml");
    let defaults = loader.load_language(Language::English, None).unwrap();
    let t = Translator::new(Language::English, defaults);
    assert_eq!(t.t("downloading"), "Downloading");
    let parsed = loader.load_language(Language::English, Some("welcome = \"Hi\"\nbye = 'Later'\n")).unwrap();
    let t = Translator::new(Language::English, parsed);
    assert_eq!(t.t("welcome"), "Hi");
    assert_eq!(t.t("bye"), "Later");
    assert!(matches!(
        loader.load_language(Language::English, Some("welcome = 3")),
        Err(InstallError::ConfigIOError(_))
    ));
}
