use termos::cli::{language_from_args, locale_prefers_chinese, parse_command, wants_no_color, CliCommand};
use termos::i18n::Language;
use termos::permissions::{group_name_of, is_root_user, mode_allows, parse_groups, parse_uid, Access, Relation};

fn args(v: &[&str]) -> Vec<String> {
    v.iter().map(|s| s.to_string()).collect()
}

#[test]
fn commands_from_arguments() {
    assert_eq!(parse_command(&args(&["prog"])), CliCommand::Interactive);
    assert_eq!(parse_command(&args(&["prog", "--lang", "zh"])), CliCommand::Interactive);
    assert_eq!(parse_command(&args(&["prog", "--list"])), CliCommand::List);
    assert_eq!(parse_command(&args(&["prog", "--lang", "en", "--help"])), CliCommand::Help);
    assert_eq!(parse_command(&args(&["prog", "--uninstall", "ubuntu1"])), CliCommand::Uninstall("ubuntu1".to_string()));
    assert_eq!(parse_command(&args(&["prog", "--uninstall"])), CliCommand::UninstallUsage);
    assert_eq!(parse_command(&args(&["prog", "--install"])), CliCommand::InstallUsage);
    assert_eq!(parse_command(&args(&["prog", "--no-color"])), CliCommand::NoColorNotice);
    assert_eq!(parse_command(&args(&["prog", "-x"])), CliCommand::Unknown("-x".to_string()));
}

#[test]
fn language_and_color_flags() {
    assert_eq!(language_from_args(&args(&["p", "--lang", "xx", "--lang", "CN"])), Some(Language::Chinese));
    assert_eq!(language_from_args(&args(&["p", "--lang"])), None);
    assert!(locale_prefers_chinese("zh_CN.UTF-8"));
    assert!(!locale_prefers_chinese("en_US.UTF-8"));
    assert!(wants_no_color(&args(&["p", "--list", "--no-color"])));
    assert!(!wants_no_color(&args(&["p"])));
}

#[test]
fn identity_tool_output() {
    assert_eq!(parse_uid("1000\n"), Some(1000));
    assert_eq!(parse_uid("root"), None);
    assert!(is_root_user(Some("0\n")));
    assert!(!is_root_user(Some("10123\n")));
    assert!(!is_root_user(None));
    assert_eq!(parse_groups(" u0_a1 inet  everybody\n"), vec!["u0_a1", "inet", "everybody"]);
    assert_eq!(group_name_of("wheel:x:10:alice\n"), "wheel");
    assert_eq!(group_name_of("plain"), "plain");
}

#[test]
fn permission_bits_by_class() {
    assert!(mode_allows(0o644, Relation::Owner, Access::Write));
    assert!(!mode_allows(0o644, Relation::Group, Access::Write));
    assert!(mode_allows(0o644, Relation::Other, Access::Read));
    assert!(!mode_allows(0o644, Relation::Owner, Access::Execute));
    assert!(mode_allows(0o755, Relation::Group, Access::Execute));
}
