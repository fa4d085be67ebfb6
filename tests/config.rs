use termos::config::{get_default_mirror, read_config_file, ConfigManager};

/// A manager over a configuration file holding `lines`, one per line.
fn manager_with_lines(lines: &[&str]) -> ConfigManager {
    let mut text = String::new();
    for line in lines {
        text.push_str(line);
        text.push('\n');
    }
    ConfigManager::with_content(text)
}

#[test]
fn parser_tests_test_load_config() {
    let config_manager = manager_with_lines(&["ubuntu-mirror = https://test.ubuntu.com/", "debian-mirror = https://test.debian.com/"]);
    let result = config_manager.load_config();
    assert!(result.is_ok());
    let config = result.unwrap();
    assert_eq!(config.get("ubuntu-mirror"), Some(&"https://test.ubuntu.com/".to_string()));
    assert_eq!(config.get("debian-mirror"), Some(&"https://test.debian.com/".to_string()));
}

#[test]
fn parser_tests_test_get_mirror_for_distro_with_config() {
    let config_manager = manager_with_lines(&["ubuntu-mirror = https://custom.ubuntu.com/"]);
    let result = config_manager.get_mirror_for_distro("ubuntu");
    assert!(result.is_ok());
    assert_eq!(result.unwrap(), "https://custom.ubuntu.com/");
}

#[test]
fn parser_tests_test_get_mirror_for_distro_default() {
    let config_manager = manager_with_lines(&[]);
    let result = config_manager.get_mirror_for_distro("ubuntu");
    assert!(result.is_ok());
    assert_eq!(result.unwrap(), "https://mirrors.ustc.edu.cn/ubuntu/");
}

#[test]
fn parser_tests_test_get_mirror_for_distro_invalid() {
    let config_manager = manager_with_lines(&[]);
    let result = config_manager.get_mirror_for_distro("nonexistent");
    assert!(result.is_err());
}

#[test]
fn parser_tests_test_get_download_link_for_distro_with_link() {
    let config_manager = manager_with_lines(&["ubuntu-link = https://custom.com/ubuntu.tar.xz"]);
    let result = config_manager.get_download_link_for_distro("ubuntu");
    assert!(result.is_ok());
    assert_eq!(result.unwrap(), Some("https://custom.com/ubuntu.tar.xz".to_string()));
}

#[test]
fn parser_tests_test_get_download_link_for_distro_without_link() {
    let config_manager = manager_with_lines(&[]);
    let result = config_manager.get_download_link_for_distro("ubuntu");
    assert!(result.is_ok());
    assert_eq!(result.unwrap(), None);
}

#[test]
fn parser_tests_test_get_shell_command_with_config() {
    let config_manager = manager_with_lines(&["shell = /bin/zsh --login"]);
    let result = config_manager.get_shell_command();
    assert!(result.is_ok());
    assert_eq!(result.unwrap(), Some("/bin/zsh --login".to_string()));
}

#[test]
fn parser_tests_test_get_shell_command_without_config() {
    let config_manager = manager_with_lines(&[]);
    let result = config_manager.get_shell_command();
    assert!(result.is_ok());
    assert_eq!(result.unwrap(), None);
}

#[test]
fn parser_tests_test_get_init_commands_single_line() {
    let config_manager = manager_with_lines(&["ubuntu-init = apt update && apt install -y vim"]);
    let result = config_manager.get_init_commands_for_distro("ubuntu");
    assert!(result.is_ok());
    assert_eq!(result.unwrap(), Some("apt update && apt install -y vim".to_string()));
}

#[test]
fn parser_tests_test_get_init_commands_multi_line() {
    let config_manager = manager_with_lines(&["ubuntu-init = ---", "apt update", "apt install -y vim curl wget", "apt install -y build-essential git", "---"]);
    let result = config_manager.get_init_commands_for_distro("ubuntu");
    assert!(result.is_ok());
    let commands = result.unwrap();
    assert!(commands.is_some());
    let command_str = commands.unwrap();
    assert!(command_str.contains("apt update"));
    assert!(command_str.contains("apt install -y vim curl wget"));
    assert!(command_str.contains("apt install -y build-essential git"));
}

#[test]
fn parser_tests_test_get_init_commands_multi_line_with_empty_lines() {
    let config_manager = manager_with_lines(&["debian-init = ---", "apt update", "", "apt install -y python3 python3-pip", "", "pip3 install --upgrade pip", "---"]);
    let result = config_manager.get_init_commands_for_distro("debian");
    assert!(result.is_ok());
    let commands = result.unwrap();
    assert!(commands.is_some());
    let command_str = commands.unwrap();
    assert!(command_str.contains("apt update"));
    assert!(command_str.contains("apt install -y python3 python3-pip"));
    assert!(command_str.contains("pip3 install --upgrade pip"));
}

#[test]
fn parser_tests_test_get_init_commands_without_config() {
    let config_manager = manager_with_lines(&[]);
    let result = config_manager.get_init_commands_for_distro("ubuntu");
    assert!(result.is_ok());
    assert_eq!(result.unwrap(), None);
}

#[test]
fn parser_tests_test_load_config_with_mixed_settings() {
    let config_manager = manager_with_lines(&["ubuntu-mirror = https://custom.ubuntu.com/", "ubuntu-init = ---", "apt update", "apt install -y vim", "---", "shell = /bin/bash --login"]);
    let result = config_manager.load_config();
    assert!(result.is_ok());
    let config = result.unwrap();
    assert_eq!(config.get("ubuntu-mirror"), Some(&"https://custom.ubuntu.com/".to_string()));
    assert_eq!(config.get("shell"), Some(&"/bin/bash --login".to_string()));
    let init_commands = config.get("ubuntu-init");
    assert!(init_commands.is_some());
    let init_str = init_commands.unwrap();
    assert!(init_str.contains("apt update"));
    assert!(init_str.contains("apt install -y vim"));
}

#[test]
fn parser_tests_core_test_load_config() {
    let config_manager = manager_with_lines(&["ubuntu-mirror = https://test.ubuntu.com/", "debian-mirror = https://test.debian.com/"]);
    let result = config_manager.load_config();
    assert!(result.is_ok());
    let config = result.unwrap();
    assert_eq!(config.get("ubuntu-mirror"), Some(&"https://test.ubuntu.com/".to_string()));
    assert_eq!(config.get("debian-mirror"), Some(&"https://test.debian.com/".to_string()));
}

#[test]
fn parser_tests_core_test_get_mirror_for_distro_with_config() {
    let config_manager = manager_with_lines(&["ubuntu-mirror = https://custom.ubuntu.com/"]);
    let result = config_manager.get_mirror_for_distro("ubuntu");
    assert!(result.is_ok());
    assert_eq!(result.unwrap(), "https://custom.ubuntu.com/");
}

#[test]
fn parser_tests_core_test_get_mirror_for_distro_default() {
    let config_manager = manager_with_lines(&[]);
    let result = config_manager.get_mirror_for_distro("ubuntu");
    assert!(result.is_ok());
    assert_eq!(result.unwrap(), "https://mirrors.ustc.edu.cn/ubuntu/");
}

#[test]
fn parser_tests_core_test_get_mirror_for_distro_invalid() {
    let config_manager = manager_with_lines(&[]);
    let result = config_manager.get_mirror_for_distro("nonexistent");
    assert!(result.is_err());
}

#[test]
fn parser_tests_core_test_get_download_link_for_distro_with_link() {
    let config_manager = manager_with_lines(&["ubuntu-link = https://custom.com/ubuntu.tar.xz"]);
    let result = config_manager.get_download_link_for_distro("ubuntu");
    assert!(result.is_ok());
    assert_eq!(result.unwrap(), Some("https://custom.com/ubuntu.tar.xz".to_string()));
}

#[test]
fn parser_tests_core_test_get_download_link_for_distro_without_link() {
    let config_manager = manager_with_lines(&[]);
    let result = config_manager.get_download_link_for_distro("ubuntu");
    assert!(result.is_ok());
    assert_eq!(result.unwrap(), None);
}

#[test]
fn parser_tests_core_test_get_shell_command_with_config() {
    let config_manager = manager_with_lines(&["shell = /bin/zsh --login"]);
    let result = config_manager.get_shell_command();
    assert!(result.is_ok());
    assert_eq!(result.unwrap(), Some("/bin/zsh --login".to_string()));
}

#[test]
fn parser_tests_core_test_get_shell_command_without_config() {
    let config_manager = manager_with_lines(&[]);
    let result = config_manager.get_shell_command();
    assert!(result.is_ok());
    assert_eq!(result.unwrap(), None);
}

#[test]
fn parser_tests_init_test_get_init_commands_single_line() {
    let config_manager = manager_with_lines(&["ubuntu-init = apt update && apt install -y vim"]);
    let result = config_manager.get_init_commands_for_distro("ubuntu");
    assert!(result.is_ok());
    assert_eq!(result.unwrap(), Some("apt update && apt install -y vim".to_string()));
}

#[test]
fn parser_tests_init_test_get_init_commands_multi_line() {
    let config_manager = manager_with_lines(&["ubuntu-init = ---", "apt update", "apt install -y vim curl wget", "apt install -y build-essential git", "---"]);
    let result = config_manager.get_init_commands_for_distro("ubuntu");
    assert!(result.is_ok());
    let commands = result.unwrap();
    assert!(commands.is_some());
    let command_str = commands.unwrap();
    assert!(command_str.contains("apt update"));
    assert!(command_str.contains("apt install -y vim curl wget"));
    assert!(command_str.contains("apt install -y build-essential git"));
}

#[test]
fn parser_tests_init_test_get_init_commands_multi_line_with_empty_lines() {
    let config_manager = manager_with_lines(&["debian-init = ---", "apt update", "", "apt install -y python3 python3-pip", "", "pip3 install --upgrade pip", "---"]);
    let result = config_manager.get_init_commands_for_distro("debian");
    assert!(result.is_ok());
    let commands = result.unwrap();
    assert!(commands.is_some());
    let command_str = commands.unwrap();
    assert!(command_str.contains("apt update"));
    assert!(command_str.contains("apt install -y python3 python3-pip"));
    assert!(command_str.contains("pip3 install --upgrade pip"));
}

#[test]
fn parser_tests_init_test_get_init_commands_without_config() {
    let config_manager = manager_with_lines(&[]);
    let result = config_manager.get_init_commands_for_distro("ubuntu");
    assert!(result.is_ok());
    assert_eq!(result.unwrap(), None);
}

#[test]
fn parser_tests_init_test_load_config_with_mixed_settings() {
    let config_manager = manager_with_lines(&["ubuntu-mirror = https://custom.ubuntu.com/", "ubuntu-init = ---", "apt update", "apt install -y vim", "---", "shell = /bin/bash --login"]);
    let result = config_manager.load_config();
    assert!(result.is_ok());
    let config = result.unwrap();
    assert_eq!(config.get("ubuntu-mirror"), Some(&"https://custom.ubuntu.com/".to_string()));
    assert_eq!(config.get("shell"), Some(&"/bin/bash --login".to_string()));
    let init_commands = config.get("ubuntu-init");
    assert!(init_commands.is_some());
    let init_str = init_commands.unwrap();
    assert!(init_str.contains("apt update"));
    assert!(init_str.contains("apt install -y vim"));
}

#[test]
fn test_get_default_mirror_ubuntu() {
    let result = get_default_mirror("ubuntu");
    assert!(result.is_ok());
    assert_eq!(result.unwrap(), "https://mirrors.ustc.edu.cn/ubuntu/");
}

#[test]
fn test_get_default_mirror_debian() {
    let result = get_default_mirror("debian");
    assert!(result.is_ok());
    assert_eq!(result.unwrap(), "https://mirrors.163.com/debian/");
}

#[test]
fn test_get_default_mirror_kali() {
    let result = get_default_mirror("kali");
    assert!(result.is_ok());
    assert_eq!(result.unwrap(), "http://http.kali.org/kali/");
}

#[test]
fn test_get_default_mirror_centos() {
    let result = get_default_mirror("centos");
    assert!(result.is_ok());
    assert_eq!(result.unwrap(), "https://mirrors.aliyun.com/centos/");
}

#[test]
fn test_get_default_mirror_fedora() {
    let result = get_default_mirror("fedora");
    assert!(result.is_ok());
    assert_eq!(result.unwrap(), "https://mirrors.tuna.tsinghua.edu.cn/fedora/");
}

#[test]
fn test_get_default_mirror_case_insensitive() {
    let result = get_default_mirror("Ubuntu");
    assert!(result.is_ok());
    assert_eq!(result.unwrap(), "https://mirrors.ustc.edu.cn/ubuntu/");
}

#[test]
fn test_get_default_mirror_invalid() {
    let result = get_default_mirror("nonexistent");
    assert!(result.is_err());
    let error_msg = result.unwrap_err().to_string();
    assert!(error_msg.contains("未找到"));
    assert!(error_msg.contains("nonexistent"));
}
#[test]
fn block_value_keeps_interior_blank_line() {
    let config_manager = ConfigManager::with_content("key = ---\nA\n\nB\n---\n".to_string());
    let config = config_manager.load_config().unwrap();
    assert_eq!(config.get("key"), Some(&"A\n\nB".to_string()));
}

#[test]
fn block_value_joins_lines_exactly() {
    let config_manager = manager_with_lines(&[
        "ubuntu-init = ---",
        "apt update",
        "apt install -y vim curl wget",
        "---",
    ]);
    assert_eq!(
        config_manager.get_init_commands_for_distro("Ubuntu").unwrap(),
        Some("apt update\napt install -y vim curl wget".to_string())
    );
}

#[test]
fn block_text_on_marker_lines_is_kept() {
    let config_manager = manager_with_lines(&["k = ---first", "middle", "last---", "other = x"]);
    let config = config_manager.load_config().unwrap();
    assert_eq!(config.get("k"), Some(&"first\nmiddle\nlast".to_string()));
    assert_eq!(config.get("other"), Some(&"x".to_string()));
}

#[test]
fn unclosed_block_runs_to_end_of_text() {
    let config_manager = manager_with_lines(&["k = ---", "one", "two = 2"]);
    let config = config_manager.load_config().unwrap();
    assert_eq!(config.get("k"), Some(&"one\ntwo = 2".to_string()));
    assert_eq!(config.get("two"), None);
}

#[test]
fn inline_delimited_value_loses_markers() {
    let config_manager = manager_with_lines(&["shell = --- /bin/zsh ---", "short = ------"]);
    let config = config_manager.load_config().unwrap();
    assert_eq!(config.get("shell"), Some(&"/bin/zsh".to_string()));
    assert_eq!(config.get("short"), Some(&"".to_string()));
}

#[test]
fn comments_blank_lines_and_lines_without_equals_are_skipped() {
    let config_manager = manager_with_lines(&["# shell = /bin/sh", "", "   ", "no equals here", "  shell =  /bin/fish  "]);
    let config = config_manager.load_config().unwrap();
    assert_eq!(config.entries.len(), 1);
    assert_eq!(config.get("shell"), Some(&"/bin/fish".to_string()));
}

#[test]
fn later_entry_overrides_earlier_one() {
    let config_manager = manager_with_lines(&["shell = /bin/sh", "shell = /bin/zsh"]);
    assert_eq!(config_manager.get_shell_command().unwrap(), Some("/bin/zsh".to_string()));
}

#[test]
fn value_may_hold_equals_signs() {
    let config_manager = manager_with_lines(&["ubuntu-link = https://x.org/a?b=c"]);
    assert_eq!(
        config_manager.get_download_link_for_distro("UBUNTU").unwrap(),
        Some("https://x.org/a?b=c".to_string())
    );
}

#[test]
fn mirror_override_wins_over_builtin_then_builtin_then_error() {
    let with_override = manager_with_lines(&["ubuntu-mirror = https://m.example/ubuntu/"]);
    assert_eq!(with_override.get_mirror_for_distro("ubuntu").unwrap(), "https://m.example/ubuntu/");
    let plain = manager_with_lines(&[]);
    assert_eq!(plain.get_mirror_for_distro("ubuntu").unwrap(), "https://mirrors.ustc.edu.cn/ubuntu/");
    match plain.get_mirror_for_distro("nonexistent") {
        Err(termos::error::InstallError::UnknownDistro(n)) => assert_eq!(n, "nonexistent"),
        other => panic!("unexpected {:?}", other),
    }
    let custom_only = manager_with_lines(&["alpine-mirror = https://m.example/alpine/"]);
    assert_eq!(custom_only.get_mirror_for_distro("alpine").unwrap(), "https://m.example/alpine/");
}

#[test]
fn unreadable_config_reports_io_error() {
    let config_manager = ConfigManager::unreadable("permission denied".to_string());
    match config_manager.get_shell_command() {
        Err(termos::error::InstallError::ConfigIOError(m)) => assert_eq!(m, "permission denied"),
        other => panic!("unexpected {:?}", other),
    }
    assert!(config_manager.load_config().is_err());
}

#[test]
fn default_template_gives_builtin_mirrors_and_no_links() {
    let config_manager = ConfigManager::with_content(termos::config::get_default_config_content().to_string());
    assert_eq!(config_manager.get_mirror_for_distro("kali").unwrap(), "http://http.kali.org/kali/");
    assert_eq!(config_manager.get_download_link_for_distro("ubuntu").unwrap(), None);
    assert_eq!(config_manager.get_shell_command().unwrap(), None);
    assert_eq!(config_manager.get_init_commands_for_distro("debian").unwrap(), None);
}

#[test]
fn crlf_line_endings_are_accepted() {
    let config_manager = ConfigManager::with_content("shell = /bin/zsh\r\nubuntu-init = ---\r\nA\r\n---\r\n".to_string());
    assert_eq!(config_manager.get_shell_command().unwrap(), Some("/bin/zsh".to_string()));
    assert_eq!(config_manager.get_init_commands_for_distro("ubuntu").unwrap(), Some("A".to_string()));
}

#[test]
fn test_read_config_file() {
    let content = "key1 = value1\nkey2 = value2\n# comment\nkey3 = value3 with spaces\n";
    let config = read_config_file(content);
    assert_eq!(config.get("key1"), Some(&"value1".to_string()));
    assert_eq!(config.get("key2"), Some(&"value2".to_string()));
    assert_eq!(config.get("key3"), Some(&"value3 with spaces".to_string()));
    assert_eq!(config.len(), 3);
}

#[test]
fn test_read_config_file_empty() {
    let config = read_config_file("");
    assert!(config.is_empty());
}

#[test]
fn repeated_keys_count_once() {
    let config = read_config_file("a = 1\nb = 2\na = 3\n");
    assert_eq!(config.len(), 2);
    assert_eq!(config.get("a"), Some(&"3".to_string()));
    assert!(!config.is_empty());
}

#[test]
fn default_template_defines_exactly_the_builtin_mirrors() {
    let text = termos::config::get_default_config_content();
    let config = ConfigManager::with_content(text).load_config().unwrap();
    assert_eq!(config.len(), 5);
    for name in ["ubuntu", "debian", "kali", "centos", "fedora"] {
        let key = format!("{}-mirror", name);
        assert_eq!(config.get(&key), Some(&get_default_mirror(name).unwrap()));
    }
    assert_eq!(config.get("shell"), None);
    assert_eq!(config.get("ubuntu-link"), None);
    assert_eq!(config.get("debian-init"), None);
}

#[test]
fn init_commands_are_listed_with_line_numbers() {
    let lines = termos::config::init_command_lines("apt update\n\n  apt install -y vim  \n");
    assert_eq!(lines, vec![(1, "apt update".to_string()), (3, "apt install -y vim".to_string())]);
    assert!(termos::config::init_command_lines("\n \n").is_empty());
}
