use termos::distro::meta::{PlatformInfo, SystemMeta};

fn platform(now: Option<u64>, user: Option<&str>, is_root: bool) -> PlatformInfo {
    PlatformInfo { now_secs: now, user: user.map(|u| u.to_string()), is_root }
}

#[test]
fn test_system_meta_new() {
    let p = platform(Some(1_700_000_000), Some("tester"), false);
    let meta = SystemMeta::new("test-system".to_string(), "ubuntu".to_string(), &p);
    assert_eq!(meta.name, "test-system");
    assert_eq!(meta.os_type, "ubuntu");
    assert!(!meta.created_at.is_empty());
    assert!(!meta.user_group.is_empty());
    assert!(!meta.permissions.is_empty());
    assert!(meta.mirror_url.is_none());
}

#[test]
fn test_system_meta_to_string() {
    let meta = SystemMeta {
        name: "test".to_string(),
        os_type: "debian".to_string(),
        created_at: "2025-01-01T00:00:00Z".to_string(),
        user_group: "user:group".to_string(),
        permissions: "755".to_string(),
        mirror_url: Some("https://mirror.example.com".to_string()),
    };
    let content = meta.to_string();
    assert!(content.contains("name = test"));
    assert!(content.contains("os_type = debian"));
    assert!(content.contains("created_at = 2025-01-01T00:00:00Z"));
    assert!(content.contains("user_group = user:group"));
    assert!(content.contains("permissions = 755"));
    assert!(content.contains("mirror_url = https://mirror.example.com"));
}

#[test]
fn test_system_meta_from_string() {
    let content = r#"name = test-system
os_type = fedora
created_at = 2025-01-01T12:00:00Z
user_group = testuser:testgroup
permissions = 644
mirror_url = https://mirror.example.com
"#;
    let p = platform(Some(0), Some("someone"), true);
    let meta = SystemMeta::from_string(content, &p).unwrap();
    assert_eq!(meta.name, "test-system");
    assert_eq!(meta.os_type, "fedora");
    assert_eq!(meta.created_at, "2025-01-01T12:00:00Z");
    assert_eq!(meta.user_group, "testuser:testgroup");
    assert_eq!(meta.permissions, "644");
    assert_eq!(meta.mirror_url, Some("https://mirror.example.com".to_string()));
}

#[test]
fn test_system_meta_from_string_partial() {
    let content = r#"name = partial-system
os_type = alpine
"#;
    let p = platform(Some(1_700_000_000), Some("tester"), false);
    let meta = SystemMeta::from_string(content, &p).unwrap();
    assert_eq!(meta.name, "partial-system");
    assert_eq!(meta.os_type, "alpine");
    assert!(!meta.created_at.is_empty());
    assert!(!meta.user_group.is_empty());
    assert!(!meta.permissions.is_empty());
    assert!(meta.mirror_url.is_none());
}

#[test]
fn two_field_record_gets_platform_defaults() {
    let p = platform(Some(0), Some("alice"), true);
    let meta = SystemMeta::from_string("name = box\nos_type = debian\n", &p).unwrap();
    assert_eq!(meta.created_at, "1970-01-01T00:00:00Z");
    assert_eq!(meta.user_group, "alice");
    assert_eq!(meta.permissions, "755");
    let q = platform(None, None, false);
    let meta = SystemMeta::from_string("name = box\nos_type = debian\n", &q).unwrap();
    assert_eq!(meta.created_at, "2025-01-01T00:00:00Z");
    assert_eq!(meta.user_group, "unknown");
    assert_eq!(meta.permissions, "644");
}

#[test]
fn empty_user_name_falls_back_to_unknown() {
    let p = platform(Some(86_400 + 3_661), Some(""), false);
    let meta = SystemMeta::new("a".to_string(), "b".to_string(), &p);
    assert_eq!(meta.user_group, "unknown");
    assert_eq!(meta.created_at, "1970-01-02T01:01:01Z");
}

#[test]
fn serialized_record_reads_back_unchanged() {
    let meta = SystemMeta {
        name: "deb1".to_string(),
        os_type: "debian".to_string(),
        created_at: "2025-03-04T05:06:07Z".to_string(),
        user_group: "u0_a1:u0_a1".to_string(),
        permissions: "755".to_string(),
        mirror_url: None,
    };
    let text = meta.to_string();
    assert_eq!(
        text,
        "name = deb1\nos_type = debian\ncreated_at = 2025-03-04T05:06:07Z\nuser_group = u0_a1:u0_a1\npermissions = 755\n"
    );
    let p = platform(Some(5), Some("other"), false);
    let back = SystemMeta::from_string(&text, &p).unwrap();
    assert_eq!(back.name, meta.name);
    assert_eq!(back.os_type, meta.os_type);
    assert_eq!(back.created_at, meta.created_at);
    assert_eq!(back.user_group, meta.user_group);
    assert_eq!(back.permissions, meta.permissions);
    assert_eq!(back.mirror_url, None);
}

#[test]
fn later_line_for_a_key_wins_and_junk_is_ignored() {
    let p = platform(Some(0), Some("x"), false);
    let meta = SystemMeta::from_string("junk\nname = a\nname = b = c\n", &p).unwrap();
    assert_eq!(meta.name, "b = c");
    assert_eq!(meta.os_type, "");
}
