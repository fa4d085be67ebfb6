use termos::distro::meta::PlatformInfo;
use termos::error::InstallError;
use termos::instance::{allocate_instance_id, get_system_metas, generate_instance_id, RemovalStep, SystemManager};

fn ids(v: &[&str]) -> Vec<String> {
    v.iter().map(|s| s.to_string()).collect()
}

#[test]
fn next_id_is_max_plus_one_not_first_gap() {
    assert_eq!(generate_instance_id("ubuntu", &ids(&["ubuntu1", "ubuntu3"])), "ubuntu4");
}

#[test]
fn first_id_is_one() {
    assert_eq!(generate_instance_id("debian", &ids(&[])), "debian1");
    assert_eq!(generate_instance_id("debian", &ids(&["ubuntu7", "mybox"])), "debian1");
}

#[test]
fn non_numeric_and_oversized_suffixes_are_ignored() {
    let existing = ids(&["ubuntu2", "ubuntu-dev", "ubuntu", "ubuntu99999999999", "Ubuntu50", "ubuntu+9"]);
    assert_eq!(generate_instance_id("ubuntu", &existing), "ubuntu10");
    assert_eq!(generate_instance_id("ubuntu", &ids(&["ubuntu4294967295"])), "ubuntu4294967296");
}

#[test]
fn uninstall_of_missing_instance_is_not_found_and_does_nothing() {
    let m = SystemManager::new("/home/u/termos".to_string());
    match m.uninstall("nonexistent", false) {
        Err(InstallError::SystemNotFound(id)) => assert_eq!(id, "nonexistent"),
        other => panic!("unexpected {:?}", other),
    }
}

#[test]
fn uninstall_grants_permissions_then_deletes() {
    let m = SystemManager::new("/home/u/termos".to_string());
    let steps = m.uninstall("ubuntu1", true).unwrap();
    assert_eq!(
        steps,
        vec![
            RemovalStep::GrantAll("/home/u/termos/ubuntu1".to_string()),
            RemovalStep::Delete("/home/u/termos/ubuntu1".to_string()),
        ]
    );
    assert_eq!(SystemManager::new("base/".to_string()).get_system_dir("x"), "base/x");
}

#[test]
fn listing_omits_instances_without_metadata() {
    let p = PlatformInfo { now_secs: Some(0), user: Some("u".to_string()), is_root: false };
    let metas = get_system_metas(
        ids(&["a1", "b1", "c1"]),
        vec![Some("name = a1\nos_type = alpine\n".to_string()), None, Some("os_type = void\n".to_string())],
        &p,
    );
    assert_eq!(metas.len(), 2);
    assert_eq!(metas[0].0, "a1");
    assert_eq!(metas[0].1.os_type, "alpine");
    assert_eq!(metas[1].0, "c1");
    assert_eq!(metas[1].1.name, "");
}

#[test]
fn allocation_refuses_a_taken_id() {

    let existing = ids(&["ubuntu1", "mybox"]);
    assert_eq!(allocate_instance_id(None, "ubuntu", &existing), Ok("ubuntu2".to_string()));
    assert_eq!(allocate_instance_id(Some("lab".to_string()), "ubuntu", &existing), Ok("lab".to_string()));
    assert_eq!(
        allocate_instance_id(Some("mybox".to_string()), "ubuntu", &existing),
        Err(InstallError::SystemAlreadyExists("mybox".to_string()))
    );
}
