use np::cli::{resolve_package_manager, Resolution};
use np::config::{
    detect_package_managers, read_package_manager_from_package_json,
    write_package_manager_to_package_json,
};
use np::manifest::ManifestError;
use np::managers::{
    get_from_lockfile, get_package_manager_info_by_name, list_package_manager_names,
    package_managers,
};

fn files(names: &[&str]) -> Vec<String> {
    names.iter().map(|n| n.to_string()).collect()
}

#[test]
fn registry_names_in_order() {
    assert_eq!(list_package_manager_names(), vec!["npm", "yarn", "pnpm"]);
    let table = package_managers();
    assert_eq!(table.len(), 3);
    assert_eq!(table[1].name, "yarn");
    assert_eq!(table[1].lockfiles(), &["yarn.lock"]);
}

#[test]
fn registry_lookup_by_name() {
    assert_eq!(get_package_manager_info_by_name("pnpm").unwrap().name, "pnpm");
    assert_eq!(
        get_package_manager_info_by_name("pnpm").unwrap().lockfiles(),
        &["pnpm-lock.yaml"]
    );
    assert!(get_package_manager_info_by_name("bun").is_none());
    assert!(get_package_manager_info_by_name("Npm").is_none());
}

#[test]
fn registry_lookup_by_lockfile() {
    assert_eq!(get_from_lockfile("package-lock.json").unwrap().name, "npm");
    assert_eq!(get_from_lockfile("yarn.lock").unwrap().name, "yarn");
    assert_eq!(get_from_lockfile("pnpm-lock.yaml").unwrap().name, "pnpm");
    assert!(get_from_lockfile("bun.lockb").is_none());
}

#[test]
fn config_read_declaration() {
    let info = read_package_manager_from_package_json(Some(r#"{"packageManager": "yarn@4.1.0"}"#));
    assert_eq!(info.unwrap().name, "yarn");
    assert!(read_package_manager_from_package_json(Some(r#"{"name": "x"}"#)).is_none());
    assert!(read_package_manager_from_package_json(None).is_none());
}

#[test]
fn config_detect_descriptors() {
    let found = detect_package_managers(None, &files(&["yarn.lock", "package-lock.json"]));
    let names: Vec<&str> = found.iter().map(|i| i.name).collect();
    assert_eq!(names, vec!["npm", "yarn"]);
    let found = detect_package_managers(
        Some(r#"{"packageManager": "pnpm"}"#),
        &files(&["yarn.lock", "package-lock.json"]),
    );
    let names: Vec<&str> = found.iter().map(|i| i.name).collect();
    assert_eq!(names, vec!["pnpm"]);
    assert!(detect_package_managers(None, &files(&[])).is_empty());
}

#[test]
fn config_write_needs_manifest() {
    let yarn = get_package_manager_info_by_name("yarn").unwrap();
    assert_eq!(
        write_package_manager_to_package_json(None, &yarn, None),
        Err(ManifestError::NotFound)
    );
    assert_eq!(
        write_package_manager_to_package_json(Some("not json"), &yarn, None),
        Err(ManifestError::Parse)
    );
    let content =
        write_package_manager_to_package_json(Some(r#"{"name": "x"}"#), &yarn, Some("1.22.19"))
            .unwrap();
    assert!(content.contains("\"packageManager\": \"yarn@1.22.19\""));
    assert!(content.contains("\"name\": \"x\""));
}

#[test]
fn resolve_single_yarn_lock_without_prompt() {
    let detected = detect_package_managers(None, &files(&["yarn.lock"]));
    match resolve_package_manager(&detected) {
        Resolution::Resolved(info) => assert_eq!(info.name, "yarn"),
        other => panic!("expected a resolved manager, got {:?}", other),
    }
}

#[test]
fn resolve_none_or_several_prompts() {
    let none = detect_package_managers(None, &files(&[]));
    assert!(matches!(resolve_package_manager(&none), Resolution::Undetermined));
    let several = detect_package_managers(None, &files(&["pnpm-lock.yaml", "package-lock.json"]));
    match resolve_package_manager(&several) {
        Resolution::Ambiguous(names) => assert_eq!(names, vec!["npm", "pnpm"]),
        other => panic!("expected an ambiguous detection, got {:?}", other),
    }
}
