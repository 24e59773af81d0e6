use np::manifest::ManifestError;
use np::package_detector::PackageManager;
use np::script_handler::{
    package_manager_value, read_package_manager_from_package_json, version_flags,
    version_from_output, write_package_manager_to_package_json,
};

fn written(manifest: &str, manager: PackageManager) -> String {
    write_package_manager_to_package_json(Some(manifest), manager, None)
        .unwrap()
        .unwrap()
}

#[test]
fn read_package_manager_npm() {
    assert_eq!(
        read_package_manager_from_package_json(Some(r#"{"packageManager": "npm@10.0.0"}"#)),
        Some(PackageManager::Npm)
    );
}

#[test]
fn read_package_manager_yarn() {
    assert_eq!(
        read_package_manager_from_package_json(Some(r#"{"packageManager": "yarn@1.22.19"}"#)),
        Some(PackageManager::Yarn)
    );
}

#[test]
fn read_package_manager_pnpm() {
    assert_eq!(
        read_package_manager_from_package_json(Some(r#"{"packageManager": "pnpm@9.9.0"}"#)),
        Some(PackageManager::Pnpm)
    );
}

#[test]
fn read_package_manager_without_version() {
    assert_eq!(
        read_package_manager_from_package_json(Some(r#"{"packageManager": "npm"}"#)),
        Some(PackageManager::Npm)
    );
}

#[test]
fn read_package_manager_no_field() {
    assert_eq!(read_package_manager_from_package_json(Some(r#"{"name": "test"}"#)), None);
}

#[test]
fn read_package_manager_no_package_json() {
    assert_eq!(read_package_manager_from_package_json(None), None);
}

#[test]
fn read_package_manager_invalid_json() {
    assert_eq!(read_package_manager_from_package_json(Some(r#"{"invalid json"#)), None);
}

#[test]
fn read_package_manager_unknown_manager() {
    assert_eq!(
        read_package_manager_from_package_json(Some(r#"{"packageManager": "bun@1.0.0"}"#)),
        None
    );
}

#[test]
fn write_package_manager_npm() {
    let content = written(r#"{"name": "test"}"#, PackageManager::Npm);
    assert!(content.contains("packageManager"));
    assert!(content.contains("npm"));
}

#[test]
fn write_package_manager_yarn() {
    let content = written(r#"{"name": "test"}"#, PackageManager::Yarn);
    assert!(content.contains("packageManager"));
    assert!(content.contains("yarn"));
}

#[test]
fn write_package_manager_pnpm() {
    let content = written(r#"{"name": "test"}"#, PackageManager::Pnpm);
    assert!(content.contains("packageManager"));
    assert!(content.contains("pnpm"));
}

#[test]
fn write_package_manager_overwrites_existing() {
    let content = written(r#"{"packageManager": "npm@10.0.0"}"#, PackageManager::Yarn);
    assert!(content.contains("yarn"));
    assert!(!content.contains("npm"));
}

#[test]
fn write_package_manager_preserves_other_fields() {
    let content = written(r#"{"name": "test", "version": "1.0.0"}"#, PackageManager::Npm);
    assert!(content.contains("name"));
    assert!(content.contains("test"));
    assert!(content.contains("version"));
    assert!(content.contains("1.0.0"));
    assert!(content.contains("packageManager"));
}

#[test]
fn write_package_manager_no_package_json() {
    let result = write_package_manager_to_package_json(None, PackageManager::Npm, None);
    assert!(result.is_ok());
    assert!(result.unwrap().is_none());
}

#[test]
fn write_package_manager_maintains_json_structure() {
    let content = written(
        r#"{
  "name": "test",
  "version": "1.0.0",
  "dependencies": {
    "axios": "^1.0.0"
  }
}"#,
        PackageManager::Pnpm,
    );
    let _: serde_json::Value = serde_json::from_str(&content).unwrap();
    assert!(content.contains("packageManager"));
    assert!(content.contains("pnpm"));
}

#[test]
fn write_keeps_every_member_value() {
    let original = r#"{"name": "x", "version": "2.1.0", "scripts": {"build": "tsc"}, "private": true, "n": [1, 2]}"#;
    let content = written(original, PackageManager::Yarn);
    let before: serde_json::Value = serde_json::from_str(original).unwrap();
    let after: serde_json::Value = serde_json::from_str(&content).unwrap();
    for key in ["name", "version", "scripts", "private", "n"] {
        assert_eq!(before.get(key), after.get(key));
    }
    assert_eq!(after.get("packageManager").and_then(|v| v.as_str()), Some("yarn"));
    assert_eq!(after.as_object().unwrap().len(), 6);
}

#[test]
fn write_pnpm_choice_next_to_name() {
    let content = written(r#"{"name":"x"}"#, PackageManager::Pnpm);
    let after: serde_json::Value = serde_json::from_str(&content).unwrap();
    assert_eq!(after.get("packageManager").and_then(|v| v.as_str()), Some("pnpm"));
    assert_eq!(after.get("name").and_then(|v| v.as_str()), Some("x"));
    assert!(content.contains("\"packageManager\": \"pnpm\""));
    assert!(content.contains("\"name\": \"x\""));
}

#[test]
fn write_with_version_then_read_back() {
    let content = write_package_manager_to_package_json(
        Some(r#"{"name":"x"}"#),
        PackageManager::Pnpm,
        Some("9.9.0"),
    )
    .unwrap()
    .unwrap();
    assert!(content.contains("\"packageManager\": \"pnpm@9.9.0\""));
    assert_eq!(
        read_package_manager_from_package_json(Some(&content)),
        Some(PackageManager::Pnpm)
    );
}

#[test]
fn write_invalid_manifest_is_parse_error() {
    assert_eq!(
        write_package_manager_to_package_json(Some(r#"{"invalid json"#), PackageManager::Npm, None),
        Err(ManifestError::Parse)
    );
    assert_eq!(
        write_package_manager_to_package_json(Some("[1, 2]"), PackageManager::Npm, None),
        Err(ManifestError::Parse)
    );
}

#[test]
fn declaration_values() {
    assert_eq!(package_manager_value(PackageManager::Yarn, None), "yarn");
    assert_eq!(package_manager_value(PackageManager::Yarn, Some("3.6.4")), "yarn@3.6.4");
}

#[test]
fn version_probe_output() {
    assert_eq!(version_from_output(true, "  10.2.4\n"), Some("10.2.4".to_string()));
    assert_eq!(version_from_output(true, " \n\t"), None);
    assert_eq!(version_from_output(true, ""), None);
    assert_eq!(version_from_output(false, "10.2.4"), None);
    assert_eq!(version_flags(), vec!["--version", "-v"]);
}
