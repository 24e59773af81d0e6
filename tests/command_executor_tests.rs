use np::command_executor::{command_outcome, manager_to_bin};
use np::package_detector::PackageManager;

#[test]
fn package_manager_binaries() {
    assert_eq!(PackageManager::Npm.as_str(), "npm");
    assert_eq!(PackageManager::Yarn.as_str(), "yarn");
    assert_eq!(PackageManager::Pnpm.as_str(), "pnpm");
}

#[test]
fn manager_binaries_by_kind() {
    assert_eq!(manager_to_bin(PackageManager::Npm), "npm");
    assert_eq!(manager_to_bin(PackageManager::Yarn), "yarn");
    assert_eq!(manager_to_bin(PackageManager::Pnpm), "pnpm");
}

#[test]
fn forwarded_command_outcomes() {
    assert_eq!(command_outcome(true, Some(0)), Ok(()));
    assert_eq!(command_outcome(false, Some(2)), Err(2));
    assert_eq!(command_outcome(false, None), Err(-1));
}
