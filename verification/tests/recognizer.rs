use emplace::package_manager::PackageManager;
use emplace::Os;

#[test]
fn test_detect() {
    assert!(PackageManager::detects_line("apt install test"));
    assert!(!PackageManager::detects_line("something"));

    assert!(PackageManager::detects_line("echo test\napt install test"));
    assert!(PackageManager::detects_line("apt install test\n\tapt install test"));
    assert!(PackageManager::detects_line("\n\tapt install test"));
}

#[test]
fn test_detect_windows() {
    assert!(PackageManager::single_from_line_on("scoop.exe -h", Os::Windows).is_some());
    assert!(PackageManager::single_from_line_on("scoop.cmd -h", Os::Windows).is_some());
}

#[test]
fn test_detect_windows_not_posix() {
    // The suffixed executable names only match under the Windows conventions.
    assert!(!PackageManager::detects_line("scoop.exe -h"));
    assert!(PackageManager::single_from_line_on("scoop install test", Os::Windows).is_some());
}
