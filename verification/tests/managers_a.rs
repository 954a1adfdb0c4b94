use emplace::package_manager::{PackageManager, Apt, Brew, Cargo, CargoBinstall, Chocolatey, Dnf, Gem, Go, Guix};

fn check(manager: PackageManager, line: &str, expected: &[&str]) {
    let packages = manager.catch(line);
    let names: Vec<&str> = packages.iter().map(|p| p.name()).collect();
    assert_eq!(names, expected, "packages caught from {:?}", line);
}

fn check_flags(manager: PackageManager, line: &str, expected: &[&str], flags: &[&str]) {
    let packages = manager.catch(line);
    let names: Vec<&str> = packages.iter().map(|p| p.name()).collect();
    assert_eq!(names, expected, "packages caught from {:?}", line);
    for p in packages.iter() {
        let got: Vec<&str> = p.flags().iter().map(|f| f.as_str()).collect();
        assert_eq!(got, flags, "flags caught from {:?}", line);
    }
}

#[test]
fn apt_test_package_manager() {
    let manager = PackageManager::single_from_line("apt install test").unwrap();
    assert_eq!(manager, PackageManager::from(Apt));
}

#[test]
fn apt_test_catch() {
    check(PackageManager::from(Apt), "sudo apt install test", &["test"]);
    check(PackageManager::from(Apt), "apt install test", &["test"]);
    check(PackageManager::from(Apt), "sudo apt-get install test", &["test"]);
    check(PackageManager::from(Apt), "sudo apt install lib32gfortran5-x32-cross", &["lib32gfortran5-x32-cross"]);
    check(PackageManager::from(Apt), "sudo apt install linux-perf-5.3", &["linux-perf-5.3"]);
    check(PackageManager::from(Apt), "sudo apt install test test2", &["test", "test2"]);
    check(PackageManager::from(Apt), "sudo apt test test2", &[]);
    check(PackageManager::from(Apt), "sudo apt install -f", &[]);
    check(PackageManager::from(Apt), "sudo bapt install test", &[]);
}

#[test]
fn apt_test_catch_flags() {
    check(PackageManager::from(Apt), "sudo apt -qq install test", &["test"]);
    check(PackageManager::from(Apt), "sudo apt install test -f", &["test"]);
    check(PackageManager::from(Apt), "sudo apt install -c file test", &["test"]);
    check_flags(PackageManager::from(Apt), "sudo apt install -t experimental test", &["test"], &["-t experimental"]);
}

#[test]
fn brew_test_package_manager() {
    let manager = PackageManager::single_from_line("brew install test").unwrap();
    assert_eq!(manager, PackageManager::from(Brew));
}

#[test]
fn brew_test_catch() {
    check(PackageManager::from(Brew), "sudo brew install test", &["test"]);
    check(PackageManager::from(Brew), "brew install test", &["test"]);
    check(PackageManager::from(Brew), "sudo brew install lib32gfortran5-x32-cross", &["lib32gfortran5-x32-cross"]);
    check(PackageManager::from(Brew), "sudo brew install linux-perf-5.3", &["linux-perf-5.3"]);
    check(PackageManager::from(Brew), "sudo brew install test test2", &["test", "test2"]);
    check(PackageManager::from(Brew), "sudo brew test test2", &[]);
}

#[test]
fn cargo_test_package_manager() {
    assert!(PackageManager::from_line_iter("cargo binstall test")
        .into_iter()
        .any(|manager| manager == PackageManager::from(Cargo)));
}

#[test]
fn cargo_test_catch() {
    check(PackageManager::from(Cargo), "cargo install test", &["test"]);
    check(PackageManager::from(Cargo), "cargo install test test2", &["test", "test2"]);
    check(PackageManager::from(Cargo), "cargo install test install test-install", &["test", "install", "test-install"]);
    check(PackageManager::from(Cargo), "cargo uninstall test test2", &[]);
    check(PackageManager::from(Cargo), "cargo install .", &[]);
    check(PackageManager::from(Cargo), "cargo install --path test", &[]);
    check(PackageManager::from(Cargo), "cargo binstall test", &[]);
    check_flags(PackageManager::from(Cargo), "cargo install --git https://test.com/test.git", &["https://test.com/test.git"], &["--git"]);
    check_flags(PackageManager::from(Cargo), "cargo install --git https://test.com/test.git --branch 3.x", &["https://test.com/test.git"], &["--git", "--branch 3.x"]);
    check_flags(PackageManager::from(Cargo), "cargo install +nightly test", &["test"], &["+nightly"]);
}

#[test]
fn cargo_binstall_test_package_manager() {
    assert!(PackageManager::from_line_iter("cargo binstall test")
        .into_iter()
        .any(|manager| manager == PackageManager::from(CargoBinstall)));
}

#[test]
fn cargo_binstall_test_catch() {
    check(PackageManager::from(CargoBinstall), "cargo binstall test", &["test"]);
    check(PackageManager::from(CargoBinstall), "cargo binstall test@1.2.3", &["test@1.2.3"]);
    check(PackageManager::from(CargoBinstall), "cargo binstall test test2", &["test", "test2"]);
    check(PackageManager::from(CargoBinstall), "cargo binstall test install test-install", &["test", "install", "test-install"]);
    check(PackageManager::from(CargoBinstall), "cargo uninstall test test2", &[]);
    check(PackageManager::from(CargoBinstall), "cargo binstall .", &[]);
    check(PackageManager::from(CargoBinstall), "cargo install test", &[]);
    check_flags(PackageManager::from(CargoBinstall), "cargo binstall --git https://test.com/test.git", &["https://test.com/test.git"], &["--git"]);
}

#[test]
fn chocolatey_test_package_manager() {
    let manager = PackageManager::single_from_line("choco install test").unwrap();
    assert_eq!(manager, PackageManager::from(Chocolatey));
}

#[test]
fn chocolatey_test_catch() {
    check(PackageManager::from(Chocolatey), "choco install test", &["test"]);
    check(PackageManager::from(Chocolatey), "choco install test test2", &["test", "test2"]);
    check(PackageManager::from(Chocolatey), "choco test test2", &[]);
}

#[test]
fn dnf_test_package_manager() {
    let manager = PackageManager::single_from_line("dnf install test").unwrap();
    assert_eq!(manager, PackageManager::from(Dnf));
}

#[test]
fn dnf_test_catch() {
    check(PackageManager::from(Dnf), "sudo dnf install test", &["test"]);
    check(PackageManager::from(Dnf), "dnf install test", &["test"]);
    check(PackageManager::from(Dnf), "sudo yum install test", &["test"]);
    check(PackageManager::from(Dnf), "sudo dnf install lib32gfortran5-x32-cross", &["lib32gfortran5-x32-cross"]);
    check(PackageManager::from(Dnf), "sudo dnf install linux-perf-5.3", &["linux-perf-5.3"]);
    check(PackageManager::from(Dnf), "sudo dnf install test test2", &["test", "test2"]);
    check(PackageManager::from(Dnf), "sudo dnf test test2", &[]);
    check(PackageManager::from(Dnf), "sudo dnf install -f", &[]);
}

#[test]
fn gem_test_package_manager() {
    let manager = PackageManager::single_from_line("gem install test").unwrap();
    assert_eq!(manager, PackageManager::from(Gem));
}

#[test]
fn gem_test_catch() {
    check(PackageManager::from(Gem), "gem install test", &["test"]);
}

#[test]
fn gem_test_catch_flags() {
    check_flags(PackageManager::from(Gem), "gem install -i ~/some_dir test", &["test"], &["-i ~/some_dir"]);
}

#[test]
fn go_test_package_manager() {
    let manager = PackageManager::single_from_line("go get test").unwrap();
    assert_eq!(manager, PackageManager::from(Go));
}

#[test]
fn go_test_catch() {
    check(PackageManager::from(Go), "go get test", &["test"]);
}

#[test]
fn guix_test_package_manager() {
    let manager = PackageManager::single_from_line("guix install emplace").unwrap();
    assert_eq!(manager, PackageManager::from(Guix));
}

#[test]
fn guix_test_catch() {
    check(PackageManager::from(Guix), "guix install emplace", &["emplace"]);
    check(PackageManager::from(Guix), "guix install -c 8 emplace", &["emplace"]);
    check(PackageManager::from(Guix), "guix -q test", &[]);
}
