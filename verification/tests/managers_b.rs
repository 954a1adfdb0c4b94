use emplace::package_manager::{PackageManager, Nix, Npm, Pacman, Paru, Pip, Pip3, Pkg, Rua, Rustup, Scoop, Snap, Yay, Zypper, Apt};

fn check(manager: PackageManager, line: &str, expected: &[&str]) {
    let packages = manager.catch(line);
    let names: Vec<&str> = packages.iter().map(|p| p.name()).collect();
    assert_eq!(names, expected, "packages caught from {:?}", line);
}

fn check_flags(manager: PackageManager, line: &str, expected: &[&str], flags: &[&str]) {
    let packages = manager.catch(line);
    let names: Vec<&str> = packages.iter().map(|p| p.name()).collect();
    assert_eq!(names, expected, "packages caught from {:?}", line);
    for p in packages.iter() {
        let got: Vec<&str> = p.flags().iter().map(|f| f.as_str()).collect();
        assert_eq!(got, flags, "flags caught from {:?}", line);
    }
}

#[test]
fn nix_test_package_manager() {
    let manager = PackageManager::single_from_line("nix-env -iA nixos.test").unwrap();
    assert_eq!(manager, PackageManager::from(Nix));
}

#[test]
fn nix_test_catch() {
    check(PackageManager::from(Nix), "nix-env -i nixos.test", &["nixos.test"]);
    check(PackageManager::from(Nix), "nix-env -iA nixos.test", &["nixos.test"]);
    check(PackageManager::from(Nix), "nix-env --install nixos.test", &["nixos.test"]);
    check(PackageManager::from(Nix), "nix-env -iA nixpkgs.test", &["nixpkgs.test"]);
    check_flags(PackageManager::from(Nix), "sudo nix-env -f 'stable-2.0' -iA nixos.test", &["nixos.test"], &["-f 'stable-2.0'"]);
    check(PackageManager::from(Nix), "sudo nix-env -q test", &[]);
}

#[test]
fn npm_test_package_manager() {
    let manager = PackageManager::single_from_line("npm install test").unwrap();
    assert_eq!(manager, PackageManager::from(Npm));
}

#[test]
fn npm_test_catch() {
    check(PackageManager::from(Npm), "npm install -g test", &["test"]);
    check(PackageManager::from(Npm), "npm --global install test", &["test"]);
}

#[test]
fn pacman_test_package_manager() {
    let manager = PackageManager::single_from_line("pacman -S test").unwrap();
    assert_eq!(manager, PackageManager::from(Pacman));
}

#[test]
fn pacman_test_catch() {
    check(PackageManager::from(Pacman), "sudo pacman -S test", &["test"]);
    check(PackageManager::from(Pacman), "pacman -S test", &["test"]);
    check(PackageManager::from(Pacman), "sudo pacman -S lib32gfortran5-x32-cross", &["lib32gfortran5-x32-cross"]);
    check(PackageManager::from(Pacman), "sudo pacman -S linux-perf-5.3", &["linux-perf-5.3"]);
    check(PackageManager::from(Pacman), "sudo pacman -S test test2", &["test", "test2"]);
    check(PackageManager::from(Pacman), "sudo pacman test test2", &[]);
}

#[test]
fn paru_test_package_manager() {
    let manager = PackageManager::single_from_line("paru -S test").unwrap();
    assert_eq!(manager, PackageManager::from(Paru));
}

#[test]
fn paru_test_catch() {
    check(PackageManager::from(Paru), "sudo paru -S test", &["test"]);
    check(PackageManager::from(Paru), "paru -S test", &["test"]);
    check(PackageManager::from(Paru), "sudo paru -S lib32gfortran5-x32-cross", &["lib32gfortran5-x32-cross"]);
    check(PackageManager::from(Paru), "sudo paru -S linux-perf-5.3", &["linux-perf-5.3"]);
    check(PackageManager::from(Paru), "sudo paru -S test test2", &["test", "test2"]);
    check(PackageManager::from(Paru), "sudo paru test test2", &[]);
}

#[test]
fn pip_test_package_manager() {
    let manager = PackageManager::single_from_line("pip install test").unwrap();
    assert_eq!(manager, PackageManager::from(Pip));
}

#[test]
fn pip_test_catch() {
    check(PackageManager::from(Pip), "sudo pip install test", &["test"]);
    check(PackageManager::from(Pip), "pip install test", &["test"]);
    check_flags(PackageManager::from(Pip), "pip install --user test", &["test"], &["--user"]);
    check(PackageManager::from(Pip), "sudo pip3 install test test2", &[]);
    check(PackageManager::from(Pip), "sudo pip test test2", &[]);
    check(PackageManager::from(Pip), "pip install -r requirements.txt", &[]);
}

#[test]
fn pip3_test_package_manager() {
    let manager = PackageManager::single_from_line("pip3 install test").unwrap();
    assert_eq!(manager, PackageManager::from(Pip3));
}

#[test]
fn pip3_test_catch() {
    check(PackageManager::from(Pip3), "sudo pip3 install test", &["test"]);
    check(PackageManager::from(Pip3), "pip3 install test", &["test"]);
    check_flags(PackageManager::from(Pip3), "pip3 install --user test", &["test"], &["--user"]);
    check(PackageManager::from(Pip3), "sudo pip install test test2", &[]);
    check(PackageManager::from(Pip3), "sudo pip3 test test2", &[]);
    check(PackageManager::from(Pip3), "pip3 install -r requirements.txt", &[]);
}

#[test]
fn pkg_test_package_manager() {
    let manager = PackageManager::single_from_line("pkg install test").unwrap();
    assert_eq!(manager, PackageManager::from(Pkg));
    assert!(PackageManager::single_from_line("qpkg install test").is_none());
}

#[test]
fn pkg_test_catch() {
    check(PackageManager::from(Pkg), "pkg install test", &["test"]);
}

#[test]
fn rua_test_package_manager() {
    let manager = PackageManager::single_from_line("rua install test").unwrap();
    assert_eq!(manager, PackageManager::from(Rua));
}

#[test]
fn rua_test_catch() {
    check(PackageManager::from(Rua), "rua install test", &["test"]);
    check(PackageManager::from(Rua), "rua install lib32gfortran5-x32-cross", &["lib32gfortran5-x32-cross"]);
    check(PackageManager::from(Rua), "rua install linux-perf-5.3", &["linux-perf-5.3"]);
    check(PackageManager::from(Rua), "rua install test test2", &["test", "test2"]);
    check(PackageManager::from(Rua), "rua test test2", &[]);
}

#[test]
fn rustup_test_package_manager() {
    let manager = PackageManager::single_from_line("rustup component add test").unwrap();
    assert_eq!(manager, PackageManager::from(Rustup));
}

#[test]
fn rustup_test_catch() {
    check(PackageManager::from(Rustup), "rustup component add test", &["test"]);
    check(PackageManager::from(Rustup), "rustup component add test test2", &["test", "test2"]);
}

#[test]
fn scoop_test_package_manager() {
    let manager = PackageManager::single_from_line("scoop install test").unwrap();
    assert_eq!(manager, PackageManager::from(Scoop));
}

#[test]
fn scoop_test_catch() {
    check(PackageManager::from(Scoop), "scoop install test", &["test"]);
    check(PackageManager::from(Scoop), "scoop install test test2", &["test", "test2"]);
    check(PackageManager::from(Scoop), "scoop test test2", &[]);
}

#[test]
fn snap_test_package_manager() {
    let manager = PackageManager::single_from_line("snap install test").unwrap();
    assert_eq!(manager, PackageManager::from(Snap));
}

#[test]
fn snap_test_catch() {
    check(PackageManager::from(Snap), "sudo snap install test", &["test"]);
    check(PackageManager::from(Snap), "snap install test", &["test"]);
    check(PackageManager::from(Snap), "sudo snap install lib32gfortran5-x32-cross", &["lib32gfortran5-x32-cross"]);
    check(PackageManager::from(Snap), "sudo snap install linux-perf-5.3", &["linux-perf-5.3"]);
    check(PackageManager::from(Snap), "sudo snap install test test2", &["test", "test2"]);
    check(PackageManager::from(Snap), "sudo snap test test2", &[]);
}

#[test]
fn yay_test_package_manager() {
    let manager = PackageManager::single_from_line("yay -S test").unwrap();
    assert_eq!(manager, PackageManager::from(Yay));
}

#[test]
fn yay_test_catch() {
    check(PackageManager::from(Yay), "sudo yay -S test", &["test"]);
    check(PackageManager::from(Yay), "yay -S test", &["test"]);
    check(PackageManager::from(Yay), "sudo yay -S lib32gfortran5-x32-cross", &["lib32gfortran5-x32-cross"]);
    check(PackageManager::from(Yay), "sudo yay -S linux-perf-5.3", &["linux-perf-5.3"]);
    check(PackageManager::from(Yay), "sudo yay -S test test2", &["test", "test2"]);
    check(PackageManager::from(Yay), "sudo yay test test2", &[]);
}

#[test]
fn zypper_test_package_manager() {
    let manager = PackageManager::single_from_line("zypper install test").unwrap();
    assert_eq!(manager, PackageManager::from(Zypper));
}

#[test]
fn zypper_test_catch() {
    check(PackageManager::from(Zypper), "sudo zypper install test", &["test"]);
    check(PackageManager::from(Zypper), "zypper install test", &["test"]);
    check(PackageManager::from(Zypper), "sudo zypper install libgfortran5-32bit", &["libgfortran5-32bit"]);
    check(PackageManager::from(Zypper), "sudo zypper install perf", &["perf"]);
    check(PackageManager::from(Zypper), "sudo zypper install test test2", &["test", "test2"]);
    check(PackageManager::from(Zypper), "sudo zypper test test2", &[]);
    check(PackageManager::from(Zypper), "sudo zypper install -f", &[]);
}

#[test]
fn test_empty() {
    check(PackageManager::from(Apt), "no match", &[]);
}
