use emplace::config::{Config, RepoConfig};
use emplace::migrate::{migrate_package, OldPackageManager};
use emplace::package::{Package, Packages};
use emplace::package_manager::{
    CaptureFlag, PackageInstalledMethod, PackageManager, PackageManagerTrait,
};
use emplace::Os;

fn names_of(packages: &[Package]) -> Vec<&str> {
    packages.iter().map(|p| p.name()).collect()
}

fn pkg(source: PackageManager, name: &str, flags: &[&str]) -> Package {
    Package::new(
        source,
        name.to_string(),
        flags.iter().map(|f| f.to_string()).collect(),
    )
}

#[test]
fn set_value_flag_captured_on_exact_match() {
    let packages = PackageManager::Apt.catch("apt install -t experimental test");
    assert_eq!(names_of(&packages), ["test"]);
    let flags: Vec<&str> = packages[0].flags().iter().map(|f| f.as_str()).collect();
    assert_eq!(flags, ["-t experimental"]);
}

#[test]
fn set_value_flag_mismatch_falls_through() {
    // The expected value does not match, so the flag is not captured and the
    // unmatched value token is read again, becoming a spurious package name.
    let packages = PackageManager::Apt.catch("apt install -t stable test");
    assert_eq!(names_of(&packages), ["stable", "test"]);
    assert!(packages[0].flags().is_empty());
    assert!(packages[1].flags().is_empty());
}

#[test]
fn multiple_packages_share_flags() {
    let packages = PackageManager::Apt.catch("apt install test test2");
    assert_eq!(names_of(&packages), ["test", "test2"]);
    assert!(packages[0].flags().is_empty());
    assert!(packages[1].flags().is_empty());

    let packages = PackageManager::Cargo.catch("cargo install +nightly test test2");
    assert_eq!(names_of(&packages), ["test", "test2"]);
    let flags: Vec<&str> = packages[1].flags().iter().map(|f| f.as_str()).collect();
    assert_eq!(flags, ["+nightly"]);
}

#[test]
fn scenario_apt_get_with_flag() {
    let packages = Packages::from_line("sudo apt-get install -qq test").into_vec();
    assert_eq!(packages.len(), 1);
    assert_eq!(packages[0].name(), "test");
    assert_eq!(packages[0].source(), PackageManager::Apt);
    assert!(packages[0].flags().is_empty());
}

#[test]
fn scenario_cargo_git_url() {
    let packages = PackageManager::Cargo.catch("cargo install --git https://example.com/x.git");
    assert_eq!(names_of(&packages), ["https://example.com/x.git"]);
    let flags: Vec<&str> = packages[0].flags().iter().map(|f| f.as_str()).collect();
    assert_eq!(flags, ["--git"]);
}

#[test]
fn scenario_pip_user() {
    let packages = PackageManager::Pip.catch("pip install --user test");
    assert_eq!(names_of(&packages), ["test"]);
    let flags: Vec<&str> = packages[0].flags().iter().map(|f| f.as_str()).collect();
    assert_eq!(flags, ["--user"]);
}

#[test]
fn scenario_cargo_path_invalidates() {
    let packages = PackageManager::Cargo.catch("cargo install --path .");
    assert!(packages.is_empty());
}

#[test]
fn scenario_unrelated_line() {
    assert!(!PackageManager::detects_line("echo hello world"));
    assert!(Packages::from_line("echo hello world").is_empty());
    for manager in emplace::package_manager::all_managers() {
        assert!(manager.catch("echo hello world").is_empty());
    }
}

#[test]
fn multi_manager_line() {
    let packages = Packages::from_line("apt install x && npm install -g y").into_vec();
    let names: Vec<&str> = packages.iter().map(|p| p.name()).collect();
    assert_eq!(names, ["x", "y"]);
    assert_eq!(packages[0].source(), PackageManager::Apt);
    assert_eq!(packages[1].source(), PackageManager::Npm);
}

#[test]
fn version_pins_and_urls_are_single_tokens() {
    let packages = PackageManager::CargoBinstall.catch("cargo binstall test@1.2.3");
    assert_eq!(names_of(&packages), ["test@1.2.3"]);
}

#[test]
fn unicode_package_names() {
    // A name may start with any Unicode letter or number.
    let packages = PackageManager::Apt.catch("apt install p\u{e5}kke");
    assert_eq!(names_of(&packages), ["p\u{e5}kke"]);
    let packages = PackageManager::Apt.catch("apt install \u{e5}pkg");
    assert_eq!(names_of(&packages), ["\u{e5}pkg"]);
    // A token that starts with punctuation is ignored.
    let packages = PackageManager::Apt.catch("apt install \u{bf}que");
    assert!(packages.is_empty());
}

#[test]
fn empty_and_whitespace_lines() {
    assert!(Packages::from_line("").is_empty());
    assert!(Packages::from_line("   \t  ").is_empty());
    assert!(PackageManager::Apt.catch("apt install").is_empty());
    assert!(PackageManager::Apt.catch("apt install ").is_empty());
}

#[test]
fn merge_sorts_and_deduplicates() {
    let mut a = Packages::from_vec(vec![
        pkg(PackageManager::Apt, "b", &[]),
        pkg(PackageManager::Apt, "a", &[]),
        pkg(PackageManager::Apt, "b", &[]),
    ]);
    let mut b = Packages::from_vec(vec![pkg(PackageManager::Apt, "a", &[])]);
    a.merge(&mut b);
    assert_eq!(b.len(), 0);
    let merged = a.into_vec();
    assert_eq!(names_of(&merged), ["a", "b"]);
}

#[test]
fn merge_empty_is_identity() {
    let mut a = Packages::from_vec(vec![
        pkg(PackageManager::Apt, "a", &[]),
        pkg(PackageManager::Apt, "b", &[]),
    ]);
    let mut empty = Packages::empty();
    a.merge(&mut empty);
    let merged = a.into_vec();
    assert_eq!(names_of(&merged), ["a", "b"]);
}

#[test]
fn merge_self_union_keeps_cardinality() {
    let mut a = Packages::from_vec(vec![
        pkg(PackageManager::Apt, "a", &[]),
        pkg(PackageManager::Apt, "b", &[]),
    ]);
    let mut copy = Packages::from_vec(vec![
        pkg(PackageManager::Apt, "a", &[]),
        pkg(PackageManager::Apt, "b", &[]),
    ]);
    a.merge(&mut copy);
    assert_eq!(a.len(), 2);
}

#[test]
fn merge_keeps_equal_keys_from_different_sources() {
    // Packages from different managers with the same full command are
    // different packages, and both survive a merge.
    let mut a = Packages::from_vec(vec![
        pkg(PackageManager::Pip, "x", &[]),
        pkg(PackageManager::Pip3, "x", &[]),
    ]);
    let mut empty = Packages::empty();
    a.merge(&mut empty);
    assert_eq!(a.len(), 2);
}

#[test]
fn filter_saved_removes_known_packages() {
    let saved = Packages::from_vec(vec![
        pkg(PackageManager::Apt, "a", &[]),
        pkg(PackageManager::Pip, "b", &["--user"]),
    ]);
    let mut fresh = Packages::from_vec(vec![
        pkg(PackageManager::Apt, "a", &[]),
        pkg(PackageManager::Pip, "b", &[]),
        pkg(PackageManager::Apt, "c", &[]),
    ]);
    fresh.filter_saved_packages(&saved);
    let rest = fresh.into_vec();
    assert_eq!(names_of(&rest), ["b", "c"]);
}

#[test]
fn dedup_removes_adjacent_duplicates() {
    let mut a = Packages::from_vec(vec![
        pkg(PackageManager::Apt, "a", &[]),
        pkg(PackageManager::Apt, "a", &[]),
        pkg(PackageManager::Apt, "b", &[]),
    ]);
    a.dedup();
    let rest = a.into_vec();
    assert_eq!(names_of(&rest), ["a", "b"]);
}

#[test]
fn commit_message_names_one_package() {
    let packages = Packages::from_vec(vec![pkg(PackageManager::Pip, "test", &["--user"])]);
    assert_eq!(
        packages.commit_message(),
        "Emplace - mirror package \"--user test\""
    );
}

#[test]
fn commit_message_counts_many_packages() {
    let mut v = Vec::new();
    for i in 0..12 {
        v.push(pkg(PackageManager::Apt, &format!("p{}", i), &[]));
    }
    let packages = Packages::from_vec(v);
    assert_eq!(packages.commit_message(), "Emplace - mirror 12 packages");
}

#[test]
fn full_command_joins_flags_and_name() {
    let p = pkg(PackageManager::Apt, "test", &["-t experimental"]);
    assert_eq!(p.full_command(), "-t experimental test");
    let p = pkg(PackageManager::Apt, "test", &[]);
    assert_eq!(p.full_command(), "test");
}

#[test]
fn install_command_prefixes_root() {
    let p = pkg(PackageManager::Apt, "test", &[]);
    assert_eq!(p.install_command(), "sudo apt-get install -y test");
    // Windows has no root-elevation prefix command.
    assert_eq!(p.install_command_on(Os::Windows), "apt-get install -y test");
    assert_eq!(p.install_command_on(Os::Posix), "sudo apt-get install -y test");
    let p = pkg(
        PackageManager::Cargo,
        "https://example.com/x.git",
        &["--git"],
    );
    assert_eq!(
        p.install_command(),
        "cargo install --quiet --git https://example.com/x.git"
    );
}

#[test]
fn installed_check_script() {
    match PackageManager::Apt.is_installed("test", Os::Posix) {
        PackageInstalledMethod::Script(s) => assert_eq!(s, "dpkg -s test"),
        PackageInstalledMethod::Path(_) => panic!("expected a script check"),
    }
    match PackageManager::Guix.is_installed("emplace", Os::Posix) {
        PackageInstalledMethod::Script(s) => {
            assert_eq!(s, "guix --list-installed=\"^emplace$\"")
        }
        PackageInstalledMethod::Path(_) => panic!("expected a script check"),
    }
}

#[test]
fn installed_check_script_per_os() {
    match PackageManager::Cargo.is_installed("test", Os::Posix) {
        PackageInstalledMethod::Script(s) => {
            assert_eq!(s, "cargo install --list | grep 'v[0-9]' | grep -q test")
        }
        PackageInstalledMethod::Path(_) => panic!("expected a script check"),
    }
    match PackageManager::Cargo.is_installed("test", Os::Windows) {
        PackageInstalledMethod::Script(s) => {
            assert_eq!(s, "cargo install --list | findstr test")
        }
        PackageInstalledMethod::Path(_) => panic!("expected a script check"),
    }
    match PackageManager::Rustup.is_installed("clippy", Os::Windows) {
        PackageInstalledMethod::Script(s) => {
            assert_eq!(s, "rustup component list | findstr clippy")
        }
        PackageInstalledMethod::Path(_) => panic!("expected a script check"),
    }
}

#[test]
fn capture_flag_word() {
    assert_eq!(CaptureFlag::Single("--git").flag(), "--git");
    assert_eq!(CaptureFlag::SetValue("-t", "experimental").flag(), "-t");
    assert_eq!(CaptureFlag::DynamicValue("--branch").flag(), "--branch");
}

#[test]
fn descriptor_basics() {
    assert_eq!(PackageManager::Apt.full_name(), "Advance Package Tool");
    assert!(PackageManager::Apt.needs_root());
    assert!(!PackageManager::Cargo.needs_root());
    assert_eq!(PackageManager::Cargo.install_command(), "cargo install --quiet");
    assert_eq!(PackageManager::Apt.commands(), ["apt", "apt-get"]);
    assert_eq!(PackageManager::Zypper.sub_commands(), ["install", "in", "inr"]);
}

#[test]
fn windows_command_variants() {
    let packages = PackageManager::Scoop.catch_on("scoop.exe install test", Os::Windows);
    assert_eq!(names_of(&packages), ["test"]);
    assert!(PackageManager::Scoop.catch("scoop.exe install test").is_empty());
    let cmds = PackageManager::Scoop.os_commands(Os::Windows);
    assert_eq!(cmds, ["scoop", "scoop.exe", "scoop.cmd"]);
}

#[test]
fn zypper_short_sub_commands() {
    let packages = PackageManager::Zypper.catch("zin in test");
    assert_eq!(names_of(&packages), ["test"]);
    let packages = PackageManager::Zypper.catch("zypper inr test");
    assert_eq!(names_of(&packages), ["test"]);
}

#[test]
fn migrate_old_records() {
    let p = migrate_package(OldPackageManager::PipUser, "x".to_string());
    assert_eq!(p.name(), "x");
    assert_eq!(p.source(), PackageManager::Pip);
    let flags: Vec<&str> = p.flags().iter().map(|f| f.as_str()).collect();
    assert_eq!(flags, ["--user"]);

    let p = migrate_package(OldPackageManager::RustupComponent, "clippy".to_string());
    assert_eq!(p.source(), PackageManager::Rustup);
    assert_eq!(p.name(), "clippy");
    assert!(p.flags().is_empty());

    let p = migrate_package(
        OldPackageManager::Cargo,
        "--git https://example.com/x.git".to_string(),
    );
    assert_eq!(p.name(), "https://example.com/x.git");
    let flags: Vec<&str> = p.flags().iter().map(|f| f.as_str()).collect();
    assert_eq!(flags, ["--git"]);
}

#[test]
fn config_paths() {
    let repo = RepoConfig::new("https://example.com/mirror.git".to_string());
    assert_eq!(repo.path(), ".emplace");
    let config = Config::new("/home/user/mirror".to_string(), repo);
    assert_eq!(config.full_file_path(), "/home/user/mirror/.emplace");

    let mut repo = RepoConfig::new("u".to_string());
    repo.file = "/absolute/.emplace".to_string();
    let config = Config::new("/home/user/mirror".to_string(), repo);
    assert_eq!(config.full_file_path(), "/absolute/.emplace");

    let repo = RepoConfig::new("u".to_string());
    let config = Config::new("/trailing/".to_string(), repo);
    assert_eq!(config.full_file_path(), "/trailing/.emplace");
}

#[test]
fn color_full_name_mentions_nothing_without_flags() {
    // With colouring force-disabled through the environment this would be
    // plain text; here only the shape is exercised.
    let p = pkg(PackageManager::Apt, "test", &[]);
    let shown = p.color_full_name();
    assert!(shown.contains("("));
    assert!(shown.contains(")"));
}

#[test]
fn statement_separators_split_the_line() {
    let packages = Packages::from_line("sudo apt install x; pip install --user y").into_vec();
    let names: Vec<&str> = packages.iter().map(|p| p.name()).collect();
    assert_eq!(names, ["x", "y"]);
    assert_eq!(packages[1].source(), PackageManager::Pip);

    let packages = Packages::from_line("echo a | apt install z").into_vec();
    assert_eq!(packages.len(), 1);
    assert_eq!(packages[0].name(), "z");
}

#[test]
fn whole_token_matching_via_from_line() {
    assert!(!PackageManager::detects_line("bapt install x"));
    assert!(Packages::from_line("bapt install x").is_empty());
    assert!(Packages::from_line("aptitude install x").is_empty());
}

#[test]
fn dedup_keeps_non_adjacent_duplicates() {
    // Deduplication removes adjacent runs only; merging sorts first.
    let mut a = Packages::from_vec(vec![
        pkg(PackageManager::Apt, "a", &[]),
        pkg(PackageManager::Apt, "b", &[]),
        pkg(PackageManager::Apt, "a", &[]),
    ]);
    a.dedup();
    assert_eq!(a.len(), 3);
}

#[test]
fn commit_message_counts_two_packages() {
    let packages = Packages::from_vec(vec![
        pkg(PackageManager::Apt, "a", &[]),
        pkg(PackageManager::Apt, "b", &[]),
    ]);
    assert_eq!(packages.commit_message(), "Emplace - mirror 2 packages");
}

#[test]
fn known_value_flag_consumes_its_argument() {
    // The argument of a known flag would otherwise look like a package name.
    let packages = PackageManager::Apt.catch("apt install -o option test");
    let names: Vec<&str> = packages.iter().map(|p| p.name()).collect();
    assert_eq!(names, ["test"]);
    // An unknown flag is dropped but its argument is kept.
    let packages = PackageManager::Apt.catch("apt install -z value test");
    let names: Vec<&str> = packages.iter().map(|p| p.name()).collect();
    assert_eq!(names, ["value", "test"]);
}

#[test]
fn dynamic_value_flag_takes_any_token() {
    let packages = PackageManager::Rustup.catch("rustup component add --toolchain nightly rls");
    let names: Vec<&str> = packages.iter().map(|p| p.name()).collect();
    assert_eq!(names, ["rls"]);
    let flags: Vec<&str> = packages[0].flags().iter().map(|f| f.as_str()).collect();
    assert_eq!(flags, ["--toolchain nightly"]);
}

#[test]
fn filter_lines_orders_and_merges_lines() {
    let lines = vec![
        "cargo   install b".to_string(),
        "cargo install a".to_string(),
        "cargo install b".to_string(),
    ];
    let packages = emplace::history::filter_lines(&lines);
    // Lines are whitespace-normalized and deduplicated, then parsed in
    // sorted order.
    let names: Vec<&str> = packages.iter().map(|p| p.name()).collect();
    assert_eq!(names, ["a", "b"]);
}

#[test]
fn history_lines_normalize_unicode_whitespace() {
    // A no-break space splits tokens during history normalization, as any
    // other Unicode white space does.
    let lines = vec!["sudo apt install a\u{00A0}b".to_string()];
    let packages = emplace::history::filter_lines(&lines);
    let names: Vec<&str> = packages.iter().map(|p| p.name()).collect();
    assert_eq!(names, ["a", "b"]);
}
