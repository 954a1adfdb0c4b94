//! The Cargo Rust descriptor.

use vstd::prelude::*;
use vstd::string::StringExecFns;
use vstd::string::StrSliceExecFns;
use super::{CaptureFlag, PackageInstalledMethod, PackageManager, PackageManagerTrait};
use crate::Os;
use crate::strutil::str_views;

verus! {

#[derive(Debug, Default, Copy, Clone, Eq, PartialEq, Structural)]
pub struct Cargo;

impl PackageManagerTrait for Cargo {
    open spec fn manager(self) -> PackageManager {
        PackageManager::Cargo
    }

    fn full_name(self) -> (r: &'static str) {
        "Cargo Rust"
    }

    fn commands(self) -> (r: Vec<&'static str>) {
        let r: Vec<&'static str> = vec!["cargo"];
        proof {
            assert(str_views(r@) =~= super::commands_spec(PackageManager::Cargo));
        }
        r
    }

    fn sub_commands(self) -> (r: Vec<&'static str>) {
        let r: Vec<&'static str> = vec!["install"];
        proof {
            assert(str_views(r@) =~= super::sub_commands_spec(PackageManager::Cargo));
        }
        r
    }

    fn install_command(self) -> (r: &'static str) {
        "cargo install --quiet"
    }

    fn needs_root(self) -> (r: bool) {
        false
    }

    fn is_installed(self, package: &str, os: Os) -> (r: PackageInstalledMethod) {
        let mut s = match os {
            Os::Posix => "cargo install --list | grep 'v[0-9]' | grep -q ".to_owned(),
            Os::Windows => "cargo install --list | findstr ".to_owned(),
        };
        s.append(package);
        proof {
            assert(s@ =~= super::installed_script_prefix(PackageManager::Cargo, os) + package@
                + super::installed_script_suffix(PackageManager::Cargo));
        }
        PackageInstalledMethod::Script(s)
    }

    fn known_flags_with_values(self) -> (r: Vec<&'static str>) {
        let r: Vec<&'static str> = vec!["-Z", "--version", "-j", "--jobs"];
        proof {
            assert(str_views(r@) =~= super::known_flags_spec(PackageManager::Cargo));
        }
        r
    }

    fn capture_flags(self) -> (r: Vec<CaptureFlag>) {
        let r: Vec<CaptureFlag> = vec![CaptureFlag::Single("--git"), CaptureFlag::DynamicValue("--branch"), CaptureFlag::Single("+nightly"), CaptureFlag::Single("+stable"), CaptureFlag::Single("+beta"), CaptureFlag::Single("--no-default-features"), CaptureFlag::DynamicValue("--features")];
        proof {
            assert(super::cf_views(r@) =~= super::capture_flags_spec(PackageManager::Cargo));
        }
        r
    }

    fn invalidating_flags(self) -> (r: Vec<&'static str>) {
        let r: Vec<&'static str> = vec!["--path"];
        proof {
            assert(str_views(r@) =~= super::invalidating_flags_spec(PackageManager::Cargo));
        }
        r
    }
}

impl From<Cargo> for PackageManager {
    fn from(x: Cargo) -> (r: PackageManager) {
        PackageManager::Cargo
    }
}

impl vstd::std_specs::convert::FromSpecImpl<Cargo> for PackageManager {
    open spec fn obeys_from_spec() -> bool {
        true
    }

    open spec fn from_spec(v: Cargo) -> PackageManager {
        PackageManager::Cargo
    }
}

} // verus!
