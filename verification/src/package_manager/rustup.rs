//! The Rustup Rust descriptor.

use vstd::prelude::*;
use vstd::string::StringExecFns;
use vstd::string::StrSliceExecFns;
use super::{CaptureFlag, PackageInstalledMethod, PackageManager, PackageManagerTrait};
use crate::Os;
use crate::strutil::str_views;

verus! {

#[derive(Debug, Default, Copy, Clone, Eq, PartialEq, Structural)]
pub struct Rustup;

impl PackageManagerTrait for Rustup {
    open spec fn manager(self) -> PackageManager {
        PackageManager::Rustup
    }

    fn full_name(self) -> (r: &'static str) {
        "Rustup Rust"
    }

    fn commands(self) -> (r: Vec<&'static str>) {
        let r: Vec<&'static str> = vec!["rustup"];
        proof {
            assert(str_views(r@) =~= super::commands_spec(PackageManager::Rustup));
        }
        r
    }

    fn sub_commands(self) -> (r: Vec<&'static str>) {
        let r: Vec<&'static str> = vec!["component add"];
        proof {
            assert(str_views(r@) =~= super::sub_commands_spec(PackageManager::Rustup));
        }
        r
    }

    fn install_command(self) -> (r: &'static str) {
        "rustup component add"
    }

    fn needs_root(self) -> (r: bool) {
        false
    }

    fn is_installed(self, package: &str, os: Os) -> (r: PackageInstalledMethod) {
        let mut s = match os {
            Os::Posix => "rustup component list | grep -q ".to_owned(),
            Os::Windows => "rustup component list | findstr ".to_owned(),
        };
        s.append(package);
        proof {
            assert(s@ =~= super::installed_script_prefix(PackageManager::Rustup, os) + package@
                + super::installed_script_suffix(PackageManager::Rustup));
        }
        PackageInstalledMethod::Script(s)
    }

    fn known_flags_with_values(self) -> (r: Vec<&'static str>) {
        let r: Vec<&'static str> = Vec::new();
        proof {
            assert(str_views(r@) =~= super::known_flags_spec(PackageManager::Rustup));
        }
        r
    }

    fn capture_flags(self) -> (r: Vec<CaptureFlag>) {
        let r: Vec<CaptureFlag> = vec![CaptureFlag::DynamicValue("--target"), CaptureFlag::DynamicValue("--toolchain")];
        proof {
            assert(super::cf_views(r@) =~= super::capture_flags_spec(PackageManager::Rustup));
        }
        r
    }

    fn invalidating_flags(self) -> (r: Vec<&'static str>) {
        let r: Vec<&'static str> = Vec::new();
        proof {
            assert(str_views(r@) =~= super::invalidating_flags_spec(PackageManager::Rustup));
        }
        r
    }
}

impl From<Rustup> for PackageManager {
    fn from(x: Rustup) -> (r: PackageManager) {
        PackageManager::Rustup
    }
}

impl vstd::std_specs::convert::FromSpecImpl<Rustup> for PackageManager {
    open spec fn obeys_from_spec() -> bool {
        true
    }

    open spec fn from_spec(v: Rustup) -> PackageManager {
        PackageManager::Rustup
    }
}

} // verus!
