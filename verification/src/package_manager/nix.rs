//! The Nix descriptor.

use vstd::prelude::*;
use vstd::string::StringExecFns;
use vstd::string::StrSliceExecFns;
use super::{CaptureFlag, PackageInstalledMethod, PackageManager, PackageManagerTrait};
use crate::Os;
use crate::strutil::str_views;

verus! {

#[derive(Debug, Default, Copy, Clone, Eq, PartialEq, Structural)]
pub struct Nix;

impl PackageManagerTrait for Nix {
    open spec fn manager(self) -> PackageManager {
        PackageManager::Nix
    }

    fn full_name(self) -> (r: &'static str) {
        "Nix"
    }

    fn commands(self) -> (r: Vec<&'static str>) {
        let r: Vec<&'static str> = vec!["nix-env"];
        proof {
            assert(str_views(r@) =~= super::commands_spec(PackageManager::Nix));
        }
        r
    }

    fn sub_commands(self) -> (r: Vec<&'static str>) {
        let r: Vec<&'static str> = vec!["-i", "--install", "-iA"];
        proof {
            assert(str_views(r@) =~= super::sub_commands_spec(PackageManager::Nix));
        }
        r
    }

    fn install_command(self) -> (r: &'static str) {
        "nix-env -iA -g"
    }

    fn needs_root(self) -> (r: bool) {
        false
    }

    fn is_installed(self, package: &str, os: Os) -> (r: PackageInstalledMethod) {
        let mut s = "nix-env -q | grep -q ".to_owned();
        s.append(package);
        proof {
            assert(s@ =~= super::installed_script_prefix(PackageManager::Nix, os) + package@
                + super::installed_script_suffix(PackageManager::Nix));
        }
        PackageInstalledMethod::Script(s)
    }

    fn known_flags_with_values(self) -> (r: Vec<&'static str>) {
        let r: Vec<&'static str> = Vec::new();
        proof {
            assert(str_views(r@) =~= super::known_flags_spec(PackageManager::Nix));
        }
        r
    }

    fn capture_flags(self) -> (r: Vec<CaptureFlag>) {
        let r: Vec<CaptureFlag> = vec![CaptureFlag::DynamicValue("-f")];
        proof {
            assert(super::cf_views(r@) =~= super::capture_flags_spec(PackageManager::Nix));
        }
        r
    }

    fn invalidating_flags(self) -> (r: Vec<&'static str>) {
        let r: Vec<&'static str> = Vec::new();
        proof {
            assert(str_views(r@) =~= super::invalidating_flags_spec(PackageManager::Nix));
        }
        r
    }
}

impl From<Nix> for PackageManager {
    fn from(x: Nix) -> (r: PackageManager) {
        PackageManager::Nix
    }
}

impl vstd::std_specs::convert::FromSpecImpl<Nix> for PackageManager {
    open spec fn obeys_from_spec() -> bool {
        true
    }

    open spec fn from_spec(v: Nix) -> PackageManager {
        PackageManager::Nix
    }
}

} // verus!
