//! The Chocolatey descriptor.

use vstd::prelude::*;
use vstd::string::StringExecFns;
use vstd::string::StrSliceExecFns;
use super::{CaptureFlag, PackageInstalledMethod, PackageManager, PackageManagerTrait};
use crate::Os;
use crate::strutil::str_views;

verus! {

#[derive(Debug, Default, Copy, Clone, Eq, PartialEq, Structural)]
pub struct Chocolatey;

impl PackageManagerTrait for Chocolatey {
    open spec fn manager(self) -> PackageManager {
        PackageManager::Chocolatey
    }

    fn full_name(self) -> (r: &'static str) {
        "Chocolatey"
    }

    fn commands(self) -> (r: Vec<&'static str>) {
        let r: Vec<&'static str> = vec!["choco"];
        proof {
            assert(str_views(r@) =~= super::commands_spec(PackageManager::Chocolatey));
        }
        r
    }

    fn sub_commands(self) -> (r: Vec<&'static str>) {
        let r: Vec<&'static str> = vec!["install"];
        proof {
            assert(str_views(r@) =~= super::sub_commands_spec(PackageManager::Chocolatey));
        }
        r
    }

    fn install_command(self) -> (r: &'static str) {
        "choco install -y"
    }

    fn needs_root(self) -> (r: bool) {
        true
    }

    fn is_installed(self, package: &str, os: Os) -> (r: PackageInstalledMethod) {
        let mut s = "choco feature enable --name=\"'useEnhancedExitCodes'\" && choco search -le --no-color ".to_owned();
        s.append(package);
        proof {
            assert(s@ =~= super::installed_script_prefix(PackageManager::Chocolatey, os) + package@
                + super::installed_script_suffix(PackageManager::Chocolatey));
        }
        PackageInstalledMethod::Script(s)
    }

    fn known_flags_with_values(self) -> (r: Vec<&'static str>) {
        let r: Vec<&'static str> = Vec::new();
        proof {
            assert(str_views(r@) =~= super::known_flags_spec(PackageManager::Chocolatey));
        }
        r
    }

    fn capture_flags(self) -> (r: Vec<CaptureFlag>) {
        let r: Vec<CaptureFlag> = Vec::new();
        proof {
            assert(super::cf_views(r@) =~= super::capture_flags_spec(PackageManager::Chocolatey));
        }
        r
    }

    fn invalidating_flags(self) -> (r: Vec<&'static str>) {
        let r: Vec<&'static str> = Vec::new();
        proof {
            assert(str_views(r@) =~= super::invalidating_flags_spec(PackageManager::Chocolatey));
        }
        r
    }
}

impl From<Chocolatey> for PackageManager {
    fn from(x: Chocolatey) -> (r: PackageManager) {
        PackageManager::Chocolatey
    }
}

impl vstd::std_specs::convert::FromSpecImpl<Chocolatey> for PackageManager {
    open spec fn obeys_from_spec() -> bool {
        true
    }

    open spec fn from_spec(v: Chocolatey) -> PackageManager {
        PackageManager::Chocolatey
    }
}

} // verus!
