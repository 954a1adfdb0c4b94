//! The Homebrew descriptor.

use vstd::prelude::*;
use vstd::string::StringExecFns;
use vstd::string::StrSliceExecFns;
use super::{CaptureFlag, PackageInstalledMethod, PackageManager, PackageManagerTrait};
use crate::Os;
use crate::strutil::str_views;

verus! {

#[derive(Debug, Default, Copy, Clone, Eq, PartialEq, Structural)]
pub struct Brew;

impl PackageManagerTrait for Brew {
    open spec fn manager(self) -> PackageManager {
        PackageManager::Brew
    }

    fn full_name(self) -> (r: &'static str) {
        "Homebrew"
    }

    fn commands(self) -> (r: Vec<&'static str>) {
        let r: Vec<&'static str> = vec!["brew"];
        proof {
            assert(str_views(r@) =~= super::commands_spec(PackageManager::Brew));
        }
        r
    }

    fn sub_commands(self) -> (r: Vec<&'static str>) {
        let r: Vec<&'static str> = vec!["install"];
        proof {
            assert(str_views(r@) =~= super::sub_commands_spec(PackageManager::Brew));
        }
        r
    }

    fn install_command(self) -> (r: &'static str) {
        "brew install"
    }

    fn needs_root(self) -> (r: bool) {
        true
    }

    fn is_installed(self, package: &str, os: Os) -> (r: PackageInstalledMethod) {
        let mut s = "brew list ".to_owned();
        s.append(package);
        proof {
            assert(s@ =~= super::installed_script_prefix(PackageManager::Brew, os) + package@
                + super::installed_script_suffix(PackageManager::Brew));
        }
        PackageInstalledMethod::Script(s)
    }

    fn known_flags_with_values(self) -> (r: Vec<&'static str>) {
        let r: Vec<&'static str> = vec!["--env", "--cc"];
        proof {
            assert(str_views(r@) =~= super::known_flags_spec(PackageManager::Brew));
        }
        r
    }

    fn capture_flags(self) -> (r: Vec<CaptureFlag>) {
        let r: Vec<CaptureFlag> = vec![CaptureFlag::Single("cask"), CaptureFlag::Single("--devel"), CaptureFlag::Single("--HEAD"), CaptureFlag::Single("--fetch-HEAD")];
        proof {
            assert(super::cf_views(r@) =~= super::capture_flags_spec(PackageManager::Brew));
        }
        r
    }

    fn invalidating_flags(self) -> (r: Vec<&'static str>) {
        let r: Vec<&'static str> = Vec::new();
        proof {
            assert(str_views(r@) =~= super::invalidating_flags_spec(PackageManager::Brew));
        }
        r
    }
}

impl From<Brew> for PackageManager {
    fn from(x: Brew) -> (r: PackageManager) {
        PackageManager::Brew
    }
}

impl vstd::std_specs::convert::FromSpecImpl<Brew> for PackageManager {
    open spec fn obeys_from_spec() -> bool {
        true
    }

    open spec fn from_spec(v: Brew) -> PackageManager {
        PackageManager::Brew
    }
}

} // verus!
