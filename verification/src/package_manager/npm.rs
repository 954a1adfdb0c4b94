//! The Node Package Manager descriptor.

use vstd::prelude::*;
use vstd::string::StringExecFns;
use vstd::string::StrSliceExecFns;
use super::{CaptureFlag, PackageInstalledMethod, PackageManager, PackageManagerTrait};
use crate::Os;
use crate::strutil::str_views;

verus! {

#[derive(Debug, Default, Copy, Clone, Eq, PartialEq, Structural)]
pub struct Npm;

impl PackageManagerTrait for Npm {
    open spec fn manager(self) -> PackageManager {
        PackageManager::Npm
    }

    fn full_name(self) -> (r: &'static str) {
        "Node Package Manager"
    }

    fn commands(self) -> (r: Vec<&'static str>) {
        let r: Vec<&'static str> = vec!["npm"];
        proof {
            assert(str_views(r@) =~= super::commands_spec(PackageManager::Npm));
        }
        r
    }

    fn sub_commands(self) -> (r: Vec<&'static str>) {
        let r: Vec<&'static str> = vec!["install"];
        proof {
            assert(str_views(r@) =~= super::sub_commands_spec(PackageManager::Npm));
        }
        r
    }

    fn install_command(self) -> (r: &'static str) {
        "npm install -g"
    }

    fn needs_root(self) -> (r: bool) {
        false
    }

    fn is_installed(self, package: &str, os: Os) -> (r: PackageInstalledMethod) {
        let mut s = match os {
            Os::Posix => "npm list --depth=0 -g | grep -q ".to_owned(),
            Os::Windows => "npm list --depth=0 -g | findstr ".to_owned(),
        };
        s.append(package);
        proof {
            assert(s@ =~= super::installed_script_prefix(PackageManager::Npm, os) + package@
                + super::installed_script_suffix(PackageManager::Npm));
        }
        PackageInstalledMethod::Script(s)
    }

    fn known_flags_with_values(self) -> (r: Vec<&'static str>) {
        let r: Vec<&'static str> = Vec::new();
        proof {
            assert(str_views(r@) =~= super::known_flags_spec(PackageManager::Npm));
        }
        r
    }

    fn capture_flags(self) -> (r: Vec<CaptureFlag>) {
        let r: Vec<CaptureFlag> = Vec::new();
        proof {
            assert(super::cf_views(r@) =~= super::capture_flags_spec(PackageManager::Npm));
        }
        r
    }

    fn invalidating_flags(self) -> (r: Vec<&'static str>) {
        let r: Vec<&'static str> = Vec::new();
        proof {
            assert(str_views(r@) =~= super::invalidating_flags_spec(PackageManager::Npm));
        }
        r
    }
}

impl From<Npm> for PackageManager {
    fn from(x: Npm) -> (r: PackageManager) {
        PackageManager::Npm
    }
}

impl vstd::std_specs::convert::FromSpecImpl<Npm> for PackageManager {
    open spec fn obeys_from_spec() -> bool {
        true
    }

    open spec fn from_spec(v: Npm) -> PackageManager {
        PackageManager::Npm
    }
}

} // verus!
