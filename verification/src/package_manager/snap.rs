//! The Snap descriptor.

use vstd::prelude::*;
use vstd::string::StringExecFns;
use vstd::string::StrSliceExecFns;
use super::{CaptureFlag, PackageInstalledMethod, PackageManager, PackageManagerTrait};
use crate::Os;
use crate::strutil::str_views;

verus! {

#[derive(Debug, Default, Copy, Clone, Eq, PartialEq, Structural)]
pub struct Snap;

impl PackageManagerTrait for Snap {
    open spec fn manager(self) -> PackageManager {
        PackageManager::Snap
    }

    fn full_name(self) -> (r: &'static str) {
        "Snap"
    }

    fn commands(self) -> (r: Vec<&'static str>) {
        let r: Vec<&'static str> = vec!["snap"];
        proof {
            assert(str_views(r@) =~= super::commands_spec(PackageManager::Snap));
        }
        r
    }

    fn sub_commands(self) -> (r: Vec<&'static str>) {
        let r: Vec<&'static str> = vec!["install"];
        proof {
            assert(str_views(r@) =~= super::sub_commands_spec(PackageManager::Snap));
        }
        r
    }

    fn install_command(self) -> (r: &'static str) {
        "snap install"
    }

    fn needs_root(self) -> (r: bool) {
        true
    }

    fn is_installed(self, package: &str, os: Os) -> (r: PackageInstalledMethod) {
        let mut s = "snap | grep -Eo '^[^ ]+' | grep -q ".to_owned();
        s.append(package);
        proof {
            assert(s@ =~= super::installed_script_prefix(PackageManager::Snap, os) + package@
                + super::installed_script_suffix(PackageManager::Snap));
        }
        PackageInstalledMethod::Script(s)
    }

    fn known_flags_with_values(self) -> (r: Vec<&'static str>) {
        let r: Vec<&'static str> = Vec::new();
        proof {
            assert(str_views(r@) =~= super::known_flags_spec(PackageManager::Snap));
        }
        r
    }

    fn capture_flags(self) -> (r: Vec<CaptureFlag>) {
        let r: Vec<CaptureFlag> = Vec::new();
        proof {
            assert(super::cf_views(r@) =~= super::capture_flags_spec(PackageManager::Snap));
        }
        r
    }

    fn invalidating_flags(self) -> (r: Vec<&'static str>) {
        let r: Vec<&'static str> = Vec::new();
        proof {
            assert(str_views(r@) =~= super::invalidating_flags_spec(PackageManager::Snap));
        }
        r
    }
}

impl From<Snap> for PackageManager {
    fn from(x: Snap) -> (r: PackageManager) {
        PackageManager::Snap
    }
}

impl vstd::std_specs::convert::FromSpecImpl<Snap> for PackageManager {
    open spec fn obeys_from_spec() -> bool {
        true
    }

    open spec fn from_spec(v: Snap) -> PackageManager {
        PackageManager::Snap
    }
}

} // verus!
