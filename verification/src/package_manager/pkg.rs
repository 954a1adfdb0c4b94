//! The Pkg descriptor.

use vstd::prelude::*;
use vstd::string::StringExecFns;
use vstd::string::StrSliceExecFns;
use super::{CaptureFlag, PackageInstalledMethod, PackageManager, PackageManagerTrait};
use crate::Os;
use crate::strutil::str_views;

verus! {

#[derive(Debug, Default, Copy, Clone, Eq, PartialEq, Structural)]
pub struct Pkg;

impl PackageManagerTrait for Pkg {
    open spec fn manager(self) -> PackageManager {
        PackageManager::Pkg
    }

    fn full_name(self) -> (r: &'static str) {
        "Pkg"
    }

    fn commands(self) -> (r: Vec<&'static str>) {
        let r: Vec<&'static str> = vec!["pkg"];
        proof {
            assert(str_views(r@) =~= super::commands_spec(PackageManager::Pkg));
        }
        r
    }

    fn sub_commands(self) -> (r: Vec<&'static str>) {
        let r: Vec<&'static str> = vec!["install"];
        proof {
            assert(str_views(r@) =~= super::sub_commands_spec(PackageManager::Pkg));
        }
        r
    }

    fn install_command(self) -> (r: &'static str) {
        "pkg install -y"
    }

    fn needs_root(self) -> (r: bool) {
        true
    }

    fn is_installed(self, package: &str, os: Os) -> (r: PackageInstalledMethod) {
        let mut s = "pkg_info | grep -q ".to_owned();
        s.append(package);
        proof {
            assert(s@ =~= super::installed_script_prefix(PackageManager::Pkg, os) + package@
                + super::installed_script_suffix(PackageManager::Pkg));
        }
        PackageInstalledMethod::Script(s)
    }

    fn known_flags_with_values(self) -> (r: Vec<&'static str>) {
        let r: Vec<&'static str> = Vec::new();
        proof {
            assert(str_views(r@) =~= super::known_flags_spec(PackageManager::Pkg));
        }
        r
    }

    fn capture_flags(self) -> (r: Vec<CaptureFlag>) {
        let r: Vec<CaptureFlag> = vec![CaptureFlag::DynamicValue("--repository"), CaptureFlag::DynamicValue("-r")];
        proof {
            assert(super::cf_views(r@) =~= super::capture_flags_spec(PackageManager::Pkg));
        }
        r
    }

    fn invalidating_flags(self) -> (r: Vec<&'static str>) {
        let r: Vec<&'static str> = Vec::new();
        proof {
            assert(str_views(r@) =~= super::invalidating_flags_spec(PackageManager::Pkg));
        }
        r
    }
}

impl From<Pkg> for PackageManager {
    fn from(x: Pkg) -> (r: PackageManager) {
        PackageManager::Pkg
    }
}

impl vstd::std_specs::convert::FromSpecImpl<Pkg> for PackageManager {
    open spec fn obeys_from_spec() -> bool {
        true
    }

    open spec fn from_spec(v: Pkg) -> PackageManager {
        PackageManager::Pkg
    }
}

} // verus!
