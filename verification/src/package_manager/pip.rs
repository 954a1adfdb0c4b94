//! The Python Pip descriptor.

use vstd::prelude::*;
use vstd::string::StringExecFns;
use vstd::string::StrSliceExecFns;
use super::{CaptureFlag, PackageInstalledMethod, PackageManager, PackageManagerTrait};
use crate::Os;
use crate::strutil::str_views;

verus! {

#[derive(Debug, Default, Copy, Clone, Eq, PartialEq, Structural)]
pub struct Pip;

impl PackageManagerTrait for Pip {
    open spec fn manager(self) -> PackageManager {
        PackageManager::Pip
    }

    fn full_name(self) -> (r: &'static str) {
        "Python Pip"
    }

    fn commands(self) -> (r: Vec<&'static str>) {
        let r: Vec<&'static str> = vec!["pip"];
        proof {
            assert(str_views(r@) =~= super::commands_spec(PackageManager::Pip));
        }
        r
    }

    fn sub_commands(self) -> (r: Vec<&'static str>) {
        let r: Vec<&'static str> = vec!["install"];
        proof {
            assert(str_views(r@) =~= super::sub_commands_spec(PackageManager::Pip));
        }
        r
    }

    fn install_command(self) -> (r: &'static str) {
        "pip install -q"
    }

    fn needs_root(self) -> (r: bool) {
        true
    }

    fn is_installed(self, package: &str, os: Os) -> (r: PackageInstalledMethod) {
        let mut s = "pip show -q ".to_owned();
        s.append(package);
        proof {
            assert(s@ =~= super::installed_script_prefix(PackageManager::Pip, os) + package@
                + super::installed_script_suffix(PackageManager::Pip));
        }
        PackageInstalledMethod::Script(s)
    }

    fn known_flags_with_values(self) -> (r: Vec<&'static str>) {
        let r: Vec<&'static str> = Vec::new();
        proof {
            assert(str_views(r@) =~= super::known_flags_spec(PackageManager::Pip));
        }
        r
    }

    fn capture_flags(self) -> (r: Vec<CaptureFlag>) {
        let r: Vec<CaptureFlag> = vec![CaptureFlag::Single("--user")];
        proof {
            assert(super::cf_views(r@) =~= super::capture_flags_spec(PackageManager::Pip));
        }
        r
    }

    fn invalidating_flags(self) -> (r: Vec<&'static str>) {
        let r: Vec<&'static str> = vec!["-r"];
        proof {
            assert(str_views(r@) =~= super::invalidating_flags_spec(PackageManager::Pip));
        }
        r
    }
}

impl From<Pip> for PackageManager {
    fn from(x: Pip) -> (r: PackageManager) {
        PackageManager::Pip
    }
}

impl vstd::std_specs::convert::FromSpecImpl<Pip> for PackageManager {
    open spec fn obeys_from_spec() -> bool {
        true
    }

    open spec fn from_spec(v: Pip) -> PackageManager {
        PackageManager::Pip
    }
}

} // verus!
