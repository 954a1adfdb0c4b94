//! The Command-line interface to ZYpp system management library descriptor.

use vstd::prelude::*;
use vstd::string::StringExecFns;
use vstd::string::StrSliceExecFns;
use super::{CaptureFlag, PackageInstalledMethod, PackageManager, PackageManagerTrait};
use crate::Os;
use crate::strutil::str_views;

verus! {

#[derive(Debug, Default, Copy, Clone, Eq, PartialEq, Structural)]
pub struct Zypper;

impl PackageManagerTrait for Zypper {
    open spec fn manager(self) -> PackageManager {
        PackageManager::Zypper
    }

    fn full_name(self) -> (r: &'static str) {
        "Command-line interface to ZYpp system management library"
    }

    fn commands(self) -> (r: Vec<&'static str>) {
        let r: Vec<&'static str> = vec!["zypper", "zin", "zinr"];
        proof {
            assert(str_views(r@) =~= super::commands_spec(PackageManager::Zypper));
        }
        r
    }

    fn sub_commands(self) -> (r: Vec<&'static str>) {
        let r: Vec<&'static str> = vec!["install", "in", "inr"];
        proof {
            assert(str_views(r@) =~= super::sub_commands_spec(PackageManager::Zypper));
        }
        r
    }

    fn install_command(self) -> (r: &'static str) {
        "zypper install -y"
    }

    fn needs_root(self) -> (r: bool) {
        true
    }

    fn is_installed(self, package: &str, os: Os) -> (r: PackageInstalledMethod) {
        let mut s = "zypper info ".to_owned();
        s.append(package);
        proof {
            assert(s@ =~= super::installed_script_prefix(PackageManager::Zypper, os) + package@
                + super::installed_script_suffix(PackageManager::Zypper));
        }
        PackageInstalledMethod::Script(s)
    }

    fn known_flags_with_values(self) -> (r: Vec<&'static str>) {
        let r: Vec<&'static str> = vec!["-c", "--config", "-q", "--quiet"];
        proof {
            assert(str_views(r@) =~= super::known_flags_spec(PackageManager::Zypper));
        }
        r
    }

    fn capture_flags(self) -> (r: Vec<CaptureFlag>) {
        let r: Vec<CaptureFlag> = Vec::new();
        proof {
            assert(super::cf_views(r@) =~= super::capture_flags_spec(PackageManager::Zypper));
        }
        r
    }

    fn invalidating_flags(self) -> (r: Vec<&'static str>) {
        let r: Vec<&'static str> = Vec::new();
        proof {
            assert(str_views(r@) =~= super::invalidating_flags_spec(PackageManager::Zypper));
        }
        r
    }
}

impl From<Zypper> for PackageManager {
    fn from(x: Zypper) -> (r: PackageManager) {
        PackageManager::Zypper
    }
}

impl vstd::std_specs::convert::FromSpecImpl<Zypper> for PackageManager {
    open spec fn obeys_from_spec() -> bool {
        true
    }

    open spec fn from_spec(v: Zypper) -> PackageManager {
        PackageManager::Zypper
    }
}

} // verus!
