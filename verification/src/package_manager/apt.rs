//! The Advance Package Tool descriptor.

use vstd::prelude::*;
use vstd::string::StringExecFns;
use vstd::string::StrSliceExecFns;
use super::{CaptureFlag, PackageInstalledMethod, PackageManager, PackageManagerTrait};
use crate::Os;
use crate::strutil::str_views;

verus! {

#[derive(Debug, Default, Copy, Clone, Eq, PartialEq, Structural)]
pub struct Apt;

impl PackageManagerTrait for Apt {
    open spec fn manager(self) -> PackageManager {
        PackageManager::Apt
    }

    fn full_name(self) -> (r: &'static str) {
        "Advance Package Tool"
    }

    fn commands(self) -> (r: Vec<&'static str>) {
        let r: Vec<&'static str> = vec!["apt", "apt-get"];
        proof {
            assert(str_views(r@) =~= super::commands_spec(PackageManager::Apt));
        }
        r
    }

    fn sub_commands(self) -> (r: Vec<&'static str>) {
        let r: Vec<&'static str> = vec!["install"];
        proof {
            assert(str_views(r@) =~= super::sub_commands_spec(PackageManager::Apt));
        }
        r
    }

    fn install_command(self) -> (r: &'static str) {
        "apt-get install -y"
    }

    fn needs_root(self) -> (r: bool) {
        true
    }

    fn is_installed(self, package: &str, os: Os) -> (r: PackageInstalledMethod) {
        let mut s = "dpkg -s ".to_owned();
        s.append(package);
        proof {
            assert(s@ =~= super::installed_script_prefix(PackageManager::Apt, os) + package@
                + super::installed_script_suffix(PackageManager::Apt));
        }
        PackageInstalledMethod::Script(s)
    }

    fn known_flags_with_values(self) -> (r: Vec<&'static str>) {
        let r: Vec<&'static str> = vec!["-c", "--config-file", "-o", "--option", "-q", "--quiet"];
        proof {
            assert(str_views(r@) =~= super::known_flags_spec(PackageManager::Apt));
        }
        r
    }

    fn capture_flags(self) -> (r: Vec<CaptureFlag>) {
        let r: Vec<CaptureFlag> = vec![CaptureFlag::SetValue("-t", "experimental")];
        proof {
            assert(super::cf_views(r@) =~= super::capture_flags_spec(PackageManager::Apt));
        }
        r
    }

    fn invalidating_flags(self) -> (r: Vec<&'static str>) {
        let r: Vec<&'static str> = Vec::new();
        proof {
            assert(str_views(r@) =~= super::invalidating_flags_spec(PackageManager::Apt));
        }
        r
    }
}

impl From<Apt> for PackageManager {
    fn from(x: Apt) -> (r: PackageManager) {
        PackageManager::Apt
    }
}

impl vstd::std_specs::convert::FromSpecImpl<Apt> for PackageManager {
    open spec fn obeys_from_spec() -> bool {
        true
    }

    open spec fn from_spec(v: Apt) -> PackageManager {
        PackageManager::Apt
    }
}

} // verus!
