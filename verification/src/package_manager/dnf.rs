//! The Dandified yum descriptor.

use vstd::prelude::*;
use vstd::string::StringExecFns;
use vstd::string::StrSliceExecFns;
use super::{CaptureFlag, PackageInstalledMethod, PackageManager, PackageManagerTrait};
use crate::Os;
use crate::strutil::str_views;

verus! {

#[derive(Debug, Default, Copy, Clone, Eq, PartialEq, Structural)]
pub struct Dnf;

impl PackageManagerTrait for Dnf {
    open spec fn manager(self) -> PackageManager {
        PackageManager::Dnf
    }

    fn full_name(self) -> (r: &'static str) {
        "Dandified yum"
    }

    fn commands(self) -> (r: Vec<&'static str>) {
        let r: Vec<&'static str> = vec!["dnf", "yum"];
        proof {
            assert(str_views(r@) =~= super::commands_spec(PackageManager::Dnf));
        }
        r
    }

    fn sub_commands(self) -> (r: Vec<&'static str>) {
        let r: Vec<&'static str> = vec!["install"];
        proof {
            assert(str_views(r@) =~= super::sub_commands_spec(PackageManager::Dnf));
        }
        r
    }

    fn install_command(self) -> (r: &'static str) {
        "dnf install -y"
    }

    fn needs_root(self) -> (r: bool) {
        true
    }

    fn is_installed(self, package: &str, os: Os) -> (r: PackageInstalledMethod) {
        let mut s = "dnf info ".to_owned();
        s.append(package);
        proof {
            assert(s@ =~= super::installed_script_prefix(PackageManager::Dnf, os) + package@
                + super::installed_script_suffix(PackageManager::Dnf));
        }
        PackageInstalledMethod::Script(s)
    }

    fn known_flags_with_values(self) -> (r: Vec<&'static str>) {
        let r: Vec<&'static str> = Vec::new();
        proof {
            assert(str_views(r@) =~= super::known_flags_spec(PackageManager::Dnf));
        }
        r
    }

    fn capture_flags(self) -> (r: Vec<CaptureFlag>) {
        let r: Vec<CaptureFlag> = Vec::new();
        proof {
            assert(super::cf_views(r@) =~= super::capture_flags_spec(PackageManager::Dnf));
        }
        r
    }

    fn invalidating_flags(self) -> (r: Vec<&'static str>) {
        let r: Vec<&'static str> = Vec::new();
        proof {
            assert(str_views(r@) =~= super::invalidating_flags_spec(PackageManager::Dnf));
        }
        r
    }
}

impl From<Dnf> for PackageManager {
    fn from(x: Dnf) -> (r: PackageManager) {
        PackageManager::Dnf
    }
}

impl vstd::std_specs::convert::FromSpecImpl<Dnf> for PackageManager {
    open spec fn obeys_from_spec() -> bool {
        true
    }

    open spec fn from_spec(v: Dnf) -> PackageManager {
        PackageManager::Dnf
    }
}

} // verus!
