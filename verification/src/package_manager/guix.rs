//! The GNU Guix descriptor.

use vstd::prelude::*;
use vstd::string::StringExecFns;
use vstd::string::StrSliceExecFns;
use super::{CaptureFlag, PackageInstalledMethod, PackageManager, PackageManagerTrait};
use crate::Os;
use crate::strutil::str_views;

verus! {

#[derive(Debug, Default, Copy, Clone, Eq, PartialEq, Structural)]
pub struct Guix;

impl PackageManagerTrait for Guix {
    open spec fn manager(self) -> PackageManager {
        PackageManager::Guix
    }

    fn full_name(self) -> (r: &'static str) {
        "GNU Guix"
    }

    fn commands(self) -> (r: Vec<&'static str>) {
        let r: Vec<&'static str> = vec!["guix"];
        proof {
            assert(str_views(r@) =~= super::commands_spec(PackageManager::Guix));
        }
        r
    }

    fn sub_commands(self) -> (r: Vec<&'static str>) {
        let r: Vec<&'static str> = vec!["install"];
        proof {
            assert(str_views(r@) =~= super::sub_commands_spec(PackageManager::Guix));
        }
        r
    }

    fn install_command(self) -> (r: &'static str) {
        "guix install"
    }

    fn needs_root(self) -> (r: bool) {
        false
    }

    fn is_installed(self, package: &str, os: Os) -> (r: PackageInstalledMethod) {
        let mut s = "guix --list-installed=\"^".to_owned();
        s.append(package);
        s.append("$\"");
        proof {
            assert(s@ =~= super::installed_script_prefix(PackageManager::Guix, os) + package@
                + super::installed_script_suffix(PackageManager::Guix));
        }
        PackageInstalledMethod::Script(s)
    }

    fn known_flags_with_values(self) -> (r: Vec<&'static str>) {
        let r: Vec<&'static str> = vec!["-L", "--load-path", "-v", "--verbosity", "--max-silent-time", "-c", "--cores", "-M", "--max-jobs", "--debug"];
        proof {
            assert(str_views(r@) =~= super::known_flags_spec(PackageManager::Guix));
        }
        r
    }

    fn capture_flags(self) -> (r: Vec<CaptureFlag>) {
        let r: Vec<CaptureFlag> = vec![CaptureFlag::DynamicValue("-p"), CaptureFlag::DynamicValue("--profile")];
        proof {
            assert(super::cf_views(r@) =~= super::capture_flags_spec(PackageManager::Guix));
        }
        r
    }

    fn invalidating_flags(self) -> (r: Vec<&'static str>) {
        let r: Vec<&'static str> = Vec::new();
        proof {
            assert(str_views(r@) =~= super::invalidating_flags_spec(PackageManager::Guix));
        }
        r
    }
}

impl From<Guix> for PackageManager {
    fn from(x: Guix) -> (r: PackageManager) {
        PackageManager::Guix
    }
}

impl vstd::std_specs::convert::FromSpecImpl<Guix> for PackageManager {
    open spec fn obeys_from_spec() -> bool {
        true
    }

    open spec fn from_spec(v: Guix) -> PackageManager {
        PackageManager::Guix
    }
}

} // verus!
