//! The Go descriptor.

use vstd::prelude::*;
use vstd::string::StringExecFns;
use vstd::string::StrSliceExecFns;
use super::{CaptureFlag, PackageInstalledMethod, PackageManager, PackageManagerTrait};
use crate::Os;
use crate::strutil::str_views;

verus! {

#[derive(Debug, Default, Copy, Clone, Eq, PartialEq, Structural)]
pub struct Go;

impl PackageManagerTrait for Go {
    open spec fn manager(self) -> PackageManager {
        PackageManager::Go
    }

    fn full_name(self) -> (r: &'static str) {
        "Go"
    }

    fn commands(self) -> (r: Vec<&'static str>) {
        let r: Vec<&'static str> = vec!["go"];
        proof {
            assert(str_views(r@) =~= super::commands_spec(PackageManager::Go));
        }
        r
    }

    fn sub_commands(self) -> (r: Vec<&'static str>) {
        let r: Vec<&'static str> = vec!["get"];
        proof {
            assert(str_views(r@) =~= super::sub_commands_spec(PackageManager::Go));
        }
        r
    }

    fn install_command(self) -> (r: &'static str) {
        "go get -u"
    }

    fn needs_root(self) -> (r: bool) {
        false
    }

    fn is_installed(self, package: &str, os: Os) -> (r: PackageInstalledMethod) {
        let mut s = "go list ... | grep -q ".to_owned();
        s.append(package);
        proof {
            assert(s@ =~= super::installed_script_prefix(PackageManager::Go, os) + package@
                + super::installed_script_suffix(PackageManager::Go));
        }
        PackageInstalledMethod::Script(s)
    }

    fn known_flags_with_values(self) -> (r: Vec<&'static str>) {
        let r: Vec<&'static str> = Vec::new();
        proof {
            assert(str_views(r@) =~= super::known_flags_spec(PackageManager::Go));
        }
        r
    }

    fn capture_flags(self) -> (r: Vec<CaptureFlag>) {
        let r: Vec<CaptureFlag> = Vec::new();
        proof {
            assert(super::cf_views(r@) =~= super::capture_flags_spec(PackageManager::Go));
        }
        r
    }

    fn invalidating_flags(self) -> (r: Vec<&'static str>) {
        let r: Vec<&'static str> = Vec::new();
        proof {
            assert(str_views(r@) =~= super::invalidating_flags_spec(PackageManager::Go));
        }
        r
    }
}

impl From<Go> for PackageManager {
    fn from(x: Go) -> (r: PackageManager) {
        PackageManager::Go
    }
}

impl vstd::std_specs::convert::FromSpecImpl<Go> for PackageManager {
    open spec fn obeys_from_spec() -> bool {
        true
    }

    open spec fn from_spec(v: Go) -> PackageManager {
        PackageManager::Go
    }
}

} // verus!
