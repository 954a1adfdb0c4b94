//! The Yay descriptor.

use vstd::prelude::*;
use vstd::string::StringExecFns;
use vstd::string::StrSliceExecFns;
use super::{CaptureFlag, PackageInstalledMethod, PackageManager, PackageManagerTrait};
use crate::Os;
use crate::strutil::str_views;

verus! {

#[derive(Debug, Default, Copy, Clone, Eq, PartialEq, Structural)]
pub struct Yay;

impl PackageManagerTrait for Yay {
    open spec fn manager(self) -> PackageManager {
        PackageManager::Yay
    }

    fn full_name(self) -> (r: &'static str) {
        "Yay"
    }

    fn commands(self) -> (r: Vec<&'static str>) {
        let r: Vec<&'static str> = vec!["yay"];
        proof {
            assert(str_views(r@) =~= super::commands_spec(PackageManager::Yay));
        }
        r
    }

    fn sub_commands(self) -> (r: Vec<&'static str>) {
        let r: Vec<&'static str> = vec!["-S"];
        proof {
            assert(str_views(r@) =~= super::sub_commands_spec(PackageManager::Yay));
        }
        r
    }

    fn install_command(self) -> (r: &'static str) {
        "yay -S --noconfirm --quiet"
    }

    fn needs_root(self) -> (r: bool) {
        false
    }

    fn is_installed(self, package: &str, os: Os) -> (r: PackageInstalledMethod) {
        let mut s = "yay -Q ".to_owned();
        s.append(package);
        proof {
            assert(s@ =~= super::installed_script_prefix(PackageManager::Yay, os) + package@
                + super::installed_script_suffix(PackageManager::Yay));
        }
        PackageInstalledMethod::Script(s)
    }

    fn known_flags_with_values(self) -> (r: Vec<&'static str>) {
        let r: Vec<&'static str> = Vec::new();
        proof {
            assert(str_views(r@) =~= super::known_flags_spec(PackageManager::Yay));
        }
        r
    }

    fn capture_flags(self) -> (r: Vec<CaptureFlag>) {
        let r: Vec<CaptureFlag> = Vec::new();
        proof {
            assert(super::cf_views(r@) =~= super::capture_flags_spec(PackageManager::Yay));
        }
        r
    }

    fn invalidating_flags(self) -> (r: Vec<&'static str>) {
        let r: Vec<&'static str> = Vec::new();
        proof {
            assert(str_views(r@) =~= super::invalidating_flags_spec(PackageManager::Yay));
        }
        r
    }
}

impl From<Yay> for PackageManager {
    fn from(x: Yay) -> (r: PackageManager) {
        PackageManager::Yay
    }
}

impl vstd::std_specs::convert::FromSpecImpl<Yay> for PackageManager {
    open spec fn obeys_from_spec() -> bool {
        true
    }

    open spec fn from_spec(v: Yay) -> PackageManager {
        PackageManager::Yay
    }
}

} // verus!
