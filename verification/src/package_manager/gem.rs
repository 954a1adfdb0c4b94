//! The Ruby Gem descriptor.

use vstd::prelude::*;
use vstd::string::StringExecFns;
use vstd::string::StrSliceExecFns;
use super::{CaptureFlag, PackageInstalledMethod, PackageManager, PackageManagerTrait};
use crate::Os;
use crate::strutil::str_views;

verus! {

#[derive(Debug, Default, Copy, Clone, Eq, PartialEq, Structural)]
pub struct Gem;

impl PackageManagerTrait for Gem {
    open spec fn manager(self) -> PackageManager {
        PackageManager::Gem
    }

    fn full_name(self) -> (r: &'static str) {
        "Ruby Gem"
    }

    fn commands(self) -> (r: Vec<&'static str>) {
        let r: Vec<&'static str> = vec!["gem"];
        proof {
            assert(str_views(r@) =~= super::commands_spec(PackageManager::Gem));
        }
        r
    }

    fn sub_commands(self) -> (r: Vec<&'static str>) {
        let r: Vec<&'static str> = vec!["install"];
        proof {
            assert(str_views(r@) =~= super::sub_commands_spec(PackageManager::Gem));
        }
        r
    }

    fn install_command(self) -> (r: &'static str) {
        "gem install"
    }

    fn needs_root(self) -> (r: bool) {
        false
    }

    fn is_installed(self, package: &str, os: Os) -> (r: PackageInstalledMethod) {
        let mut s = "gem -i ".to_owned();
        s.append(package);
        proof {
            assert(s@ =~= super::installed_script_prefix(PackageManager::Gem, os) + package@
                + super::installed_script_suffix(PackageManager::Gem));
        }
        PackageInstalledMethod::Script(s)
    }

    fn known_flags_with_values(self) -> (r: Vec<&'static str>) {
        let r: Vec<&'static str> = vec!["-n", "--bindir", "--document", "--build-root", "-P", "--trust-policy", "-g", "--file", "--without", "-s", "--source", "-B", "--bulk-treshold", "-p", "--http-proxy", "--config-file"];
        proof {
            assert(str_views(r@) =~= super::known_flags_spec(PackageManager::Gem));
        }
        r
    }

    fn capture_flags(self) -> (r: Vec<CaptureFlag>) {
        let r: Vec<CaptureFlag> = vec![CaptureFlag::DynamicValue("-i"), CaptureFlag::DynamicValue("--install-dir"), CaptureFlag::DynamicValue("--platform"), CaptureFlag::DynamicValue("-v"), CaptureFlag::DynamicValue("--version")];
        proof {
            assert(super::cf_views(r@) =~= super::capture_flags_spec(PackageManager::Gem));
        }
        r
    }

    fn invalidating_flags(self) -> (r: Vec<&'static str>) {
        let r: Vec<&'static str> = Vec::new();
        proof {
            assert(str_views(r@) =~= super::invalidating_flags_spec(PackageManager::Gem));
        }
        r
    }
}

impl From<Gem> for PackageManager {
    fn from(x: Gem) -> (r: PackageManager) {
        PackageManager::Gem
    }
}

impl vstd::std_specs::convert::FromSpecImpl<Gem> for PackageManager {
    open spec fn obeys_from_spec() -> bool {
        true
    }

    open spec fn from_spec(v: Gem) -> PackageManager {
        PackageManager::Gem
    }
}

} // verus!
