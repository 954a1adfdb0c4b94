//! The Cargo B(inary)Install descriptor.

use vstd::prelude::*;
use vstd::string::StringExecFns;
use vstd::string::StrSliceExecFns;
use super::{CaptureFlag, PackageInstalledMethod, PackageManager, PackageManagerTrait};
use crate::Os;
use crate::strutil::str_views;

verus! {

#[derive(Debug, Default, Copy, Clone, Eq, PartialEq, Structural)]
pub struct CargoBinstall;

impl PackageManagerTrait for CargoBinstall {
    open spec fn manager(self) -> PackageManager {
        PackageManager::CargoBinstall
    }

    fn full_name(self) -> (r: &'static str) {
        "Cargo B(inary)Install"
    }

    fn commands(self) -> (r: Vec<&'static str>) {
        let r: Vec<&'static str> = vec!["cargo"];
        proof {
            assert(str_views(r@) =~= super::commands_spec(PackageManager::CargoBinstall));
        }
        r
    }

    fn sub_commands(self) -> (r: Vec<&'static str>) {
        let r: Vec<&'static str> = vec!["binstall"];
        proof {
            assert(str_views(r@) =~= super::sub_commands_spec(PackageManager::CargoBinstall));
        }
        r
    }

    fn install_command(self) -> (r: &'static str) {
        "cargo binstall --quiet"
    }

    fn needs_root(self) -> (r: bool) {
        false
    }

    fn is_installed(self, package: &str, os: Os) -> (r: PackageInstalledMethod) {
        let mut s = match os {
            Os::Posix => "cargo install --list | grep 'v[0-9]' | grep -q ".to_owned(),
            Os::Windows => "cargo install --list | findstr ".to_owned(),
        };
        s.append(package);
        proof {
            assert(s@ =~= super::installed_script_prefix(PackageManager::CargoBinstall, os) + package@
                + super::installed_script_suffix(PackageManager::CargoBinstall));
        }
        PackageInstalledMethod::Script(s)
    }

    fn known_flags_with_values(self) -> (r: Vec<&'static str>) {
        let r: Vec<&'static str> = vec!["--log-level", "--github-token", "--root-certificates", "--min-tls-version", "--registry", "--index", "--root", "--install-path", "--disable-strategies", "--strategies", "--rate-limit", "--pkg-url", "--pkg-fmt", "--bin-dir", "--manifest-path"];
        proof {
            assert(str_views(r@) =~= super::known_flags_spec(PackageManager::CargoBinstall));
        }
        r
    }

    fn capture_flags(self) -> (r: Vec<CaptureFlag>) {
        let r: Vec<CaptureFlag> = vec![CaptureFlag::Single("--git"), CaptureFlag::DynamicValue("--version"), CaptureFlag::DynamicValue("--targets")];
        proof {
            assert(super::cf_views(r@) =~= super::capture_flags_spec(PackageManager::CargoBinstall));
        }
        r
    }

    fn invalidating_flags(self) -> (r: Vec<&'static str>) {
        let r: Vec<&'static str> = Vec::new();
        proof {
            assert(str_views(r@) =~= super::invalidating_flags_spec(PackageManager::CargoBinstall));
        }
        r
    }
}

impl From<CargoBinstall> for PackageManager {
    fn from(x: CargoBinstall) -> (r: PackageManager) {
        PackageManager::CargoBinstall
    }
}

impl vstd::std_specs::convert::FromSpecImpl<CargoBinstall> for PackageManager {
    open spec fn obeys_from_spec() -> bool {
        true
    }

    open spec fn from_spec(v: CargoBinstall) -> PackageManager {
        PackageManager::CargoBinstall
    }
}

} // verus!
