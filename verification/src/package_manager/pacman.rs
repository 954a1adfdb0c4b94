//! The Pacman descriptor.

use vstd::prelude::*;
use vstd::string::StringExecFns;
use vstd::string::StrSliceExecFns;
use super::{CaptureFlag, PackageInstalledMethod, PackageManager, PackageManagerTrait};
use crate::Os;
use crate::strutil::str_views;

verus! {

#[derive(Debug, Default, Copy, Clone, Eq, PartialEq, Structural)]
pub struct Pacman;

impl PackageManagerTrait for Pacman {
    open spec fn manager(self) -> PackageManager {
        PackageManager::Pacman
    }

    fn full_name(self) -> (r: &'static str) {
        "Pacman"
    }

    fn commands(self) -> (r: Vec<&'static str>) {
        let r: Vec<&'static str> = vec!["pacman"];
        proof {
            assert(str_views(r@) =~= super::commands_spec(PackageManager::Pacman));
        }
        r
    }

    fn sub_commands(self) -> (r: Vec<&'static str>) {
        let r: Vec<&'static str> = vec!["-S"];
        proof {
            assert(str_views(r@) =~= super::sub_commands_spec(PackageManager::Pacman));
        }
        r
    }

    fn install_command(self) -> (r: &'static str) {
        "pacman -S --noconfirm --quiet"
    }

    fn needs_root(self) -> (r: bool) {
        true
    }

    fn is_installed(self, package: &str, os: Os) -> (r: PackageInstalledMethod) {
        let mut s = "pacman -Q ".to_owned();
        s.append(package);
        proof {
            assert(s@ =~= super::installed_script_prefix(PackageManager::Pacman, os) + package@
                + super::installed_script_suffix(PackageManager::Pacman));
        }
        PackageInstalledMethod::Script(s)
    }

    fn known_flags_with_values(self) -> (r: Vec<&'static str>) {
        let r: Vec<&'static str> = vec!["-b", "--dbpath", "-r", "--root", "--arch", "--cachedir", "--color", "--config", "--gpgdir", "--hookdir", "--logfile", "--sysroot", "--assume-installed", "--print-format", "--ignore", "--ignoregroup", "--overwrite", "-o", "--owns", "-s", "--search", "--asdeps", "--asexplicit"];
        proof {
            assert(str_views(r@) =~= super::known_flags_spec(PackageManager::Pacman));
        }
        r
    }

    fn capture_flags(self) -> (r: Vec<CaptureFlag>) {
        let r: Vec<CaptureFlag> = Vec::new();
        proof {
            assert(super::cf_views(r@) =~= super::capture_flags_spec(PackageManager::Pacman));
        }
        r
    }

    fn invalidating_flags(self) -> (r: Vec<&'static str>) {
        let r: Vec<&'static str> = Vec::new();
        proof {
            assert(str_views(r@) =~= super::invalidating_flags_spec(PackageManager::Pacman));
        }
        r
    }
}

impl From<Pacman> for PackageManager {
    fn from(x: Pacman) -> (r: PackageManager) {
        PackageManager::Pacman
    }
}

impl vstd::std_specs::convert::FromSpecImpl<Pacman> for PackageManager {
    open spec fn obeys_from_spec() -> bool {
        true
    }

    open spec fn from_spec(v: Pacman) -> PackageManager {
        PackageManager::Pacman
    }
}

} // verus!
