//! The closed set of package-manager descriptors.
//!
//! One enum variant per supported manager; the grammar of each manager's
//! install invocation is given by the spec tables in this module, and the
//! executable accessors are proved to return exactly those tables.

pub mod apt;
pub mod brew;
pub mod cargo;
pub mod cargo_binstall;
pub mod chocolatey;
pub mod dnf;
pub mod gem;
pub mod go;
pub mod guix;
pub mod nix;
pub mod npm;
pub mod pacman;
pub mod paru;
pub mod pip;
pub mod pip3;
pub mod pkg;
pub mod rua;
pub mod rustup;
pub mod scoop;
pub mod snap;
pub mod yay;
pub mod zypper;

pub use apt::Apt;
pub use brew::Brew;
pub use cargo::Cargo;
pub use cargo_binstall::CargoBinstall;
pub use chocolatey::Chocolatey;
pub use dnf::Dnf;
pub use gem::Gem;
pub use go::Go;
pub use guix::Guix;
pub use nix::Nix;
pub use npm::Npm;
pub use pacman::Pacman;
pub use paru::Paru;
pub use pip::Pip;
pub use pip3::Pip3;
pub use pkg::Pkg;
pub use rua::Rua;
pub use rustup::Rustup;
pub use scoop::Scoop;
pub use snap::Snap;
pub use yay::Yay;
pub use zypper::Zypper;

use vstd::prelude::*;
use vstd::string::StringExecFns;
use vstd::string::StrSliceExecFns;
use crate::Os;
use crate::strutil::str_views;
use crate::strutil::views;

verus! {

/// Every supported package manager.
#[derive(Debug, Copy, Clone, Eq, PartialEq, Structural)]
pub enum PackageManager {
    Apt,
    Brew,
    Cargo,
    CargoBinstall,
    Chocolatey,
    Dnf,
    Gem,
    Go,
    Guix,
    Nix,
    Npm,
    Pacman,
    Paru,
    Pip,
    Pip3,
    Pkg,
    Rua,
    Rustup,
    Scoop,
    Snap,
    Yay,
    Zypper,
}

/// A command-line flag that is worth keeping beside the package name.
#[derive(Debug, Copy, Clone)]
pub enum CaptureFlag {
    /// A single flag argument without a value.
    Single(&'static str),
    /// A flag argument captured only when the following token has this exact value.
    SetValue(&'static str, &'static str),
    /// A flag argument that always captures the following token as its value.
    DynamicValue(&'static str),
}

/// The mathematical value of a [`CaptureFlag`].
pub enum CaptureFlagV {
    Single(Seq<char>),
    SetValue(Seq<char>, Seq<char>),
    DynamicValue(Seq<char>),
}

/// The view of a capture flag.
pub open spec fn cf_view(c: CaptureFlag) -> CaptureFlagV {
    match c {
        CaptureFlag::Single(f) => CaptureFlagV::Single(f@),
        CaptureFlag::SetValue(f, v) => CaptureFlagV::SetValue(f@, v@),
        CaptureFlag::DynamicValue(f) => CaptureFlagV::DynamicValue(f@),
    }
}

/// The views of a sequence of capture flags.
pub open spec fn cf_views(v: Seq<CaptureFlag>) -> Seq<CaptureFlagV> {
    v.map_values(|c: CaptureFlag| cf_view(c))
}

/// The flag word of a capture flag.
pub open spec fn cf_flag(c: CaptureFlagV) -> Seq<char> {
    match c {
        CaptureFlagV::Single(f) => f,
        CaptureFlagV::SetValue(f, _) => f,
        CaptureFlagV::DynamicValue(f) => f,
    }
}

impl CaptureFlag {
    /// Extract the flag word, which every variant carries.
    pub fn flag(self) -> (r: &'static str)
        ensures
            r@ == cf_flag(cf_view(self)),
    {
        match self {
            CaptureFlag::Single(f) => f,
            CaptureFlag::SetValue(f, _) => f,
            CaptureFlag::DynamicValue(f) => f,
        }
    }
}

/// The way a package is checked for being installed already.
pub enum PackageInstalledMethod {
    /// A command line script checks whether the package is installed.
    Script(String),
    /// A file or directory on the filesystem is checked for existence.
    Path(String),
}

/// The mathematical value of a [`PackageInstalledMethod`].
pub enum InstalledMethodV {
    Script(Seq<char>),
    Path(Seq<char>),
}

/// The view of an installed-check method.
pub open spec fn im_view(m: PackageInstalledMethod) -> InstalledMethodV {
    match m {
        PackageInstalledMethod::Script(s) => InstalledMethodV::Script(s@),
        PackageInstalledMethod::Path(p) => InstalledMethodV::Path(p@),
    }
}

pub open spec fn full_name_spec(pm: PackageManager) -> Seq<char> {
    match pm {
        PackageManager::Apt => "Advance Package Tool"@,
        PackageManager::Brew => "Homebrew"@,
        PackageManager::Cargo => "Cargo Rust"@,
        PackageManager::CargoBinstall => "Cargo B(inary)Install"@,
        PackageManager::Chocolatey => "Chocolatey"@,
        PackageManager::Dnf => "Dandified yum"@,
        PackageManager::Gem => "Ruby Gem"@,
        PackageManager::Go => "Go"@,
        PackageManager::Guix => "GNU Guix"@,
        PackageManager::Nix => "Nix"@,
        PackageManager::Npm => "Node Package Manager"@,
        PackageManager::Pacman => "Pacman"@,
        PackageManager::Paru => "Paru"@,
        PackageManager::Pip => "Python Pip"@,
        PackageManager::Pip3 => "Python 3 Pip"@,
        PackageManager::Pkg => "Pkg"@,
        PackageManager::Rua => "RUA"@,
        PackageManager::Rustup => "Rustup Rust"@,
        PackageManager::Scoop => "Scoop"@,
        PackageManager::Snap => "Snap"@,
        PackageManager::Yay => "Yay"@,
        PackageManager::Zypper => "Command-line interface to ZYpp system management library"@,
    }
}
pub open spec fn commands_spec(pm: PackageManager) -> Seq<Seq<char>> {
    match pm {
        PackageManager::Apt => seq!["apt"@, "apt-get"@],
        PackageManager::Brew => seq!["brew"@],
        PackageManager::Cargo => seq!["cargo"@],
        PackageManager::CargoBinstall => seq!["cargo"@],
        PackageManager::Chocolatey => seq!["choco"@],
        PackageManager::Dnf => seq!["dnf"@, "yum"@],
        PackageManager::Gem => seq!["gem"@],
        PackageManager::Go => seq!["go"@],
        PackageManager::Guix => seq!["guix"@],
        PackageManager::Nix => seq!["nix-env"@],
        PackageManager::Npm => seq!["npm"@],
        PackageManager::Pacman => seq!["pacman"@],
        PackageManager::Paru => seq!["paru"@],
        PackageManager::Pip => seq!["pip"@],
        PackageManager::Pip3 => seq!["pip3"@],
        PackageManager::Pkg => seq!["pkg"@],
        PackageManager::Rua => seq!["rua"@],
        PackageManager::Rustup => seq!["rustup"@],
        PackageManager::Scoop => seq!["scoop"@],
        PackageManager::Snap => seq!["snap"@],
        PackageManager::Yay => seq!["yay"@],
        PackageManager::Zypper => seq!["zypper"@, "zin"@, "zinr"@],
    }
}
pub open spec fn sub_commands_spec(pm: PackageManager) -> Seq<Seq<char>> {
    match pm {
        PackageManager::Apt => seq!["install"@],
        PackageManager::Brew => seq!["install"@],
        PackageManager::Cargo => seq!["install"@],
        PackageManager::CargoBinstall => seq!["binstall"@],
        PackageManager::Chocolatey => seq!["install"@],
        PackageManager::Dnf => seq!["install"@],
        PackageManager::Gem => seq!["install"@],
        PackageManager::Go => seq!["get"@],
        PackageManager::Guix => seq!["install"@],
        PackageManager::Nix => seq!["-i"@, "--install"@, "-iA"@],
        PackageManager::Npm => seq!["install"@],
        PackageManager::Pacman => seq!["-S"@],
        PackageManager::Paru => seq!["-S"@],
        PackageManager::Pip => seq!["install"@],
        PackageManager::Pip3 => seq!["install"@],
        PackageManager::Pkg => seq!["install"@],
        PackageManager::Rua => seq!["install"@],
        PackageManager::Rustup => seq!["component add"@],
        PackageManager::Scoop => seq!["install"@],
        PackageManager::Snap => seq!["install"@],
        PackageManager::Yay => seq!["-S"@],
        PackageManager::Zypper => seq!["install"@, "in"@, "inr"@],
    }
}
pub open spec fn install_command_spec(pm: PackageManager) -> Seq<char> {
    match pm {
        PackageManager::Apt => "apt-get install -y"@,
        PackageManager::Brew => "brew install"@,
        PackageManager::Cargo => "cargo install --quiet"@,
        PackageManager::CargoBinstall => "cargo binstall --quiet"@,
        PackageManager::Chocolatey => "choco install -y"@,
        PackageManager::Dnf => "dnf install -y"@,
        PackageManager::Gem => "gem install"@,
        PackageManager::Go => "go get -u"@,
        PackageManager::Guix => "guix install"@,
        PackageManager::Nix => "nix-env -iA -g"@,
        PackageManager::Npm => "npm install -g"@,
        PackageManager::Pacman => "pacman -S --noconfirm --quiet"@,
        PackageManager::Paru => "paru -S --noconfirm --quiet"@,
        PackageManager::Pip => "pip install -q"@,
        PackageManager::Pip3 => "pip install -q"@,
        PackageManager::Pkg => "pkg install -y"@,
        PackageManager::Rua => "rua install"@,
        PackageManager::Rustup => "rustup component add"@,
        PackageManager::Scoop => "cmd /c scoop install"@,
        PackageManager::Snap => "snap install"@,
        PackageManager::Yay => "yay -S --noconfirm --quiet"@,
        PackageManager::Zypper => "zypper install -y"@,
    }
}
pub open spec fn needs_root_spec(pm: PackageManager) -> bool {
    match pm {
        PackageManager::Apt => true,
        PackageManager::Brew => true,
        PackageManager::Cargo => false,
        PackageManager::CargoBinstall => false,
        PackageManager::Chocolatey => true,
        PackageManager::Dnf => true,
        PackageManager::Gem => false,
        PackageManager::Go => false,
        PackageManager::Guix => false,
        PackageManager::Nix => false,
        PackageManager::Npm => false,
        PackageManager::Pacman => true,
        PackageManager::Paru => true,
        PackageManager::Pip => true,
        PackageManager::Pip3 => true,
        PackageManager::Pkg => true,
        PackageManager::Rua => false,
        PackageManager::Rustup => false,
        PackageManager::Scoop => true,
        PackageManager::Snap => true,
        PackageManager::Yay => false,
        PackageManager::Zypper => true,
    }
}
pub open spec fn installed_script_prefix(pm: PackageManager, os: Os) -> Seq<char> {
    match pm {
        PackageManager::Apt => "dpkg -s "@,
        PackageManager::Brew => "brew list "@,
        PackageManager::Cargo => match os {
            Os::Posix => "cargo install --list | grep 'v[0-9]' | grep -q "@,
            Os::Windows => "cargo install --list | findstr "@,
        },
        PackageManager::CargoBinstall => match os {
            Os::Posix => "cargo install --list | grep 'v[0-9]' | grep -q "@,
            Os::Windows => "cargo install --list | findstr "@,
        },
        PackageManager::Chocolatey => "choco feature enable --name=\"'useEnhancedExitCodes'\" && choco search -le --no-color "@,
        PackageManager::Dnf => "dnf info "@,
        PackageManager::Gem => "gem -i "@,
        PackageManager::Go => "go list ... | grep -q "@,
        PackageManager::Guix => "guix --list-installed=\"^"@,
        PackageManager::Nix => "nix-env -q | grep -q "@,
        PackageManager::Npm => match os {
            Os::Posix => "npm list --depth=0 -g | grep -q "@,
            Os::Windows => "npm list --depth=0 -g | findstr "@,
        },
        PackageManager::Pacman => "pacman -Q "@,
        PackageManager::Paru => "paru -Q "@,
        PackageManager::Pip => "pip show -q "@,
        PackageManager::Pip3 => "pip3 show -q "@,
        PackageManager::Pkg => "pkg_info | grep -q "@,
        PackageManager::Rua => "rua search "@,
        PackageManager::Rustup => match os {
            Os::Posix => "rustup component list | grep -q "@,
            Os::Windows => "rustup component list | findstr "@,
        },
        PackageManager::Scoop => "scoop list | findstr "@,
        PackageManager::Snap => "snap | grep -Eo '^[^ ]+' | grep -q "@,
        PackageManager::Yay => "yay -Q "@,
        PackageManager::Zypper => "zypper info "@,
    }
}
pub open spec fn installed_script_suffix(pm: PackageManager) -> Seq<char> {
    match pm {
        PackageManager::Apt => Seq::empty(),
        PackageManager::Brew => Seq::empty(),
        PackageManager::Cargo => Seq::empty(),
        PackageManager::CargoBinstall => Seq::empty(),
        PackageManager::Chocolatey => Seq::empty(),
        PackageManager::Dnf => Seq::empty(),
        PackageManager::Gem => Seq::empty(),
        PackageManager::Go => Seq::empty(),
        PackageManager::Guix => "$\""@,
        PackageManager::Nix => Seq::empty(),
        PackageManager::Npm => Seq::empty(),
        PackageManager::Pacman => Seq::empty(),
        PackageManager::Paru => Seq::empty(),
        PackageManager::Pip => Seq::empty(),
        PackageManager::Pip3 => Seq::empty(),
        PackageManager::Pkg => Seq::empty(),
        PackageManager::Rua => Seq::empty(),
        PackageManager::Rustup => Seq::empty(),
        PackageManager::Scoop => Seq::empty(),
        PackageManager::Snap => Seq::empty(),
        PackageManager::Yay => Seq::empty(),
        PackageManager::Zypper => Seq::empty(),
    }
}
pub open spec fn known_flags_spec(pm: PackageManager) -> Seq<Seq<char>> {
    match pm {
        PackageManager::Apt => seq!["-c"@, "--config-file"@, "-o"@, "--option"@, "-q"@, "--quiet"@],
        PackageManager::Brew => seq!["--env"@, "--cc"@],
        PackageManager::Cargo => seq!["-Z"@, "--version"@, "-j"@, "--jobs"@],
        PackageManager::CargoBinstall => seq!["--log-level"@, "--github-token"@, "--root-certificates"@, "--min-tls-version"@, "--registry"@, "--index"@, "--root"@, "--install-path"@, "--disable-strategies"@, "--strategies"@, "--rate-limit"@, "--pkg-url"@, "--pkg-fmt"@, "--bin-dir"@, "--manifest-path"@],
        PackageManager::Chocolatey => Seq::empty(),
        PackageManager::Dnf => Seq::empty(),
        PackageManager::Gem => seq!["-n"@, "--bindir"@, "--document"@, "--build-root"@, "-P"@, "--trust-policy"@, "-g"@, "--file"@, "--without"@, "-s"@, "--source"@, "-B"@, "--bulk-treshold"@, "-p"@, "--http-proxy"@, "--config-file"@],
        PackageManager::Go => Seq::empty(),
        PackageManager::Guix => seq!["-L"@, "--load-path"@, "-v"@, "--verbosity"@, "--max-silent-time"@, "-c"@, "--cores"@, "-M"@, "--max-jobs"@, "--debug"@],
        PackageManager::Nix => Seq::empty(),
        PackageManager::Npm => Seq::empty(),
        PackageManager::Pacman => seq!["-b"@, "--dbpath"@, "-r"@, "--root"@, "--arch"@, "--cachedir"@, "--color"@, "--config"@, "--gpgdir"@, "--hookdir"@, "--logfile"@, "--sysroot"@, "--assume-installed"@, "--print-format"@, "--ignore"@, "--ignoregroup"@, "--overwrite"@, "-o"@, "--owns"@, "-s"@, "--search"@, "--asdeps"@, "--asexplicit"@],
        PackageManager::Paru => seq!["-b"@, "--dbpath"@, "-r"@, "--root"@, "--arch"@, "--cachedir"@, "--color"@, "--config"@, "--gpgdir"@, "--hookdir"@, "--logfile"@, "--sysroot"@, "--assume-installed"@, "--print-format"@, "--ignore"@, "--ignoregroup"@, "--overwrite"@, "-o"@, "--owns"@, "-s"@, "--search"@, "--asdeps"@, "--asexplicit"@, "--clonedir"@, "--makepkg"@, "--makepkgconf"@, "--pacman"@, "--pacman-conf"@, "--git"@, "--gitflags"@, "--gpg"@, "--gpgflags"@, "--fm"@, "--asp"@, "--mflags"@, "--bat"@, "--batflags"@, "--sudo"@, "--sudoflags"@, "--chrootflags"@, "--completioninterval"@, "--sortby"@, "--searchby"@, "--removemake"@, "--limit"@, "--redownload"@, "--rebuild"@, "--sudoloop"@, "--localrepo"@, "--chroot"@, "--sign"@, "--signdb"@],
        PackageManager::Pip => Seq::empty(),
        PackageManager::Pip3 => Seq::empty(),
        PackageManager::Pkg => Seq::empty(),
        PackageManager::Rua => Seq::empty(),
        PackageManager::Rustup => Seq::empty(),
        PackageManager::Scoop => Seq::empty(),
        PackageManager::Snap => Seq::empty(),
        PackageManager::Yay => Seq::empty(),
        PackageManager::Zypper => seq!["-c"@, "--config"@, "-q"@, "--quiet"@],
    }
}
pub open spec fn capture_flags_spec(pm: PackageManager) -> Seq<CaptureFlagV> {
    match pm {
        PackageManager::Apt => seq![CaptureFlagV::SetValue("-t"@, "experimental"@)],
        PackageManager::Brew => seq![CaptureFlagV::Single("cask"@), CaptureFlagV::Single("--devel"@), CaptureFlagV::Single("--HEAD"@), CaptureFlagV::Single("--fetch-HEAD"@)],
        PackageManager::Cargo => seq![CaptureFlagV::Single("--git"@), CaptureFlagV::DynamicValue("--branch"@), CaptureFlagV::Single("+nightly"@), CaptureFlagV::Single("+stable"@), CaptureFlagV::Single("+beta"@), CaptureFlagV::Single("--no-default-features"@), CaptureFlagV::DynamicValue("--features"@)],
        PackageManager::CargoBinstall => seq![CaptureFlagV::Single("--git"@), CaptureFlagV::DynamicValue("--version"@), CaptureFlagV::DynamicValue("--targets"@)],
        PackageManager::Chocolatey => Seq::empty(),
        PackageManager::Dnf => Seq::empty(),
        PackageManager::Gem => seq![CaptureFlagV::DynamicValue("-i"@), CaptureFlagV::DynamicValue("--install-dir"@), CaptureFlagV::DynamicValue("--platform"@), CaptureFlagV::DynamicValue("-v"@), CaptureFlagV::DynamicValue("--version"@)],
        PackageManager::Go => Seq::empty(),
        PackageManager::Guix => seq![CaptureFlagV::DynamicValue("-p"@), CaptureFlagV::DynamicValue("--profile"@)],
        PackageManager::Nix => seq![CaptureFlagV::DynamicValue("-f"@)],
        PackageManager::Npm => Seq::empty(),
        PackageManager::Pacman => Seq::empty(),
        PackageManager::Paru => Seq::empty(),
        PackageManager::Pip => seq![CaptureFlagV::Single("--user"@)],
        PackageManager::Pip3 => seq![CaptureFlagV::Single("--user"@)],
        PackageManager::Pkg => seq![CaptureFlagV::DynamicValue("--repository"@), CaptureFlagV::DynamicValue("-r"@)],
        PackageManager::Rua => Seq::empty(),
        PackageManager::Rustup => seq![CaptureFlagV::DynamicValue("--target"@), CaptureFlagV::DynamicValue("--toolchain"@)],
        PackageManager::Scoop => Seq::empty(),
        PackageManager::Snap => Seq::empty(),
        PackageManager::Yay => Seq::empty(),
        PackageManager::Zypper => Seq::empty(),
    }
}
pub open spec fn invalidating_flags_spec(pm: PackageManager) -> Seq<Seq<char>> {
    match pm {
        PackageManager::Apt => Seq::empty(),
        PackageManager::Brew => Seq::empty(),
        PackageManager::Cargo => seq!["--path"@],
        PackageManager::CargoBinstall => Seq::empty(),
        PackageManager::Chocolatey => Seq::empty(),
        PackageManager::Dnf => Seq::empty(),
        PackageManager::Gem => Seq::empty(),
        PackageManager::Go => Seq::empty(),
        PackageManager::Guix => Seq::empty(),
        PackageManager::Nix => Seq::empty(),
        PackageManager::Npm => Seq::empty(),
        PackageManager::Pacman => Seq::empty(),
        PackageManager::Paru => Seq::empty(),
        PackageManager::Pip => seq!["-r"@],
        PackageManager::Pip3 => seq!["-r"@],
        PackageManager::Pkg => Seq::empty(),
        PackageManager::Rua => Seq::empty(),
        PackageManager::Rustup => Seq::empty(),
        PackageManager::Scoop => Seq::empty(),
        PackageManager::Snap => Seq::empty(),
        PackageManager::Yay => Seq::empty(),
        PackageManager::Zypper => Seq::empty(),
    }
}

/// The installed-check for `name` under manager `pm` on `os`: a shell script
/// built around the package name.
pub open spec fn is_installed_spec(pm: PackageManager, name: Seq<char>, os: Os) -> InstalledMethodV {
    InstalledMethodV::Script(
        installed_script_prefix(pm, os) + name + installed_script_suffix(pm),
    )
}

/// Every descriptor, in the fixed order in which lines are matched.
pub open spec fn manager_list() -> Seq<PackageManager> {
    seq![
        PackageManager::Apt,
        PackageManager::Brew,
        PackageManager::Cargo,
        PackageManager::CargoBinstall,
        PackageManager::Chocolatey,
        PackageManager::Dnf,
        PackageManager::Gem,
        PackageManager::Go,
        PackageManager::Guix,
        PackageManager::Nix,
        PackageManager::Npm,
        PackageManager::Pacman,
        PackageManager::Paru,
        PackageManager::Pip,
        PackageManager::Pip3,
        PackageManager::Pkg,
        PackageManager::Rua,
        PackageManager::Rustup,
        PackageManager::Scoop,
        PackageManager::Snap,
        PackageManager::Yay,
        PackageManager::Zypper
    ]
}

/// Enumerate every descriptor, in matching order.
pub fn all_managers() -> (r: Vec<PackageManager>)
    ensures
        r@ == manager_list(),
{
    let r = vec![
        PackageManager::Apt,
        PackageManager::Brew,
        PackageManager::Cargo,
        PackageManager::CargoBinstall,
        PackageManager::Chocolatey,
        PackageManager::Dnf,
        PackageManager::Gem,
        PackageManager::Go,
        PackageManager::Guix,
        PackageManager::Nix,
        PackageManager::Npm,
        PackageManager::Pacman,
        PackageManager::Paru,
        PackageManager::Pip,
        PackageManager::Pip3,
        PackageManager::Pkg,
        PackageManager::Rua,
        PackageManager::Rustup,
        PackageManager::Scoop,
        PackageManager::Snap,
        PackageManager::Yay,
        PackageManager::Zypper
    ];
    proof {
        assert(r@ =~= manager_list());
    }
    r
}

/// What every descriptor of one package manager must supply.
pub trait PackageManagerTrait: Sized {
    /// The enum case this descriptor stands for.
    spec fn manager(self) -> PackageManager;

    /// A descriptive name.
    fn full_name(self) -> (r: &'static str)
        ensures
            r@ == full_name_spec(self.manager()),
    ;

    /// The command-line word(s) that invoke the package manager.
    fn commands(self) -> (r: Vec<&'static str>)
        ensures
            str_views(r@) == commands_spec(self.manager()),
    ;

    /// The sub-command(s) that mark an installation of new packages.
    fn sub_commands(self) -> (r: Vec<&'static str>)
        ensures
            str_views(r@) == sub_commands_spec(self.manager()),
    ;

    /// The command used to install a new package later.
    fn install_command(self) -> (r: &'static str)
        ensures
            r@ == install_command_spec(self.manager()),
    ;

    /// Whether installing needs administrative permissions.
    fn needs_root(self) -> (r: bool)
        ensures
            r == needs_root_spec(self.manager()),
    ;

    /// How to check whether `package` is already installed, under the
    /// conventions of `os`.
    fn is_installed(self, package: &str, os: Os) -> (r: PackageInstalledMethod)
        ensures
            im_view(r) == is_installed_spec(self.manager(), package@, os),
    ;

    /// Flags that take an extra argument, which is then not a package name.
    fn known_flags_with_values(self) -> (r: Vec<&'static str>)
        ensures
            str_views(r@) == known_flags_spec(self.manager()),
    ;

    /// Flags that are kept beside the captured package.
    fn capture_flags(self) -> (r: Vec<CaptureFlag>)
        ensures
            cf_views(r@) == capture_flags_spec(self.manager()),
    ;

    /// Flags whose presence means the line is not a real install.
    fn invalidating_flags(self) -> (r: Vec<&'static str>)
        ensures
            str_views(r@) == invalidating_flags_spec(self.manager()),
    ;
}

impl PackageManagerTrait for PackageManager {
    open spec fn manager(self) -> PackageManager {
        self
    }

    fn full_name(self) -> (r: &'static str) {
        match self {
            PackageManager::Apt => Apt.full_name(),
            PackageManager::Brew => Brew.full_name(),
            PackageManager::Cargo => Cargo.full_name(),
            PackageManager::CargoBinstall => CargoBinstall.full_name(),
            PackageManager::Chocolatey => Chocolatey.full_name(),
            PackageManager::Dnf => Dnf.full_name(),
            PackageManager::Gem => Gem.full_name(),
            PackageManager::Go => Go.full_name(),
            PackageManager::Guix => Guix.full_name(),
            PackageManager::Nix => Nix.full_name(),
            PackageManager::Npm => Npm.full_name(),
            PackageManager::Pacman => Pacman.full_name(),
            PackageManager::Paru => Paru.full_name(),
            PackageManager::Pip => Pip.full_name(),
            PackageManager::Pip3 => Pip3.full_name(),
            PackageManager::Pkg => Pkg.full_name(),
            PackageManager::Rua => Rua.full_name(),
            PackageManager::Rustup => Rustup.full_name(),
            PackageManager::Scoop => Scoop.full_name(),
            PackageManager::Snap => Snap.full_name(),
            PackageManager::Yay => Yay.full_name(),
            PackageManager::Zypper => Zypper.full_name(),
        }
    }

    fn commands(self) -> (r: Vec<&'static str>) {
        match self {
            PackageManager::Apt => Apt.commands(),
            PackageManager::Brew => Brew.commands(),
            PackageManager::Cargo => Cargo.commands(),
            PackageManager::CargoBinstall => CargoBinstall.commands(),
            PackageManager::Chocolatey => Chocolatey.commands(),
            PackageManager::Dnf => Dnf.commands(),
            PackageManager::Gem => Gem.commands(),
            PackageManager::Go => Go.commands(),
            PackageManager::Guix => Guix.commands(),
            PackageManager::Nix => Nix.commands(),
            PackageManager::Npm => Npm.commands(),
            PackageManager::Pacman => Pacman.commands(),
            PackageManager::Paru => Paru.commands(),
            PackageManager::Pip => Pip.commands(),
            PackageManager::Pip3 => Pip3.commands(),
            PackageManager::Pkg => Pkg.commands(),
            PackageManager::Rua => Rua.commands(),
            PackageManager::Rustup => Rustup.commands(),
            PackageManager::Scoop => Scoop.commands(),
            PackageManager::Snap => Snap.commands(),
            PackageManager::Yay => Yay.commands(),
            PackageManager::Zypper => Zypper.commands(),
        }
    }

    fn sub_commands(self) -> (r: Vec<&'static str>) {
        match self {
            PackageManager::Apt => Apt.sub_commands(),
            PackageManager::Brew => Brew.sub_commands(),
            PackageManager::Cargo => Cargo.sub_commands(),
            PackageManager::CargoBinstall => CargoBinstall.sub_commands(),
            PackageManager::Chocolatey => Chocolatey.sub_commands(),
            PackageManager::Dnf => Dnf.sub_commands(),
            PackageManager::Gem => Gem.sub_commands(),
            PackageManager::Go => Go.sub_commands(),
            PackageManager::Guix => Guix.sub_commands(),
            PackageManager::Nix => Nix.sub_commands(),
            PackageManager::Npm => Npm.sub_commands(),
            PackageManager::Pacman => Pacman.sub_commands(),
            PackageManager::Paru => Paru.sub_commands(),
            PackageManager::Pip => Pip.sub_commands(),
            PackageManager::Pip3 => Pip3.sub_commands(),
            PackageManager::Pkg => Pkg.sub_commands(),
            PackageManager::Rua => Rua.sub_commands(),
            PackageManager::Rustup => Rustup.sub_commands(),
            PackageManager::Scoop => Scoop.sub_commands(),
            PackageManager::Snap => Snap.sub_commands(),
            PackageManager::Yay => Yay.sub_commands(),
            PackageManager::Zypper => Zypper.sub_commands(),
        }
    }

    fn install_command(self) -> (r: &'static str) {
        match self {
            PackageManager::Apt => Apt.install_command(),
            PackageManager::Brew => Brew.install_command(),
            PackageManager::Cargo => Cargo.install_command(),
            PackageManager::CargoBinstall => CargoBinstall.install_command(),
            PackageManager::Chocolatey => Chocolatey.install_command(),
            PackageManager::Dnf => Dnf.install_command(),
            PackageManager::Gem => Gem.install_command(),
            PackageManager::Go => Go.install_command(),
            PackageManager::Guix => Guix.install_command(),
            PackageManager::Nix => Nix.install_command(),
            PackageManager::Npm => Npm.install_command(),
            PackageManager::Pacman => Pacman.install_command(),
            PackageManager::Paru => Paru.install_command(),
            PackageManager::Pip => Pip.install_command(),
            PackageManager::Pip3 => Pip3.install_command(),
            PackageManager::Pkg => Pkg.install_command(),
            PackageManager::Rua => Rua.install_command(),
            PackageManager::Rustup => Rustup.install_command(),
            PackageManager::Scoop => Scoop.install_command(),
            PackageManager::Snap => Snap.install_command(),
            PackageManager::Yay => Yay.install_command(),
            PackageManager::Zypper => Zypper.install_command(),
        }
    }

    fn needs_root(self) -> (r: bool) {
        match self {
            PackageManager::Apt => Apt.needs_root(),
            PackageManager::Brew => Brew.needs_root(),
            PackageManager::Cargo => Cargo.needs_root(),
            PackageManager::CargoBinstall => CargoBinstall.needs_root(),
            PackageManager::Chocolatey => Chocolatey.needs_root(),
            PackageManager::Dnf => Dnf.needs_root(),
            PackageManager::Gem => Gem.needs_root(),
            PackageManager::Go => Go.needs_root(),
            PackageManager::Guix => Guix.needs_root(),
            PackageManager::Nix => Nix.needs_root(),
            PackageManager::Npm => Npm.needs_root(),
            PackageManager::Pacman => Pacman.needs_root(),
            PackageManager::Paru => Paru.needs_root(),
            PackageManager::Pip => Pip.needs_root(),
            PackageManager::Pip3 => Pip3.needs_root(),
            PackageManager::Pkg => Pkg.needs_root(),
            PackageManager::Rua => Rua.needs_root(),
            PackageManager::Rustup => Rustup.needs_root(),
            PackageManager::Scoop => Scoop.needs_root(),
            PackageManager::Snap => Snap.needs_root(),
            PackageManager::Yay => Yay.needs_root(),
            PackageManager::Zypper => Zypper.needs_root(),
        }
    }

    fn is_installed(self, package: &str, os: Os) -> (r: PackageInstalledMethod) {
        match self {
            PackageManager::Apt => Apt.is_installed(package, os),
            PackageManager::Brew => Brew.is_installed(package, os),
            PackageManager::Cargo => Cargo.is_installed(package, os),
            PackageManager::CargoBinstall => CargoBinstall.is_installed(package, os),
            PackageManager::Chocolatey => Chocolatey.is_installed(package, os),
            PackageManager::Dnf => Dnf.is_installed(package, os),
            PackageManager::Gem => Gem.is_installed(package, os),
            PackageManager::Go => Go.is_installed(package, os),
            PackageManager::Guix => Guix.is_installed(package, os),
            PackageManager::Nix => Nix.is_installed(package, os),
            PackageManager::Npm => Npm.is_installed(package, os),
            PackageManager::Pacman => Pacman.is_installed(package, os),
            PackageManager::Paru => Paru.is_installed(package, os),
            PackageManager::Pip => Pip.is_installed(package, os),
            PackageManager::Pip3 => Pip3.is_installed(package, os),
            PackageManager::Pkg => Pkg.is_installed(package, os),
            PackageManager::Rua => Rua.is_installed(package, os),
            PackageManager::Rustup => Rustup.is_installed(package, os),
            PackageManager::Scoop => Scoop.is_installed(package, os),
            PackageManager::Snap => Snap.is_installed(package, os),
            PackageManager::Yay => Yay.is_installed(package, os),
            PackageManager::Zypper => Zypper.is_installed(package, os),
        }
    }

    fn known_flags_with_values(self) -> (r: Vec<&'static str>) {
        match self {
            PackageManager::Apt => Apt.known_flags_with_values(),
            PackageManager::Brew => Brew.known_flags_with_values(),
            PackageManager::Cargo => Cargo.known_flags_with_values(),
            PackageManager::CargoBinstall => CargoBinstall.known_flags_with_values(),
            PackageManager::Chocolatey => Chocolatey.known_flags_with_values(),
            PackageManager::Dnf => Dnf.known_flags_with_values(),
            PackageManager::Gem => Gem.known_flags_with_values(),
            PackageManager::Go => Go.known_flags_with_values(),
            PackageManager::Guix => Guix.known_flags_with_values(),
            PackageManager::Nix => Nix.known_flags_with_values(),
            PackageManager::Npm => Npm.known_flags_with_values(),
            PackageManager::Pacman => Pacman.known_flags_with_values(),
            PackageManager::Paru => Paru.known_flags_with_values(),
            PackageManager::Pip => Pip.known_flags_with_values(),
            PackageManager::Pip3 => Pip3.known_flags_with_values(),
            PackageManager::Pkg => Pkg.known_flags_with_values(),
            PackageManager::Rua => Rua.known_flags_with_values(),
            PackageManager::Rustup => Rustup.known_flags_with_values(),
            PackageManager::Scoop => Scoop.known_flags_with_values(),
            PackageManager::Snap => Snap.known_flags_with_values(),
            PackageManager::Yay => Yay.known_flags_with_values(),
            PackageManager::Zypper => Zypper.known_flags_with_values(),
        }
    }

    fn capture_flags(self) -> (r: Vec<CaptureFlag>) {
        match self {
            PackageManager::Apt => Apt.capture_flags(),
            PackageManager::Brew => Brew.capture_flags(),
            PackageManager::Cargo => Cargo.capture_flags(),
            PackageManager::CargoBinstall => CargoBinstall.capture_flags(),
            PackageManager::Chocolatey => Chocolatey.capture_flags(),
            PackageManager::Dnf => Dnf.capture_flags(),
            PackageManager::Gem => Gem.capture_flags(),
            PackageManager::Go => Go.capture_flags(),
            PackageManager::Guix => Guix.capture_flags(),
            PackageManager::Nix => Nix.capture_flags(),
            PackageManager::Npm => Npm.capture_flags(),
            PackageManager::Pacman => Pacman.capture_flags(),
            PackageManager::Paru => Paru.capture_flags(),
            PackageManager::Pip => Pip.capture_flags(),
            PackageManager::Pip3 => Pip3.capture_flags(),
            PackageManager::Pkg => Pkg.capture_flags(),
            PackageManager::Rua => Rua.capture_flags(),
            PackageManager::Rustup => Rustup.capture_flags(),
            PackageManager::Scoop => Scoop.capture_flags(),
            PackageManager::Snap => Snap.capture_flags(),
            PackageManager::Yay => Yay.capture_flags(),
            PackageManager::Zypper => Zypper.capture_flags(),
        }
    }

    fn invalidating_flags(self) -> (r: Vec<&'static str>) {
        match self {
            PackageManager::Apt => Apt.invalidating_flags(),
            PackageManager::Brew => Brew.invalidating_flags(),
            PackageManager::Cargo => Cargo.invalidating_flags(),
            PackageManager::CargoBinstall => CargoBinstall.invalidating_flags(),
            PackageManager::Chocolatey => Chocolatey.invalidating_flags(),
            PackageManager::Dnf => Dnf.invalidating_flags(),
            PackageManager::Gem => Gem.invalidating_flags(),
            PackageManager::Go => Go.invalidating_flags(),
            PackageManager::Guix => Guix.invalidating_flags(),
            PackageManager::Nix => Nix.invalidating_flags(),
            PackageManager::Npm => Npm.invalidating_flags(),
            PackageManager::Pacman => Pacman.invalidating_flags(),
            PackageManager::Paru => Paru.invalidating_flags(),
            PackageManager::Pip => Pip.invalidating_flags(),
            PackageManager::Pip3 => Pip3.invalidating_flags(),
            PackageManager::Pkg => Pkg.invalidating_flags(),
            PackageManager::Rua => Rua.invalidating_flags(),
            PackageManager::Rustup => Rustup.invalidating_flags(),
            PackageManager::Scoop => Scoop.invalidating_flags(),
            PackageManager::Snap => Snap.invalidating_flags(),
            PackageManager::Yay => Yay.invalidating_flags(),
            PackageManager::Zypper => Zypper.invalidating_flags(),
        }
    }
}

/// Each command word, followed on Windows by its `.exe` and `.cmd` variants.
pub open spec fn win_variants(cmds: Seq<Seq<char>>) -> Seq<Seq<char>>
    decreases cmds.len(),
{
    if cmds.len() == 0 {
        Seq::empty()
    } else {
        seq![cmds[0], cmds[0] + ".exe"@, cmds[0] + ".cmd"@] + win_variants(cmds.skip(1))
    }
}

/// The command words that match on the given operating system.
pub open spec fn os_commands_spec(pm: PackageManager, os: Os) -> Seq<Seq<char>> {
    match os {
        Os::Posix => commands_spec(pm),
        Os::Windows => win_variants(commands_spec(pm)),
    }
}

pub proof fn lemma_win_variants_push(cmds: Seq<Seq<char>>, x: Seq<char>)
    ensures
        win_variants(cmds.push(x)) == win_variants(cmds) + seq![x, x + ".exe"@, x + ".cmd"@],
    decreases cmds.len(),
{
    if cmds.len() == 0 {
        let triple = seq![x, x + ".exe"@, x + ".cmd"@];
        assert(cmds.push(x)[0] == x);
        assert(cmds.push(x).skip(1) =~= Seq::<Seq<char>>::empty());
        assert(win_variants(Seq::<Seq<char>>::empty()) =~= Seq::<Seq<char>>::empty());
        assert(win_variants(cmds.push(x)) == triple + win_variants(cmds.push(x).skip(1)));
        assert(triple + Seq::<Seq<char>>::empty() =~= win_variants(cmds) + triple);
    } else {
        let c0 = cmds[0];
        let triple = seq![x, x + ".exe"@, x + ".cmd"@];
        assert(cmds.push(x)[0] == c0);
        assert(cmds.push(x).skip(1) =~= cmds.skip(1).push(x));
        lemma_win_variants_push(cmds.skip(1), x);
        assert(win_variants(cmds.push(x)) == seq![c0, c0 + ".exe"@, c0 + ".cmd"@]
            + (win_variants(cmds.skip(1)) + triple));
        assert(seq![c0, c0 + ".exe"@, c0 + ".cmd"@] + (win_variants(cmds.skip(1)) + triple)
            =~= (seq![c0, c0 + ".exe"@, c0 + ".cmd"@] + win_variants(cmds.skip(1))) + triple);
    }
}

impl PackageManager {
    /// The command words of this manager on the given operating system: the
    /// bare words, with `.exe` and `.cmd` variants added on Windows.
    pub fn os_commands(self, os: Os) -> (r: Vec<String>)
        ensures
            views(r@) == os_commands_spec(self, os),
    {
        let cmds = self.commands();
        let mut out: Vec<String> = Vec::new();
        let mut i: usize = 0;
        proof {
            assert(str_views(cmds@).take(0) =~= Seq::<Seq<char>>::empty());
            assert(views(out@) =~= Seq::<Seq<char>>::empty());
            assert(win_variants(Seq::<Seq<char>>::empty()) =~= Seq::<Seq<char>>::empty());
        }
        while i < cmds.len()
            invariant
                i <= cmds@.len(),
                str_views(cmds@) == commands_spec(self),
                views(out@) == os_commands_spec_take(self, os, i as int),
            decreases cmds@.len() - i,
        {
            let c: &str = cmds[i];
            proof {
                assert(str_views(cmds@).take(i + 1) =~= str_views(cmds@).take(i as int).push(c@));
            }
            match os {
                Os::Posix => {
                    out.push(c.to_owned());
                    proof {
                        assert(views(out@) =~= os_commands_spec_take(self, os, i + 1));
                    }
                },
                Os::Windows => {
                    out.push(c.to_owned());
                    let mut exe = c.to_owned();
                    exe.append(".exe");
                    out.push(exe);
                    let mut cmdv = c.to_owned();
                    cmdv.append(".cmd");
                    out.push(cmdv);
                    proof {
                        lemma_win_variants_push(str_views(cmds@).take(i as int), c@);
                        assert(views(out@) =~= os_commands_spec_take(self, os, i + 1));
                    }
                },
            }
            i += 1;
        }
        proof {
            assert(str_views(cmds@).take(cmds@.len() as int) =~= str_views(cmds@));
        }
        out
    }
}

/// The part of [`os_commands_spec`] that comes from the first `i` command words.
pub open spec fn os_commands_spec_take(pm: PackageManager, os: Os, i: int) -> Seq<Seq<char>> {
    match os {
        Os::Posix => commands_spec(pm).take(i),
        Os::Windows => win_variants(commands_spec(pm).take(i)),
    }
}

} // verus!
