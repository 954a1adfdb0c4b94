//! Migration of package lists written by early versions of the tool, which
//! used a smaller set of managers and folded some flags into the name.

use vstd::prelude::*;
use vstd::string::StringExecFns;
use crate::package::{Package, PackageV};
use crate::package_manager::PackageManager;
use crate::strutil::{matches_at, tok, views};

verus! {

/// The manager tags of the early serialized format.
#[derive(Debug, Copy, Clone, Eq, PartialEq, Structural)]
pub enum OldPackageManager {
    Apt,
    Cargo,
    Pacman,
    Yay,
    Rua,
    Snap,
    Chocolatey,
    Scoop,
    Pip,
    Pip3,
    Npm,
    Nix,
    RustupComponent,
    PipUser,
    Pip3User,
}

/// Which current manager an old tag stands for.
pub open spec fn old_source_spec(o: OldPackageManager) -> PackageManager {
    match o {
        OldPackageManager::Apt => PackageManager::Apt,
        OldPackageManager::Cargo => PackageManager::Cargo,
        OldPackageManager::Pacman => PackageManager::Pacman,
        OldPackageManager::Yay => PackageManager::Yay,
        OldPackageManager::Rua => PackageManager::Rua,
        OldPackageManager::Snap => PackageManager::Snap,
        OldPackageManager::Chocolatey => PackageManager::Chocolatey,
        OldPackageManager::Scoop => PackageManager::Scoop,
        OldPackageManager::Pip => PackageManager::Pip,
        OldPackageManager::Pip3 => PackageManager::Pip3,
        OldPackageManager::Npm => PackageManager::Npm,
        OldPackageManager::Nix => PackageManager::Nix,
        OldPackageManager::RustupComponent => PackageManager::Rustup,
        OldPackageManager::PipUser => PackageManager::Pip,
        OldPackageManager::Pip3User => PackageManager::Pip3,
    }
}

/// The tokens of a sequence, concatenated without separators.
pub open spec fn concat_toks(ts: Seq<Seq<char>>) -> Seq<char>
    decreases ts.len(),
{
    if ts.len() == 0 {
        Seq::empty()
    } else {
        ts[0] + concat_toks(ts.skip(1))
    }
}

/// What one old record becomes: the user-install tags turn into a `--user`
/// flag, a name that carries a leading `--git` turns into that flag with the
/// remaining words of the name run together, and everything else keeps its
/// name with no flags.
pub open spec fn migrate_spec(o: OldPackageManager, name: Seq<char>) -> PackageV {
    if o == OldPackageManager::PipUser {
        PackageV { source: PackageManager::Pip, name: name, flags: seq!["--user"@] }
    } else if o == OldPackageManager::Pip3User {
        PackageV { source: PackageManager::Pip3, name: name, flags: seq!["--user"@] }
    } else if matches_at(name, "--git"@, 0) {
        PackageV {
            source: old_source_spec(o),
            name: concat_toks(tok(name).skip(1)),
            flags: seq!["--git"@],
        }
    } else {
        PackageV { source: old_source_spec(o), name: name, flags: Seq::empty() }
    }
}

/// Map an old record to a package of the current model.
pub fn migrate_package(o: OldPackageManager, name: String) -> (r: Package)
    ensures
        r@ == migrate_spec(o, name@),
{
    if o == OldPackageManager::PipUser {
        let flags = vec!["--user".to_owned()];
        let r = Package::new(PackageManager::Pip, name, flags);
        proof {
            assert(r@.flags =~= seq!["--user"@]);
            assert(r@ =~= migrate_spec(o, name@));
        }
        return r;
    }
    if o == OldPackageManager::Pip3User {
        let flags = vec!["--user".to_owned()];
        let r = Package::new(PackageManager::Pip3, name, flags);
        proof {
            assert(r@.flags =~= seq!["--user"@]);
            assert(r@ =~= migrate_spec(o, name@));
        }
        return r;
    }
    let source = old_source_exec(o);
    if crate::strutil::starts_with_pat(name.as_str(), "--git") {
        let toks = crate::strutil::tokenize(name.as_str());
        let mut new_name = String::new();
        let mut j: usize = 1;
        proof {
            reveal_strlit("--git");
            assert(name@.len() >= 5);
            assert(name@[0] == '-') by {
                assert(name@.subrange(0, 5)[0] == name@[0]);
            }
            assert(!crate::chars::is_ascii_ws(name@[0]));
            assert(tok(name@).len() >= 1);
            assert(views(toks@).skip(1).skip(0) =~= views(toks@).skip(1));
            assert(new_name@ =~= Seq::<char>::empty());
        }
        while j < toks.len()
            invariant
                1 <= j,
                j <= toks@.len(),
                views(toks@) == tok(name@),
                new_name@ + concat_toks(views(toks@).skip(j as int)) == concat_toks(
                    views(toks@).skip(1),
                ),
            decreases toks@.len() - j,
        {
            proof {
                assert(views(toks@).skip(j as int)[0] == views(toks@)[j as int]);
                assert(views(toks@)[j as int] == toks@[j as int]@);
                assert(views(toks@).skip(j as int).skip(1) =~= views(toks@).skip(j + 1));
            }
            new_name.append(toks[j].as_str());
            j += 1;
        }
        proof {
            assert(views(toks@).skip(toks@.len() as int) =~= Seq::<Seq<char>>::empty());
            assert(concat_toks(Seq::<Seq<char>>::empty()) =~= Seq::<char>::empty());
            assert(new_name@ == concat_toks(views(toks@).skip(1)));
        }
        let flags = vec!["--git".to_owned()];
        let r = Package::new(source, new_name, flags);
        proof {
            assert(r@.flags =~= seq!["--git"@]);
            assert(r@ =~= migrate_spec(o, name@));
        }
        return r;
    }
    let r = Package::new(source, name, Vec::new());
    proof {
        assert(r@.flags =~= Seq::<Seq<char>>::empty());
        assert(r@ =~= migrate_spec(o, name@));
    }
    r
}

/// The current manager an old tag stands for.
pub fn old_source_exec(o: OldPackageManager) -> (r: PackageManager)
    ensures
        r == old_source_spec(o),
{
    match o {
        OldPackageManager::Apt => PackageManager::Apt,
        OldPackageManager::Cargo => PackageManager::Cargo,
        OldPackageManager::Pacman => PackageManager::Pacman,
        OldPackageManager::Yay => PackageManager::Yay,
        OldPackageManager::Rua => PackageManager::Rua,
        OldPackageManager::Snap => PackageManager::Snap,
        OldPackageManager::Chocolatey => PackageManager::Chocolatey,
        OldPackageManager::Scoop => PackageManager::Scoop,
        OldPackageManager::Pip => PackageManager::Pip,
        OldPackageManager::Pip3 => PackageManager::Pip3,
        OldPackageManager::Npm => PackageManager::Npm,
        OldPackageManager::Nix => PackageManager::Nix,
        OldPackageManager::RustupComponent => PackageManager::Rustup,
        OldPackageManager::PipUser => PackageManager::Pip,
        OldPackageManager::Pip3User => PackageManager::Pip3,
    }
}

} // verus!
