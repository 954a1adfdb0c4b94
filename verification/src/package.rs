//! Packages recognized on a command line, and ordered sets of them.

use vstd::prelude::*;
use vstd::string::StringExecFns;
use vstd::string::StrSliceExecFns;
use crate::package_manager::{
    full_name_spec, install_command_spec, needs_root_spec, PackageManager, PackageManagerTrait,
};
use crate::strutil::{contains_seq, escape_free, join_sp, lex_le, views};
use crate::Os;

verus! {

/// The mathematical value of a [`Package`].
pub struct PackageV {
    pub source: PackageManager,
    pub name: Seq<char>,
    pub flags: Seq<Seq<char>>,
}

/// One package as recognized on a command line: the manager it belongs to,
/// its literal name token, and the captured flags it should be reinstalled
/// with, in order of appearance.
#[derive(Debug, Clone)]
pub struct Package {
    /// The package manager this package belongs to.
    source: PackageManager,
    /// Name of this package.
    name: String,
    /// The command line flags this package should be installed with.
    flags: Vec<String>,
}

impl View for Package {
    type V = PackageV;

    closed spec fn view(&self) -> PackageV {
        PackageV { source: self.source, name: self.name@, flags: views(self.flags@) }
    }
}

/// The views of a sequence of packages.
pub open spec fn pkg_views(v: Seq<Package>) -> Seq<PackageV> {
    v.map_values(|p: Package| p@)
}

/// Compare two lists of strings by their contents.
pub fn vec_string_eq(a: &Vec<String>, b: &Vec<String>) -> (r: bool)
    ensures
        r == (views(a@) == views(b@)),
{
    if a.len() != b.len() {
        proof {
            if views(a@) == views(b@) {
                assert(views(a@).len() == views(b@).len());
                assert(a@.len() == b@.len());
            }
        }
        return false;
    }
    let mut i: usize = 0;
    while i < a.len()
        invariant
            i <= a@.len(),
            a@.len() == b@.len(),
            forall|j: int| 0 <= j < i ==> views(a@)[j] == views(b@)[j],
        decreases a@.len() - i,
    {
        proof {
            assert(views(a@)[i as int] == a@[i as int]@);
            assert(views(b@)[i as int] == b@[i as int]@);
        }
        if !crate::strutil::str_eq(a[i].as_str(), b[i].as_str()) {
            proof {
                assert(views(a@)[i as int] == a@[i as int]@);
                assert(views(b@)[i as int] == b@[i as int]@);
                if views(a@) == views(b@) {
                    assert(views(a@)[i as int] == views(b@)[i as int]);
                }
            }
            return false;
        }
        i += 1;
    }
    proof {
        assert(views(a@) =~= views(b@));
    }
    true
}

/// Copy a list of strings.
pub fn clone_strings(v: &Vec<String>) -> (r: Vec<String>)
    ensures
        views(r@) == views(v@),
{
    let mut out: Vec<String> = Vec::new();
    let mut i: usize = 0;
    while i < v.len()
        invariant
            i <= v@.len(),
            views(out@) == views(v@).take(i as int),
        decreases v@.len() - i,
    {
        let x = v[i].clone();
        proof {
            assert(x@ == views(v@)[i as int]);
        }
        let ghost pre = out@;
        out.push(x);
        proof {
            assert(views(out@) =~= views(pre).push(views(v@)[i as int]));
            assert(views(pre).push(views(v@)[i as int]) =~= views(v@).take(i + 1));
        }
        i += 1;
    }
    proof {
        assert(views(v@).take(v@.len() as int) =~= views(v@));
    }
    out
}

impl PartialEq for Package {
    fn eq(&self, other: &Package) -> (r: bool) {
        self.source == other.source && self.name == other.name && vec_string_eq(
            &self.flags,
            &other.flags,
        )
    }
}

impl vstd::std_specs::cmp::PartialEqSpecImpl for Package {
    open spec fn obeys_eq_spec() -> bool {
        true
    }

    open spec fn eq_spec(&self, other: &Package) -> bool {
        self@ == other@
    }
}

/// The full-command rendering of a package: its flags, in order, followed by
/// its name, joined with spaces.  This is the deduplication and sorting key.
pub open spec fn full_command_of(p: PackageV) -> Seq<char> {
    join_sp(p.flags.push(p.name))
}

/// The command that reinstalls a package under the conventions of `os`: the
/// manager's install command and the full command, prefixed with `sudo`
/// where the manager needs root — except on Windows, which has no such
/// prefix command.
pub open spec fn install_command_on_of(p: PackageV, os: Os) -> Seq<char> {
    match os {
        Os::Posix => install_command_of(p),
        Os::Windows => install_command_spec(p.source) + seq![' '] + full_command_of(p),
    }
}

/// The command that reinstalls a package: the manager's install command and
/// the full command, prefixed with `sudo` where the manager needs root.
pub open spec fn install_command_of(p: PackageV) -> Seq<char> {
    if needs_root_spec(p.source) {
        "sudo "@ + install_command_spec(p.source) + seq![' '] + full_command_of(p)
    } else {
        install_command_spec(p.source) + seq![' '] + full_command_of(p)
    }
}

impl Package {
    /// Instantiate.
    pub fn new(source: PackageManager, name: String, flags: Vec<String>) -> (r: Package)
        ensures
            r@ == (PackageV { source, name: name@, flags: views(flags@) }),
    {
        Package { source, name, flags }
    }

    /// Only the package name.
    pub fn name(&self) -> (r: &str)
        ensures
            r@ == self@.name,
    {
        self.name.as_str()
    }

    /// The package manager this package belongs to.
    pub fn source(&self) -> (r: PackageManager)
        ensures
            r == self@.source,
    {
        self.source
    }

    /// The command line flags.
    pub fn flags(&self) -> (r: &Vec<String>)
        ensures
            views(r@) == self@.flags,
    {
        &self.flags
    }

    /// An equal copy.
    pub fn duplicate(&self) -> (r: Package)
        ensures
            r@ == self@,
    {
        Package {
            source: self.source,
            name: self.name.clone(),
            flags: clone_strings(&self.flags),
        }
    }

    /// The name including the flags.
    pub fn full_command(&self) -> (r: String)
        ensures
            r@ == full_command_of(self@),
    {
        let mut parts = clone_strings(&self.flags);
        parts.push(self.name.clone());
        let r = crate::strutil::join_space(&parts);
        proof {
            assert(views(parts@) =~= self@.flags.push(self@.name));
        }
        r
    }

    /// The full command needed to install this package.
    pub fn install_command(&self) -> (r: String)
        ensures
            r@ == install_command_of(self@),
    {
        let mut s = String::new();
        if self.source.needs_root() {
            s.append("sudo ");
        }
        s.append(self.source.install_command());
        s.append(" ");
        let full = self.full_command();
        s.append(full.as_str());
        proof {
            reveal_strlit(" ");
            assert(" "@ =~= seq![' ']);
        }
        s
    }

    /// The full command needed to install this package under the conventions
    /// of `os`: as [`Package::install_command`], but without the `sudo`
    /// prefix on Windows.
    pub fn install_command_on(&self, os: Os) -> (r: String)
        ensures
            r@ == install_command_on_of(self@, os),
    {
        match os {
            Os::Posix => self.install_command(),
            Os::Windows => {
                let mut s = String::new();
                s.append(self.source.install_command());
                s.append(" ");
                let full = self.full_command();
                s.append(full.as_str());
                proof {
                    reveal_strlit(" ");
                    assert(" "@ =~= seq![' ']);
                }
                s
            },
        }
    }
}

} // verus!

// ---------------------------------------------------------------------------
// Package sets: sorting, deduplication, merging, difference
// ---------------------------------------------------------------------------

verus! {

/// The sorting order on packages: lexicographic on the full command.
pub open spec fn pkg_le(a: PackageV, b: PackageV) -> bool {
    lex_le(full_command_of(a), full_command_of(b))
}

/// Insert `x` into the sorted sequence `s`, after every element that is not
/// greater, so that insertion keeps equal keys in arrival order.
pub open spec fn insert_sorted(s: Seq<PackageV>, x: PackageV) -> Seq<PackageV>
    decreases s.len(),
{
    if s.len() == 0 {
        seq![x]
    } else if pkg_le(s.last(), x) {
        s.push(x)
    } else {
        insert_sorted(s.drop_last(), x).push(s.last())
    }
}

/// Stable sort by the full-command key.
pub open spec fn sort_pkgs(s: Seq<PackageV>) -> Seq<PackageV>
    decreases s.len(),
{
    if s.len() == 0 {
        Seq::empty()
    } else {
        insert_sorted(sort_pkgs(s.drop_last()), s.last())
    }
}

/// Remove adjacent equal packages, keeping one of each run.
pub open spec fn dedup_adj(s: Seq<PackageV>) -> Seq<PackageV>
    decreases s.len(),
{
    if s.len() <= 1 {
        s
    } else if s[0] == s[1] {
        dedup_adj(s.skip(1))
    } else {
        seq![s[0]] + dedup_adj(s.skip(1))
    }
}

/// What a merge produces: the concatenation, stably sorted by full command,
/// with adjacent duplicates removed.
pub open spec fn merge_spec(a: Seq<PackageV>, b: Seq<PackageV>) -> Seq<PackageV> {
    dedup_adj(sort_pkgs(a + b))
}

/// The packages of `s` that are not already in `saved`, in order.
pub open spec fn keep_new(s: Seq<PackageV>, saved: Seq<PackageV>) -> Seq<PackageV>
    decreases s.len(),
{
    if s.len() == 0 {
        s
    } else if saved.contains(s[0]) {
        keep_new(s.skip(1), saved)
    } else {
        seq![s[0]] + keep_new(s.skip(1), saved)
    }
}

/// Where `x` belongs in `s`, `insert_sorted` is insertion at that position.
pub proof fn lemma_insert_at(s: Seq<PackageV>, x: PackageV, j: int)
    requires
        0 <= j <= s.len(),
        j > 0 ==> pkg_le(s[j - 1], x),
        forall|k: int| j <= k < s.len() ==> !pkg_le(s[k], x),
    ensures
        insert_sorted(s, x) == s.take(j) + seq![x] + s.skip(j),
    decreases s.len(),
{
    if j == s.len() {
        if s.len() == 0 {
            assert(insert_sorted(s, x) =~= s.take(j) + seq![x] + s.skip(j));
        } else {
            assert(pkg_le(s.last(), x));
            assert(insert_sorted(s, x) == s.push(x));
            assert(s.push(x) =~= s.take(j) + seq![x] + s.skip(j));
        }
    } else {
        assert(!pkg_le(s[s.len() - 1], x));
        assert(insert_sorted(s, x) == insert_sorted(s.drop_last(), x).push(s.last()));
        assert forall|k: int| j <= k < s.drop_last().len() implies !pkg_le(
            s.drop_last()[k],
            x,
        ) by {
            assert(s.drop_last()[k] == s[k]);
        }
        if j > 0 {
            assert(s.drop_last()[j - 1] == s[j - 1]);
        }
        lemma_insert_at(s.drop_last(), x, j);
        assert((s.drop_last().take(j) + seq![x] + s.drop_last().skip(j)).push(s.last()) =~= s.take(
            j,
        ) + seq![x] + s.skip(j));
    }
}

/// How removing adjacent duplicates reacts to appending one element.
pub proof fn lemma_dedup_push(s: Seq<PackageV>, x: PackageV)
    ensures
        dedup_adj(s.push(x)) == if s.len() > 0 && s.last() == x {
            dedup_adj(s)
        } else {
            dedup_adj(s).push(x)
        },
    decreases s.len(),
{
    let sp = s.push(x);
    if s.len() == 0 {
        assert(dedup_adj(sp) =~= dedup_adj(s).push(x));
    } else if s.len() == 1 {
        assert(sp.len() == 2);
        assert(sp[0] == s[0]);
        assert(sp[1] == x);
        if s[0] == x {
            assert(sp.skip(1) =~= seq![x]);
            assert(dedup_adj(sp) == dedup_adj(sp.skip(1)));
            assert(dedup_adj(seq![x]) =~= seq![x]);
            assert(dedup_adj(s) =~= seq![s[0]]);
            assert(seq![x] =~= seq![s[0]]);
        } else {
            assert(sp.skip(1) =~= seq![x]);
            assert(dedup_adj(seq![x]) =~= seq![x]);
            assert(dedup_adj(sp) == seq![sp[0]] + dedup_adj(sp.skip(1)));
            assert(dedup_adj(s) =~= seq![s[0]]);
            assert(seq![sp[0]] + seq![x] =~= dedup_adj(s).push(x));
        }
    } else {
        assert(sp[0] == s[0]);
        assert(sp[1] == s[1]);
        assert(sp.skip(1) =~= s.skip(1).push(x));
        lemma_dedup_push(s.skip(1), x);
        assert(s.skip(1).last() == s.last());
        assert(s.skip(1).len() > 0);
        if s[0] == s[1] {
            assert(dedup_adj(sp) == dedup_adj(s.skip(1).push(x)));
            assert(dedup_adj(s) == dedup_adj(s.skip(1)));
        } else {
            assert(dedup_adj(sp) == seq![s[0]] + dedup_adj(s.skip(1).push(x)));
            assert(dedup_adj(s) == seq![s[0]] + dedup_adj(s.skip(1)));
            if s.last() == x {
            } else {
                assert(seq![s[0]] + (dedup_adj(s.skip(1)).push(x)) =~= (seq![s[0]] + dedup_adj(
                    s.skip(1),
                )).push(x));
            }
        }
    }
}

/// Compare two packages by their full-command key.
pub fn pkg_le_exec(a: &Package, b: &Package) -> (r: bool)
    ensures
        r == pkg_le(a@, b@),
{
    let fa = a.full_command();
    let fb = b.full_command();
    crate::strutil::lex_le_exec(fa.as_str(), fb.as_str())
}

/// The position where `x` should be inserted into `v` to keep it sorted,
/// after every element not greater than `x`.
fn insert_pos(v: &Vec<Package>, x: &Package) -> (j: usize)
    ensures
        j <= v@.len(),
        forall|k: int| j <= k < v@.len() ==> !pkg_le(pkg_views(v@)[k], x@),
        j > 0 ==> pkg_le(pkg_views(v@)[j - 1], x@),
{
    let mut j = v.len();
    while j > 0
        invariant
            j <= v@.len(),
            forall|k: int| j <= k < v@.len() ==> !pkg_le(pkg_views(v@)[k], x@),
        decreases j,
    {
        proof {
            assert(pkg_views(v@)[j - 1] == v@[j - 1]@);
        }
        if pkg_le_exec(&v[j - 1], x) {
            return j;
        }
        j -= 1;
    }
    0
}

/// Insert a package into a sorted list, keeping it sorted and stable.
fn insert_exec(v: &mut Vec<Package>, x: Package)
    ensures
        pkg_views(final(v)@) == insert_sorted(pkg_views(old(v)@), x@),
{
    let j = insert_pos(v, &x);
    let ghost pre = v@;
    let ghost xv = x@;
    v.insert(j, x);
    proof {
        lemma_insert_at(pkg_views(pre), xv, j as int);
        assert(pkg_views(v@) =~= pkg_views(pre).take(j as int) + seq![xv] + pkg_views(pre).skip(
            j as int,
        ));
    }
}

/// Stably sort a list of packages by their full-command key.
fn sort_packages(v: &Vec<Package>) -> (r: Vec<Package>)
    ensures
        pkg_views(r@) == sort_pkgs(pkg_views(v@)),
{
    let mut out: Vec<Package> = Vec::new();
    let mut i: usize = 0;
    proof {
        assert(pkg_views(v@).take(0) =~= Seq::<PackageV>::empty());
        assert(pkg_views(out@) =~= Seq::<PackageV>::empty());
    }
    while i < v.len()
        invariant
            i <= v@.len(),
            pkg_views(out@) == sort_pkgs(pkg_views(v@).take(i as int)),
        decreases v@.len() - i,
    {
        let x = v[i].duplicate();
        proof {
            assert(x@ == pkg_views(v@)[i as int]);
            let t = pkg_views(v@).take(i + 1);
            assert(t.drop_last() =~= pkg_views(v@).take(i as int));
            assert(t.last() == pkg_views(v@)[i as int]);
        }
        insert_exec(&mut out, x);
        i += 1;
    }
    proof {
        assert(pkg_views(v@).take(v@.len() as int) =~= pkg_views(v@));
    }
    out
}

/// Remove adjacent equal packages from a list.
fn dedup_packages(v: &Vec<Package>) -> (r: Vec<Package>)
    ensures
        pkg_views(r@) == dedup_adj(pkg_views(v@)),
{
    let mut out: Vec<Package> = Vec::new();
    if v.len() == 0 {
        proof {
            assert(pkg_views(out@) =~= dedup_adj(pkg_views(v@)));
        }
        return out;
    }
    out.push(v[0].duplicate());
    let mut i: usize = 1;
    proof {
        assert(pkg_views(out@) =~= pkg_views(v@).take(1));
        assert(dedup_adj(pkg_views(v@).take(1)) == pkg_views(v@).take(1));
    }
    while i < v.len()
        invariant
            1 <= i <= v@.len(),
            out@.len() > 0,
            pkg_views(out@) == dedup_adj(pkg_views(v@).take(i as int)),
            pkg_views(out@).last() == pkg_views(v@)[i - 1],
        decreases v@.len() - i,
    {
        let ghost t = pkg_views(v@).take(i as int);
        let ghost tx = pkg_views(v@).take(i + 1);
        proof {
            assert(tx =~= t.push(pkg_views(v@)[i as int]));
            lemma_dedup_push(t, pkg_views(v@)[i as int]);
            assert(t.len() > 0);
            assert(t.last() == pkg_views(v@)[i - 1]);
            assert(pkg_views(out@)[out@.len() - 1] == out@[out@.len() - 1]@);
            assert(pkg_views(v@)[i as int] == v@[i as int]@);
        }
        let last_idx = out.len() - 1;
        if out[last_idx] == v[i] {
            proof {
                assert(out@[last_idx as int]@ == v@[i as int]@);
                assert(t.last() == pkg_views(v@)[i as int]);
                assert(dedup_adj(tx) == dedup_adj(t));
            }
        } else {
            proof {
                assert(out@[last_idx as int]@ != v@[i as int]@);
                assert(t.last() != pkg_views(v@)[i as int]);
                assert(dedup_adj(tx) == dedup_adj(t).push(pkg_views(v@)[i as int]));
            }
            out.push(v[i].duplicate());
            proof {
                assert(pkg_views(out@) =~= dedup_adj(tx));
            }
        }
        i += 1;
    }
    proof {
        assert(pkg_views(v@).take(v@.len() as int) =~= pkg_views(v@));
    }
    out
}

} // verus!

verus! {

/// An ordered collection of packages.
#[derive(Debug)]
pub struct Packages(Vec<Package>);

impl View for Packages {
    type V = Seq<PackageV>;

    closed spec fn view(&self) -> Seq<PackageV> {
        pkg_views(self.0@)
    }
}

/// Whether `saved` holds a package equal to `p`.
pub fn contains_pkg(saved: &Packages, p: &Package) -> (r: bool)
    ensures
        r == saved@.contains(p@),
{
    let mut j: usize = 0;
    while j < saved.0.len()
        invariant
            j <= saved.0@.len(),
            forall|k: int| 0 <= k < j ==> pkg_views(saved.0@)[k] != p@,
        decreases saved.0@.len() - j,
    {
        proof {
            assert(pkg_views(saved.0@)[j as int] == saved.0@[j as int]@);
        }
        if &saved.0[j] == p {
            proof {
                assert(saved@[j as int] == p@);
            }
            return true;
        }
        j += 1;
    }
    proof {
        if saved@.contains(p@) {
            let k = choose|k: int| 0 <= k < saved@.len() && saved@[k] == p@;
            assert(pkg_views(saved.0@)[k] == p@);
        }
    }
    false
}

impl Packages {
    /// An empty list.
    pub fn empty() -> (r: Packages)
        ensures
            r@ == Seq::<PackageV>::empty(),
    {
        let r = Packages(Vec::new());
        proof {
            assert(r@ =~= Seq::<PackageV>::empty());
        }
        r
    }

    /// Wrap a list of packages.
    pub fn from_vec(v: Vec<Package>) -> (r: Packages)
        ensures
            r@ == pkg_views(v@),
    {
        Packages(v)
    }

    /// How many packages the list holds.
    pub fn len(&self) -> (r: usize)
        ensures
            r == self@.len(),
    {
        self.0.len()
    }

    /// Whether the list is empty.
    pub fn is_empty(&self) -> (r: bool)
        ensures
            r == (self@.len() == 0),
    {
        self.0.len() == 0
    }

    /// The package at a position.
    pub fn get(&self, i: usize) -> (r: &Package)
        requires
            i < self@.len(),
        ensures
            r@ == self@[i as int],
    {
        proof {
            assert(pkg_views(self.0@)[i as int] == self.0@[i as int]@);
        }
        &self.0[i]
    }

    /// Give the packages up as a plain list.
    pub fn into_vec(self) -> (r: Vec<Package>)
        ensures
            pkg_views(r@) == self@,
    {
        self.0
    }

    /// The union of this and another list: everything from both, sorted by
    /// full command and with adjacent duplicates removed.  The other list is
    /// drained.
    pub fn merge(&mut self, other: &mut Packages)
        ensures
            final(self)@ == merge_spec(old(self)@, old(other)@),
            final(other)@ == Seq::<PackageV>::empty(),
    {
        self.0.append(&mut other.0);
        proof {
            assert(pkg_views(self.0@) =~= old(self)@ + old(other)@);
            assert(pkg_views(other.0@) =~= Seq::<PackageV>::empty());
        }
        let sorted = sort_packages(&self.0);
        let deduped = dedup_packages(&sorted);
        self.0 = deduped;
    }

    /// Remove adjacent duplicate packages.
    pub fn dedup(&mut self)
        ensures
            final(self)@ == dedup_adj(old(self)@),
    {
        let deduped = dedup_packages(&self.0);
        self.0 = deduped;
    }

    /// Remove every package that is already in `saved`.
    pub fn filter_saved_packages(&mut self, saved: &Packages)
        ensures
            final(self)@ == keep_new(old(self)@, saved@),
    {
        let mut out: Vec<Package> = Vec::new();
        let mut i: usize = 0;
        proof {
            assert(pkg_views(out@) =~= Seq::<PackageV>::empty());
            assert(pkg_views(self.0@).skip(0) =~= pkg_views(self.0@));
            assert(pkg_views(out@) + keep_new(pkg_views(self.0@).skip(0), saved@) =~= keep_new(
                pkg_views(self.0@),
                saved@,
            ));
        }
        while i < self.0.len()
            invariant
                i <= self.0@.len(),
                self.0@ == old(self).0@,
                pkg_views(out@) + keep_new(pkg_views(self.0@).skip(i as int), saved@) == keep_new(
                    pkg_views(self.0@),
                    saved@,
                ),
            decreases self.0@.len() - i,
        {
            let ghost suf = pkg_views(self.0@).skip(i as int);
            proof {
                assert(suf[0] == pkg_views(self.0@)[i as int]);
                assert(pkg_views(self.0@)[i as int] == self.0@[i as int]@);
                assert(suf.skip(1) =~= pkg_views(self.0@).skip(i + 1));
            }
            if !contains_pkg(saved, &self.0[i]) {
                let ghost pre = out@;
                out.push(self.0[i].duplicate());
                proof {
                    assert(pkg_views(out@) =~= pkg_views(pre).push(suf[0]));
                    assert(pkg_views(pre).push(suf[0]) + keep_new(suf.skip(1), saved@)
                        =~= pkg_views(pre) + (seq![suf[0]] + keep_new(suf.skip(1), saved@)));
                }
            }
            i += 1;
        }
        proof {
            assert(pkg_views(self.0@).skip(self.0@.len() as int) =~= Seq::<PackageV>::empty());
            assert(pkg_views(out@) + Seq::<PackageV>::empty() =~= pkg_views(out@));
        }
        self.0 = out;
    }

    /// The commit message for mirroring these packages: it names the one
    /// package, or counts them.
    pub fn commit_message(&self) -> (r: String)
        requires
            self@.len() > 0,
        ensures
            self@.len() == 1 ==> r@ == "Emplace - mirror package \""@ + full_command_of(self@[0])
                + "\""@,
            self@.len() > 1 ==> r@ == "Emplace - mirror "@ + crate::strutil::dec_str(
                self@.len() as int,
            ) + " packages"@,
    {
        if self.0.len() == 1 {
            let mut s = "Emplace - mirror package \"".to_owned();
            proof {
                assert(pkg_views(self.0@)[0] == self.0@[0]@);
            }
            let full = self.0[0].full_command();
            s.append(full.as_str());
            s.append("\"");
            s
        } else {
            let mut s = "Emplace - mirror ".to_owned();
            let count = crate::strutil::decimal_of(self.0.len());
            s.append(count.as_str());
            s.append(" packages");
            s
        }
    }
}

} // verus!

// ---------------------------------------------------------------------------
// Parsing a whole captured line
// ---------------------------------------------------------------------------

verus! {

/// The packages that the managers of `mgrs` extract from one statement.
pub open spec fn catch_managers(seg: Seq<char>, mgrs: Seq<PackageManager>) -> Seq<PackageV>
    decreases mgrs.len(),
{
    if mgrs.len() == 0 {
        Seq::empty()
    } else {
        crate::package_manager_impl::catch_spec(mgrs[0], seg, crate::Os::Posix) + catch_managers(
            seg,
            mgrs.skip(1),
        )
    }
}

/// The packages one statement yields: every detected manager runs in order.
pub open spec fn seg_packages(seg: Seq<char>) -> Seq<PackageV> {
    catch_managers(seg, crate::package_manager_impl::detected_from(seg, crate::Os::Posix, 0))
}

/// The packages of a list of statements, concatenated.
pub open spec fn segs_packages(segs: Seq<Seq<char>>) -> Seq<PackageV>
    decreases segs.len(),
{
    if segs.len() == 0 {
        Seq::empty()
    } else {
        seg_packages(segs[0]) + segs_packages(segs.skip(1))
    }
}

/// What parsing one captured line yields: the line is split at statement
/// separators, and every statement is run past every detected manager.
pub open spec fn from_line_spec(line: Seq<char>) -> Seq<PackageV> {
    segs_packages(crate::strutil::split_seps(line))
}

impl Packages {
    /// Parse a line into a list of packages.
    pub fn from_line(line: &str) -> (r: Packages)
        ensures
            r@ == from_line_spec(line@),
    {
        let segs = crate::strutil::split_separators(line);
        let mut out: Vec<Package> = Vec::new();
        let mut i: usize = 0;
        proof {
            assert(views(segs@).skip(0) =~= views(segs@));
            assert(pkg_views(out@) =~= Seq::<PackageV>::empty());
            assert(pkg_views(out@) + segs_packages(views(segs@)) =~= segs_packages(views(segs@)));
        }
        while i < segs.len()
            invariant
                i <= segs@.len(),
                views(segs@) == crate::strutil::split_seps(line@),
                pkg_views(out@) + segs_packages(views(segs@).skip(i as int)) == from_line_spec(
                    line@,
                ),
            decreases segs@.len() - i,
        {
            let ghost suf = views(segs@).skip(i as int);
            proof {
                assert(suf[0] == views(segs@)[i as int]);
                assert(views(segs@)[i as int] == segs@[i as int]@);
                assert(suf.skip(1) =~= views(segs@).skip(i + 1));
            }
            let seg: &str = segs[i].as_str();
            let mgrs = PackageManager::from_line_iter(seg);
            let mut j: usize = 0;
            proof {
                assert(mgrs@.skip(0) =~= mgrs@);
            }
            while j < mgrs.len()
                invariant
                    j <= mgrs@.len(),
                    seg@ == views(segs@)[i as int],
                    i < segs@.len(),
                    views(segs@) == crate::strutil::split_seps(line@),
                    mgrs@ == crate::package_manager_impl::detected_from(
                        seg@,
                        crate::Os::Posix,
                        0,
                    ),
                    pkg_views(out@) + catch_managers(seg@, mgrs@.skip(j as int)) + segs_packages(
                        views(segs@).skip(i + 1),
                    ) == from_line_spec(line@),
                decreases mgrs@.len() - j,
            {
                proof {
                    assert(mgrs@.skip(j as int)[0] == mgrs@[j as int]);
                    assert(mgrs@.skip(j as int).skip(1) =~= mgrs@.skip(j + 1));
                }
                let mut part = mgrs[j].catch(seg);
                let ghost pre = pkg_views(out@);
                let ghost partv = pkg_views(part@);
                out.append(&mut part);
                proof {
                    assert(pkg_views(out@) =~= pre + partv);
                    assert((pre + partv) + catch_managers(seg@, mgrs@.skip(j + 1)) =~= pre + (
                    partv + catch_managers(seg@, mgrs@.skip(j + 1))));
                }
                j += 1;
            }
            proof {
                assert(mgrs@.skip(mgrs@.len() as int) =~= Seq::<PackageManager>::empty());
                assert(catch_managers(seg@, Seq::<PackageManager>::empty())
                    =~= Seq::<PackageV>::empty());
                assert(pkg_views(out@) + Seq::<PackageV>::empty() =~= pkg_views(out@));
                assert(seg_packages(suf[0]) == catch_managers(seg@, mgrs@));
            }
            i += 1;
        }
        proof {
            assert(views(segs@).skip(segs@.len() as int) =~= Seq::<Seq<char>>::empty());
            assert(pkg_views(out@) + Seq::<PackageV>::empty() =~= pkg_views(out@));
        }
        Packages(out)
    }
}

} // verus!

verus! {

/// The display string of a package: a painted-flags part (when there are
/// flags), a painted name and a painted manager name in parentheses, in that
/// order, where each painted part holds its raw text as one contiguous run.
pub open spec fn painted_full_name(
    r: Seq<char>,
    flags: Seq<Seq<char>>,
    name: Seq<char>,
    source_name: Seq<char>,
) -> bool {
    exists|pf: Seq<char>, pn: Seq<char>, ps: Seq<char>|
        #![trigger contains_seq(pf, join_sp(flags)), contains_seq(pn, name), contains_seq(ps, source_name)]
        contains_seq(pf, join_sp(flags)) && contains_seq(pn, name) && contains_seq(
            ps,
            source_name,
        ) && r == if flags.len() == 0 {
            pn + " ("@ + ps + ")"@
        } else {
            pf + seq![' '] + pn + " ("@ + ps + ")"@
        }
}

/// Compose the display of a package: its (possibly painted) flags, name and
/// source name, as `flags name (source)`.
pub fn display_full_name(flags_part: Option<&str>, name_part: &str, source_part: &str) -> (r:
    String)
    ensures
        flags_part.is_none() ==> r@ == name_part@ + " ("@ + source_part@ + ")"@,
        flags_part.is_some() ==> r@ == flags_part.unwrap()@ + seq![' '] + name_part@ + " ("@
            + source_part@ + ")"@,
{
    let mut s = String::new();
    match flags_part {
        None => {},
        Some(f) => {
            s.append(f);
            s.append(" ");
            proof {
                reveal_strlit(" ");
                assert(" "@ =~= seq![' ']);
            }
        },
    }
    s.append(name_part);
    s.append(" (");
    s.append(source_part);
    s.append(")");
    s
}

impl Package {
    /// The full name in colours: dimmed flags, the name in yellow, and the
    /// manager's name in green.  How the colours render depends on whether
    /// colouring is enabled for the process; whenever the fields are free of
    /// escape characters, the result is the painted parts in display order.
    pub fn color_full_name(&self) -> (r: String)
        ensures
            (escape_free(self@.name) && escape_free(full_name_spec(self@.source)) && escape_free(
                join_sp(self@.flags),
            )) ==> painted_full_name(r@, self@.flags, self@.name, full_name_spec(self@.source)),
    {
        let painted_name = crate::paint::paint_yellow(self.name.as_str());
        let painted_source = crate::paint::paint_green(self.source.full_name());
        if self.flags.len() == 0 {
            let r = display_full_name(None, painted_name.as_str(), painted_source.as_str());
            proof {
                if escape_free(self@.name) && escape_free(full_name_spec(self@.source))
                    && escape_free(join_sp(self@.flags)) {
                    assert(join_sp(self@.flags) =~= Seq::<char>::empty());
                    crate::strutil::lemma_contains_seq_empty(painted_name@);
                    assert(contains_seq(painted_name@, join_sp(self@.flags)));
                    assert(contains_seq(painted_name@, self@.name));
                    assert(contains_seq(painted_source@, full_name_spec(self@.source)));
                    assert(painted_full_name(
                        r@,
                        self@.flags,
                        self@.name,
                        full_name_spec(self@.source),
                    ));
                }
            }
            r
        } else {
            let joined = crate::strutil::join_space(&self.flags);
            let painted_flags = crate::paint::paint_dimmed(joined.as_str());
            let r = display_full_name(
                Some(painted_flags.as_str()),
                painted_name.as_str(),
                painted_source.as_str(),
            );
            proof {
                if escape_free(self@.name) && escape_free(full_name_spec(self@.source))
                    && escape_free(join_sp(self@.flags)) {
                    assert(contains_seq(painted_flags@, join_sp(self@.flags)));
                    assert(contains_seq(painted_name@, self@.name));
                    assert(contains_seq(painted_source@, full_name_spec(self@.source)));
                    assert(painted_full_name(
                        r@,
                        self@.flags,
                        self@.name,
                        full_name_spec(self@.source),
                    ));
                }
            }
            r
        }
    }
}

} // verus!
