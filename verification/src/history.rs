//! Extracting package installs from the lines of a shell history file.

use vstd::prelude::*;
use crate::package::{from_line_spec, pkg_views, Package, Packages, PackageV};
use crate::strutil::{join_sp, lex_le, utok, views};

verus! {

/// A history line with its white space — in the Unicode sense — collapsed
/// to single spaces.
pub open spec fn normalize_spec(s: Seq<char>) -> Seq<char> {
    join_sp(utok(s))
}

/// Insert a line into a sorted list of lines, after every line not greater.
pub open spec fn insert_line(s: Seq<Seq<char>>, x: Seq<char>) -> Seq<Seq<char>>
    decreases s.len(),
{
    if s.len() == 0 {
        seq![x]
    } else if lex_le(s.last(), x) {
        s.push(x)
    } else {
        insert_line(s.drop_last(), x).push(s.last())
    }
}

/// Stable sort of lines in lexicographic order.
pub open spec fn sort_lines(s: Seq<Seq<char>>) -> Seq<Seq<char>>
    decreases s.len(),
{
    if s.len() == 0 {
        Seq::empty()
    } else {
        insert_line(sort_lines(s.drop_last()), s.last())
    }
}

/// Remove adjacent equal lines.
pub open spec fn dedup_lines(s: Seq<Seq<char>>) -> Seq<Seq<char>>
    decreases s.len(),
{
    if s.len() <= 1 {
        s
    } else if s[0] == s[1] {
        dedup_lines(s.skip(1))
    } else {
        seq![s[0]] + dedup_lines(s.skip(1))
    }
}

/// The packages of all the lines, in order, concatenated.
pub open spec fn lines_packages(ls: Seq<Seq<char>>) -> Seq<PackageV>
    decreases ls.len(),
{
    if ls.len() == 0 {
        Seq::empty()
    } else {
        from_line_spec(ls[0]) + lines_packages(ls.skip(1))
    }
}

/// What a history file yields: its lines are whitespace-normalized, sorted,
/// deduplicated, and each surviving line is parsed for packages.
pub open spec fn filter_lines_spec(lines: Seq<Seq<char>>) -> Seq<PackageV> {
    lines_packages(dedup_lines(sort_lines(lines.map_values(|l: Seq<char>| normalize_spec(l)))))
}

pub proof fn lemma_insert_line_at(s: Seq<Seq<char>>, x: Seq<char>, j: int)
    requires
        0 <= j <= s.len(),
        j > 0 ==> lex_le(s[j - 1], x),
        forall|k: int| j <= k < s.len() ==> !lex_le(s[k], x),
    ensures
        insert_line(s, x) == s.take(j) + seq![x] + s.skip(j),
    decreases s.len(),
{
    if j == s.len() {
        if s.len() == 0 {
            assert(insert_line(s, x) =~= s.take(j) + seq![x] + s.skip(j));
        } else {
            assert(lex_le(s.last(), x));
            assert(s.push(x) =~= s.take(j) + seq![x] + s.skip(j));
        }
    } else {
        assert(!lex_le(s[s.len() - 1], x));
        assert forall|k: int| j <= k < s.drop_last().len() implies !lex_le(s.drop_last()[k], x) by {
            assert(s.drop_last()[k] == s[k]);
        }
        if j > 0 {
            assert(s.drop_last()[j - 1] == s[j - 1]);
        }
        lemma_insert_line_at(s.drop_last(), x, j);
        assert((s.drop_last().take(j) + seq![x] + s.drop_last().skip(j)).push(s.last()) =~= s.take(
            j,
        ) + seq![x] + s.skip(j));
    }
}

pub proof fn lemma_dedup_lines_push(s: Seq<Seq<char>>, x: Seq<char>)
    ensures
        dedup_lines(s.push(x)) == if s.len() > 0 && s.last() == x {
            dedup_lines(s)
        } else {
            dedup_lines(s).push(x)
        },
    decreases s.len(),
{
    let sp = s.push(x);
    if s.len() == 0 {
        assert(dedup_lines(sp) =~= dedup_lines(s).push(x));
    } else if s.len() == 1 {
        assert(sp[0] == s[0]);
        assert(sp[1] == x);
        if s[0] == x {
            assert(sp.skip(1) =~= seq![x]);
            assert(dedup_lines(sp) == dedup_lines(sp.skip(1)));
            assert(dedup_lines(seq![x]) =~= seq![x]);
            assert(dedup_lines(s) =~= seq![s[0]]);
            assert(seq![x] =~= seq![s[0]]);
        } else {
            assert(sp.skip(1) =~= seq![x]);
            assert(dedup_lines(seq![x]) =~= seq![x]);
            assert(dedup_lines(sp) == seq![sp[0]] + dedup_lines(sp.skip(1)));
            assert(dedup_lines(s) =~= seq![s[0]]);
            assert(seq![sp[0]] + seq![x] =~= dedup_lines(s).push(x));
        }
    } else {
        assert(sp[0] == s[0]);
        assert(sp[1] == s[1]);
        assert(sp.skip(1) =~= s.skip(1).push(x));
        lemma_dedup_lines_push(s.skip(1), x);
        assert(s.skip(1).last() == s.last());
        assert(s.skip(1).len() > 0);
        if s[0] == s[1] {
            assert(dedup_lines(sp) == dedup_lines(s.skip(1).push(x)));
            assert(dedup_lines(s) == dedup_lines(s.skip(1)));
        } else {
            assert(dedup_lines(sp) == seq![s[0]] + dedup_lines(s.skip(1).push(x)));
            assert(dedup_lines(s) == seq![s[0]] + dedup_lines(s.skip(1)));
            if s.last() == x {
            } else {
                assert(seq![s[0]] + (dedup_lines(s.skip(1)).push(x)) =~= (seq![s[0]] + dedup_lines(
                    s.skip(1),
                )).push(x));
            }
        }
    }
}

/// The position where `x` belongs in the sorted line list `v`.
fn insert_line_pos(v: &Vec<String>, x: &str) -> (j: usize)
    ensures
        j <= v@.len(),
        forall|k: int| j <= k < v@.len() ==> !lex_le(views(v@)[k], x@),
        j > 0 ==> lex_le(views(v@)[j - 1], x@),
{
    let mut j = v.len();
    while j > 0
        invariant
            j <= v@.len(),
            forall|k: int| j <= k < v@.len() ==> !lex_le(views(v@)[k], x@),
        decreases j,
    {
        proof {
            assert(views(v@)[j - 1] == v@[j - 1]@);
        }
        if crate::strutil::lex_le_exec(v[j - 1].as_str(), x) {
            return j;
        }
        j -= 1;
    }
    0
}

/// Insert a line into a sorted list, keeping it sorted and stable.
fn insert_line_exec(v: &mut Vec<String>, x: String)
    ensures
        views(final(v)@) == insert_line(views(old(v)@), x@),
{
    let j = insert_line_pos(v, x.as_str());
    let ghost pre = v@;
    let ghost xv = x@;
    v.insert(j, x);
    proof {
        lemma_insert_line_at(views(pre), xv, j as int);
        assert(views(v@) =~= views(pre).take(j as int) + seq![xv] + views(pre).skip(j as int));
    }
}

/// Extract the packages from the history lines: normalize, sort and
/// deduplicate the lines, then parse each one.
pub fn filter_lines(lines: &Vec<String>) -> (r: Vec<Package>)
    ensures
        pkg_views(r@) == filter_lines_spec(views(lines@)),
{
    let ghost normd = views(lines@).map_values(|l: Seq<char>| normalize_spec(l));
    // Normalize and sort in one pass.
    let mut sorted: Vec<String> = Vec::new();
    let mut i: usize = 0;
    proof {
        assert(normd.take(0) =~= Seq::<Seq<char>>::empty());
        assert(views(sorted@) =~= Seq::<Seq<char>>::empty());
        assert(sort_lines(normd.take(0)) =~= Seq::<Seq<char>>::empty());
    }
    while i < lines.len()
        invariant
            i <= lines@.len(),
            normd == views(lines@).map_values(|l: Seq<char>| normalize_spec(l)),
            views(sorted@) == sort_lines(normd.take(i as int)),
        decreases lines@.len() - i,
    {
        let toks = crate::strutil::tokenize_unicode(lines[i].as_str());
        let norm = crate::strutil::join_space(&toks);
        proof {
            assert(views(lines@)[i as int] == lines@[i as int]@);
            assert(normd[i as int] == normalize_spec(views(lines@)[i as int]));
            assert(norm@ == normd[i as int]);
            let t = normd.take(i + 1);
            assert(t.drop_last() =~= normd.take(i as int));
            assert(t.last() == normd[i as int]);
        }
        insert_line_exec(&mut sorted, norm);
        i += 1;
    }
    proof {
        assert(normd.take(lines@.len() as int) =~= normd);
    }
    // Deduplicate adjacent equal lines.
    let mut uniq: Vec<String> = Vec::new();
    let mut k: usize = 0;
    if sorted.len() > 0 {
        uniq.push(sorted[0].clone());
        k = 1;
        proof {
            assert(views(uniq@) =~= views(sorted@).take(1));
            assert(dedup_lines(views(sorted@).take(1)) == views(sorted@).take(1));
        }
    } else {
        proof {
            assert(views(uniq@) =~= dedup_lines(views(sorted@)));
            assert(views(sorted@).take(0) =~= views(sorted@));
        }
    }
    while k < sorted.len()
        invariant
            k <= sorted@.len(),
            sorted@.len() > 0 ==> 1 <= k,
            sorted@.len() == 0 ==> k == 0,
            uniq@.len() > 0 || sorted@.len() == 0,
            views(uniq@) == dedup_lines(views(sorted@).take(k as int)),
            k >= 1 ==> uniq@.len() > 0 && views(uniq@).last() == views(sorted@)[k - 1],
        decreases sorted@.len() - k,
    {
        let ghost t = views(sorted@).take(k as int);
        let ghost tx = views(sorted@).take(k + 1);
        proof {
            assert(tx =~= t.push(views(sorted@)[k as int]));
            lemma_dedup_lines_push(t, views(sorted@)[k as int]);
            assert(t.last() == views(sorted@)[k - 1]);
            assert(views(uniq@)[uniq@.len() - 1] == uniq@[uniq@.len() - 1]@);
            assert(views(sorted@)[k as int] == sorted@[k as int]@);
        }
        let last_idx = uniq.len() - 1;
        if uniq[last_idx] == sorted[k] {
            proof {
                assert(dedup_lines(tx) == dedup_lines(t));
            }
        } else {
            uniq.push(sorted[k].clone());
            proof {
                assert(views(uniq@) =~= dedup_lines(t).push(views(sorted@)[k as int]));
            }
        }
        k += 1;
    }
    proof {
        assert(views(sorted@).take(sorted@.len() as int) =~= views(sorted@));
    }
    // Parse every surviving line.
    let mut out: Vec<Package> = Vec::new();
    let mut j: usize = 0;
    proof {
        assert(views(uniq@).skip(0) =~= views(uniq@));
        assert(pkg_views(out@) =~= Seq::<PackageV>::empty());
        assert(pkg_views(out@) + lines_packages(views(uniq@)) =~= lines_packages(views(uniq@)));
    }
    while j < uniq.len()
        invariant
            j <= uniq@.len(),
            views(uniq@) == dedup_lines(sort_lines(normd)),
            normd == views(lines@).map_values(|l: Seq<char>| normalize_spec(l)),
            pkg_views(out@) + lines_packages(views(uniq@).skip(j as int)) == filter_lines_spec(
                views(lines@),
            ),
        decreases uniq@.len() - j,
    {
        let ghost suf = views(uniq@).skip(j as int);
        proof {
            assert(suf[0] == views(uniq@)[j as int]);
            assert(views(uniq@)[j as int] == uniq@[j as int]@);
            assert(suf.skip(1) =~= views(uniq@).skip(j + 1));
        }
        let pkgs = Packages::from_line(uniq[j].as_str());
        let mut part = pkgs.into_vec();
        let ghost pre = pkg_views(out@);
        let ghost partv = pkg_views(part@);
        out.append(&mut part);
        proof {
            assert(pkg_views(out@) =~= pre + partv);
            assert((pre + partv) + lines_packages(views(uniq@).skip(j + 1)) =~= pre + (partv
                + lines_packages(views(uniq@).skip(j + 1))));
        }
        j += 1;
    }
    proof {
        assert(views(uniq@).skip(uniq@.len() as int) =~= Seq::<Seq<char>>::empty());
        assert(pkg_views(out@) + Seq::<PackageV>::empty() =~= pkg_views(out@));
    }
    out
}

} // verus!
