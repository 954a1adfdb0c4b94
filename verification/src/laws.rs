//! General properties of the recognizer and of the package-set operations,
//! each stated once for all inputs and proved from the contracts in this
//! crate.

use vstd::prelude::*;
use crate::package::{
    dedup_adj, full_command_of, insert_sorted, merge_spec, pkg_le, sort_pkgs, PackageV,
};
use crate::package_manager::{os_commands_spec, PackageManager};
use crate::package_manager::{commands_spec, sub_commands_spec};
use crate::package_manager_impl::{catch_cmds, catch_one, catch_spec, cmd_occurs, detected};
use crate::strutil::tok;
use crate::Os;

verus! {

proof fn lemma_catch_cmds_all_empty(pm: PackageManager, line: Seq<char>, cmds: Seq<Seq<char>>)
    requires
        forall|k: int| 0 <= k < cmds.len() ==> !cmd_occurs(line, cmds[k]),
    ensures
        catch_cmds(pm, line, cmds) == Seq::<PackageV>::empty(),
    decreases cmds.len(),
{
    if cmds.len() == 0 {
        assert(catch_cmds(pm, line, cmds) =~= Seq::<PackageV>::empty());
    } else {
        assert(!cmd_occurs(line, cmds[0]));
        assert(catch_one(pm, line, cmds[0]) =~= Seq::<PackageV>::empty());
        assert forall|k: int| 0 <= k < cmds.skip(1).len() implies !cmd_occurs(
            line,
            cmds.skip(1)[k],
        ) by {
            assert(cmds.skip(1)[k] == cmds[k + 1]);
        }
        lemma_catch_cmds_all_empty(pm, line, cmds.skip(1));
        assert(catch_cmds(pm, line, cmds) =~= Seq::<PackageV>::empty());
    }
}

/// Matching is whole-token only: a line in which none of a manager's command
/// words stands as a whole token — for instance one where the word occurs
/// only inside a longer word — yields no packages for that manager.
pub proof fn lemma_whole_token_only(pm: PackageManager, line: Seq<char>, os: Os)
    requires
        !detected(pm, line, os),
    ensures
        catch_spec(pm, line, os) == Seq::<PackageV>::empty(),
{
    assert forall|k: int| 0 <= k < os_commands_spec(pm, os).len() implies !cmd_occurs(
        line,
        os_commands_spec(pm, os)[k],
    ) by {
        if cmd_occurs(line, os_commands_spec(pm, os)[k]) {
            assert(detected(pm, line, os));
        }
    }
    lemma_catch_cmds_all_empty(pm, line, os_commands_spec(pm, os));
}

/// A package list sorted by the full-command key.
pub open spec fn sorted_pkgs(s: Seq<PackageV>) -> bool {
    forall|i: int| 0 <= i < s.len() - 1 ==> pkg_le(#[trigger] s[i], s[i + 1])
}

/// A package list without adjacent duplicates.
pub open spec fn adj_distinct(s: Seq<PackageV>) -> bool {
    forall|i: int| 0 <= i < s.len() - 1 ==> #[trigger] s[i] != s[i + 1]
}

proof fn lemma_sort_sorted_identity(s: Seq<PackageV>)
    requires
        sorted_pkgs(s),
    ensures
        sort_pkgs(s) == s,
    decreases s.len(),
{
    if s.len() == 0 {
        assert(sort_pkgs(s) =~= s);
    } else {
        let d = s.drop_last();
        assert forall|i: int| 0 <= i < d.len() - 1 implies pkg_le(#[trigger] d[i], d[i + 1]) by {
            assert(d[i] == s[i]);
            assert(d[i + 1] == s[i + 1]);
        }
        lemma_sort_sorted_identity(d);
        if d.len() == 0 {
            assert(insert_sorted(d, s.last()) =~= s);
        } else {
            assert(d.last() == s[s.len() - 2]);
            assert(pkg_le(s[s.len() - 2], s[s.len() - 1]));
            assert(insert_sorted(d, s.last()) == d.push(s.last()));
            assert(d.push(s.last()) =~= s);
        }
    }
}

proof fn lemma_dedup_distinct_identity(s: Seq<PackageV>)
    requires
        adj_distinct(s),
    ensures
        dedup_adj(s) == s,
    decreases s.len(),
{
    if s.len() <= 1 {
    } else {
        assert(s[0] != s[1]);
        let t = s.skip(1);
        assert forall|i: int| 0 <= i < t.len() - 1 implies #[trigger] t[i] != t[i + 1] by {
            assert(t[i] == s[i + 1]);
            assert(t[i + 1] == s[i + 2]);
        }
        lemma_dedup_distinct_identity(t);
        assert(seq![s[0]] + t =~= s);
    }
}

/// Merging the empty list into a list that is already sorted and free of
/// adjacent duplicates changes nothing.
pub proof fn lemma_merge_empty_identity(a: Seq<PackageV>)
    requires
        sorted_pkgs(a),
        adj_distinct(a),
    ensures
        merge_spec(a, Seq::empty()) == a,
{
    assert(a + Seq::<PackageV>::empty() =~= a);
    lemma_sort_sorted_identity(a);
    lemma_dedup_distinct_identity(a);
}

} // verus!

// ---------------------------------------------------------------------------
// Structure of a simple install line
// ---------------------------------------------------------------------------

verus! {

/// A string without whitespace characters.
pub open spec fn no_ws(s: Seq<char>) -> bool {
    forall|k: int| 0 <= k < s.len() ==> !crate::chars::is_ascii_ws(#[trigger] s[k])
}

/// In `a + " " + b` with whitespace-free parts, the single space is the only
/// whitespace position.
proof fn lemma_ws_pos2(a: Seq<char>, b: Seq<char>, q: int)
    requires
        no_ws(a),
        no_ws(b),
        0 <= q < (a + seq![' '] + b).len(),
        crate::chars::is_ascii_ws((a + seq![' '] + b)[q]),
    ensures
        q == a.len(),
{
    let s = a + seq![' '] + b;
    if q < a.len() {
        assert(s[q] == a[q]);
    } else if q > a.len() {
        assert(s[q] == b[q - a.len() - 1]);
    }
}

/// The first token of `f + " " + tail` is `f`, when `f` is nonempty and
/// whitespace-free.
proof fn lemma_tok_two_parts(f: Seq<char>, tail: Seq<char>)
    requires
        f.len() > 0,
        no_ws(f),
    ensures
        tok(f + seq![' '] + tail).len() > 0,
        tok(f + seq![' '] + tail)[0] == f,
{
    let s = f + seq![' '] + tail;
    assert(!crate::chars::is_ascii_ws(s[0]));
    assert forall|k: int| 0 <= k < f.len() implies !crate::chars::is_ascii_ws(s[k]) by {
        assert(s[k] == f[k]);
    }
    assert(s[f.len() as int] == ' ');
    crate::strutil::lemma_first_ws_at(s, f.len() as int);
    assert(tok(s) == seq![s.take(f.len() as int)] + tok(s.skip(f.len() as int)));
    assert(s.take(f.len() as int) =~= f);
}

/// A nonempty whitespace-free string is one token.
proof fn lemma_tok_single(name: Seq<char>)
    requires
        name.len() > 0,
        no_ws(name),
    ensures
        tok(name) == seq![name],
{
    crate::strutil::lemma_first_ws_at(name, name.len() as int);
    assert(tok(name) == seq![name.take(name.len() as int)] + tok(name.skip(name.len() as int)));
    assert(name.take(name.len() as int) =~= name);
    assert(name.skip(name.len() as int) =~= Seq::<char>::empty());
    assert(tok(Seq::<char>::empty()) =~= Seq::<Seq<char>>::empty());
    assert(seq![name] + Seq::<Seq<char>>::empty() =~= seq![name]);
}

} // verus!

// ---------------------------------------------------------------------------
// An invalidating flag disqualifies the line
// ---------------------------------------------------------------------------

verus! {

/// One command word of a manager yields nothing from a line whose argument
/// list starts with an invalidating flag.
proof fn lemma_catch_one_invalidated(
    pm: PackageManager,
    cmd: Seq<char>,
    sub: Seq<char>,
    f: Seq<char>,
    name: Seq<char>,
)
    requires
        sub_commands_spec(pm).len() > 0,
        sub == sub_commands_spec(pm)[0],
        f.len() > 0,
        no_ws(f),
        crate::package_manager::invalidating_flags_spec(pm).contains(f),
    ensures
        catch_one(
            pm,
            cmd + seq![' '] + sub + seq![' '] + f + seq![' '] + name,
            cmd,
        ) == Seq::<PackageV>::empty(),
{
    let line = cmd + seq![' '] + sub + seq![' '] + f + seq![' '] + name;
    if cmd_occurs(line, cmd) {
        let pat = cmd + seq![' '];
        assert(line.subrange(0, pat.len() as int) =~= pat);
        assert(crate::strutil::matches_at(line, pat, 0));
        assert(crate::strutil::find_from(line, pat, 0) == Some(0int));
        let rest = line.skip(cmd.len() as int + 1);
        assert(rest =~= sub + seq![' '] + f + seq![' '] + name);
        // The first sub-command matches immediately.
        let spat = sub + seq![' '];
        assert(rest.subrange(0, spat.len() as int) =~= spat);
        assert(crate::strutil::matches_at(rest, spat, 0));
        assert(crate::package_manager_impl::strip_sub(rest, sub_commands_spec(pm)) == Some(
            rest.skip(sub.len() as int + 1),
        ));
        let args = rest.skip(sub.len() as int + 1);
        assert(args =~= f + seq![' '] + name);
        lemma_tok_two_parts(f, name);
        assert(tok(args)[0] == f);
        assert(crate::package_manager_impl::walk(pm, tok(args), 0, Seq::empty()).is_none());
        assert(crate::package_manager_impl::extract_args(pm, args) =~= Seq::<PackageV>::empty());
    }
}

/// A line that carries one of a manager's invalidating flags between the
/// sub-command and the package name yields no packages for that manager,
/// whatever the name.
pub proof fn lemma_invalidating_flag(
    pm: PackageManager,
    ci: int,
    si: int,
    f: Seq<char>,
    name: Seq<char>,
)
    requires
        0 <= ci < crate::package_manager::commands_spec(pm).len(),
        0 <= si < sub_commands_spec(pm).len(),
        crate::package_manager::invalidating_flags_spec(pm).contains(f),
    ensures
        catch_spec(
            pm,
            crate::package_manager::commands_spec(pm)[ci] + seq![' ']
                + sub_commands_spec(pm)[si] + seq![' '] + f + seq![' '] + name,
            Os::Posix,
        ) == Seq::<PackageV>::empty(),
{
    let cmds = crate::package_manager::commands_spec(pm);
    let subs = sub_commands_spec(pm);
    let inv = crate::package_manager::invalidating_flags_spec(pm);
    match pm {
        PackageManager::Cargo => {
            reveal_strlit("--path");
            assert(inv =~= seq!["--path"@]);
            assert(f == "--path"@);
            assert(f.len() == 6);
            assert(no_ws(f)) by {
                assert forall|k: int| 0 <= k < 6 implies !crate::chars::is_ascii_ws(
                    #[trigger] f[k],
                ) by {
                    assert(f[0] == '-');
                    assert(f[1] == '-');
                    assert(f[2] == 'p');
                    assert(f[3] == 'a');
                    assert(f[4] == 't');
                    assert(f[5] == 'h');
                }
            }
            assert(cmds =~= seq!["cargo"@]);
            assert(subs =~= seq!["install"@]);
            assert(ci == 0 && si == 0);
            let line = cmds[ci] + seq![' '] + subs[si] + seq![' '] + f + seq![' '] + name;
            lemma_catch_one_invalidated(pm, cmds[0], subs[0], f, name);
            assert(cmds.skip(1) =~= Seq::<Seq<char>>::empty());
            assert(catch_cmds(pm, line, cmds.skip(1)) =~= Seq::<PackageV>::empty());
            assert(catch_spec(pm, line, Os::Posix) =~= Seq::<PackageV>::empty());
        },
        PackageManager::Pip => {
            reveal_strlit("-r");
            assert(inv =~= seq!["-r"@]);
            assert(f == "-r"@);
            assert(f.len() == 2);
            assert(no_ws(f)) by {
                assert forall|k: int| 0 <= k < 2 implies !crate::chars::is_ascii_ws(
                    #[trigger] f[k],
                ) by {
                    assert(f[0] == '-');
                    assert(f[1] == 'r');
                }
            }
            assert(cmds =~= seq!["pip"@]);
            assert(subs =~= seq!["install"@]);
            assert(ci == 0 && si == 0);
            let line = cmds[ci] + seq![' '] + subs[si] + seq![' '] + f + seq![' '] + name;
            lemma_catch_one_invalidated(pm, cmds[0], subs[0], f, name);
            assert(cmds.skip(1) =~= Seq::<Seq<char>>::empty());
            assert(catch_cmds(pm, line, cmds.skip(1)) =~= Seq::<PackageV>::empty());
            assert(catch_spec(pm, line, Os::Posix) =~= Seq::<PackageV>::empty());
        },
        PackageManager::Pip3 => {
            reveal_strlit("-r");
            assert(inv =~= seq!["-r"@]);
            assert(f == "-r"@);
            assert(f.len() == 2);
            assert(no_ws(f)) by {
                assert forall|k: int| 0 <= k < 2 implies !crate::chars::is_ascii_ws(
                    #[trigger] f[k],
                ) by {
                    assert(f[0] == '-');
                    assert(f[1] == 'r');
                }
            }
            assert(cmds =~= seq!["pip3"@]);
            assert(subs =~= seq!["install"@]);
            assert(ci == 0 && si == 0);
            let line = cmds[ci] + seq![' '] + subs[si] + seq![' '] + f + seq![' '] + name;
            lemma_catch_one_invalidated(pm, cmds[0], subs[0], f, name);
            assert(cmds.skip(1) =~= Seq::<Seq<char>>::empty());
            assert(catch_cmds(pm, line, cmds.skip(1)) =~= Seq::<PackageV>::empty());
            assert(catch_spec(pm, line, Os::Posix) =~= Seq::<PackageV>::empty());
        },
        _ => {
            assert(inv.len() == 0);
            assert(false);
        },
    }
}

} // verus!

// ---------------------------------------------------------------------------
// A plain install line yields exactly its package
// ---------------------------------------------------------------------------

verus! {

/// In `a + " " + b + " " + c` with whitespace-free parts, the two single
/// spaces are the only whitespace positions.
proof fn lemma_ws_pos3(a: Seq<char>, b: Seq<char>, c: Seq<char>, q: int)
    requires
        no_ws(a),
        no_ws(b),
        no_ws(c),
        0 <= q < (a + seq![' '] + b + seq![' '] + c).len(),
        crate::chars::is_ascii_ws((a + seq![' '] + b + seq![' '] + c)[q]),
    ensures
        q == a.len() || q == a.len() + 1 + b.len(),
{
    let s = a + seq![' '] + b + seq![' '] + c;
    if q < a.len() {
        assert(s[q] == a[q]);
    } else if a.len() < q < a.len() + 1 + b.len() {
        assert(s[q] == b[q - a.len() - 1]);
    } else if q > a.len() + 1 + b.len() {
        assert(s[q] == c[q - a.len() - b.len() - 2]);
    }
}

/// In a line of the shape `cmd subcmd name` with whitespace-free parts, the
/// only words that can stand as whole command tokens are `cmd` and `subcmd`.
proof fn lemma_occurrence_in_line(cmd: Seq<char>, sub: Seq<char>, name: Seq<char>, w: Seq<char>)
    requires
        cmd.len() > 0,
        sub.len() > 0,
        no_ws(cmd),
        no_ws(sub),
        no_ws(name),
        no_ws(w),
        cmd_occurs(cmd + seq![' '] + sub + seq![' '] + name, w),
    ensures
        w == cmd || w == sub,
{
    let line = cmd + seq![' '] + sub + seq![' '] + name;
    let i = choose|i: int| crate::package_manager_impl::cmd_token_at(line, w, i);
    assert(crate::package_manager_impl::cmd_token_at(line, w, i));
    let q = i + w.len();
    assert(crate::chars::is_ascii_ws(line[q]));
    lemma_ws_pos3(cmd, sub, name, q);
    if q == cmd.len() {
        if i > 0 {
            assert(crate::chars::is_ascii_ws(line[i - 1]));
            lemma_ws_pos3(cmd, sub, name, i - 1);
            assert(false);
        }
        assert(i == 0);
        assert(w.len() == cmd.len());
        assert(line.subrange(0, cmd.len() as int) == w);
        assert(line.subrange(0, cmd.len() as int) =~= cmd);
    } else {
        assert(q == cmd.len() + 1 + sub.len());
        if i == 0 {
            assert(w.len() == cmd.len() + 1 + sub.len());
            assert(line.subrange(0, w.len() as int) == w);
            assert(w[cmd.len() as int] == line[cmd.len() as int]);
            assert(line[cmd.len() as int] == ' ');
            assert(crate::chars::is_ascii_ws(w[cmd.len() as int]));
            assert(false);
        }
        assert(crate::chars::is_ascii_ws(line[i - 1]));
        lemma_ws_pos3(cmd, sub, name, i - 1);
        if i - 1 == cmd.len() + 1 + sub.len() {
            assert(i + w.len() == i - 1);
            assert(false);
        }
        assert(i - 1 == cmd.len());
        assert(w.len() == sub.len());
        assert(line.subrange(i, i + w.len()) == w);
        assert(line.subrange(cmd.len() as int + 1, cmd.len() + 1 + sub.len() as int) =~= sub);
    }
}

/// When the sub-command at position `si` of the list starts the remainder
/// and no earlier sub-command can match, stripping removes exactly it.
proof fn lemma_strip_sub_hit(subs: Seq<Seq<char>>, si: int, name: Seq<char>)
    requires
        0 <= si < subs.len(),
        subs[si].len() > 0,
        si > 0 ==> no_ws(subs[si]),
        no_ws(name),
        forall|sj: int|
            0 <= sj < si ==> (#[trigger] subs[sj]).len() > 0 && no_ws(subs[sj]) && subs[sj]
                != subs[si],
    ensures
        crate::package_manager_impl::strip_sub(subs[si] + seq![' '] + name, subs) == Some(name),
    decreases si,
{
    let sub = subs[si];
    let rest = sub + seq![' '] + name;
    if si == 0 {
        let pat = sub + seq![' '];
        assert(rest.subrange(0, pat.len() as int) =~= pat);
        assert(crate::strutil::matches_at(rest, pat, 0));
        assert(rest.skip(sub.len() as int + 1) =~= name);
    } else {
        let s0 = subs[0];
        let pat = s0 + seq![' '];
        assert(!crate::strutil::matches_at(rest, pat, 0)) by {
            if crate::strutil::matches_at(rest, pat, 0) {
                assert(rest.subrange(0, pat.len() as int) == pat);
                if s0.len() < sub.len() {
                    assert(rest.subrange(0, pat.len() as int)[s0.len() as int] == rest[s0.len() as int]);
                    assert(pat[s0.len() as int] == ' ');
                    assert(rest[s0.len() as int] == sub[s0.len() as int]);
                    assert(!crate::chars::is_ascii_ws(sub[s0.len() as int]));
                } else if s0.len() == sub.len() {
                    assert forall|k: int| 0 <= k < s0.len() implies s0[k] == sub[k] by {
                        assert(rest.subrange(0, pat.len() as int)[k] == rest[k]);
                        assert(pat[k] == s0[k]);
                        assert(rest[k] == sub[k]);
                    }
                    assert(s0 =~= sub);
                } else {
                    assert(rest.subrange(0, pat.len() as int)[sub.len() as int] == rest[sub.len() as int]);
                    assert(pat[sub.len() as int] == s0[sub.len() as int]);
                    assert(rest[sub.len() as int] == ' ');
                    assert(crate::chars::is_ascii_ws(s0[sub.len() as int]));
                    assert(!crate::chars::is_ascii_ws(s0[sub.len() as int]));
                }
            }
        }
        let pat2 = seq![' '] + s0 + seq![' '];
        assert(crate::strutil::find_from(rest, pat2, 0).is_none()) by {
            crate::strutil::lemma_find_from_props(rest, pat2, 0);
            match crate::strutil::find_from(rest, pat2, 0) {
                Some(p) => {
                    assert(crate::strutil::matches_at(rest, pat2, p));
                    assert(rest.subrange(p, p + pat2.len() as int) == pat2);
                    assert(rest.subrange(p, p + pat2.len() as int)[0] == rest[p]);
                    assert(pat2[0] == ' ');
                    assert(rest[p] == ' ');
                    lemma_ws_pos2(sub, name, p);
                    let p2 = p + s0.len() + 1;
                    assert(rest.subrange(p, p + pat2.len() as int)[s0.len() as int + 1] == rest[p2]);
                    assert(pat2[s0.len() as int + 1] == ' ');
                    assert(rest[p2] == ' ');
                    lemma_ws_pos2(sub, name, p2);
                    assert(false);
                },
                None => {},
            }
        }
        assert(crate::package_manager_impl::strip_sub(rest, subs)
            == crate::package_manager_impl::strip_sub(rest, subs.skip(1)));
        assert(subs.skip(1)[si - 1] == subs[si]);
        assert forall|sj: int|
            0 <= sj < si - 1 implies (#[trigger] subs.skip(1)[sj]).len() > 0 && no_ws(
            subs.skip(1)[sj],
        ) && subs.skip(1)[sj] != subs.skip(1)[si - 1] by {
            assert(subs.skip(1)[sj] == subs[sj + 1]);
        }
        lemma_strip_sub_hit(subs.skip(1), si - 1, name);
    }
}

/// Walking a single alphanumeric token yields that token as the one package
/// name and captures nothing.
proof fn lemma_walk_single_name(pm: PackageManager, name: Seq<char>)
    requires
        name.len() > 0,
        crate::chars::is_alphanumeric_char(name[0]),
        forall|k: int|
            0 <= k < crate::package_manager::invalidating_flags_spec(pm).len() ==> (
            #[trigger] crate::package_manager::invalidating_flags_spec(pm)[k]).len() > 0
                && crate::package_manager::invalidating_flags_spec(pm)[k][0] == '-',
    ensures
        crate::package_manager_impl::walk(pm, seq![name], 0, Seq::empty()) == Some(
            (seq![name], Seq::<Seq<char>>::empty()),
        ),
{
    let inv = crate::package_manager::invalidating_flags_spec(pm);
    assert(name[0] != '-') by {
        if name[0] == '-' {
            assert(('-' as u32) == 45);
            assert(!crate::chars::is_ascii_alnum(name[0]));
        }
    }
    assert(name[0] != '+') by {
        if name[0] == '+' {
            assert(('+' as u32) == 43);
            assert(!crate::chars::is_ascii_alnum(name[0]));
        }
    }
    assert(!inv.contains(name)) by {
        if inv.contains(name) {
            let k = choose|k: int| 0 <= k < inv.len() && inv[k] == name;
            assert(inv[k].len() > 0 && inv[k][0] == '-');
            assert(name[0] == '-');
        }
    }
    let toks = seq![name];
    assert(toks[0] == name);
    assert(crate::package_manager_impl::walk(pm, toks, 1, Seq::empty()) == Some(
        (Seq::<Seq<char>>::empty(), Seq::<Seq<char>>::empty()),
    ));
    assert(seq![name] + Seq::<Seq<char>>::empty() =~= seq![name]);
}

} // verus!

// ---------------------------------------------------------------------------
// The descriptor tables are well-formed token lists
// ---------------------------------------------------------------------------

verus! {

/// The command words and sub-commands of every descriptor are nonempty; the
/// command words never contain whitespace, nor do the sub-commands of any
/// manager with several command words or several sub-commands; command words
/// are pairwise distinct and never equal to a sub-command; sub-commands are
/// pairwise distinct; and every invalidating flag starts with a dash.
pub proof fn lemma_tables_wf(pm: PackageManager)
    ensures
        forall|ci: int|
            0 <= ci < commands_spec(pm).len() ==> (#[trigger] commands_spec(pm)[ci]).len() > 0
                && no_ws(commands_spec(pm)[ci]),
        forall|si: int|
            0 <= si < sub_commands_spec(pm).len() ==> (#[trigger] sub_commands_spec(pm)[si]).len()
                > 0,
        forall|si: int|
            0 < si < sub_commands_spec(pm).len() ==> no_ws(#[trigger] sub_commands_spec(pm)[si]),
        commands_spec(pm).len() > 1 ==> forall|si: int|
            0 <= si < sub_commands_spec(pm).len() ==> no_ws(#[trigger] sub_commands_spec(pm)[si]),
        sub_commands_spec(pm).len() > 1 ==> forall|si: int|
            0 <= si < sub_commands_spec(pm).len() ==> no_ws(#[trigger] sub_commands_spec(pm)[si]),
        forall|ci: int, cj: int|
            #![trigger commands_spec(pm)[ci], commands_spec(pm)[cj]]
            0 <= ci < commands_spec(pm).len() && 0 <= cj < commands_spec(pm).len() && ci != cj
                ==> commands_spec(pm)[ci] != commands_spec(pm)[cj],
        forall|ci: int, si: int|
            #![trigger commands_spec(pm)[ci], sub_commands_spec(pm)[si]]
            0 <= ci < commands_spec(pm).len() && 0 <= si < sub_commands_spec(pm).len()
                ==> commands_spec(pm)[ci] != sub_commands_spec(pm)[si],
        forall|si: int, sj: int|
            #![trigger sub_commands_spec(pm)[si], sub_commands_spec(pm)[sj]]
            0 <= si < sub_commands_spec(pm).len() && 0 <= sj < sub_commands_spec(pm).len() && si
                != sj ==> sub_commands_spec(pm)[si] != sub_commands_spec(pm)[sj],
        forall|k: int|
            0 <= k < crate::package_manager::invalidating_flags_spec(pm).len() ==> (
            #[trigger] crate::package_manager::invalidating_flags_spec(pm)[k]).len() > 0
                && crate::package_manager::invalidating_flags_spec(pm)[k][0] == '-',
{
    match pm {
        PackageManager::Apt => {
            reveal_strlit("apt");
            reveal_strlit("apt-get");
            reveal_strlit("install");
            assert(commands_spec(pm) =~= seq!["apt"@, "apt-get"@]);
            assert(sub_commands_spec(pm) =~= seq!["install"@]);
            assert(crate::package_manager::invalidating_flags_spec(pm) =~= Seq::<Seq<char>>::empty());
            assert(no_ws("apt"@)) by {
                assert forall|k: int| 0 <= k < "apt"@.len() implies !crate::chars::is_ascii_ws(#[trigger] "apt"@[k]) by {
                    assert("apt"@[0] == 'a');
                    assert("apt"@[1] == 'p');
                    assert("apt"@[2] == 't');
                }
            }
            assert(no_ws("apt-get"@)) by {
                assert forall|k: int| 0 <= k < "apt-get"@.len() implies !crate::chars::is_ascii_ws(#[trigger] "apt-get"@[k]) by {
                    assert("apt-get"@[0] == 'a');
                    assert("apt-get"@[1] == 'p');
                    assert("apt-get"@[2] == 't');
                    assert("apt-get"@[3] == '-');
                    assert("apt-get"@[4] == 'g');
                    assert("apt-get"@[5] == 'e');
                    assert("apt-get"@[6] == 't');
                }
            }
            assert(no_ws("install"@)) by {
                assert forall|k: int| 0 <= k < "install"@.len() implies !crate::chars::is_ascii_ws(#[trigger] "install"@[k]) by {
                    assert("install"@[0] == 'i');
                    assert("install"@[1] == 'n');
                    assert("install"@[2] == 's');
                    assert("install"@[3] == 't');
                    assert("install"@[4] == 'a');
                    assert("install"@[5] == 'l');
                    assert("install"@[6] == 'l');
                }
            }
            assert("apt"@ != "apt-get"@) by {
                if "apt"@ == "apt-get"@ {
                    assert("apt"@.len() == "apt-get"@.len());
                    assert("apt"@[0] == "apt-get"@[0]);
                }
            }
            assert("apt"@ != "install"@) by {
                if "apt"@ == "install"@ {
                    assert("apt"@.len() == "install"@.len());
                    assert("apt"@[0] == "install"@[0]);
                }
            }
            assert("apt-get"@ != "install"@) by {
                if "apt-get"@ == "install"@ {
                    assert("apt-get"@.len() == "install"@.len());
                    assert("apt-get"@[0] == "install"@[0]);
                }
            }
            assert forall|ci: int| 0 <= ci < commands_spec(pm).len() implies (#[trigger] commands_spec(pm)[ci]).len() > 0 && no_ws(commands_spec(pm)[ci]) by {
                if ci == 0 { assert(commands_spec(pm)[0] == "apt"@); } else if ci == 1 { assert(commands_spec(pm)[1] == "apt-get"@); }
            }
            assert forall|si: int| 0 <= si < sub_commands_spec(pm).len() implies (#[trigger] sub_commands_spec(pm)[si]).len() > 0 by {
                if si == 0 { assert(sub_commands_spec(pm)[0] == "install"@); }
            }
            assert forall|si: int| 0 < si < sub_commands_spec(pm).len() implies no_ws(#[trigger] sub_commands_spec(pm)[si]) by {
                if si == 0 { assert(sub_commands_spec(pm)[0] == "install"@); }
            }
            if commands_spec(pm).len() > 1 {
                assert forall|si: int| 0 <= si < sub_commands_spec(pm).len() implies no_ws(#[trigger] sub_commands_spec(pm)[si]) by {
                    if si == 0 { assert(sub_commands_spec(pm)[0] == "install"@); }
                }
            }
            if sub_commands_spec(pm).len() > 1 {
                assert forall|si: int| 0 <= si < sub_commands_spec(pm).len() implies no_ws(#[trigger] sub_commands_spec(pm)[si]) by {
                    if si == 0 { assert(sub_commands_spec(pm)[0] == "install"@); }
                }
            }
            assert forall|ci: int, cj: int| #![trigger commands_spec(pm)[ci], commands_spec(pm)[cj]] 0 <= ci < commands_spec(pm).len() && 0 <= cj < commands_spec(pm).len() && ci != cj implies commands_spec(pm)[ci] != commands_spec(pm)[cj] by {
                if ci == 0 { if cj == 0 { assert(commands_spec(pm)[0] == "apt"@); assert(commands_spec(pm)[0] == "apt"@); } else if cj == 1 { assert(commands_spec(pm)[0] == "apt"@); assert(commands_spec(pm)[1] == "apt-get"@); } } else if ci == 1 { if cj == 0 { assert(commands_spec(pm)[1] == "apt-get"@); assert(commands_spec(pm)[0] == "apt"@); } else if cj == 1 { assert(commands_spec(pm)[1] == "apt-get"@); assert(commands_spec(pm)[1] == "apt-get"@); } }
            }
            assert forall|ci: int, si: int| #![trigger commands_spec(pm)[ci], sub_commands_spec(pm)[si]] 0 <= ci < commands_spec(pm).len() && 0 <= si < sub_commands_spec(pm).len() implies commands_spec(pm)[ci] != sub_commands_spec(pm)[si] by {
                if ci == 0 { if si == 0 { assert(commands_spec(pm)[0] == "apt"@); assert(sub_commands_spec(pm)[0] == "install"@); } } else if ci == 1 { if si == 0 { assert(commands_spec(pm)[1] == "apt-get"@); assert(sub_commands_spec(pm)[0] == "install"@); } }
            }
            assert forall|si: int, sj: int| #![trigger sub_commands_spec(pm)[si], sub_commands_spec(pm)[sj]] 0 <= si < sub_commands_spec(pm).len() && 0 <= sj < sub_commands_spec(pm).len() && si != sj implies sub_commands_spec(pm)[si] != sub_commands_spec(pm)[sj] by {
                if si == 0 { if sj == 0 { assert(sub_commands_spec(pm)[0] == "install"@); assert(sub_commands_spec(pm)[0] == "install"@); } }
            }
        },
        PackageManager::Brew => {
            reveal_strlit("brew");
            reveal_strlit("install");
            assert(commands_spec(pm) =~= seq!["brew"@]);
            assert(sub_commands_spec(pm) =~= seq!["install"@]);
            assert(crate::package_manager::invalidating_flags_spec(pm) =~= Seq::<Seq<char>>::empty());
            assert(no_ws("brew"@)) by {
                assert forall|k: int| 0 <= k < "brew"@.len() implies !crate::chars::is_ascii_ws(#[trigger] "brew"@[k]) by {
                    assert("brew"@[0] == 'b');
                    assert("brew"@[1] == 'r');
                    assert("brew"@[2] == 'e');
                    assert("brew"@[3] == 'w');
                }
            }
            assert(no_ws("install"@)) by {
                assert forall|k: int| 0 <= k < "install"@.len() implies !crate::chars::is_ascii_ws(#[trigger] "install"@[k]) by {
                    assert("install"@[0] == 'i');
                    assert("install"@[1] == 'n');
                    assert("install"@[2] == 's');
                    assert("install"@[3] == 't');
                    assert("install"@[4] == 'a');
                    assert("install"@[5] == 'l');
                    assert("install"@[6] == 'l');
                }
            }
            assert("brew"@ != "install"@) by {
                if "brew"@ == "install"@ {
                    assert("brew"@.len() == "install"@.len());
                    assert("brew"@[0] == "install"@[0]);
                }
            }
            assert forall|ci: int| 0 <= ci < commands_spec(pm).len() implies (#[trigger] commands_spec(pm)[ci]).len() > 0 && no_ws(commands_spec(pm)[ci]) by {
                if ci == 0 { assert(commands_spec(pm)[0] == "brew"@); }
            }
            assert forall|si: int| 0 <= si < sub_commands_spec(pm).len() implies (#[trigger] sub_commands_spec(pm)[si]).len() > 0 by {
                if si == 0 { assert(sub_commands_spec(pm)[0] == "install"@); }
            }
            assert forall|si: int| 0 < si < sub_commands_spec(pm).len() implies no_ws(#[trigger] sub_commands_spec(pm)[si]) by {
                if si == 0 { assert(sub_commands_spec(pm)[0] == "install"@); }
            }
            if commands_spec(pm).len() > 1 {
                assert forall|si: int| 0 <= si < sub_commands_spec(pm).len() implies no_ws(#[trigger] sub_commands_spec(pm)[si]) by {
                    if si == 0 { assert(sub_commands_spec(pm)[0] == "install"@); }
                }
            }
            if sub_commands_spec(pm).len() > 1 {
                assert forall|si: int| 0 <= si < sub_commands_spec(pm).len() implies no_ws(#[trigger] sub_commands_spec(pm)[si]) by {
                    if si == 0 { assert(sub_commands_spec(pm)[0] == "install"@); }
                }
            }
            assert forall|ci: int, cj: int| #![trigger commands_spec(pm)[ci], commands_spec(pm)[cj]] 0 <= ci < commands_spec(pm).len() && 0 <= cj < commands_spec(pm).len() && ci != cj implies commands_spec(pm)[ci] != commands_spec(pm)[cj] by {
                if ci == 0 { if cj == 0 { assert(commands_spec(pm)[0] == "brew"@); assert(commands_spec(pm)[0] == "brew"@); } }
            }
            assert forall|ci: int, si: int| #![trigger commands_spec(pm)[ci], sub_commands_spec(pm)[si]] 0 <= ci < commands_spec(pm).len() && 0 <= si < sub_commands_spec(pm).len() implies commands_spec(pm)[ci] != sub_commands_spec(pm)[si] by {
                if ci == 0 { if si == 0 { assert(commands_spec(pm)[0] == "brew"@); assert(sub_commands_spec(pm)[0] == "install"@); } }
            }
            assert forall|si: int, sj: int| #![trigger sub_commands_spec(pm)[si], sub_commands_spec(pm)[sj]] 0 <= si < sub_commands_spec(pm).len() && 0 <= sj < sub_commands_spec(pm).len() && si != sj implies sub_commands_spec(pm)[si] != sub_commands_spec(pm)[sj] by {
                if si == 0 { if sj == 0 { assert(sub_commands_spec(pm)[0] == "install"@); assert(sub_commands_spec(pm)[0] == "install"@); } }
            }
        },
        PackageManager::Cargo => {
            reveal_strlit("--path");
            reveal_strlit("cargo");
            reveal_strlit("install");
            assert(commands_spec(pm) =~= seq!["cargo"@]);
            assert(sub_commands_spec(pm) =~= seq!["install"@]);
            assert(crate::package_manager::invalidating_flags_spec(pm) =~= seq!["--path"@]);
            assert(no_ws("cargo"@)) by {
                assert forall|k: int| 0 <= k < "cargo"@.len() implies !crate::chars::is_ascii_ws(#[trigger] "cargo"@[k]) by {
                    assert("cargo"@[0] == 'c');
                    assert("cargo"@[1] == 'a');
                    assert("cargo"@[2] == 'r');
                    assert("cargo"@[3] == 'g');
                    assert("cargo"@[4] == 'o');
                }
            }
            assert(no_ws("install"@)) by {
                assert forall|k: int| 0 <= k < "install"@.len() implies !crate::chars::is_ascii_ws(#[trigger] "install"@[k]) by {
                    assert("install"@[0] == 'i');
                    assert("install"@[1] == 'n');
                    assert("install"@[2] == 's');
                    assert("install"@[3] == 't');
                    assert("install"@[4] == 'a');
                    assert("install"@[5] == 'l');
                    assert("install"@[6] == 'l');
                }
            }
            assert("--path"@[0] == '-');
            assert("--path"@.len() > 0);
            assert("cargo"@ != "install"@) by {
                if "cargo"@ == "install"@ {
                    assert("cargo"@.len() == "install"@.len());
                    assert("cargo"@[0] == "install"@[0]);
                }
            }
            assert forall|ci: int| 0 <= ci < commands_spec(pm).len() implies (#[trigger] commands_spec(pm)[ci]).len() > 0 && no_ws(commands_spec(pm)[ci]) by {
                if ci == 0 { assert(commands_spec(pm)[0] == "cargo"@); }
            }
            assert forall|si: int| 0 <= si < sub_commands_spec(pm).len() implies (#[trigger] sub_commands_spec(pm)[si]).len() > 0 by {
                if si == 0 { assert(sub_commands_spec(pm)[0] == "install"@); }
            }
            assert forall|si: int| 0 < si < sub_commands_spec(pm).len() implies no_ws(#[trigger] sub_commands_spec(pm)[si]) by {
                if si == 0 { assert(sub_commands_spec(pm)[0] == "install"@); }
            }
            if commands_spec(pm).len() > 1 {
                assert forall|si: int| 0 <= si < sub_commands_spec(pm).len() implies no_ws(#[trigger] sub_commands_spec(pm)[si]) by {
                    if si == 0 { assert(sub_commands_spec(pm)[0] == "install"@); }
                }
            }
            if sub_commands_spec(pm).len() > 1 {
                assert forall|si: int| 0 <= si < sub_commands_spec(pm).len() implies no_ws(#[trigger] sub_commands_spec(pm)[si]) by {
                    if si == 0 { assert(sub_commands_spec(pm)[0] == "install"@); }
                }
            }
            assert forall|ci: int, cj: int| #![trigger commands_spec(pm)[ci], commands_spec(pm)[cj]] 0 <= ci < commands_spec(pm).len() && 0 <= cj < commands_spec(pm).len() && ci != cj implies commands_spec(pm)[ci] != commands_spec(pm)[cj] by {
                if ci == 0 { if cj == 0 { assert(commands_spec(pm)[0] == "cargo"@); assert(commands_spec(pm)[0] == "cargo"@); } }
            }
            assert forall|ci: int, si: int| #![trigger commands_spec(pm)[ci], sub_commands_spec(pm)[si]] 0 <= ci < commands_spec(pm).len() && 0 <= si < sub_commands_spec(pm).len() implies commands_spec(pm)[ci] != sub_commands_spec(pm)[si] by {
                if ci == 0 { if si == 0 { assert(commands_spec(pm)[0] == "cargo"@); assert(sub_commands_spec(pm)[0] == "install"@); } }
            }
            assert forall|si: int, sj: int| #![trigger sub_commands_spec(pm)[si], sub_commands_spec(pm)[sj]] 0 <= si < sub_commands_spec(pm).len() && 0 <= sj < sub_commands_spec(pm).len() && si != sj implies sub_commands_spec(pm)[si] != sub_commands_spec(pm)[sj] by {
                if si == 0 { if sj == 0 { assert(sub_commands_spec(pm)[0] == "install"@); assert(sub_commands_spec(pm)[0] == "install"@); } }
            }
            assert forall|k: int| 0 <= k < crate::package_manager::invalidating_flags_spec(pm).len() implies (#[trigger] crate::package_manager::invalidating_flags_spec(pm)[k]).len() > 0 && crate::package_manager::invalidating_flags_spec(pm)[k][0] == '-' by {
                if k == 0 { assert(crate::package_manager::invalidating_flags_spec(pm)[0] == "--path"@); }
            }
        },
        PackageManager::CargoBinstall => {
            reveal_strlit("binstall");
            reveal_strlit("cargo");
            assert(commands_spec(pm) =~= seq!["cargo"@]);
            assert(sub_commands_spec(pm) =~= seq!["binstall"@]);
            assert(crate::package_manager::invalidating_flags_spec(pm) =~= Seq::<Seq<char>>::empty());
            assert(no_ws("cargo"@)) by {
                assert forall|k: int| 0 <= k < "cargo"@.len() implies !crate::chars::is_ascii_ws(#[trigger] "cargo"@[k]) by {
                    assert("cargo"@[0] == 'c');
                    assert("cargo"@[1] == 'a');
                    assert("cargo"@[2] == 'r');
                    assert("cargo"@[3] == 'g');
                    assert("cargo"@[4] == 'o');
                }
            }
            assert(no_ws("binstall"@)) by {
                assert forall|k: int| 0 <= k < "binstall"@.len() implies !crate::chars::is_ascii_ws(#[trigger] "binstall"@[k]) by {
                    assert("binstall"@[0] == 'b');
                    assert("binstall"@[1] == 'i');
                    assert("binstall"@[2] == 'n');
                    assert("binstall"@[3] == 's');
                    assert("binstall"@[4] == 't');
                    assert("binstall"@[5] == 'a');
                    assert("binstall"@[6] == 'l');
                    assert("binstall"@[7] == 'l');
                }
            }
            assert("cargo"@ != "binstall"@) by {
                if "cargo"@ == "binstall"@ {
                    assert("cargo"@.len() == "binstall"@.len());
                    assert("cargo"@[0] == "binstall"@[0]);
                }
            }
            assert forall|ci: int| 0 <= ci < commands_spec(pm).len() implies (#[trigger] commands_spec(pm)[ci]).len() > 0 && no_ws(commands_spec(pm)[ci]) by {
                if ci == 0 { assert(commands_spec(pm)[0] == "cargo"@); }
            }
            assert forall|si: int| 0 <= si < sub_commands_spec(pm).len() implies (#[trigger] sub_commands_spec(pm)[si]).len() > 0 by {
                if si == 0 { assert(sub_commands_spec(pm)[0] == "binstall"@); }
            }
            assert forall|si: int| 0 < si < sub_commands_spec(pm).len() implies no_ws(#[trigger] sub_commands_spec(pm)[si]) by {
                if si == 0 { assert(sub_commands_spec(pm)[0] == "binstall"@); }
            }
            if commands_spec(pm).len() > 1 {
                assert forall|si: int| 0 <= si < sub_commands_spec(pm).len() implies no_ws(#[trigger] sub_commands_spec(pm)[si]) by {
                    if si == 0 { assert(sub_commands_spec(pm)[0] == "binstall"@); }
                }
            }
            if sub_commands_spec(pm).len() > 1 {
                assert forall|si: int| 0 <= si < sub_commands_spec(pm).len() implies no_ws(#[trigger] sub_commands_spec(pm)[si]) by {
                    if si == 0 { assert(sub_commands_spec(pm)[0] == "binstall"@); }
                }
            }
            assert forall|ci: int, cj: int| #![trigger commands_spec(pm)[ci], commands_spec(pm)[cj]] 0 <= ci < commands_spec(pm).len() && 0 <= cj < commands_spec(pm).len() && ci != cj implies commands_spec(pm)[ci] != commands_spec(pm)[cj] by {
                if ci == 0 { if cj == 0 { assert(commands_spec(pm)[0] == "cargo"@); assert(commands_spec(pm)[0] == "cargo"@); } }
            }
            assert forall|ci: int, si: int| #![trigger commands_spec(pm)[ci], sub_commands_spec(pm)[si]] 0 <= ci < commands_spec(pm).len() && 0 <= si < sub_commands_spec(pm).len() implies commands_spec(pm)[ci] != sub_commands_spec(pm)[si] by {
                if ci == 0 { if si == 0 { assert(commands_spec(pm)[0] == "cargo"@); assert(sub_commands_spec(pm)[0] == "binstall"@); } }
            }
            assert forall|si: int, sj: int| #![trigger sub_commands_spec(pm)[si], sub_commands_spec(pm)[sj]] 0 <= si < sub_commands_spec(pm).len() && 0 <= sj < sub_commands_spec(pm).len() && si != sj implies sub_commands_spec(pm)[si] != sub_commands_spec(pm)[sj] by {
                if si == 0 { if sj == 0 { assert(sub_commands_spec(pm)[0] == "binstall"@); assert(sub_commands_spec(pm)[0] == "binstall"@); } }
            }
        },
        PackageManager::Chocolatey => {
            reveal_strlit("choco");
            reveal_strlit("install");
            assert(commands_spec(pm) =~= seq!["choco"@]);
            assert(sub_commands_spec(pm) =~= seq!["install"@]);
            assert(crate::package_manager::invalidating_flags_spec(pm) =~= Seq::<Seq<char>>::empty());
            assert(no_ws("choco"@)) by {
                assert forall|k: int| 0 <= k < "choco"@.len() implies !crate::chars::is_ascii_ws(#[trigger] "choco"@[k]) by {
                    assert("choco"@[0] == 'c');
                    assert("choco"@[1] == 'h');
                    assert("choco"@[2] == 'o');
                    assert("choco"@[3] == 'c');
                    assert("choco"@[4] == 'o');
                }
            }
            assert(no_ws("install"@)) by {
                assert forall|k: int| 0 <= k < "install"@.len() implies !crate::chars::is_ascii_ws(#[trigger] "install"@[k]) by {
                    assert("install"@[0] == 'i');
                    assert("install"@[1] == 'n');
                    assert("install"@[2] == 's');
                    assert("install"@[3] == 't');
                    assert("install"@[4] == 'a');
                    assert("install"@[5] == 'l');
                    assert("install"@[6] == 'l');
                }
            }
            assert("choco"@ != "install"@) by {
                if "choco"@ == "install"@ {
                    assert("choco"@.len() == "install"@.len());
                    assert("choco"@[0] == "install"@[0]);
                }
            }
            assert forall|ci: int| 0 <= ci < commands_spec(pm).len() implies (#[trigger] commands_spec(pm)[ci]).len() > 0 && no_ws(commands_spec(pm)[ci]) by {
                if ci == 0 { assert(commands_spec(pm)[0] == "choco"@); }
            }
            assert forall|si: int| 0 <= si < sub_commands_spec(pm).len() implies (#[trigger] sub_commands_spec(pm)[si]).len() > 0 by {
                if si == 0 { assert(sub_commands_spec(pm)[0] == "install"@); }
            }
            assert forall|si: int| 0 < si < sub_commands_spec(pm).len() implies no_ws(#[trigger] sub_commands_spec(pm)[si]) by {
                if si == 0 { assert(sub_commands_spec(pm)[0] == "install"@); }
            }
            if commands_spec(pm).len() > 1 {
                assert forall|si: int| 0 <= si < sub_commands_spec(pm).len() implies no_ws(#[trigger] sub_commands_spec(pm)[si]) by {
                    if si == 0 { assert(sub_commands_spec(pm)[0] == "install"@); }
                }
            }
            if sub_commands_spec(pm).len() > 1 {
                assert forall|si: int| 0 <= si < sub_commands_spec(pm).len() implies no_ws(#[trigger] sub_commands_spec(pm)[si]) by {
                    if si == 0 { assert(sub_commands_spec(pm)[0] == "install"@); }
                }
            }
            assert forall|ci: int, cj: int| #![trigger commands_spec(pm)[ci], commands_spec(pm)[cj]] 0 <= ci < commands_spec(pm).len() && 0 <= cj < commands_spec(pm).len() && ci != cj implies commands_spec(pm)[ci] != commands_spec(pm)[cj] by {
                if ci == 0 { if cj == 0 { assert(commands_spec(pm)[0] == "choco"@); assert(commands_spec(pm)[0] == "choco"@); } }
            }
            assert forall|ci: int, si: int| #![trigger commands_spec(pm)[ci], sub_commands_spec(pm)[si]] 0 <= ci < commands_spec(pm).len() && 0 <= si < sub_commands_spec(pm).len() implies commands_spec(pm)[ci] != sub_commands_spec(pm)[si] by {
                if ci == 0 { if si == 0 { assert(commands_spec(pm)[0] == "choco"@); assert(sub_commands_spec(pm)[0] == "install"@); } }
            }
            assert forall|si: int, sj: int| #![trigger sub_commands_spec(pm)[si], sub_commands_spec(pm)[sj]] 0 <= si < sub_commands_spec(pm).len() && 0 <= sj < sub_commands_spec(pm).len() && si != sj implies sub_commands_spec(pm)[si] != sub_commands_spec(pm)[sj] by {
                if si == 0 { if sj == 0 { assert(sub_commands_spec(pm)[0] == "install"@); assert(sub_commands_spec(pm)[0] == "install"@); } }
            }
        },
        PackageManager::Dnf => {
            reveal_strlit("dnf");
            reveal_strlit("install");
            reveal_strlit("yum");
            assert(commands_spec(pm) =~= seq!["dnf"@, "yum"@]);
            assert(sub_commands_spec(pm) =~= seq!["install"@]);
            assert(crate::package_manager::invalidating_flags_spec(pm) =~= Seq::<Seq<char>>::empty());
            assert(no_ws("dnf"@)) by {
                assert forall|k: int| 0 <= k < "dnf"@.len() implies !crate::chars::is_ascii_ws(#[trigger] "dnf"@[k]) by {
                    assert("dnf"@[0] == 'd');
                    assert("dnf"@[1] == 'n');
                    assert("dnf"@[2] == 'f');
                }
            }
            assert(no_ws("yum"@)) by {
                assert forall|k: int| 0 <= k < "yum"@.len() implies !crate::chars::is_ascii_ws(#[trigger] "yum"@[k]) by {
                    assert("yum"@[0] == 'y');
                    assert("yum"@[1] == 'u');
                    assert("yum"@[2] == 'm');
                }
            }
            assert(no_ws("install"@)) by {
                assert forall|k: int| 0 <= k < "install"@.len() implies !crate::chars::is_ascii_ws(#[trigger] "install"@[k]) by {
                    assert("install"@[0] == 'i');
                    assert("install"@[1] == 'n');
                    assert("install"@[2] == 's');
                    assert("install"@[3] == 't');
                    assert("install"@[4] == 'a');
                    assert("install"@[5] == 'l');
                    assert("install"@[6] == 'l');
                }
            }
            assert("dnf"@ != "yum"@) by {
                if "dnf"@ == "yum"@ {
                    assert("dnf"@.len() == "yum"@.len());
                    assert("dnf"@[0] == "yum"@[0]);
                }
            }
            assert("dnf"@ != "install"@) by {
                if "dnf"@ == "install"@ {
                    assert("dnf"@.len() == "install"@.len());
                    assert("dnf"@[0] == "install"@[0]);
                }
            }
            assert("yum"@ != "install"@) by {
                if "yum"@ == "install"@ {
                    assert("yum"@.len() == "install"@.len());
                    assert("yum"@[0] == "install"@[0]);
                }
            }
            assert forall|ci: int| 0 <= ci < commands_spec(pm).len() implies (#[trigger] commands_spec(pm)[ci]).len() > 0 && no_ws(commands_spec(pm)[ci]) by {
                if ci == 0 { assert(commands_spec(pm)[0] == "dnf"@); } else if ci == 1 { assert(commands_spec(pm)[1] == "yum"@); }
            }
            assert forall|si: int| 0 <= si < sub_commands_spec(pm).len() implies (#[trigger] sub_commands_spec(pm)[si]).len() > 0 by {
                if si == 0 { assert(sub_commands_spec(pm)[0] == "install"@); }
            }
            assert forall|si: int| 0 < si < sub_commands_spec(pm).len() implies no_ws(#[trigger] sub_commands_spec(pm)[si]) by {
                if si == 0 { assert(sub_commands_spec(pm)[0] == "install"@); }
            }
            if commands_spec(pm).len() > 1 {
                assert forall|si: int| 0 <= si < sub_commands_spec(pm).len() implies no_ws(#[trigger] sub_commands_spec(pm)[si]) by {
                    if si == 0 { assert(sub_commands_spec(pm)[0] == "install"@); }
                }
            }
            if sub_commands_spec(pm).len() > 1 {
                assert forall|si: int| 0 <= si < sub_commands_spec(pm).len() implies no_ws(#[trigger] sub_commands_spec(pm)[si]) by {
                    if si == 0 { assert(sub_commands_spec(pm)[0] == "install"@); }
                }
            }
            assert forall|ci: int, cj: int| #![trigger commands_spec(pm)[ci], commands_spec(pm)[cj]] 0 <= ci < commands_spec(pm).len() && 0 <= cj < commands_spec(pm).len() && ci != cj implies commands_spec(pm)[ci] != commands_spec(pm)[cj] by {
                if ci == 0 { if cj == 0 { assert(commands_spec(pm)[0] == "dnf"@); assert(commands_spec(pm)[0] == "dnf"@); } else if cj == 1 { assert(commands_spec(pm)[0] == "dnf"@); assert(commands_spec(pm)[1] == "yum"@); } } else if ci == 1 { if cj == 0 { assert(commands_spec(pm)[1] == "yum"@); assert(commands_spec(pm)[0] == "dnf"@); } else if cj == 1 { assert(commands_spec(pm)[1] == "yum"@); assert(commands_spec(pm)[1] == "yum"@); } }
            }
            assert forall|ci: int, si: int| #![trigger commands_spec(pm)[ci], sub_commands_spec(pm)[si]] 0 <= ci < commands_spec(pm).len() && 0 <= si < sub_commands_spec(pm).len() implies commands_spec(pm)[ci] != sub_commands_spec(pm)[si] by {
                if ci == 0 { if si == 0 { assert(commands_spec(pm)[0] == "dnf"@); assert(sub_commands_spec(pm)[0] == "install"@); } } else if ci == 1 { if si == 0 { assert(commands_spec(pm)[1] == "yum"@); assert(sub_commands_spec(pm)[0] == "install"@); } }
            }
            assert forall|si: int, sj: int| #![trigger sub_commands_spec(pm)[si], sub_commands_spec(pm)[sj]] 0 <= si < sub_commands_spec(pm).len() && 0 <= sj < sub_commands_spec(pm).len() && si != sj implies sub_commands_spec(pm)[si] != sub_commands_spec(pm)[sj] by {
                if si == 0 { if sj == 0 { assert(sub_commands_spec(pm)[0] == "install"@); assert(sub_commands_spec(pm)[0] == "install"@); } }
            }
        },
        PackageManager::Gem => {
            reveal_strlit("gem");
            reveal_strlit("install");
            assert(commands_spec(pm) =~= seq!["gem"@]);
            assert(sub_commands_spec(pm) =~= seq!["install"@]);
            assert(crate::package_manager::invalidating_flags_spec(pm) =~= Seq::<Seq<char>>::empty());
            assert(no_ws("gem"@)) by {
                assert forall|k: int| 0 <= k < "gem"@.len() implies !crate::chars::is_ascii_ws(#[trigger] "gem"@[k]) by {
                    assert("gem"@[0] == 'g');
                    assert("gem"@[1] == 'e');
                    assert("gem"@[2] == 'm');
                }
            }
            assert(no_ws("install"@)) by {
                assert forall|k: int| 0 <= k < "install"@.len() implies !crate::chars::is_ascii_ws(#[trigger] "install"@[k]) by {
                    assert("install"@[0] == 'i');
                    assert("install"@[1] == 'n');
                    assert("install"@[2] == 's');
                    assert("install"@[3] == 't');
                    assert("install"@[4] == 'a');
                    assert("install"@[5] == 'l');
                    assert("install"@[6] == 'l');
                }
            }
            assert("gem"@ != "install"@) by {
                if "gem"@ == "install"@ {
                    assert("gem"@.len() == "install"@.len());
                    assert("gem"@[0] == "install"@[0]);
                }
            }
            assert forall|ci: int| 0 <= ci < commands_spec(pm).len() implies (#[trigger] commands_spec(pm)[ci]).len() > 0 && no_ws(commands_spec(pm)[ci]) by {
                if ci == 0 { assert(commands_spec(pm)[0] == "gem"@); }
            }
            assert forall|si: int| 0 <= si < sub_commands_spec(pm).len() implies (#[trigger] sub_commands_spec(pm)[si]).len() > 0 by {
                if si == 0 { assert(sub_commands_spec(pm)[0] == "install"@); }
            }
            assert forall|si: int| 0 < si < sub_commands_spec(pm).len() implies no_ws(#[trigger] sub_commands_spec(pm)[si]) by {
                if si == 0 { assert(sub_commands_spec(pm)[0] == "install"@); }
            }
            if commands_spec(pm).len() > 1 {
                assert forall|si: int| 0 <= si < sub_commands_spec(pm).len() implies no_ws(#[trigger] sub_commands_spec(pm)[si]) by {
                    if si == 0 { assert(sub_commands_spec(pm)[0] == "install"@); }
                }
            }
            if sub_commands_spec(pm).len() > 1 {
                assert forall|si: int| 0 <= si < sub_commands_spec(pm).len() implies no_ws(#[trigger] sub_commands_spec(pm)[si]) by {
                    if si == 0 { assert(sub_commands_spec(pm)[0] == "install"@); }
                }
            }
            assert forall|ci: int, cj: int| #![trigger commands_spec(pm)[ci], commands_spec(pm)[cj]] 0 <= ci < commands_spec(pm).len() && 0 <= cj < commands_spec(pm).len() && ci != cj implies commands_spec(pm)[ci] != commands_spec(pm)[cj] by {
                if ci == 0 { if cj == 0 { assert(commands_spec(pm)[0] == "gem"@); assert(commands_spec(pm)[0] == "gem"@); } }
            }
            assert forall|ci: int, si: int| #![trigger commands_spec(pm)[ci], sub_commands_spec(pm)[si]] 0 <= ci < commands_spec(pm).len() && 0 <= si < sub_commands_spec(pm).len() implies commands_spec(pm)[ci] != sub_commands_spec(pm)[si] by {
                if ci == 0 { if si == 0 { assert(commands_spec(pm)[0] == "gem"@); assert(sub_commands_spec(pm)[0] == "install"@); } }
            }
            assert forall|si: int, sj: int| #![trigger sub_commands_spec(pm)[si], sub_commands_spec(pm)[sj]] 0 <= si < sub_commands_spec(pm).len() && 0 <= sj < sub_commands_spec(pm).len() && si != sj implies sub_commands_spec(pm)[si] != sub_commands_spec(pm)[sj] by {
                if si == 0 { if sj == 0 { assert(sub_commands_spec(pm)[0] == "install"@); assert(sub_commands_spec(pm)[0] == "install"@); } }
            }
        },
        PackageManager::Go => {
            reveal_strlit("get");
            reveal_strlit("go");
            assert(commands_spec(pm) =~= seq!["go"@]);
            assert(sub_commands_spec(pm) =~= seq!["get"@]);
            assert(crate::package_manager::invalidating_flags_spec(pm) =~= Seq::<Seq<char>>::empty());
            assert(no_ws("go"@)) by {
                assert forall|k: int| 0 <= k < "go"@.len() implies !crate::chars::is_ascii_ws(#[trigger] "go"@[k]) by {
                    assert("go"@[0] == 'g');
                    assert("go"@[1] == 'o');
                }
            }
            assert(no_ws("get"@)) by {
                assert forall|k: int| 0 <= k < "get"@.len() implies !crate::chars::is_ascii_ws(#[trigger] "get"@[k]) by {
                    assert("get"@[0] == 'g');
                    assert("get"@[1] == 'e');
                    assert("get"@[2] == 't');
                }
            }
            assert("go"@ != "get"@) by {
                if "go"@ == "get"@ {
                    assert("go"@.len() == "get"@.len());
                    assert("go"@[0] == "get"@[0]);
                }
            }
            assert forall|ci: int| 0 <= ci < commands_spec(pm).len() implies (#[trigger] commands_spec(pm)[ci]).len() > 0 && no_ws(commands_spec(pm)[ci]) by {
                if ci == 0 { assert(commands_spec(pm)[0] == "go"@); }
            }
            assert forall|si: int| 0 <= si < sub_commands_spec(pm).len() implies (#[trigger] sub_commands_spec(pm)[si]).len() > 0 by {
                if si == 0 { assert(sub_commands_spec(pm)[0] == "get"@); }
            }
            assert forall|si: int| 0 < si < sub_commands_spec(pm).len() implies no_ws(#[trigger] sub_commands_spec(pm)[si]) by {
                if si == 0 { assert(sub_commands_spec(pm)[0] == "get"@); }
            }
            if commands_spec(pm).len() > 1 {
                assert forall|si: int| 0 <= si < sub_commands_spec(pm).len() implies no_ws(#[trigger] sub_commands_spec(pm)[si]) by {
                    if si == 0 { assert(sub_commands_spec(pm)[0] == "get"@); }
                }
            }
            if sub_commands_spec(pm).len() > 1 {
                assert forall|si: int| 0 <= si < sub_commands_spec(pm).len() implies no_ws(#[trigger] sub_commands_spec(pm)[si]) by {
                    if si == 0 { assert(sub_commands_spec(pm)[0] == "get"@); }
                }
            }
            assert forall|ci: int, cj: int| #![trigger commands_spec(pm)[ci], commands_spec(pm)[cj]] 0 <= ci < commands_spec(pm).len() && 0 <= cj < commands_spec(pm).len() && ci != cj implies commands_spec(pm)[ci] != commands_spec(pm)[cj] by {
                if ci == 0 { if cj == 0 { assert(commands_spec(pm)[0] == "go"@); assert(commands_spec(pm)[0] == "go"@); } }
            }
            assert forall|ci: int, si: int| #![trigger commands_spec(pm)[ci], sub_commands_spec(pm)[si]] 0 <= ci < commands_spec(pm).len() && 0 <= si < sub_commands_spec(pm).len() implies commands_spec(pm)[ci] != sub_commands_spec(pm)[si] by {
                if ci == 0 { if si == 0 { assert(commands_spec(pm)[0] == "go"@); assert(sub_commands_spec(pm)[0] == "get"@); } }
            }
            assert forall|si: int, sj: int| #![trigger sub_commands_spec(pm)[si], sub_commands_spec(pm)[sj]] 0 <= si < sub_commands_spec(pm).len() && 0 <= sj < sub_commands_spec(pm).len() && si != sj implies sub_commands_spec(pm)[si] != sub_commands_spec(pm)[sj] by {
                if si == 0 { if sj == 0 { assert(sub_commands_spec(pm)[0] == "get"@); assert(sub_commands_spec(pm)[0] == "get"@); } }
            }
        },
        PackageManager::Guix => {
            reveal_strlit("guix");
            reveal_strlit("install");
            assert(commands_spec(pm) =~= seq!["guix"@]);
            assert(sub_commands_spec(pm) =~= seq!["install"@]);
            assert(crate::package_manager::invalidating_flags_spec(pm) =~= Seq::<Seq<char>>::empty());
            assert(no_ws("guix"@)) by {
                assert forall|k: int| 0 <= k < "guix"@.len() implies !crate::chars::is_ascii_ws(#[trigger] "guix"@[k]) by {
                    assert("guix"@[0] == 'g');
                    assert("guix"@[1] == 'u');
                    assert("guix"@[2] == 'i');
                    assert("guix"@[3] == 'x');
                }
            }
            assert(no_ws("install"@)) by {
                assert forall|k: int| 0 <= k < "install"@.len() implies !crate::chars::is_ascii_ws(#[trigger] "install"@[k]) by {
                    assert("install"@[0] == 'i');
                    assert("install"@[1] == 'n');
                    assert("install"@[2] == 's');
                    assert("install"@[3] == 't');
                    assert("install"@[4] == 'a');
                    assert("install"@[5] == 'l');
                    assert("install"@[6] == 'l');
                }
            }
            assert("guix"@ != "install"@) by {
                if "guix"@ == "install"@ {
                    assert("guix"@.len() == "install"@.len());
                    assert("guix"@[0] == "install"@[0]);
                }
            }
            assert forall|ci: int| 0 <= ci < commands_spec(pm).len() implies (#[trigger] commands_spec(pm)[ci]).len() > 0 && no_ws(commands_spec(pm)[ci]) by {
                if ci == 0 { assert(commands_spec(pm)[0] == "guix"@); }
            }
            assert forall|si: int| 0 <= si < sub_commands_spec(pm).len() implies (#[trigger] sub_commands_spec(pm)[si]).len() > 0 by {
                if si == 0 { assert(sub_commands_spec(pm)[0] == "install"@); }
            }
            assert forall|si: int| 0 < si < sub_commands_spec(pm).len() implies no_ws(#[trigger] sub_commands_spec(pm)[si]) by {
                if si == 0 { assert(sub_commands_spec(pm)[0] == "install"@); }
            }
            if commands_spec(pm).len() > 1 {
                assert forall|si: int| 0 <= si < sub_commands_spec(pm).len() implies no_ws(#[trigger] sub_commands_spec(pm)[si]) by {
                    if si == 0 { assert(sub_commands_spec(pm)[0] == "install"@); }
                }
            }
            if sub_commands_spec(pm).len() > 1 {
                assert forall|si: int| 0 <= si < sub_commands_spec(pm).len() implies no_ws(#[trigger] sub_commands_spec(pm)[si]) by {
                    if si == 0 { assert(sub_commands_spec(pm)[0] == "install"@); }
                }
            }
            assert forall|ci: int, cj: int| #![trigger commands_spec(pm)[ci], commands_spec(pm)[cj]] 0 <= ci < commands_spec(pm).len() && 0 <= cj < commands_spec(pm).len() && ci != cj implies commands_spec(pm)[ci] != commands_spec(pm)[cj] by {
                if ci == 0 { if cj == 0 { assert(commands_spec(pm)[0] == "guix"@); assert(commands_spec(pm)[0] == "guix"@); } }
            }
            assert forall|ci: int, si: int| #![trigger commands_spec(pm)[ci], sub_commands_spec(pm)[si]] 0 <= ci < commands_spec(pm).len() && 0 <= si < sub_commands_spec(pm).len() implies commands_spec(pm)[ci] != sub_commands_spec(pm)[si] by {
                if ci == 0 { if si == 0 { assert(commands_spec(pm)[0] == "guix"@); assert(sub_commands_spec(pm)[0] == "install"@); } }
            }
            assert forall|si: int, sj: int| #![trigger sub_commands_spec(pm)[si], sub_commands_spec(pm)[sj]] 0 <= si < sub_commands_spec(pm).len() && 0 <= sj < sub_commands_spec(pm).len() && si != sj implies sub_commands_spec(pm)[si] != sub_commands_spec(pm)[sj] by {
                if si == 0 { if sj == 0 { assert(sub_commands_spec(pm)[0] == "install"@); assert(sub_commands_spec(pm)[0] == "install"@); } }
            }
        },
        PackageManager::Nix => {
            reveal_strlit("--install");
            reveal_strlit("-i");
            reveal_strlit("-iA");
            reveal_strlit("nix-env");
            assert(commands_spec(pm) =~= seq!["nix-env"@]);
            assert(sub_commands_spec(pm) =~= seq!["-i"@, "--install"@, "-iA"@]);
            assert(crate::package_manager::invalidating_flags_spec(pm) =~= Seq::<Seq<char>>::empty());
            assert(no_ws("nix-env"@)) by {
                assert forall|k: int| 0 <= k < "nix-env"@.len() implies !crate::chars::is_ascii_ws(#[trigger] "nix-env"@[k]) by {
                    assert("nix-env"@[0] == 'n');
                    assert("nix-env"@[1] == 'i');
                    assert("nix-env"@[2] == 'x');
                    assert("nix-env"@[3] == '-');
                    assert("nix-env"@[4] == 'e');
                    assert("nix-env"@[5] == 'n');
                    assert("nix-env"@[6] == 'v');
                }
            }
            assert(no_ws("-i"@)) by {
                assert forall|k: int| 0 <= k < "-i"@.len() implies !crate::chars::is_ascii_ws(#[trigger] "-i"@[k]) by {
                    assert("-i"@[0] == '-');
                    assert("-i"@[1] == 'i');
                }
            }
            assert(no_ws("--install"@)) by {
                assert forall|k: int| 0 <= k < "--install"@.len() implies !crate::chars::is_ascii_ws(#[trigger] "--install"@[k]) by {
                    assert("--install"@[0] == '-');
                    assert("--install"@[1] == '-');
                    assert("--install"@[2] == 'i');
                    assert("--install"@[3] == 'n');
                    assert("--install"@[4] == 's');
                    assert("--install"@[5] == 't');
                    assert("--install"@[6] == 'a');
                    assert("--install"@[7] == 'l');
                    assert("--install"@[8] == 'l');
                }
            }
            assert(no_ws("-iA"@)) by {
                assert forall|k: int| 0 <= k < "-iA"@.len() implies !crate::chars::is_ascii_ws(#[trigger] "-iA"@[k]) by {
                    assert("-iA"@[0] == '-');
                    assert("-iA"@[1] == 'i');
                    assert("-iA"@[2] == 'A');
                }
            }
            assert("nix-env"@ != "-i"@) by {
                if "nix-env"@ == "-i"@ {
                    assert("nix-env"@.len() == "-i"@.len());
                    assert("nix-env"@[0] == "-i"@[0]);
                }
            }
            assert("nix-env"@ != "--install"@) by {
                if "nix-env"@ == "--install"@ {
                    assert("nix-env"@.len() == "--install"@.len());
                    assert("nix-env"@[0] == "--install"@[0]);
                }
            }
            assert("nix-env"@ != "-iA"@) by {
                if "nix-env"@ == "-iA"@ {
                    assert("nix-env"@.len() == "-iA"@.len());
                    assert("nix-env"@[0] == "-iA"@[0]);
                }
            }
            assert("-i"@ != "--install"@) by {
                if "-i"@ == "--install"@ {
                    assert("-i"@.len() == "--install"@.len());
                    assert("-i"@[0] == "--install"@[0]);
                }
            }
            assert("-i"@ != "-iA"@) by {
                if "-i"@ == "-iA"@ {
                    assert("-i"@.len() == "-iA"@.len());
                    assert("-i"@[0] == "-iA"@[0]);
                }
            }
            assert("--install"@ != "-iA"@) by {
                if "--install"@ == "-iA"@ {
                    assert("--install"@.len() == "-iA"@.len());
                    assert("--install"@[0] == "-iA"@[0]);
                }
            }
            assert forall|ci: int| 0 <= ci < commands_spec(pm).len() implies (#[trigger] commands_spec(pm)[ci]).len() > 0 && no_ws(commands_spec(pm)[ci]) by {
                if ci == 0 { assert(commands_spec(pm)[0] == "nix-env"@); }
            }
            assert forall|si: int| 0 <= si < sub_commands_spec(pm).len() implies (#[trigger] sub_commands_spec(pm)[si]).len() > 0 by {
                if si == 0 { assert(sub_commands_spec(pm)[0] == "-i"@); } else if si == 1 { assert(sub_commands_spec(pm)[1] == "--install"@); } else if si == 2 { assert(sub_commands_spec(pm)[2] == "-iA"@); }
            }
            assert forall|si: int| 0 < si < sub_commands_spec(pm).len() implies no_ws(#[trigger] sub_commands_spec(pm)[si]) by {
                if si == 0 { assert(sub_commands_spec(pm)[0] == "-i"@); } else if si == 1 { assert(sub_commands_spec(pm)[1] == "--install"@); } else if si == 2 { assert(sub_commands_spec(pm)[2] == "-iA"@); }
            }
            if commands_spec(pm).len() > 1 {
                assert forall|si: int| 0 <= si < sub_commands_spec(pm).len() implies no_ws(#[trigger] sub_commands_spec(pm)[si]) by {
                    if si == 0 { assert(sub_commands_spec(pm)[0] == "-i"@); } else if si == 1 { assert(sub_commands_spec(pm)[1] == "--install"@); } else if si == 2 { assert(sub_commands_spec(pm)[2] == "-iA"@); }
                }
            }
            if sub_commands_spec(pm).len() > 1 {
                assert forall|si: int| 0 <= si < sub_commands_spec(pm).len() implies no_ws(#[trigger] sub_commands_spec(pm)[si]) by {
                    if si == 0 { assert(sub_commands_spec(pm)[0] == "-i"@); } else if si == 1 { assert(sub_commands_spec(pm)[1] == "--install"@); } else if si == 2 { assert(sub_commands_spec(pm)[2] == "-iA"@); }
                }
            }
            assert forall|ci: int, cj: int| #![trigger commands_spec(pm)[ci], commands_spec(pm)[cj]] 0 <= ci < commands_spec(pm).len() && 0 <= cj < commands_spec(pm).len() && ci != cj implies commands_spec(pm)[ci] != commands_spec(pm)[cj] by {
                if ci == 0 { if cj == 0 { assert(commands_spec(pm)[0] == "nix-env"@); assert(commands_spec(pm)[0] == "nix-env"@); } }
            }
            assert forall|ci: int, si: int| #![trigger commands_spec(pm)[ci], sub_commands_spec(pm)[si]] 0 <= ci < commands_spec(pm).len() && 0 <= si < sub_commands_spec(pm).len() implies commands_spec(pm)[ci] != sub_commands_spec(pm)[si] by {
                if ci == 0 { if si == 0 { assert(commands_spec(pm)[0] == "nix-env"@); assert(sub_commands_spec(pm)[0] == "-i"@); } else if si == 1 { assert(commands_spec(pm)[0] == "nix-env"@); assert(sub_commands_spec(pm)[1] == "--install"@); } else if si == 2 { assert(commands_spec(pm)[0] == "nix-env"@); assert(sub_commands_spec(pm)[2] == "-iA"@); } }
            }
            assert forall|si: int, sj: int| #![trigger sub_commands_spec(pm)[si], sub_commands_spec(pm)[sj]] 0 <= si < sub_commands_spec(pm).len() && 0 <= sj < sub_commands_spec(pm).len() && si != sj implies sub_commands_spec(pm)[si] != sub_commands_spec(pm)[sj] by {
                if si == 0 { if sj == 0 { assert(sub_commands_spec(pm)[0] == "-i"@); assert(sub_commands_spec(pm)[0] == "-i"@); } else if sj == 1 { assert(sub_commands_spec(pm)[0] == "-i"@); assert(sub_commands_spec(pm)[1] == "--install"@); } else if sj == 2 { assert(sub_commands_spec(pm)[0] == "-i"@); assert(sub_commands_spec(pm)[2] == "-iA"@); } } else if si == 1 { if sj == 0 { assert(sub_commands_spec(pm)[1] == "--install"@); assert(sub_commands_spec(pm)[0] == "-i"@); } else if sj == 1 { assert(sub_commands_spec(pm)[1] == "--install"@); assert(sub_commands_spec(pm)[1] == "--install"@); } else if sj == 2 { assert(sub_commands_spec(pm)[1] == "--install"@); assert(sub_commands_spec(pm)[2] == "-iA"@); } } else if si == 2 { if sj == 0 { assert(sub_commands_spec(pm)[2] == "-iA"@); assert(sub_commands_spec(pm)[0] == "-i"@); } else if sj == 1 { assert(sub_commands_spec(pm)[2] == "-iA"@); assert(sub_commands_spec(pm)[1] == "--install"@); } else if sj == 2 { assert(sub_commands_spec(pm)[2] == "-iA"@); assert(sub_commands_spec(pm)[2] == "-iA"@); } }
            }
        },
        PackageManager::Npm => {
            reveal_strlit("install");
            reveal_strlit("npm");
            assert(commands_spec(pm) =~= seq!["npm"@]);
            assert(sub_commands_spec(pm) =~= seq!["install"@]);
            assert(crate::package_manager::invalidating_flags_spec(pm) =~= Seq::<Seq<char>>::empty());
            assert(no_ws("npm"@)) by {
                assert forall|k: int| 0 <= k < "npm"@.len() implies !crate::chars::is_ascii_ws(#[trigger] "npm"@[k]) by {
                    assert("npm"@[0] == 'n');
                    assert("npm"@[1] == 'p');
                    assert("npm"@[2] == 'm');
                }
            }
            assert(no_ws("install"@)) by {
                assert forall|k: int| 0 <= k < "install"@.len() implies !crate::chars::is_ascii_ws(#[trigger] "install"@[k]) by {
                    assert("install"@[0] == 'i');
                    assert("install"@[1] == 'n');
                    assert("install"@[2] == 's');
                    assert("install"@[3] == 't');
                    assert("install"@[4] == 'a');
                    assert("install"@[5] == 'l');
                    assert("install"@[6] == 'l');
                }
            }
            assert("npm"@ != "install"@) by {
                if "npm"@ == "install"@ {
                    assert("npm"@.len() == "install"@.len());
                    assert("npm"@[0] == "install"@[0]);
                }
            }
            assert forall|ci: int| 0 <= ci < commands_spec(pm).len() implies (#[trigger] commands_spec(pm)[ci]).len() > 0 && no_ws(commands_spec(pm)[ci]) by {
                if ci == 0 { assert(commands_spec(pm)[0] == "npm"@); }
            }
            assert forall|si: int| 0 <= si < sub_commands_spec(pm).len() implies (#[trigger] sub_commands_spec(pm)[si]).len() > 0 by {
                if si == 0 { assert(sub_commands_spec(pm)[0] == "install"@); }
            }
            assert forall|si: int| 0 < si < sub_commands_spec(pm).len() implies no_ws(#[trigger] sub_commands_spec(pm)[si]) by {
                if si == 0 { assert(sub_commands_spec(pm)[0] == "install"@); }
            }
            if commands_spec(pm).len() > 1 {
                assert forall|si: int| 0 <= si < sub_commands_spec(pm).len() implies no_ws(#[trigger] sub_commands_spec(pm)[si]) by {
                    if si == 0 { assert(sub_commands_spec(pm)[0] == "install"@); }
                }
            }
            if sub_commands_spec(pm).len() > 1 {
                assert forall|si: int| 0 <= si < sub_commands_spec(pm).len() implies no_ws(#[trigger] sub_commands_spec(pm)[si]) by {
                    if si == 0 { assert(sub_commands_spec(pm)[0] == "install"@); }
                }
            }
            assert forall|ci: int, cj: int| #![trigger commands_spec(pm)[ci], commands_spec(pm)[cj]] 0 <= ci < commands_spec(pm).len() && 0 <= cj < commands_spec(pm).len() && ci != cj implies commands_spec(pm)[ci] != commands_spec(pm)[cj] by {
                if ci == 0 { if cj == 0 { assert(commands_spec(pm)[0] == "npm"@); assert(commands_spec(pm)[0] == "npm"@); } }
            }
            assert forall|ci: int, si: int| #![trigger commands_spec(pm)[ci], sub_commands_spec(pm)[si]] 0 <= ci < commands_spec(pm).len() && 0 <= si < sub_commands_spec(pm).len() implies commands_spec(pm)[ci] != sub_commands_spec(pm)[si] by {
                if ci == 0 { if si == 0 { assert(commands_spec(pm)[0] == "npm"@); assert(sub_commands_spec(pm)[0] == "install"@); } }
            }
            assert forall|si: int, sj: int| #![trigger sub_commands_spec(pm)[si], sub_commands_spec(pm)[sj]] 0 <= si < sub_commands_spec(pm).len() && 0 <= sj < sub_commands_spec(pm).len() && si != sj implies sub_commands_spec(pm)[si] != sub_commands_spec(pm)[sj] by {
                if si == 0 { if sj == 0 { assert(sub_commands_spec(pm)[0] == "install"@); assert(sub_commands_spec(pm)[0] == "install"@); } }
            }
        },
        PackageManager::Pacman => {
            reveal_strlit("-S");
            reveal_strlit("pacman");
            assert(commands_spec(pm) =~= seq!["pacman"@]);
            assert(sub_commands_spec(pm) =~= seq!["-S"@]);
            assert(crate::package_manager::invalidating_flags_spec(pm) =~= Seq::<Seq<char>>::empty());
            assert(no_ws("pacman"@)) by {
                assert forall|k: int| 0 <= k < "pacman"@.len() implies !crate::chars::is_ascii_ws(#[trigger] "pacman"@[k]) by {
                    assert("pacman"@[0] == 'p');
                    assert("pacman"@[1] == 'a');
                    assert("pacman"@[2] == 'c');
                    assert("pacman"@[3] == 'm');
                    assert("pacman"@[4] == 'a');
                    assert("pacman"@[5] == 'n');
                }
            }
            assert(no_ws("-S"@)) by {
                assert forall|k: int| 0 <= k < "-S"@.len() implies !crate::chars::is_ascii_ws(#[trigger] "-S"@[k]) by {
                    assert("-S"@[0] == '-');
                    assert("-S"@[1] == 'S');
                }
            }
            assert("pacman"@ != "-S"@) by {
                if "pacman"@ == "-S"@ {
                    assert("pacman"@.len() == "-S"@.len());
                    assert("pacman"@[0] == "-S"@[0]);
                }
            }
            assert forall|ci: int| 0 <= ci < commands_spec(pm).len() implies (#[trigger] commands_spec(pm)[ci]).len() > 0 && no_ws(commands_spec(pm)[ci]) by {
                if ci == 0 { assert(commands_spec(pm)[0] == "pacman"@); }
            }
            assert forall|si: int| 0 <= si < sub_commands_spec(pm).len() implies (#[trigger] sub_commands_spec(pm)[si]).len() > 0 by {
                if si == 0 { assert(sub_commands_spec(pm)[0] == "-S"@); }
            }
            assert forall|si: int| 0 < si < sub_commands_spec(pm).len() implies no_ws(#[trigger] sub_commands_spec(pm)[si]) by {
                if si == 0 { assert(sub_commands_spec(pm)[0] == "-S"@); }
            }
            if commands_spec(pm).len() > 1 {
                assert forall|si: int| 0 <= si < sub_commands_spec(pm).len() implies no_ws(#[trigger] sub_commands_spec(pm)[si]) by {
                    if si == 0 { assert(sub_commands_spec(pm)[0] == "-S"@); }
                }
            }
            if sub_commands_spec(pm).len() > 1 {
                assert forall|si: int| 0 <= si < sub_commands_spec(pm).len() implies no_ws(#[trigger] sub_commands_spec(pm)[si]) by {
                    if si == 0 { assert(sub_commands_spec(pm)[0] == "-S"@); }
                }
            }
            assert forall|ci: int, cj: int| #![trigger commands_spec(pm)[ci], commands_spec(pm)[cj]] 0 <= ci < commands_spec(pm).len() && 0 <= cj < commands_spec(pm).len() && ci != cj implies commands_spec(pm)[ci] != commands_spec(pm)[cj] by {
                if ci == 0 { if cj == 0 { assert(commands_spec(pm)[0] == "pacman"@); assert(commands_spec(pm)[0] == "pacman"@); } }
            }
            assert forall|ci: int, si: int| #![trigger commands_spec(pm)[ci], sub_commands_spec(pm)[si]] 0 <= ci < commands_spec(pm).len() && 0 <= si < sub_commands_spec(pm).len() implies commands_spec(pm)[ci] != sub_commands_spec(pm)[si] by {
                if ci == 0 { if si == 0 { assert(commands_spec(pm)[0] == "pacman"@); assert(sub_commands_spec(pm)[0] == "-S"@); } }
            }
            assert forall|si: int, sj: int| #![trigger sub_commands_spec(pm)[si], sub_commands_spec(pm)[sj]] 0 <= si < sub_commands_spec(pm).len() && 0 <= sj < sub_commands_spec(pm).len() && si != sj implies sub_commands_spec(pm)[si] != sub_commands_spec(pm)[sj] by {
                if si == 0 { if sj == 0 { assert(sub_commands_spec(pm)[0] == "-S"@); assert(sub_commands_spec(pm)[0] == "-S"@); } }
            }
        },
        PackageManager::Paru => {
            reveal_strlit("-S");
            reveal_strlit("paru");
            assert(commands_spec(pm) =~= seq!["paru"@]);
            assert(sub_commands_spec(pm) =~= seq!["-S"@]);
            assert(crate::package_manager::invalidating_flags_spec(pm) =~= Seq::<Seq<char>>::empty());
            assert(no_ws("paru"@)) by {
                assert forall|k: int| 0 <= k < "paru"@.len() implies !crate::chars::is_ascii_ws(#[trigger] "paru"@[k]) by {
                    assert("paru"@[0] == 'p');
                    assert("paru"@[1] == 'a');
                    assert("paru"@[2] == 'r');
                    assert("paru"@[3] == 'u');
                }
            }
            assert(no_ws("-S"@)) by {
                assert forall|k: int| 0 <= k < "-S"@.len() implies !crate::chars::is_ascii_ws(#[trigger] "-S"@[k]) by {
                    assert("-S"@[0] == '-');
                    assert("-S"@[1] == 'S');
                }
            }
            assert("paru"@ != "-S"@) by {
                if "paru"@ == "-S"@ {
                    assert("paru"@.len() == "-S"@.len());
                    assert("paru"@[0] == "-S"@[0]);
                }
            }
            assert forall|ci: int| 0 <= ci < commands_spec(pm).len() implies (#[trigger] commands_spec(pm)[ci]).len() > 0 && no_ws(commands_spec(pm)[ci]) by {
                if ci == 0 { assert(commands_spec(pm)[0] == "paru"@); }
            }
            assert forall|si: int| 0 <= si < sub_commands_spec(pm).len() implies (#[trigger] sub_commands_spec(pm)[si]).len() > 0 by {
                if si == 0 { assert(sub_commands_spec(pm)[0] == "-S"@); }
            }
            assert forall|si: int| 0 < si < sub_commands_spec(pm).len() implies no_ws(#[trigger] sub_commands_spec(pm)[si]) by {
                if si == 0 { assert(sub_commands_spec(pm)[0] == "-S"@); }
            }
            if commands_spec(pm).len() > 1 {
                assert forall|si: int| 0 <= si < sub_commands_spec(pm).len() implies no_ws(#[trigger] sub_commands_spec(pm)[si]) by {
                    if si == 0 { assert(sub_commands_spec(pm)[0] == "-S"@); }
                }
            }
            if sub_commands_spec(pm).len() > 1 {
                assert forall|si: int| 0 <= si < sub_commands_spec(pm).len() implies no_ws(#[trigger] sub_commands_spec(pm)[si]) by {
                    if si == 0 { assert(sub_commands_spec(pm)[0] == "-S"@); }
                }
            }
            assert forall|ci: int, cj: int| #![trigger commands_spec(pm)[ci], commands_spec(pm)[cj]] 0 <= ci < commands_spec(pm).len() && 0 <= cj < commands_spec(pm).len() && ci != cj implies commands_spec(pm)[ci] != commands_spec(pm)[cj] by {
                if ci == 0 { if cj == 0 { assert(commands_spec(pm)[0] == "paru"@); assert(commands_spec(pm)[0] == "paru"@); } }
            }
            assert forall|ci: int, si: int| #![trigger commands_spec(pm)[ci], sub_commands_spec(pm)[si]] 0 <= ci < commands_spec(pm).len() && 0 <= si < sub_commands_spec(pm).len() implies commands_spec(pm)[ci] != sub_commands_spec(pm)[si] by {
                if ci == 0 { if si == 0 { assert(commands_spec(pm)[0] == "paru"@); assert(sub_commands_spec(pm)[0] == "-S"@); } }
            }
            assert forall|si: int, sj: int| #![trigger sub_commands_spec(pm)[si], sub_commands_spec(pm)[sj]] 0 <= si < sub_commands_spec(pm).len() && 0 <= sj < sub_commands_spec(pm).len() && si != sj implies sub_commands_spec(pm)[si] != sub_commands_spec(pm)[sj] by {
                if si == 0 { if sj == 0 { assert(sub_commands_spec(pm)[0] == "-S"@); assert(sub_commands_spec(pm)[0] == "-S"@); } }
            }
        },
        PackageManager::Pip => {
            reveal_strlit("-r");
            reveal_strlit("install");
            reveal_strlit("pip");
            assert(commands_spec(pm) =~= seq!["pip"@]);
            assert(sub_commands_spec(pm) =~= seq!["install"@]);
            assert(crate::package_manager::invalidating_flags_spec(pm) =~= seq!["-r"@]);
            assert(no_ws("pip"@)) by {
                assert forall|k: int| 0 <= k < "pip"@.len() implies !crate::chars::is_ascii_ws(#[trigger] "pip"@[k]) by {
                    assert("pip"@[0] == 'p');
                    assert("pip"@[1] == 'i');
                    assert("pip"@[2] == 'p');
                }
            }
            assert(no_ws("install"@)) by {
                assert forall|k: int| 0 <= k < "install"@.len() implies !crate::chars::is_ascii_ws(#[trigger] "install"@[k]) by {
                    assert("install"@[0] == 'i');
                    assert("install"@[1] == 'n');
                    assert("install"@[2] == 's');
                    assert("install"@[3] == 't');
                    assert("install"@[4] == 'a');
                    assert("install"@[5] == 'l');
                    assert("install"@[6] == 'l');
                }
            }
            assert("-r"@[0] == '-');
            assert("-r"@.len() > 0);
            assert("pip"@ != "install"@) by {
                if "pip"@ == "install"@ {
                    assert("pip"@.len() == "install"@.len());
                    assert("pip"@[0] == "install"@[0]);
                }
            }
            assert forall|ci: int| 0 <= ci < commands_spec(pm).len() implies (#[trigger] commands_spec(pm)[ci]).len() > 0 && no_ws(commands_spec(pm)[ci]) by {
                if ci == 0 { assert(commands_spec(pm)[0] == "pip"@); }
            }
            assert forall|si: int| 0 <= si < sub_commands_spec(pm).len() implies (#[trigger] sub_commands_spec(pm)[si]).len() > 0 by {
                if si == 0 { assert(sub_commands_spec(pm)[0] == "install"@); }
            }
            assert forall|si: int| 0 < si < sub_commands_spec(pm).len() implies no_ws(#[trigger] sub_commands_spec(pm)[si]) by {
                if si == 0 { assert(sub_commands_spec(pm)[0] == "install"@); }
            }
            if commands_spec(pm).len() > 1 {
                assert forall|si: int| 0 <= si < sub_commands_spec(pm).len() implies no_ws(#[trigger] sub_commands_spec(pm)[si]) by {
                    if si == 0 { assert(sub_commands_spec(pm)[0] == "install"@); }
                }
            }
            if sub_commands_spec(pm).len() > 1 {
                assert forall|si: int| 0 <= si < sub_commands_spec(pm).len() implies no_ws(#[trigger] sub_commands_spec(pm)[si]) by {
                    if si == 0 { assert(sub_commands_spec(pm)[0] == "install"@); }
                }
            }
            assert forall|ci: int, cj: int| #![trigger commands_spec(pm)[ci], commands_spec(pm)[cj]] 0 <= ci < commands_spec(pm).len() && 0 <= cj < commands_spec(pm).len() && ci != cj implies commands_spec(pm)[ci] != commands_spec(pm)[cj] by {
                if ci == 0 { if cj == 0 { assert(commands_spec(pm)[0] == "pip"@); assert(commands_spec(pm)[0] == "pip"@); } }
            }
            assert forall|ci: int, si: int| #![trigger commands_spec(pm)[ci], sub_commands_spec(pm)[si]] 0 <= ci < commands_spec(pm).len() && 0 <= si < sub_commands_spec(pm).len() implies commands_spec(pm)[ci] != sub_commands_spec(pm)[si] by {
                if ci == 0 { if si == 0 { assert(commands_spec(pm)[0] == "pip"@); assert(sub_commands_spec(pm)[0] == "install"@); } }
            }
            assert forall|si: int, sj: int| #![trigger sub_commands_spec(pm)[si], sub_commands_spec(pm)[sj]] 0 <= si < sub_commands_spec(pm).len() && 0 <= sj < sub_commands_spec(pm).len() && si != sj implies sub_commands_spec(pm)[si] != sub_commands_spec(pm)[sj] by {
                if si == 0 { if sj == 0 { assert(sub_commands_spec(pm)[0] == "install"@); assert(sub_commands_spec(pm)[0] == "install"@); } }
            }
            assert forall|k: int| 0 <= k < crate::package_manager::invalidating_flags_spec(pm).len() implies (#[trigger] crate::package_manager::invalidating_flags_spec(pm)[k]).len() > 0 && crate::package_manager::invalidating_flags_spec(pm)[k][0] == '-' by {
                if k == 0 { assert(crate::package_manager::invalidating_flags_spec(pm)[0] == "-r"@); }
            }
        },
        PackageManager::Pip3 => {
            reveal_strlit("-r");
            reveal_strlit("install");
            reveal_strlit("pip3");
            assert(commands_spec(pm) =~= seq!["pip3"@]);
            assert(sub_commands_spec(pm) =~= seq!["install"@]);
            assert(crate::package_manager::invalidating_flags_spec(pm) =~= seq!["-r"@]);
            assert(no_ws("pip3"@)) by {
                assert forall|k: int| 0 <= k < "pip3"@.len() implies !crate::chars::is_ascii_ws(#[trigger] "pip3"@[k]) by {
                    assert("pip3"@[0] == 'p');
                    assert("pip3"@[1] == 'i');
                    assert("pip3"@[2] == 'p');
                    assert("pip3"@[3] == '3');
                }
            }
            assert(no_ws("install"@)) by {
                assert forall|k: int| 0 <= k < "install"@.len() implies !crate::chars::is_ascii_ws(#[trigger] "install"@[k]) by {
                    assert("install"@[0] == 'i');
                    assert("install"@[1] == 'n');
                    assert("install"@[2] == 's');
                    assert("install"@[3] == 't');
                    assert("install"@[4] == 'a');
                    assert("install"@[5] == 'l');
                    assert("install"@[6] == 'l');
                }
            }
            assert("-r"@[0] == '-');
            assert("-r"@.len() > 0);
            assert("pip3"@ != "install"@) by {
                if "pip3"@ == "install"@ {
                    assert("pip3"@.len() == "install"@.len());
                    assert("pip3"@[0] == "install"@[0]);
                }
            }
            assert forall|ci: int| 0 <= ci < commands_spec(pm).len() implies (#[trigger] commands_spec(pm)[ci]).len() > 0 && no_ws(commands_spec(pm)[ci]) by {
                if ci == 0 { assert(commands_spec(pm)[0] == "pip3"@); }
            }
            assert forall|si: int| 0 <= si < sub_commands_spec(pm).len() implies (#[trigger] sub_commands_spec(pm)[si]).len() > 0 by {
                if si == 0 { assert(sub_commands_spec(pm)[0] == "install"@); }
            }
            assert forall|si: int| 0 < si < sub_commands_spec(pm).len() implies no_ws(#[trigger] sub_commands_spec(pm)[si]) by {
                if si == 0 { assert(sub_commands_spec(pm)[0] == "install"@); }
            }
            if commands_spec(pm).len() > 1 {
                assert forall|si: int| 0 <= si < sub_commands_spec(pm).len() implies no_ws(#[trigger] sub_commands_spec(pm)[si]) by {
                    if si == 0 { assert(sub_commands_spec(pm)[0] == "install"@); }
                }
            }
            if sub_commands_spec(pm).len() > 1 {
                assert forall|si: int| 0 <= si < sub_commands_spec(pm).len() implies no_ws(#[trigger] sub_commands_spec(pm)[si]) by {
                    if si == 0 { assert(sub_commands_spec(pm)[0] == "install"@); }
                }
            }
            assert forall|ci: int, cj: int| #![trigger commands_spec(pm)[ci], commands_spec(pm)[cj]] 0 <= ci < commands_spec(pm).len() && 0 <= cj < commands_spec(pm).len() && ci != cj implies commands_spec(pm)[ci] != commands_spec(pm)[cj] by {
                if ci == 0 { if cj == 0 { assert(commands_spec(pm)[0] == "pip3"@); assert(commands_spec(pm)[0] == "pip3"@); } }
            }
            assert forall|ci: int, si: int| #![trigger commands_spec(pm)[ci], sub_commands_spec(pm)[si]] 0 <= ci < commands_spec(pm).len() && 0 <= si < sub_commands_spec(pm).len() implies commands_spec(pm)[ci] != sub_commands_spec(pm)[si] by {
                if ci == 0 { if si == 0 { assert(commands_spec(pm)[0] == "pip3"@); assert(sub_commands_spec(pm)[0] == "install"@); } }
            }
            assert forall|si: int, sj: int| #![trigger sub_commands_spec(pm)[si], sub_commands_spec(pm)[sj]] 0 <= si < sub_commands_spec(pm).len() && 0 <= sj < sub_commands_spec(pm).len() && si != sj implies sub_commands_spec(pm)[si] != sub_commands_spec(pm)[sj] by {
                if si == 0 { if sj == 0 { assert(sub_commands_spec(pm)[0] == "install"@); assert(sub_commands_spec(pm)[0] == "install"@); } }
            }
            assert forall|k: int| 0 <= k < crate::package_manager::invalidating_flags_spec(pm).len() implies (#[trigger] crate::package_manager::invalidating_flags_spec(pm)[k]).len() > 0 && crate::package_manager::invalidating_flags_spec(pm)[k][0] == '-' by {
                if k == 0 { assert(crate::package_manager::invalidating_flags_spec(pm)[0] == "-r"@); }
            }
        },
        PackageManager::Pkg => {
            reveal_strlit("install");
            reveal_strlit("pkg");
            assert(commands_spec(pm) =~= seq!["pkg"@]);
            assert(sub_commands_spec(pm) =~= seq!["install"@]);
            assert(crate::package_manager::invalidating_flags_spec(pm) =~= Seq::<Seq<char>>::empty());
            assert(no_ws("pkg"@)) by {
                assert forall|k: int| 0 <= k < "pkg"@.len() implies !crate::chars::is_ascii_ws(#[trigger] "pkg"@[k]) by {
                    assert("pkg"@[0] == 'p');
                    assert("pkg"@[1] == 'k');
                    assert("pkg"@[2] == 'g');
                }
            }
            assert(no_ws("install"@)) by {
                assert forall|k: int| 0 <= k < "install"@.len() implies !crate::chars::is_ascii_ws(#[trigger] "install"@[k]) by {
                    assert("install"@[0] == 'i');
                    assert("install"@[1] == 'n');
                    assert("install"@[2] == 's');
                    assert("install"@[3] == 't');
                    assert("install"@[4] == 'a');
                    assert("install"@[5] == 'l');
                    assert("install"@[6] == 'l');
                }
            }
            assert("pkg"@ != "install"@) by {
                if "pkg"@ == "install"@ {
                    assert("pkg"@.len() == "install"@.len());
                    assert("pkg"@[0] == "install"@[0]);
                }
            }
            assert forall|ci: int| 0 <= ci < commands_spec(pm).len() implies (#[trigger] commands_spec(pm)[ci]).len() > 0 && no_ws(commands_spec(pm)[ci]) by {
                if ci == 0 { assert(commands_spec(pm)[0] == "pkg"@); }
            }
            assert forall|si: int| 0 <= si < sub_commands_spec(pm).len() implies (#[trigger] sub_commands_spec(pm)[si]).len() > 0 by {
                if si == 0 { assert(sub_commands_spec(pm)[0] == "install"@); }
            }
            assert forall|si: int| 0 < si < sub_commands_spec(pm).len() implies no_ws(#[trigger] sub_commands_spec(pm)[si]) by {
                if si == 0 { assert(sub_commands_spec(pm)[0] == "install"@); }
            }
            if commands_spec(pm).len() > 1 {
                assert forall|si: int| 0 <= si < sub_commands_spec(pm).len() implies no_ws(#[trigger] sub_commands_spec(pm)[si]) by {
                    if si == 0 { assert(sub_commands_spec(pm)[0] == "install"@); }
                }
            }
            if sub_commands_spec(pm).len() > 1 {
                assert forall|si: int| 0 <= si < sub_commands_spec(pm).len() implies no_ws(#[trigger] sub_commands_spec(pm)[si]) by {
                    if si == 0 { assert(sub_commands_spec(pm)[0] == "install"@); }
                }
            }
            assert forall|ci: int, cj: int| #![trigger commands_spec(pm)[ci], commands_spec(pm)[cj]] 0 <= ci < commands_spec(pm).len() && 0 <= cj < commands_spec(pm).len() && ci != cj implies commands_spec(pm)[ci] != commands_spec(pm)[cj] by {
                if ci == 0 { if cj == 0 { assert(commands_spec(pm)[0] == "pkg"@); assert(commands_spec(pm)[0] == "pkg"@); } }
            }
            assert forall|ci: int, si: int| #![trigger commands_spec(pm)[ci], sub_commands_spec(pm)[si]] 0 <= ci < commands_spec(pm).len() && 0 <= si < sub_commands_spec(pm).len() implies commands_spec(pm)[ci] != sub_commands_spec(pm)[si] by {
                if ci == 0 { if si == 0 { assert(commands_spec(pm)[0] == "pkg"@); assert(sub_commands_spec(pm)[0] == "install"@); } }
            }
            assert forall|si: int, sj: int| #![trigger sub_commands_spec(pm)[si], sub_commands_spec(pm)[sj]] 0 <= si < sub_commands_spec(pm).len() && 0 <= sj < sub_commands_spec(pm).len() && si != sj implies sub_commands_spec(pm)[si] != sub_commands_spec(pm)[sj] by {
                if si == 0 { if sj == 0 { assert(sub_commands_spec(pm)[0] == "install"@); assert(sub_commands_spec(pm)[0] == "install"@); } }
            }
        },
        PackageManager::Rua => {
            reveal_strlit("install");
            reveal_strlit("rua");
            assert(commands_spec(pm) =~= seq!["rua"@]);
            assert(sub_commands_spec(pm) =~= seq!["install"@]);
            assert(crate::package_manager::invalidating_flags_spec(pm) =~= Seq::<Seq<char>>::empty());
            assert(no_ws("rua"@)) by {
                assert forall|k: int| 0 <= k < "rua"@.len() implies !crate::chars::is_ascii_ws(#[trigger] "rua"@[k]) by {
                    assert("rua"@[0] == 'r');
                    assert("rua"@[1] == 'u');
                    assert("rua"@[2] == 'a');
                }
            }
            assert(no_ws("install"@)) by {
                assert forall|k: int| 0 <= k < "install"@.len() implies !crate::chars::is_ascii_ws(#[trigger] "install"@[k]) by {
                    assert("install"@[0] == 'i');
                    assert("install"@[1] == 'n');
                    assert("install"@[2] == 's');
                    assert("install"@[3] == 't');
                    assert("install"@[4] == 'a');
                    assert("install"@[5] == 'l');
                    assert("install"@[6] == 'l');
                }
            }
            assert("rua"@ != "install"@) by {
                if "rua"@ == "install"@ {
                    assert("rua"@.len() == "install"@.len());
                    assert("rua"@[0] == "install"@[0]);
                }
            }
            assert forall|ci: int| 0 <= ci < commands_spec(pm).len() implies (#[trigger] commands_spec(pm)[ci]).len() > 0 && no_ws(commands_spec(pm)[ci]) by {
                if ci == 0 { assert(commands_spec(pm)[0] == "rua"@); }
            }
            assert forall|si: int| 0 <= si < sub_commands_spec(pm).len() implies (#[trigger] sub_commands_spec(pm)[si]).len() > 0 by {
                if si == 0 { assert(sub_commands_spec(pm)[0] == "install"@); }
            }
            assert forall|si: int| 0 < si < sub_commands_spec(pm).len() implies no_ws(#[trigger] sub_commands_spec(pm)[si]) by {
                if si == 0 { assert(sub_commands_spec(pm)[0] == "install"@); }
            }
            if commands_spec(pm).len() > 1 {
                assert forall|si: int| 0 <= si < sub_commands_spec(pm).len() implies no_ws(#[trigger] sub_commands_spec(pm)[si]) by {
                    if si == 0 { assert(sub_commands_spec(pm)[0] == "install"@); }
                }
            }
            if sub_commands_spec(pm).len() > 1 {
                assert forall|si: int| 0 <= si < sub_commands_spec(pm).len() implies no_ws(#[trigger] sub_commands_spec(pm)[si]) by {
                    if si == 0 { assert(sub_commands_spec(pm)[0] == "install"@); }
                }
            }
            assert forall|ci: int, cj: int| #![trigger commands_spec(pm)[ci], commands_spec(pm)[cj]] 0 <= ci < commands_spec(pm).len() && 0 <= cj < commands_spec(pm).len() && ci != cj implies commands_spec(pm)[ci] != commands_spec(pm)[cj] by {
                if ci == 0 { if cj == 0 { assert(commands_spec(pm)[0] == "rua"@); assert(commands_spec(pm)[0] == "rua"@); } }
            }
            assert forall|ci: int, si: int| #![trigger commands_spec(pm)[ci], sub_commands_spec(pm)[si]] 0 <= ci < commands_spec(pm).len() && 0 <= si < sub_commands_spec(pm).len() implies commands_spec(pm)[ci] != sub_commands_spec(pm)[si] by {
                if ci == 0 { if si == 0 { assert(commands_spec(pm)[0] == "rua"@); assert(sub_commands_spec(pm)[0] == "install"@); } }
            }
            assert forall|si: int, sj: int| #![trigger sub_commands_spec(pm)[si], sub_commands_spec(pm)[sj]] 0 <= si < sub_commands_spec(pm).len() && 0 <= sj < sub_commands_spec(pm).len() && si != sj implies sub_commands_spec(pm)[si] != sub_commands_spec(pm)[sj] by {
                if si == 0 { if sj == 0 { assert(sub_commands_spec(pm)[0] == "install"@); assert(sub_commands_spec(pm)[0] == "install"@); } }
            }
        },
        PackageManager::Rustup => {
            reveal_strlit("component add");
            reveal_strlit("rustup");
            assert(commands_spec(pm) =~= seq!["rustup"@]);
            assert(sub_commands_spec(pm) =~= seq!["component add"@]);
            assert(crate::package_manager::invalidating_flags_spec(pm) =~= Seq::<Seq<char>>::empty());
            assert(no_ws("rustup"@)) by {
                assert forall|k: int| 0 <= k < "rustup"@.len() implies !crate::chars::is_ascii_ws(#[trigger] "rustup"@[k]) by {
                    assert("rustup"@[0] == 'r');
                    assert("rustup"@[1] == 'u');
                    assert("rustup"@[2] == 's');
                    assert("rustup"@[3] == 't');
                    assert("rustup"@[4] == 'u');
                    assert("rustup"@[5] == 'p');
                }
            }
            assert("rustup"@ != "component add"@) by {
                if "rustup"@ == "component add"@ {
                    assert("rustup"@.len() == "component add"@.len());
                    assert("rustup"@[0] == "component add"@[0]);
                }
            }
            assert forall|ci: int| 0 <= ci < commands_spec(pm).len() implies (#[trigger] commands_spec(pm)[ci]).len() > 0 && no_ws(commands_spec(pm)[ci]) by {
                if ci == 0 { assert(commands_spec(pm)[0] == "rustup"@); }
            }
            assert forall|si: int| 0 <= si < sub_commands_spec(pm).len() implies (#[trigger] sub_commands_spec(pm)[si]).len() > 0 by {
                if si == 0 { assert(sub_commands_spec(pm)[0] == "component add"@); }
            }
            assert forall|si: int| 0 < si < sub_commands_spec(pm).len() implies no_ws(#[trigger] sub_commands_spec(pm)[si]) by {
                if si == 0 { assert(sub_commands_spec(pm)[0] == "component add"@); }
            }
            if commands_spec(pm).len() > 1 {
                assert forall|si: int| 0 <= si < sub_commands_spec(pm).len() implies no_ws(#[trigger] sub_commands_spec(pm)[si]) by {
                    if si == 0 { assert(sub_commands_spec(pm)[0] == "component add"@); }
                }
            }
            if sub_commands_spec(pm).len() > 1 {
                assert forall|si: int| 0 <= si < sub_commands_spec(pm).len() implies no_ws(#[trigger] sub_commands_spec(pm)[si]) by {
                    if si == 0 { assert(sub_commands_spec(pm)[0] == "component add"@); }
                }
            }
            assert forall|ci: int, cj: int| #![trigger commands_spec(pm)[ci], commands_spec(pm)[cj]] 0 <= ci < commands_spec(pm).len() && 0 <= cj < commands_spec(pm).len() && ci != cj implies commands_spec(pm)[ci] != commands_spec(pm)[cj] by {
                if ci == 0 { if cj == 0 { assert(commands_spec(pm)[0] == "rustup"@); assert(commands_spec(pm)[0] == "rustup"@); } }
            }
            assert forall|ci: int, si: int| #![trigger commands_spec(pm)[ci], sub_commands_spec(pm)[si]] 0 <= ci < commands_spec(pm).len() && 0 <= si < sub_commands_spec(pm).len() implies commands_spec(pm)[ci] != sub_commands_spec(pm)[si] by {
                if ci == 0 { if si == 0 { assert(commands_spec(pm)[0] == "rustup"@); assert(sub_commands_spec(pm)[0] == "component add"@); } }
            }
            assert forall|si: int, sj: int| #![trigger sub_commands_spec(pm)[si], sub_commands_spec(pm)[sj]] 0 <= si < sub_commands_spec(pm).len() && 0 <= sj < sub_commands_spec(pm).len() && si != sj implies sub_commands_spec(pm)[si] != sub_commands_spec(pm)[sj] by {
                if si == 0 { if sj == 0 { assert(sub_commands_spec(pm)[0] == "component add"@); assert(sub_commands_spec(pm)[0] == "component add"@); } }
            }
        },
        PackageManager::Scoop => {
            reveal_strlit("install");
            reveal_strlit("scoop");
            assert(commands_spec(pm) =~= seq!["scoop"@]);
            assert(sub_commands_spec(pm) =~= seq!["install"@]);
            assert(crate::package_manager::invalidating_flags_spec(pm) =~= Seq::<Seq<char>>::empty());
            assert(no_ws("scoop"@)) by {
                assert forall|k: int| 0 <= k < "scoop"@.len() implies !crate::chars::is_ascii_ws(#[trigger] "scoop"@[k]) by {
                    assert("scoop"@[0] == 's');
                    assert("scoop"@[1] == 'c');
                    assert("scoop"@[2] == 'o');
                    assert("scoop"@[3] == 'o');
                    assert("scoop"@[4] == 'p');
                }
            }
            assert(no_ws("install"@)) by {
                assert forall|k: int| 0 <= k < "install"@.len() implies !crate::chars::is_ascii_ws(#[trigger] "install"@[k]) by {
                    assert("install"@[0] == 'i');
                    assert("install"@[1] == 'n');
                    assert("install"@[2] == 's');
                    assert("install"@[3] == 't');
                    assert("install"@[4] == 'a');
                    assert("install"@[5] == 'l');
                    assert("install"@[6] == 'l');
                }
            }
            assert("scoop"@ != "install"@) by {
                if "scoop"@ == "install"@ {
                    assert("scoop"@.len() == "install"@.len());
                    assert("scoop"@[0] == "install"@[0]);
                }
            }
            assert forall|ci: int| 0 <= ci < commands_spec(pm).len() implies (#[trigger] commands_spec(pm)[ci]).len() > 0 && no_ws(commands_spec(pm)[ci]) by {
                if ci == 0 { assert(commands_spec(pm)[0] == "scoop"@); }
            }
            assert forall|si: int| 0 <= si < sub_commands_spec(pm).len() implies (#[trigger] sub_commands_spec(pm)[si]).len() > 0 by {
                if si == 0 { assert(sub_commands_spec(pm)[0] == "install"@); }
            }
            assert forall|si: int| 0 < si < sub_commands_spec(pm).len() implies no_ws(#[trigger] sub_commands_spec(pm)[si]) by {
                if si == 0 { assert(sub_commands_spec(pm)[0] == "install"@); }
            }
            if commands_spec(pm).len() > 1 {
                assert forall|si: int| 0 <= si < sub_commands_spec(pm).len() implies no_ws(#[trigger] sub_commands_spec(pm)[si]) by {
                    if si == 0 { assert(sub_commands_spec(pm)[0] == "install"@); }
                }
            }
            if sub_commands_spec(pm).len() > 1 {
                assert forall|si: int| 0 <= si < sub_commands_spec(pm).len() implies no_ws(#[trigger] sub_commands_spec(pm)[si]) by {
                    if si == 0 { assert(sub_commands_spec(pm)[0] == "install"@); }
                }
            }
            assert forall|ci: int, cj: int| #![trigger commands_spec(pm)[ci], commands_spec(pm)[cj]] 0 <= ci < commands_spec(pm).len() && 0 <= cj < commands_spec(pm).len() && ci != cj implies commands_spec(pm)[ci] != commands_spec(pm)[cj] by {
                if ci == 0 { if cj == 0 { assert(commands_spec(pm)[0] == "scoop"@); assert(commands_spec(pm)[0] == "scoop"@); } }
            }
            assert forall|ci: int, si: int| #![trigger commands_spec(pm)[ci], sub_commands_spec(pm)[si]] 0 <= ci < commands_spec(pm).len() && 0 <= si < sub_commands_spec(pm).len() implies commands_spec(pm)[ci] != sub_commands_spec(pm)[si] by {
                if ci == 0 { if si == 0 { assert(commands_spec(pm)[0] == "scoop"@); assert(sub_commands_spec(pm)[0] == "install"@); } }
            }
            assert forall|si: int, sj: int| #![trigger sub_commands_spec(pm)[si], sub_commands_spec(pm)[sj]] 0 <= si < sub_commands_spec(pm).len() && 0 <= sj < sub_commands_spec(pm).len() && si != sj implies sub_commands_spec(pm)[si] != sub_commands_spec(pm)[sj] by {
                if si == 0 { if sj == 0 { assert(sub_commands_spec(pm)[0] == "install"@); assert(sub_commands_spec(pm)[0] == "install"@); } }
            }
        },
        PackageManager::Snap => {
            reveal_strlit("install");
            reveal_strlit("snap");
            assert(commands_spec(pm) =~= seq!["snap"@]);
            assert(sub_commands_spec(pm) =~= seq!["install"@]);
            assert(crate::package_manager::invalidating_flags_spec(pm) =~= Seq::<Seq<char>>::empty());
            assert(no_ws("snap"@)) by {
                assert forall|k: int| 0 <= k < "snap"@.len() implies !crate::chars::is_ascii_ws(#[trigger] "snap"@[k]) by {
                    assert("snap"@[0] == 's');
                    assert("snap"@[1] == 'n');
                    assert("snap"@[2] == 'a');
                    assert("snap"@[3] == 'p');
                }
            }
            assert(no_ws("install"@)) by {
                assert forall|k: int| 0 <= k < "install"@.len() implies !crate::chars::is_ascii_ws(#[trigger] "install"@[k]) by {
                    assert("install"@[0] == 'i');
                    assert("install"@[1] == 'n');
                    assert("install"@[2] == 's');
                    assert("install"@[3] == 't');
                    assert("install"@[4] == 'a');
                    assert("install"@[5] == 'l');
                    assert("install"@[6] == 'l');
                }
            }
            assert("snap"@ != "install"@) by {
                if "snap"@ == "install"@ {
                    assert("snap"@.len() == "install"@.len());
                    assert("snap"@[0] == "install"@[0]);
                }
            }
            assert forall|ci: int| 0 <= ci < commands_spec(pm).len() implies (#[trigger] commands_spec(pm)[ci]).len() > 0 && no_ws(commands_spec(pm)[ci]) by {
                if ci == 0 { assert(commands_spec(pm)[0] == "snap"@); }
            }
            assert forall|si: int| 0 <= si < sub_commands_spec(pm).len() implies (#[trigger] sub_commands_spec(pm)[si]).len() > 0 by {
                if si == 0 { assert(sub_commands_spec(pm)[0] == "install"@); }
            }
            assert forall|si: int| 0 < si < sub_commands_spec(pm).len() implies no_ws(#[trigger] sub_commands_spec(pm)[si]) by {
                if si == 0 { assert(sub_commands_spec(pm)[0] == "install"@); }
            }
            if commands_spec(pm).len() > 1 {
                assert forall|si: int| 0 <= si < sub_commands_spec(pm).len() implies no_ws(#[trigger] sub_commands_spec(pm)[si]) by {
                    if si == 0 { assert(sub_commands_spec(pm)[0] == "install"@); }
                }
            }
            if sub_commands_spec(pm).len() > 1 {
                assert forall|si: int| 0 <= si < sub_commands_spec(pm).len() implies no_ws(#[trigger] sub_commands_spec(pm)[si]) by {
                    if si == 0 { assert(sub_commands_spec(pm)[0] == "install"@); }
                }
            }
            assert forall|ci: int, cj: int| #![trigger commands_spec(pm)[ci], commands_spec(pm)[cj]] 0 <= ci < commands_spec(pm).len() && 0 <= cj < commands_spec(pm).len() && ci != cj implies commands_spec(pm)[ci] != commands_spec(pm)[cj] by {
                if ci == 0 { if cj == 0 { assert(commands_spec(pm)[0] == "snap"@); assert(commands_spec(pm)[0] == "snap"@); } }
            }
            assert forall|ci: int, si: int| #![trigger commands_spec(pm)[ci], sub_commands_spec(pm)[si]] 0 <= ci < commands_spec(pm).len() && 0 <= si < sub_commands_spec(pm).len() implies commands_spec(pm)[ci] != sub_commands_spec(pm)[si] by {
                if ci == 0 { if si == 0 { assert(commands_spec(pm)[0] == "snap"@); assert(sub_commands_spec(pm)[0] == "install"@); } }
            }
            assert forall|si: int, sj: int| #![trigger sub_commands_spec(pm)[si], sub_commands_spec(pm)[sj]] 0 <= si < sub_commands_spec(pm).len() && 0 <= sj < sub_commands_spec(pm).len() && si != sj implies sub_commands_spec(pm)[si] != sub_commands_spec(pm)[sj] by {
                if si == 0 { if sj == 0 { assert(sub_commands_spec(pm)[0] == "install"@); assert(sub_commands_spec(pm)[0] == "install"@); } }
            }
        },
        PackageManager::Yay => {
            reveal_strlit("-S");
            reveal_strlit("yay");
            assert(commands_spec(pm) =~= seq!["yay"@]);
            assert(sub_commands_spec(pm) =~= seq!["-S"@]);
            assert(crate::package_manager::invalidating_flags_spec(pm) =~= Seq::<Seq<char>>::empty());
            assert(no_ws("yay"@)) by {
                assert forall|k: int| 0 <= k < "yay"@.len() implies !crate::chars::is_ascii_ws(#[trigger] "yay"@[k]) by {
                    assert("yay"@[0] == 'y');
                    assert("yay"@[1] == 'a');
                    assert("yay"@[2] == 'y');
                }
            }
            assert(no_ws("-S"@)) by {
                assert forall|k: int| 0 <= k < "-S"@.len() implies !crate::chars::is_ascii_ws(#[trigger] "-S"@[k]) by {
                    assert("-S"@[0] == '-');
                    assert("-S"@[1] == 'S');
                }
            }
            assert("yay"@ != "-S"@) by {
                if "yay"@ == "-S"@ {
                    assert("yay"@.len() == "-S"@.len());
                    assert("yay"@[0] == "-S"@[0]);
                }
            }
            assert forall|ci: int| 0 <= ci < commands_spec(pm).len() implies (#[trigger] commands_spec(pm)[ci]).len() > 0 && no_ws(commands_spec(pm)[ci]) by {
                if ci == 0 { assert(commands_spec(pm)[0] == "yay"@); }
            }
            assert forall|si: int| 0 <= si < sub_commands_spec(pm).len() implies (#[trigger] sub_commands_spec(pm)[si]).len() > 0 by {
                if si == 0 { assert(sub_commands_spec(pm)[0] == "-S"@); }
            }
            assert forall|si: int| 0 < si < sub_commands_spec(pm).len() implies no_ws(#[trigger] sub_commands_spec(pm)[si]) by {
                if si == 0 { assert(sub_commands_spec(pm)[0] == "-S"@); }
            }
            if commands_spec(pm).len() > 1 {
                assert forall|si: int| 0 <= si < sub_commands_spec(pm).len() implies no_ws(#[trigger] sub_commands_spec(pm)[si]) by {
                    if si == 0 { assert(sub_commands_spec(pm)[0] == "-S"@); }
                }
            }
            if sub_commands_spec(pm).len() > 1 {
                assert forall|si: int| 0 <= si < sub_commands_spec(pm).len() implies no_ws(#[trigger] sub_commands_spec(pm)[si]) by {
                    if si == 0 { assert(sub_commands_spec(pm)[0] == "-S"@); }
                }
            }
            assert forall|ci: int, cj: int| #![trigger commands_spec(pm)[ci], commands_spec(pm)[cj]] 0 <= ci < commands_spec(pm).len() && 0 <= cj < commands_spec(pm).len() && ci != cj implies commands_spec(pm)[ci] != commands_spec(pm)[cj] by {
                if ci == 0 { if cj == 0 { assert(commands_spec(pm)[0] == "yay"@); assert(commands_spec(pm)[0] == "yay"@); } }
            }
            assert forall|ci: int, si: int| #![trigger commands_spec(pm)[ci], sub_commands_spec(pm)[si]] 0 <= ci < commands_spec(pm).len() && 0 <= si < sub_commands_spec(pm).len() implies commands_spec(pm)[ci] != sub_commands_spec(pm)[si] by {
                if ci == 0 { if si == 0 { assert(commands_spec(pm)[0] == "yay"@); assert(sub_commands_spec(pm)[0] == "-S"@); } }
            }
            assert forall|si: int, sj: int| #![trigger sub_commands_spec(pm)[si], sub_commands_spec(pm)[sj]] 0 <= si < sub_commands_spec(pm).len() && 0 <= sj < sub_commands_spec(pm).len() && si != sj implies sub_commands_spec(pm)[si] != sub_commands_spec(pm)[sj] by {
                if si == 0 { if sj == 0 { assert(sub_commands_spec(pm)[0] == "-S"@); assert(sub_commands_spec(pm)[0] == "-S"@); } }
            }
        },
        PackageManager::Zypper => {
            reveal_strlit("in");
            reveal_strlit("inr");
            reveal_strlit("install");
            reveal_strlit("zin");
            reveal_strlit("zinr");
            reveal_strlit("zypper");
            assert(commands_spec(pm) =~= seq!["zypper"@, "zin"@, "zinr"@]);
            assert(sub_commands_spec(pm) =~= seq!["install"@, "in"@, "inr"@]);
            assert(crate::package_manager::invalidating_flags_spec(pm) =~= Seq::<Seq<char>>::empty());
            assert(no_ws("zypper"@)) by {
                assert forall|k: int| 0 <= k < "zypper"@.len() implies !crate::chars::is_ascii_ws(#[trigger] "zypper"@[k]) by {
                    assert("zypper"@[0] == 'z');
                    assert("zypper"@[1] == 'y');
                    assert("zypper"@[2] == 'p');
                    assert("zypper"@[3] == 'p');
                    assert("zypper"@[4] == 'e');
                    assert("zypper"@[5] == 'r');
                }
            }
            assert(no_ws("zin"@)) by {
                assert forall|k: int| 0 <= k < "zin"@.len() implies !crate::chars::is_ascii_ws(#[trigger] "zin"@[k]) by {
                    assert("zin"@[0] == 'z');
                    assert("zin"@[1] == 'i');
                    assert("zin"@[2] == 'n');
                }
            }
            assert(no_ws("zinr"@)) by {
                assert forall|k: int| 0 <= k < "zinr"@.len() implies !crate::chars::is_ascii_ws(#[trigger] "zinr"@[k]) by {
                    assert("zinr"@[0] == 'z');
                    assert("zinr"@[1] == 'i');
                    assert("zinr"@[2] == 'n');
                    assert("zinr"@[3] == 'r');
                }
            }
            assert(no_ws("install"@)) by {
                assert forall|k: int| 0 <= k < "install"@.len() implies !crate::chars::is_ascii_ws(#[trigger] "install"@[k]) by {
                    assert("install"@[0] == 'i');
                    assert("install"@[1] == 'n');
                    assert("install"@[2] == 's');
                    assert("install"@[3] == 't');
                    assert("install"@[4] == 'a');
                    assert("install"@[5] == 'l');
                    assert("install"@[6] == 'l');
                }
            }
            assert(no_ws("in"@)) by {
                assert forall|k: int| 0 <= k < "in"@.len() implies !crate::chars::is_ascii_ws(#[trigger] "in"@[k]) by {
                    assert("in"@[0] == 'i');
                    assert("in"@[1] == 'n');
                }
            }
            assert(no_ws("inr"@)) by {
                assert forall|k: int| 0 <= k < "inr"@.len() implies !crate::chars::is_ascii_ws(#[trigger] "inr"@[k]) by {
                    assert("inr"@[0] == 'i');
                    assert("inr"@[1] == 'n');
                    assert("inr"@[2] == 'r');
                }
            }
            assert("zypper"@ != "zin"@) by {
                if "zypper"@ == "zin"@ {
                    assert("zypper"@.len() == "zin"@.len());
                    assert("zypper"@[0] == "zin"@[0]);
                }
            }
            assert("zypper"@ != "zinr"@) by {
                if "zypper"@ == "zinr"@ {
                    assert("zypper"@.len() == "zinr"@.len());
                    assert("zypper"@[0] == "zinr"@[0]);
                }
            }
            assert("zin"@ != "zinr"@) by {
                if "zin"@ == "zinr"@ {
                    assert("zin"@.len() == "zinr"@.len());
                    assert("zin"@[0] == "zinr"@[0]);
                }
            }
            assert("zypper"@ != "install"@) by {
                if "zypper"@ == "install"@ {
                    assert("zypper"@.len() == "install"@.len());
                    assert("zypper"@[0] == "install"@[0]);
                }
            }
            assert("zypper"@ != "in"@) by {
                if "zypper"@ == "in"@ {
                    assert("zypper"@.len() == "in"@.len());
                    assert("zypper"@[0] == "in"@[0]);
                }
            }
            assert("zypper"@ != "inr"@) by {
                if "zypper"@ == "inr"@ {
                    assert("zypper"@.len() == "inr"@.len());
                    assert("zypper"@[0] == "inr"@[0]);
                }
            }
            assert("zin"@ != "install"@) by {
                if "zin"@ == "install"@ {
                    assert("zin"@.len() == "install"@.len());
                    assert("zin"@[0] == "install"@[0]);
                }
            }
            assert("zin"@ != "in"@) by {
                if "zin"@ == "in"@ {
                    assert("zin"@.len() == "in"@.len());
                    assert("zin"@[0] == "in"@[0]);
                }
            }
            assert("zin"@ != "inr"@) by {
                if "zin"@ == "inr"@ {
                    assert("zin"@.len() == "inr"@.len());
                    assert("zin"@[0] == "inr"@[0]);
                }
            }
            assert("zinr"@ != "install"@) by {
                if "zinr"@ == "install"@ {
                    assert("zinr"@.len() == "install"@.len());
                    assert("zinr"@[0] == "install"@[0]);
                }
            }
            assert("zinr"@ != "in"@) by {
                if "zinr"@ == "in"@ {
                    assert("zinr"@.len() == "in"@.len());
                    assert("zinr"@[0] == "in"@[0]);
                }
            }
            assert("zinr"@ != "inr"@) by {
                if "zinr"@ == "inr"@ {
                    assert("zinr"@.len() == "inr"@.len());
                    assert("zinr"@[0] == "inr"@[0]);
                }
            }
            assert("install"@ != "in"@) by {
                if "install"@ == "in"@ {
                    assert("install"@.len() == "in"@.len());
                    assert("install"@[0] == "in"@[0]);
                }
            }
            assert("install"@ != "inr"@) by {
                if "install"@ == "inr"@ {
                    assert("install"@.len() == "inr"@.len());
                    assert("install"@[0] == "inr"@[0]);
                }
            }
            assert("in"@ != "inr"@) by {
                if "in"@ == "inr"@ {
                    assert("in"@.len() == "inr"@.len());
                    assert("in"@[0] == "inr"@[0]);
                }
            }
            assert forall|ci: int| 0 <= ci < commands_spec(pm).len() implies (#[trigger] commands_spec(pm)[ci]).len() > 0 && no_ws(commands_spec(pm)[ci]) by {
                if ci == 0 { assert(commands_spec(pm)[0] == "zypper"@); } else if ci == 1 { assert(commands_spec(pm)[1] == "zin"@); } else if ci == 2 { assert(commands_spec(pm)[2] == "zinr"@); }
            }
            assert forall|si: int| 0 <= si < sub_commands_spec(pm).len() implies (#[trigger] sub_commands_spec(pm)[si]).len() > 0 by {
                if si == 0 { assert(sub_commands_spec(pm)[0] == "install"@); } else if si == 1 { assert(sub_commands_spec(pm)[1] == "in"@); } else if si == 2 { assert(sub_commands_spec(pm)[2] == "inr"@); }
            }
            assert forall|si: int| 0 < si < sub_commands_spec(pm).len() implies no_ws(#[trigger] sub_commands_spec(pm)[si]) by {
                if si == 0 { assert(sub_commands_spec(pm)[0] == "install"@); } else if si == 1 { assert(sub_commands_spec(pm)[1] == "in"@); } else if si == 2 { assert(sub_commands_spec(pm)[2] == "inr"@); }
            }
            if commands_spec(pm).len() > 1 {
                assert forall|si: int| 0 <= si < sub_commands_spec(pm).len() implies no_ws(#[trigger] sub_commands_spec(pm)[si]) by {
                    if si == 0 { assert(sub_commands_spec(pm)[0] == "install"@); } else if si == 1 { assert(sub_commands_spec(pm)[1] == "in"@); } else if si == 2 { assert(sub_commands_spec(pm)[2] == "inr"@); }
                }
            }
            if sub_commands_spec(pm).len() > 1 {
                assert forall|si: int| 0 <= si < sub_commands_spec(pm).len() implies no_ws(#[trigger] sub_commands_spec(pm)[si]) by {
                    if si == 0 { assert(sub_commands_spec(pm)[0] == "install"@); } else if si == 1 { assert(sub_commands_spec(pm)[1] == "in"@); } else if si == 2 { assert(sub_commands_spec(pm)[2] == "inr"@); }
                }
            }
            assert forall|ci: int, cj: int| #![trigger commands_spec(pm)[ci], commands_spec(pm)[cj]] 0 <= ci < commands_spec(pm).len() && 0 <= cj < commands_spec(pm).len() && ci != cj implies commands_spec(pm)[ci] != commands_spec(pm)[cj] by {
                if ci == 0 { if cj == 0 { assert(commands_spec(pm)[0] == "zypper"@); assert(commands_spec(pm)[0] == "zypper"@); } else if cj == 1 { assert(commands_spec(pm)[0] == "zypper"@); assert(commands_spec(pm)[1] == "zin"@); } else if cj == 2 { assert(commands_spec(pm)[0] == "zypper"@); assert(commands_spec(pm)[2] == "zinr"@); } } else if ci == 1 { if cj == 0 { assert(commands_spec(pm)[1] == "zin"@); assert(commands_spec(pm)[0] == "zypper"@); } else if cj == 1 { assert(commands_spec(pm)[1] == "zin"@); assert(commands_spec(pm)[1] == "zin"@); } else if cj == 2 { assert(commands_spec(pm)[1] == "zin"@); assert(commands_spec(pm)[2] == "zinr"@); } } else if ci == 2 { if cj == 0 { assert(commands_spec(pm)[2] == "zinr"@); assert(commands_spec(pm)[0] == "zypper"@); } else if cj == 1 { assert(commands_spec(pm)[2] == "zinr"@); assert(commands_spec(pm)[1] == "zin"@); } else if cj == 2 { assert(commands_spec(pm)[2] == "zinr"@); assert(commands_spec(pm)[2] == "zinr"@); } }
            }
            assert forall|ci: int, si: int| #![trigger commands_spec(pm)[ci], sub_commands_spec(pm)[si]] 0 <= ci < commands_spec(pm).len() && 0 <= si < sub_commands_spec(pm).len() implies commands_spec(pm)[ci] != sub_commands_spec(pm)[si] by {
                if ci == 0 { if si == 0 { assert(commands_spec(pm)[0] == "zypper"@); assert(sub_commands_spec(pm)[0] == "install"@); } else if si == 1 { assert(commands_spec(pm)[0] == "zypper"@); assert(sub_commands_spec(pm)[1] == "in"@); } else if si == 2 { assert(commands_spec(pm)[0] == "zypper"@); assert(sub_commands_spec(pm)[2] == "inr"@); } } else if ci == 1 { if si == 0 { assert(commands_spec(pm)[1] == "zin"@); assert(sub_commands_spec(pm)[0] == "install"@); } else if si == 1 { assert(commands_spec(pm)[1] == "zin"@); assert(sub_commands_spec(pm)[1] == "in"@); } else if si == 2 { assert(commands_spec(pm)[1] == "zin"@); assert(sub_commands_spec(pm)[2] == "inr"@); } } else if ci == 2 { if si == 0 { assert(commands_spec(pm)[2] == "zinr"@); assert(sub_commands_spec(pm)[0] == "install"@); } else if si == 1 { assert(commands_spec(pm)[2] == "zinr"@); assert(sub_commands_spec(pm)[1] == "in"@); } else if si == 2 { assert(commands_spec(pm)[2] == "zinr"@); assert(sub_commands_spec(pm)[2] == "inr"@); } }
            }
            assert forall|si: int, sj: int| #![trigger sub_commands_spec(pm)[si], sub_commands_spec(pm)[sj]] 0 <= si < sub_commands_spec(pm).len() && 0 <= sj < sub_commands_spec(pm).len() && si != sj implies sub_commands_spec(pm)[si] != sub_commands_spec(pm)[sj] by {
                if si == 0 { if sj == 0 { assert(sub_commands_spec(pm)[0] == "install"@); assert(sub_commands_spec(pm)[0] == "install"@); } else if sj == 1 { assert(sub_commands_spec(pm)[0] == "install"@); assert(sub_commands_spec(pm)[1] == "in"@); } else if sj == 2 { assert(sub_commands_spec(pm)[0] == "install"@); assert(sub_commands_spec(pm)[2] == "inr"@); } } else if si == 1 { if sj == 0 { assert(sub_commands_spec(pm)[1] == "in"@); assert(sub_commands_spec(pm)[0] == "install"@); } else if sj == 1 { assert(sub_commands_spec(pm)[1] == "in"@); assert(sub_commands_spec(pm)[1] == "in"@); } else if sj == 2 { assert(sub_commands_spec(pm)[1] == "in"@); assert(sub_commands_spec(pm)[2] == "inr"@); } } else if si == 2 { if sj == 0 { assert(sub_commands_spec(pm)[2] == "inr"@); assert(sub_commands_spec(pm)[0] == "install"@); } else if sj == 1 { assert(sub_commands_spec(pm)[2] == "inr"@); assert(sub_commands_spec(pm)[1] == "in"@); } else if sj == 2 { assert(sub_commands_spec(pm)[2] == "inr"@); assert(sub_commands_spec(pm)[2] == "inr"@); } }
            }
        },
    }
}

} // verus!

verus! {

/// A command word that stands at the head of a plain install line yields
/// exactly the one named package, with no flags.
proof fn lemma_catch_one_hit(pm: PackageManager, cmd: Seq<char>, si: int, name: Seq<char>)
    requires
        cmd.len() > 0,
        0 <= si < sub_commands_spec(pm).len(),
        sub_commands_spec(pm)[si].len() > 0,
        si > 0 ==> no_ws(sub_commands_spec(pm)[si]),
        forall|sj: int|
            0 <= sj < si ==> (#[trigger] sub_commands_spec(pm)[sj]).len() > 0 && no_ws(
                sub_commands_spec(pm)[sj],
            ) && sub_commands_spec(pm)[sj] != sub_commands_spec(pm)[si],
        name.len() > 0,
        no_ws(name),
        crate::chars::is_alphanumeric_char(name[0]),
        forall|k: int|
            0 <= k < crate::package_manager::invalidating_flags_spec(pm).len() ==> (
            #[trigger] crate::package_manager::invalidating_flags_spec(pm)[k]).len() > 0
                && crate::package_manager::invalidating_flags_spec(pm)[k][0] == '-',
    ensures
        catch_one(pm, cmd + seq![' '] + sub_commands_spec(pm)[si] + seq![' '] + name, cmd)
            == seq![PackageV { source: pm, name: name, flags: Seq::empty() }],
{
    let sub = sub_commands_spec(pm)[si];
    let line = cmd + seq![' '] + sub + seq![' '] + name;
    assert(line.subrange(0, cmd.len() as int) =~= cmd);
    assert(line[cmd.len() as int] == ' ');
    assert(crate::package_manager_impl::cmd_token_at(line, cmd, 0));
    assert(cmd_occurs(line, cmd));
    let pat = cmd + seq![' '];
    assert(line.subrange(0, pat.len() as int) =~= pat);
    assert(crate::strutil::matches_at(line, pat, 0));
    assert(crate::strutil::find_from(line, pat, 0) == Some(0int));
    let rest = line.skip(cmd.len() as int + 1);
    assert(rest =~= sub + seq![' '] + name);
    lemma_strip_sub_hit(sub_commands_spec(pm), si, name);
    assert(crate::package_manager_impl::strip_sub(rest, sub_commands_spec(pm)) == Some(name));
    lemma_tok_single(name);
    lemma_walk_single_name(pm, name);
    assert(crate::package_manager_impl::extract_args(pm, name)
        == crate::package_manager_impl::mk_packages(pm, seq![name], Seq::empty()));
    assert(crate::package_manager_impl::mk_packages(pm, seq![name], Seq::empty()) =~= seq![
        PackageV { source: pm, name: name, flags: Seq::empty() },
    ]);
}

proof fn lemma_catch_cmds_none(pm: PackageManager, line: Seq<char>, cmds: Seq<Seq<char>>)
    requires
        forall|k: int| 0 <= k < cmds.len() ==> catch_one(pm, line, #[trigger] cmds[k]) == Seq::<
            PackageV,
        >::empty(),
    ensures
        catch_cmds(pm, line, cmds) == Seq::<PackageV>::empty(),
    decreases cmds.len(),
{
    if cmds.len() == 0 {
        assert(catch_cmds(pm, line, cmds) =~= Seq::<PackageV>::empty());
    } else {
        assert forall|k: int|
            0 <= k < cmds.skip(1).len() implies catch_one(pm, line, #[trigger] cmds.skip(1)[k])
            == Seq::<PackageV>::empty() by {
            assert(cmds.skip(1)[k] == cmds[k + 1]);
        }
        lemma_catch_cmds_none(pm, line, cmds.skip(1));
        assert(catch_cmds(pm, line, cmds) =~= Seq::<PackageV>::empty());
    }
}

proof fn lemma_catch_cmds_one_hit(
    pm: PackageManager,
    line: Seq<char>,
    cmds: Seq<Seq<char>>,
    ci: int,
)
    requires
        0 <= ci < cmds.len(),
        forall|k: int|
            0 <= k < cmds.len() && k != ci ==> catch_one(pm, line, #[trigger] cmds[k]) == Seq::<
                PackageV,
            >::empty(),
    ensures
        catch_cmds(pm, line, cmds) == catch_one(pm, line, cmds[ci]),
    decreases cmds.len(),
{
    if ci == 0 {
        assert forall|k: int|
            0 <= k < cmds.skip(1).len() implies catch_one(pm, line, #[trigger] cmds.skip(1)[k])
            == Seq::<PackageV>::empty() by {
            assert(cmds.skip(1)[k] == cmds[k + 1]);
        }
        lemma_catch_cmds_none(pm, line, cmds.skip(1));
        assert(catch_one(pm, line, cmds[0]) + Seq::<PackageV>::empty() =~= catch_one(
            pm,
            line,
            cmds[0],
        ));
    } else {
        assert(catch_one(pm, line, cmds[0]) == Seq::<PackageV>::empty());
        assert forall|k: int|
            0 <= k < cmds.skip(1).len() && k != ci - 1 implies catch_one(
            pm,
            line,
            #[trigger] cmds.skip(1)[k],
        ) == Seq::<PackageV>::empty() by {
            assert(cmds.skip(1)[k] == cmds[k + 1]);
        }
        lemma_catch_cmds_one_hit(pm, line, cmds.skip(1), ci - 1);
        assert(cmds.skip(1)[ci - 1] == cmds[ci]);
        assert(Seq::<PackageV>::empty() + catch_one(pm, line, cmds[ci]) =~= catch_one(
            pm,
            line,
            cmds[ci],
        ));
    }
}

/// A line consisting of one of a manager's command words, one of its
/// sub-commands and a single whitespace-free name whose first character is
/// alphanumeric yields exactly one package: that name, with no flags.
pub proof fn lemma_single_install_line(pm: PackageManager, ci: int, si: int, name: Seq<char>)
    requires
        0 <= ci < commands_spec(pm).len(),
        0 <= si < sub_commands_spec(pm).len(),
        name.len() > 0,
        no_ws(name),
        crate::chars::is_alphanumeric_char(name[0]),
    ensures
        catch_spec(
            pm,
            commands_spec(pm)[ci] + seq![' '] + sub_commands_spec(pm)[si] + seq![' '] + name,
            Os::Posix,
        ) == seq![PackageV { source: pm, name: name, flags: Seq::empty() }],
{
    lemma_tables_wf(pm);
    let cmds = commands_spec(pm);
    let cmd = cmds[ci];
    let sub = sub_commands_spec(pm)[si];
    let line = cmd + seq![' '] + sub + seq![' '] + name;
    if si > 0 {
        assert(sub_commands_spec(pm).len() > 1);
    }
    assert forall|sj: int|
        0 <= sj < si implies (#[trigger] sub_commands_spec(pm)[sj]).len() > 0 && no_ws(
        sub_commands_spec(pm)[sj],
    ) && sub_commands_spec(pm)[sj] != sub_commands_spec(pm)[si] by {
        assert(sub_commands_spec(pm).len() > 1);
    }
    lemma_catch_one_hit(pm, cmd, si, name);
    assert forall|k: int|
        0 <= k < cmds.len() && k != ci implies catch_one(pm, line, #[trigger] cmds[k]) == Seq::<
            PackageV,
        >::empty() by {
        assert(cmds.len() > 1);
        assert(no_ws(sub));
        if cmd_occurs(line, cmds[k]) {
            lemma_occurrence_in_line(cmd, sub, name, cmds[k]);
            assert(cmds[k] != cmd);
            assert(cmds[k] != sub);
            assert(false);
        }
        assert(catch_one(pm, line, cmds[k]) =~= Seq::<PackageV>::empty());
    }
    lemma_catch_cmds_one_hit(pm, line, cmds, ci);
}

} // verus!

// ---------------------------------------------------------------------------
// Merging a set with itself keeps the deduplicated cardinality
// ---------------------------------------------------------------------------

verus! {

/// Within `s`, the full command determines the package.
pub open spec fn key_inj(s: Seq<PackageV>) -> bool {
    forall|i: int, j: int|
        #![trigger s[i], s[j]]
        0 <= i < s.len() && 0 <= j < s.len() && full_command_of(s[i]) == full_command_of(s[j])
            ==> s[i] == s[j]
}

/// Sorted with pairwise different keys between neighbours.
pub open spec fn strictly_sorted(s: Seq<PackageV>) -> bool {
    forall|i: int|
        0 <= i < s.len() - 1 ==> pkg_le(#[trigger] s[i], s[i + 1]) && full_command_of(s[i])
            != full_command_of(s[i + 1])
}

proof fn lemma_contains_push(s: Seq<PackageV>, x: PackageV, y: PackageV)
    ensures
        s.push(x).contains(y) <==> (s.contains(y) || y == x),
{
    if s.push(x).contains(y) {
        let i = choose|i: int| 0 <= i < s.push(x).len() && s.push(x)[i] == y;
        if i < s.len() {
            assert(s[i] == y);
        }
    }
    if s.contains(y) {
        let i = choose|i: int| 0 <= i < s.len() && s[i] == y;
        assert(s.push(x)[i] == y);
    }
    if y == x {
        assert(s.push(x)[s.len() as int] == y);
    }
}

proof fn lemma_contains_cons(h: PackageV, t: Seq<PackageV>, y: PackageV)
    ensures
        (seq![h] + t).contains(y) <==> (y == h || t.contains(y)),
{
    let s = seq![h] + t;
    if s.contains(y) {
        let i = choose|i: int| 0 <= i < s.len() && s[i] == y;
        if i > 0 {
            assert(t[i - 1] == y);
        }
    }
    if y == h {
        assert(s[0] == y);
    }
    if t.contains(y) {
        let i = choose|i: int| 0 <= i < t.len() && t[i] == y;
        assert(s[i + 1] == y);
    }
}

proof fn lemma_insert_sorted_len(s: Seq<PackageV>, x: PackageV)
    ensures
        insert_sorted(s, x).len() == s.len() + 1,
    decreases s.len(),
{
    if s.len() > 0 && !pkg_le(s.last(), x) {
        lemma_insert_sorted_len(s.drop_last(), x);
    }
}

proof fn lemma_insert_sorted_sorted(s: Seq<PackageV>, x: PackageV)
    requires
        sorted_pkgs(s),
    ensures
        sorted_pkgs(insert_sorted(s, x)),
        insert_sorted(s, x).last() == x || (s.len() > 0 && insert_sorted(s, x).last() == s.last()),
    decreases s.len(),
{
    crate::strutil::lemma_lex_total(full_command_of(s.last()), full_command_of(x));
    if s.len() == 0 {
    } else if pkg_le(s.last(), x) {
        let r = s.push(x);
        assert forall|i: int| 0 <= i < r.len() - 1 implies pkg_le(#[trigger] r[i], r[i + 1]) by {
            if i < s.len() - 1 {
                assert(r[i] == s[i]);
                assert(r[i + 1] == s[i + 1]);
            } else {
                assert(r[i] == s.last());
                assert(r[i + 1] == x);
            }
        }
    } else {
        let d = s.drop_last();
        assert forall|i: int| 0 <= i < d.len() - 1 implies pkg_le(#[trigger] d[i], d[i + 1]) by {
            assert(d[i] == s[i]);
            assert(d[i + 1] == s[i + 1]);
        }
        lemma_insert_sorted_sorted(d, x);
        lemma_insert_sorted_len(d, x);
        let q = insert_sorted(d, x);
        let r = q.push(s.last());
        // The new last of q is at most s.last().
        assert(pkg_le(x, s.last()));
        if q.last() == x {
        } else {
            assert(d.len() > 0 && q.last() == d.last());
            assert(pkg_le(s[s.len() - 2], s[s.len() - 1]));
        }
        assert(pkg_le(q.last(), s.last()));
        assert forall|i: int| 0 <= i < r.len() - 1 implies pkg_le(#[trigger] r[i], r[i + 1]) by {
            if i < q.len() - 1 {
                assert(r[i] == q[i]);
                assert(r[i + 1] == q[i + 1]);
            } else {
                assert(r[i] == q.last());
                assert(r[i + 1] == s.last());
            }
        }
    }
}

proof fn lemma_insert_sorted_contains(s: Seq<PackageV>, x: PackageV, y: PackageV)
    ensures
        insert_sorted(s, x).contains(y) <==> (s.contains(y) || y == x),
    decreases s.len(),
{
    if s.len() == 0 {
        assert(insert_sorted(s, x) =~= seq![x] + Seq::<PackageV>::empty());
        lemma_contains_cons(x, Seq::empty(), y);
        assert(!s.contains(y));
        assert(!Seq::<PackageV>::empty().contains(y));
    } else if pkg_le(s.last(), x) {
        lemma_contains_push(s, x, y);
    } else {
        let d = s.drop_last();
        lemma_insert_sorted_contains(d, x, y);
        lemma_contains_push(insert_sorted(d, x), s.last(), y);
        lemma_contains_push(d, s.last(), y);
        assert(d.push(s.last()) =~= s);
    }
}

proof fn lemma_sort_sorted(s: Seq<PackageV>)
    ensures
        sorted_pkgs(sort_pkgs(s)),
    decreases s.len(),
{
    if s.len() > 0 {
        lemma_sort_sorted(s.drop_last());
        lemma_insert_sorted_sorted(sort_pkgs(s.drop_last()), s.last());
    }
}

proof fn lemma_sort_contains(s: Seq<PackageV>, y: PackageV)
    ensures
        sort_pkgs(s).contains(y) <==> s.contains(y),
    decreases s.len(),
{
    if s.len() == 0 {
        if s.contains(y) {
            let i = choose|i: int| 0 <= i < s.len() && s[i] == y;
        }
        if sort_pkgs(s).contains(y) {
            let i = choose|i: int| 0 <= i < sort_pkgs(s).len() && sort_pkgs(s)[i] == y;
        }
    } else {
        let d = s.drop_last();
        lemma_sort_contains(d, y);
        lemma_insert_sorted_contains(sort_pkgs(d), s.last(), y);
        lemma_contains_push(d, s.last(), y);
        assert(d.push(s.last()) =~= s);
    }
}

} // verus!

verus! {

proof fn lemma_dedup_first(s: Seq<PackageV>)
    requires
        s.len() > 0,
    ensures
        dedup_adj(s).len() > 0,
        dedup_adj(s)[0] == s[0],
    decreases s.len(),
{
    if s.len() > 1 && s[0] == s[1] {
        lemma_dedup_first(s.skip(1));
        assert(s.skip(1)[0] == s[1]);
    } else if s.len() > 1 {
        assert(dedup_adj(s) == seq![s[0]] + dedup_adj(s.skip(1)));
        assert((seq![s[0]] + dedup_adj(s.skip(1)))[0] == s[0]);
    }
}

proof fn lemma_dedup_contains(s: Seq<PackageV>, y: PackageV)
    ensures
        dedup_adj(s).contains(y) <==> s.contains(y),
    decreases s.len(),
{
    if s.len() <= 1 {
    } else {
        lemma_dedup_contains(s.skip(1), y);
        lemma_contains_cons(s[0], s.skip(1), y);
        assert(seq![s[0]] + s.skip(1) =~= s);
        if s[0] == s[1] {
            assert(dedup_adj(s) == dedup_adj(s.skip(1)));
            if y == s[0] {
                assert(s.skip(1)[0] == y);
                assert(s.skip(1).contains(y));
            }
        } else {
            assert(dedup_adj(s) == seq![s[0]] + dedup_adj(s.skip(1)));
            lemma_contains_cons(s[0], dedup_adj(s.skip(1)), y);
        }
    }
}

proof fn lemma_dedup_strict(s: Seq<PackageV>)
    requires
        sorted_pkgs(s),
        key_inj(s),
    ensures
        strictly_sorted(dedup_adj(s)),
    decreases s.len(),
{
    if s.len() <= 1 {
    } else {
        let t = s.skip(1);
        assert forall|i: int| 0 <= i < t.len() - 1 implies pkg_le(#[trigger] t[i], t[i + 1]) by {
            assert(t[i] == s[i + 1]);
            assert(t[i + 1] == s[i + 2]);
        }
        assert forall|i: int, j: int|
            #![trigger t[i], t[j]]
            0 <= i < t.len() && 0 <= j < t.len() && full_command_of(t[i]) == full_command_of(
                t[j],
            ) implies t[i] == t[j] by {
            assert(t[i] == s[i + 1]);
            assert(t[j] == s[j + 1]);
        }
        lemma_dedup_strict(t);
        if s[0] == s[1] {
        } else {
            let d = seq![s[0]] + dedup_adj(t);
            lemma_dedup_first(t);
            assert(dedup_adj(t)[0] == s[1]);
            assert(pkg_le(s[0], s[1]));
            assert(full_command_of(s[0]) != full_command_of(s[1])) by {
                if full_command_of(s[0]) == full_command_of(s[1]) {
                    assert(s[0] == s[1]);
                }
            }
            assert forall|i: int|
                0 <= i < d.len() - 1 implies pkg_le(#[trigger] d[i], d[i + 1]) && full_command_of(
                d[i],
            ) != full_command_of(d[i + 1]) by {
                if i == 0 {
                    assert(d[0] == s[0]);
                    assert(d[1] == dedup_adj(t)[0]);
                } else {
                    assert(d[i] == dedup_adj(t)[i - 1]);
                    assert(d[i + 1] == dedup_adj(t)[i]);
                }
            }
        }
    }
}

proof fn lemma_strict_global(u: Seq<PackageV>, i: int, j: int)
    requires
        strictly_sorted(u),
        0 <= i < j < u.len(),
    ensures
        pkg_le(u[i], u[j]),
        full_command_of(u[i]) != full_command_of(u[j]),
    decreases j - i,
{
    if j == i + 1 {
    } else {
        lemma_strict_global(u, i + 1, j);
        crate::strutil::lemma_lex_trans(
            full_command_of(u[i]),
            full_command_of(u[i + 1]),
            full_command_of(u[j]),
        );
        if full_command_of(u[i]) == full_command_of(u[j]) {
            // Then the key of u[i+1] is squeezed between two equal keys.
            crate::strutil::lemma_lex_antisym(
                full_command_of(u[i]),
                full_command_of(u[i + 1]),
            );
        }
    }
}

proof fn lemma_strict_same_set_equal(u: Seq<PackageV>, v: Seq<PackageV>)
    requires
        strictly_sorted(u),
        strictly_sorted(v),
        forall|y: PackageV| u.contains(y) <==> v.contains(y),
    ensures
        u == v,
    decreases u.len(),
{
    if u.len() == 0 {
        if v.len() > 0 {
            assert(v.contains(v[0]));
            assert(u.contains(v[0]));
            let i = choose|i: int| 0 <= i < u.len() && u[i] == v[0];
            assert(0 <= i < u.len());
            assert(false);
        }
        assert(u =~= v);
    } else {
        assert(u.contains(u[0]));
        assert(v.contains(u[0]));
        assert(v.len() > 0);
        assert(v.contains(v[0]));
        assert(u.contains(v[0]));
        let j = choose|j: int| 0 <= j < v.len() && v[j] == u[0];
        let i = choose|i: int| 0 <= i < u.len() && u[i] == v[0];
        assert(u[0] == v[0]) by {
            if u[0] != v[0] {
                assert(j != 0);
                assert(i != 0);
                lemma_strict_global(v, 0, j);
                lemma_strict_global(u, 0, i);
                crate::strutil::lemma_lex_antisym(
                    full_command_of(u[0]),
                    full_command_of(v[0]),
                );
            }
        }
        let ut = u.skip(1);
        let vt = v.skip(1);
        assert forall|y: PackageV| ut.contains(y) <==> vt.contains(y) by {
            lemma_contains_cons(u[0], ut, y);
            lemma_contains_cons(v[0], vt, y);
            assert(seq![u[0]] + ut =~= u);
            assert(seq![v[0]] + vt =~= v);
            if ut.contains(y) {
                assert(u.contains(y));
                assert(v.contains(y));
                if y == v[0] {
                    // y would repeat the head key inside the tail of u.
                    let k = choose|k: int| 0 <= k < ut.len() && ut[k] == y;
                    assert(u[k + 1] == y);
                    if k + 1 < u.len() {
                        lemma_strict_global(u, 0, k + 1);
                    }
                    assert(false);
                }
                assert(vt.contains(y));
            }
            if vt.contains(y) {
                assert(v.contains(y));
                assert(u.contains(y));
                if y == u[0] {
                    let k = choose|k: int| 0 <= k < vt.len() && vt[k] == y;
                    assert(v[k + 1] == y);
                    if k + 1 < v.len() {
                        lemma_strict_global(v, 0, k + 1);
                    }
                    assert(false);
                }
                assert(ut.contains(y));
            }
        }
        assert forall|k: int| 0 <= k < ut.len() - 1 implies pkg_le(#[trigger] ut[k], ut[k + 1])
            && full_command_of(ut[k]) != full_command_of(ut[k + 1]) by {
            assert(ut[k] == u[k + 1]);
            assert(ut[k + 1] == u[k + 2]);
        }
        assert forall|k: int| 0 <= k < vt.len() - 1 implies pkg_le(#[trigger] vt[k], vt[k + 1])
            && full_command_of(vt[k]) != full_command_of(vt[k + 1]) by {
            assert(vt[k] == v[k + 1]);
            assert(vt[k + 1] == v[k + 2]);
        }
        lemma_strict_same_set_equal(ut, vt);
        assert(u.len() == v.len());
        assert forall|k: int| 0 <= k < u.len() implies u[k] == v[k] by {
            if k > 0 {
                assert(ut[k - 1] == u[k]);
                assert(vt[k - 1] == v[k]);
                assert(ut[k - 1] == vt[k - 1]);
            }
        }
        assert(u =~= v);
    }
}

/// Merging a list with an equal copy of itself gives exactly the same result
/// as merging it with the empty list — in particular the same number of
/// packages — as long as equal full commands only arise from equal packages.
pub proof fn lemma_merge_self_cardinality(a: Seq<PackageV>)
    requires
        key_inj(a),
    ensures
        merge_spec(a, a) == merge_spec(a, Seq::empty()),
        merge_spec(a, a).len() == dedup_adj(sort_pkgs(a)).len(),
{
    let aa = a + a;
    let u = dedup_adj(sort_pkgs(aa));
    let v = dedup_adj(sort_pkgs(a + Seq::empty()));
    assert(a + Seq::<PackageV>::empty() =~= a);
    // Same element sets.
    assert forall|y: PackageV| u.contains(y) <==> v.contains(y) by {
        lemma_dedup_contains(sort_pkgs(aa), y);
        lemma_dedup_contains(sort_pkgs(a), y);
        lemma_sort_contains(aa, y);
        lemma_sort_contains(a, y);
        if aa.contains(y) {
            let i = choose|i: int| 0 <= i < aa.len() && aa[i] == y;
            if i < a.len() {
                assert(a[i] == y);
            } else {
                assert(a[i - a.len()] == y);
            }
        }
        if a.contains(y) {
            let i = choose|i: int| 0 <= i < a.len() && a[i] == y;
            assert(aa[i] == y);
        }
    }
    // Both strictly sorted.
    assert forall|i: int, j: int|
        #![trigger sort_pkgs(aa)[i], sort_pkgs(aa)[j]]
        0 <= i < sort_pkgs(aa).len() && 0 <= j < sort_pkgs(aa).len() && full_command_of(
            sort_pkgs(aa)[i],
        ) == full_command_of(sort_pkgs(aa)[j]) implies sort_pkgs(aa)[i] == sort_pkgs(aa)[j] by {
        let x = sort_pkgs(aa)[i];
        let y = sort_pkgs(aa)[j];
        assert(sort_pkgs(aa).contains(x));
        assert(sort_pkgs(aa).contains(y));
        lemma_sort_contains(aa, x);
        lemma_sort_contains(aa, y);
        let ik = choose|k: int| 0 <= k < aa.len() && aa[k] == x;
        let jk = choose|k: int| 0 <= k < aa.len() && aa[k] == y;
        let ia: int = if ik < a.len() { ik } else { ik - a.len() };
        let ja: int = if jk < a.len() { jk } else { jk - a.len() };
        assert(a[ia] == x);
        assert(a[ja] == y);
    }
    assert forall|i: int, j: int|
        #![trigger sort_pkgs(a)[i], sort_pkgs(a)[j]]
        0 <= i < sort_pkgs(a).len() && 0 <= j < sort_pkgs(a).len() && full_command_of(
            sort_pkgs(a)[i],
        ) == full_command_of(sort_pkgs(a)[j]) implies sort_pkgs(a)[i] == sort_pkgs(a)[j] by {
        let x = sort_pkgs(a)[i];
        let y = sort_pkgs(a)[j];
        assert(sort_pkgs(a).contains(x));
        assert(sort_pkgs(a).contains(y));
        lemma_sort_contains(a, x);
        lemma_sort_contains(a, y);
        let ik = choose|k: int| 0 <= k < a.len() && a[k] == x;
        let jk = choose|k: int| 0 <= k < a.len() && a[k] == y;
    }
    lemma_sort_sorted(aa);
    lemma_sort_sorted(a);
    lemma_dedup_strict(sort_pkgs(aa));
    lemma_dedup_strict(sort_pkgs(a));
    lemma_strict_same_set_equal(u, v);
}

} // verus!
