//! The line recognizer: which package managers a shell line mentions, and
//! which packages it installs.
//!
//! The whole algorithm is stated first as spec functions over character
//! sequences — command-word occurrence, sub-command removal, the token walk —
//! and the executable methods are proved to return exactly what those spec
//! functions describe.

use vstd::prelude::*;
use vstd::string::StringExecFns;
use vstd::string::StrSliceExecFns;
use crate::chars::is_alphanumeric_char;
use crate::package::{pkg_views, Package, PackageV};
use crate::package_manager::{
    capture_flags_spec, cf_flag, cf_view, cf_views, invalidating_flags_spec, known_flags_spec,
    manager_list, os_commands_spec, sub_commands_spec, CaptureFlag, CaptureFlagV, PackageManager,
    PackageManagerTrait,
};
use crate::strutil::{
    find_from, matches_at, replace_ws, str_views, tok, tokenize, views,
};
use crate::Os;

verus! {

/// The command word `cmd` stands at position `i` of `line` as a whole token:
/// followed by a space, and preceded by nothing, a blank, or a line break.
pub open spec fn cmd_token_at(line: Seq<char>, cmd: Seq<char>, i: int) -> bool {
    &&& matches_at(line, cmd, i)
    &&& i + cmd.len() < line.len()
    &&& line[i + cmd.len()] == ' '
    &&& (i == 0 || line[i - 1] == ' ' || line[i - 1] == '\t' || line[i - 1] == '\n')
}

/// The command word occurs somewhere in the line as a whole token.
pub open spec fn cmd_occurs(line: Seq<char>, cmd: Seq<char>) -> bool {
    exists|i: int| cmd_token_at(line, cmd, i)
}

/// Some command word of `pm`, under the conventions of `os`, occurs in the
/// line as a whole token.
pub open spec fn detected(pm: PackageManager, line: Seq<char>, os: Os) -> bool {
    exists|k: int|
        0 <= k < os_commands_spec(pm, os).len() && cmd_occurs(line, os_commands_spec(pm, os)[k])
}

/// The first detected manager is found exactly when some manager at or
/// after position `i` of the fixed order is detected.
pub proof fn lemma_first_detected_iff(line: Seq<char>, os: Os, i: int)
    requires
        0 <= i,
    ensures
        first_detected_from(line, os, i).is_some() <==> exists|k: int|
            i <= k < manager_list().len() && detected(#[trigger] manager_list()[k], line, os),
    decreases manager_list().len() - i,
{
    let list = manager_list();
    if i >= list.len() {
    } else if detected(list[i], line, os) {
    } else {
        lemma_first_detected_iff(line, os, i + 1);
    }
}

/// The first detected manager at or after position `i` of the fixed order.
pub open spec fn first_detected_from(line: Seq<char>, os: Os, i: int) -> Option<PackageManager>
    decreases manager_list().len() - i,
{
    if i < 0 || i >= manager_list().len() {
        None
    } else if detected(manager_list()[i], line, os) {
        Some(manager_list()[i])
    } else {
        first_detected_from(line, os, i + 1)
    }
}

/// Every detected manager at or after position `i`, in the fixed order.
pub open spec fn detected_from(line: Seq<char>, os: Os, i: int) -> Seq<PackageManager>
    decreases manager_list().len() - i,
{
    if i < 0 || i >= manager_list().len() {
        Seq::empty()
    } else if detected(manager_list()[i], line, os) {
        seq![manager_list()[i]] + detected_from(line, os, i + 1)
    } else {
        detected_from(line, os, i + 1)
    }
}

/// Whether a command word occurs in the line as a whole token.
pub fn line_contains_command(line: &str, cmd: &str) -> (r: bool)
    ensures
        r == cmd_occurs(line@, cmd@),
{
    let n = line.unicode_len();
    let m = cmd.unicode_len();
    if m >= n {
        proof {
            assert forall|i: int| !cmd_token_at(line@, cmd@, i) by {}
        }
        return false;
    }
    let limit = n - m;
    let mut i: usize = 0;
    while i < limit
        invariant
            i <= limit,
            limit == n - m,
            m < n,
            n == line@.len(),
            m == cmd@.len(),
            forall|j: int| j < i ==> !cmd_token_at(line@, cmd@, j),
        decreases limit - i,
    {
        let boundary_ok = if i == 0 {
            true
        } else {
            let p = line.get_char(i - 1);
            p == ' ' || p == '\t' || p == '\n'
        };
        if boundary_ok {
            if line.get_char(i + m) == ' ' {
                if crate::strutil::matches_at_exec(line, cmd, i) {
                    proof {
                        assert(cmd_token_at(line@, cmd@, i as int));
                    }
                    return true;
                }
            }
        }
        i += 1;
    }
    proof {
        assert forall|j: int| !cmd_token_at(line@, cmd@, j) by {
            if j >= i {
                assert(j + cmd@.len() >= line@.len());
            }
        }
    }
    false
}

impl PackageManager {
    /// Whether one of this manager's command words occurs in the line as a
    /// whole token, under the conventions of `os`.
    pub fn detects(self, line: &str, os: Os) -> (r: bool)
        ensures
            r == detected(self, line@, os),
    {
        let cmds = self.os_commands(os);
        let mut k: usize = 0;
        while k < cmds.len()
            invariant
                k <= cmds@.len(),
                views(cmds@) == os_commands_spec(self, os),
                forall|j: int| 0 <= j < k ==> !cmd_occurs(line@, views(cmds@)[j]),
            decreases cmds@.len() - k,
        {
            proof {
                assert(views(cmds@)[k as int] == cmds@[k as int]@);
            }
            if line_contains_command(line, cmds[k].as_str()) {
                return true;
            }
            k += 1;
        }
        false
    }

    /// Whether the line mentions any package manager at all: true exactly
    /// when some manager's command word stands in the line as a whole token.
    pub fn detects_line(line: &str) -> (r: bool)
        ensures
            r == exists|k: int|
                0 <= k < manager_list().len() && detected(
                    #[trigger] manager_list()[k],
                    line@,
                    Os::Posix,
                ),
    {
        proof {
            lemma_first_detected_iff(line@, Os::Posix, 0);
        }
        PackageManager::single_from_line(line).is_some()
    }

    /// The first package manager whose command word occurs in the line.
    pub fn single_from_line(line: &str) -> (r: Option<PackageManager>)
        ensures
            r == first_detected_from(line@, Os::Posix, 0),
    {
        PackageManager::single_from_line_on(line, Os::Posix)
    }

    /// The first package manager whose command word occurs in the line,
    /// under the conventions of `os`.
    pub fn single_from_line_on(line: &str, os: Os) -> (r: Option<PackageManager>)
        ensures
            r == first_detected_from(line@, os, 0),
    {
        let mgrs = crate::package_manager::all_managers();
        let mut i: usize = 0;
        while i < mgrs.len()
            invariant
                i <= mgrs@.len(),
                mgrs@ == manager_list(),
                first_detected_from(line@, os, 0) == first_detected_from(line@, os, i as int),
            decreases mgrs@.len() - i,
        {
            if mgrs[i].detects(line, os) {
                return Some(mgrs[i]);
            }
            i += 1;
        }
        None
    }

    /// Every package manager whose command word occurs in the line.
    pub fn from_line_iter(line: &str) -> (r: Vec<PackageManager>)
        ensures
            r@ == detected_from(line@, Os::Posix, 0),
    {
        PackageManager::from_line_iter_on(line, Os::Posix)
    }

    /// Every package manager whose command word occurs in the line, under
    /// the conventions of `os`.
    pub fn from_line_iter_on(line: &str, os: Os) -> (r: Vec<PackageManager>)
        ensures
            r@ == detected_from(line@, os, 0),
    {
        let mgrs = crate::package_manager::all_managers();
        let mut out: Vec<PackageManager> = Vec::new();
        let mut i: usize = 0;
        proof {
            assert(out@ + detected_from(line@, os, 0) =~= detected_from(line@, os, 0));
        }
        while i < mgrs.len()
            invariant
                i <= mgrs@.len(),
                mgrs@ == manager_list(),
                out@ + detected_from(line@, os, i as int) == detected_from(line@, os, 0),
            decreases mgrs@.len() - i,
        {
            if mgrs[i].detects(line, os) {
                let ghost pre = out@;
                out.push(mgrs[i]);
                proof {
                    assert(out@ + detected_from(line@, os, i + 1) =~= pre + (seq![
                        manager_list()[i as int],
                    ] + detected_from(line@, os, i + 1)));
                }
            }
            i += 1;
        }
        proof {
            assert(detected_from(line@, os, mgrs@.len() as int) =~= Seq::<PackageManager>::empty());
            assert(out@ + Seq::<PackageManager>::empty() =~= out@);
        }
        out
    }
}

} // verus!

// ---------------------------------------------------------------------------
// Extraction: sub-command removal and the argument walk
// ---------------------------------------------------------------------------

verus! {

/// The first capture flag whose flag word is `arg`.
pub open spec fn find_capture(caps: Seq<CaptureFlagV>, arg: Seq<char>) -> Option<CaptureFlagV>
    decreases caps.len(),
{
    if caps.len() == 0 {
        None
    } else if cf_flag(caps[0]) == arg {
        Some(caps[0])
    } else {
        find_capture(caps.skip(1), arg)
    }
}

/// What matching the flag token `t` against the capture flags does: the flag
/// string recorded, if any, and whether the following token is consumed.
pub open spec fn capture_step(pm: PackageManager, t: Seq<char>, next: Option<Seq<char>>) -> (
    Option<Seq<char>>,
    int,
) {
    match find_capture(capture_flags_spec(pm), t) {
        None => (None, 0),
        Some(c) => match c {
            CaptureFlagV::Single(f) => (Some(f), 0),
            CaptureFlagV::SetValue(f, v) => match next {
                Some(nx) => if nx == v {
                    (Some(f + seq![' '] + v), 1)
                } else {
                    (None, 0)
                },
                None => (None, 0),
            },
            CaptureFlagV::DynamicValue(f) => match next {
                Some(nx) => (Some(f + seq![' '] + nx), 1),
                None => (None, 0),
            },
        },
    }
}

/// Walk the argument tokens from position `i` with the flags captured so
/// far.  `None` means an invalidating flag was met; otherwise the result is
/// the package-name tokens from `i` on, and the flags captured by the end.
pub open spec fn walk(
    pm: PackageManager,
    toks: Seq<Seq<char>>,
    i: int,
    flags: Seq<Seq<char>>,
) -> Option<(Seq<Seq<char>>, Seq<Seq<char>>)>
    decreases toks.len() - i,
{
    if i >= toks.len() {
        Some((Seq::empty(), flags))
    } else {
        let t = toks[i];
        if invalidating_flags_spec(pm).contains(t) {
            None
        } else if t.len() > 0 && (t[0] == '-' || t[0] == '+') {
            let next = if i + 1 < toks.len() {
                Some(toks[i + 1])
            } else {
                None
            };
            let step = capture_step(pm, t, next);
            let flags2 = match step.0 {
                Some(f) => flags.push(f),
                None => flags,
            };
            let known_extra: int = if known_flags_spec(pm).contains(t) {
                1
            } else {
                0
            };
            let next_i = if i + 1 + step.1 + known_extra > toks.len() {
                toks.len() as int
            } else {
                i + 1 + step.1 + known_extra
            };
            walk(pm, toks, next_i, flags2)
        } else if t.len() > 0 && is_alphanumeric_char(t[0]) {
            match walk(pm, toks, i + 1, flags) {
                None => None,
                Some(r) => Some((seq![t] + r.0, r.1)),
            }
        } else {
            walk(pm, toks, i + 1, flags)
        }
    }
}

/// Prepend already-collected package names to a walk result.
pub open spec fn walk_prepend(
    pre: Seq<Seq<char>>,
    o: Option<(Seq<Seq<char>>, Seq<Seq<char>>)>,
) -> Option<(Seq<Seq<char>>, Seq<Seq<char>>)> {
    match o {
        None => None,
        Some(r) => Some((pre + r.0, r.1)),
    }
}

/// The packages built from name tokens, all sharing the same flags.
pub open spec fn mk_packages(
    pm: PackageManager,
    names: Seq<Seq<char>>,
    flags: Seq<Seq<char>>,
) -> Seq<PackageV> {
    names.map_values(|n: Seq<char>| PackageV { source: pm, name: n, flags: flags })
}

/// The packages extracted from the argument text that remains once the
/// command word and sub-command are removed.
pub open spec fn extract_args(pm: PackageManager, args: Seq<char>) -> Seq<PackageV> {
    match walk(pm, tok(args), 0, Seq::empty()) {
        None => Seq::empty(),
        Some(r) => mk_packages(pm, r.0, r.1),
    }
}

/// Remove the first sub-command found in `rest`: either `rest` starts with
/// the sub-command and a space, or the sub-command stands between spaces and
/// every such occurrence is replaced by one space.  `None` means no
/// sub-command of the list is present.
pub open spec fn strip_sub(rest: Seq<char>, subs: Seq<Seq<char>>) -> Option<Seq<char>>
    decreases subs.len(),
{
    if subs.len() == 0 {
        None
    } else {
        let sc = subs[0];
        if matches_at(rest, sc + seq![' '], 0) {
            Some(rest.skip(sc.len() as int + 1))
        } else if find_from(rest, seq![' '] + sc + seq![' '], 0).is_some() {
            Some(replace_ws(rest, seq![' '] + sc + seq![' ']))
        } else {
            strip_sub(rest, subs.skip(1))
        }
    }
}

/// The packages one command word of `pm` yields from the line: nothing
/// unless the word occurs as a whole token; otherwise everything after its
/// first occurrence is taken, a sub-command is removed, and the remaining
/// tokens are walked.
pub open spec fn catch_one(pm: PackageManager, line: Seq<char>, cmd: Seq<char>) -> Seq<PackageV> {
    if !cmd_occurs(line, cmd) {
        Seq::empty()
    } else {
        match find_from(line, cmd + seq![' '], 0) {
            None => Seq::empty(),
            Some(i) => {
                let rest = line.skip(i + cmd.len() as int + 1);
                match strip_sub(rest, sub_commands_spec(pm)) {
                    None => Seq::empty(),
                    Some(args) => extract_args(pm, args),
                }
            },
        }
    }
}

/// The packages all the command words of `cmds` yield, concatenated.
pub open spec fn catch_cmds(pm: PackageManager, line: Seq<char>, cmds: Seq<Seq<char>>) -> Seq<
    PackageV,
>
    decreases cmds.len(),
{
    if cmds.len() == 0 {
        Seq::empty()
    } else {
        catch_one(pm, line, cmds[0]) + catch_cmds(pm, line, cmds.skip(1))
    }
}

/// Everything `pm` extracts from the line under the conventions of `os`.
pub open spec fn catch_spec(pm: PackageManager, line: Seq<char>, os: Os) -> Seq<PackageV> {
    catch_cmds(pm, line, os_commands_spec(pm, os))
}

/// Whether the list holds a string with the same characters as `t`.
fn contains_str<'a>(v: &Vec<&'a str>, t: &str) -> (r: bool)
    ensures
        r == str_views(v@).contains(t@),
{
    let mut k: usize = 0;
    while k < v.len()
        invariant
            k <= v@.len(),
            forall|j: int| 0 <= j < k ==> str_views(v@)[j] != t@,
        decreases v@.len() - k,
    {
        proof {
            assert(str_views(v@)[k as int] == v@[k as int]@);
        }
        if crate::strutil::str_eq(v[k], t) {
            proof {
                assert(str_views(v@)[k as int] == t@);
            }
            return true;
        }
        k += 1;
    }
    proof {
        if str_views(v@).contains(t@) {
            let j = choose|j: int| 0 <= j < str_views(v@).len() && str_views(v@)[j] == t@;
            assert(str_views(v@)[j] != t@);
        }
    }
    false
}

/// The first capture flag of the list whose flag word is `t`.
fn find_capture_exec(caps: &Vec<CaptureFlag>, t: &str) -> (r: Option<CaptureFlag>)
    ensures
        match r {
            None => find_capture(cf_views(caps@), t@).is_none(),
            Some(c) => find_capture(cf_views(caps@), t@) == Some(cf_view(c)),
        },
{
    let mut k: usize = 0;
    proof {
        assert(cf_views(caps@).skip(0) =~= cf_views(caps@));
    }
    while k < caps.len()
        invariant
            k <= caps@.len(),
            find_capture(cf_views(caps@), t@) == find_capture(
                cf_views(caps@).skip(k as int),
                t@,
            ),
        decreases caps@.len() - k,
    {
        let ghost suf = cf_views(caps@).skip(k as int);
        proof {
            assert(suf[0] == cf_views(caps@)[k as int]);
            assert(cf_views(caps@)[k as int] == cf_view(caps@[k as int]));
            assert(suf.skip(1) =~= cf_views(caps@).skip(k + 1));
        }
        let c = caps[k];
        if crate::strutil::str_eq(c.flag(), t) {
            return Some(c);
        }
        k += 1;
    }
    proof {
        assert(cf_views(caps@).skip(caps@.len() as int) =~= Seq::<CaptureFlagV>::empty());
    }
    None
}

} // verus!

verus! {

impl PackageManager {
    /// Remove the first of this manager's sub-commands found in `rest`.
    fn strip_sub_command(self, rest: &str) -> (r: Option<String>)
        ensures
            match r {
                None => strip_sub(rest@, sub_commands_spec(self)).is_none(),
                Some(args) => strip_sub(rest@, sub_commands_spec(self)) == Some(args@),
            },
    {
        let subs = self.sub_commands();
        let mut k: usize = 0;
        proof {
            assert(str_views(subs@).skip(0) =~= str_views(subs@));
        }
        while k < subs.len()
            invariant
                k <= subs@.len(),
                str_views(subs@) == sub_commands_spec(self),
                strip_sub(rest@, sub_commands_spec(self)) == strip_sub(
                    rest@,
                    str_views(subs@).skip(k as int),
                ),
            decreases subs@.len() - k,
        {
            let ghost suf = str_views(subs@).skip(k as int);
            proof {
                assert(suf[0] == str_views(subs@)[k as int]);
                assert(str_views(subs@)[k as int] == subs@[k as int]@);
                assert(suf.skip(1) =~= str_views(subs@).skip(k + 1));
            }
            let sc: &str = subs[k];
            let mut pat1 = sc.to_owned();
            pat1.append(" ");
            proof {
                reveal_strlit(" ");
                assert(" "@ =~= seq![' ']);
                assert(pat1@ == sc@ + seq![' ']);
            }
            if crate::strutil::starts_with_pat(rest, pat1.as_str()) {
                let n = rest.unicode_len();
                let cut = sc.unicode_len() + 1;
                let args = rest.substring_char(cut, n).to_owned();
                proof {
                    assert(args@ =~= rest@.skip(sc@.len() as int + 1));
                }
                return Some(args);
            }
            let mut pat2 = " ".to_owned();
            pat2.append(sc);
            pat2.append(" ");
            proof {
                reveal_strlit(" ");
                assert(" "@ =~= seq![' ']);
                assert(pat2@ == seq![' '] + sc@ + seq![' ']);
            }
            let found = crate::strutil::find_pat(rest, pat2.as_str());
            if found.is_some() {
                let args = crate::strutil::replace_with_space(rest, pat2.as_str());
                return Some(args);
            }
            k += 1;
        }
        proof {
            assert(str_views(subs@).skip(subs@.len() as int) =~= Seq::<Seq<char>>::empty());
        }
        None
    }

    /// Walk the argument tokens, collecting flags and package names.
    fn extract_packages(self, args: &str) -> (r: Vec<Package>)
        ensures
            pkg_views(r@) == extract_args(self, args@),
    {
        let toks = tokenize(args);
        let inv_flags = self.invalidating_flags();
        let known = self.known_flags_with_values();
        let caps = self.capture_flags();
        let mut names: Vec<String> = Vec::new();
        let mut flags: Vec<String> = Vec::new();
        let mut i: usize = 0;
        let ghost t0 = tok(args@);
        proof {
            crate::strutil::lemma_tok_nonempty(args@);
            assert(views(names@) =~= Seq::<Seq<char>>::empty());
            assert(views(flags@) =~= Seq::<Seq<char>>::empty());
            assert(walk_prepend(views(names@), walk(self, t0, 0, views(flags@))) == walk(
                self,
                t0,
                0,
                Seq::empty(),
            ));
        }
        while i < toks.len()
            invariant
                i <= toks@.len(),
                views(toks@) == t0,
                t0 == tok(args@),
                str_views(inv_flags@) == invalidating_flags_spec(self),
                str_views(known@) == known_flags_spec(self),
                cf_views(caps@) == capture_flags_spec(self),
                forall|k: int| 0 <= k < t0.len() ==> t0[k].len() > 0,
                walk(self, t0, 0, Seq::empty()) == walk_prepend(
                    views(names@),
                    walk(self, t0, i as int, views(flags@)),
                ),
            decreases toks@.len() - i,
        {
            let ghost t = t0[i as int];
            proof {
                assert(views(toks@)[i as int] == toks@[i as int]@);
                assert(t.len() > 0);
            }
            if contains_str(&inv_flags, toks[i].as_str()) {
                proof {
                    assert(walk(self, t0, i as int, views(flags@)).is_none());
                    assert(extract_args(self, args@) =~= Seq::<PackageV>::empty());
                }
                let empty_out: Vec<Package> = Vec::new();
                proof {
                    assert(pkg_views(empty_out@) =~= Seq::<PackageV>::empty());
                }
                return empty_out;
            }
            let c0 = toks[i].as_str().get_char(0);
            if c0 == '-' || c0 == '+' {
                let ghost flags_before = views(flags@);
                let ghost next_spec = if i + 1 < t0.len() {
                    Some(t0[i as int + 1])
                } else {
                    None
                };
                let ghost step_spec = capture_step(self, t, next_spec);
                let mut consumed: usize = 0;
                match find_capture_exec(&caps, toks[i].as_str()) {
                    None => {
                        proof {
                            assert(step_spec == (None::<Seq<char>>, 0int));
                        }
                    },
                    Some(cf) => {
                        match cf {
                            CaptureFlag::Single(f) => {
                                let ghost pre = views(flags@);
                                flags.push(f.to_owned());
                                proof {
                                    assert(views(flags@) =~= pre.push(f@));
                                }
                            },
                            CaptureFlag::SetValue(f, v) => {
                                if i + 1 < toks.len() {
                                    proof {
                                        assert(views(toks@)[i as int + 1] == toks@[i as int
                                            + 1]@);
                                    }
                                    if crate::strutil::str_eq(toks[i + 1].as_str(), v) {
                                        let mut s = f.to_owned();
                                        s.append(" ");
                                        s.append(v);
                                        let ghost pre = views(flags@);
                                        flags.push(s);
                                        consumed = 1;
                                        proof {
                                            reveal_strlit(" ");
                                            assert(" "@ =~= seq![' ']);
                                            assert(views(flags@) =~= pre.push(
                                                f@ + seq![' '] + v@,
                                            ));
                                        }
                                    }
                                }
                            },
                            CaptureFlag::DynamicValue(f) => {
                                if i + 1 < toks.len() {
                                    proof {
                                        assert(views(toks@)[i as int + 1] == toks@[i as int
                                            + 1]@);
                                    }
                                    let mut s = f.to_owned();
                                    s.append(" ");
                                    s.append(toks[i + 1].as_str());
                                    let ghost pre = views(flags@);
                                    flags.push(s);
                                    consumed = 1;
                                    proof {
                                        reveal_strlit(" ");
                                        assert(" "@ =~= seq![' ']);
                                        assert(views(flags@) =~= pre.push(
                                            f@ + seq![' '] + t0[i as int + 1],
                                        ));
                                    }
                                }
                            },
                        }
                    },
                }
                let known_extra: usize = if contains_str(&known, toks[i].as_str()) {
                    1
                } else {
                    0
                };
                proof {
                    let flags2 = match step_spec.0 {
                        Some(f) => flags_before.push(f),
                        None => flags_before,
                    };
                    assert(views(flags@) == flags2);
                    assert(consumed as int == step_spec.1);
                    assert(walk(self, t0, i as int, flags_before) == walk(
                        self,
                        t0,
                        if i + 1 + step_spec.1 + (if known_flags_spec(self).contains(t) {
                            1int
                        } else {
                            0int
                        }) > t0.len() {
                            t0.len() as int
                        } else {
                            i + 1 + step_spec.1 + (if known_flags_spec(self).contains(t) {
                                1int
                            } else {
                                0int
                            })
                        },
                        flags2,
                    ));
                }
                let step = 1 + consumed + known_extra;
                if step > toks.len() - i {
                    i = toks.len();
                } else {
                    i = i + step;
                }
            } else if c0.is_alphanumeric() {
                let ghost pre_names = views(names@);
                names.push(toks[i].clone());
                proof {
                    assert(views(names@) =~= pre_names.push(t));
                    let w1 = walk(self, t0, i as int + 1, views(flags@));
                    assert(walk(self, t0, i as int, views(flags@)) == match w1 {
                        None => None::<(Seq<Seq<char>>, Seq<Seq<char>>)>,
                        Some(r) => Some((seq![t] + r.0, r.1)),
                    });
                    match w1 {
                        None => {},
                        Some(r) => {
                            assert(pre_names + (seq![t] + r.0) =~= pre_names.push(t) + r.0);
                        },
                    }
                }
                i += 1;
            } else {
                i += 1;
            }
        }
        proof {
            assert(walk(self, t0, i as int, views(flags@)) == Some(
                (Seq::<Seq<char>>::empty(), views(flags@)),
            ));
            assert(views(names@) + Seq::<Seq<char>>::empty() =~= views(names@));
            assert(walk(self, t0, 0, Seq::empty()) == Some((views(names@), views(flags@))));
        }
        let mut out: Vec<Package> = Vec::new();
        let mut j: usize = 0;
        proof {
            assert(pkg_views(out@) =~= mk_packages(self, views(names@).take(0), views(flags@)));
        }
        while j < names.len()
            invariant
                j <= names@.len(),
                walk(self, t0, 0, Seq::empty()) == Some((views(names@), views(flags@))),
                t0 == tok(args@),
                pkg_views(out@) == mk_packages(self, views(names@).take(j as int), views(flags@)),
            decreases names@.len() - j,
        {
            let p = Package::new(self, names[j].clone(), crate::package::clone_strings(&flags));
            let ghost pre = pkg_views(out@);
            proof {
                assert(views(names@)[j as int] == names@[j as int]@);
            }
            out.push(p);
            proof {
                assert(pkg_views(out@) =~= pre.push(
                    PackageV { source: self, name: views(names@)[j as int], flags: views(flags@) },
                ));
                assert(pkg_views(out@) =~= mk_packages(
                    self,
                    views(names@).take(j as int + 1),
                    views(flags@),
                ));
            }
            j += 1;
        }
        proof {
            assert(views(names@).take(names@.len() as int) =~= views(names@));
        }
        out
    }

    /// The packages that one command word yields from the line.
    fn catch_command(self, line: &str, cmd: &str) -> (r: Vec<Package>)
        ensures
            pkg_views(r@) == catch_one(self, line@, cmd@),
    {
        if !line_contains_command(line, cmd) {
            let out: Vec<Package> = Vec::new();
            proof {
                assert(pkg_views(out@) =~= Seq::<PackageV>::empty());
            }
            return out;
        }
        let mut pat = cmd.to_owned();
        pat.append(" ");
        proof {
            reveal_strlit(" ");
            assert(" "@ =~= seq![' ']);
            assert(pat@ == cmd@ + seq![' ']);
        }
        match crate::strutil::after_first(line, pat.as_str()) {
            None => {
                let out: Vec<Package> = Vec::new();
                proof {
                    assert(pkg_views(out@) =~= Seq::<PackageV>::empty());
                }
                out
            },
            Some(rest) => {
                proof {
                    assert(rest@ == line@.skip(
                        find_from(line@, cmd@ + seq![' '], 0).unwrap() + cmd@.len() as int + 1,
                    ));
                }
                match self.strip_sub_command(rest) {
                    None => {
                        let out: Vec<Package> = Vec::new();
                        proof {
                            assert(pkg_views(out@) =~= Seq::<PackageV>::empty());
                        }
                        out
                    },
                    Some(args) => self.extract_packages(args.as_str()),
                }
            },
        }
    }

    /// Extract the packages from the line, under the conventions of `os`.
    pub fn catch_on(self, line: &str, os: Os) -> (r: Vec<Package>)
        ensures
            pkg_views(r@) == catch_spec(self, line@, os),
    {
        let cmds = self.os_commands(os);
        let mut out: Vec<Package> = Vec::new();
        let mut i: usize = 0;
        proof {
            assert(views(cmds@).skip(0) =~= views(cmds@));
            assert(pkg_views(out@) =~= Seq::<PackageV>::empty());
        }
        while i < cmds.len()
            invariant
                i <= cmds@.len(),
                views(cmds@) == os_commands_spec(self, os),
                pkg_views(out@) + catch_cmds(self, line@, views(cmds@).skip(i as int))
                    == catch_spec(self, line@, os),
            decreases cmds@.len() - i,
        {
            let ghost suf = views(cmds@).skip(i as int);
            proof {
                assert(suf[0] == views(cmds@)[i as int]);
                assert(views(cmds@)[i as int] == cmds@[i as int]@);
                assert(suf.skip(1) =~= views(cmds@).skip(i + 1));
            }
            let mut part = self.catch_command(line, cmds[i].as_str());
            let ghost pre = pkg_views(out@);
            let ghost partv = pkg_views(part@);
            out.append(&mut part);
            proof {
                assert(pkg_views(out@) =~= pre + partv);
                assert((pre + partv) + catch_cmds(self, line@, views(cmds@).skip(i + 1)) =~= pre
                    + (partv + catch_cmds(self, line@, views(cmds@).skip(i + 1))));
            }
            i += 1;
        }
        proof {
            assert(views(cmds@).skip(cmds@.len() as int) =~= Seq::<Seq<char>>::empty());
            assert(pkg_views(out@) + Seq::<PackageV>::empty() =~= pkg_views(out@));
        }
        out
    }

    /// Extract the packages from the line.
    pub fn catch(self, line: &str) -> (r: Vec<Package>)
        ensures
            pkg_views(r@) == catch_spec(self, line@, Os::Posix),
    {
        self.catch_on(line, Os::Posix)
    }
}

} // verus!
