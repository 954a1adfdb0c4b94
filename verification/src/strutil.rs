//! Verified utilities over character sequences: pattern search, whitespace
//! tokenization, joining, lexicographic order and decimal rendering.
//!
//! Strings are modelled by their views, sequences of characters; every
//! function here states its result over those views.

use vstd::prelude::*;
use vstd::string::StrSliceExecFns;

verus! {

/// The pattern `pat` stands at position `i` of `s`.
pub open spec fn matches_at(s: Seq<char>, pat: Seq<char>, i: int) -> bool {
    0 <= i && i + pat.len() <= s.len() && s.subrange(i, i + pat.len()) == pat
}

/// The first position at or after `from` where `pat` stands in `s`.
pub open spec fn find_from(s: Seq<char>, pat: Seq<char>, from: int) -> Option<int>
    decreases s.len() - from,
{
    if from < 0 || from + pat.len() > s.len() {
        None
    } else if pat.len() == 0 {
        Some(from)
    } else if matches_at(s, pat, from) {
        Some(from)
    } else {
        find_from(s, pat, from + 1)
    }
}

pub proof fn lemma_find_from_props(s: Seq<char>, pat: Seq<char>, from: int)
    requires
        0 <= from,
    ensures
        match find_from(s, pat, from) {
            Some(i) => matches_at(s, pat, i) && from <= i
                && forall|j: int| from <= j < i ==> !matches_at(s, pat, j),
            None => forall|j: int| from <= j ==> !matches_at(s, pat, j),
        },
    decreases s.len() - from,
{
    if from + pat.len() > s.len() {
        assert forall|j: int| from <= j implies !matches_at(s, pat, j) by {}
    } else if pat.len() == 0 {
        assert(s.subrange(from, from) =~= pat);
    } else if matches_at(s, pat, from) {
    } else {
        lemma_find_from_props(s, pat, from + 1);
    }
}

/// Compare two strings character by character.
pub fn str_eq(a: &str, b: &str) -> (r: bool)
    ensures
        r == (a@ == b@),
{
    let na = a.unicode_len();
    let nb = b.unicode_len();
    if na != nb {
        proof {
            assert(a@ != b@) by {
                if a@ == b@ {
                    assert(a@.len() == b@.len());
                }
            }
        }
        return false;
    }
    let mut i: usize = 0;
    while i < na
        invariant
            i <= na,
            na == a@.len(),
            na == b@.len(),
            forall|j: int| 0 <= j < i ==> a@[j] == b@[j],
        decreases na - i,
    {
        if a.get_char(i) != b.get_char(i) {
            return false;
        }
        i += 1;
    }
    proof {
        assert(a@ =~= b@);
    }
    true
}

/// Whether `pat` stands at position `i` of `s`.
pub fn matches_at_exec(s: &str, pat: &str, i: usize) -> (r: bool)
    requires
        i + pat@.len() <= s@.len(),
    ensures
        r == matches_at(s@, pat@, i as int),
{
    let n = s.unicode_len();
    let m = pat.unicode_len();
    let mut j: usize = 0;
    while j < m
        invariant
            j <= m,
            m == pat@.len(),
            n == s@.len(),
            i + m <= s@.len(),
            forall|k: int| 0 <= k < j ==> s@[i + k] == pat@[k],
        decreases m - j,
    {
        if s.get_char(i + j) != pat.get_char(j) {
            proof {
                assert(s@.subrange(i as int, i + pat@.len())[j as int] == s@[i + j]);
            }
            return false;
        }
        j += 1;
    }
    proof {
        assert(s@.subrange(i as int, i + pat@.len()) =~= pat@);
    }
    true
}

/// Whether `s` starts with `pat`.
pub fn starts_with_pat(s: &str, pat: &str) -> (r: bool)
    ensures
        r == matches_at(s@, pat@, 0),
{
    let n = s.unicode_len();
    let m = pat.unicode_len();
    if m > n {
        return false;
    }
    matches_at_exec(s, pat, 0)
}

/// The first position where `pat` stands in `s`.
pub fn find_pat(s: &str, pat: &str) -> (r: Option<usize>)
    ensures
        match r {
            Some(i) => find_from(s@, pat@, 0) == Some(i as int),
            None => find_from(s@, pat@, 0).is_none(),
        },
{
    let n = s.unicode_len();
    let m = pat.unicode_len();
    if m > n {
        return None;
    }
    if m == 0 {
        return Some(0);
    }
    let limit = n - m;
    let mut i: usize = 0;
    loop
        invariant
            i <= limit + 1,
            limit == n - m,
            m <= n,
            1 <= m,
            n == s@.len(),
            m == pat@.len(),
            find_from(s@, pat@, 0) == find_from(s@, pat@, i as int),
        decreases limit + 1 - i,
    {
        if i > limit {
            return None;
        }
        if matches_at_exec(s, pat, i) {
            return Some(i);
        }
        i += 1;
    }
}

/// Everything after the first occurrence of `pat` in `s`, if `pat` occurs.
pub fn after_first<'a>(s: &'a str, pat: &str) -> (r: Option<&'a str>)
    ensures
        match r {
            Some(rest) => exists|i: int|
                find_from(s@, pat@, 0) == Some(i) && rest@ == s@.skip(i + pat@.len()),
            None => find_from(s@, pat@, 0).is_none(),
        },
{
    match find_pat(s, pat) {
        None => None,
        Some(i) => {
            proof {
                lemma_find_from_props(s@, pat@, 0);
            }
            let n = s.unicode_len();
            let rest = s.substring_char(i + pat.unicode_len(), n);
            proof {
                assert(rest@ =~= s@.skip(i + pat@.len()));
            }
            Some(rest)
        },
    }
}

} // verus!

// ---------------------------------------------------------------------------
// Whitespace tokenization
// ---------------------------------------------------------------------------

verus! {

/// The views of a sequence of strings.
pub open spec fn views(v: Seq<String>) -> Seq<Seq<char>> {
    v.map_values(|x: String| x@)
}

/// The position of the first whitespace character of `s`, or its length.
pub open spec fn first_ws(s: Seq<char>) -> int
    decreases s.len(),
{
    if s.len() == 0 {
        0
    } else if crate::chars::is_ascii_ws(s[0]) {
        0
    } else {
        1 + first_ws(s.skip(1))
    }
}

pub proof fn lemma_first_ws_bounds(s: Seq<char>)
    ensures
        0 <= first_ws(s) <= s.len(),
        forall|k: int| 0 <= k < first_ws(s) ==> !crate::chars::is_ascii_ws(s[k]),
        first_ws(s) < s.len() ==> crate::chars::is_ascii_ws(s[first_ws(s)]),
    decreases s.len(),
{
    if s.len() > 0 && !crate::chars::is_ascii_ws(s[0]) {
        lemma_first_ws_bounds(s.skip(1));
        assert forall|k: int| 0 <= k < first_ws(s) implies !crate::chars::is_ascii_ws(s[k]) by {
            if k > 0 {
                assert(s.skip(1)[k - 1] == s[k]);
            }
        }
        if first_ws(s) < s.len() {
            assert(s.skip(1)[first_ws(s) - 1] == s[first_ws(s)]);
        }
    }
}

/// `first_ws` is pinned down by its defining properties.
pub proof fn lemma_first_ws_at(s: Seq<char>, j: int)
    requires
        0 <= j <= s.len(),
        forall|k: int| 0 <= k < j ==> !crate::chars::is_ascii_ws(s[k]),
        j < s.len() ==> crate::chars::is_ascii_ws(s[j]),
    ensures
        first_ws(s) == j,
    decreases j,
{
    if j == 0 {
    } else {
        assert(!crate::chars::is_ascii_ws(s[0]));
        lemma_first_ws_at(s.skip(1), j - 1);
    }
}

/// The whitespace-separated tokens of `s`, in order.  Tokens are maximal
/// runs of non-whitespace characters; they are never empty.
pub open spec fn tok(s: Seq<char>) -> Seq<Seq<char>>
    decreases s.len(),
    via tok_dec
{
    if s.len() == 0 {
        Seq::empty()
    } else if crate::chars::is_ascii_ws(s[0]) {
        tok(s.skip(1))
    } else {
        seq![s.take(first_ws(s))] + tok(s.skip(first_ws(s)))
    }
}

#[via_fn]
proof fn tok_dec(s: Seq<char>) {
    if s.len() > 0 && !crate::chars::is_ascii_ws(s[0]) {
        lemma_first_ws_bounds(s);
    }
}

/// The end of the token that starts at `start`: the next whitespace
/// position, or the end of the string.
fn scan_token_end(s: &str, start: usize, n: usize) -> (j: usize)
    requires
        n == s@.len(),
        start <= n,
    ensures
        start <= j <= n,
        forall|k: int| start <= k < j ==> !crate::chars::is_ascii_ws(s@[k]),
        j < n ==> crate::chars::is_ascii_ws(s@[j as int]),
{
    let mut j = start;
    while j < n
        invariant
            start <= j <= n,
            n == s@.len(),
            forall|k: int| start <= k < j ==> !crate::chars::is_ascii_ws(s@[k]),
        decreases n - j,
    {
        if crate::chars::ascii_ws(s.get_char(j)) {
            return j;
        }
        j += 1;
    }
    j
}

/// Split a string into its whitespace-separated tokens.
pub fn tokenize(s: &str) -> (r: Vec<String>)
    ensures
        views(r@) == tok(s@),
{
    let n = s.unicode_len();
    let mut out: Vec<String> = Vec::new();
    let mut i: usize = 0;
    proof {
        assert(s@.skip(0) =~= s@);
        assert(views(out@) =~= Seq::<Seq<char>>::empty());
        assert(views(out@) + tok(s@) =~= tok(s@));
    }
    while i < n
        invariant
            i <= n,
            n == s@.len(),
            tok(s@) == views(out@) + tok(s@.skip(i as int)),
        decreases n - i,
    {
        let c = s.get_char(i);
        if crate::chars::ascii_ws(c) {
            proof {
                assert(s@.skip(i as int).skip(1) =~= s@.skip(i + 1));
            }
            i += 1;
        } else {
            let start = i;
            let j = scan_token_end(s, start + 1, n);
            let token = s.substring_char(start, j).to_owned();
            proof {
                let suf = s@.skip(start as int);
                assert forall|k: int| 0 <= k < j - start implies !crate::chars::is_ascii_ws(
                    suf[k],
                ) by {
                    assert(suf[k] == s@[start + k]);
                }
                if j < n {
                    assert(crate::chars::is_ascii_ws(suf[j - start]));
                }
                lemma_first_ws_at(suf, j - start);
                assert(suf.take(j - start) =~= token@);
                assert(suf.skip(j - start) =~= s@.skip(j as int));
                assert(views(out@.push(token)) =~= views(out@).push(token@));
                assert(views(out@) + tok(s@.skip(start as int)) =~= views(out@.push(token))
                    + tok(s@.skip(j as int)));
            }
            out.push(token);
            i = j;
        }
    }
    proof {
        assert(tok(s@.skip(n as int)) =~= Seq::<Seq<char>>::empty());
        assert(views(out@) + Seq::<Seq<char>>::empty() =~= views(out@));
    }
    out
}

} // verus!

// ---------------------------------------------------------------------------
// Joining, replacement, order, decimal rendering
// ---------------------------------------------------------------------------

verus! {

/// The parts joined with single spaces.
pub open spec fn join_sp(parts: Seq<Seq<char>>) -> Seq<char>
    decreases parts.len(),
{
    if parts.len() == 0 {
        Seq::empty()
    } else if parts.len() == 1 {
        parts[0]
    } else {
        parts[0] + seq![' '] + join_sp(parts.skip(1))
    }
}

/// Join the strings of `v`, starting at index `i`, with single spaces.
pub fn join_space_from(v: &Vec<String>, i: usize) -> (r: String)
    requires
        i <= v@.len(),
    ensures
        r@ == join_sp(views(v@).skip(i as int)),
    decreases v@.len() - i,
{
    if i == v.len() {
        let r = String::new();
        proof {
            assert(views(v@).skip(i as int) =~= Seq::<Seq<char>>::empty());
        }
        r
    } else if i + 1 == v.len() {
        let r = v[i].clone();
        proof {
            assert(views(v@).skip(i as int).len() == 1);
            assert(views(v@).skip(i as int)[0] == v@[i as int]@);
        }
        r
    } else {
        let mut r = v[i].clone();
        r.append(" ");
        let rest = join_space_from(v, i + 1);
        r.append(rest.as_str());
        proof {
            reveal_strlit(" ");
            let parts = views(v@).skip(i as int);
            assert(parts[0] == v@[i as int]@);
            assert(parts.skip(1) =~= views(v@).skip(i + 1));
            assert(" "@ =~= seq![' ']);
            assert(r@ == parts[0] + seq![' '] + join_sp(parts.skip(1)));
        }
        r
    }
}

/// Join the strings of `v` with single spaces.
pub fn join_space(v: &Vec<String>) -> (r: String)
    ensures
        r@ == join_sp(views(v@)),
{
    let r = join_space_from(v, 0);
    proof {
        assert(views(v@).skip(0) =~= views(v@));
    }
    r
}

/// `s` with every occurrence of `pat` replaced by one space, scanning left
/// to right without overlap.
pub open spec fn replace_ws(s: Seq<char>, pat: Seq<char>) -> Seq<char>
    decreases s.len(),
    via replace_ws_dec
{
    if pat.len() == 0 {
        s
    } else {
        match find_from(s, pat, 0) {
            None => s,
            Some(i) => s.take(i) + seq![' '] + replace_ws(s.skip(i + pat.len()), pat),
        }
    }
}

#[via_fn]
proof fn replace_ws_dec(s: Seq<char>, pat: Seq<char>) {
    if pat.len() > 0 {
        lemma_find_from_props(s, pat, 0);
    }
}

/// Replace every occurrence of `pat` in `s` by one space.
pub fn replace_with_space(s: &str, pat: &str) -> (r: String)
    requires
        pat@.len() >= 1,
    ensures
        r@ == replace_ws(s@, pat@),
{
    let mut out = String::new();
    let mut rem: &str = s;
    proof {
        assert(out@ + replace_ws(rem@, pat@) =~= replace_ws(s@, pat@));
    }
    loop
        invariant
            pat@.len() >= 1,
            out@ + replace_ws(rem@, pat@) == replace_ws(s@, pat@),
        decreases rem@.len(),
    {
        match find_pat(rem, pat) {
            None => {
                out.append(rem);
                return out;
            },
            Some(i) => {
                proof {
                    lemma_find_from_props(rem@, pat@, 0);
                }
                let ghost old_rem = rem@;
                let ghost old_out = out@;
                let n = rem.unicode_len();
                let pre = rem.substring_char(0, i);
                out.append(pre);
                out.append(" ");
                rem = rem.substring_char(i + pat.unicode_len(), n);
                proof {
                    reveal_strlit(" ");
                    assert(" "@ =~= seq![' ']);
                    assert(pre@ =~= old_rem.take(i as int));
                    assert(rem@ =~= old_rem.skip(i + pat@.len()));
                    assert(out@ + replace_ws(rem@, pat@) =~= old_out + replace_ws(
                        old_rem,
                        pat@,
                    ));
                }
            },
        }
    }
}

/// Lexicographic order on character sequences, by code point.
pub open spec fn lex_le(a: Seq<char>, b: Seq<char>) -> bool
    decreases a.len(),
{
    if a.len() == 0 {
        true
    } else if b.len() == 0 {
        false
    } else if (a[0] as u32) < (b[0] as u32) {
        true
    } else if (a[0] as u32) > (b[0] as u32) {
        false
    } else {
        lex_le(a.skip(1), b.skip(1))
    }
}

/// Two characters with the same code point are the same character.
pub proof fn lemma_char_eq(a: char, b: char)
    requires
        a as u32 == b as u32,
    ensures
        a == b,
{
    vstd::utf8::char_u32_cast(a, a as u32);
    vstd::utf8::char_u32_cast(b, b as u32);
}

/// The order is total.
pub proof fn lemma_lex_total(a: Seq<char>, b: Seq<char>)
    ensures
        lex_le(a, b) || lex_le(b, a),
    decreases a.len(),
{
    if a.len() > 0 && b.len() > 0 && (a[0] as u32) == (b[0] as u32) {
        lemma_lex_total(a.skip(1), b.skip(1));
    }
}

/// The order is transitive.
pub proof fn lemma_lex_trans(a: Seq<char>, b: Seq<char>, c: Seq<char>)
    requires
        lex_le(a, b),
        lex_le(b, c),
    ensures
        lex_le(a, c),
    decreases a.len(),
{
    if a.len() > 0 && b.len() > 0 && c.len() > 0 && (a[0] as u32) == (b[0] as u32) && (b[0]
        as u32) == (c[0] as u32) {
        lemma_lex_trans(a.skip(1), b.skip(1), c.skip(1));
    }
}

/// The order is antisymmetric.
pub proof fn lemma_lex_antisym(a: Seq<char>, b: Seq<char>)
    requires
        lex_le(a, b),
        lex_le(b, a),
    ensures
        a == b,
    decreases a.len(),
{
    if a.len() == 0 {
        assert(b.len() == 0);
        assert(a =~= b);
    } else {
        assert(b.len() > 0);
        assert((a[0] as u32) == (b[0] as u32));
        lemma_char_eq(a[0], b[0]);
        lemma_lex_antisym(a.skip(1), b.skip(1));
        assert(a =~= seq![a[0]] + a.skip(1));
        assert(b =~= seq![b[0]] + b.skip(1));
    }
}

/// Compare two strings in lexicographic order.
pub fn lex_le_exec(a: &str, b: &str) -> (r: bool)
    ensures
        r == lex_le(a@, b@),
{
    let na = a.unicode_len();
    let nb = b.unicode_len();
    let mut i: usize = 0;
    proof {
        assert(a@.skip(0) =~= a@);
        assert(b@.skip(0) =~= b@);
    }
    loop
        invariant
            i <= na,
            i <= nb,
            na == a@.len(),
            nb == b@.len(),
            lex_le(a@, b@) == lex_le(a@.skip(i as int), b@.skip(i as int)),
        decreases na - i,
    {
        if i == na {
            return true;
        }
        if i == nb {
            return false;
        }
        let ca = a.get_char(i);
        let cb = b.get_char(i);
        if (ca as u32) < (cb as u32) {
            return true;
        }
        if (ca as u32) > (cb as u32) {
            return false;
        }
        proof {
            assert(a@.skip(i as int).skip(1) =~= a@.skip(i + 1));
            assert(b@.skip(i as int).skip(1) =~= b@.skip(i + 1));
        }
        i += 1;
    }
}

/// The decimal digit for `d`.
pub open spec fn dec_digit(d: int) -> char {
    if d == 0 {
        '0'
    } else if d == 1 {
        '1'
    } else if d == 2 {
        '2'
    } else if d == 3 {
        '3'
    } else if d == 4 {
        '4'
    } else if d == 5 {
        '5'
    } else if d == 6 {
        '6'
    } else if d == 7 {
        '7'
    } else if d == 8 {
        '8'
    } else {
        '9'
    }
}

/// The decimal rendering of a non-negative number.
pub open spec fn dec_str(n: int) -> Seq<char>
    decreases n,
{
    if n < 10 {
        seq![dec_digit(n)]
    } else {
        dec_str(n / 10) + seq![dec_digit(n % 10)]
    }
}

fn digit_str(d: usize) -> (r: &'static str)
    requires
        d < 10,
    ensures
        r@ == seq![dec_digit(d as int)],
{
    proof {
        reveal_strlit("0");
        reveal_strlit("1");
        reveal_strlit("2");
        reveal_strlit("3");
        reveal_strlit("4");
        reveal_strlit("5");
        reveal_strlit("6");
        reveal_strlit("7");
        reveal_strlit("8");
        reveal_strlit("9");
        assert("0"@ =~= seq!['0']);
        assert("1"@ =~= seq!['1']);
        assert("2"@ =~= seq!['2']);
        assert("3"@ =~= seq!['3']);
        assert("4"@ =~= seq!['4']);
        assert("5"@ =~= seq!['5']);
        assert("6"@ =~= seq!['6']);
        assert("7"@ =~= seq!['7']);
        assert("8"@ =~= seq!['8']);
        assert("9"@ =~= seq!['9']);
    }
    if d == 0 {
        "0"
    } else if d == 1 {
        "1"
    } else if d == 2 {
        "2"
    } else if d == 3 {
        "3"
    } else if d == 4 {
        "4"
    } else if d == 5 {
        "5"
    } else if d == 6 {
        "6"
    } else if d == 7 {
        "7"
    } else if d == 8 {
        "8"
    } else {
        "9"
    }
}

/// Render a number in decimal.
pub fn decimal_of(n: usize) -> (r: String)
    ensures
        r@ == dec_str(n as int),
    decreases n,
{
    if n < 10 {
        digit_str(n).to_owned()
    } else {
        let mut r = decimal_of(n / 10);
        r.append(digit_str(n % 10));
        r
    }
}

} // verus!

verus! {

/// The views of a sequence of string slices.
pub open spec fn str_views(v: Seq<&str>) -> Seq<Seq<char>> {
    v.map_values(|s: &str| s@)
}

} // verus!

verus! {

/// Tokens are never empty.
pub proof fn lemma_tok_nonempty(s: Seq<char>)
    ensures
        forall|k: int| 0 <= k < tok(s).len() ==> tok(s)[k].len() > 0,
    decreases s.len(),
{
    if s.len() == 0 {
    } else if crate::chars::is_ascii_ws(s[0]) {
        lemma_tok_nonempty(s.skip(1));
        assert(tok(s) == tok(s.skip(1)));
        assert forall|k: int| 0 <= k < tok(s).len() implies tok(s)[k].len() > 0 by {
            assert(tok(s)[k] == tok(s.skip(1))[k]);
        }
    } else {
        lemma_first_ws_bounds(s);
        lemma_first_ws_bounds(s.skip(1));
        assert(first_ws(s) == 1 + first_ws(s.skip(1)));
        assert(first_ws(s) >= 1);
        lemma_tok_nonempty(s.skip(first_ws(s)));
        assert(tok(s) == seq![s.take(first_ws(s))] + tok(s.skip(first_ws(s))));
        assert forall|k: int| 0 <= k < tok(s).len() implies tok(s)[k].len() > 0 by {
            if k == 0 {
                assert(tok(s)[0] == s.take(first_ws(s)));
                assert(s.take(first_ws(s)).len() == first_ws(s));
            } else {
                assert(tok(s)[k] == tok(s.skip(first_ws(s)))[k - 1]);
            }
        }
    }
}

} // verus!

// ---------------------------------------------------------------------------
// Splitting on statement separators
// ---------------------------------------------------------------------------

verus! {

/// The position of the first statement separator of `s`, or its length.
pub open spec fn first_sep(s: Seq<char>) -> int
    decreases s.len(),
{
    if s.len() == 0 {
        0
    } else if crate::chars::is_statement_sep(s[0]) {
        0
    } else {
        1 + first_sep(s.skip(1))
    }
}

pub proof fn lemma_first_sep_bounds(s: Seq<char>)
    ensures
        0 <= first_sep(s) <= s.len(),
        forall|k: int| 0 <= k < first_sep(s) ==> !crate::chars::is_statement_sep(s[k]),
        first_sep(s) < s.len() ==> crate::chars::is_statement_sep(s[first_sep(s)]),
    decreases s.len(),
{
    if s.len() > 0 && !crate::chars::is_statement_sep(s[0]) {
        lemma_first_sep_bounds(s.skip(1));
        assert forall|k: int| 0 <= k < first_sep(s) implies !crate::chars::is_statement_sep(
            s[k],
        ) by {
            if k > 0 {
                assert(s.skip(1)[k - 1] == s[k]);
            }
        }
        if first_sep(s) < s.len() {
            assert(s.skip(1)[first_sep(s) - 1] == s[first_sep(s)]);
        }
    }
}

/// `first_sep` is pinned down by its defining properties.
pub proof fn lemma_first_sep_at(s: Seq<char>, j: int)
    requires
        0 <= j <= s.len(),
        forall|k: int| 0 <= k < j ==> !crate::chars::is_statement_sep(s[k]),
        j < s.len() ==> crate::chars::is_statement_sep(s[j]),
    ensures
        first_sep(s) == j,
    decreases j,
{
    if j == 0 {
    } else {
        assert(!crate::chars::is_statement_sep(s[0]));
        lemma_first_sep_at(s.skip(1), j - 1);
    }
}

/// The segments of `s` between statement separators, separators removed.
/// Segments may be empty; a string without separators is one segment.
pub open spec fn split_seps(s: Seq<char>) -> Seq<Seq<char>>
    decreases s.len(),
    via split_seps_dec
{
    if first_sep(s) >= s.len() {
        seq![s]
    } else {
        seq![s.take(first_sep(s))] + split_seps(s.skip(first_sep(s) + 1))
    }
}

#[via_fn]
proof fn split_seps_dec(s: Seq<char>) {
    lemma_first_sep_bounds(s);
}

/// Split a string at its statement separators.
pub fn split_separators(s: &str) -> (r: Vec<String>)
    ensures
        views(r@) == split_seps(s@),
{
    let n = s.unicode_len();
    let mut out: Vec<String> = Vec::new();
    let mut start: usize = 0;
    let mut i: usize = 0;
    proof {
        assert(s@.skip(0) =~= s@);
        assert(views(out@) =~= Seq::<Seq<char>>::empty());
        assert(views(out@) + split_seps(s@) =~= split_seps(s@));
    }
    while i < n
        invariant
            start <= i <= n,
            n == s@.len(),
            split_seps(s@) == views(out@) + split_seps(s@.skip(start as int)),
            forall|k: int| start <= k < i ==> !crate::chars::is_statement_sep(s@[k]),
        decreases n - i,
    {
        if crate::chars::statement_sep(s.get_char(i)) {
            let seg = s.substring_char(start, i).to_owned();
            proof {
                let suf = s@.skip(start as int);
                assert forall|k: int| 0 <= k < i - start implies !crate::chars::is_statement_sep(
                    suf[k],
                ) by {
                    assert(suf[k] == s@[start + k]);
                }
                assert(suf[i - start] == s@[i as int]);
                lemma_first_sep_at(suf, i - start);
                assert(suf.take(i - start) =~= seg@);
                assert(suf.skip(i - start + 1) =~= s@.skip(i + 1));
                assert(views(out@.push(seg)) =~= views(out@).push(seg@));
                assert(views(out@) + (seq![seg@] + split_seps(s@.skip(i + 1))) =~= views(
                    out@.push(seg),
                ) + split_seps(s@.skip(i + 1)));
            }
            out.push(seg);
            i += 1;
            start = i;
        } else {
            i += 1;
        }
    }
    let seg = s.substring_char(start, n).to_owned();
    proof {
        let suf = s@.skip(start as int);
        assert forall|k: int| 0 <= k < suf.len() implies !crate::chars::is_statement_sep(
            suf[k],
        ) by {
            assert(suf[k] == s@[start + k]);
        }
        lemma_first_sep_at(suf, suf.len() as int);
        assert(suf =~= seg@);
        assert(split_seps(suf) =~= seq![seg@]);
        assert(views(out@.push(seg)) =~= views(out@).push(seg@));
        assert(views(out@) + seq![seg@] =~= views(out@.push(seg)));
    }
    out.push(seg);
    out
}

} // verus!

// ---------------------------------------------------------------------------
// Unicode-whitespace tokenization
// ---------------------------------------------------------------------------

verus! {

/// The position of the first Unicode white-space character of `s`, or its
/// length.
pub open spec fn first_uws(s: Seq<char>) -> int
    decreases s.len(),
{
    if s.len() == 0 {
        0
    } else if crate::chars::is_unicode_ws(s[0]) {
        0
    } else {
        1 + first_uws(s.skip(1))
    }
}

pub proof fn lemma_first_uws_bounds(s: Seq<char>)
    ensures
        0 <= first_uws(s) <= s.len(),
        forall|k: int| 0 <= k < first_uws(s) ==> !crate::chars::is_unicode_ws(s[k]),
        first_uws(s) < s.len() ==> crate::chars::is_unicode_ws(s[first_uws(s)]),
    decreases s.len(),
{
    if s.len() > 0 && !crate::chars::is_unicode_ws(s[0]) {
        lemma_first_uws_bounds(s.skip(1));
        assert forall|k: int| 0 <= k < first_uws(s) implies !crate::chars::is_unicode_ws(
            s[k],
        ) by {
            if k > 0 {
                assert(s.skip(1)[k - 1] == s[k]);
            }
        }
        if first_uws(s) < s.len() {
            assert(s.skip(1)[first_uws(s) - 1] == s[first_uws(s)]);
        }
    }
}

/// `first_uws` is pinned down by its defining properties.
pub proof fn lemma_first_uws_at(s: Seq<char>, j: int)
    requires
        0 <= j <= s.len(),
        forall|k: int| 0 <= k < j ==> !crate::chars::is_unicode_ws(s[k]),
        j < s.len() ==> crate::chars::is_unicode_ws(s[j]),
    ensures
        first_uws(s) == j,
    decreases j,
{
    if j == 0 {
    } else {
        assert(!crate::chars::is_unicode_ws(s[0]));
        lemma_first_uws_at(s.skip(1), j - 1);
    }
}

/// The tokens of `s` separated by Unicode white space, in order.
pub open spec fn utok(s: Seq<char>) -> Seq<Seq<char>>
    decreases s.len(),
    via utok_dec
{
    if s.len() == 0 {
        Seq::empty()
    } else if crate::chars::is_unicode_ws(s[0]) {
        utok(s.skip(1))
    } else {
        seq![s.take(first_uws(s))] + utok(s.skip(first_uws(s)))
    }
}

#[via_fn]
proof fn utok_dec(s: Seq<char>) {
    if s.len() > 0 && !crate::chars::is_unicode_ws(s[0]) {
        lemma_first_uws_bounds(s);
    }
}

/// The end of the Unicode-whitespace token that starts at `start`.
fn scan_utoken_end(s: &str, start: usize, n: usize) -> (j: usize)
    requires
        n == s@.len(),
        start <= n,
    ensures
        start <= j <= n,
        forall|k: int| start <= k < j ==> !crate::chars::is_unicode_ws(s@[k]),
        j < n ==> crate::chars::is_unicode_ws(s@[j as int]),
{
    let mut j = start;
    while j < n
        invariant
            start <= j <= n,
            n == s@.len(),
            forall|k: int| start <= k < j ==> !crate::chars::is_unicode_ws(s@[k]),
        decreases n - j,
    {
        if s.get_char(j).is_whitespace() {
            return j;
        }
        j += 1;
    }
    j
}

/// Split a string into its tokens separated by Unicode white space.
pub fn tokenize_unicode(s: &str) -> (r: Vec<String>)
    ensures
        views(r@) == utok(s@),
{
    let n = s.unicode_len();
    let mut out: Vec<String> = Vec::new();
    let mut i: usize = 0;
    proof {
        assert(s@.skip(0) =~= s@);
        assert(views(out@) =~= Seq::<Seq<char>>::empty());
        assert(views(out@) + utok(s@) =~= utok(s@));
    }
    while i < n
        invariant
            i <= n,
            n == s@.len(),
            utok(s@) == views(out@) + utok(s@.skip(i as int)),
        decreases n - i,
    {
        let c = s.get_char(i);
        if c.is_whitespace() {
            proof {
                assert(s@.skip(i as int).skip(1) =~= s@.skip(i + 1));
            }
            i += 1;
        } else {
            let start = i;
            let j = scan_utoken_end(s, start + 1, n);
            let token = s.substring_char(start, j).to_owned();
            proof {
                let suf = s@.skip(start as int);
                assert forall|k: int| 0 <= k < j - start implies !crate::chars::is_unicode_ws(
                    suf[k],
                ) by {
                    assert(suf[k] == s@[start + k]);
                }
                if j < n {
                    assert(crate::chars::is_unicode_ws(suf[j - start]));
                }
                lemma_first_uws_at(suf, j - start);
                assert(suf.take(j - start) =~= token@);
                assert(suf.skip(j - start) =~= s@.skip(j as int));
                assert(views(out@.push(token)) =~= views(out@).push(token@));
                assert(views(out@) + utok(s@.skip(start as int)) =~= views(out@.push(token))
                    + utok(s@.skip(j as int)));
            }
            out.push(token);
            i = j;
        }
    }
    proof {
        assert(utok(s@.skip(n as int)) =~= Seq::<Seq<char>>::empty());
        assert(views(out@) + Seq::<Seq<char>>::empty() =~= views(out@));
    }
    out
}

/// The needle stands somewhere in the haystack as one contiguous run.
pub open spec fn contains_seq(h: Seq<char>, n: Seq<char>) -> bool {
    exists|i: int| matches_at(h, n, i)
}

/// Every string holds the empty run.
pub proof fn lemma_contains_seq_empty(h: Seq<char>)
    ensures
        contains_seq(h, Seq::empty()),
{
    assert(h.subrange(0, 0) =~= Seq::<char>::empty());
    assert(matches_at(h, Seq::empty(), 0));
}

} // verus!

verus! {

/// A string without the escape control character, the one character that
/// makes terminal styling rewrite its input.
pub open spec fn escape_free(s: Seq<char>) -> bool {
    forall|k: int| 0 <= k < s.len() ==> #[trigger] s[k] != '\x1b'
}

} // verus!
