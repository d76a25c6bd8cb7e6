//! Verified text utilities over character sequences.
//!
//! Version strings, probe output and listing pages are all plain text; every
//! decision the library makes on them reduces to the operations here:
//! substring search, prefix/suffix tests, lexicographic comparison, trimming
//! and splitting.  Each executable function is specified against a direct
//! mathematical definition over `Seq<char>`.

use vstd::prelude::*;
use vstd::string::*;

verus! {

/// `p` occurs in `s` starting at index `i`.
pub open spec fn occurs_at(s: Seq<char>, p: Seq<char>, i: int) -> bool {
    0 <= i && i + p.len() <= s.len() && s.subrange(i, i + p.len() as int) == p
}

/// `p` occurs somewhere in `s`.
pub open spec fn has_sub(s: Seq<char>, p: Seq<char>) -> bool {
    exists|i: int| occurs_at(s, p, i)
}

/// `i` is the leftmost index at which `p` occurs in `s`.
pub open spec fn is_first_occ(s: Seq<char>, p: Seq<char>, i: int) -> bool {
    occurs_at(s, p, i) && forall|j: int| 0 <= j < i ==> !occurs_at(s, p, j)
}

/// Compares two character sequences the way Rust orders strings:
/// lexicographically, position by position, shorter prefix first.
pub open spec fn lex_ge(a: Seq<char>, b: Seq<char>) -> bool
    decreases a.len() + b.len(),
{
    if b.len() == 0 {
        true
    } else if a.len() == 0 {
        false
    } else if a[0] != b[0] {
        a[0] > b[0]
    } else {
        lex_ge(a.skip(1), b.skip(1))
    }
}

/// The whitespace characters the library strips and splits on.
pub open spec fn is_ws(c: char) -> bool {
    c == ' ' || c == '\t' || c == '\n' || c == '\r'
}

/// `s` with leading and trailing whitespace removed.
pub open spec fn trim_of(s: Seq<char>) -> Seq<char>
    decreases s.len(),
{
    if s.len() == 0 {
        s
    } else if is_ws(s[0]) {
        trim_of(s.skip(1))
    } else if is_ws(s.last()) {
        trim_of(s.take(s.len() - 1))
    } else {
        s
    }
}

/// Whether two strings hold the same characters.
pub fn str_eq(a: &str, b: &str) -> (r: bool)
    ensures
        r == (a@ == b@),
{
    let alen = a.unicode_len();
    let blen = b.unicode_len();
    if alen != blen {
        assert(a@ != b@);
        return false;
    }
    let mut i: usize = 0;
    while i < alen
        invariant
            alen == a@.len(),
            alen == b@.len(),
            i <= alen,
            forall|j: int| 0 <= j < i ==> a@[j] == b@[j],
        decreases alen - i,
    {
        if a.get_char(i) != b.get_char(i) {
            return false;
        }
        i += 1;
    }
    proof {
        assert(a@ =~= b@);
    }
    true
}

/// Whether `p` occurs in `s` at exactly the index `i`.
fn matches_at(s: &str, p: &str, i: usize) -> (r: bool)
    requires
        i + p@.len() <= s@.len(),
        s@.len() <= usize::MAX,
    ensures
        r == occurs_at(s@, p@, i as int),
{
    let plen = p.unicode_len();
    let mut j: usize = 0;
    while j < plen
        invariant
            plen == p@.len(),
            i + plen <= s@.len(),
            s@.len() <= usize::MAX,
            j <= plen,
            forall|k: int| 0 <= k < j ==> s@[i + k] == p@[k],
        decreases plen - j,
    {
        if s.get_char(i + j) != p.get_char(j) {
            assert(s@.subrange(i as int, i + plen as int)[j as int] != p@[j as int]);
            return false;
        }
        j += 1;
    }
    proof {
        assert(s@.subrange(i as int, i + plen as int) =~= p@);
    }
    true
}

/// The leftmost occurrence of `p` in `s`, if any.
pub fn find_sub(s: &str, p: &str) -> (r: Option<usize>)
    ensures
        match r {
            Some(i) => is_first_occ(s@, p@, i as int),
            None => !has_sub(s@, p@),
        },
{
    let slen = s.unicode_len();
    let plen = p.unicode_len();
    if plen > slen {
        return None;
    }
    let lim = slen - plen;
    let mut i: usize = 0;
    loop
        invariant
            slen == s@.len(),
            plen == p@.len(),
            plen <= slen,
            lim == slen - plen,
            i <= lim,
            forall|j: int| 0 <= j < i ==> !occurs_at(s@, p@, j),
        decreases lim - i,
    {
        if matches_at(s, p, i) {
            return Some(i);
        }
        if i == lim {
            proof {
                assert forall|j: int| !occurs_at(s@, p@, j) by {
                    if 0 <= j && j + p@.len() <= s@.len() {
                        assert(j <= lim);
                    }
                }
            }
            return None;
        }
        i += 1;
    }
}

/// Whether `p` occurs somewhere in `s`.
pub fn contains_sub(s: &str, p: &str) -> (r: bool)
    ensures
        r == has_sub(s@, p@),
{
    find_sub(s, p).is_some()
}

/// Whether `s` starts with `p`.
pub fn has_prefix(s: &str, p: &str) -> (r: bool)
    ensures
        r == p@.is_prefix_of(s@),
{
    let slen = s.unicode_len();
    let plen = p.unicode_len();
    if plen > slen {
        return false;
    }
    let r = matches_at(s, p, 0);
    proof {
        assert(s@.subrange(0, p@.len() as int) =~= s@.take(p@.len() as int));
    }
    r
}

/// Whether `s` ends with `p`.
pub fn has_suffix(s: &str, p: &str) -> (r: bool)
    ensures
        r == p@.is_suffix_of(s@),
{
    let slen = s.unicode_len();
    let plen = p.unicode_len();
    if plen > slen {
        return false;
    }
    let r = matches_at(s, p, slen - plen);
    proof {
        assert(s@.subrange(s@.len() - p@.len(), s@.len() as int) =~= s@.skip(
            s@.len() - p@.len(),
        ));
    }
    r
}

/// Lexicographic `>=` on strings, as Rust's `>=` orders them.
pub fn str_ge(a: &str, b: &str) -> (r: bool)
    ensures
        r == lex_ge(a@, b@),
{
    let alen = a.unicode_len();
    let blen = b.unicode_len();
    let mut i: usize = 0;
    proof {
        assert(a@.skip(0) =~= a@);
        assert(b@.skip(0) =~= b@);
    }
    loop
        invariant
            alen == a@.len(),
            blen == b@.len(),
            i <= alen,
            i <= blen,
            forall|j: int| 0 <= j < i ==> a@[j] == b@[j],
            lex_ge(a@, b@) == lex_ge(a@.skip(i as int), b@.skip(i as int)),
        decreases alen - i,
    {
        if i == blen {
            return true;
        }
        if i == alen {
            return false;
        }
        let ca = a.get_char(i);
        let cb = b.get_char(i);
        if ca != cb {
            return ca > cb;
        }
        proof {
            assert(a@.skip(i as int).skip(1) =~= a@.skip(i + 1));
            assert(b@.skip(i as int).skip(1) =~= b@.skip(i + 1));
        }
        i += 1;
    }
}

/// `s` with leading and trailing whitespace removed.
pub fn trim<'a>(s: &'a str) -> (r: &'a str)
    ensures
        r@ == trim_of(s@),
{
    let slen = s.unicode_len();
    let mut i: usize = 0;
    proof {
        assert(s@.skip(0) =~= s@);
    }
    while i < slen && is_ws_char(s.get_char(i))
        invariant
            slen == s@.len(),
            i <= slen,
            trim_of(s@) == trim_of(s@.skip(i as int)),
            forall|j: int| 0 <= j < i ==> is_ws(s@[j]),
        decreases slen - i,
    {
        proof {
            assert(s@.skip(i as int).skip(1) =~= s@.skip(i + 1));
        }
        i += 1;
    }
    let mut j: usize = slen;
    proof {
        assert(s@.skip(i as int).take(slen - i) =~= s@.skip(i as int));
    }
    while j > i && is_ws_char(s.get_char(j - 1))
        invariant
            slen == s@.len(),
            i <= j <= slen,
            trim_of(s@) == trim_of(s@.skip(i as int).take(j - i)),
            i < slen ==> !is_ws(s@[i as int]),
            i == j ==> i == slen,
        decreases j,
    {
        proof {
            let cur = s@.skip(i as int).take(j - i);
            assert(cur.last() == s@[j - 1]);
            assert(!is_ws(cur[0]));
            assert(cur.take(cur.len() - 1) =~= s@.skip(i as int).take(j - 1 - i));
        }
        j -= 1;
    }
    proof {
        let cur = s@.skip(i as int).take(j - i);
        if i == j {
            assert(cur =~= Seq::<char>::empty());
        } else {
            assert(!is_ws(cur[0]));
            assert(cur.last() == s@[j - 1]);
        }
        assert(cur =~= s@.subrange(i as int, j as int));
    }
    s.substring_char(i, j)
}

/// Executable test for the library's whitespace set.
pub fn is_ws_char(c: char) -> (r: bool)
    ensures
        r == is_ws(c),
{
    c == ' ' || c == '\t' || c == '\n' || c == '\r'
}

/// The separators a string can be split on.
#[derive(Clone, Copy, PartialEq, Eq, Structural)]
pub enum Sep {
    Comma,
    Newline,
    Whitespace,
    Space,
    Colon,
    Slash,
    Dot,
}

/// Which characters the given separator matches.
pub open spec fn is_sep(k: Sep, c: char) -> bool {
    match k {
        Sep::Comma => c == ',',
        Sep::Newline => c == '\n',
        Sep::Whitespace => is_ws(c),
        Sep::Space => c == ' ',
        Sep::Colon => c == ':',
        Sep::Slash => c == '/',
        Sep::Dot => c == '.',
    }
}

/// `s` split on every separator character, empty pieces kept.
pub open spec fn split_of(k: Sep, s: Seq<char>) -> Seq<Seq<char>>
    decreases s.len(),
{
    if s.len() == 0 {
        seq![s]
    } else if is_sep(k, s[0]) {
        seq![Seq::<char>::empty()] + split_of(k, s.skip(1))
    } else {
        let rest = split_of(k, s.skip(1));
        seq![seq![s[0]] + rest[0]] + rest.skip(1)
    }
}

pub proof fn lemma_split_nonempty(k: Sep, s: Seq<char>)
    ensures
        split_of(k, s).len() >= 1,
    decreases s.len(),
{
    if s.len() != 0 {
        lemma_split_nonempty(k, s.skip(1));
    }
}

/// Executable test for the separator set.
pub fn is_sep_char(k: Sep, c: char) -> (r: bool)
    ensures
        r == is_sep(k, c),
{
    match k {
        Sep::Comma => c == ',',
        Sep::Newline => c == '\n',
        Sep::Whitespace => is_ws_char(c),
        Sep::Space => c == ' ',
        Sep::Colon => c == ':',
        Sep::Slash => c == '/',
        Sep::Dot => c == '.',
    }
}

/// Splits `s` on the separator, keeping empty pieces, as `split_of` describes.
pub fn split_str(k: Sep, s: &str) -> (r: Vec<String>)
    ensures
        r.deep_view() == split_of(k, s@),
{
    let slen = s.unicode_len();
    let mut out: Vec<String> = Vec::new();
    let mut cur: String = String::new();
    let mut i: usize = 0;
    proof {
        assert(s@.skip(0) =~= s@);
        lemma_split_nonempty(k, s@);
        let r0 = split_of(k, s@);
        assert(split_of(k, s@) =~= out.deep_view() + (seq![cur@ + r0[0]] + r0.skip(1)));
    }
    while i < slen
        invariant
            slen == s@.len(),
            i <= slen,
            split_of(k, s@.skip(i as int)).len() >= 1,
            split_of(k, s@) =~= out.deep_view() + (seq![
                cur@ + split_of(k, s@.skip(i as int))[0],
            ] + split_of(k, s@.skip(i as int)).skip(1)),
        decreases slen - i,
    {
        let c = s.get_char(i);
        proof {
            assert(s@.skip(i as int)[0] == s@[i as int]);
            assert(s@.skip(i as int).skip(1) =~= s@.skip(i + 1));
            lemma_split_nonempty(k, s@.skip(i + 1));
        }
        let ghost prev = split_of(k, s@.skip(i as int));
        let ghost next = split_of(k, s@.skip(i + 1));
        let ghost old_dv = out.deep_view();
        let ghost old_cur = cur@;
        if is_sep_char(k, c) {
            proof {
                assert(prev =~= seq![Seq::<char>::empty()] + next);
                assert(prev[0] == Seq::<char>::empty());
                assert(prev.skip(1) =~= next);
                assert(old_cur + prev[0] =~= old_cur);
            }
            out.push(cur);
            cur = String::new();
            proof {
                assert(out.deep_view() =~= old_dv.push(old_cur));
                assert(cur@ + next[0] =~= next[0]);
                assert(split_of(k, s@) =~= out.deep_view() + (seq![cur@ + next[0]] + next.skip(
                    1,
                )));
            }
        } else {
            proof {
                assert(prev =~= seq![seq![s@[i as int]] + next[0]] + next.skip(1));
                assert(prev[0] == seq![s@[i as int]] + next[0]);
                assert(prev.skip(1) =~= next.skip(1));
            }
            let piece = s.substring_char(i, i + 1);
            proof {
                assert(piece@ =~= seq![s@[i as int]]);
            }
            cur.append(piece);
            proof {
                assert(cur@ == old_cur + seq![s@[i as int]]);
                assert(cur@ + next[0] =~= old_cur + (seq![s@[i as int]] + next[0]));
                assert(old_cur + prev[0] =~= cur@ + next[0]);
                assert(split_of(k, s@) =~= out.deep_view() + (seq![cur@ + next[0]] + next.skip(
                    1,
                )));
            }
        }
        i += 1;
    }
    proof {
        let last = split_of(k, s@.skip(i as int));
        assert(s@.skip(i as int) =~= Seq::<char>::empty());
        assert(last =~= seq![Seq::<char>::empty()]);
        assert(cur@ + last[0] =~= cur@);
    }
    out.push(cur);
    proof {
        assert(out.deep_view() =~= split_of(k, s@));
    }
    out
}

/// `s` without the prefix `p`, or `s` unchanged when `p` is not its prefix.
pub open spec fn strip_prefix_of(s: Seq<char>, p: Seq<char>) -> Seq<char> {
    if p.is_prefix_of(s) {
        s.skip(p.len() as int)
    } else {
        s
    }
}

/// Removes the prefix `p` from `s` when present.
pub fn strip_prefix(s: &str, p: &str) -> (r: String)
    ensures
        r@ == strip_prefix_of(s@, p@),
{
    if has_prefix(s, p) {
        let rest = s.substring_char(p.unicode_len(), s.unicode_len());
        proof {
            assert(rest@ =~= s@.skip(p@.len() as int));
        }
        String::from_str(rest)
    } else {
        String::from_str(s)
    }
}

/// `s` without the suffix `p`, or `s` unchanged when `p` is not its suffix.
pub open spec fn strip_suffix_of(s: Seq<char>, p: Seq<char>) -> Seq<char> {
    if p.is_suffix_of(s) {
        s.take(s.len() - p.len())
    } else {
        s
    }
}

/// Removes the suffix `p` from `s` when present.
pub fn strip_suffix(s: &str, p: &str) -> (r: String)
    ensures
        r@ == strip_suffix_of(s@, p@),
{
    if has_suffix(s, p) {
        let rest = s.substring_char(0, s.unicode_len() - p.unicode_len());
        proof {
            assert(rest@ =~= s@.take(s@.len() - p@.len()));
        }
        String::from_str(rest)
    } else {
        String::from_str(s)
    }
}

/// `s` with every repetition of the prefix `p` removed.
pub open spec fn strip_all_prefix_of(s: Seq<char>, p: Seq<char>) -> Seq<char>
    decreases s.len(),
{
    if p.len() > 0 && p.is_prefix_of(s) {
        strip_all_prefix_of(s.skip(p.len() as int), p)
    } else {
        s
    }
}

/// Removes every repetition of the prefix `p` from `s`.
pub fn strip_all_prefix(s: &str, p: &str) -> (r: String)
    ensures
        r@ == strip_all_prefix_of(s@, p@),
{
    let plen = p.unicode_len();
    if plen == 0 {
        return String::from_str(s);
    }
    let slen = s.unicode_len();
    let mut i: usize = 0;
    proof {
        assert(s@.skip(0) =~= s@);
    }
    while plen <= slen - i && matches_at(s, p, i)
        invariant
            slen == s@.len(),
            plen == p@.len(),
            plen > 0,
            i <= slen,
            strip_all_prefix_of(s@, p@) == strip_all_prefix_of(s@.skip(i as int), p@),
        decreases slen - i,
    {
        proof {
            let cur = s@.skip(i as int);
            assert(cur.subrange(0, plen as int) =~= cur.take(plen as int));
            assert(p@.is_prefix_of(cur));
            assert(cur.skip(plen as int) =~= s@.skip(i + plen));
        }
        i += plen;
    }
    let rest = s.substring_char(i, slen);
    proof {
        let cur = s@.skip(i as int);
        assert(rest@ =~= cur);
        if i + plen <= slen {
            assert(!occurs_at(s@, p@, i as int));
            if p@.is_prefix_of(cur) {
                assert(cur.take(plen as int) =~= s@.subrange(i as int, i + plen as int));
            }
        } else {
            if p@.is_prefix_of(cur) {
                assert(plen <= cur.len());
            }
        }
        assert(strip_all_prefix_of(cur, p@) == cur);
    }
    String::from_str(rest)
}

/// `s` with every repetition of the suffix `p` removed.
pub open spec fn strip_all_suffix_of(s: Seq<char>, p: Seq<char>) -> Seq<char>
    decreases s.len(),
{
    if p.len() > 0 && p.is_suffix_of(s) {
        strip_all_suffix_of(s.take(s.len() - p.len()), p)
    } else {
        s
    }
}

/// Removes every repetition of the suffix `p` from `s`.
pub fn strip_all_suffix(s: &str, p: &str) -> (r: String)
    ensures
        r@ == strip_all_suffix_of(s@, p@),
{
    let plen = p.unicode_len();
    if plen == 0 {
        return String::from_str(s);
    }
    let slen = s.unicode_len();
    let mut j: usize = slen;
    proof {
        assert(s@.take(slen as int) =~= s@);
    }
    while plen <= j && matches_at(s, p, j - plen)
        invariant
            slen == s@.len(),
            plen == p@.len(),
            plen > 0,
            j <= slen,
            strip_all_suffix_of(s@, p@) == strip_all_suffix_of(s@.take(j as int), p@),
        decreases j,
    {
        proof {
            let cur = s@.take(j as int);
            assert(cur.subrange(cur.len() - plen, cur.len() as int) =~= s@.subrange(
                j - plen,
                j as int,
            ));
            assert(p@.is_suffix_of(cur));
            assert(cur.take(cur.len() - plen) =~= s@.take(j - plen));
        }
        j -= plen;
    }
    let rest = s.substring_char(0, j);
    proof {
        let cur = s@.take(j as int);
        assert(rest@ =~= cur);
        if plen <= j {
            assert(!occurs_at(s@, p@, j - plen));
            if p@.is_suffix_of(cur) {
                assert(cur.subrange(cur.len() - plen, cur.len() as int) =~= s@.subrange(
                    j - plen,
                    j as int,
                ));
            }
        } else {
            if p@.is_suffix_of(cur) {
                assert(plen <= cur.len());
            }
        }
        assert(strip_all_suffix_of(cur, p@) == cur);
    }
    String::from_str(rest)
}

/// The first element of `s` satisfying `pred`, if any.
pub open spec fn first_where<A>(s: Seq<A>, pred: spec_fn(A) -> bool) -> Option<A>
    decreases s.len(),
{
    if s.len() == 0 {
        None
    } else if pred(s[0]) {
        Some(s[0])
    } else {
        first_where(s.skip(1), pred)
    }
}

/// What `first_where` finds satisfies the predicate; when it finds nothing,
/// nothing satisfies it.
pub proof fn lemma_first_where_props<A>(s: Seq<A>, pred: spec_fn(A) -> bool)
    ensures
        match first_where(s, pred) {
            Some(x) => pred(x),
            None => forall|i: int| 0 <= i < s.len() ==> !pred(s[i]),
        },
    decreases s.len(),
{
    if s.len() > 0 && !pred(s[0]) {
        lemma_first_where_props(s.skip(1), pred);
        if first_where(s.skip(1), pred) is None {
            assert forall|i: int| 0 <= i < s.len() implies !pred(s[i]) by {
                if i > 0 {
                    assert(s.skip(1)[i - 1] == s[i]);
                }
            }
        }
    }
}

/// The element at the least index satisfying `pred` is what `first_where`
/// finds.
pub proof fn lemma_first_where_index<A>(s: Seq<A>, pred: spec_fn(A) -> bool, i: int)
    requires
        0 <= i < s.len(),
        pred(s[i]),
        forall|j: int| 0 <= j < i ==> !pred(s[j]),
    ensures
        first_where(s, pred) == Some(s[i]),
    decreases i,
{
    if i == 0 {
    } else {
        assert(!pred(s[0]));
        lemma_first_where_index(s.skip(1), pred, i - 1);
        assert(s.skip(1)[i - 1] == s[i]);
    }
}

/// When nothing satisfies `pred`, `first_where` finds nothing.
pub proof fn lemma_first_where_none<A>(s: Seq<A>, pred: spec_fn(A) -> bool)
    requires
        forall|i: int| 0 <= i < s.len() ==> !pred(s[i]),
    ensures
        first_where(s, pred) is None,
    decreases s.len(),
{
    if s.len() > 0 {
        assert forall|i: int| 0 <= i < s.skip(1).len() implies !pred(s.skip(1)[i]) by {
            assert(s.skip(1)[i] == s[i + 1]);
        }
        lemma_first_where_none(s.skip(1), pred);
    }
}

/// A line with a trailing carriage return removed.
pub open spec fn strip_cr(t: Seq<char>) -> Seq<char> {
    if t.len() > 0 && t.last() == '\r' {
        t.drop_last()
    } else {
        t
    }
}

/// The lines of `s`: split on newlines, a final empty piece dropped, and a
/// trailing carriage return removed from each line.
pub open spec fn lines_of(s: Seq<char>) -> Seq<Seq<char>> {
    let p = split_of(Sep::Newline, s);
    let q = if p.last().len() == 0 {
        p.drop_last()
    } else {
        p
    };
    q.map_values(|t: Seq<char>| strip_cr(t))
}

/// Splits `s` into lines, as `lines_of` describes.
pub fn lines(s: &str) -> (r: Vec<String>)
    ensures
        r.deep_view() == lines_of(s@),
{
    let mut parts = split_str(Sep::Newline, s);
    proof {
        lemma_split_nonempty(Sep::Newline, s@);
    }
    let plen = parts.len();
    if parts[plen - 1].as_str().unicode_len() == 0 {
        parts.pop();
    }
    let ghost q = if split_of(Sep::Newline, s@).last().len() == 0 {
        split_of(Sep::Newline, s@).drop_last()
    } else {
        split_of(Sep::Newline, s@)
    };
    proof {
        assert(parts.deep_view() =~= q);
    }
    let mut out: Vec<String> = Vec::new();
    let mut i: usize = 0;
    while i < parts.len()
        invariant
            parts.deep_view() == q,
            i <= parts.len(),
            out.deep_view() =~= q.take(i as int).map_values(|t: Seq<char>| strip_cr(t)),
        decreases parts.len() - i,
    {
        let ghost old_dv = out.deep_view();
        let t = parts[i].as_str();
        let tlen = t.unicode_len();
        proof {
            assert(t@ == q[i as int]);
        }
        if tlen > 0 && t.get_char(tlen - 1) == '\r' {
            let stripped = t.substring_char(0, tlen - 1);
            proof {
                assert(stripped@ =~= strip_cr(q[i as int]));
            }
            out.push(String::from_str(stripped));
        } else {
            proof {
                assert(t@ == strip_cr(q[i as int]));
            }
            out.push(String::from_str(t));
        }
        proof {
            assert(out.deep_view() =~= old_dv.push(strip_cr(q[i as int])));
            assert(out.deep_view() =~= q.take(i + 1).map_values(|u: Seq<char>| strip_cr(u)));
        }
        i += 1;
    }
    proof {
        assert(q.take(parts.len() as int) =~= q);
    }
    out
}

/// The non-empty whitespace-delimited tokens of `s`.
pub open spec fn tokens_of(s: Seq<char>) -> Seq<Seq<char>> {
    split_of(Sep::Whitespace, s).filter(|t: Seq<char>| t.len() != 0)
}

/// Splits `s` into whitespace-delimited tokens, as `tokens_of` describes.
pub fn tokens(s: &str) -> (r: Vec<String>)
    ensures
        r.deep_view() == tokens_of(s@),
{
    let parts = split_str(Sep::Whitespace, s);
    let ghost p = parts.deep_view();
    let mut out: Vec<String> = Vec::new();
    let mut i: usize = 0;
    proof {
        reveal(Seq::filter);
        assert(p.take(0) =~= Seq::<Seq<char>>::empty());
    }
    while i < parts.len()
        invariant
            parts.deep_view() == p,
            i <= parts.len(),
            out.deep_view() =~= p.take(i as int).filter(|t: Seq<char>| t.len() != 0),
        decreases parts.len() - i,
    {
        let t = parts[i].as_str();
        proof {
            reveal(Seq::filter);
            assert(p.take(i + 1).drop_last() =~= p.take(i as int));
            assert(p.take(i + 1).last() == p[i as int]);
        }
        if t.unicode_len() > 0 {
            out.push(String::from_str(t));
        }
        proof {
            assert(out.deep_view() =~= p.take(i + 1).filter(|u: Seq<char>| u.len() != 0));
        }
        i += 1;
    }
    proof {
        assert(p.take(parts.len() as int) =~= p);
    }
    out
}

/// The comma-separated items of `s`, each trimmed, empty items dropped.
pub open spec fn csv_items_of(s: Seq<char>) -> Seq<Seq<char>> {
    split_of(Sep::Comma, s).map_values(|t: Seq<char>| trim_of(t)).filter(
        |t: Seq<char>| t.len() != 0,
    )
}

/// Splits `s` on commas into trimmed, non-empty items, as `csv_items_of`
/// describes.
pub fn csv_items(s: &str) -> (r: Vec<String>)
    ensures
        r.deep_view() == csv_items_of(s@),
{
    let parts = split_str(Sep::Comma, s);
    let ghost p = parts.deep_view().map_values(|t: Seq<char>| trim_of(t));
    let mut out: Vec<String> = Vec::new();
    let mut i: usize = 0;
    proof {
        reveal(Seq::filter);
        assert(p.take(0) =~= Seq::<Seq<char>>::empty());
    }
    while i < parts.len()
        invariant
            parts.deep_view().map_values(|t: Seq<char>| trim_of(t)) == p,
            parts.deep_view().len() == p.len(),
            i <= parts.len(),
            out.deep_view() =~= p.take(i as int).filter(|t: Seq<char>| t.len() != 0),
        decreases parts.len() - i,
    {
        let t = trim(parts[i].as_str());
        proof {
            reveal(Seq::filter);
            assert(p.take(i + 1).drop_last() =~= p.take(i as int));
            assert(p.take(i + 1).last() == p[i as int]);
            assert(t@ == p[i as int]);
        }
        if t.unicode_len() > 0 {
            out.push(String::from_str(t));
        }
        proof {
            assert(out.deep_view() =~= p.take(i + 1).filter(|u: Seq<char>| u.len() != 0));
        }
        i += 1;
    }
    proof {
        assert(p.take(parts.len() as int) =~= p);
    }
    out
}

} // verus!
