//! Version compatibility checking.
//!
//! A requirement specifier is compared against an installed version string
//! with plain string operations: `==` demands exact equality with the text to
//! the right of the separator, `>=` demands lexicographic order against it,
//! and a bare specifier demands exact equality with the whole string.  The
//! lexicographic rule is a documented weakness — `"1.10.0" >= "1.2.0"` is
//! false under it — and is kept deliberately.

use vstd::prelude::*;

use crate::text::{
    contains_sub, find_sub, has_sub, is_first_occ, lex_ge, str_eq, str_ge, trim, trim_of,
};

verus! {

/// The exact-equality separator `==`.
pub open spec fn eq_sep() -> Seq<char> {
    seq!['=', '=']
}

/// The at-least separator `>=`.
pub open spec fn ge_sep() -> Seq<char> {
    seq!['>', '=']
}

/// The compatibility rule.  When the specifier contains `==` exactly once,
/// the installed version must equal the trimmed text after it; when it
/// contains `>=` (and no `==`) exactly once, the installed version must be
/// lexicographically at least the trimmed text after it; a specifier with
/// more than one occurrence of its separator matches nothing; otherwise the
/// installed version must equal the specifier itself.
pub open spec fn compatible(installed: Seq<char>, required: Seq<char>) -> bool {
    if has_sub(required, eq_sep()) {
        exists|i: int|
            {
                &&& is_first_occ(required, eq_sep(), i)
                &&& !has_sub(required.skip(i + 2), eq_sep())
                &&& installed == trim_of(required.skip(i + 2))
            }
    } else if has_sub(required, ge_sep()) {
        exists|i: int|
            {
                &&& is_first_occ(required, ge_sep(), i)
                &&& !has_sub(required.skip(i + 2), ge_sep())
                &&& lex_ge(installed, trim_of(required.skip(i + 2)))
            }
    } else {
        installed == required
    }
}

/// The leftmost occurrence is the only index satisfying `is_first_occ`.
proof fn lemma_first_occ_unique(s: Seq<char>, p: Seq<char>, i: int, j: int)
    requires
        is_first_occ(s, p, i),
        is_first_occ(s, p, j),
    ensures
        i == j,
{
}

/// Decides whether an installed version satisfies a requirement specifier,
/// under the rule `compatible` states.
pub fn is_version_compatible(installed_version: &str, required_specifier: &str) -> (r: bool)
    ensures
        r == compatible(installed_version@, required_specifier@),
{
    proof {
        reveal_strlit("==");
        reveal_strlit(">=");
        assert("=="@ =~= eq_sep());
        assert(">="@ =~= ge_sep());
    }
    let rlen = required_specifier.unicode_len();
    if let Some(i) = find_sub(required_specifier, "==") {
        let rest = required_specifier.substring_char(i + 2, rlen);
        proof {
            assert(rest@ =~= required_specifier@.skip(i + 2));
        }
        if contains_sub(rest, "==") {
            proof {
                assert forall|j: int|
                    !(is_first_occ(required_specifier@, eq_sep(), j) && !has_sub(
                        required_specifier@.skip(j + 2),
                        eq_sep(),
                    )) by {
                    if is_first_occ(required_specifier@, eq_sep(), j) {
                        lemma_first_occ_unique(required_specifier@, eq_sep(), i as int, j);
                    }
                }
            }
            false
        } else {
            let r = str_eq(installed_version, trim(rest));
            proof {
                if r {
                    assert(is_first_occ(required_specifier@, eq_sep(), i as int) && !has_sub(
                        required_specifier@.skip(i + 2),
                        eq_sep(),
                    ) && installed_version@ == trim_of(required_specifier@.skip(i + 2)));
                } else {
                    assert forall|j: int|
                        !(is_first_occ(required_specifier@, eq_sep(), j) && !has_sub(
                            required_specifier@.skip(j + 2),
                            eq_sep(),
                        ) && installed_version@ == trim_of(required_specifier@.skip(j + 2))) by {
                        if is_first_occ(required_specifier@, eq_sep(), j) {
                            lemma_first_occ_unique(required_specifier@, eq_sep(), i as int, j);
                        }
                    }
                }
            }
            r
        }
    } else if let Some(i) = find_sub(required_specifier, ">=") {
        let rest = required_specifier.substring_char(i + 2, rlen);
        proof {
            assert(rest@ =~= required_specifier@.skip(i + 2));
        }
        if contains_sub(rest, ">=") {
            proof {
                assert forall|j: int|
                    !(is_first_occ(required_specifier@, ge_sep(), j) && !has_sub(
                        required_specifier@.skip(j + 2),
                        ge_sep(),
                    )) by {
                    if is_first_occ(required_specifier@, ge_sep(), j) {
                        lemma_first_occ_unique(required_specifier@, ge_sep(), i as int, j);
                    }
                }
            }
            false
        } else {
            let r = str_ge(installed_version, trim(rest));
            proof {
                if r {
                    assert(is_first_occ(required_specifier@, ge_sep(), i as int) && !has_sub(
                        required_specifier@.skip(i + 2),
                        ge_sep(),
                    ) && lex_ge(installed_version@, trim_of(required_specifier@.skip(i + 2))));
                } else {
                    assert forall|j: int|
                        !(is_first_occ(required_specifier@, ge_sep(), j) && !has_sub(
                            required_specifier@.skip(j + 2),
                            ge_sep(),
                        ) && lex_ge(installed_version@, trim_of(required_specifier@.skip(j + 2))))
                        by {
                        if is_first_occ(required_specifier@, ge_sep(), j) {
                            lemma_first_occ_unique(required_specifier@, ge_sep(), i as int, j);
                        }
                    }
                }
            }
            r
        }
    } else {
        str_eq(installed_version, required_specifier)
    }
}

} // verus!
