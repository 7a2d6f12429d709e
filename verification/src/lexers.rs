//! Keyword lexers for the attribute values of a proxy definition: request
//! methods, registry resources and host capabilities.
use vstd::prelude::*;
use crate::text::{chars_of, occurs_at, has_prefix};

verus! {

/// Which characters a keyword lexer skips between tokens.
#[derive(PartialEq, Eq, Clone, Copy)]
pub enum Skip {
    /// Nothing is skipped.
    Nothing,
    /// Space, tab, newline and form feed are skipped.
    Blanks,
    /// Blanks and commas are skipped.
    BlanksAndCommas,
}

pub open spec fn skips(mode: Skip, c: char) -> bool {
    match mode {
        Skip::Nothing => false,
        Skip::Blanks => c == ' ' || c == '\t' || c == '\n' || c == '\x0C',
        Skip::BlanksAndCommas => c == ' ' || c == '\t' || c == '\n' || c == '\x0C' || c == ',',
    }
}

/// Index of the first non-empty keyword at or after `k` that `s` starts with.
pub open spec fn keyword_at(s: Seq<char>, kws: Seq<Seq<char>>, k: int) -> Option<int>
    decreases kws.len() - k,
{
    if k < 0 || k >= kws.len() {
        None
    } else if kws[k].len() > 0 && has_prefix(s, kws[k]) {
        Some(k)
    } else {
        keyword_at(s, kws, k + 1)
    }
}

pub proof fn lemma_keyword_at_props(s: Seq<char>, kws: Seq<Seq<char>>, k: int)
    ensures
        keyword_at(s, kws, k) matches Some(j) ==> k <= j < kws.len() && kws[j].len() > 0 && has_prefix(
            s,
            kws[j],
        ),
    decreases kws.len() - k,
{
    if 0 <= k < kws.len() {
        lemma_keyword_at_props(s, kws, k + 1);
    }
}

/// The tokens of `s`: skipped characters are dropped, a keyword at the
/// front is a token (its index), any other character is an error token.
pub open spec fn lex_keywords(s: Seq<char>, kws: Seq<Seq<char>>, mode: Skip) -> Seq<Option<int>>
    decreases s.len(),
{
    if s.len() == 0 {
        Seq::empty()
    } else if skips(mode, s[0]) {
        lex_keywords(s.drop_first(), kws, mode)
    } else {
        match keyword_at(s, kws, 0) {
            Some(k) => {
                proof {
                    lemma_keyword_at_props(s, kws, 0);
                }
                seq![Some(k)] + lex_keywords(s.skip(kws[k].len() as int), kws, mode)
            },
            None => seq![None] + lex_keywords(s.drop_first(), kws, mode),
        }
    }
}

pub open spec fn token_view(t: Option<usize>) -> Option<int> {
    match t {
        Some(k) => Some(k as int),
        None => None,
    }
}

pub open spec fn keywords_view(kws: Seq<&str>) -> Seq<Seq<char>> {
    kws.map_values(|k: &str| k@)
}

fn skips_exec(mode: Skip, c: char) -> (b: bool)
    ensures
        b == skips(mode, c),
{
    match mode {
        Skip::Nothing => false,
        Skip::Blanks => c == ' ' || c == '\t' || c == '\n' || c == '\x0C',
        Skip::BlanksAndCommas => c == ' ' || c == '\t' || c == '\n' || c == '\x0C' || c == ',',
    }
}

proof fn lemma_keyword_at_none(s: Seq<char>, kws: Seq<Seq<char>>, k: int)
    requires
        0 <= k <= kws.len(),
        forall|j: int| k <= j < kws.len() ==> !(kws[j].len() > 0 && has_prefix(s, #[trigger] kws[j])),
    ensures
        keyword_at(s, kws, k) is None,
    decreases kws.len() - k,
{
    if k < kws.len() {
        lemma_keyword_at_none(s, kws, k + 1);
    }
}

proof fn lemma_keyword_at_first(s: Seq<char>, kws: Seq<Seq<char>>, k: int, found: int)
    requires
        0 <= k <= found < kws.len(),
        kws[found].len() > 0 && has_prefix(s, kws[found]),
        forall|j: int| k <= j < found ==> !(kws[j].len() > 0 && has_prefix(s, #[trigger] kws[j])),
    ensures
        keyword_at(s, kws, k) == Some(found),
    decreases found - k,
{
    if k < found {
        lemma_keyword_at_first(s, kws, k + 1, found);
    }
}

/// Index of the first non-empty keyword that occurs in `v` at `i`.
fn keyword_index(v: &[char], kws: &[&str], i: usize) -> (r: Option<usize>)
    requires
        i <= v@.len(),
    ensures
        token_view(r) == keyword_at(v@.skip(i as int), keywords_view(kws@), 0),
        r matches Some(k) ==> k < kws@.len() && i + kws@[k as int]@.len() <= v@.len(),
{
    let ghost kv = keywords_view(kws@);
    let mut k: usize = 0;
    while k < kws.len()
        invariant
            k <= kws@.len(),
            i <= v@.len(),
            kv == keywords_view(kws@),
            forall|j: int| 0 <= j < k ==> !(kv[j].len() > 0 && has_prefix(v@.skip(i as int), #[trigger] kv[j])),
        decreases kws@.len() - k,
    {
        let p = chars_of(kws[k]);
        assert(p@ == kv[k as int]);
        if p.len() > 0 && occurs_at(v, &p, i) {
            proof {
                lemma_keyword_at_first(v@.skip(i as int), kv, 0, k as int);
            }
            return Some(k);
        }
        k = k + 1;
    }
    proof {
        lemma_keyword_at_none(v@.skip(i as int), kv, 0);
    }
    None
}

/// Lexes `s` into keyword tokens (see [`lex_keywords`]).
pub fn lex_keywords_exec(s: &str, kws: &[&str], mode: Skip) -> (out: Vec<Option<usize>>)
    ensures
        out@.map_values(|t: Option<usize>| token_view(t)) == lex_keywords(s@, keywords_view(kws@), mode),
        forall|j: int| 0 <= j < out@.len() ==> (#[trigger] out@[j] matches Some(k) ==> k < kws@.len()),
{
    let v = chars_of(s);
    let ghost kv = keywords_view(kws@);
    let mut out: Vec<Option<usize>> = Vec::new();
    let mut i: usize = 0;
    assert(v@.skip(0) == v@);
    while i < v.len()
        invariant
            i <= v@.len(),
            v@ == s@,
            kv == keywords_view(kws@),
            out@.map_values(|t: Option<usize>| token_view(t)) + lex_keywords(v@.skip(i as int), kv, mode)
                == lex_keywords(s@, kv, mode),
            forall|j: int| 0 <= j < out@.len() ==> (#[trigger] out@[j] matches Some(k) ==> k < kws@.len()),
        decreases v@.len() - i,
    {
        let ghost rest = v@.skip(i as int);
        let ghost before = out@.map_values(|t: Option<usize>| token_view(t));
        assert(rest[0] == v@[i as int]);
        assert(rest.drop_first() == v@.skip(i + 1));
        if skips_exec(mode, v[i]) {
            i = i + 1;
        } else {
            match keyword_index(&v, kws, i) {
                Some(k) => {
                    let n = kws[k].unicode_len();
                    assert(rest.skip(kv[k as int].len() as int) == v@.skip(i + n));
                    out.push(Some(k));
                    assert(out@.map_values(|t: Option<usize>| token_view(t)) == before.push(Some(k as int)));
                    assert(before.push(Some(k as int)) + lex_keywords(v@.skip(i + n), kv, mode) == before + (
                    seq![Some(k as int)] + lex_keywords(v@.skip(i + n), kv, mode)));
                    i = i + n;
                },
                None => {
                    out.push(None);
                    assert(out@.map_values(|t: Option<usize>| token_view(t)) == before.push(None));
                    assert(before.push(None) + lex_keywords(v@.skip(i + 1), kv, mode) == before + (seq![None]
                        + lex_keywords(v@.skip(i + 1), kv, mode)));
                    i = i + 1;
                },
            }
        }
    }
    assert(v@.skip(i as int).len() == 0);
    assert(out@.map_values(|t: Option<usize>| token_view(t)) + Seq::<Option<int>>::empty() == out@.map_values(
        |t: Option<usize>| token_view(t),
    ));
    out
}

} // verus!

verus! {

/// `a` and `b` differ at a position that both have, so neither is a
/// prefix of the other.
pub open spec fn diverge(a: Seq<char>, b: Seq<char>) -> bool {
    exists|d: int| 0 <= d < a.len() && 0 <= d < b.len() && #[trigger] a[d] != b[d]
}

/// A keyword followed by any text lexes to the keyword's token and then the
/// tokens of that text, when the keyword diverges from every earlier one.
pub proof fn lemma_lex_keyword_then(kws: Seq<Seq<char>>, k: int, rest: Seq<char>, mode: Skip)
    requires
        0 <= k < kws.len(),
        kws[k].len() > 0,
        !skips(mode, kws[k][0]),
        forall|j: int| 0 <= j < k ==> #[trigger] kws[j].len() > 0 ==> diverge(kws[j], kws[k]),
    ensures
        lex_keywords(kws[k] + rest, kws, mode) == seq![Some(k)] + lex_keywords(rest, kws, mode),
{
    let w = kws[k];
    let s = w + rest;
    assert(s.take(w.len() as int) =~= w);
    assert forall|j: int| 0 <= j < k implies !(kws[j].len() > 0 && has_prefix(s, #[trigger] kws[j])) by {
        if kws[j].len() > 0 && has_prefix(s, kws[j]) {
            let d = choose|d: int| 0 <= d < kws[j].len() && 0 <= d < w.len() && #[trigger] kws[j][d] != w[d];
            assert(s.take(kws[j].len() as int)[d] == s[d]);
            assert(s[d] == w[d]);
        }
    }
    lemma_keyword_at_first(s, kws, 0, k);
    assert(s[0] == w[0]);
    assert(s.skip(w.len() as int) =~= rest);
}

/// A skipped character in front of a text adds no token.
pub proof fn lemma_lex_skipped_then(c: char, rest: Seq<char>, kws: Seq<Seq<char>>, mode: Skip)
    requires
        skips(mode, c),
    ensures
        lex_keywords(seq![c] + rest, kws, mode) == lex_keywords(rest, kws, mode),
{
    let s = seq![c] + rest;
    assert(s[0] == c);
    assert(s.drop_first() =~= rest);
}

/// A character that is neither skipped nor the start of a keyword, in
/// front of a text, adds one error token.
pub proof fn lemma_lex_unknown_then(c: char, rest: Seq<char>, kws: Seq<Seq<char>>, mode: Skip)
    requires
        !skips(mode, c),
        forall|j: int| 0 <= j < kws.len() ==> #[trigger] kws[j].len() > 0 ==> kws[j][0] != c,
    ensures
        lex_keywords(seq![c] + rest, kws, mode) == seq![None::<int>] + lex_keywords(rest, kws, mode),
{
    let s = seq![c] + rest;
    assert(s[0] == c);
    assert forall|j: int| 0 <= j < kws.len() implies !(kws[j].len() > 0 && has_prefix(s, #[trigger] kws[j])) by {
        if kws[j].len() > 0 && has_prefix(s, kws[j]) {
            assert(s.take(kws[j].len() as int)[0] == s[0]);
        }
    }
    lemma_keyword_at_none(s, kws, 0);
    assert(s.drop_first() =~= rest);
}

} // verus!
