//! Verified string toolkit: the character-sequence operations that the
//! registry logic is written in (prefix/suffix tests, pattern replacement,
//! repeated trimming and splitting), each specified over `Seq<char>`.
use vstd::prelude::*;

verus! {

/// `p` is a prefix of `s`.
pub open spec fn has_prefix(s: Seq<char>, p: Seq<char>) -> bool {
    p.len() <= s.len() && s.take(p.len() as int) == p
}

/// `p` is a suffix of `s`.
pub open spec fn has_suffix(s: Seq<char>, p: Seq<char>) -> bool {
    p.len() <= s.len() && s.skip(s.len() - p.len()) == p
}

/// Replaces every non-overlapping occurrence of `p` in `s`, scanning from
/// the left, by `r` (the behaviour of `str::replace` for a non-empty pattern).
pub open spec fn replace_all(s: Seq<char>, p: Seq<char>, r: Seq<char>) -> Seq<char>
    decreases s.len(),
{
    if p.len() == 0 || s.len() == 0 {
        s
    } else if has_prefix(s, p) {
        r + replace_all(s.skip(p.len() as int), p, r)
    } else {
        seq![s[0]] + replace_all(s.drop_first(), p, r)
    }
}

/// Removes `p` from the front of `s` as many times as it occurs there
/// (the behaviour of `str::trim_start_matches` for a string pattern).
pub open spec fn trim_prefix_all(s: Seq<char>, p: Seq<char>) -> Seq<char>
    decreases s.len(),
{
    if p.len() > 0 && has_prefix(s, p) {
        trim_prefix_all(s.skip(p.len() as int), p)
    } else {
        s
    }
}

/// Removes `p` from the back of `s` as many times as it occurs there
/// (the behaviour of `str::trim_end_matches` for a string pattern).
pub open spec fn trim_suffix_all(s: Seq<char>, p: Seq<char>) -> Seq<char>
    decreases s.len(),
{
    if p.len() > 0 && has_suffix(s, p) {
        trim_suffix_all(s.take(s.len() - p.len()), p)
    } else {
        s
    }
}

/// Index of the first occurrence of `c` in `s`, if any.
pub open spec fn first_index_of(s: Seq<char>, c: char) -> Option<int>
    decreases s.len(),
{
    if s.len() == 0 {
        None
    } else if s[0] == c {
        Some(0)
    } else {
        match first_index_of(s.drop_first(), c) {
            Some(i) => Some(i + 1),
            None => None,
        }
    }
}

/// The two halves of `s` around the first occurrence of `c`
/// (the behaviour of `str::split_once` for a single-character pattern).
pub open spec fn split_once_spec(s: Seq<char>, c: char) -> Option<(Seq<char>, Seq<char>)> {
    match first_index_of(s, c) {
        Some(i) => Some((s.take(i), s.skip(i + 1))),
        None => None,
    }
}

pub proof fn lemma_first_index_of(s: Seq<char>, c: char)
    ensures
        first_index_of(s, c) matches Some(i) ==> 0 <= i < s.len() && s[i] == c && (forall|j: int|
            0 <= j < i ==> s[j] != c),
        first_index_of(s, c) is None ==> forall|j: int| 0 <= j < s.len() ==> s[j] != c,
    decreases s.len(),
{
    if s.len() > 0 {
        lemma_first_index_of(s.drop_first(), c);
        if s[0] != c {
            assert forall|j: int| 1 <= j < s.len() implies s[j] == s.drop_first()[j - 1] by {}
        }
    }
}

/// Pushes a single character onto a string.
#[verifier::external_body]
pub(crate) fn push_char(s: &mut String, c: char)
    ensures
        final(s)@ == old(s)@.push(c),
{
    s.push(c);
}

/// Returns the characters of `s` as a vector.
pub fn chars_of(s: &str) -> (v: Vec<char>)
    ensures
        v@ == s@,
{
    let mut v: Vec<char> = Vec::new();
    for c in it: s.chars()
        invariant
            v@ == it.seq().take(it.index() as int),
    {
        v.push(c);
    }
    v
}

/// Builds a string from the characters `v[from..to]`.
pub fn string_from_range(v: &[char], from: usize, to: usize) -> (s: String)
    requires
        from <= to <= v@.len(),
    ensures
        s@ == v@.subrange(from as int, to as int),
{
    let mut s = String::new();
    let mut i = from;
    while i < to
        invariant
            from <= i <= to <= v@.len(),
            s@ == v@.subrange(from as int, i as int),
        decreases to - i,
    {
        push_char(&mut s, v[i]);
        assert(v@.subrange(from as int, i + 1) == v@.subrange(from as int, i as int).push(v@[i as int]));
        i = i + 1;
    }
    s
}

/// Builds a string from all the characters of `v`.
pub fn string_from_chars(v: &[char]) -> (s: String)
    ensures
        s@ == v@,
{
    let s = string_from_range(v, 0, v.len());
    assert(v@.subrange(0, v@.len() as int) == v@);
    s
}

/// Concatenates two strings.
pub fn cat(a: &str, b: &str) -> (s: String)
    ensures
        s@ == a@ + b@,
{
    let mut s = String::from_str(a);
    s.append(b);
    s
}

/// Concatenates three strings.
pub fn cat3(a: &str, b: &str, c: &str) -> (s: String)
    ensures
        s@ == a@ + b@ + c@,
{
    let mut s = String::from_str(a);
    s.append(b);
    s.append(c);
    s
}

/// Returns whether `p` occurs in `v` at position `i`.
pub fn occurs_at(v: &[char], p: &[char], i: usize) -> (b: bool)
    requires
        i <= v@.len(),
    ensures
        b == has_prefix(v@.skip(i as int), p@),
{
    let n = v.len();
    if p.len() > n - i {
        return false;
    }
    let mut k: usize = 0;
    while k < p.len()
        invariant
            n == v@.len(),
            i + p@.len() <= v@.len(),
            k <= p@.len(),
            forall|j: int| 0 <= j < k ==> v@[i + j] == p@[j],
        decreases p@.len() - k,
    {
        assert(i + k < v@.len());
        if v[i + k] != p[k] {
            assert(v@.skip(i as int).take(p@.len() as int)[k as int] != p@[k as int]);
            return false;
        }
        k = k + 1;
    }
    assert(v@.skip(i as int).take(p@.len() as int) =~= p@);
    true
}

/// `a` and `b` hold the same characters.
pub fn str_eq(a: &str, b: &str) -> (r: bool)
    ensures
        r == (a@ == b@),
{
    let av = chars_of(a);
    let bv = chars_of(b);
    if av.len() != bv.len() {
        return false;
    }
    let r = occurs_at(&av, &bv, 0);
    assert(av@.skip(0) == av@);
    assert(r ==> av@.take(bv@.len() as int) == av@);
    r
}

/// `s` starts with `p`.
pub fn starts_with(s: &str, p: &str) -> (b: bool)
    ensures
        b == has_prefix(s@, p@),
{
    let sv = chars_of(s);
    let pv = chars_of(p);
    let b = occurs_at(&sv, &pv, 0);
    assert(sv@.skip(0) == sv@);
    b
}

/// `s` ends with `p`.
pub fn ends_with(s: &str, p: &str) -> (b: bool)
    ensures
        b == has_suffix(s@, p@),
{
    let sv = chars_of(s);
    let pv = chars_of(p);
    if pv.len() > sv.len() {
        return false;
    }
    let b = occurs_at(&sv, &pv, sv.len() - pv.len());
    assert(sv@.skip(sv@.len() - pv@.len()).take(pv@.len() as int) == sv@.skip(sv@.len() - pv@.len()));
    b
}

/// Replaces every non-overlapping occurrence of `p` in `s` by `r`.
pub fn replace_str(s: &str, p: &str, r: &str) -> (out: String)
    requires
        p@.len() > 0,
    ensures
        out@ == replace_all(s@, p@, r@),
{
    let sv = chars_of(s);
    let pv = chars_of(p);
    let mut out = String::new();
    let mut i: usize = 0;
    assert(sv@.skip(0) == sv@);
    while i < sv.len()
        invariant
            i <= sv@.len(),
            pv@ == p@,
            pv@.len() > 0,
            out@ + replace_all(sv@.skip(i as int), p@, r@) == replace_all(sv@, p@, r@),
        decreases sv@.len() - i,
    {
        let ghost rest = sv@.skip(i as int);
        if occurs_at(&sv, &pv, i) {
            assert(rest.skip(pv@.len() as int) == sv@.skip(i + pv@.len()));
            assert(out@ + r@ + replace_all(sv@.skip(i + pv@.len()), p@, r@) == out@ + (r@
                + replace_all(rest.skip(pv@.len() as int), p@, r@)));
            out.append(r);
            i = i + pv.len();
        } else {
            assert(rest.drop_first() == sv@.skip(i + 1));
            assert(rest[0] == sv@[i as int]);
            assert(out@.push(sv@[i as int]) + replace_all(sv@.skip(i + 1), p@, r@) == out@ + (seq![
                rest[0]] + replace_all(rest.drop_first(), p@, r@)));
            push_char(&mut out, sv[i]);
            i = i + 1;
        }
    }
    assert(sv@.skip(i as int).len() == 0);
    assert(out@ + sv@.skip(i as int) == out@);
    out
}

/// Removes `p` from the front of `s` as many times as it occurs there.
pub fn trim_start_matches(s: &str, p: &str) -> (out: String)
    ensures
        out@ == trim_prefix_all(s@, p@),
{
    let sv = chars_of(s);
    let pv = chars_of(p);
    let mut i: usize = 0;
    let n = sv.len();
    assert(sv@.skip(0) == sv@);
    if pv.len() > 0 {
        while occurs_at(&sv, &pv, i)
            invariant
                n == sv@.len(),
                i <= sv@.len(),
                pv@ == p@,
                pv@.len() > 0,
                trim_prefix_all(sv@.skip(i as int), p@) == trim_prefix_all(sv@, p@),
            decreases sv@.len() - i,
        {
            assert(i + pv@.len() <= sv@.len());
            assert(sv@.skip(i as int).skip(pv@.len() as int) == sv@.skip(i + pv@.len()));
            i = i + pv.len();
        }
    }
    let out = string_from_range(&sv, i, sv.len());
    assert(sv@.subrange(i as int, sv@.len() as int) == sv@.skip(i as int));
    out
}

/// Removes `p` from the back of `s` as many times as it occurs there.
pub fn trim_end_matches(s: &str, p: &str) -> (out: String)
    ensures
        out@ == trim_suffix_all(s@, p@),
{
    let sv = chars_of(s);
    let pv = chars_of(p);
    let mut e: usize = sv.len();
    assert(sv@.take(sv@.len() as int) == sv@);
    if pv.len() > 0 {
        while pv.len() <= e && occurs_at(&sv, &pv, e - pv.len())
            invariant
                e <= sv@.len(),
                pv@ == p@,
                pv@.len() > 0,
                trim_suffix_all(sv@.take(e as int), p@) == trim_suffix_all(sv@, p@),
            decreases e,
        {
            let ghost t = sv@.take(e as int);
            assert(t.skip(t.len() - pv@.len()) == sv@.skip(e - pv@.len()).take(pv@.len() as int));
            assert(t.take(t.len() - pv@.len()) == sv@.take(e - pv@.len()));
            e = e - pv.len();
        }
        proof {
            let t = sv@.take(e as int);
            if pv@.len() <= e {
                assert(t.skip(t.len() - pv@.len()) == sv@.skip(e - pv@.len()).take(pv@.len() as int));
            }
        }
    }
    let out = string_from_range(&sv, 0, e);
    assert(sv@.subrange(0, e as int) == sv@.take(e as int));
    out
}

/// Index of the first occurrence of `c` in `v`.
pub fn find_char(v: &[char], c: char) -> (r: Option<usize>)
    ensures
        r matches Some(i) ==> first_index_of(v@, c) == Some(i as int),
        r is None ==> first_index_of(v@, c) is None,
{
    let mut i: usize = 0;
    while i < v.len()
        invariant
            i <= v@.len(),
            forall|j: int| 0 <= j < i ==> v@[j] != c,
        decreases v@.len() - i,
    {
        if v[i] == c {
            proof {
                lemma_first_index_of(v@, c);
                if first_index_of(v@, c) is None {
                    assert(v@[i as int] == c);
                } else {
                    let k = first_index_of(v@, c)->0;
                    assert(!(k < i));
                    assert(!(k > i));
                }
            }
            return Some(i);
        }
        i = i + 1;
    }
    proof {
        lemma_first_index_of(v@, c);
        if first_index_of(v@, c) is Some {
            let k = first_index_of(v@, c)->0;
            assert(v@[k] == c);
        }
    }
    None
}

/// Splits `s` around the first occurrence of `c`.
pub fn split_once(s: &str, c: char) -> (r: Option<(String, String)>)
    ensures
        r matches Some(p) ==> split_once_spec(s@, c) == Some((p.0@, p.1@)),
        r is None ==> split_once_spec(s@, c) is None,
{
    let v = chars_of(s);
    match find_char(&v, c) {
        Some(i) => {
            proof { lemma_first_index_of(v@, c); }
            let a = string_from_range(&v, 0, i);
            let b = string_from_range(&v, i + 1, v.len());
            assert(v@.subrange(0, i as int) == v@.take(i as int));
            assert(v@.subrange(i + 1, v@.len() as int) == v@.skip(i + 1));
            Some((a, b))
        },
        None => None,
    }
}

} // verus!

verus! {

pub open spec fn is_digit(c: char) -> bool {
    '0' <= c <= '9'
}

/// Value of a run of decimal digits.
pub open spec fn digits_value(s: Seq<char>) -> int
    decreases s.len(),
{
    if s.len() == 0 {
        0
    } else {
        digits_value(s.drop_last()) * 10 + (s.last() as int - '0' as int)
    }
}

/// What `str::parse::<u64>` gives: an optional `+`, then one or more
/// decimal digits whose value fits in 64 bits.
pub open spec fn unsigned_digits(s: Seq<char>) -> Seq<char> {
    if s.len() > 0 && s[0] == '+' {
        s.drop_first()
    } else {
        s
    }
}

/// `d` is a non-empty run of decimal digits.
pub open spec fn is_digit_run(d: Seq<char>) -> bool {
    d.len() > 0 && forall|i: int| 0 <= i < d.len() ==> is_digit(#[trigger] d[i])
}

/// What `str::parse::<u64>` gives: an optional `+`, then one or more
/// decimal digits whose value fits in 64 bits.
pub open spec fn parse_u64_spec(s: Seq<char>) -> Option<u64> {
    let d = unsigned_digits(s);
    if is_digit_run(d) && digits_value(d) <= u64::MAX {
        Some(digits_value(d) as u64)
    } else {
        None
    }
}

proof fn lemma_digits_value_monotone(s: Seq<char>, i: int)
    requires
        0 <= i <= s.len(),
        forall|j: int| 0 <= j < s.len() ==> is_digit(#[trigger] s[j]),
    ensures
        digits_value(s.take(i)) <= digits_value(s),
        0 <= digits_value(s.take(i)),
    decreases s.len() - i,
{
    if i < s.len() {
        lemma_digits_value_monotone(s, i + 1);
        assert(s.take(i + 1).drop_last() == s.take(i));
        assert(s.take(i + 1).last() == s[i]);
        lemma_digits_nonneg(s.take(i));
    } else {
        assert(s.take(i) == s);
        lemma_digits_nonneg(s);
    }
}

proof fn lemma_digits_nonneg(s: Seq<char>)
    requires
        forall|j: int| 0 <= j < s.len() ==> is_digit(#[trigger] s[j]),
    ensures
        0 <= digits_value(s),
    decreases s.len(),
{
    if s.len() > 0 {
        assert(is_digit(s[s.len() - 1]));
        lemma_digits_nonneg(s.drop_last());
    }
}

/// Parses a decimal `u64` as `str::parse::<u64>` does.
pub fn parse_u64(s: &str) -> (r: Option<u64>)
    ensures
        r == parse_u64_spec(s@),
{
    let v = chars_of(s);
    let mut start: usize = 0;
    if v.len() > 0 && v[0] == '+' {
        start = 1;
    }
    let ghost d = unsigned_digits(s@);
    assert(d == v@.skip(start as int));
    if start == v.len() {
        return None;
    }
    let mut k = start;
    while k < v.len()
        invariant
            start <= k <= v@.len(),
            d == unsigned_digits(s@),
            d == v@.skip(start as int),
            forall|j: int| 0 <= j < k - start ==> is_digit(#[trigger] d[j]),
        decreases v@.len() - k,
    {
        assert(d[k - start] == v@[k as int]);
        if !('0' <= v[k] && v[k] <= '9') {
            assert(!is_digit(d[k - start]));
            assert(!(forall|j: int| 0 <= j < d.len() ==> is_digit(#[trigger] d[j])));
            return None;
        }
        k = k + 1;
    }
    let mut val: u64 = 0;
    let mut i = start;
    assert(d.take(0) == Seq::<char>::empty());
    while i < v.len()
        invariant
            start <= i <= v@.len(),
            d == unsigned_digits(s@),
            d == v@.skip(start as int),
            d.len() == v@.len() - start,
            forall|j: int| 0 <= j < d.len() ==> is_digit(#[trigger] d[j]),
            val == digits_value(d.take(i - start)),
        decreases v@.len() - i,
    {
        let c = v[i];
        assert(d[i - start] == v@[i as int]);
        assert(is_digit(d[i - start]));
        let digit: u64 = (c as u32 - '0' as u32) as u64;
        assert(d.take(i + 1 - start).drop_last() == d.take(i - start));
        assert(d.take(i + 1 - start).last() == c);
        match val.checked_mul(10) {
            Some(m) => match m.checked_add(digit) {
                Some(n) => {
                    val = n;
                },
                None => {
                    proof { lemma_digits_value_monotone(d, i + 1 - start); }
                    assert(digits_value(d.take(i + 1 - start)) == m + digit);
                    assert(digits_value(d) > u64::MAX);
                    return None;
                },
            },
            None => {
                proof {
                    lemma_digits_value_monotone(d, i + 1 - start);
                    lemma_digits_nonneg(d.take(i - start));
                    assert(val * 10 > u64::MAX);
                    assert(digits_value(d.take(i + 1 - start)) >= val * 10);
                    assert(digits_value(d) > u64::MAX);
                }
                return None;
            },
        }
        i = i + 1;
    }
    assert(d.take(d.len() as int) == d);
    Some(val)
}

} // verus!

verus! {

/// `char::is_whitespace`: the Unicode `White_Space` characters.
pub open spec fn is_white(c: char) -> bool {
    let n = c as u32;
    (0x09 <= n <= 0x0D) || n == 0x20 || n == 0x85 || n == 0xA0 || n == 0x1680 || (0x2000 <= n <= 0x200A)
        || n == 0x2028 || n == 0x2029 || n == 0x202F || n == 0x205F || n == 0x3000
}

/// Number of leading whitespace characters of `s`.
pub open spec fn leading_white(s: Seq<char>) -> nat
    decreases s.len(),
{
    if s.len() > 0 && is_white(s[0]) {
        1 + leading_white(s.drop_first())
    } else {
        0
    }
}

/// Number of trailing whitespace characters of `s`.
pub open spec fn trailing_white(s: Seq<char>) -> nat
    decreases s.len(),
{
    if s.len() > 0 && is_white(s.last()) {
        1 + trailing_white(s.drop_last())
    } else {
        0
    }
}

/// `s` without leading and trailing whitespace (`str::trim`).
pub open spec fn trim_white(s: Seq<char>) -> Seq<char> {
    let a = s.skip(leading_white(s) as int);
    a.take(a.len() - trailing_white(a))
}

fn is_white_exec(c: char) -> (b: bool)
    ensures
        b == is_white(c),
{
    let n = c as u32;
    (0x09 <= n && n <= 0x0D) || n == 0x20 || n == 0x85 || n == 0xA0 || n == 0x1680 || (0x2000 <= n
        && n <= 0x200A) || n == 0x2028 || n == 0x2029 || n == 0x202F || n == 0x205F || n == 0x3000
}

proof fn lemma_leading_white_le(s: Seq<char>)
    ensures
        leading_white(s) <= s.len(),
    decreases s.len(),
{
    if s.len() > 0 && is_white(s[0]) {
        lemma_leading_white_le(s.drop_first());
    }
}

proof fn lemma_trailing_white_le(s: Seq<char>)
    ensures
        trailing_white(s) <= s.len(),
    decreases s.len(),
{
    if s.len() > 0 && is_white(s.last()) {
        lemma_trailing_white_le(s.drop_last());
    }
}

/// Removes leading and trailing whitespace.
pub fn trim(s: &str) -> (out: String)
    ensures
        out@ == trim_white(s@),
{
    let v = chars_of(s);
    let mut i: usize = 0;
    assert(v@.skip(0) == v@);
    while i < v.len() && is_white_exec(v[i])
        invariant
            i <= v@.len(),
            v@ == s@,
            leading_white(v@) == i + leading_white(v@.skip(i as int)),
        decreases v@.len() - i,
    {
        assert(v@.skip(i as int).drop_first() == v@.skip(i + 1));
        i = i + 1;
    }
    proof {
        if i < v@.len() {
            assert(v@.skip(i as int)[0] == v@[i as int]);
        }
    }
    let ghost a = v@.skip(i as int);
    let mut e: usize = v.len();
    assert(a.take(a.len() as int) == a);
    while e > i && is_white_exec(v[e - 1])
        invariant
            i <= e <= v@.len(),
            a == v@.skip(i as int),
            trailing_white(a) == (v@.len() - e) + trailing_white(a.take(e - i)),
        decreases e,
    {
        let ghost t = a.take(e - i);
        assert(t.last() == v@[e - 1]);
        assert(t.drop_last() == a.take(e - 1 - i));
        e = e - 1;
    }
    proof {
        let t = a.take(e - i);
        if e > i {
            assert(t.last() == v@[e - 1]);
        }
        assert(a.take(a.len() - trailing_white(a)) == v@.subrange(i as int, e as int));
    }
    string_from_range(&v, i, e)
}

} // verus!
