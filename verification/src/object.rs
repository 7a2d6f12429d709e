//! The object part of a repository request: a tag reference or a
//! content digest, with its lexer and its rendering.
use vstd::prelude::*;
use crate::text::{chars_of, has_prefix, occurs_at, string_from_range, cat};

verus! {

/// Enumeration of object types for repos, can either be a reference tag or sha digest.
///
/// A reference tag is `[a-zA-Z0-9_][a-zA-Z0-9._-]{0,127}` (the OCI rule: 1 to
/// 128 characters; a longer run is an error token);
/// a digest is `sha256:` or `sha512:` followed by lower-case hex digits.
#[derive(Debug, PartialEq, Eq, Clone)]
pub enum Object {
    /// A tag reference.
    Reference(String),
    /// A `sha256:` or `sha512:` content digest.
    Digest(String),
    /// Input that is neither.
    Error,
}

/// Mathematical model of an [`Object`].
pub enum ObjectModel {
    Reference(Seq<char>),
    Digest(Seq<char>),
    Error,
}

impl View for Object {
    type V = ObjectModel;

    open spec fn view(&self) -> ObjectModel {
        match self {
            Object::Reference(r) => ObjectModel::Reference(r@),
            Object::Digest(d) => ObjectModel::Digest(d@),
            Object::Error => ObjectModel::Error,
        }
    }
}

/// Characters skipped between tokens.
pub open spec fn is_blank(c: char) -> bool {
    c == ' ' || c == '\t' || c == '\n' || c == '\x0C'
}

/// First character of a reference tag.
pub open spec fn is_ref_head(c: char) -> bool {
    ('a' <= c <= 'z') || ('A' <= c <= 'Z') || ('0' <= c <= '9') || c == '_'
}

/// Following characters of a reference tag.
pub open spec fn is_ref_tail(c: char) -> bool {
    is_ref_head(c) || c == '.' || c == '-'
}

/// Characters of a digest's hex part.
pub open spec fn is_hex_lower(c: char) -> bool {
    ('a' <= c <= 'f') || ('0' <= c <= '9')
}

/// `s` with its leading blanks removed.
pub open spec fn skip_blanks(s: Seq<char>) -> Seq<char>
    decreases s.len(),
{
    if s.len() > 0 && is_blank(s[0]) {
        skip_blanks(s.drop_first())
    } else {
        s
    }
}

/// Length of the longest prefix of `s` made of reference-tail characters.
pub open spec fn ref_tail_run(s: Seq<char>) -> nat
    decreases s.len(),
{
    if s.len() > 0 && is_ref_tail(s[0]) {
        1 + ref_tail_run(s.drop_first())
    } else {
        0
    }
}

/// Length of the longest prefix of `s` made of lower-case hex digits.
pub open spec fn hex_run(s: Seq<char>) -> nat
    decreases s.len(),
{
    if s.len() > 0 && is_hex_lower(s[0]) {
        1 + hex_run(s.drop_first())
    } else {
        0
    }
}

/// Length of the longest prefix of `t` that is a reference tag (0 when none).
pub open spec fn ref_match_len(t: Seq<char>) -> nat {
    if t.len() >= 1 && is_ref_head(t[0]) {
        1 + ref_tail_run(t.drop_first())
    } else {
        0
    }
}

pub open spec fn sha256_tag() -> Seq<char> {
    seq!['s', 'h', 'a', '2', '5', '6', ':']
}

pub open spec fn sha512_tag() -> Seq<char> {
    seq!['s', 'h', 'a', '5', '1', '2', ':']
}

/// `t` starts with a digest algorithm tag.
pub open spec fn has_digest_tag(t: Seq<char>) -> bool {
    has_prefix(t, sha256_tag()) || has_prefix(t, sha512_tag())
}

/// Length of the longest prefix of `t` that is a digest (0 when none).
pub open spec fn digest_match_len(t: Seq<char>) -> nat {
    if has_digest_tag(t) && hex_run(t.skip(7)) > 0 {
        7 + hex_run(t.skip(7))
    } else {
        0
    }
}

/// Number of bytes of the UTF-8 encoding of `s`.
pub open spec fn utf8_len(s: Seq<char>) -> nat
    decreases s.len(),
{
    if s.len() == 0 {
        0
    } else {
        utf8_width(s[0]) + utf8_len(s.drop_first())
    }
}

/// The first token of `s`.
///
/// Blanks are skipped; the longest match wins. A digest token keeps the
/// rest of the input after its hex part; a reference longer than 128
/// characters is an error token.
pub open spec fn lex_object(s: Seq<char>) -> Option<ObjectModel> {
    let t = skip_blanks(s);
    if t.len() == 0 {
        None
    } else if digest_match_len(t) > 0 {
        Some(ObjectModel::Digest(t))
    } else if ref_match_len(t) > 0 {
        if ref_match_len(t) > 128 {
            Some(ObjectModel::Error)
        } else {
            Some(ObjectModel::Reference(t.take(ref_match_len(t) as int)))
        }
    } else {
        Some(ObjectModel::Error)
    }
}

/// Lexing `s` does not overrun a digest: what follows the hex part of a
/// `sha256` digest is under 64 bytes, of a `sha512` digest under 128 bytes.
pub open spec fn lexable_object(s: Seq<char>) -> bool {
    let t = skip_blanks(s);
    digest_match_len(t) > 0 ==> {
        let rest = t.skip(digest_match_len(t) as int);
        if has_prefix(t, sha256_tag()) {
            utf8_len(rest) < 64
        } else {
            utf8_len(rest) < 128
        }
    }
}

/// Plain rendering of an object (`{}`).
pub open spec fn object_text(o: ObjectModel) -> Seq<char> {
    match o {
        ObjectModel::Reference(r) => r,
        ObjectModel::Digest(d) => d,
        ObjectModel::Error => Seq::empty(),
    }
}

/// Rendering of an object as the tail of an image reference (`{:#}`):
/// `:tag` or `@digest`.
pub open spec fn object_suffix(o: ObjectModel) -> Seq<char> {
    match o {
        ObjectModel::Reference(r) => seq![':'] + r,
        ObjectModel::Digest(d) => seq!['@'] + d,
        ObjectModel::Error => Seq::empty(),
    }
}


proof fn lemma_ref_tail_run_chars(s: Seq<char>)
    ensures
        ref_tail_run(s) <= s.len(),
        forall|j: int| 0 <= j < ref_tail_run(s) ==> is_ref_tail(s[j]),
    decreases s.len(),
{
    if s.len() > 0 && is_ref_tail(s[0]) {
        lemma_ref_tail_run_chars(s.drop_first());
        assert forall|j: int| 0 <= j < ref_tail_run(s) implies is_ref_tail(s[j]) by {
            if j > 0 {
                assert(s[j] == s.drop_first()[j - 1]);
            }
        }
    }
}

proof fn lemma_ref_tail_run_take(s: Seq<char>, k: int)
    requires
        ref_tail_run(s) <= k <= s.len(),
    ensures
        ref_tail_run(s.take(k)) == ref_tail_run(s),
    decreases s.len(),
{
    if s.len() > 0 && is_ref_tail(s[0]) {
        assert(k >= 1);
        assert(s.take(k).drop_first() == s.drop_first().take(k - 1));
        lemma_ref_tail_run_take(s.drop_first(), k - 1);
    } else if k > 0 {
        assert(s.take(k)[0] == s[0]);
    }
}

/// Re-lexing the plain rendering of a lexed object gives the same object
/// back: a tag or a digest that the lexer read is rendered as text that the
/// lexer reads as that very tag or digest.
pub proof fn lemma_lex_render_roundtrip(s: Seq<char>)
    requires
        lexable_object(s),
        lex_object(s) matches Some(o) && !(o is Error),
    ensures
        lexable_object(object_text(lex_object(s)->0)),
        lex_object(object_text(lex_object(s)->0)) == lex_object(s),
{
    let t = skip_blanks(s);
    let o = lex_object(s)->0;
    if digest_match_len(t) > 0 {
        assert(t[0] == 's');
        assert(skip_blanks(t) == t);
    } else {
        let n = ref_match_len(t);
        let r = t.take(n as int);
        lemma_ref_tail_run_chars(t.drop_first());
        lemma_ref_tail_run_take(t.drop_first(), n - 1);
        assert(r.drop_first() == t.drop_first().take(n - 1));
        assert(r[0] == t[0]);
        assert(skip_blanks(r) == r);
        if has_prefix(r, sha256_tag()) {
            assert(r[6] == r.take(7)[6]);
            assert(is_ref_tail(t.drop_first()[5]));
        }
        if has_prefix(r, sha512_tag()) {
            assert(r[6] == r.take(7)[6]);
            assert(is_ref_tail(t.drop_first()[5]));
        }
        assert(ref_match_len(r) == n);
        assert(r.take(n as int) == r);
    }
}


/// UTF-8 width of `c`.
pub open spec fn utf8_width(c: char) -> nat {
    let c = c as u32;
    if c < 0x80 {
        1
    } else if c < 0x800 {
        2
    } else if c < 0x10000 {
        3
    } else {
        4
    }
}

proof fn lemma_utf8_len_step(s: Seq<char>, i: int)
    requires
        0 <= i < s.len(),
    ensures
        utf8_len(s.skip(i)) == utf8_width(s[i]) + utf8_len(s.skip(i + 1)),
{
    assert(s.skip(i).drop_first() == s.skip(i + 1));
    assert(s.skip(i)[0] == s[i]);
}

proof fn lemma_utf8_len_suffix_le(s: Seq<char>, j: int, i: int)
    requires
        0 <= j <= i <= s.len(),
    ensures
        utf8_len(s.skip(i)) <= utf8_len(s.skip(j)),
    decreases i - j,
{
    if j < i {
        lemma_utf8_len_step(s, j);
        lemma_utf8_len_suffix_le(s, j + 1, i);
    }
}

fn utf8_width_exec(c: char) -> (w: u64)
    ensures
        w == utf8_width(c),
{
    let n = c as u32;
    if n < 0x80 {
        1
    } else if n < 0x800 {
        2
    } else if n < 0x10000 {
        3
    } else {
        4
    }
}

/// Whether the UTF-8 encoding of `v[from..]` is shorter than `limit` bytes.
fn utf8_len_below(v: &[char], from: usize, limit: u64) -> (b: bool)
    requires
        from <= v@.len(),
        0 < limit <= 1024,
    ensures
        b == (utf8_len(v@.skip(from as int)) < limit),
{
    let mut i = v.len();
    let mut acc: u64 = 0;
    assert(v@.skip(v@.len() as int).len() == 0);
    while i > from
        invariant
            from <= i <= v@.len(),
            acc == utf8_len(v@.skip(i as int)),
            acc < limit,
            limit <= 1024,
        decreases i,
    {
        proof { lemma_utf8_len_step(v@, i - 1); }
        acc = acc + utf8_width_exec(v[i - 1]);
        i = i - 1;
        if acc >= limit {
            proof { lemma_utf8_len_suffix_le(v@, from as int, i as int); }
            return false;
        }
    }
    true
}

/// Whether [`Object::lex`] accepts `input` (see [`lexable_object`]).
pub fn lexable(input: &str) -> (b: bool)
    ensures
        b == lexable_object(input@),
{
    let v = chars_of(input);
    let i = skip_blanks_index(&v);
    let ghost t = v@.skip(i as int);
    let tag256 = chars_of("sha256:");
    let tag512 = chars_of("sha512:");
    proof {
        reveal_strlit("sha256:");
        reveal_strlit("sha512:");
        assert(tag256@ == sha256_tag());
        assert(tag512@ == sha512_tag());
    }
    let is256 = occurs_at(&v, &tag256, i);
    let is512 = occurs_at(&v, &tag512, i);
    if !(is256 || is512) {
        return true;
    }
    assert(i + 7 <= v.len());
    let h = hex_run_at(&v, i + 7);
    assert(t.skip(7) == v@.skip(i + 7));
    if h == 0 {
        return true;
    }
    let end = i + 7 + h;
    assert(t.skip(7 + h) == v@.skip(end as int));
    if is256 {
        utf8_len_below(&v, end, 64)
    } else {
        utf8_len_below(&v, end, 128)
    }
}

fn is_blank_exec(c: char) -> (b: bool)
    ensures
        b == is_blank(c),
{
    c == ' ' || c == '\t' || c == '\n' || c == '\x0C'
}

fn is_ref_head_exec(c: char) -> (b: bool)
    ensures
        b == is_ref_head(c),
{
    ('a' <= c && c <= 'z') || ('A' <= c && c <= 'Z') || ('0' <= c && c <= '9') || c == '_'
}

fn is_ref_tail_exec(c: char) -> (b: bool)
    ensures
        b == is_ref_tail(c),
{
    is_ref_head_exec(c) || c == '.' || c == '-'
}

fn is_hex_lower_exec(c: char) -> (b: bool)
    ensures
        b == is_hex_lower(c),
{
    ('a' <= c && c <= 'f') || ('0' <= c && c <= '9')
}

/// Index of the first non-blank character of `v`.
pub(crate) fn skip_blanks_index(v: &[char]) -> (i: usize)
    ensures
        i <= v@.len(),
        skip_blanks(v@) == v@.skip(i as int),
{
    let mut i: usize = 0;
    assert(v@.skip(0) == v@);
    while i < v.len() && is_blank_exec(v[i])
        invariant
            i <= v@.len(),
            skip_blanks(v@.skip(i as int)) == skip_blanks(v@),
        decreases v@.len() - i,
    {
        assert(v@.skip(i as int).drop_first() == v@.skip(i + 1));
        i = i + 1;
    }
    i
}

/// Length of the reference-tail run of `v` starting at `from`.
fn ref_tail_run_at(v: &[char], from: usize) -> (n: usize)
    requires
        from <= v@.len(),
    ensures
        n == ref_tail_run(v@.skip(from as int)),
        from + n <= v@.len(),
{
    let mut j = from;
    while j < v.len() && is_ref_tail_exec(v[j])
        invariant
            from <= j <= v@.len(),
            ref_tail_run(v@.skip(from as int)) == (j - from) + ref_tail_run(v@.skip(j as int)),
        decreases v@.len() - j,
    {
        assert(v@.skip(j as int).drop_first() == v@.skip(j + 1));
        j = j + 1;
    }
    j - from
}

/// Length of the hex run of `v` starting at `from`.
fn hex_run_at(v: &[char], from: usize) -> (n: usize)
    requires
        from <= v@.len(),
    ensures
        n == hex_run(v@.skip(from as int)),
        from + n <= v@.len(),
{
    let mut j = from;
    while j < v.len() && is_hex_lower_exec(v[j])
        invariant
            from <= j <= v@.len(),
            hex_run(v@.skip(from as int)) == (j - from) + hex_run(v@.skip(j as int)),
        decreases v@.len() - j,
    {
        assert(v@.skip(j as int).drop_first() == v@.skip(j + 1));
        j = j + 1;
    }
    j - from
}

impl Object {
    /// Returns the first token of `input`, as the object lexer reads it.
    pub fn lex(input: &str) -> (r: Option<Object>)
        requires
            lexable_object(input@),
        ensures
            match r {
                Some(o) => lex_object(input@) == Some(o@),
                None => lex_object(input@) is None,
            },
    {
        let v = chars_of(input);
        let i = skip_blanks_index(&v);
        let ghost t = v@.skip(i as int);
        if i == v.len() {
            return None;
        }
        let tag256 = chars_of("sha256:");
        let tag512 = chars_of("sha512:");
        proof {
            reveal_strlit("sha256:");
            reveal_strlit("sha512:");
            assert(tag256@ == sha256_tag());
            assert(tag512@ == sha512_tag());
        }
        let is256 = occurs_at(&v, &tag256, i);
        let is512 = occurs_at(&v, &tag512, i);
        if is256 || is512 {
            let h = hex_run_at(&v, i + 7);
            assert(t.skip(7) == v@.skip(i + 7));
            if h > 0 {
                let d = string_from_range(&v, i, v.len());
                assert(v@.subrange(i as int, v@.len() as int) == t);
                return Some(Object::Digest(d));
            }
        }
        proof {
            if !(is256 || is512) {
                assert(!has_digest_tag(t));
            }
        }
        if is_ref_head_exec(v[i]) {
            let n = ref_tail_run_at(&v, i + 1);
            assert(t.drop_first() == v@.skip(i + 1));
            if n + 1 > 128 {
                return Some(Object::Error);
            }
            let r = string_from_range(&v, i, i + 1 + n);
            assert(v@.subrange(i as int, i + 1 + n) == t.take(n + 1));
            return Some(Object::Reference(r));
        }
        Some(Object::Error)
    }

    /// Returns the plain text of this object (its `{}` rendering).
    pub fn text(&self) -> (s: String)
        requires
            !(self@ is Error),
        ensures
            s@ == object_text(self@),
    {
        match self {
            Object::Reference(r) => r.clone(),
            Object::Digest(d) => d.clone(),
            Object::Error => String::new(),
        }
    }

    /// Returns this object as the tail of an image reference (its `{:#}`
    /// rendering): `:tag` for a reference, `@digest` for a digest.
    pub fn suffix(&self) -> (s: String)
        requires
            !(self@ is Error),
        ensures
            s@ == object_suffix(self@),
    {
        match self {
            Object::Reference(r) => {
                let s = cat(":", r.as_str());
                proof { reveal_strlit(":"); }
                s
            },
            Object::Digest(d) => {
                let s = cat("@", d.as_str());
                proof { reveal_strlit("@"); }
                s
            },
            Object::Error => String::new(),
        }
    }

    /// Returns a copy of this object.
    pub fn duplicate(&self) -> (o: Object)
        ensures
            o@ == self@,
    {
        match self {
            Object::Reference(r) => Object::Reference(r.clone()),
            Object::Digest(d) => Object::Digest(d.clone()),
            Object::Error => Object::Error,
        }
    }
}

} // verus!

verus! {

/// A tag character as the OCI rule writes it: `[a-zA-Z0-9_]`.
pub open spec fn oci_tag_head(c: char) -> bool {
    ('a' <= c && c <= 'z') || ('A' <= c && c <= 'Z') || ('0' <= c && c <= '9') || c == '_'
}

/// A following tag character as the OCI rule writes it: `[a-zA-Z0-9._-]`.
pub open spec fn oci_tag_char(c: char) -> bool {
    oci_tag_head(c) || c == '.' || c == '-'
}

proof fn lemma_ref_tail_run_all(s: Seq<char>)
    requires
        forall|i: int| 0 <= i < s.len() ==> oci_tag_char(#[trigger] s[i]),
    ensures
        ref_tail_run(s) == s.len(),
    decreases s.len(),
{
    if s.len() > 0 {
        let t = s.drop_first();
        assert forall|i: int| 0 <= i < t.len() implies oci_tag_char(#[trigger] t[i]) by {
            assert(t[i] == s[i + 1]);
        }
        lemma_ref_tail_run_all(t);
        assert(oci_tag_char(s[0]));
    }
}

/// Every OCI tag is read as a reference to exactly that tag: a text of 1 to
/// 128 characters whose first is in `[a-zA-Z0-9_]` and all others in
/// `[a-zA-Z0-9._-]` (upper case included), followed by nothing or by a
/// blank and anything, lexes to `Reference` of the whole tag.
pub proof fn lemma_oci_tag_lexes(tag: Seq<char>, rest: Seq<char>)
    requires
        1 <= tag.len() <= 128,
        oci_tag_head(tag[0]),
        forall|i: int| 1 <= i < tag.len() ==> oci_tag_char(#[trigger] tag[i]),
        rest.len() == 0 || rest[0] == ' ',
    ensures
        lexable_object(tag + rest),
        lex_object(tag + rest) == Some(ObjectModel::Reference(tag)),
{
    let s = tag + rest;
    assert(s[0] == tag[0]);
    assert(skip_blanks(s) == s);
    assert(!has_digest_tag(s)) by {
        if has_prefix(s, sha256_tag()) || has_prefix(s, sha512_tag()) {
            assert(s.take(7)[6] == s[6]);
            if tag.len() > 6 {
                assert(s[6] == tag[6]);
                assert(oci_tag_char(tag[6]));
            } else {
                assert(s[tag.len() as int] == rest[0]);
                assert(s.take(7)[tag.len() as int] == s[tag.len() as int]);
            }
        }
    }
    let t = s.drop_first();
    let tt = tag.drop_first();
    assert forall|i: int| 0 <= i < tt.len() implies oci_tag_char(#[trigger] tt[i]) by {
        assert(tt[i] == tag[i + 1]);
    }
    lemma_ref_tail_run_all(tt);
    assert(t =~= tt + rest);
    assert(ref_tail_run(t) == tt.len()) by {
        lemma_ref_tail_run_prefix(tt, rest);
    }
    assert(s.take(tag.len() as int) =~= tag);
}

proof fn lemma_ref_tail_run_prefix(a: Seq<char>, rest: Seq<char>)
    requires
        ref_tail_run(a) == a.len(),
        rest.len() == 0 || rest[0] == ' ',
    ensures
        ref_tail_run(a + rest) == a.len(),
    decreases a.len(),
{
    if a.len() > 0 {
        assert((a + rest)[0] == a[0]);
        assert((a + rest).drop_first() =~= a.drop_first() + rest);
        lemma_ref_tail_run_prefix(a.drop_first(), rest);
    } else {
        assert(a + rest =~= rest);
    }
}

} // verus!
