//! Registry authentication: the bearer challenge a registry answers with,
//! and the token request that is built from it.
use vstd::prelude::*;
use crate::text::{replace_all, trim_prefix_all, replace_str, trim_start_matches, cat, cat3, str_eq};
use crate::http::is_client_error_status;

verus! {

/// Plugin for authenticating w/ a registry.
pub struct Authenticate;

/// Token response when authenticating.
pub struct Credentials {
    pub access_token: Option<String>,
    pub refresh_token: Option<String>,
}

/// The token-endpoint url that a `WWW-Authenticate` bearer challenge names:
/// the realm, with `service` and `scope` turned into query parameters.
pub open spec fn challenge_url(c: Seq<char>) -> Seq<char> {
    let s0 = trim_prefix_all(c, "Bearer realm=\""@);
    let s1 = replace_all(s0, "\",service="@, "?service="@);
    let s2 = replace_all(s1, ","@, "&"@);
    let s3 = replace_all(s2, "\""@, ""@);
    let s4 = replace_all(s3, "pull&push"@, "pull,push"@);
    replace_all(s4, "push&pull"@, "push,pull"@)
}

/// `c` does not occur in `s`.
pub open spec fn lacks(s: Seq<char>, c: char) -> bool {
    forall|i: int| 0 <= i < s.len() ==> s[i] != c
}

proof fn lemma_replace_removes(s: Seq<char>, c: char)
    ensures
        lacks(replace_all(s, seq![c], Seq::empty()), c),
    decreases s.len(),
{
    if s.len() > 0 {
        lemma_replace_removes(s.drop_first(), c);
        lemma_replace_removes(s.skip(1), c);
        if crate::text::has_prefix(s, seq![c]) {
            assert(s.skip(1) == s.drop_first());
            assert(Seq::<char>::empty() + replace_all(s.skip(1), seq![c], Seq::empty())
                == replace_all(s.skip(1), seq![c], Seq::empty()));
        } else {
            assert(s.take(1) == seq![s[0]]);
            let tail = replace_all(s.drop_first(), seq![c], Seq::empty());
            assert forall|i: int| 0 <= i < (seq![s[0]] + tail).len() implies (seq![s[0]]
                + tail)[i] != c by {
                if i > 0 {
                    assert((seq![s[0]] + tail)[i] == tail[i - 1]);
                }
            }
        }
    }
}

proof fn lemma_replace_keeps_lacking(s: Seq<char>, p: Seq<char>, r: Seq<char>, c: char)
    requires
        lacks(s, c),
        lacks(r, c),
    ensures
        lacks(replace_all(s, p, r), c),
    decreases s.len(),
{
    if p.len() == 0 || s.len() == 0 {
    } else if crate::text::has_prefix(s, p) {
        lemma_replace_keeps_lacking(s.skip(p.len() as int), p, r, c);
        let tail = replace_all(s.skip(p.len() as int), p, r);
        assert forall|i: int| 0 <= i < (r + tail).len() implies (r + tail)[i] != c by {
            if i >= r.len() {
                assert((r + tail)[i] == tail[i - r.len()]);
            }
        }
    } else {
        lemma_replace_keeps_lacking(s.drop_first(), p, r, c);
        let tail = replace_all(s.drop_first(), p, r);
        assert forall|i: int| 0 <= i < (seq![s[0]] + tail).len() implies (seq![s[0]]
            + tail)[i] != c by {
            if i > 0 {
                assert((seq![s[0]] + tail)[i] == tail[i - 1]);
            }
        }
    }
}

/// The url read from a challenge holds no quote character, whatever the
/// challenge: every quote of the challenge header is removed.
pub proof fn lemma_challenge_url_unquoted(c: Seq<char>)
    ensures
        lacks(challenge_url(c), '"'),
{
    let s0 = trim_prefix_all(c, "Bearer realm=\""@);
    let s1 = replace_all(s0, "\",service="@, "?service="@);
    let s2 = replace_all(s1, ","@, "&"@);
    reveal_strlit("\"");
    reveal_strlit("");
    reveal_strlit("pull,push");
    reveal_strlit("push,pull");
    assert("\""@ == seq!['"']);
    assert(""@ == Seq::<char>::empty());
    lemma_replace_removes(s2, '"');
    let s3 = replace_all(s2, "\""@, ""@);
    lemma_replace_keeps_lacking(s3, "pull&push"@, "pull,push"@, '"');
    let s4 = replace_all(s3, "pull&push"@, "pull,push"@);
    lemma_replace_keeps_lacking(s4, "push&pull"@, "push,pull"@, '"');
}


/// Bytes that `application/x-www-form-urlencoded` leaves as they are.
pub open spec fn form_unchanged(b: u8) -> bool {
    b == 42 || b == 45 || b == 46 || (48 <= b <= 57) || (65 <= b <= 90) || b == 95 || (97 <= b <= 122)
}

/// Upper-case hex digit of a nibble.
pub open spec fn upper_hex_digit(n: u8) -> char {
    if n < 10 {
        (48 + n) as char
    } else {
        (55 + n) as char
    }
}

/// Form encoding of one byte: kept, `+` for a space, `%XX` otherwise.
pub open spec fn form_byte(b: u8) -> Seq<char> {
    if form_unchanged(b) {
        seq![b as char]
    } else if b == 32 {
        seq!['+']
    } else {
        seq!['%', upper_hex_digit(b / 16), upper_hex_digit(b % 16)]
    }
}

/// Form encoding of a byte string.
pub open spec fn form_bytes(bs: Seq<u8>) -> Seq<char>
    decreases bs.len(),
{
    if bs.len() == 0 {
        Seq::empty()
    } else {
        form_byte(bs[0]) + form_bytes(bs.drop_first())
    }
}

/// Form encoding of text: the encoding of its UTF-8 bytes.
pub open spec fn form_text(s: Seq<char>) -> Seq<char> {
    form_bytes(vstd::utf8::encode_utf8(s))
}

/// `application/x-www-form-urlencoded` serialization of name/value pairs:
/// `name=value` per pair, joined by `&`.
pub open spec fn form_pairs(ps: Seq<(Seq<char>, Seq<char>)>) -> Seq<char>
    decreases ps.len(),
{
    if ps.len() == 0 {
        Seq::empty()
    } else {
        let rest = form_pairs(ps.drop_last());
        let last = form_text(ps.last().0) + seq!['='] + form_text(ps.last().1);
        if ps.len() == 1 {
            last
        } else {
            rest + seq!['&'] + last
        }
    }
}

pub open spec fn pairs_view(ps: Seq<(String, String)>) -> Seq<(Seq<char>, Seq<char>)> {
    ps.map_values(|p: (String, String)| (p.0@, p.1@))
}

/// `serde_urlencoded::to_string` of a sequence of string pairs: their form
/// serialization (a sequence of string pairs always serializes).
#[verifier::external_body]
fn form_urlencode(pairs: &Vec<(String, String)>) -> (r: Option<String>)
    ensures
        r is Some,
        r->0@ == form_pairs(pairs_view(pairs@)),
{
    serde_urlencoded::to_string(pairs).ok()
}

/// Name for the query of `uri` as `hyper::Uri` parses it: none when the
/// text is no uri or has no query.
pub uninterp spec fn uri_query(uri: Seq<char>) -> Option<Seq<char>>;

/// The query of `uri` (`hyper::Uri::from_str`, then `query`).
#[verifier::external_body]
fn query_of(uri: &str) -> (r: Option<String>)
    ensures
        match r {
            Some(q) => uri_query(uri@) == Some(q@),
            None => uri_query(uri@) is None,
        },
{
    uri.parse::<hyper::Uri>().ok().and_then(|u| u.query().map(|q| q.to_string()))
}

/// The body of the token request for a challenge with query `query`:
/// the password grant when namespace, user and password are known, else
/// the refresh token grant when namespace and token are known; nothing
/// without credentials or with an empty namespace.
pub open spec fn token_body(
    query: Seq<char>,
    ns: Option<Seq<char>>,
    user: Option<Seq<char>>,
    password: Option<Seq<char>>,
    token: Option<Seq<char>>,
) -> Option<Seq<char>> {
    if ns is Some && user is Some && password is Some {
        if ns->0.len() == 0 {
            None
        } else {
            Some(
                query + "&"@ + form_pairs(
                    seq![
                        ("grant_type"@, "password"@),
                        ("username"@, user->0),
                        ("password"@, password->0),
                    ],
                ),
            )
        }
    } else if ns is Some && token is Some {
        if ns->0.len() == 0 {
            None
        } else {
            Some(query + "&grant_type=refresh_token&refresh_token="@ + token->0)
        }
    } else {
        None
    }
}

pub open spec fn opt_seq(o: Option<&str>) -> Option<Seq<char>> {
    match o {
        Some(s) => Some(s@),
        None => None,
    }
}

impl Authenticate {
    /// Builds the body of the token request sent to the token endpoint
    /// whose url has the query `query`.
    pub fn token_request_body(
        query: &str,
        ns: Option<&str>,
        user: Option<&str>,
        password: Option<&str>,
        token: Option<&str>,
    ) -> (r: Option<String>)
        ensures
            opt_seq_string(r) == token_body(query@, opt_seq(ns), opt_seq(user), opt_seq(password), opt_seq(token)),
    {
        proof {
            reveal_strlit("&");
            reveal_strlit("grant_type");
            reveal_strlit("password");
            reveal_strlit("username");
            reveal_strlit("&grant_type=refresh_token&refresh_token=");
        }
        match (ns, user, password) {
            (Some(ns), Some(user), Some(password)) => {
                let mut pairs: Vec<(String, String)> = Vec::new();
                pairs.push((String::from_str("grant_type"), String::from_str("password")));
                pairs.push((String::from_str("username"), String::from_str(user)));
                pairs.push((String::from_str("password"), String::from_str(password)));
                assert(pairs_view(pairs@) =~= seq![
                    ("grant_type"@, "password"@),
                    ("username"@, user@),
                    ("password"@, password@),
                ]);
                let encoded = match form_urlencode(&pairs) {
                    Some(e) => e,
                    None => return None,
                };
                if ns.unicode_len() == 0 {
                    return None;
                }
                Some(cat3(query, "&", encoded.as_str()))
            },
            _ => match (ns, token) {
                (Some(ns), Some(token)) => {
                    if ns.unicode_len() == 0 {
                        return None;
                    }
                    Some(cat3(query, "&grant_type=refresh_token&refresh_token=", token))
                },
                _ => None,
            },
        }
    }

    /// Builds the token request body for the token endpoint at
    /// `challenge_url`; nothing when that url has no query.
    pub fn challenge_request_body(
        challenge_url: &str,
        ns: Option<&str>,
        user: Option<&str>,
        password: Option<&str>,
        token: Option<&str>,
    ) -> (r: Option<String>)
        ensures
            uri_query(challenge_url@) is None ==> r is None,
            uri_query(challenge_url@) matches Some(q) ==> opt_seq_string(r) == token_body(
                q,
                opt_seq(ns),
                opt_seq(user),
                opt_seq(password),
                opt_seq(token),
            ),
    {
        match query_of(challenge_url) {
            Some(q) => Self::token_request_body(q.as_str(), ns, user, password, token),
            None => None,
        }
    }

    /// The api to authenticate against: the `api` symbol, or else a
    /// non-empty `authn` symbol.
    pub fn api_to_use(api: Option<String>, authn: Option<String>) -> (r: Option<String>)
        ensures
            opt_seq_string(r) == (match api {
                Some(a) => Some(a@),
                None => match authn {
                    Some(x) => if x@.len() > 0 {
                        Some(x@)
                    } else {
                        None
                    },
                    None => None,
                },
            }),
    {
        match api {
            Some(a) => Some(a),
            None => match authn {
                Some(x) => if x.unicode_len() > 0 {
                    Some(x)
                } else {
                    None
                },
                None => None,
            },
        }
    }

    /// Whether a response to the api starts the auth challenge: a client
    /// error status does.
    pub fn starts_challenge(status: u16) -> (b: bool)
        ensures
            b == is_client_error_status(status),
    {
        crate::http::is_client_error(status)
    }

    /// The value of the `Authorization` header for an access token.
    pub fn bearer(access_token: &str) -> (h: String)
        ensures
            h@ == "Bearer "@ + access_token@,
    {
        cat("Bearer ", access_token)
    }
}

pub open spec fn opt_seq_string(o: Option<String>) -> Option<Seq<char>> {
    match o {
        Some(s) => Some(s@),
        None => None,
    }
}

impl Authenticate {
    /// Converts a `WWW-Authenticate` bearer challenge into the url of the
    /// token endpoint, e.g.
    /// `Bearer realm="https://host.io/oauth2/token",service="host.io",scope="repository:hello-world:pull"`
    /// becomes `https://host.io/oauth2/token?service=host.io&scope=repository:hello-world:pull`.
    pub fn parse_challenge_header(challenge: &str) -> (url: String)
        ensures
            url@ == challenge_url(challenge@),
    {
        proof {
            reveal_strlit("\",service=");
            reveal_strlit(",");
            reveal_strlit("\"");
            reveal_strlit("pull&push");
            reveal_strlit("push&pull");
        }
        let s0 = trim_start_matches(challenge, "Bearer realm=\"");
        let s1 = replace_str(s0.as_str(), "\",service=", "?service=");
        let s2 = replace_str(s1.as_str(), ",", "&");
        let s3 = replace_str(s2.as_str(), "\"", "");
        let s4 = replace_str(s3.as_str(), "pull&push", "pull,push");
        replace_str(s4.as_str(), "push&pull", "push,pull")
    }
}

} // verus!

verus! {

/// Text in front that lacks the pattern's first character is kept as it is.
proof fn lemma_replace_lacking_head(a: Seq<char>, b: Seq<char>, p: Seq<char>, r: Seq<char>)
    requires
        p.len() > 0,
        lacks(a, p[0]),
    ensures
        replace_all(a + b, p, r) == a + replace_all(b, p, r),
    decreases a.len(),
{
    if a.len() > 0 {
        let s = a + b;
        assert(s[0] == a[0]);
        assert(!crate::text::has_prefix(s, p)) by {
            if crate::text::has_prefix(s, p) {
                assert(s.take(p.len() as int)[0] == s[0]);
            }
        }
        assert(s.drop_first() =~= a.drop_first() + b);
        lemma_replace_lacking_head(a.drop_first(), b, p, r);
        assert(seq![a[0]] + (a.drop_first() + replace_all(b, p, r)) =~= a + replace_all(b, p, r));
    } else {
        assert(a + b =~= b);
        assert(a + replace_all(b, p, r) =~= replace_all(b, p, r));
    }
}

/// A match in front is replaced.
proof fn lemma_replace_at_match(p: Seq<char>, b: Seq<char>, r: Seq<char>)
    requires
        p.len() > 0,
    ensures
        replace_all(p + b, p, r) == r + replace_all(b, p, r),
{
    let s = p + b;
    assert(s.take(p.len() as int) =~= p);
    assert(s.skip(p.len() as int) =~= b);
}

/// A character in front that starts no match is kept.
proof fn lemma_replace_keep_char(c: char, b: Seq<char>, p: Seq<char>, r: Seq<char>)
    requires
        p.len() > 0,
        !crate::text::has_prefix(seq![c] + b, p),
    ensures
        replace_all(seq![c] + b, p, r) == seq![c] + replace_all(b, p, r),
{
    let s = seq![c] + b;
    assert(s[0] == c);
    assert(s.drop_first() =~= b);
}

/// Text in which the pattern occurs nowhere is kept as it is.
proof fn lemma_replace_no_match(s: Seq<char>, p: Seq<char>, r: Seq<char>)
    requires
        p.len() > 0,
        forall|i: int| 0 <= i < s.len() ==> !crate::text::has_prefix(#[trigger] s.skip(i), p),
    ensures
        replace_all(s, p, r) == s,
    decreases s.len(),
{
    if s.len() > 0 {
        assert(s.skip(0) =~= s);
        let t = s.drop_first();
        assert forall|i: int| 0 <= i < t.len() implies !crate::text::has_prefix(#[trigger] t.skip(i), p) by {
            assert(t.skip(i) =~= s.skip(i + 1));
        }
        lemma_replace_no_match(t, p, r);
        assert(seq![s[0]] + t =~= s);
    }
}

} // verus!

verus! {

proof fn lemma_lacks_concat(a: Seq<char>, b: Seq<char>, c: char)
    requires
        lacks(a, c),
        lacks(b, c),
    ensures
        lacks(a + b, c),
{
    assert forall|i: int| 0 <= i < (a + b).len() implies (a + b)[i] != c by {
        if i >= a.len() {
            assert((a + b)[i] == b[i - a.len()]);
        }
    }
}

/// A bearer challenge header as a registry sends it: realm, service and scope.
pub open spec fn bearer_challenge(realm: Seq<char>, service: Seq<char>, scope: Seq<char>) -> Seq<char> {
    "Bearer realm=\""@ + realm + "\",service=\""@ + service + "\",scope=\""@ + scope + "\""@
}

spec fn bearer_tail(r: Seq<char>, s: Seq<char>, t: Seq<char>) -> Seq<char> {
    r + ("\",service=\""@ + s + "\",scope=\""@ + t + seq!['"'])
}

spec fn service_replaced(r: Seq<char>, s: Seq<char>, t: Seq<char>) -> Seq<char> {
    let q = seq!['"'];
    r + "?service="@ + q + s + q + ",scope="@ + q + t + q
}

spec fn comma_replaced(r: Seq<char>, s: Seq<char>, t: Seq<char>) -> Seq<char> {
    let q = seq!['"'];
    r + "?service="@ + q + s + q + "&"@ + "scope="@ + q + t + q
}

spec fn plain_url(r: Seq<char>, s: Seq<char>, t: Seq<char>) -> Seq<char> {
    r + "?service="@ + s + "&scope="@ + t
}

proof fn lemma_bearer_trim(r: Seq<char>, s: Seq<char>, t: Seq<char>)
    requires
        lacks(r, ' '),
    ensures
        trim_prefix_all(bearer_challenge(r, s, t), "Bearer realm=\""@) == bearer_tail(r, s, t),
{
    reveal_strlit("Bearer realm=\"");
    reveal_strlit("\",service=\"");
    reveal_strlit("\",scope=\"");
    reveal_strlit("\"");
    let p0 = "Bearer realm=\""@;
    let h = bearer_challenge(r, s, t);
    let x = bearer_tail(r, s, t);
    assert(h =~= p0 + x);
    assert(h.take(p0.len() as int) =~= p0);
    assert(h.skip(p0.len() as int) =~= x);
    assert(x[r.len() as int] == '"');
    assert(!crate::text::has_prefix(x, p0)) by {
        if crate::text::has_prefix(x, p0) {
            if r.len() > 6 {
                assert(x.take(14)[6] == x[6]);
                assert(x[6] == r[6]);
            } else {
                assert(x.take(14)[r.len() as int] == x[r.len() as int]);
            }
        }
    }
    assert(trim_prefix_all(x, p0) == x);
    assert(trim_prefix_all(h, p0) == trim_prefix_all(h.skip(p0.len() as int), p0));
}

proof fn lemma_bearer_service(r: Seq<char>, s: Seq<char>, t: Seq<char>)
    requires
        lacks(r, '"'),
        lacks(s, '"'),
        lacks(s, ','),
        lacks(t, '"'),
        lacks(t, ','),
    ensures
        replace_all(bearer_tail(r, s, t), "\",service="@, "?service="@) == service_replaced(r, s, t),
{
    reveal_strlit("\",service=\"");
    reveal_strlit("\",scope=\"");
    reveal_strlit("\",service=");
    reveal_strlit("?service=");
    reveal_strlit(",scope=");
    let q = seq!['"'];
    let p1 = "\",service="@;
    let r1 = "?service="@;
    let w = s + ("\",scope=\""@ + t + q);
    lemma_replace_lacking_head(r, "\",service=\""@ + s + "\",scope=\""@ + t + q, p1, r1);
    assert("\",service=\""@ + s + "\",scope=\""@ + t + q =~= p1 + (q + w));
    lemma_replace_at_match(p1, q + w, r1);
    assert(!crate::text::has_prefix(q + w, p1)) by {
        if crate::text::has_prefix(q + w, p1) {
            assert((q + w).take(10)[1] == (q + w)[1]);
            if s.len() > 0 {
                assert(w[0] == s[0]);
            }
        }
    }
    assert(q + w =~= seq!['"'] + w);
    lemma_replace_keep_char('"', w, p1, r1);
    let v = ",scope=\""@ + t + q;
    assert(",scope=\""@ =~= ",scope="@ + q) by {
        reveal_strlit(",scope=\"");
    }
    assert(w =~= s + (seq!['"'] + v));
    lemma_replace_lacking_head(s, seq!['"'] + v, p1, r1);
    assert(!crate::text::has_prefix(seq!['"'] + v, p1)) by {
        if crate::text::has_prefix(seq!['"'] + v, p1) {
            assert((seq!['"'] + v).take(10)[3] == (seq!['"'] + v)[3]);
        }
    }
    lemma_replace_keep_char('"', v, p1, r1);
    let u = t + q;
    assert(v =~= ",scope="@ + (seq!['"'] + u));
    lemma_replace_lacking_head(",scope="@, seq!['"'] + u, p1, r1);
    assert(!crate::text::has_prefix(seq!['"'] + u, p1)) by {
        if crate::text::has_prefix(seq!['"'] + u, p1) {
            assert((seq!['"'] + u).take(10)[1] == (seq!['"'] + u)[1]);
            if t.len() > 0 {
                assert(u[0] == t[0]);
            }
        }
    }
    lemma_replace_keep_char('"', u, p1, r1);
    lemma_replace_lacking_head(t, q, p1, r1);
    lemma_replace_keep_char('"', Seq::empty(), p1, r1);
    assert(seq!['"'] + Seq::<char>::empty() =~= q);
    assert(replace_all(Seq::<char>::empty(), p1, r1) =~= Seq::<char>::empty());
    assert(bearer_tail(r, s, t) =~= r + ("\",service=\""@ + s + "\",scope=\""@ + t + q));
}

proof fn lemma_bearer_comma(r: Seq<char>, s: Seq<char>, t: Seq<char>)
    requires
        lacks(r, ','),
        lacks(s, ','),
        lacks(t, ','),
    ensures
        replace_all(service_replaced(r, s, t), ","@, "&"@) == comma_replaced(r, s, t),
{
    reveal_strlit("?service=");
    reveal_strlit(",scope=");
    reveal_strlit("scope=");
    reveal_strlit(",");
    reveal_strlit("&");
    let q = seq!['"'];
    let a1 = r + "?service="@ + q + s + q;
    let a2 = "scope="@ + q + t + q;
    assert(service_replaced(r, s, t) =~= a1 + (","@ + a2));
    assert(lacks(a1, ',')) by {
        lemma_lacks_concat(r, "?service="@, ',');
        lemma_lacks_concat(r + "?service="@, q, ',');
        lemma_lacks_concat(r + "?service="@ + q, s, ',');
        lemma_lacks_concat(r + "?service="@ + q + s, q, ',');
    }
    assert(lacks(a2, ',')) by {
        lemma_lacks_concat("scope="@, q, ',');
        lemma_lacks_concat("scope="@ + q, t, ',');
        lemma_lacks_concat("scope="@ + q + t, q, ',');
    }
    lemma_replace_lacking_head(a1, ","@ + a2, ","@, "&"@);
    lemma_replace_at_match(","@, a2, "&"@);
    lemma_replace_lacking_head(a2, Seq::empty(), ","@, "&"@);
    assert(a2 + Seq::<char>::empty() =~= a2);
    assert(replace_all(Seq::<char>::empty(), ","@, "&"@) =~= Seq::<char>::empty());
    assert(comma_replaced(r, s, t) =~= a1 + ("&"@ + a2));
}

proof fn lemma_bearer_quotes(r: Seq<char>, s: Seq<char>, t: Seq<char>)
    requires
        lacks(r, '"'),
        lacks(s, '"'),
        lacks(t, '"'),
    ensures
        replace_all(comma_replaced(r, s, t), "\""@, ""@) == plain_url(r, s, t),
{
    reveal_strlit("?service=");
    reveal_strlit("scope=");
    reveal_strlit("&");
    reveal_strlit("&scope=");
    reveal_strlit("\"");
    reveal_strlit("");
    let q = seq!['"'];
    let e = Seq::<char>::empty();
    assert("\""@ =~= q);
    assert(""@ =~= e);
    let c1 = r + "?service="@;
    let c3 = "&scope="@;
    assert(lacks(c1, '"')) by {
        lemma_lacks_concat(r, "?service="@, '"');
    }
    assert(comma_replaced(r, s, t) =~= c1 + (q + (s + (q + (c3 + (q + (t + q)))))));
    lemma_replace_lacking_head(c1, q + (s + (q + (c3 + (q + (t + q))))), q, e);
    lemma_replace_at_match(q, s + (q + (c3 + (q + (t + q)))), e);
    lemma_replace_lacking_head(s, q + (c3 + (q + (t + q))), q, e);
    lemma_replace_at_match(q, c3 + (q + (t + q)), e);
    lemma_replace_lacking_head(c3, q + (t + q), q, e);
    lemma_replace_at_match(q, t + q, e);
    lemma_replace_lacking_head(t, q, q, e);
    lemma_replace_at_match(q, e, e);
    assert(q + e =~= q);
    assert(replace_all(e, q, e) =~= e);
    assert(plain_url(r, s, t) =~= c1 + (e + (s + (e + (c3 + (e + (t + e)))))));
}

proof fn lemma_bearer_scope_fix(r: Seq<char>, s: Seq<char>, t: Seq<char>, p: Seq<char>, fix: Seq<char>)
    requires
        lacks(r, '&'),
        lacks(s, '&'),
        lacks(t, '&'),
        p.len() == 9,
        p[4] == '&',
        p[5] == 'p',
    ensures
        replace_all(plain_url(r, s, t), p, fix) == plain_url(r, s, t),
{
    reveal_strlit("?service=");
    reveal_strlit("&scope=");
    let z = plain_url(r, s, t);
    let zu = r + "?service="@ + s;
    assert(lacks(zu, '&')) by {
        lemma_lacks_concat(r, "?service="@, '&');
        lemma_lacks_concat(r + "?service="@, s, '&');
    }
    assert(z =~= zu + ("&scope="@ + t));
    assert forall|j: int| 0 <= j < z.len() - 1 && #[trigger] z[j] == '&' implies z[j + 1] == 's' by {
        if j < zu.len() {
            assert(z[j] == zu[j]);
        } else if j >= zu.len() + 7 {
            assert(z[j] == t[j - zu.len() - 7]);
        } else {
            assert(z[j] == "&scope="@[j - zu.len()]);
        }
    }
    assert forall|i: int| 0 <= i < z.len() implies !crate::text::has_prefix(#[trigger] z.skip(i), p) by {
        if crate::text::has_prefix(z.skip(i), p) {
            assert(z.skip(i).take(9)[4] == z[i + 4]);
            assert(z.skip(i).take(9)[5] == z[i + 5]);
        }
    }
    lemma_replace_no_match(z, p, fix);
}

/// The url a challenge names is its realm with the service and scope as
/// query parameters: for a challenge `Bearer realm="R",service="S",scope="T"`
/// whose values hold no quote, comma or ampersand (and a realm without
/// spaces), the url is `R?service=S&scope=T`.
pub proof fn lemma_challenge_url_of_bearer(realm: Seq<char>, service: Seq<char>, scope: Seq<char>)
    requires
        lacks(realm, '"'),
        lacks(realm, ','),
        lacks(realm, '&'),
        lacks(realm, ' '),
        lacks(service, '"'),
        lacks(service, ','),
        lacks(service, '&'),
        lacks(scope, '"'),
        lacks(scope, ','),
        lacks(scope, '&'),
    ensures
        challenge_url(bearer_challenge(realm, service, scope)) == realm + "?service="@ + service + "&scope="@
            + scope,
{
    reveal_strlit("pull&push");
    reveal_strlit("push&pull");
    let (r, s, t) = (realm, service, scope);
    lemma_bearer_trim(r, s, t);
    lemma_bearer_service(r, s, t);
    lemma_bearer_comma(r, s, t);
    lemma_bearer_quotes(r, s, t);
    lemma_bearer_scope_fix(r, s, t, "pull&push"@, "pull,push"@);
    lemma_bearer_scope_fix(r, s, t, "push&pull"@, "push,pull"@);
}

} // verus!

verus! {

/// The password grant wins: with a non-empty namespace, a user and a
/// password, the token request body is the challenge query, `&`, and the
/// form encoding of `grant_type=password`, the user name and the password,
/// whatever refresh token is also known. Without a user or a password, a
/// known refresh token gives the refresh-token grant.
pub proof fn lemma_token_body_grants(
    query: Seq<char>,
    ns: Seq<char>,
    user: Option<Seq<char>>,
    password: Option<Seq<char>>,
    token: Option<Seq<char>>,
)
    requires
        ns.len() > 0,
    ensures
        user is Some && password is Some ==> {
            &&& token_body(query, Some(ns), user, password, token) == Some(
                query + seq!['&'] + form_pairs(
                    seq![
                        (seq!['g', 'r', 'a', 'n', 't', '_', 't', 'y', 'p', 'e'], seq!['p', 'a', 's', 's', 'w', 'o', 'r', 'd']),
                        (seq!['u', 's', 'e', 'r', 'n', 'a', 'm', 'e'], user->0),
                        (seq!['p', 'a', 's', 's', 'w', 'o', 'r', 'd'], password->0),
                    ],
                ),
            )
            &&& token_body(query, Some(ns), user, password, token) == token_body(
                query,
                Some(ns),
                user,
                password,
                None,
            )
        },
        !(user is Some && password is Some) && token is Some ==> token_body(query, Some(ns), user, password, token)
            == Some(query + "&grant_type=refresh_token&refresh_token="@ + token->0),
        !(user is Some && password is Some) && token is None ==> token_body(query, Some(ns), user, password, token)
            is None,
{
    reveal_strlit("&");
    reveal_strlit("grant_type");
    reveal_strlit("password");
    reveal_strlit("username");
    assert("&"@ =~= seq!['&']);
    assert("grant_type"@ =~= seq!['g', 'r', 'a', 'n', 't', '_', 't', 'y', 'p', 'e']);
    assert("password"@ =~= seq!['p', 'a', 's', 's', 'w', 'o', 'r', 'd']);
    assert("username"@ =~= seq!['u', 's', 'e', 'r', 'n', 'a', 'm', 'e']);
    if user is Some && password is Some {
        assert(seq![
            ("grant_type"@, "password"@),
            ("username"@, user->0),
            ("password"@, password->0),
        ] =~= seq![
            (seq!['g', 'r', 'a', 'n', 't', '_', 't', 'y', 'p', 'e'], seq!['p', 'a', 's', 's', 'w', 'o', 'r', 'd']),
            (seq!['u', 's', 'e', 'r', 'n', 'a', 'm', 'e'], user->0),
            (seq!['p', 'a', 's', 's', 'w', 'o', 'r', 'd'], password->0),
        ]);
    }
}

} // verus!
