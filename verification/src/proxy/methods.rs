//! Request methods named in a proxy definition and the routes they enable.
use vstd::prelude::*;
use crate::lexers::{Skip, lex_keywords, lex_keywords_exec, keywords_view};
use crate::proxy::resources::Resources;

verus! {

/// Enumeration of methods to proxy, as read from `.manifests`/`.blobs`
/// attribute values.
#[derive(Debug, PartialEq, Eq, Clone, Copy, Hash)]
pub enum Methods {
    Head,
    Get,
    Post,
    Put,
    Patch,
    Delete,
    Error,
}

/// Keywords of the method lexer, in token order.
pub open spec fn method_keywords() -> Seq<Seq<char>> {
    seq!["head"@, "get"@, "post"@, "put"@, "patch"@, "delete"@]
}

pub open spec fn method_of_token(t: Option<int>) -> Methods {
    match t {
        Some(k) => if k == 0 {
            Methods::Head
        } else if k == 1 {
            Methods::Get
        } else if k == 2 {
            Methods::Post
        } else if k == 3 {
            Methods::Put
        } else if k == 4 {
            Methods::Patch
        } else if k == 5 {
            Methods::Delete
        } else {
            Methods::Error
        },
        None => Methods::Error,
    }
}

/// The methods named in `s` (blanks skipped; anything else is an error
/// token per character).
pub open spec fn lex_methods(s: Seq<char>) -> Seq<Methods> {
    lex_keywords(s, method_keywords(), Skip::Blanks).map_values(|t: Option<int>| method_of_token(t))
}

/// Whether a route for `resource` is defined for method `m`: manifests take
/// HEAD, GET, PUT and DELETE; blobs take GET, PUT, PATCH and POST; tags take GET.
pub open spec fn route_allowed(m: Methods, resource: Resources) -> bool {
    match resource {
        Resources::Manifests => m == Methods::Head || m == Methods::Delete || m == Methods::Get || m
            == Methods::Put,
        Resources::Blobs => m == Methods::Get || m == Methods::Put || m == Methods::Patch || m
            == Methods::Post,
        Resources::Tags => m == Methods::Get,
        Resources::Error => false,
    }
}

/// The methods of `ms` that define a route for `resource`, in order.
pub open spec fn routed_methods(ms: Seq<Methods>, resource: Resources) -> Seq<Methods>
    decreases ms.len(),
{
    if ms.len() == 0 {
        Seq::empty()
    } else {
        let rest = routed_methods(ms.drop_last(), resource);
        if route_allowed(ms.last(), resource) {
            rest.push(ms.last())
        } else {
            rest
        }
    }
}

/// Name of a method as it appears in a proxy definition.
pub open spec fn method_name(m: Methods) -> Seq<char> {
    match m {
        Methods::Head => "head"@,
        Methods::Get => "get"@,
        Methods::Post => "post"@,
        Methods::Put => "put"@,
        Methods::Patch => "patch"@,
        Methods::Delete => "delete"@,
        Methods::Error => Seq::empty(),
    }
}

impl Methods {
    /// Returns the tokens of `content`.
    pub fn lex_all(content: &str) -> (out: Vec<Methods>)
        ensures
            out@ == lex_methods(content@),
    {
        let kws: [&str; 6] = ["head", "get", "post", "put", "patch", "delete"];
        proof {
            reveal_strlit("head");
            reveal_strlit("get");
            reveal_strlit("post");
            reveal_strlit("put");
            reveal_strlit("patch");
            reveal_strlit("delete");
            assert(keywords_view(kws@) =~= method_keywords());
        }
        let toks = lex_keywords_exec(content, &kws, Skip::Blanks);
        let ghost tv = toks@.map_values(|t: Option<usize>| crate::lexers::token_view(t));
        let mut out: Vec<Methods> = Vec::new();
        let mut i: usize = 0;
        while i < toks.len()
            invariant
                i <= toks@.len(),
                tv == toks@.map_values(|t: Option<usize>| crate::lexers::token_view(t)),
                out@ == tv.take(i as int).map_values(|t: Option<int>| method_of_token(t)),
            decreases toks@.len() - i,
        {
            let m = match toks[i] {
                Some(0) => Methods::Head,
                Some(1) => Methods::Get,
                Some(2) => Methods::Post,
                Some(3) => Methods::Put,
                Some(4) => Methods::Patch,
                Some(5) => Methods::Delete,
                _ => Methods::Error,
            };
            assert(tv[i as int] == crate::lexers::token_view(toks@[i as int]));
            out.push(m);
            assert(tv.take(i + 1).map_values(|t: Option<int>| method_of_token(t)) =~= tv.take(
                i as int,
            ).map_values(|t: Option<int>| method_of_token(t)).push(method_of_token(tv[i as int])));
            i = i + 1;
        }
        assert(tv.take(toks@.len() as int) == tv);
        out
    }

    /// Whether this method defines a route for `resource`.
    pub fn allows(&self, resource: Resources) -> (b: bool)
        ensures
            b == route_allowed(*self, resource),
    {
        match resource {
            Resources::Manifests => match self {
                Methods::Head | Methods::Delete | Methods::Get | Methods::Put => true,
                _ => false,
            },
            Resources::Blobs => match self {
                Methods::Get | Methods::Put | Methods::Patch | Methods::Post => true,
                _ => false,
            },
            Resources::Tags => match self {
                Methods::Get => true,
                _ => false,
            },
            Resources::Error => false,
        }
    }

    /// Returns the methods a route definition for `resource` enables: the
    /// methods named in `content`, in order, that the resource takes.
    pub fn parse_methods(resource: Resources, content: &str) -> (out: Vec<Methods>)
        ensures
            out@ == routed_methods(lex_methods(content@), resource),
    {
        let ms = Methods::lex_all(content);
        let mut out: Vec<Methods> = Vec::new();
        let mut i: usize = 0;
        while i < ms.len()
            invariant
                i <= ms@.len(),
                out@ == routed_methods(ms@.take(i as int), resource),
            decreases ms@.len() - i,
        {
            assert(ms@.take(i + 1).drop_last() == ms@.take(i as int));
            assert(ms@.take(i + 1).last() == ms@[i as int]);
            if ms[i].allows(resource) {
                out.push(ms[i]);
            }
            i = i + 1;
        }
        assert(ms@.take(ms@.len() as int) == ms@);
        out
    }

    /// Name of this method as it appears in a proxy definition.
    pub fn name(&self) -> (s: &'static str)
        requires
            *self != Methods::Error,
        ensures
            s@ == method_name(*self),
    {
        proof {
            reveal_strlit("head");
            reveal_strlit("get");
            reveal_strlit("post");
            reveal_strlit("put");
            reveal_strlit("patch");
            reveal_strlit("delete");
        }
        match self {
            Methods::Head => "head",
            Methods::Get => "get",
            Methods::Post => "post",
            Methods::Put => "put",
            Methods::Patch => "patch",
            _ => "delete",
        }
    }
}

} // verus!

verus! {

/// Index of a method's keyword in [`method_keywords`].
pub open spec fn method_index(m: Methods) -> int {
    match m {
        Methods::Head => 0,
        Methods::Get => 1,
        Methods::Post => 2,
        Methods::Put => 3,
        Methods::Patch => 4,
        _ => 5,
    }
}

/// A method's name followed by any text lexes as that method followed by
/// the methods of the text.
pub proof fn lemma_method_name_then(m: Methods, rest: Seq<char>)
    requires
        m != Methods::Error,
    ensures
        lex_methods(method_name(m) + rest) == seq![m] + lex_methods(rest),
{
    reveal_strlit("head");
    reveal_strlit("get");
    reveal_strlit("post");
    reveal_strlit("put");
    reveal_strlit("patch");
    reveal_strlit("delete");
    let kws = method_keywords();
    let k = method_index(m);
    assert(kws[k] == method_name(m));
    assert forall|j: int| 0 <= j < k && #[trigger] kws[j].len() > 0 implies crate::lexers::diverge(kws[j], kws[k]) by {
        assert(kws[j][0] != kws[k][0] || kws[j][1] != kws[k][1]);
    }
    crate::lexers::lemma_lex_keyword_then(kws, k, rest, Skip::Blanks);
    let f = |t: Option<int>| method_of_token(t);
    let tail = lex_keywords(rest, kws, Skip::Blanks);
    assert((seq![Some(k)] + tail).map_values(f) =~= seq![m] + tail.map_values(f));
}

/// The `, ` between two method names lexes as one error token.
proof fn lemma_separator_then(rest: Seq<char>)
    ensures
        lex_methods(", "@ + rest) == seq![Methods::Error] + lex_methods(rest),
{
    reveal_strlit(", ");
    reveal_strlit("head");
    reveal_strlit("get");
    reveal_strlit("post");
    reveal_strlit("put");
    reveal_strlit("patch");
    reveal_strlit("delete");
    let kws = method_keywords();
    assert(", "@ + rest =~= seq![','] + (seq![' '] + rest));
    assert forall|j: int| 0 <= j < kws.len() && #[trigger] kws[j].len() > 0 implies kws[j][0] != ',' by {}
    crate::lexers::lemma_lex_unknown_then(',', seq![' '] + rest, kws, Skip::Blanks);
    crate::lexers::lemma_lex_skipped_then(' ', rest, kws, Skip::Blanks);
    let f = |t: Option<int>| method_of_token(t);
    let tail = lex_keywords(rest, kws, Skip::Blanks);
    assert((seq![None::<int>] + tail).map_values(f) =~= seq![Methods::Error] + tail.map_values(f));
}

/// Every method lexes back from its name: the lexer reads the name of a
/// method as exactly that method.
pub proof fn lemma_method_name_roundtrip(m: Methods)
    requires
        m != Methods::Error,
    ensures
        lex_methods(method_name(m)) == seq![m],
{
    lemma_method_name_then(m, Seq::empty());
    assert(method_name(m) + Seq::<char>::empty() =~= method_name(m));
    assert(lex_methods(Seq::<char>::empty()) =~= Seq::<Methods>::empty());
    assert(seq![m] + Seq::<Methods>::empty() =~= seq![m]);
}

/// A method definition as written in a proxy definition: the methods'
/// names separated by `, ` (as in `.manifests head, get`).
pub open spec fn methods_text(ms: Seq<Methods>) -> Seq<char>
    decreases ms.len(),
{
    if ms.len() == 0 {
        Seq::empty()
    } else if ms.len() == 1 {
        method_name(ms[0])
    } else {
        method_name(ms[0]) + ", "@ + methods_text(ms.drop_first())
    }
}

proof fn lemma_routed_concat(a: Seq<Methods>, b: Seq<Methods>, resource: Resources)
    ensures
        routed_methods(a + b, resource) == routed_methods(a, resource) + routed_methods(b, resource),
    decreases b.len(),
{
    if b.len() == 0 {
        assert(a + b =~= a);
        assert(routed_methods(a, resource) + Seq::<Methods>::empty() =~= routed_methods(a, resource));
    } else {
        lemma_routed_concat(a, b.drop_last(), resource);
        assert((a + b).drop_last() =~= a + b.drop_last());
        assert((a + b).last() == b.last());
        let x = routed_methods(a, resource);
        let y = routed_methods(b.drop_last(), resource);
        assert((x + y).push(b.last()) =~= x + y.push(b.last()));
    }
}

/// The routes a method definition enables are the listed methods that the
/// resource takes, in the order listed: for every list of methods, the
/// definition text `m1, m2, ...` routes exactly `routed_methods` of the list.
pub proof fn lemma_listed_methods_routed(ms: Seq<Methods>, resource: Resources)
    requires
        forall|i: int| 0 <= i < ms.len() ==> ms[i] != Methods::Error,
    ensures
        routed_methods(lex_methods(methods_text(ms)), resource) == routed_methods(ms, resource),
    decreases ms.len(),
{
    if ms.len() == 0 {
        assert(lex_methods(Seq::<char>::empty()) =~= Seq::<Methods>::empty());
    } else if ms.len() == 1 {
        lemma_method_name_roundtrip(ms[0]);
        assert(ms =~= seq![ms[0]]);
    } else {
        let m = ms[0];
        let rest = ms.drop_first();
        let rt = methods_text(rest);
        lemma_listed_methods_routed(rest, resource);
        assert(methods_text(ms) =~= method_name(m) + (", "@ + rt));
        lemma_method_name_then(m, ", "@ + rt);
        lemma_separator_then(rt);
        let lr = lex_methods(rt);
        assert(lex_methods(methods_text(ms)) =~= seq![m] + (seq![Methods::Error] + lr));
        lemma_routed_concat(seq![m], seq![Methods::Error] + lr, resource);
        lemma_routed_concat(seq![Methods::Error], lr, resource);
        assert(routed_methods(seq![Methods::Error], resource) =~= Seq::<Methods>::empty()) by {
            assert(seq![Methods::Error].drop_last() =~= Seq::<Methods>::empty());
            assert(routed_methods(Seq::<Methods>::empty(), resource) =~= Seq::<Methods>::empty());
        }
        assert(Seq::<Methods>::empty() + routed_methods(lr, resource) =~= routed_methods(lr, resource));
        assert(ms =~= seq![m] + rest);
        lemma_routed_concat(seq![m], rest, resource);
    }
}

} // verus!
