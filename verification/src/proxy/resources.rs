//! Registry api resources a proxy route serves.
use vstd::prelude::*;
use crate::lexers::{Skip, lex_keywords, lex_keywords_exec, keywords_view};

verus! {

/// Enumeration of api resources to proxy.
#[derive(Debug, PartialEq, Eq, Clone, Copy)]
pub enum Resources {
    Manifests,
    Blobs,
    Tags,
    Error,
}

/// Keywords of the resource lexer, in token order.
pub open spec fn resource_keywords() -> Seq<Seq<char>> {
    seq!["manifests"@, "blobs"@, "tags"@]
}

pub open spec fn resource_of_token(t: Option<int>) -> Resources {
    match t {
        Some(k) => if k == 0 {
            Resources::Manifests
        } else if k == 1 {
            Resources::Blobs
        } else if k == 2 {
            Resources::Tags
        } else {
            Resources::Error
        },
        None => Resources::Error,
    }
}

/// The resources named in `s` (no characters are skipped; anything else is
/// an error token per character).
pub open spec fn lex_resources(s: Seq<char>) -> Seq<Resources> {
    lex_keywords(s, resource_keywords(), Skip::Nothing).map_values(|t: Option<int>| resource_of_token(t))
}

impl Resources {
    /// Returns the tokens of `content`.
    pub fn lex_all(content: &str) -> (out: Vec<Resources>)
        ensures
            out@ == lex_resources(content@),
    {
        let kws: [&str; 3] = ["manifests", "blobs", "tags"];
        proof {
            reveal_strlit("manifests");
            reveal_strlit("blobs");
            reveal_strlit("tags");
            assert(keywords_view(kws@) =~= resource_keywords());
        }
        let toks = lex_keywords_exec(content, &kws, Skip::Nothing);
        let ghost tv = toks@.map_values(|t: Option<usize>| crate::lexers::token_view(t));
        let mut out: Vec<Resources> = Vec::new();
        let mut i: usize = 0;
        while i < toks.len()
            invariant
                i <= toks@.len(),
                tv == toks@.map_values(|t: Option<usize>| crate::lexers::token_view(t)),
                out@ == tv.take(i as int).map_values(|t: Option<int>| resource_of_token(t)),
            decreases toks@.len() - i,
        {
            let r = match toks[i] {
                Some(0) => Resources::Manifests,
                Some(1) => Resources::Blobs,
                Some(2) => Resources::Tags,
                _ => Resources::Error,
            };
            assert(tv[i as int] == crate::lexers::token_view(toks@[i as int]));
            out.push(r);
            assert(tv.take(i + 1).map_values(|t: Option<int>| resource_of_token(t)) =~= tv.take(
                i as int,
            ).map_values(|t: Option<int>| resource_of_token(t)).push(resource_of_token(tv[i as int])));
            i = i + 1;
        }
        assert(tv.take(toks@.len() as int) == tv);
        out
    }
}

} // verus!
