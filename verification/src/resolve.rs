use vstd::prelude::*;
use crate::{OpengraphTag, tag_views};
use crate::handlers::{extract_seq, metas_of, extract_opengraph_tags};

verus! {

/// Why a URL's content could not be obtained: the request failed, the
/// destination answered with a non-success status, or the body could not be
/// decoded as text.
#[derive(Clone, Copy, Debug, PartialEq, Eq, Structural)]
pub enum FetchError {
    Network,
    Status(u16),
    Decode,
}

/// The outcome of resolving a URL: tags served from the cache, tags freshly
/// fetched and extracted, or a failed resolution.
#[derive(Debug)]
pub enum Resolution {
    FromCache(Vec<OpengraphTag>),
    Fetched(Vec<OpengraphTag>),
    Failed,
}

impl Resolution {
    /// The tags this resolution answers with: a failure answers with none.
    pub open spec fn spec_tags(&self) -> Seq<(Seq<char>, Seq<char>)> {
        match self {
            Resolution::FromCache(t) => tag_views(t@),
            Resolution::Fetched(t) => tag_views(t@),
            Resolution::Failed => Seq::empty(),
        }
    }

    /// Only a freshly fetched result is written back to the cache: a hit
    /// needs no write, and a failed resolution must never be cached.
    pub open spec fn spec_should_cache(&self) -> bool {
        match self {
            Resolution::Fetched(_) => true,
            _ => false,
        }
    }

    /// The HTTP status reported for this resolution: failures answer with an
    /// empty array under status 500, everything else with 200.
    pub open spec fn spec_status(&self) -> u16 {
        match self {
            Resolution::Failed => 500u16,
            _ => 200u16,
        }
    }

    /// Whether the result must be written back to the cache.
    pub fn should_cache(&self) -> (r: bool)
        ensures
            r == self.spec_should_cache(),
    {
        match self {
            Resolution::Fetched(_) => true,
            _ => false,
        }
    }

    /// The HTTP status code to answer with.
    pub fn status_code(&self) -> (r: u16)
        ensures
            r == self.spec_status(),
    {
        match self {
            Resolution::Failed => 500,
            _ => 200,
        }
    }

    /// The tags to answer with: a failed resolution answers with an empty
    /// sequence.
    pub fn into_tags(self) -> (r: Vec<OpengraphTag>)
        ensures
            tag_views(r@) == self.spec_tags(),
    {
        match self {
            Resolution::FromCache(t) => t,
            Resolution::Fetched(t) => t,
            Resolution::Failed => Vec::new(),
        }
    }
}

/// Step one of resolving a URL: a cache hit is served exactly as stored, with
/// no fetch and no cache write; a miss decides nothing yet and the fetch
/// follows.
pub fn resolution_of_lookup(cached: Option<Vec<OpengraphTag>>) -> (r: Option<Resolution>)
    ensures
        cached is Some <==> r is Some,
        r is Some ==> (r->0) is FromCache && (r->0).spec_tags() == tag_views(cached->0@),
        r is Some ==> !(r->0).spec_should_cache() && (r->0).spec_status() == 200,
{
    match cached {
        Some(tags) => Some(Resolution::FromCache(tags)),
        None => None,
    }
}

/// Step two, on a cache miss: a fetched body yields the tags its document
/// text extracts to, served under status 200 and written back to the cache; a
/// fetch failure yields a failed resolution, served as an empty sequence
/// under status 500 and never cached.
pub fn resolution_of_fetch(fetched: Result<String, FetchError>) -> (r: Resolution)
    ensures
        fetched is Ok ==> r is Fetched && r.spec_tags() == extract_seq(metas_of(fetched->Ok_0@))
            && r.spec_should_cache() && r.spec_status() == 200,
        fetched is Err ==> r is Failed && !r.spec_should_cache() && r.spec_status() == 500
            && r.spec_tags() == Seq::<(Seq<char>, Seq<char>)>::empty(),
{
    match fetched {
        Ok(body) => Resolution::Fetched(extract_opengraph_tags(body.as_str())),
        Err(_) => Resolution::Failed,
    }
}

} // verus!
