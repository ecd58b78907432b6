//! Track metadata and the resolver's decisions: how a query is looked up
//! and which lookup result becomes the track.
use vstd::prelude::*;
use vstd::string::StringExecFns;
use vstd::string::StrSliceExecFns;

verus! {

/// What is known of a track once its query has been resolved. It never
/// holds audio: resolving fetches metadata only.
pub struct TrackMetadata {
    pub title: String,
    pub source_url: String,
    /// Total length in whole seconds, when the lookup reported one.
    pub duration_secs: Option<u64>,
}

/// One result of a metadata lookup, as the media backend reports it.
pub struct Candidate {
    pub title: Option<String>,
    pub source_url: Option<String>,
    pub duration_secs: Option<u64>,
}

/// Why a query did not yield a track.
#[derive(Debug, Clone, Copy, PartialEq, Eq, Structural)]
pub enum ResolveError {
    /// The lookup succeeded but found nothing.
    NoResults,
    /// The lookup itself failed.
    FetchFailed,
}

/// How a query is to be looked up.
#[derive(Debug, Clone, Copy, PartialEq, Eq, Structural)]
pub enum Lookup {
    /// The query is an absolute URL: its metadata is fetched directly.
    Url,
    /// The query is free text: search, keeping the first result only.
    Search,
}

/// `s` begins with `p`.
pub open spec fn has_prefix_spec(s: Seq<char>, p: Seq<char>) -> bool {
    p.len() <= s.len() && s.subrange(0, p.len() as int) == p
}

/// A query names media directly when it is an absolute http(s) URL.
pub open spec fn is_url_spec(q: Seq<char>) -> bool {
    has_prefix_spec(q, "http://"@) || has_prefix_spec(q, "https://"@)
}

/// The text of an optional field, with `Unknown` standing in for a missing one.
pub open spec fn text_or_unknown(o: Option<String>) -> Seq<char> {
    match o {
        Some(s) => s@,
        None => "Unknown"@,
    }
}

/// The source URL of a resolved track: the one the lookup reports, else the query.
pub open spec fn source_or_query(o: Option<String>, query: Seq<char>) -> Seq<char> {
    match o {
        Some(s) => s@,
        None => query,
    }
}

fn has_prefix(s: &str, p: &str) -> (r: bool)
    ensures
        r == has_prefix_spec(s@, p@),
{
    let n = p.unicode_len();
    if n > s.unicode_len() {
        return false;
    }
    let mut i: usize = 0;
    while i < n
        invariant
            n == p@.len(),
            n <= s@.len(),
            i <= n,
            forall|j: int| 0 <= j < i ==> s@[j] == p@[j],
        decreases n - i,
    {
        if s.get_char(i) != p.get_char(i) {
            assert(s@.subrange(0, n as int)[i as int] != p@[i as int]);
            return false;
        }
        i = i + 1;
    }
    assert(s@.subrange(0, n as int) =~= p@);
    true
}

/// Decides how `query` is looked up: directly when it is an http(s) URL,
/// else as a search.
pub fn classify_query(query: &str) -> (r: Lookup)
    ensures
        r == (if is_url_spec(query@) { Lookup::Url } else { Lookup::Search }),
{
    if has_prefix(query, "http://") || has_prefix(query, "https://") {
        Lookup::Url
    } else {
        Lookup::Search
    }
}

/// Turns the outcome of a metadata lookup for `query` into a track.
/// A failed lookup is `FetchFailed`, an empty one `NoResults`; otherwise
/// the first result is taken and the rest dropped. A missing title reads
/// `Unknown`, a missing source URL falls back to the query, and a missing
/// duration stays absent.
pub fn resolve_lookup(query: &str, fetched: Option<Vec<Candidate>>) -> (r: Result<
    TrackMetadata,
    ResolveError,
>)
    ensures
        fetched is None ==> r == Err::<TrackMetadata, ResolveError>(ResolveError::FetchFailed),
        fetched is Some && fetched->0@.len() == 0 ==> r == Err::<TrackMetadata, ResolveError>(
            ResolveError::NoResults,
        ),
        fetched is Some && fetched->0@.len() > 0 ==> r is Ok,
        r is Ok ==> ({
            let first = fetched->0@[0];
            let t = r->Ok_0;
            &&& t.title@ == text_or_unknown(first.title)
            &&& t.source_url@ == source_or_query(first.source_url, query@)
            &&& t.duration_secs == first.duration_secs
        }),
{
    match fetched {
        None => Err(ResolveError::FetchFailed),
        Some(mut found) => {
            if found.len() == 0 {
                Err(ResolveError::NoResults)
            } else {
                let first = found.swap_remove(0);
                let title = match first.title {
                    Some(t) => t,
                    None => String::from_str("Unknown"),
                };
                let source_url = match first.source_url {
                    Some(u) => u,
                    None => String::from_str(query),
                };
                Ok(TrackMetadata { title, source_url, duration_secs: first.duration_secs })
            }
        },
    }
}

} // verus!
