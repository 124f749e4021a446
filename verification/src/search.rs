//! Search over the public API: typed search requests and the endpoint
//! URLs they turn into.
//!
//! The application sends the GET itself; the URL a search becomes, and
//! the track identifiers a search response yields, are computed and
//! specified here.

use vstd::prelude::*;
use vstd::string::StringExecFns;

use crate::util::{concat_map, lemma_concat_map_snoc, sanitize_url, spec_sanitize_url};

verus! {

/// The catalog facets a search can ask for.
#[derive(Clone, Copy, Debug, PartialEq, Eq, Structural)]
pub enum SearchType {
    Album,
    Artist,
    Playlist,
    TopHits,
    Track,
    Video,
}

/// The endpoint path segment of each search type.
pub open spec fn spec_path_segment(t: SearchType) -> Seq<char> {
    match t {
        SearchType::Album => "albums"@,
        SearchType::Artist => "artists"@,
        SearchType::Playlist => "playlists"@,
        SearchType::TopHits => "topHits"@,
        SearchType::Track => "tracks"@,
        SearchType::Video => "videos"@,
    }
}

impl SearchType {
    /// The path segment this search type stands for in the search
    /// endpoint.
    pub fn path_segment(&self) -> (r: String)
        ensures
            r@ == spec_path_segment(*self),
    {
        match self {
            SearchType::Album => String::from_str("albums"),
            SearchType::Artist => String::from_str("artists"),
            SearchType::Playlist => String::from_str("playlists"),
            SearchType::TopHits => String::from_str("topHits"),
            SearchType::Track => String::from_str("tracks"),
            SearchType::Video => String::from_str("videos"),
        }
    }
}

/// One search request: what to look for, where, and how to page.
pub struct Search {
    pub search_type: SearchType,
    pub query: String,
    pub country_code: String,
    pub array: Option<Vec<String>>,
    pub page: Option<String>,
}

/// One item of a search response.
pub struct Media {
    pub id: String,
    pub media_type: String,
}

/// The pagination links of a search response.
pub struct Links {
    pub current: String,
    pub next: String,
}

/// A decoded search response: the matching items and the links to walk
/// further pages.
pub struct SearchResponse {
    pub data: Vec<Media>,
    pub links: Links,
}

/// The views of a list of strings.
pub open spec fn strings_view(v: Seq<String>) -> Seq<Seq<char>> {
    v.map_values(|s: String| s@)
}

/// `&include=value` for every requested include, in order.
pub open spec fn spec_includes(includes: Seq<Seq<char>>) -> Seq<char> {
    concat_map(includes, |s: Seq<char>| "&include="@ + s)
}

/// The search endpoint a request turns into, before and after
/// sanitization: the query and type stand in the path, the country code
/// opens the query string, then the includes, then the page cursor.
pub open spec fn spec_search_endpoint(
    query: Seq<char>,
    segment: Seq<char>,
    country_code: Seq<char>,
    includes: Seq<Seq<char>>,
    page: Option<Seq<char>>,
) -> Seq<char> {
    spec_sanitize_url(
        "https://openapi.tidal.com/v2/searchresults/"@ + query + "/relationships/"@ + segment
            + "?countryCode="@ + country_code + spec_includes(includes) + (match page {
            Some(p) => "page%5Bcursor%5D="@ + p,
            None => Seq::<char>::empty(),
        }),
    )
}

/// Builds the searchresults endpoint URL for a request and sanitizes it.
pub fn build_search_endpoint(search: Search) -> (r: String)
    ensures
        r@ == spec_search_endpoint(
            search.query@,
            spec_path_segment(search.search_type),
            search.country_code@,
            (match search.array {
                Some(a) => strings_view(a@),
                None => Seq::<Seq<char>>::empty(),
            }),
            (match search.page {
                Some(p) => Some(p@),
                None => None,
            }),
        ),
{
    let mut endpoint = String::from_str("https://openapi.tidal.com/v2/searchresults/");
    endpoint.append(search.query.as_str());
    endpoint.append("/relationships/");
    let segment = search.search_type.path_segment();
    endpoint.append(segment.as_str());
    endpoint.append("?countryCode=");
    endpoint.append(search.country_code.as_str());
    let ghost prefix = endpoint@;
    match &search.array {
        Some(arr) => {
            let n = arr.len();
            let mut i: usize = 0;
            while i < n
                invariant
                    n == arr@.len(),
                    i <= n,
                    endpoint@ == prefix + spec_includes(strings_view(arr@).take(i as int)),
                decreases n - i,
            {
                endpoint.append("&include=");
                endpoint.append(arr[i].as_str());
                proof {
                    lemma_concat_map_snoc(
                        strings_view(arr@).take(i as int),
                        |s: Seq<char>| "&include="@ + s,
                        strings_view(arr@)[i as int],
                    );
                    assert(strings_view(arr@).take(i as int).push(strings_view(arr@)[i as int])
                        =~= strings_view(arr@).take(i + 1));
                    assert(endpoint@ =~= prefix + spec_includes(strings_view(arr@).take(i + 1)));
                }
                i = i + 1;
            }
            proof {
                assert(strings_view(arr@).take(n as int) =~= strings_view(arr@));
            }
        },
        None => {
            proof {
                assert(endpoint@ =~= prefix + spec_includes(Seq::<Seq<char>>::empty()));
            }
        },
    }
    match &search.page {
        Some(p) => {
            endpoint.append("page%5Bcursor%5D=");
            endpoint.append(p.as_str());
        },
        None => {},
    }
    proof {
        assert(endpoint@ =~= "https://openapi.tidal.com/v2/searchresults/"@ + search.query@
            + "/relationships/"@ + spec_path_segment(search.search_type) + "?countryCode="@
            + search.country_code@ + spec_includes(
            (match search.array {
                Some(a) => strings_view(a@),
                None => Seq::<Seq<char>>::empty(),
            }),
        ) + (match search.page {
            Some(p) => "page%5Bcursor%5D="@ + p@,
            None => Seq::<char>::empty(),
        }));
    }
    sanitize_url(endpoint)
}

/// The track identifiers of a search response, in order.
pub fn track_ids(resp: &SearchResponse) -> (r: Vec<String>)
    ensures
        r@.len() == resp.data@.len(),
        forall|i: int| 0 <= i < r@.len() ==> r@[i]@ == resp.data@[i].id@,
{
    let n = resp.data.len();
    let mut ids: Vec<String> = Vec::new();
    let mut i: usize = 0;
    while i < n
        invariant
            n == resp.data@.len(),
            i <= n,
            ids@.len() == i,
            forall|k: int| 0 <= k < i ==> ids@[k]@ == resp.data@[k].id@,
        decreases n - i,
    {
        ids.push(resp.data[i].id.clone());
        i = i + 1;
    }
    ids
}

/// The track-by-identifier endpoint of the public API.
pub fn build_track_url(id: &str, country_code: &str) -> (r: String)
    ensures
        r@ == "https://openapi.tidal.com/v2/tracks/"@ + id@ + "?countryCode="@ + country_code@,
{
    let mut url = String::from_str("https://openapi.tidal.com/v2/tracks/");
    url.append(id);
    url.append("?countryCode=");
    url.append(country_code);
    url
}

} // verus!
