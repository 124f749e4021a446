use tidal_client::search::{
    build_search_endpoint, build_track_url, track_ids, Links, Media, Search, SearchResponse,
    SearchType,
};

#[test]
fn search_types_name_their_path_segments() {
    assert_eq!(SearchType::Album.path_segment(), "albums");
    assert_eq!(SearchType::Artist.path_segment(), "artists");
    assert_eq!(SearchType::Playlist.path_segment(), "playlists");
    assert_eq!(SearchType::TopHits.path_segment(), "topHits");
    assert_eq!(SearchType::Track.path_segment(), "tracks");
    assert_eq!(SearchType::Video.path_segment(), "videos");
}

#[test]
fn search_endpoint_sanitizes_the_query() {
    let search = Search {
        search_type: SearchType::Track,
        query: "radiohead creep".to_string(),
        country_code: "US".to_string(),
        array: None,
        page: None,
    };
    assert_eq!(
        build_search_endpoint(search),
        "https://openapi.tidal.com/v2/searchresults/radiohead%20creep\
            /relationships/tracks?countryCode=US"
    );
}

#[test]
fn search_endpoint_appends_includes_and_page() {
    let search = Search {
        search_type: SearchType::Album,
        query: "ok".to_string(),
        country_code: "DE".to_string(),
        array: Some(vec!["artists".to_string(), "providers".to_string()]),
        page: Some("abc".to_string()),
    };
    assert_eq!(
        build_search_endpoint(search),
        "https://openapi.tidal.com/v2/searchresults/ok/relationships/albums\
            ?countryCode=DE&include=artists&include=providerspage%5Bcursor%5D=abc"
    );
}

#[test]
fn track_ids_keep_order() {
    let resp = SearchResponse {
        data: vec![
            Media { id: "11".to_string(), media_type: "tracks".to_string() },
            Media { id: "22".to_string(), media_type: "tracks".to_string() },
        ],
        links: Links { current: "cur".to_string(), next: "nxt".to_string() },
    };
    assert_eq!(track_ids(&resp), vec!["11".to_string(), "22".to_string()]);
}

#[test]
fn track_ids_of_empty_response_are_empty() {
    let resp = SearchResponse {
        data: Vec::new(),
        links: Links { current: String::new(), next: String::new() },
    };
    assert!(track_ids(&resp).is_empty());
}

#[test]
fn track_url_carries_the_region() {
    assert_eq!(
        build_track_url("42", "US"),
        "https://openapi.tidal.com/v2/tracks/42?countryCode=US"
    );
}
