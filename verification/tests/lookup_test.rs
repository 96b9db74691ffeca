use rs_plugin_anilist::anilist::{
    AniListIdData, AniListIdResponse, AniListMedia, AniListPage, AniListSearchData,
    AniListSearchResponse,
};
use rs_plugin_anilist::lookup::{
    extract_anilist_id, filter_media_for_query, is_movie_format, is_serie_format,
    media_matches_query, media_types_for_query, plan_lookup, LookupPlan, LookupQuery, LookupTitle,
    SearchResults,
};
use rs_plugin_anilist::request::{
    build_http_request, id_response_media, search_response_media, status_failure,
};

fn media_with_format(format: Option<&str>) -> AniListMedia {
    media_with_id_and_format(1, format)
}

fn media_with_id_and_format(id: u64, format: Option<&str>) -> AniListMedia {
    AniListMedia {
        id,
        title: None,
        media_type: None,
        format: format.map(str::to_string),
        status: None,
        description: None,
        start_date: None,
        cover_image: None,
        banner_image: None,
        genres: None,
        synonyms: None,
        average_score: None,
        popularity: None,
        episodes: None,
        trailer: None,
        country_of_origin: None,
        id_mal: None,
        site_url: None,
        is_adult: None,
    }
}

fn title(name: Option<&str>, id: Option<u64>) -> LookupTitle {
    LookupTitle { name: name.map(str::to_string), anilist_id: id }
}

#[test]
fn serie_query_accepts_anime_and_manga_formats() {
    let query = LookupQuery::Serie(Default::default());
    assert!(media_matches_query(&query, &media_with_format(Some("TV"))));
    assert!(media_matches_query(&query, &media_with_format(Some("MANGA"))));
    assert!(!media_matches_query(&query, &media_with_format(Some("MOVIE"))));
}

#[test]
fn movie_query_accepts_movie_and_ova_formats() {
    let query = LookupQuery::Movie(Default::default());
    assert!(media_matches_query(&query, &media_with_format(Some("MOVIE"))));
    assert!(media_matches_query(&query, &media_with_format(Some("OVA"))));
    assert!(!media_matches_query(&query, &media_with_format(Some("TV"))));
}

#[test]
fn serie_query_uses_anime_and_manga_media_types() {
    let types = media_types_for_query(&LookupQuery::Serie(Default::default())).unwrap();
    assert_eq!(types, &["ANIME", "MANGA"]);
}

#[test]
fn movie_and_other_media_types() {
    assert_eq!(media_types_for_query(&LookupQuery::Movie(Default::default())).unwrap(), &["ANIME"]);
    assert_eq!(media_types_for_query(&LookupQuery::Other), None);
}

#[test]
fn format_families() {
    for f in ["TV", "TV_SHORT", "ONA", "OVA", "SPECIAL", "MANGA", "NOVEL"] {
        assert!(is_serie_format(f));
    }
    for f in ["MOVIE", "MUSIC", "ONE_SHOT", "tv", ""] {
        assert!(!is_serie_format(f));
    }
    assert!(is_movie_format("MOVIE"));
    assert!(is_movie_format("OVA"));
    assert!(!is_movie_format("TV"));
    assert!(!is_movie_format(""));
    // An entry without a format answers no query.
    assert!(!media_matches_query(&LookupQuery::Serie(Default::default()), &media_with_format(None)));
    assert!(!media_matches_query(&LookupQuery::Movie(Default::default()), &media_with_format(None)));
    assert!(!media_matches_query(&LookupQuery::Other, &media_with_format(Some("TV"))));
}

#[test]
fn anilist_id_extraction() {
    assert_eq!(extract_anilist_id(&LookupQuery::Serie(title(None, Some(21)))), Some(21));
    assert_eq!(extract_anilist_id(&LookupQuery::Movie(title(Some("x"), Some(5)))), Some(5));
    assert_eq!(extract_anilist_id(&LookupQuery::Movie(title(Some("x"), None))), None);
    assert_eq!(extract_anilist_id(&LookupQuery::Other), None);
}

#[test]
fn plans() {
    assert!(matches!(plan_lookup(&LookupQuery::Other), LookupPlan::NoResults));
    assert!(matches!(
        plan_lookup(&LookupQuery::Serie(title(Some("One piece"), Some(21)))),
        LookupPlan::FetchById(21)
    ));
    match plan_lookup(&LookupQuery::Serie(title(Some("One piece"), None))) {
        LookupPlan::Search { search, media_types } => {
            assert_eq!(search, "One piece");
            assert_eq!(media_types, vec!["ANIME", "MANGA"]);
        }
        other => panic!("unexpected plan {:?}", other),
    }
    match plan_lookup(&LookupQuery::Movie(title(Some(" Akira "), None))) {
        LookupPlan::Search { search, media_types } => {
            assert_eq!(search, " Akira ");
            assert_eq!(media_types, vec!["ANIME"]);
        }
        other => panic!("unexpected plan {:?}", other),
    }
    assert!(matches!(
        plan_lookup(&LookupQuery::Serie(title(Some(" \t\n "), None))),
        LookupPlan::NotSupported
    ));
    assert!(matches!(
        plan_lookup(&LookupQuery::Movie(title(Some(""), None))),
        LookupPlan::NotSupported
    ));
    assert!(matches!(plan_lookup(&LookupQuery::Movie(title(None, None))), LookupPlan::NotSupported));
}

#[test]
fn filtering_keeps_matching_media_in_order() {
    let media = vec![
        media_with_id_and_format(1, Some("TV")),
        media_with_id_and_format(2, Some("MOVIE")),
        media_with_id_and_format(3, Some("OVA")),
        media_with_id_and_format(4, None),
        media_with_id_and_format(5, Some("MANGA")),
    ];
    let series = filter_media_for_query(&LookupQuery::Serie(Default::default()), media.clone());
    assert_eq!(series.iter().map(|m| m.id).collect::<Vec<_>>(), vec![1, 3, 5]);
    let movies = filter_media_for_query(&LookupQuery::Movie(Default::default()), media.clone());
    assert_eq!(movies.iter().map(|m| m.id).collect::<Vec<_>>(), vec![2, 3]);
    assert!(filter_media_for_query(&LookupQuery::Other, media).is_empty());
}

#[test]
fn search_results_keep_first_of_each_id() {
    let mut results = SearchResults::new();
    results.absorb(vec![
        media_with_id_and_format(7, Some("TV")),
        media_with_id_and_format(8, Some("TV")),
        media_with_id_and_format(7, Some("MANGA")),
    ]);
    results.absorb(vec![
        media_with_id_and_format(9, Some("MANGA")),
        media_with_id_and_format(8, Some("MANGA")),
    ]);
    let media = results.into_media();
    assert_eq!(media.iter().map(|m| m.id).collect::<Vec<_>>(), vec![7, 8, 9]);
    assert_eq!(media[0].format.as_deref(), Some("TV"));
    assert_eq!(media[1].format.as_deref(), Some("TV"));
}

#[test]
fn http_request_headers() {
    let request = build_http_request(&None);
    assert_eq!(request.url, "https://graphql.anilist.co");
    assert_eq!(request.method, Some("POST".to_string()));
    assert_eq!(
        request.headers,
        vec![
            ("Content-Type".to_string(), "application/json".to_string()),
            ("Accept".to_string(), "application/json".to_string()),
        ]
    );
    let request = build_http_request(&Some("tok".to_string()));
    assert_eq!(request.headers.len(), 3);
    assert_eq!(request.headers[2], ("Authorization".to_string(), "Bearer tok".to_string()));
}

#[test]
fn status_judgement() {
    assert_eq!(status_failure(200), None);
    assert_eq!(status_failure(204), None);
    assert_eq!(status_failure(299), None);
    assert_eq!(status_failure(199), Some(199));
    assert_eq!(status_failure(300), Some(300));
    assert_eq!(status_failure(404), Some(404));
    assert_eq!(status_failure(500), Some(500));
}

#[test]
fn response_media() {
    let found = AniListIdResponse {
        data: Some(AniListIdData { media: Some(media_with_id_and_format(4, Some("TV"))) }),
    };
    assert_eq!(id_response_media(found).iter().map(|m| m.id).collect::<Vec<_>>(), vec![4]);
    assert!(id_response_media(AniListIdResponse { data: None }).is_empty());
    assert!(id_response_media(AniListIdResponse { data: Some(AniListIdData { media: None }) })
        .is_empty());

    let search = AniListSearchResponse {
        data: Some(AniListSearchData {
            sfw: Some(AniListPage {
                media: Some(vec![media_with_id_and_format(1, None), media_with_id_and_format(2, None)]),
            }),
            nsfw: Some(AniListPage { media: Some(vec![media_with_id_and_format(3, None)]) }),
        }),
    };
    assert_eq!(search_response_media(search).iter().map(|m| m.id).collect::<Vec<_>>(), vec![1, 2, 3]);
    let only_nsfw = AniListSearchResponse {
        data: Some(AniListSearchData {
            sfw: Some(AniListPage { media: None }),
            nsfw: Some(AniListPage { media: Some(vec![media_with_id_and_format(6, None)]) }),
        }),
    };
    assert_eq!(search_response_media(only_nsfw).iter().map(|m| m.id).collect::<Vec<_>>(), vec![6]);
    assert!(search_response_media(AniListSearchResponse { data: None }).is_empty());
}
