use rs_plugin_anilist::anilist::{
    AniListCoverImage, AniListDate, AniListMedia, AniListTitle, AniListTrailer,
};
use rs_plugin_anilist::convert::{
    alt_names, anilist_media_to_images, anilist_media_to_result, best_title, build_params,
    build_trailer_url, map_status, ImageType, LookupMetadataResult, ParamValue, SerieStatus,
};

fn sample_media() -> AniListMedia {
    AniListMedia {
        id: 1535,
        title: Some(AniListTitle {
            romaji: Some("Shinseiki Evangelion".to_string()),
            english: Some("Neon Genesis Evangelion".to_string()),
            native: Some("\u{65b0}\u{4e16}\u{7d00}\u{30a8}\u{30f4}\u{30a1}\u{30f3}\u{30b2}\u{30ea}\u{30aa}\u{30f3}".to_string()),
        }),
        media_type: Some("ANIME".to_string()),
        format: Some("TV".to_string()),
        status: Some("FINISHED".to_string()),
        description: Some("A mecha anime.".to_string()),
        start_date: Some(AniListDate { year: Some(1995), month: Some(10), day: Some(4) }),
        cover_image: Some(AniListCoverImage {
            extra_large: Some("https://img.anilist.co/poster.jpg".to_string()),
            large: None,
            medium: None,
        }),
        banner_image: Some("https://img.anilist.co/banner.jpg".to_string()),
        genres: Some(vec!["Action".to_string(), "Mecha".to_string()]),
        synonyms: Some(vec!["NGE".to_string()]),
        average_score: Some(83),
        popularity: Some(200000),
        episodes: Some(26),
        trailer: Some(AniListTrailer {
            id: Some("dQw4w9WgXcQ".to_string()),
            site: Some("youtube".to_string()),
        }),
        country_of_origin: Some("JP".to_string()),
        id_mal: Some(30),
        site_url: Some("https://anilist.co/anime/1535".to_string()),
        is_adult: Some(false),
    }
}

fn bare_media(id: u64) -> AniListMedia {
    AniListMedia {
        id,
        title: None,
        media_type: None,
        format: None,
        status: None,
        description: None,
        start_date: None,
        cover_image: None,
        banner_image: None,
        genres: None,
        synonyms: None,
        average_score: None,
        popularity: None,
        episodes: None,
        trailer: None,
        country_of_origin: None,
        id_mal: None,
        site_url: None,
        is_adult: None,
    }
}

#[test]
fn test_best_title_prefers_english() {
    let media = sample_media();
    assert_eq!(best_title(&media), "Neon Genesis Evangelion");
}

#[test]
fn test_best_title_falls_back_to_romaji() {
    let mut media = sample_media();
    media.title.as_mut().unwrap().english = None;
    assert_eq!(best_title(&media), "Shinseiki Evangelion");
}

#[test]
fn best_title_falls_back_to_native_then_empty() {
    let mut media = sample_media();
    media.title = Some(AniListTitle { romaji: None, english: None, native: Some("N".to_string()) });
    assert_eq!(best_title(&media), "N");
    media.title = None;
    assert_eq!(best_title(&media), "");
}

#[test]
fn test_alt_names_excludes_primary() {
    let media = sample_media();
    let alts = alt_names(&media).unwrap();
    assert!(!alts.contains(&"Neon Genesis Evangelion".to_string()));
    assert!(alts.contains(&"Shinseiki Evangelion".to_string()));
    assert!(alts.contains(&"NGE".to_string()));
}

#[test]
fn alt_names_keep_order_and_drop_repeats() {
    let mut media = sample_media();
    media.synonyms = Some(vec![
        "NGE".to_string(),
        "Shinseiki Evangelion".to_string(),
        "Neon Genesis Evangelion".to_string(),
        "NGE".to_string(),
        "Eva".to_string(),
    ]);
    let alts = alt_names(&media).unwrap();
    assert_eq!(
        alts,
        vec![
            "Shinseiki Evangelion".to_string(),
            "\u{65b0}\u{4e16}\u{7d00}\u{30a8}\u{30f4}\u{30a1}\u{30f3}\u{30b2}\u{30ea}\u{30aa}\u{30f3}".to_string(),
            "NGE".to_string(),
            "Eva".to_string(),
        ]
    );
}

#[test]
fn alt_names_none_when_only_the_primary_title() {
    let mut media = bare_media(1);
    media.title = Some(AniListTitle {
        romaji: Some("Same".to_string()),
        english: Some("Same".to_string()),
        native: None,
    });
    media.synonyms = Some(vec!["Same".to_string()]);
    assert_eq!(alt_names(&media), None);
    assert_eq!(alt_names(&bare_media(2)), None);
}

#[test]
fn test_status_mapping() {
    assert_eq!(map_status(&Some("FINISHED".to_string())), Some(SerieStatus::Ended));
    assert_eq!(map_status(&Some("RELEASING".to_string())), Some(SerieStatus::Returning));
    assert_eq!(map_status(&Some("NOT_YET_RELEASED".to_string())), Some(SerieStatus::Planned));
    assert_eq!(map_status(&Some("CANCELLED".to_string())), Some(SerieStatus::Canceled));
    assert_eq!(
        map_status(&Some("HIATUS".to_string())),
        Some(SerieStatus::Other("hiatus".to_string()))
    );
    assert_eq!(map_status(&None), None);
}

#[test]
fn status_mapping_unknown_and_case_sensitive() {
    assert_eq!(map_status(&Some("finished".to_string())), Some(SerieStatus::Unknown));
    assert_eq!(map_status(&Some("".to_string())), Some(SerieStatus::Unknown));
}

#[test]
fn test_trailer_url_youtube() {
    let media = sample_media();
    assert_eq!(
        build_trailer_url(&media),
        Some("https://www.youtube.com/watch?v=dQw4w9WgXcQ".to_string())
    );
}

#[test]
fn test_trailer_url_non_youtube() {
    let mut media = sample_media();
    media.trailer.as_mut().unwrap().site = Some("dailymotion".to_string());
    assert_eq!(build_trailer_url(&media), None);
}

#[test]
fn trailer_url_needs_an_id() {
    let mut media = sample_media();
    media.trailer.as_mut().unwrap().id = None;
    assert_eq!(build_trailer_url(&media), None);
}

#[test]
fn test_full_conversion() {
    let media = sample_media();
    let result = anilist_media_to_result(media);

    #[allow(irrefutable_let_patterns)]
    if let LookupMetadataResult::Serie(serie) = &result.metadata {
        assert_eq!(serie.id, "anilist:1535");
        assert_eq!(serie.name, "Neon Genesis Evangelion");
        assert_eq!(serie.kind, Some("tv".to_string()));
        assert_eq!(serie.year, Some(1995));
        assert_eq!(serie.anilist_manga_id, Some(1535));
        assert_eq!(serie.myanimelist_manga_id, Some(30));
        assert!(serie.trailer.is_some());
        assert!(serie.params.is_some());
    } else {
        panic!("Expected Serie metadata");
    }

    assert_eq!(result.images.len(), 2);
}

#[test]
fn test_images_poster_fallback() {
    let mut media = sample_media();
    media.cover_image = Some(AniListCoverImage {
        extra_large: None,
        large: Some("https://img.anilist.co/large.jpg".to_string()),
        medium: None,
    });
    media.banner_image = None;

    let result = anilist_media_to_result(media);
    assert_eq!(result.images.len(), 1);
    assert_eq!(result.images[0].url, "https://img.anilist.co/large.jpg");
}

#[test]
fn images_poster_then_background() {
    let media = sample_media();
    let images = anilist_media_to_images(&media);
    assert_eq!(images.len(), 2);
    assert_eq!(images[0].kind, Some(ImageType::Poster));
    assert_eq!(images[0].url, "https://img.anilist.co/poster.jpg");
    assert_eq!(images[1].kind, Some(ImageType::Background));
    assert_eq!(images[1].url, "https://img.anilist.co/banner.jpg");

    let mut media = bare_media(3);
    media.cover_image =
        Some(AniListCoverImage { extra_large: None, large: None, medium: Some("m.jpg".to_string()) });
    let images = anilist_media_to_images(&media);
    assert_eq!(images.len(), 1);
    assert_eq!(images[0].url, "m.jpg");
    assert!(anilist_media_to_images(&bare_media(4)).is_empty());
}

#[test]
fn params_in_order() {
    let params = build_params(&sample_media()).unwrap();
    let keys: Vec<&str> = params.iter().map(|(k, _)| k.as_str()).collect();
    assert_eq!(
        keys,
        vec![
            "overview",
            "genres",
            "country",
            "anilist_id",
            "format",
            "episodes",
            "averageScore",
            "popularity",
            "isAdult",
            "siteUrl"
        ]
    );
    assert_eq!(params[0].1, ParamValue::Text("A mecha anime.".to_string()));
    assert_eq!(
        params[1].1,
        ParamValue::TextList(vec!["Action".to_string(), "Mecha".to_string()])
    );
    assert_eq!(params[3].1, ParamValue::Integer(1535));
    assert_eq!(params[5].1, ParamValue::Integer(26));
    assert_eq!(params[6].1, ParamValue::Integer(83));
    assert_eq!(params[7].1, ParamValue::Integer(200000));
    assert_eq!(params[8].1, ParamValue::Flag(false));

    let bare = build_params(&bare_media(9)).unwrap();
    assert_eq!(bare, vec![("anilist_id".to_string(), ParamValue::Integer(9))]);
}

#[test]
fn conversion_of_bare_media() {
    let result = anilist_media_to_result(bare_media(0));
    #[allow(irrefutable_let_patterns)]
    if let LookupMetadataResult::Serie(serie) = &result.metadata {
        assert_eq!(serie.id, "anilist:0");
        assert_eq!(serie.name, "");
        assert_eq!(serie.kind, None);
        assert_eq!(serie.alt, None);
        assert_eq!(serie.status, None);
        assert_eq!(serie.year, None);
        assert_eq!(serie.trailer, None);
        assert_eq!(serie.anilist_manga_id, Some(0));
        assert_eq!(serie.myanimelist_manga_id, None);
    }
    assert!(result.images.is_empty());

    let result = anilist_media_to_result(bare_media(u64::MAX));
    #[allow(irrefutable_let_patterns)]
    if let LookupMetadataResult::Serie(serie) = &result.metadata {
        assert_eq!(serie.id, "anilist:18446744073709551615");
    }
}

#[test]
fn kind_is_lowercased_format() {
    let mut media = bare_media(5);
    media.format = Some("TV_SHORT".to_string());
    let result = anilist_media_to_result(media);
    #[allow(irrefutable_let_patterns)]
    if let LookupMetadataResult::Serie(serie) = &result.metadata {
        assert_eq!(serie.kind, Some("tv_short".to_string()));
    }
}
