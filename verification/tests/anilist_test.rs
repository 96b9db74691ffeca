use rs_plugin_anilist::anilist::{
    build_id_images_query, build_id_query, build_search_images_query, build_search_query,
};

#[test]
fn image_only_id_query_does_not_include_metadata_fields() {
    let query = build_id_images_query();
    assert!(query.contains("coverImage"));
    assert!(query.contains("bannerImage"));
    assert!(!query.contains("description"));
    assert!(!query.contains("startDate"));
}

#[test]
fn image_only_search_query_does_not_include_metadata_fields() {
    let query = build_search_images_query();
    assert!(query.contains("coverImage"));
    assert!(query.contains("bannerImage"));
    assert!(!query.contains("description"));
    assert!(!query.contains("startDate"));
}

#[test]
fn id_query_has_exact_text() {
    let query = build_id_images_query();
    assert_eq!(
        query,
        "query ($id: Int) {\n  Media(id: $id) {\n    \n      id\n      coverImage {\n        extraLarge\n        large\n        medium\n      }\n      bannerImage\n\n  }\n}"
    );
}

#[test]
fn metadata_queries_select_metadata_fields() {
    let id_query = build_id_query();
    assert!(id_query.starts_with("query ($id: Int) {\n  Media(id: $id) {\n"));
    assert!(id_query.contains("description"));
    assert!(id_query.contains("startDate"));
    assert!(id_query.contains("isAdult"));

    let search_query = build_search_query();
    assert!(search_query.contains("sfw: Page(page: 1, perPage: 25)"));
    assert!(search_query.contains("isAdult: false"));
    assert!(search_query.contains("isAdult: true"));
    assert_eq!(search_query.matches("description").count(), 2);
}

#[test]
fn search_images_query_selects_fields_in_both_pages() {
    let query = build_search_images_query();
    assert_eq!(query.matches("coverImage").count(), 2);
    assert_eq!(query.matches("bannerImage").count(), 2);
    assert!(query.ends_with("\n    }\n  }\n}"));
}
