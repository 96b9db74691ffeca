//! The AniList data model as the GraphQL API returns it, and the texts of
//! the four GraphQL queries the plugin sends.

use vstd::prelude::*;
use vstd::string::*;

verus! {

/// A `Page` selection: the media found on one page of results.
#[derive(Debug)]
pub struct AniListPage {
    pub media: Option<Vec<AniListMedia>>,
}

/// The `data` of a search response: one page of non-adult media (`sfw`)
/// and one page of adult media (`nsfw`).
#[derive(Debug)]
pub struct AniListSearchData {
    pub sfw: Option<AniListPage>,
    pub nsfw: Option<AniListPage>,
}

/// A response to one of the search queries.
#[derive(Debug)]
pub struct AniListSearchResponse {
    pub data: Option<AniListSearchData>,
}

/// The `data` of a response to a query by id.
#[derive(Debug)]
pub struct AniListIdData {
    pub media: Option<AniListMedia>,
}

/// A response to one of the queries by id.
#[derive(Debug)]
pub struct AniListIdResponse {
    pub data: Option<AniListIdData>,
}

/// One AniList media entry (an anime or a manga).
#[derive(Debug, Clone)]
pub struct AniListMedia {
    pub id: u64,
    pub title: Option<AniListTitle>,
    pub media_type: Option<String>,
    pub format: Option<String>,
    pub status: Option<String>,
    pub description: Option<String>,
    pub start_date: Option<AniListDate>,
    pub cover_image: Option<AniListCoverImage>,
    pub banner_image: Option<String>,
    pub genres: Option<Vec<String>>,
    pub synonyms: Option<Vec<String>>,
    pub average_score: Option<u32>,
    pub popularity: Option<u64>,
    pub episodes: Option<u32>,
    pub trailer: Option<AniListTrailer>,
    pub country_of_origin: Option<String>,
    pub id_mal: Option<u64>,
    pub site_url: Option<String>,
    pub is_adult: Option<bool>,
}

/// The titles of a media entry.
#[derive(Debug, Clone)]
pub struct AniListTitle {
    pub romaji: Option<String>,
    pub english: Option<String>,
    pub native: Option<String>,
}

/// A possibly partial calendar date.
#[derive(Debug, Clone)]
pub struct AniListDate {
    pub year: Option<u16>,
    pub month: Option<u8>,
    pub day: Option<u8>,
}

/// The cover image of a media entry, in three sizes.
#[derive(Debug, Clone)]
pub struct AniListCoverImage {
    pub extra_large: Option<String>,
    pub large: Option<String>,
    pub medium: Option<String>,
}

/// A trailer: a video id on some video site.
#[derive(Debug, Clone)]
pub struct AniListTrailer {
    pub id: Option<String>,
    pub site: Option<String>,
}

/// The media fields that the metadata queries select.
pub open spec fn media_fields() -> Seq<char> {
    "\n      id\n      title {\n        romaji\n        english\n        native\n      }\n      type\n      format\n      status\n      description\n      startDate {\n        year\n        month\n        day\n      }\n      coverImage {\n        extraLarge\n        large\n        medium\n      }\n      bannerImage\n      genres\n      synonyms\n      averageScore\n      popularity\n      episodes\n      trailer {\n        id\n        site\n      }\n      countryOfOrigin\n      idMal\n      siteUrl\n      isAdult\n "@
}

/// The media fields that the image queries select.
pub open spec fn media_image_fields() -> Seq<char> {
    "\n      id\n      coverImage {\n        extraLarge\n        large\n        medium\n      }\n      bannerImage\n"@
}

/// A query for the single media entry `$id`, selecting `fields`.
pub open spec fn id_query_text(fields: Seq<char>) -> Seq<char> {
    "query ($id: Int) {\n  Media(id: $id) {\n    "@ + fields + "\n  }\n}"@
}

/// A query for the first page (25 entries) of non-adult and of adult media
/// that match `$search` and have type `$type`, selecting `fields` in both.
pub open spec fn search_query_text(fields: Seq<char>) -> Seq<char> {
    "query ($search: String, $type: MediaType) {\n  sfw: Page(page: 1, perPage: 25) {\n    media(search: $search, type: $type, isAdult: false) {\n      "@
        + fields
        + "\n    }\n  }\n  nsfw: Page(page: 1, perPage: 25) {\n    media(search: $search, type: $type, isAdult: true) {\n      "@
        + fields + "\n    }\n  }\n}"@
}

/// `text` occurs in `s` at position `i`.
pub open spec fn occurs_at(s: Seq<char>, i: int, text: Seq<char>) -> bool {
    0 <= i && i + text.len() <= s.len() && s.subrange(i, i + text.len()) == text
}

/// `text` occurs somewhere in `s`.
pub open spec fn selects(s: Seq<char>, text: Seq<char>) -> bool {
    exists|i: int| occurs_at(s, i, text)
}

/// The selections that a metadata query must hold: every field of the
/// AniList media model that the conversion reads, sub-fields included.
pub open spec fn metadata_selections() -> Seq<Seq<char>> {
    seq![
        "id"@,
        "title {\n        romaji\n        english\n        native\n      }"@,
        "type"@,
        "format"@,
        "status"@,
        "description"@,
        "startDate {\n        year\n        month\n        day\n      }"@,
        "coverImage {\n        extraLarge\n        large\n        medium\n      }"@,
        "bannerImage"@,
        "genres"@,
        "synonyms"@,
        "averageScore"@,
        "popularity"@,
        "episodes"@,
        "trailer {\n        id\n        site\n      }"@,
        "countryOfOrigin"@,
        "idMal"@,
        "siteUrl"@,
        "isAdult"@,
    ]
}

/// The selections that an image query must hold: the id and both images.
pub open spec fn image_selections() -> Seq<Seq<char>> {
    seq![
        "id"@,
        "coverImage {\n        extraLarge\n        large\n        medium\n      }"@,
        "bannerImage"@,
    ]
}

proof fn lemma_occurs_within(a: Seq<char>, f: Seq<char>, b: Seq<char>, i: int, text: Seq<char>)
    requires
        occurs_at(f, i, text),
    ensures
        occurs_at(a + f + b, a.len() + i, text),
{
    assert((a + f + b).subrange(a.len() + i, a.len() + i + text.len()) =~= f.subrange(i, i + text.len()));
}

proof fn lemma_selects_within(a: Seq<char>, f: Seq<char>, b: Seq<char>, text: Seq<char>)
    requires
        selects(f, text),
    ensures
        selects(a + f + b, text),
{
    let i = choose|i: int| occurs_at(f, i, text);
    lemma_occurs_within(a, f, b, i, text);
}

#[verifier::rlimit(60)]
proof fn lemma_media_fields_select()
    ensures
        forall|k: int| 0 <= k < metadata_selections().len() ==> selects(media_fields(), #[trigger] metadata_selections()[k]),
{
    let f = media_fields();
    reveal_strlit("id");
    reveal_strlit("title {\n        romaji\n        english\n        native\n      }");
    reveal_strlit("type");
    reveal_strlit("format");
    reveal_strlit("status");
    reveal_strlit("description");
    reveal_strlit("startDate {\n        year\n        month\n        day\n      }");
    reveal_strlit("coverImage {\n        extraLarge\n        large\n        medium\n      }");
    reveal_strlit("bannerImage");
    reveal_strlit("genres");
    reveal_strlit("synonyms");
    reveal_strlit("averageScore");
    reveal_strlit("popularity");
    reveal_strlit("episodes");
    reveal_strlit("trailer {\n        id\n        site\n      }");
    reveal_strlit("countryOfOrigin");
    reveal_strlit("idMal");
    reveal_strlit("siteUrl");
    reveal_strlit("isAdult");
    reveal_strlit("\n      id\n      title {\n        romaji\n        english\n        native\n      }\n      type\n      format\n      status\n      description\n      startDate {\n        year\n        month\n        day\n      }\n      coverImage {\n        extraLarge\n        large\n        medium\n      }\n      bannerImage\n      genres\n      synonyms\n      averageScore\n      popularity\n      episodes\n      trailer {\n        id\n        site\n      }\n      countryOfOrigin\n      idMal\n      siteUrl\n      isAdult\n ");
    assert(occurs_at(f, 7, "id"@)) by {
        assert(f.subrange(7, 9) =~= "id"@);
    }
    assert(occurs_at(f, 16, "title {\n        romaji\n        english\n        native\n      }"@)) by {
        assert(f.subrange(16, 77) =~= "title {\n        romaji\n        english\n        native\n      }"@);
    }
    assert(occurs_at(f, 84, "type"@)) by {
        assert(f.subrange(84, 88) =~= "type"@);
    }
    assert(occurs_at(f, 95, "format"@)) by {
        assert(f.subrange(95, 101) =~= "format"@);
    }
    assert(occurs_at(f, 108, "status"@)) by {
        assert(f.subrange(108, 114) =~= "status"@);
    }
    assert(occurs_at(f, 121, "description"@)) by {
        assert(f.subrange(121, 132) =~= "description"@);
    }
    assert(occurs_at(f, 139, "startDate {\n        year\n        month\n        day\n      }"@)) by {
        assert(f.subrange(139, 197) =~= "startDate {\n        year\n        month\n        day\n      }"@);
    }
    assert(occurs_at(f, 204, "coverImage {\n        extraLarge\n        large\n        medium\n      }"@)) by {
        assert(f.subrange(204, 272) =~= "coverImage {\n        extraLarge\n        large\n        medium\n      }"@);
    }
    assert(occurs_at(f, 279, "bannerImage"@)) by {
        assert(f.subrange(279, 290) =~= "bannerImage"@);
    }
    assert(occurs_at(f, 297, "genres"@)) by {
        assert(f.subrange(297, 303) =~= "genres"@);
    }
    assert(occurs_at(f, 310, "synonyms"@)) by {
        assert(f.subrange(310, 318) =~= "synonyms"@);
    }
    assert(occurs_at(f, 325, "averageScore"@)) by {
        assert(f.subrange(325, 337) =~= "averageScore"@);
    }
    assert(occurs_at(f, 344, "popularity"@)) by {
        assert(f.subrange(344, 354) =~= "popularity"@);
    }
    assert(occurs_at(f, 361, "episodes"@)) by {
        assert(f.subrange(361, 369) =~= "episodes"@);
    }
    assert(occurs_at(f, 376, "trailer {\n        id\n        site\n      }"@)) by {
        assert(f.subrange(376, 417) =~= "trailer {\n        id\n        site\n      }"@);
    }
    assert(occurs_at(f, 424, "countryOfOrigin"@)) by {
        assert(f.subrange(424, 439) =~= "countryOfOrigin"@);
    }
    assert(occurs_at(f, 446, "idMal"@)) by {
        assert(f.subrange(446, 451) =~= "idMal"@);
    }
    assert(occurs_at(f, 458, "siteUrl"@)) by {
        assert(f.subrange(458, 465) =~= "siteUrl"@);
    }
    assert(occurs_at(f, 472, "isAdult"@)) by {
        assert(f.subrange(472, 479) =~= "isAdult"@);
    }
    let sel = metadata_selections();
    assert forall|k: int| 0 <= k < sel.len() implies selects(f, #[trigger] sel[k]) by {
        if k == 0 { assert(occurs_at(f, 7, sel[k])); }
        if k == 1 { assert(occurs_at(f, 16, sel[k])); }
        if k == 2 { assert(occurs_at(f, 84, sel[k])); }
        if k == 3 { assert(occurs_at(f, 95, sel[k])); }
        if k == 4 { assert(occurs_at(f, 108, sel[k])); }
        if k == 5 { assert(occurs_at(f, 121, sel[k])); }
        if k == 6 { assert(occurs_at(f, 139, sel[k])); }
        if k == 7 { assert(occurs_at(f, 204, sel[k])); }
        if k == 8 { assert(occurs_at(f, 279, sel[k])); }
        if k == 9 { assert(occurs_at(f, 297, sel[k])); }
        if k == 10 { assert(occurs_at(f, 310, sel[k])); }
        if k == 11 { assert(occurs_at(f, 325, sel[k])); }
        if k == 12 { assert(occurs_at(f, 344, sel[k])); }
        if k == 13 { assert(occurs_at(f, 361, sel[k])); }
        if k == 14 { assert(occurs_at(f, 376, sel[k])); }
        if k == 15 { assert(occurs_at(f, 424, sel[k])); }
        if k == 16 { assert(occurs_at(f, 446, sel[k])); }
        if k == 17 { assert(occurs_at(f, 458, sel[k])); }
        if k == 18 { assert(occurs_at(f, 472, sel[k])); }
    }
}

#[verifier::rlimit(60)]
proof fn lemma_media_image_fields_select()
    ensures
        forall|k: int| 0 <= k < image_selections().len() ==> selects(media_image_fields(), #[trigger] image_selections()[k]),
{
    let f = media_image_fields();
    reveal_strlit("id");
    reveal_strlit("coverImage {\n        extraLarge\n        large\n        medium\n      }");
    reveal_strlit("bannerImage");
    reveal_strlit("\n      id\n      coverImage {\n        extraLarge\n        large\n        medium\n      }\n      bannerImage\n");
    assert(occurs_at(f, 7, "id"@)) by {
        assert(f.subrange(7, 9) =~= "id"@);
    }
    assert(occurs_at(f, 16, "coverImage {\n        extraLarge\n        large\n        medium\n      }"@)) by {
        assert(f.subrange(16, 84) =~= "coverImage {\n        extraLarge\n        large\n        medium\n      }"@);
    }
    assert(occurs_at(f, 91, "bannerImage"@)) by {
        assert(f.subrange(91, 102) =~= "bannerImage"@);
    }
    let sel = image_selections();
    assert forall|k: int| 0 <= k < sel.len() implies selects(f, #[trigger] sel[k]) by {
        if k == 0 { assert(occurs_at(f, 7, sel[k])); }
        if k == 1 { assert(occurs_at(f, 16, sel[k])); }
        if k == 2 { assert(occurs_at(f, 91, sel[k])); }
    }
}

proof fn lemma_id_query_selects(f: Seq<char>, text: Seq<char>)
    requires
        selects(f, text),
    ensures
        selects(id_query_text(f), text),
{
    lemma_selects_within("query ($id: Int) {\n  Media(id: $id) {\n    "@, f, "\n  }\n}"@, text);
}

proof fn lemma_search_query_selects(f: Seq<char>, text: Seq<char>)
    requires
        selects(f, text),
    ensures
        selects(search_query_text(f), text),
{
    let a = "query ($search: String, $type: MediaType) {\n  sfw: Page(page: 1, perPage: 25) {\n    media(search: $search, type: $type, isAdult: false) {\n      "@;
    let b = "\n    }\n  }\n  nsfw: Page(page: 1, perPage: 25) {\n    media(search: $search, type: $type, isAdult: true) {\n      "@
        + f + "\n    }\n  }\n}"@;
    lemma_selects_within(a, f, b, text);
    assert(search_query_text(f) =~= a + f + b);
}

/// The metadata queries (by id and by name) select every field of the
/// AniList media model that the conversion reads, and the image queries
/// select the id, the cover image in all three sizes and the banner.
pub proof fn lemma_queries_select_fields()
    ensures
        forall|k: int|
            0 <= k < metadata_selections().len() ==> selects(
                id_query_text(media_fields()),
                #[trigger] metadata_selections()[k],
            ) && selects(search_query_text(media_fields()), metadata_selections()[k]),
        forall|k: int|
            0 <= k < image_selections().len() ==> selects(
                id_query_text(media_image_fields()),
                #[trigger] image_selections()[k],
            ) && selects(search_query_text(media_image_fields()), image_selections()[k]),
{
    lemma_media_fields_select();
    lemma_media_image_fields_select();
    assert forall|k: int| 0 <= k < metadata_selections().len() implies selects(
        id_query_text(media_fields()),
        #[trigger] metadata_selections()[k],
    ) && selects(search_query_text(media_fields()), metadata_selections()[k]) by {
        lemma_id_query_selects(media_fields(), metadata_selections()[k]);
        lemma_search_query_selects(media_fields(), metadata_selections()[k]);
    }
    assert forall|k: int| 0 <= k < image_selections().len() implies selects(
        id_query_text(media_image_fields()),
        #[trigger] image_selections()[k],
    ) && selects(search_query_text(media_image_fields()), image_selections()[k]) by {
        lemma_id_query_selects(media_image_fields(), image_selections()[k]);
        lemma_search_query_selects(media_image_fields(), image_selections()[k]);
    }
}

fn media_fields_text() -> (s: &'static str)
    ensures
        s@ == media_fields(),
{
    "\n      id\n      title {\n        romaji\n        english\n        native\n      }\n      type\n      format\n      status\n      description\n      startDate {\n        year\n        month\n        day\n      }\n      coverImage {\n        extraLarge\n        large\n        medium\n      }\n      bannerImage\n      genres\n      synonyms\n      averageScore\n      popularity\n      episodes\n      trailer {\n        id\n        site\n      }\n      countryOfOrigin\n      idMal\n      siteUrl\n      isAdult\n "
}

fn media_image_fields_text() -> (s: &'static str)
    ensures
        s@ == media_image_fields(),
{
    "\n      id\n      coverImage {\n        extraLarge\n        large\n        medium\n      }\n      bannerImage\n"
}

fn id_query_with(fields: &str) -> (q: String)
    ensures
        q@ == id_query_text(fields@),
{
    let mut q = String::from_str("query ($id: Int) {\n  Media(id: $id) {\n    ");
    q.append(fields);
    q.append("\n  }\n}");
    q
}

fn search_query_with(fields: &str) -> (q: String)
    ensures
        q@ == search_query_text(fields@),
{
    let mut q = String::from_str(
        "query ($search: String, $type: MediaType) {\n  sfw: Page(page: 1, perPage: 25) {\n    media(search: $search, type: $type, isAdult: false) {\n      ",
    );
    q.append(fields);
    q.append(
        "\n    }\n  }\n  nsfw: Page(page: 1, perPage: 25) {\n    media(search: $search, type: $type, isAdult: true) {\n      ",
    );
    q.append(fields);
    q.append("\n    }\n  }\n}");
    q
}

/// The query for the metadata of the media entry with a given id.
pub fn build_id_query() -> (q: String)
    ensures
        q@ == id_query_text(media_fields()),
        forall|k: int|
            0 <= k < metadata_selections().len() ==> selects(q@, #[trigger] metadata_selections()[k]),
{
    proof { lemma_queries_select_fields(); }
    id_query_with(media_fields_text())
}

/// The query searching anime or manga by name, for their metadata.
pub fn build_search_query() -> (q: String)
    ensures
        q@ == search_query_text(media_fields()),
        forall|k: int|
            0 <= k < metadata_selections().len() ==> selects(q@, #[trigger] metadata_selections()[k]),
{
    proof { lemma_queries_select_fields(); }
    search_query_with(media_fields_text())
}

/// The query for the images of the media entry with a given id.
pub fn build_id_images_query() -> (q: String)
    ensures
        q@ == id_query_text(media_image_fields()),
        forall|k: int|
            0 <= k < image_selections().len() ==> selects(q@, #[trigger] image_selections()[k]),
{
    proof { lemma_queries_select_fields(); }
    id_query_with(media_image_fields_text())
}

/// The query searching anime or manga by name, for their images.
pub fn build_search_images_query() -> (q: String)
    ensures
        q@ == search_query_text(media_image_fields()),
        forall|k: int|
            0 <= k < image_selections().len() ==> selects(q@, #[trigger] image_selections()[k]),
{
    proof { lemma_queries_select_fields(); }
    search_query_with(media_image_fields_text())
}

} // verus!
