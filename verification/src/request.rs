//! The exchange with the AniList GraphQL endpoint: the HTTP request that
//! carries a query, the judgement of the response status, and the media
//! that a decoded response holds.

use vstd::prelude::*;
use vstd::string::*;

use crate::anilist::{AniListIdResponse, AniListMedia, AniListPage, AniListSearchResponse};
use crate::convert::opt_text;

verus! {

/// An HTTP request to the AniList GraphQL endpoint, without its body.
#[derive(Debug, Clone)]
pub struct GraphQLHttpRequest {
    pub url: String,
    pub method: Option<String>,
    pub headers: Vec<(String, String)>,
}

/// The name and value of each header of a sequence, as characters.
pub open spec fn headers_view(h: Seq<(String, String)>) -> Seq<(Seq<char>, Seq<char>)> {
    h.map_values(|e: (String, String)| (e.0@, e.1@))
}

/// The headers of a request: JSON content and JSON accepted, and a bearer
/// authorization when there is a token.
pub open spec fn headers_for(token: Option<Seq<char>>) -> Seq<(Seq<char>, Seq<char>)> {
    seq![("Content-Type"@, "application/json"@), ("Accept"@, "application/json"@)] + match token {
        Some(t) => seq![("Authorization"@, "Bearer "@ + t)],
        None => Seq::empty(),
    }
}

/// A request always sends and accepts JSON, and carries an authorization
/// exactly when a password is given: `Bearer ` followed by the password.
pub proof fn lemma_request_headers(password: Option<Seq<char>>)
    ensures
        headers_for(password).contains(("Content-Type"@, "application/json"@)),
        headers_for(password).contains(("Accept"@, "application/json"@)),
        password matches Some(p) ==> headers_for(password).contains(("Authorization"@, "Bearer "@ + p)),
        password is None ==> forall|i: int|
            0 <= i < headers_for(password).len() ==> #[trigger] headers_for(password)[i].0 != "Authorization"@,
{
    reveal_strlit("Content-Type");
    reveal_strlit("Accept");
    reveal_strlit("Authorization");
    let h = headers_for(password);
    assert(h[0] == ("Content-Type"@, "application/json"@));
    assert(h[1] == ("Accept"@, "application/json"@));
    if let Some(p) = password {
        assert(h[2] == ("Authorization"@, "Bearer "@ + p));
    } else {
        assert forall|i: int| 0 <= i < h.len() implies #[trigger] h[i].0 != "Authorization"@ by {
            assert(h[i].0.len() != "Authorization"@.len());
        }
    }
}

fn push_header(headers: &mut Vec<(String, String)>, name: String, value: String)
    ensures
        headers_view(final(headers)@) == headers_view(old(headers)@).push((name@, value@)),
{
    let ghost n = name@;
    let ghost v = value@;
    headers.push((name, value));
    assert(headers_view(headers@) =~= headers_view(old(headers)@).push((n, v)));
}

/// Builds the request for a GraphQL query: a POST to
/// `https://graphql.anilist.co` that sends and accepts JSON, authorized by
/// the credential's password as bearer token when there is one.
pub fn build_http_request(password: &Option<String>) -> (r: GraphQLHttpRequest)
    ensures
        r.url@ == "https://graphql.anilist.co"@,
        opt_text(r.method) == Some("POST"@),
        headers_view(r.headers@) == headers_for(opt_text(*password)),
{
    let mut headers: Vec<(String, String)> = Vec::new();
    assert(headers_view(headers@) =~= Seq::empty());
    push_header(
        &mut headers,
        String::from_str("Content-Type"),
        String::from_str("application/json"),
    );
    push_header(&mut headers, String::from_str("Accept"), String::from_str("application/json"));
    if let Some(token) = password {
        let mut value = String::from_str("Bearer ");
        value.append(token.as_str());
        push_header(&mut headers, String::from_str("Authorization"), value);
    }
    assert(headers_view(headers@) =~= headers_for(opt_text(*password)));
    GraphQLHttpRequest {
        url: String::from_str("https://graphql.anilist.co"),
        method: Some(String::from_str("POST")),
        headers,
    }
}

/// Judges an HTTP response status: `None` for a success (2xx), otherwise
/// the status, which becomes the error code of the lookup.
pub fn status_failure(status: u16) -> (r: Option<u16>)
    ensures
        r == (if 200 <= status < 300 {
            None
        } else {
            Some(status)
        }),
{
    if status >= 200 && status < 300 {
        None
    } else {
        Some(status)
    }
}

/// The media of a response to a query by id: the entry found, if any.
pub open spec fn id_response_media_of(r: AniListIdResponse) -> Seq<AniListMedia> {
    match r.data {
        Some(d) => match d.media {
            Some(m) => seq![m],
            None => Seq::empty(),
        },
        None => Seq::empty(),
    }
}

/// Returns the media of a response to a query by id: the entry found, if
/// any.
pub fn id_response_media(response: AniListIdResponse) -> (r: Vec<AniListMedia>)
    ensures
        r@ == id_response_media_of(response),
{
    let mut media: Vec<AniListMedia> = Vec::new();
    if let Some(data) = response.data {
        if let Some(m) = data.media {
            media.push(m);
        }
    }
    assert(media@ =~= id_response_media_of(response));
    media
}

/// The media of an optional page of results.
pub open spec fn page_media(p: Option<AniListPage>) -> Seq<AniListMedia> {
    match p {
        Some(page) => match page.media {
            Some(v) => v@,
            None => Seq::empty(),
        },
        None => Seq::empty(),
    }
}

/// The media of a search response: those of the non-adult page, then
/// those of the adult page.
pub open spec fn search_response_media_of(r: AniListSearchResponse) -> Seq<AniListMedia> {
    match r.data {
        Some(d) => page_media(d.sfw) + page_media(d.nsfw),
        None => Seq::empty(),
    }
}

/// Returns the media of a search response: those of the non-adult page,
/// then those of the adult page.
pub fn search_response_media(response: AniListSearchResponse) -> (r: Vec<AniListMedia>)
    ensures
        r@ == search_response_media_of(response),
{
    let mut all_media: Vec<AniListMedia> = Vec::new();
    if let Some(data) = response.data {
        if let Some(sfw) = data.sfw {
            if let Some(mut m) = sfw.media {
                all_media.append(&mut m);
            }
        }
        if let Some(nsfw) = data.nsfw {
            if let Some(mut m) = nsfw.media {
                all_media.append(&mut m);
            }
        }
    }
    assert(all_media@ =~= search_response_media_of(response));
    all_media
}

} // verus!
