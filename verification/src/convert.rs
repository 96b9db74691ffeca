//! Conversion of an AniList media entry into a lookup result: a series
//! description with its alternative names, status, trailer and extra
//! parameters, plus the entry's images.

use vstd::prelude::*;
use vstd::string::*;

use crate::anilist::AniListMedia;
use crate::text::{
    decimal_digits, decimal_string, decimal_value, lemma_decimal_digits, lowercase_of, str_equals,
    to_lowercase,
};

verus! {

/// The characters of an optional string.
pub open spec fn opt_text(o: Option<String>) -> Option<Seq<char>> {
    match o {
        Some(s) => Some(s@),
        None => None,
    }
}

/// The characters of each string of a sequence.
pub open spec fn texts(v: Seq<String>) -> Seq<Seq<char>> {
    v.map_values(|s: String| s@)
}

/// The characters of each string of an optional list.
pub open spec fn opt_texts(o: Option<Vec<String>>) -> Option<Seq<Seq<char>>> {
    match o {
        Some(v) => Some(texts(v@)),
        None => None,
    }
}

/// The display title of a media entry: its English title, else its romaji
/// title, else its native title, else the empty string.
pub open spec fn title_of(m: AniListMedia) -> Seq<char> {
    match m.title {
        Some(t) => match t.english {
            Some(e) => e@,
            None => match t.romaji {
                Some(r) => r@,
                None => match t.native {
                    Some(n) => n@,
                    None => Seq::empty(),
                },
            },
        },
        None => Seq::empty(),
    }
}

/// A one-element sequence holding the characters of `o`, or nothing.
pub open spec fn opt_seq(o: Option<String>) -> Seq<Seq<char>> {
    match o {
        Some(s) => seq![s@],
        None => Seq::empty(),
    }
}

/// The names that may serve as alternative names, in order: the English,
/// romaji and native titles, then the synonyms.
pub open spec fn alt_candidates(m: AniListMedia) -> Seq<Seq<char>> {
    (match m.title {
        Some(t) => opt_seq(t.english) + opt_seq(t.romaji) + opt_seq(t.native),
        None => Seq::empty(),
    }) + (match m.synonyms {
        Some(v) => texts(v@),
        None => Seq::empty(),
    })
}

/// `names` extended by `x`, unless `x` is `primary` or already in `names`.
pub open spec fn add_distinct(names: Seq<Seq<char>>, x: Seq<char>, primary: Seq<char>) -> Seq<
    Seq<char>,
> {
    if x == primary || names.contains(x) {
        names
    } else {
        names.push(x)
    }
}

/// The first occurrence of each name of `c` other than `primary`, in order.
pub open spec fn distinct_others(c: Seq<Seq<char>>, primary: Seq<char>) -> Seq<Seq<char>>
    decreases c.len(),
{
    if c.len() == 0 {
        Seq::empty()
    } else {
        add_distinct(distinct_others(c.drop_last(), primary), c.last(), primary)
    }
}

/// The alternative names of a media entry: its distinct candidate names that
/// differ from its display title, or `None` when there are none.
pub open spec fn alt_names_of(m: AniListMedia) -> Option<Seq<Seq<char>>> {
    let a = distinct_others(alt_candidates(m), title_of(m));
    if a.len() == 0 {
        None
    } else {
        Some(a)
    }
}

proof fn lemma_distinct_others_push(c: Seq<Seq<char>>, x: Seq<char>, primary: Seq<char>)
    ensures
        distinct_others(c.push(x), primary) == add_distinct(distinct_others(c, primary), x, primary),
{
    assert(c.push(x).drop_last() =~= c);
}

/// Every alternative name differs from the display title, no name occurs
/// twice, every name is a candidate, and every candidate other than the
/// display title is among the names.
pub proof fn lemma_distinct_others(c: Seq<Seq<char>>, primary: Seq<char>)
    ensures
        forall|i: int|
            0 <= i < distinct_others(c, primary).len() ==> #[trigger] distinct_others(
                c,
                primary,
            )[i] != primary,
        forall|i: int, j: int|
            0 <= i < j < distinct_others(c, primary).len() ==> distinct_others(c, primary)[i]
                != distinct_others(c, primary)[j],
        forall|i: int|
            0 <= i < distinct_others(c, primary).len() ==> c.contains(
                #[trigger] distinct_others(c, primary)[i],
            ),
        forall|k: int|
            0 <= k < c.len() && c[k] != primary ==> distinct_others(c, primary).contains(
                #[trigger] c[k],
            ),
    decreases c.len(),
{
    if c.len() > 0 {
        let p = c.drop_last();
        lemma_distinct_others(p, primary);
        let prev = distinct_others(p, primary);
        let r = distinct_others(c, primary);
        assert forall|i: int| 0 <= i < r.len() implies c.contains(#[trigger] r[i]) by {
            if i < prev.len() {
                assert(p.contains(prev[i]));
                let k = choose|k: int| 0 <= k < p.len() && p[k] == prev[i];
                assert(c[k] == p[k]);
            } else {
                assert(c[c.len() - 1] == r[i]);
            }
        }
        assert forall|k: int| 0 <= k < c.len() && c[k] != primary implies r.contains(
            #[trigger] c[k],
        ) by {
            if k < c.len() - 1 {
                assert(p[k] == c[k]);
                assert(prev.contains(p[k]));
                let j = choose|j: int| 0 <= j < prev.len() && prev[j] == p[k];
                assert(r[j] == prev[j]);
            } else {
                if !prev.contains(c.last()) {
                    assert(r[r.len() - 1] == c.last());
                }
            }
        }
    }
}

/// The alternative names of a media entry never include its display title
/// and never repeat a name; each one is a title or synonym of the entry, and
/// every title or synonym that differs from the display title is one of them.
pub proof fn lemma_alt_names(m: AniListMedia)
    ensures
        alt_names_of(m) matches Some(a) ==> {
            &&& forall|i: int| 0 <= i < a.len() ==> #[trigger] a[i] != title_of(m)
            &&& forall|i: int, j: int| 0 <= i < j < a.len() ==> a[i] != a[j]
            &&& forall|i: int| 0 <= i < a.len() ==> alt_candidates(m).contains(#[trigger] a[i])
        },
        forall|k: int|
            0 <= k < alt_candidates(m).len() && #[trigger] alt_candidates(m)[k] != title_of(m)
                ==> (alt_names_of(m) matches Some(a) && a.contains(alt_candidates(m)[k])),
{
    lemma_distinct_others(alt_candidates(m), title_of(m));
}

fn clone_strings(v: &Vec<String>) -> (r: Vec<String>)
    ensures
        texts(r@) == texts(v@),
{
    let mut r: Vec<String> = Vec::new();
    let mut i: usize = 0;
    while i < v.len()
        invariant
            i <= v.len(),
            r@.len() == i,
            forall|j: int| 0 <= j < i ==> #[trigger] r@[j]@ == v@[j]@,
        decreases v.len() - i,
    {
        r.push(v[i].clone());
        i = i + 1;
    }
    assert(texts(r@) =~= texts(v@));
    r
}

/// Whether `s` is among `v`, comparing characters.
fn contains_string(v: &Vec<String>, s: &String) -> (r: bool)
    ensures
        r == texts(v@).contains(s@),
{
    let mut i: usize = 0;
    while i < v.len()
        invariant
            i <= v.len(),
            forall|j: int| 0 <= j < i ==> #[trigger] v@[j]@ != s@,
        decreases v.len() - i,
    {
        if v[i] == *s {
            assert(texts(v@)[i as int] == s@);
            return true;
        }
        i = i + 1;
    }
    assert forall|j: int| 0 <= j < texts(v@).len() implies #[trigger] texts(v@)[j] != s@ by {
        assert(texts(v@)[j] == v@[j]@);
    }
    false
}

/// The display title is the English title whenever there is one; else the
/// romaji title whenever there is one; else the native title; and it is
/// empty only when the entry has no title at all or all its titles are
/// themselves empty.
pub proof fn lemma_title_choice(m: AniListMedia)
    ensures
        m.title matches Some(t) ==> (t.english matches Some(e) ==> title_of(m) == e@),
        m.title matches Some(t) ==> (t.english is None ==> (t.romaji matches Some(r)
            ==> title_of(m) == r@)),
        m.title matches Some(t) ==> (t.english is None && t.romaji is None ==> (
        t.native matches Some(n) ==> title_of(m) == n@)),
        title_of(m).len() > 0 ==> alt_candidates(m).contains(title_of(m)),
{
    if title_of(m).len() > 0 {
        let t = m.title->0;
        let c = alt_candidates(m);
        if t.english is Some {
            assert(c[0] == title_of(m));
        } else if t.romaji is Some {
            assert(c[0] == title_of(m));
        } else {
            assert(c[0] == title_of(m));
        }
    }
}

/// Returns the display title of a media entry: its English title, else its
/// romaji title, else its native title, else the empty string.
pub fn best_title(media: &AniListMedia) -> (r: String)
    ensures
        r@ == title_of(*media),
{
    match &media.title {
        Some(t) => match &t.english {
            Some(e) => e.clone(),
            None => match &t.romaji {
                Some(r) => r.clone(),
                None => match &t.native {
                    Some(n) => n.clone(),
                    None => String::new(),
                },
            },
        },
        None => String::new(),
    }
}

fn add_alt(alts: &mut Vec<String>, name: &String, primary: &String)
    ensures
        texts(final(alts)@) == add_distinct(texts(old(alts)@), name@, primary@),
{
    if *name != *primary && !contains_string(alts, name) {
        alts.push(name.clone());
        assert(texts(alts@) =~= texts(old(alts)@).push(name@));
    }
}

/// Returns the alternative names of a media entry: its titles and then its
/// synonyms, each once, leaving out the display title; `None` when no
/// name is left.
pub fn alt_names(media: &AniListMedia) -> (r: Option<Vec<String>>)
    ensures
        opt_texts(r) == alt_names_of(*media),
{
    let primary = best_title(media);
    let mut alts: Vec<String> = Vec::new();
    let ghost mut cands: Seq<Seq<char>> = Seq::empty();
    assert(texts(alts@) =~= distinct_others(cands, primary@));

    if let Some(title) = &media.title {
        if let Some(n) = &title.english {
            proof { lemma_distinct_others_push(cands, n@, primary@); }
            add_alt(&mut alts, n, &primary);
            proof { cands = cands.push(n@); }
        }
        if let Some(n) = &title.romaji {
            proof { lemma_distinct_others_push(cands, n@, primary@); }
            add_alt(&mut alts, n, &primary);
            proof { cands = cands.push(n@); }
        }
        if let Some(n) = &title.native {
            proof { lemma_distinct_others_push(cands, n@, primary@); }
            add_alt(&mut alts, n, &primary);
            proof { cands = cands.push(n@); }
        }
        assert(cands =~= opt_seq(title.english) + opt_seq(title.romaji) + opt_seq(title.native));
    } else {
        assert(cands =~= Seq::<Seq<char>>::empty());
    }
    let ghost head = cands;

    if let Some(synonyms) = &media.synonyms {
        let mut i: usize = 0;
        while i < synonyms.len()
            invariant
                i <= synonyms.len(),
                cands == head + texts(synonyms@).take(i as int),
                texts(alts@) == distinct_others(cands, primary@),
            decreases synonyms.len() - i,
        {
            let s = &synonyms[i];
            proof { lemma_distinct_others_push(cands, s@, primary@); }
            add_alt(&mut alts, s, &primary);
            proof {
                cands = cands.push(s@);
                assert(cands =~= head + texts(synonyms@).take(i + 1));
            }
            i = i + 1;
        }
        assert(texts(synonyms@).take(synonyms@.len() as int) =~= texts(synonyms@));
        assert(cands =~= alt_candidates(*media));
    } else {
        assert(cands =~= alt_candidates(*media));
    }

    if alts.len() == 0 {
        None
    } else {
        Some(alts)
    }
}

/// The release status of a series.
#[derive(Debug, Clone, PartialEq, Eq)]
pub enum SerieStatus {
    Ended,
    Returning,
    Planned,
    Canceled,
    Other(String),
    Unknown,
}

/// The release status of a series, with text as characters.
pub enum SerieStatusModel {
    Ended,
    Returning,
    Planned,
    Canceled,
    Other(Seq<char>),
    Unknown,
}

impl View for SerieStatus {
    type V = SerieStatusModel;

    open spec fn view(&self) -> SerieStatusModel {
        match self {
            SerieStatus::Ended => SerieStatusModel::Ended,
            SerieStatus::Returning => SerieStatusModel::Returning,
            SerieStatus::Planned => SerieStatusModel::Planned,
            SerieStatus::Canceled => SerieStatusModel::Canceled,
            SerieStatus::Other(s) => SerieStatusModel::Other(s@),
            SerieStatus::Unknown => SerieStatusModel::Unknown,
        }
    }
}

/// The series status that an AniList media status denotes.
pub open spec fn status_of(s: Seq<char>) -> SerieStatusModel {
    if s == "FINISHED"@ {
        SerieStatusModel::Ended
    } else if s == "RELEASING"@ {
        SerieStatusModel::Returning
    } else if s == "NOT_YET_RELEASED"@ {
        SerieStatusModel::Planned
    } else if s == "CANCELLED"@ {
        SerieStatusModel::Canceled
    } else if s == "HIATUS"@ {
        SerieStatusModel::Other("hiatus"@)
    } else {
        SerieStatusModel::Unknown
    }
}

/// The series status of an optional AniList media status.
pub open spec fn opt_status_of(o: Option<String>) -> Option<SerieStatusModel> {
    match o {
        Some(s) => Some(status_of(s@)),
        None => None,
    }
}

/// The model of an optional series status.
pub open spec fn opt_status(o: Option<SerieStatus>) -> Option<SerieStatusModel> {
    match o {
        Some(s) => Some(s@),
        None => None,
    }
}

/// Each AniList status name gives its own series status, and every other
/// text gives the unknown status: `FINISHED` exactly ends, `RELEASING`
/// exactly returns, `NOT_YET_RELEASED` exactly is planned, `CANCELLED`
/// exactly is canceled, and `HIATUS` exactly is the custom status `hiatus`.
pub proof fn lemma_status_table(s: Seq<char>)
    ensures
        (status_of(s) == SerieStatusModel::Ended) <==> s == "FINISHED"@,
        (status_of(s) == SerieStatusModel::Returning) <==> s == "RELEASING"@,
        (status_of(s) == SerieStatusModel::Planned) <==> s == "NOT_YET_RELEASED"@,
        (status_of(s) == SerieStatusModel::Canceled) <==> s == "CANCELLED"@,
        (status_of(s) == SerieStatusModel::Other("hiatus"@)) <==> s == "HIATUS"@,
        (status_of(s) is Unknown) <==> !(s == "FINISHED"@ || s == "RELEASING"@ || s
            == "NOT_YET_RELEASED"@ || s == "CANCELLED"@ || s == "HIATUS"@),
{
    reveal_strlit("FINISHED");
    reveal_strlit("RELEASING");
    reveal_strlit("NOT_YET_RELEASED");
    reveal_strlit("CANCELLED");
    reveal_strlit("HIATUS");
    let names = seq!["FINISHED"@, "RELEASING"@, "NOT_YET_RELEASED"@, "CANCELLED"@, "HIATUS"@];
    assert forall|i: int, j: int| 0 <= i < 5 && 0 <= j < 5 && i != j implies names[i] != names[j] by {
        assert(names[i].len() != names[j].len() || names[i][0] != names[j][0]);
    }
    assert(names[0] != names[1] && names[0] != names[2] && names[0] != names[3] && names[0] != names[4]);
    assert(names[1] != names[2] && names[1] != names[3] && names[1] != names[4]);
    assert(names[2] != names[3] && names[2] != names[4] && names[3] != names[4]);
}

/// Maps an AniList media status to a series status: `FINISHED` to ended,
/// `RELEASING` to returning, `NOT_YET_RELEASED` to planned, `CANCELLED` to
/// canceled, `HIATUS` to the custom status `hiatus`, anything else to unknown.
pub fn map_status(status: &Option<String>) -> (r: Option<SerieStatus>)
    ensures
        opt_status(r) == opt_status_of(*status),
{
    match status {
        None => None,
        Some(s) => {
            let s = s.as_str();
            let st = if str_equals(s, "FINISHED") {
                SerieStatus::Ended
            } else if str_equals(s, "RELEASING") {
                SerieStatus::Returning
            } else if str_equals(s, "NOT_YET_RELEASED") {
                SerieStatus::Planned
            } else if str_equals(s, "CANCELLED") {
                SerieStatus::Canceled
            } else if str_equals(s, "HIATUS") {
                SerieStatus::Other(String::from_str("hiatus"))
            } else {
                SerieStatus::Unknown
            };
            Some(st)
        },
    }
}

/// The trailer link of a media entry: a YouTube watch link when the trailer
/// is on YouTube and has an id.
pub open spec fn trailer_url_of(m: AniListMedia) -> Option<Seq<char>> {
    match m.trailer {
        Some(t) => match t.site {
            Some(site) => if site@ == "youtube"@ {
                match t.id {
                    Some(id) => Some("https://www.youtube.com/watch?v="@ + id@),
                    None => None,
                }
            } else {
                None
            },
            None => None,
        },
        None => None,
    }
}

/// A media entry has a trailer link exactly when its trailer is on the site
/// `youtube` and has an id, and the link is the YouTube watch address
/// followed by that id.
pub proof fn lemma_trailer_url(m: AniListMedia)
    ensures
        trailer_url_of(m) is Some <==> (m.trailer matches Some(t) && (t.site matches Some(site)
            && site@ == "youtube"@) && t.id is Some),
        trailer_url_of(m) matches Some(u) ==> {
            &&& u.take(32) == "https://www.youtube.com/watch?v="@
            &&& m.trailer matches Some(t) && (t.id matches Some(id) && u.skip(32) == id@)
        },
{
    reveal_strlit("https://www.youtube.com/watch?v=");
    if let Some(u) = trailer_url_of(m) {
        let id = m.trailer->0.id->0;
        assert(u.take(32) =~= "https://www.youtube.com/watch?v="@);
        assert(u.skip(32) =~= id@);
    }
}

/// Returns the YouTube link of the trailer of a media entry, if it has one.
pub fn build_trailer_url(media: &AniListMedia) -> (r: Option<String>)
    ensures
        opt_text(r) == trailer_url_of(*media),
{
    match &media.trailer {
        Some(t) => match &t.site {
            Some(site) => if str_equals(site.as_str(), "youtube") {
                match &t.id {
                    Some(id) => {
                        let mut url = String::from_str("https://www.youtube.com/watch?v=");
                        url.append(id.as_str());
                        Some(url)
                    },
                    None => None,
                }
            } else {
                None
            },
            None => None,
        },
        None => None,
    }
}

/// The role of an image.
#[derive(Debug, Clone, Copy, PartialEq, Eq)]
pub enum ImageType {
    Poster,
    Background,
}

/// An image of a media entry, found at `url`.
#[derive(Debug, Clone)]
pub struct ExternalImage {
    pub kind: Option<ImageType>,
    pub url: String,
}

/// An image as its kind and the characters of its url.
pub open spec fn image_view(i: ExternalImage) -> (Option<ImageType>, Seq<char>) {
    (i.kind, i.url@)
}

/// The kind and url of each image of a sequence.
pub open spec fn images_view(v: Seq<ExternalImage>) -> Seq<(Option<ImageType>, Seq<char>)> {
    v.map_values(|i: ExternalImage| image_view(i))
}

/// The poster url of a media entry: the largest cover image available.
pub open spec fn poster_url_of(m: AniListMedia) -> Option<Seq<char>> {
    match m.cover_image {
        Some(c) => match c.extra_large {
            Some(u) => Some(u@),
            None => match c.large {
                Some(u) => Some(u@),
                None => opt_text(c.medium),
            },
        },
        None => None,
    }
}

/// The images of a media entry: its poster, if any, then its banner as
/// background, if any.
pub open spec fn images_of(m: AniListMedia) -> Seq<(Option<ImageType>, Seq<char>)> {
    (match poster_url_of(m) {
        Some(u) => seq![(Some(ImageType::Poster), u)],
        None => Seq::empty(),
    }) + (match m.banner_image {
        Some(b) => seq![(Some(ImageType::Background), b@)],
        None => Seq::empty(),
    })
}

/// A media entry has at most two images; the poster, when there is one,
/// comes first, and the background, when there is one, comes last.
pub proof fn lemma_images_shape(m: AniListMedia)
    ensures
        images_of(m).len() <= 2,
        images_of(m).len() == 2 ==> images_of(m)[0].0 == Some(ImageType::Poster)
            && images_of(m)[1].0 == Some(ImageType::Background),
        poster_url_of(m) is Some <==> (images_of(m).len() > 0 && images_of(m)[0].0 == Some(
            ImageType::Poster,
        )),
        m.banner_image is Some <==> (images_of(m).len() > 0 && images_of(m).last().0 == Some(
            ImageType::Background,
        )),
{
}

/// The poster is the largest cover image available: the extra-large one
/// when there is one, else the large one, else the medium one; with no
/// cover image at all there is no poster, and the banner, when there is
/// one, is the background right after it.
pub proof fn lemma_poster_choice(m: AniListMedia)
    ensures
        m.cover_image matches Some(c) ==> (c.extra_large matches Some(u) ==> images_of(m)[0] == (
            Some(ImageType::Poster),
            u@,
        )),
        m.cover_image matches Some(c) ==> (c.extra_large is None ==> (c.large matches Some(u)
            ==> images_of(m)[0] == (Some(ImageType::Poster), u@))),
        m.cover_image matches Some(c) ==> (c.extra_large is None && c.large is None ==> (
        c.medium matches Some(u) ==> images_of(m)[0] == (Some(ImageType::Poster), u@))),
        m.cover_image matches Some(c) ==> (c.extra_large is None && c.large is None
            && c.medium is None ==> forall|i: int|
            0 <= i < images_of(m).len() ==> #[trigger] images_of(m)[i].0 != Some(
                ImageType::Poster,
            )),
        m.cover_image is None ==> forall|i: int|
            0 <= i < images_of(m).len() ==> #[trigger] images_of(m)[i].0 != Some(
                ImageType::Poster,
            ),
        m.banner_image matches Some(b) ==> images_of(m).last() == (Some(ImageType::Background), b@),
{
}

fn push_image(images: &mut Vec<ExternalImage>, kind: ImageType, url: &String)
    ensures
        images_view(final(images)@) == images_view(old(images)@).push((Some(kind), url@)),
{
    images.push(ExternalImage { kind: Some(kind), url: url.clone() });
    assert(images_view(images@) =~= images_view(old(images)@).push((Some(kind), url@)));
}

/// Returns the images of a media entry: the largest cover image available
/// as poster, then the banner as background.
pub fn build_images(media: &AniListMedia) -> (r: Vec<ExternalImage>)
    ensures
        images_view(r@) == images_of(*media),
{
    let mut images: Vec<ExternalImage> = Vec::new();
    assert(images_view(images@) =~= Seq::empty());

    if let Some(cover) = &media.cover_image {
        let url = match &cover.extra_large {
            Some(u) => Some(u),
            None => match &cover.large {
                Some(u) => Some(u),
                None => cover.medium.as_ref(),
            },
        };
        if let Some(url) = url {
            push_image(&mut images, ImageType::Poster, url);
        }
    }
    let ghost posters = images_view(images@);
    assert(posters =~= match poster_url_of(*media) {
        Some(u) => seq![(Some(ImageType::Poster), u)],
        None => Seq::empty(),
    });

    if let Some(banner) = &media.banner_image {
        push_image(&mut images, ImageType::Background, banner);
    }
    assert(images_view(images@) =~= images_of(*media));
    images
}

/// A value of an extra parameter of a series.
#[derive(Debug, Clone, PartialEq, Eq)]
pub enum ParamValue {
    Text(String),
    TextList(Vec<String>),
    Integer(u64),
    Flag(bool),
}

/// A parameter value, with text as characters.
pub enum ParamModel {
    Text(Seq<char>),
    TextList(Seq<Seq<char>>),
    Integer(u64),
    Flag(bool),
}

/// The model of a parameter value.
pub open spec fn param_model(v: ParamValue) -> ParamModel {
    match v {
        ParamValue::Text(s) => ParamModel::Text(s@),
        ParamValue::TextList(l) => ParamModel::TextList(texts(l@)),
        ParamValue::Integer(n) => ParamModel::Integer(n),
        ParamValue::Flag(b) => ParamModel::Flag(b),
    }
}

/// The name and model of each parameter of a sequence.
pub open spec fn params_view(p: Seq<(String, ParamValue)>) -> Seq<(Seq<char>, ParamModel)> {
    p.map_values(|e: (String, ParamValue)| (e.0@, param_model(e.1)))
}

/// The model of optional parameters.
pub open spec fn opt_params(o: Option<Vec<(String, ParamValue)>>) -> Option<
    Seq<(Seq<char>, ParamModel)>,
> {
    match o {
        Some(p) => Some(params_view(p@)),
        None => None,
    }
}

/// A text parameter named `key`, present when `value` is.
pub open spec fn text_param(key: Seq<char>, value: Option<String>) -> Seq<(Seq<char>, ParamModel)> {
    match value {
        Some(v) => seq![(key, ParamModel::Text(v@))],
        None => Seq::empty(),
    }
}

/// A list parameter named `key`, present when `value` is.
pub open spec fn list_param(key: Seq<char>, value: Option<Vec<String>>) -> Seq<
    (Seq<char>, ParamModel),
> {
    match value {
        Some(v) => seq![(key, ParamModel::TextList(texts(v@)))],
        None => Seq::empty(),
    }
}

/// An integer parameter named `key`, present when `value` is.
pub open spec fn int_param(key: Seq<char>, value: Option<u64>) -> Seq<(Seq<char>, ParamModel)> {
    match value {
        Some(v) => seq![(key, ParamModel::Integer(v))],
        None => Seq::empty(),
    }
}

/// A flag parameter named `key`, present when `value` is.
pub open spec fn flag_param(key: Seq<char>, value: Option<bool>) -> Seq<(Seq<char>, ParamModel)> {
    match value {
        Some(v) => seq![(key, ParamModel::Flag(v))],
        None => Seq::empty(),
    }
}

/// An optional `u32` widened to `u64`.
pub open spec fn widen(o: Option<u32>) -> Option<u64> {
    match o {
        Some(v) => Some(v as u64),
        None => None,
    }
}

/// The extra parameters of a media entry, in this order: `overview`,
/// `genres`, `country`, `anilist_id` (always), `format`, `episodes`,
/// `averageScore`, `popularity`, `isAdult`, `siteUrl`; each other than
/// `anilist_id` only when the entry has the value.
pub open spec fn params_of(m: AniListMedia) -> Seq<(Seq<char>, ParamModel)> {
    text_param("overview"@, m.description) + list_param("genres"@, m.genres) + text_param(
        "country"@,
        m.country_of_origin,
    ) + seq![("anilist_id"@, ParamModel::Integer(m.id))] + text_param("format"@, m.format)
        + int_param("episodes"@, widen(m.episodes)) + int_param(
        "averageScore"@,
        widen(m.average_score),
    ) + int_param("popularity"@, m.popularity) + flag_param("isAdult"@, m.is_adult)
        + text_param("siteUrl"@, m.site_url)
}

/// The names of a sequence of parameters.
pub open spec fn param_keys(p: Seq<(Seq<char>, ParamModel)>) -> Seq<Seq<char>> {
    p.map_values(|e: (Seq<char>, ParamModel)| e.0)
}

/// The ten parameter names, in the order in which parameters are added.
pub open spec fn param_names() -> Seq<Seq<char>> {
    seq![
        "overview"@,
        "genres"@,
        "country"@,
        "anilist_id"@,
        "format"@,
        "episodes"@,
        "averageScore"@,
        "popularity"@,
        "isAdult"@,
        "siteUrl"@,
    ]
}

proof fn lemma_param_names_distinct()
    ensures
        param_names().no_duplicates(),
{
    reveal_strlit("overview");
    reveal_strlit("genres");
    reveal_strlit("country");
    reveal_strlit("anilist_id");
    reveal_strlit("format");
    reveal_strlit("episodes");
    reveal_strlit("averageScore");
    reveal_strlit("popularity");
    reveal_strlit("isAdult");
    reveal_strlit("siteUrl");
    let all = param_names();
    assert forall|i: int, j: int|
        0 <= i < all.len() && 0 <= j < all.len() && i != j implies all[i] != all[j] by {
        assert(all[i].len() != all[j].len() || all[i][0] != all[j][0]);
    }
}

/// The series id of a media entry is `anilist:` followed by the decimal
/// digits of its AniList id: the characters after the prefix are all
/// between `'0'` and `'9'`, and read back (by character code) as the id.
pub proof fn lemma_serie_id(m: AniListMedia)
    ensures
        serie_id_of(m).len() > 8,
        serie_id_of(m).take(8) == "anilist:"@,
        forall|i: int|
            8 <= i < serie_id_of(m).len() ==> '0' <= #[trigger] serie_id_of(m)[i] <= '9',
        decimal_value(serie_id_of(m).skip(8)) == m.id,
{
    reveal_strlit("anilist:");
    lemma_decimal_digits(m.id as nat);
    let d = decimal_digits(m.id as nat);
    assert(serie_id_of(m).skip(8) =~= d);
    assert(serie_id_of(m).take(8) =~= "anilist:"@);
    assert forall|i: int| 8 <= i < serie_id_of(m).len() implies '0' <= #[trigger] serie_id_of(m)[i] <= '9' by {
        assert(serie_id_of(m)[i] == d[i - 8]);
    }
}

proof fn lemma_keys_concat(a: Seq<(Seq<char>, ParamModel)>, b: Seq<(Seq<char>, ParamModel)>)
    ensures
        param_keys(a + b) == param_keys(a) + param_keys(b),
{
    assert(param_keys(a + b) =~= param_keys(a) + param_keys(b));
}

proof fn lemma_keys_extend(p: Seq<Seq<char>>, seg: Seq<(Seq<char>, ParamModel)>, t: int)
    requires
        param_names().no_duplicates(),
        0 <= t < param_names().len(),
        p.no_duplicates(),
        forall|x: Seq<char>| p.contains(x) ==> param_names().take(t).contains(x),
        seg.len() == 0 || (seg.len() == 1 && seg[0].0 == param_names()[t]),
    ensures
        (p + param_keys(seg)).no_duplicates(),
        forall|x: Seq<char>|
            (p + param_keys(seg)).contains(x) ==> param_names().take(t + 1).contains(x),
{
    let all = param_names();
    let q = p + param_keys(seg);
    assert forall|x: Seq<char>| q.contains(x) implies all.take(t + 1).contains(x) by {
        let k = choose|k: int| 0 <= k < q.len() && q[k] == x;
        if k < p.len() {
            assert(p.contains(x));
            let j = choose|j: int| 0 <= j < all.take(t).len() && all.take(t)[j] == x;
            assert(all.take(t + 1)[j] == x);
        } else {
            assert(all.take(t + 1)[t] == x);
        }
    }
    if seg.len() == 1 {
        assert(!p.contains(all[t])) by {
            if p.contains(all[t]) {
                let j = choose|j: int| 0 <= j < all.take(t).len() && all.take(t)[j] == all[t];
                assert(all[j] == all[t]);
            }
        }
        assert forall|i: int, j: int| 0 <= i < q.len() && 0 <= j < q.len() && i != j implies q[i]
            != q[j] by {
            if i == p.len() {
                assert(p.contains(q[j]));
            } else if j == p.len() {
                assert(p.contains(q[i]));
            }
        }
    } else {
        assert(q =~= p);
    }
}

/// No parameter name occurs twice among the extra parameters of a media
/// entry, so they form a map from name to value.
#[verifier::rlimit(40)]
pub proof fn lemma_params_keys_distinct(m: AniListMedia)
    ensures
        param_keys(params_of(m)).no_duplicates(),
{
    lemma_param_names_distinct();
    let all = param_names();
    let p0: Seq<Seq<char>> = Seq::empty();
    let q0: Seq<(Seq<char>, ParamModel)> = Seq::empty();
    assert(all.take(0) =~= Seq::<Seq<char>>::empty());
    assert(param_keys(q0) =~= p0);
    let s0 = text_param("overview"@, m.description);
    assert(s0.len() == 0 || (s0.len() == 1 && s0[0].0 == all[0]));
    lemma_keys_extend(p0, s0, 0);
    lemma_keys_concat(q0, s0);
    let p1 = p0 + param_keys(s0);
    let q1 = s0;
    assert(q0 + s0 =~= s0);
    let s1 = list_param("genres"@, m.genres);
    assert(s1.len() == 0 || (s1.len() == 1 && s1[0].0 == all[1]));
    lemma_keys_extend(p1, s1, 1);
    lemma_keys_concat(q1, s1);
    let p2 = p1 + param_keys(s1);
    let q2 = q1 + s1;
    let s2 = text_param("country"@, m.country_of_origin);
    assert(s2.len() == 0 || (s2.len() == 1 && s2[0].0 == all[2]));
    lemma_keys_extend(p2, s2, 2);
    lemma_keys_concat(q2, s2);
    let p3 = p2 + param_keys(s2);
    let q3 = q2 + s2;
    let s3 = seq![("anilist_id"@, ParamModel::Integer(m.id))];
    assert(s3.len() == 0 || (s3.len() == 1 && s3[0].0 == all[3]));
    lemma_keys_extend(p3, s3, 3);
    lemma_keys_concat(q3, s3);
    let p4 = p3 + param_keys(s3);
    let q4 = q3 + s3;
    let s4 = text_param("format"@, m.format);
    assert(s4.len() == 0 || (s4.len() == 1 && s4[0].0 == all[4]));
    lemma_keys_extend(p4, s4, 4);
    lemma_keys_concat(q4, s4);
    let p5 = p4 + param_keys(s4);
    let q5 = q4 + s4;
    let s5 = int_param("episodes"@, widen(m.episodes));
    assert(s5.len() == 0 || (s5.len() == 1 && s5[0].0 == all[5]));
    lemma_keys_extend(p5, s5, 5);
    lemma_keys_concat(q5, s5);
    let p6 = p5 + param_keys(s5);
    let q6 = q5 + s5;
    let s6 = int_param("averageScore"@, widen(m.average_score));
    assert(s6.len() == 0 || (s6.len() == 1 && s6[0].0 == all[6]));
    lemma_keys_extend(p6, s6, 6);
    lemma_keys_concat(q6, s6);
    let p7 = p6 + param_keys(s6);
    let q7 = q6 + s6;
    let s7 = int_param("popularity"@, m.popularity);
    assert(s7.len() == 0 || (s7.len() == 1 && s7[0].0 == all[7]));
    lemma_keys_extend(p7, s7, 7);
    lemma_keys_concat(q7, s7);
    let p8 = p7 + param_keys(s7);
    let q8 = q7 + s7;
    let s8 = flag_param("isAdult"@, m.is_adult);
    assert(s8.len() == 0 || (s8.len() == 1 && s8[0].0 == all[8]));
    lemma_keys_extend(p8, s8, 8);
    lemma_keys_concat(q8, s8);
    let p9 = p8 + param_keys(s8);
    let q9 = q8 + s8;
    let s9 = text_param("siteUrl"@, m.site_url);
    assert(s9.len() == 0 || (s9.len() == 1 && s9[0].0 == all[9]));
    lemma_keys_extend(p9, s9, 9);
    lemma_keys_concat(q9, s9);
    let p10 = p9 + param_keys(s9);
    let q10 = q9 + s9;
}

fn push_param(params: &mut Vec<(String, ParamValue)>, key: &str, value: ParamValue)
    ensures
        params_view(final(params)@) == params_view(old(params)@).push((key@, param_model(value))),
{
    params.push((String::from_str(key), value));
    assert(params_view(params@) =~= params_view(old(params)@).push((key@, param_model(value))));
}

fn push_text_param(params: &mut Vec<(String, ParamValue)>, key: &str, value: &Option<String>)
    ensures
        params_view(final(params)@) == params_view(old(params)@) + text_param(key@, *value),
{
    match value {
        Some(v) => {
            push_param(params, key, ParamValue::Text(v.clone()));
            assert(params_view(params@) =~= params_view(old(params)@) + text_param(key@, *value));
        },
        None => {
            assert(params_view(params@) =~= params_view(old(params)@) + text_param(key@, *value));
        },
    }
}

fn push_int_param(params: &mut Vec<(String, ParamValue)>, key: &str, value: Option<u64>)
    ensures
        params_view(final(params)@) == params_view(old(params)@) + int_param(key@, value),
{
    match value {
        Some(v) => {
            push_param(params, key, ParamValue::Integer(v));
            assert(params_view(params@) =~= params_view(old(params)@) + int_param(key@, value));
        },
        None => {
            assert(params_view(params@) =~= params_view(old(params)@) + int_param(key@, value));
        },
    }
}

fn widen_exec(o: Option<u32>) -> (r: Option<u64>)
    ensures
        r == widen(o),
{
    match o {
        Some(v) => Some(v as u64),
        None => None,
    }
}

/// Returns the extra parameters of a media entry (always `Some`): its
/// description as `overview`, `genres`, country of origin as `country`,
/// `anilist_id`, `format`, `episodes`, `averageScore`, `popularity`,
/// `isAdult` and `siteUrl`, each that the entry has, in that order.
pub fn build_params(media: &AniListMedia) -> (r: Option<Vec<(String, ParamValue)>>)
    ensures
        opt_params(r) == Some(params_of(*media)),
{
    let mut params: Vec<(String, ParamValue)> = Vec::new();
    assert(params_view(params@) =~= Seq::empty());
    let ghost mut expected: Seq<(Seq<char>, ParamModel)> = Seq::empty();

    push_text_param(&mut params, "overview", &media.description);
    proof { expected = expected + text_param("overview"@, media.description); }
    match &media.genres {
        Some(g) => {
            push_param(&mut params, "genres", ParamValue::TextList(clone_strings(g)));
        },
        None => {},
    }
    proof { expected = expected + list_param("genres"@, media.genres); }
    assert(params_view(params@) =~= expected);
    push_text_param(&mut params, "country", &media.country_of_origin);
    proof { expected = expected + text_param("country"@, media.country_of_origin); }
    push_param(&mut params, "anilist_id", ParamValue::Integer(media.id));
    proof { expected = expected + seq![("anilist_id"@, ParamModel::Integer(media.id))]; }
    assert(params_view(params@) =~= expected);
    push_text_param(&mut params, "format", &media.format);
    proof { expected = expected + text_param("format"@, media.format); }
    push_int_param(&mut params, "episodes", widen_exec(media.episodes));
    proof { expected = expected + int_param("episodes"@, widen(media.episodes)); }
    push_int_param(&mut params, "averageScore", widen_exec(media.average_score));
    proof { expected = expected + int_param("averageScore"@, widen(media.average_score)); }
    push_int_param(&mut params, "popularity", media.popularity);
    proof { expected = expected + int_param("popularity"@, media.popularity); }
    match media.is_adult {
        Some(b) => {
            push_param(&mut params, "isAdult", ParamValue::Flag(b));
        },
        None => {},
    }
    proof { expected = expected + flag_param("isAdult"@, media.is_adult); }
    assert(params_view(params@) =~= expected);
    push_text_param(&mut params, "siteUrl", &media.site_url);
    proof { expected = expected + text_param("siteUrl"@, media.site_url); }
    assert(expected =~= params_of(*media));
    Some(params)
}

/// A series description, as a lookup result carries it.
#[derive(Debug, Clone)]
pub struct Serie {
    pub id: String,
    pub name: String,
    pub kind: Option<String>,
    pub alt: Option<Vec<String>>,
    pub status: Option<SerieStatus>,
    pub year: Option<u16>,
    pub trailer: Option<String>,
    pub anilist_manga_id: Option<u64>,
    pub myanimelist_manga_id: Option<u64>,
    pub params: Option<Vec<(String, ParamValue)>>,
}

/// The metadata of a lookup result.
#[derive(Debug, Clone)]
pub enum LookupMetadataResult {
    Serie(Serie),
}

/// A lookup result: metadata and the images that go with it.
#[derive(Debug, Clone)]
pub struct LookupMetadataResultWithImages {
    pub metadata: LookupMetadataResult,
    pub images: Vec<ExternalImage>,
}

/// The start year of a media entry.
pub open spec fn year_of(m: AniListMedia) -> Option<u16> {
    match m.start_date {
        Some(d) => d.year,
        None => None,
    }
}

/// The series kind of a media entry: its format, lowercased.
pub open spec fn kind_of(m: AniListMedia) -> Option<Seq<char>> {
    match m.format {
        Some(f) => Some(lowercase_of(f@)),
        None => None,
    }
}

/// The identifier of the series for a media entry: `anilist:` then the id.
pub open spec fn serie_id_of(m: AniListMedia) -> Seq<char> {
    "anilist:"@ + decimal_digits(m.id as nat)
}

/// `s` is the series that describes media entry `m`.
pub open spec fn serie_describes(s: Serie, m: AniListMedia) -> bool {
    &&& s.id@ == serie_id_of(m)
    &&& s.name@ == title_of(m)
    &&& opt_text(s.kind) == kind_of(m)
    &&& opt_texts(s.alt) == alt_names_of(m)
    &&& opt_status(s.status) == opt_status_of(m.status)
    &&& s.year == year_of(m)
    &&& opt_text(s.trailer) == trailer_url_of(m)
    &&& s.anilist_manga_id == Some(m.id)
    &&& s.myanimelist_manga_id == m.id_mal
    &&& opt_params(s.params) == Some(params_of(m))
}

/// `r` is the lookup result for media entry `m`: the series describing `m`
/// with the images of `m`.
pub open spec fn result_describes(r: LookupMetadataResultWithImages, m: AniListMedia) -> bool {
    &&& match r.metadata {
        LookupMetadataResult::Serie(s) => serie_describes(s, m),
    }
    &&& images_view(r.images@) == images_of(m)
}

/// Converts a media entry into a lookup result: a series with id
/// `anilist:<id>`, the display title as name, the lowercased format as kind,
/// the alternative names, status, start year, trailer link, AniList and
/// MyAnimeList ids and extra parameters, together with the entry's images.
pub fn anilist_media_to_result(media: AniListMedia) -> (r: LookupMetadataResultWithImages)
    ensures
        result_describes(r, media),
{
    let images = build_images(&media);
    let mut id = String::from_str("anilist:");
    let digits = decimal_string(media.id);
    id.append(digits.as_str());
    let kind = match &media.format {
        Some(f) => Some(to_lowercase(f.as_str())),
        None => None,
    };
    let year = match &media.start_date {
        Some(d) => d.year,
        None => None,
    };
    let serie = Serie {
        id,
        name: best_title(&media),
        kind,
        alt: alt_names(&media),
        status: map_status(&media.status),
        year,
        trailer: build_trailer_url(&media),
        anilist_manga_id: Some(media.id),
        myanimelist_manga_id: media.id_mal,
        params: build_params(&media),
    };
    LookupMetadataResultWithImages { metadata: LookupMetadataResult::Serie(serie), images }
}

/// Returns the images of a media entry: the largest cover image available
/// as poster, then the banner as background.
pub fn anilist_media_to_images(media: &AniListMedia) -> (r: Vec<ExternalImage>)
    ensures
        images_view(r@) == images_of(*media),
{
    build_images(media)
}

} // verus!
