//! The decisions of a lookup: which AniList requests a query calls for,
//! how search results for several media types are merged, and which of
//! the media found answer the query.

use vstd::prelude::*;
use vstd::string::*;

use std::collections::HashSet;

use crate::anilist::AniListMedia;
use crate::text::{lemma_trimmed, str_equals, trim, trimmed, white_space};

verus! {

broadcast use vstd::std_specs::hash::group_hash_axioms;

/// What a series or movie query gives to look up: a name, and possibly the
/// AniList id of the entry sought.
#[derive(Debug, Clone)]
pub struct LookupTitle {
    pub name: Option<String>,
    pub anilist_id: Option<u64>,
}

impl Default for LookupTitle {
    fn default() -> (r: Self)
        ensures
            r.name is None,
            r.anilist_id is None,
    {
        LookupTitle { name: None, anilist_id: None }
    }
}

/// A lookup query: for a series, for a movie, or for anything else (books,
/// people, episodes, ...), which AniList does not answer.
#[derive(Debug, Clone)]
pub enum LookupQuery {
    Serie(LookupTitle),
    Movie(LookupTitle),
    Other,
}

/// The formats of media that answer a series query.
pub open spec fn serie_format(f: Seq<char>) -> bool {
    ||| f == "TV"@
    ||| f == "TV_SHORT"@
    ||| f == "ONA"@
    ||| f == "OVA"@
    ||| f == "SPECIAL"@
    ||| f == "MANGA"@
    ||| f == "NOVEL"@
}

/// The formats of media that answer a movie query.
pub open spec fn movie_format(f: Seq<char>) -> bool {
    f == "MOVIE"@ || f == "OVA"@
}

/// The format of a media entry, empty when it has none.
pub open spec fn format_text_of(m: AniListMedia) -> Seq<char> {
    match m.format {
        Some(f) => f@,
        None => Seq::empty(),
    }
}

/// Media entry `m` answers query `q`.
pub open spec fn media_matches(q: LookupQuery, m: AniListMedia) -> bool {
    match q {
        LookupQuery::Serie(_) => serie_format(format_text_of(m)),
        LookupQuery::Movie(_) => movie_format(format_text_of(m)),
        LookupQuery::Other => false,
    }
}

/// Whether media of this format answer a series query: TV, TV_SHORT, ONA,
/// OVA, SPECIAL, MANGA and NOVEL do.
pub fn is_serie_format(format: &str) -> (r: bool)
    ensures
        r == serie_format(format@),
        r == (format@ == "TV"@ || format@ == "TV_SHORT"@ || format@ == "ONA"@ || format@ == "OVA"@
            || format@ == "SPECIAL"@ || format@ == "MANGA"@ || format@ == "NOVEL"@),
{
    str_equals(format, "TV") || str_equals(format, "TV_SHORT") || str_equals(format, "ONA")
        || str_equals(format, "OVA") || str_equals(format, "SPECIAL") || str_equals(
        format,
        "MANGA",
    ) || str_equals(format, "NOVEL")
}

/// Whether media of this format answer a movie query: MOVIE and OVA do.
pub fn is_movie_format(format: &str) -> (r: bool)
    ensures
        r == movie_format(format@),
        r == (format@ == "MOVIE"@ || format@ == "OVA"@),
{
    str_equals(format, "MOVIE") || str_equals(format, "OVA")
}

/// A media entry without a format answers no query, and an entry of
/// format OVA answers both series and movie queries.
pub proof fn lemma_format_edge_cases(q: LookupQuery, m: AniListMedia)
    ensures
        m.format is None ==> !media_matches(q, m),
        format_text_of(m) == "OVA"@ ==> (q is Serie || q is Movie ==> media_matches(q, m)),
{
    reveal_strlit("TV");
    reveal_strlit("TV_SHORT");
    reveal_strlit("ONA");
    reveal_strlit("OVA");
    reveal_strlit("SPECIAL");
    reveal_strlit("MANGA");
    reveal_strlit("NOVEL");
    reveal_strlit("MOVIE");
    if m.format is None {
        let f = format_text_of(m);
        assert(f.len() == 0);
        assert("TV"@.len() == 2 && "TV_SHORT"@.len() == 8 && "ONA"@.len() == 3 && "OVA"@.len() == 3);
        assert("SPECIAL"@.len() == 7 && "MANGA"@.len() == 5 && "NOVEL"@.len() == 5);
        assert("MOVIE"@.len() == 5);
        assert(!serie_format(f));
        assert(!movie_format(f));
    }
}

/// Which entries answer which query: a series query is answered exactly by
/// the formats TV, TV_SHORT, ONA, OVA, SPECIAL, MANGA and NOVEL, a movie
/// query exactly by MOVIE and OVA, and any other query by none; in
/// particular no format meant only for series answers a movie query.
pub proof fn lemma_query_formats(q: LookupQuery, m: AniListMedia)
    ensures
        q is Serie ==> (media_matches(q, m) <==> {
            let f = format_text_of(m);
            f == "TV"@ || f == "TV_SHORT"@ || f == "ONA"@ || f == "OVA"@ || f == "SPECIAL"@
                || f == "MANGA"@ || f == "NOVEL"@
        }),
        q is Movie ==> (media_matches(q, m) <==> (format_text_of(m) == "MOVIE"@
            || format_text_of(m) == "OVA"@)),
        q is Other ==> !media_matches(q, m),
        q is Movie && (format_text_of(m) == "TV"@ || format_text_of(m) == "TV_SHORT"@
            || format_text_of(m) == "ONA"@ || format_text_of(m) == "SPECIAL"@
            || format_text_of(m) == "MANGA"@ || format_text_of(m) == "NOVEL"@) ==> !media_matches(q, m),
{
    reveal_strlit("TV");
    reveal_strlit("TV_SHORT");
    reveal_strlit("ONA");
    reveal_strlit("OVA");
    reveal_strlit("SPECIAL");
    reveal_strlit("MANGA");
    reveal_strlit("NOVEL");
    reveal_strlit("MOVIE");
    let f = format_text_of(m);
    if q is Movie && (f == "TV"@ || f == "TV_SHORT"@ || f == "ONA"@ || f == "SPECIAL"@
        || f == "MANGA"@ || f == "NOVEL"@) {
        assert(f != "MOVIE"@) by {
            assert(f.len() != 5 || f[0] != 'M' || f[1] != 'O');
        }
        assert(f != "OVA"@) by {
            assert(f.len() != 3 || f[0] != 'O' || f[1] != 'V');
        }
    }
}

/// Whether a media entry answers a query, judged by its format.
pub fn media_matches_query(query: &LookupQuery, media: &AniListMedia) -> (r: bool)
    ensures
        r == media_matches(*query, *media),
{
    let format: &str = match &media.format {
        Some(f) => f.as_str(),
        None => "",
    };
    proof {
        reveal_strlit("");
        assert(""@ =~= Seq::<char>::empty());
    }
    match query {
        LookupQuery::Serie(_) => is_serie_format(format),
        LookupQuery::Movie(_) => is_movie_format(format),
        LookupQuery::Other => false,
    }
}

/// The characters of each string of a sequence.
pub open spec fn strs(v: Seq<&str>) -> Seq<Seq<char>> {
    v.map_values(|s: &str| s@)
}

/// The AniList media types searched for a query: anime and manga for a
/// series, anime for a movie, none for anything else.
pub open spec fn media_types_of(q: LookupQuery) -> Option<Seq<Seq<char>>> {
    match q {
        LookupQuery::Serie(_) => Some(seq!["ANIME"@, "MANGA"@]),
        LookupQuery::Movie(_) => Some(seq!["ANIME"@]),
        LookupQuery::Other => None,
    }
}

/// The characters of each string of an optional list.
pub open spec fn opt_strs(o: Option<&[&str]>) -> Option<Seq<Seq<char>>> {
    match o {
        Some(v) => Some(strs(v@)),
        None => None,
    }
}

/// Returns the AniList media types to search for a query: `ANIME` and
/// `MANGA` for a series, `ANIME` for a movie, `None` for anything else.
pub fn media_types_for_query(query: &LookupQuery) -> (r: Option<&'static [&'static str]>)
    ensures
        opt_strs(r) == media_types_of(*query),
{
    match query {
        LookupQuery::Serie(_) => {
            let v: &'static [&'static str] = &["ANIME", "MANGA"];
            assert(strs(v@) =~= seq!["ANIME"@, "MANGA"@]);
            Some(v)
        },
        LookupQuery::Movie(_) => {
            let v: &'static [&'static str] = &["ANIME"];
            assert(strs(v@) =~= seq!["ANIME"@]);
            Some(v)
        },
        LookupQuery::Other => None,
    }
}

/// The AniList id that a query gives, if any.
pub open spec fn anilist_id_of(q: LookupQuery) -> Option<u64> {
    match q {
        LookupQuery::Serie(t) => t.anilist_id,
        LookupQuery::Movie(t) => t.anilist_id,
        LookupQuery::Other => None,
    }
}

/// Returns the AniList id that a series or movie query gives.
pub fn extract_anilist_id(query: &LookupQuery) -> (r: Option<u64>)
    ensures
        r == anilist_id_of(*query),
{
    match query {
        LookupQuery::Serie(t) => t.anilist_id,
        LookupQuery::Movie(t) => t.anilist_id,
        LookupQuery::Other => None,
    }
}

/// What to do for a lookup.
#[derive(Debug, Clone)]
pub enum LookupPlan {
    /// Answer with no media at all.
    NoResults,
    /// Fetch the media entry with this AniList id.
    FetchById(u64),
    /// Search each of these media types, in order, for this name.
    Search { search: String, media_types: &'static [&'static str] },
    /// Refuse the query (there is neither an id nor a usable name).
    NotSupported,
}

/// The title part of a series or movie query.
pub open spec fn title_of_query(q: LookupQuery) -> Option<LookupTitle> {
    match q {
        LookupQuery::Serie(t) => Some(t),
        LookupQuery::Movie(t) => Some(t),
        LookupQuery::Other => None,
    }
}

/// The name to search for: the name given, when it is not blank.
pub open spec fn search_name_of(t: LookupTitle) -> Option<Seq<char>> {
    match t.name {
        Some(n) => if trimmed(n@).len() > 0 {
            Some(n@)
        } else {
            None
        },
        None => None,
    }
}

/// `p` is the plan for query `q`: no results for a query that is neither
/// for a series nor for a movie; else a fetch by id when the query gives an
/// AniList id; else a search of the query's media types when it gives a
/// name that is not blank; else a refusal.
pub open spec fn plan_for(p: LookupPlan, q: LookupQuery) -> bool {
    match title_of_query(q) {
        None => p is NoResults,
        Some(t) => match t.anilist_id {
            Some(id) => p == LookupPlan::FetchById(id),
            None => match search_name_of(t) {
                Some(n) => p matches LookupPlan::Search { search, media_types } && search@ == n
                    && Some(strs(media_types@)) == media_types_of(q),
                None => p is NotSupported,
            },
        },
    }
}

/// Decides what a lookup needs: nothing for queries other than series and
/// movies, a fetch by id when the query gives an AniList id, a search by
/// name across the query's media types when it gives a non-blank name,
/// and otherwise a refusal.
pub fn plan_lookup(query: &LookupQuery) -> (r: LookupPlan)
    ensures
        plan_for(r, *query),
{
    let media_types = match media_types_for_query(query) {
        Some(types) => types,
        None => return LookupPlan::NoResults,
    };
    if let Some(id) = extract_anilist_id(query) {
        return LookupPlan::FetchById(id);
    }
    let name = match query {
        LookupQuery::Serie(t) => &t.name,
        LookupQuery::Movie(t) => &t.name,
        LookupQuery::Other => {
            // Such a query has no media types, so the function returned above.
            assert(false);
            return LookupPlan::NoResults;
        },
    };
    match name {
        Some(s) => {
            if trim(s.as_str()).is_empty() {
                LookupPlan::NotSupported
            } else {
                LookupPlan::Search { search: s.clone(), media_types }
            }
        },
        None => LookupPlan::NotSupported,
    }
}

/// A series or movie query without an AniList id leads to a search exactly
/// when its name holds a character that is not white space, and the search
/// is for that name as given; a name made only of white space, or no name,
/// is refused.
pub proof fn lemma_plan_search(p: LookupPlan, q: LookupQuery)
    requires
        plan_for(p, q),
        title_of_query(q) matches Some(t) && t.anilist_id is None,
    ensures
        title_of_query(q)->0.name matches Some(n) ==> ((p is Search) <==> (exists|k: int|
            0 <= k < n@.len() && !white_space(#[trigger] n@[k]))),
        title_of_query(q)->0.name matches Some(n) ==> (p is Search ==> p->search@ == n@),
        title_of_query(q)->0.name is None ==> p is NotSupported,
{
    let t = title_of_query(q)->0;
    if let Some(n) = t.name {
        lemma_trimmed(n@);
        if exists|k: int| 0 <= k < n@.len() && !white_space(#[trigger] n@[k]) {
            let k = choose|k: int| 0 <= k < n@.len() && !white_space(#[trigger] n@[k]);
            assert(trimmed(n@).len() != 0);
        } else {
            assert forall|k: int| 0 <= k < n@.len() implies white_space(#[trigger] n@[k]) by {}
        }
    }
}

/// The media of `s` that answer query `q`, in order.
pub open spec fn matching_media(q: LookupQuery, s: Seq<AniListMedia>) -> Seq<AniListMedia>
    decreases s.len(),
{
    if s.len() == 0 {
        Seq::empty()
    } else {
        let r = matching_media(q, s.drop_last());
        if media_matches(q, s.last()) {
            r.push(s.last())
        } else {
            r
        }
    }
}

/// Every media entry kept answers the query, and every entry of the input
/// that answers the query is kept.
pub proof fn lemma_matching_media(q: LookupQuery, s: Seq<AniListMedia>)
    ensures
        forall|i: int|
            0 <= i < matching_media(q, s).len() ==> media_matches(q, #[trigger] matching_media(q, s)[i]),
        forall|i: int|
            0 <= i < matching_media(q, s).len() ==> s.contains(#[trigger] matching_media(q, s)[i]),
        forall|k: int|
            0 <= k < s.len() && media_matches(q, #[trigger] s[k]) ==> matching_media(q, s).contains(s[k]),
    decreases s.len(),
{
    if s.len() > 0 {
        let p = s.drop_last();
        lemma_matching_media(q, p);
        let prev = matching_media(q, p);
        let r = matching_media(q, s);
        assert forall|i: int| 0 <= i < r.len() implies s.contains(#[trigger] r[i]) by {
            if i < prev.len() {
                assert(p.contains(prev[i]));
                let k = choose|k: int| 0 <= k < p.len() && p[k] == prev[i];
                assert(s[k] == p[k]);
            } else {
                assert(s[s.len() - 1] == r[i]);
            }
        }
        assert forall|k: int| 0 <= k < s.len() && media_matches(q, #[trigger] s[k]) implies r.contains(s[k]) by {
            if k < s.len() - 1 {
                assert(p[k] == s[k]);
                let j = choose|j: int| 0 <= j < prev.len() && prev[j] == p[k];
                assert(r[j] == prev[j]);
            } else {
                assert(r[r.len() - 1] == s[k]);
            }
        }
    }
}

/// Keeps the media that answer the query (by format), in their order.
pub fn filter_media_for_query(query: &LookupQuery, media: Vec<AniListMedia>) -> (r: Vec<
    AniListMedia,
>)
    ensures
        r@ == matching_media(*query, media@),
{
    let mut kept: Vec<AniListMedia> = Vec::new();
    let ghost all = media@;
    let mut rest = media;
    let ghost mut done: Seq<AniListMedia> = Seq::empty();
    while rest.len() > 0
        invariant
            all == done + rest@,
            kept@ == matching_media(*query, done),
        decreases rest.len(),
    {
        let item = rest.remove(0);
        proof {
            let d2 = done.push(item);
            assert(d2.drop_last() =~= done);
            done = d2;
            assert(all =~= done + rest@);
        }
        if media_matches_query(query, &item) {
            kept.push(item);
        }
    }
    assert(done =~= all);
    kept
}

/// The ids of a sequence of media.
pub open spec fn ids_of(s: Seq<AniListMedia>) -> Seq<u64> {
    s.map_values(|m: AniListMedia| m.id)
}

/// `acc` extended by each media entry of `batch`, in order, whose id is
/// not yet among them.
pub open spec fn absorb_all(acc: Seq<AniListMedia>, batch: Seq<AniListMedia>) -> Seq<AniListMedia>
    decreases batch.len(),
{
    if batch.len() == 0 {
        acc
    } else {
        let prev = absorb_all(acc, batch.drop_last());
        if ids_of(prev).contains(batch.last().id) {
            prev
        } else {
            prev.push(batch.last())
        }
    }
}

/// Absorbing a batch keeps what was there, at its place, never repeats an
/// id when none was repeated, and leaves no id of the batch out.
pub proof fn lemma_absorb_all(acc: Seq<AniListMedia>, batch: Seq<AniListMedia>)
    requires
        ids_of(acc).no_duplicates(),
    ensures
        ids_of(absorb_all(acc, batch)).no_duplicates(),
        acc.is_prefix_of(absorb_all(acc, batch)),
        forall|k: int|
            0 <= k < batch.len() ==> ids_of(absorb_all(acc, batch)).contains(#[trigger] batch[k].id),
        forall|i: int|
            0 <= i < absorb_all(acc, batch).len() ==> acc.contains(#[trigger] absorb_all(acc, batch)[i])
                || batch.contains(absorb_all(acc, batch)[i]),
    decreases batch.len(),
{
    if batch.len() > 0 {
        let p = batch.drop_last();
        lemma_absorb_all(acc, p);
        let prev = absorb_all(acc, p);
        let r = absorb_all(acc, batch);
        let x = batch.last();
        if !ids_of(prev).contains(x.id) {
            assert(ids_of(r) =~= ids_of(prev).push(x.id));
        }
        assert forall|k: int| 0 <= k < batch.len() implies ids_of(r).contains(#[trigger] batch[k].id) by {
            if k < batch.len() - 1 {
                assert(p[k] == batch[k]);
                let j = choose|j: int| 0 <= j < ids_of(prev).len() && ids_of(prev)[j] == p[k].id;
                assert(ids_of(r)[j] == ids_of(prev)[j]);
            } else if ids_of(prev).contains(x.id) {
                let j = choose|j: int| 0 <= j < ids_of(prev).len() && ids_of(prev)[j] == x.id;
                assert(ids_of(r)[j] == ids_of(prev)[j]);
            } else {
                assert(ids_of(r)[r.len() - 1] == x.id);
            }
        }
        assert forall|i: int| 0 <= i < r.len() implies acc.contains(#[trigger] r[i]) || batch.contains(r[i]) by {
            if i < prev.len() {
                if !acc.contains(prev[i]) {
                    assert(p.contains(prev[i]));
                    let k = choose|k: int| 0 <= k < p.len() && p[k] == prev[i];
                    assert(batch[k] == p[k]);
                }
            } else {
                assert(batch[batch.len() - 1] == r[i]);
            }
        }
    }
}

/// The media gathered by the searches of a lookup, each AniList id once, in
/// the order in which they were first found.
pub struct SearchResults {
    media: Vec<AniListMedia>,
    seen_ids: HashSet<u64>,
}

impl View for SearchResults {
    type V = Seq<AniListMedia>;

    closed spec fn view(&self) -> Seq<AniListMedia> {
        self.media@
    }
}

impl SearchResults {
    /// The ids seen are exactly those of the media kept, each kept once.
    pub closed spec fn wf(&self) -> bool {
        &&& self.seen_ids@ == ids_of(self.media@).to_set()
        &&& ids_of(self.media@).no_duplicates()
    }

    /// No media gathered yet.
    pub fn new() -> (r: Self)
        ensures
            r.wf(),
            r@ == Seq::<AniListMedia>::empty(),
    {
        let r = SearchResults { media: Vec::new(), seen_ids: HashSet::new() };
        assert(ids_of(r.media@).to_set() =~= Set::<u64>::empty());
        r
    }

    /// Adds the media of one search, in order, leaving out each entry
    /// whose id was already found.
    pub fn absorb(&mut self, batch: Vec<AniListMedia>)
        requires
            old(self).wf(),
        ensures
            final(self).wf(),
            final(self)@ == absorb_all(old(self)@, batch@),
            ids_of(final(self)@).no_duplicates(),
    {
        let ghost start = self.media@;
        let ghost all = batch@;
        let mut rest = batch;
        let ghost mut done: Seq<AniListMedia> = Seq::empty();
        assert(done =~= all.take(0));
        while rest.len() > 0
            invariant
                all == done + rest@,
                self.wf(),
                self.media@ == absorb_all(start, done),
            decreases rest.len(),
        {
            let item = rest.remove(0);
            let ghost before = self.media@;
            let fresh = self.seen_ids.insert(item.id);
            if fresh {
                self.media.push(item);
                proof {
                    let ids = ids_of(self.media@);
                    assert(ids =~= ids_of(before).push(item.id));
                    assert forall|z: u64| #[trigger] ids.contains(z) <==> ids_of(before).contains(z) || z == item.id by {
                        if ids.contains(z) {
                            let j = choose|j: int| 0 <= j < ids.len() && ids[j] == z;
                            if j < ids.len() - 1 {
                                assert(ids_of(before)[j] == z);
                            }
                        }
                        if ids_of(before).contains(z) {
                            let j = choose|j: int| 0 <= j < ids_of(before).len() && ids_of(before)[j] == z;
                            assert(ids[j] == z);
                        }
                        if z == item.id {
                            assert(ids[ids.len() - 1] == z);
                        }
                    }
                    assert(self.seen_ids@ =~= ids.to_set());
                }
            } else {
                proof {
                    assert(self.seen_ids@ =~= ids_of(self.media@).to_set());
                }
            }
            proof {
                assert(ids_of(before).to_set().contains(item.id) == ids_of(before).contains(item.id));
                let d2 = done.push(item);
                assert(d2.drop_last() =~= done);
                done = d2;
                assert(all =~= done + rest@);
            }
        }
        assert(done =~= all);
    }

    /// The media gathered, in order.
    pub fn into_media(self) -> (r: Vec<AniListMedia>)
        ensures
            r@ == self@,
    {
        self.media
    }
}

} // verus!
