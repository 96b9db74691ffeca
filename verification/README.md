# rs_plugin_anilist

An Extism plugin that looks up anime and manga metadata on AniList.

- `src/` is the verified library (Verus):
  - `anilist.rs`: the AniList data model and the texts of the four GraphQL
    queries (metadata or images, by id or by name);
  - `convert.rs`: conversion of an AniList entry into a series description
    with images (title choice, alternative names, status, trailer link,
    extra parameters), with its laws;
  - `lookup.rs`: what a lookup does for a query (fetch by id, search by
    name, refuse, or answer nothing), merging of search results by AniList
    id, and filtering of results by format;
  - `request.rs`: the HTTP request for a query, the judgement of a response
    status, and the media a decoded response holds;
  - `text.rs`: string comparison, decimal rendering, and the std string
    functions used (lowercasing, trimming).
- `app/` holds the plugin's entry points: the Extism functions, the HTTP
  calls, JSON (de)serialisation, and conversion to the plugin interface types.
- `tests/` exercises the library.
