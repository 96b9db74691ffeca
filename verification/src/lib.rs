//! Verified core of an AniList metadata lookup plugin: the AniList data
//! model, the GraphQL query texts, the conversion of AniList media into
//! lookup results, and the decisions that drive a lookup.

pub mod anilist;
pub mod convert;
pub mod lookup;
pub mod request;
pub mod text;
