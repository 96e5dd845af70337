use vstd::prelude::*;

verus! {

/// An address book as listed to the RustDesk client.
pub struct AbProfile {
    pub guid: String,
    pub name: String,
    pub owner: String,
    pub rule: i32,
    pub note: String,
}

/// A tag of an address book, with its display color (an ARGB value).
pub struct Tag {
    pub id: i64,
    pub ab_guid: String,
    pub name: String,
    pub color: i64,
}

/// A peer in the legacy address-book payload.
pub struct LegacyPeer {
    pub id: String,
    pub hash: String,
    pub username: String,
    pub hostname: String,
    pub platform: String,
    pub alias: String,
    pub tags: Vec<String>,
}

/// The whole address book in the legacy format: the tag names, the peers with
/// their tags, and the tag colors as a JSON object text.
pub struct LegacyAbData {
    pub tags: Vec<String>,
    pub peers: Vec<LegacyPeer>,
    pub tag_colors: String,
}

/// Response for GET /api/ab/shared/profiles.
pub struct AbSharedProfilesResponse {
    pub data: Vec<AbProfile>,
    pub total: i64,
}

} // verus!
