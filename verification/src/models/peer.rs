use vstd::prelude::*;

verus! {

/// A peer (a remote device) stored in an address book.
pub struct Peer {
    pub id: i64,
    pub ab_guid: String,
    pub rustdesk_id: String,
    pub hash: String,
    pub username: String,
    pub hostname: String,
    pub platform: String,
    pub alias: String,
    pub note: String,
    pub created_at: String,
    pub updated_at: String,
}

/// Peer as returned to the RustDesk client.
pub struct PeerPayload {
    pub id: String,
    pub hash: String,
    pub username: String,
    pub hostname: String,
    pub platform: String,
    pub alias: String,
    pub tags: Vec<String>,
    pub note: String,
}

/// Request to add a peer. Every field but `id` may be left out by the client.
pub struct AddPeerRequest {
    pub id: String,
    pub hash: String,
    pub username: String,
    pub hostname: String,
    pub platform: String,
    pub alias: String,
    pub tags: Vec<String>,
    pub note: String,
}

/// Request to update a peer. RustDesk sends the peer ID plus only the fields
/// that changed, so every mutable field must remain optional.
pub struct UpdatePeerRequest {
    pub id: String,
    pub hash: Option<String>,
    pub username: Option<String>,
    pub hostname: Option<String>,
    pub platform: Option<String>,
    pub alias: Option<String>,
    pub tags: Option<Vec<String>>,
    pub note: Option<String>,
}

/// RustDesk 1.4.x sends the DELETE payload as a bare JSON array. Older callers
/// may send an object, so support both shapes at the API boundary.
pub enum DeletePeersRequest {
    Ids(Vec<String>),
    Object { ids: Vec<String>, id: Option<String> },
}

/// The peer ids that a delete request names, in the order it names them.
pub open spec fn requested_ids(req: DeletePeersRequest) -> Seq<String> {
    match req {
        DeletePeersRequest::Ids(ids) => ids@,
        DeletePeersRequest::Object { ids, id } => match id {
            Some(one) => ids@.push(one),
            None => ids@,
        },
    }
}

impl DeletePeersRequest {
    /// The ids to delete: the bare array as it is, or the object's `ids` followed
    /// by its single `id` when one is given.
    pub fn into_ids(self) -> (ids: Vec<String>)
        ensures
            ids@ == requested_ids(self),
    {
        match self {
            DeletePeersRequest::Ids(ids) => ids,
            DeletePeersRequest::Object { mut ids, id } => {
                if let Some(id) = id {
                    ids.push(id);
                }
                ids
            },
        }
    }
}

/// Response for GET /api/ab/peers.
pub struct PeersResponse {
    pub data: Vec<PeerPayload>,
    pub total: i64,
}

} // verus!
