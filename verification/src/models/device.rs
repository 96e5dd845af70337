use vstd::prelude::*;

verus! {

/// System information uploaded by a RustDesk client, with its optional
/// address-book presets (`ab_alias`, `ab_tag`, `ab_note`). Absent fields are empty.
pub struct SysinfoRequest {
    pub id: String,
    pub hostname: String,
    pub platform: String,
    pub os: String,
    pub cpu: String,
    pub memory: String,
    pub version: String,
    pub username: String,
    pub ab_alias: String,
    pub ab_tag: String,
    pub ab_note: String,
}

/// An audit event reported by a RustDesk client. Absent fields are empty.
pub struct AuditRequest {
    pub action: String,
    pub rustdesk_id: String,
    pub id: String,
    pub peer_id: String,
    pub ip: String,
    pub note: String,
}

} // verus!
