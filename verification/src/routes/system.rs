use vstd::prelude::*;

use crate::models::device::{AuditRequest, SysinfoRequest};

verus! {

/// Whether a heartbeat or a sysinfo upload with this device id is recorded:
/// uploads without an id are not.
pub fn registers_device(id: &str) -> (r: bool)
    ensures
        r == (id@.len() > 0),
{
    !id.is_empty()
}

/// The device id an audit event is about: its `rustdesk_id`, or its `id` when
/// that is empty.
pub fn audit_subject(req: &AuditRequest) -> (subject: &String)
    ensures
        subject == (if req.rustdesk_id@.len() == 0 {
            req.id
        } else {
            req.rustdesk_id
        }),
{
    if req.rustdesk_id.as_str().is_empty() {
        &req.id
    } else {
        &req.rustdesk_id
    }
}

/// What the server does with a sysinfo upload (POST /api/sysinfo).
#[derive(Clone, Copy, Debug, PartialEq, Eq, Structural)]
pub enum SysinfoPlan {
    /// The upload names no device: nothing is stored and the client is told
    /// `ID_NOT_FOUND`.
    IdNotFound,
    /// The device is stored (inserted or updated), then auto-added to the first
    /// administrator's personal book if `auto_add` is set; the client is told
    /// `SYSINFO_UPDATED`.
    Store { auto_add: bool },
}

/// Decides what to do with a sysinfo upload from the device `id`, when automatic
/// registration of devices in the address book is `auto_add_devices`.
pub fn sysinfo_plan(id: &str, auto_add_devices: bool) -> (plan: SysinfoPlan)
    ensures
        id@.len() == 0 ==> plan == SysinfoPlan::IdNotFound,
        id@.len() > 0 ==> plan == (SysinfoPlan::Store { auto_add: auto_add_devices }),
{
    if id.is_empty() {
        SysinfoPlan::IdNotFound
    } else {
        SysinfoPlan::Store { auto_add: auto_add_devices }
    }
}

/// The text the RustDesk client expects in reply to a sysinfo upload.
pub open spec fn sysinfo_reply_text(plan: SysinfoPlan) -> Seq<char> {
    match plan {
        SysinfoPlan::IdNotFound => "ID_NOT_FOUND"@,
        SysinfoPlan::Store { .. } => "SYSINFO_UPDATED"@,
    }
}

impl SysinfoPlan {
    /// The text the RustDesk client expects in reply to the upload.
    pub fn reply_text(&self) -> (text: &'static str)
        ensures
            text@ == sysinfo_reply_text(*self),
    {
        match self {
            SysinfoPlan::IdNotFound => "ID_NOT_FOUND",
            SysinfoPlan::Store { .. } => "SYSINFO_UPDATED",
        }
    }
}

/// A device counts as online when it was last seen less than this many seconds ago.
pub const ONLINE_WINDOW_SECS: i64 = 90;

/// The whole seconds from the time stamp `stamp` (as parsed by chrono's
/// `NaiveDateTime::from_str`) to the instant `now_secs`/`now_nanos` (seconds and
/// nanoseconds since the Unix epoch), as chrono's `signed_duration_since(..)
/// .num_seconds()` computes them; nothing when either cannot be represented.
pub uninterp spec fn chrono_seconds_since(now_secs: i64, now_nanos: u32, stamp: Seq<char>) -> Option<
    i64,
>;

/// chrono: the instant is built with `DateTime::from_timestamp`, the time stamp is
/// parsed as a `NaiveDateTime`, and the whole seconds between them are taken with
/// `signed_duration_since(..).num_seconds()`. The result is named by
/// `chrono_seconds_since`.
#[verifier::external_body]
fn seconds_since(now_secs: i64, now_nanos: u32, stamp: &str) -> (r: Option<i64>)
    ensures
        r == chrono_seconds_since(now_secs, now_nanos, stamp@),
{
    let now = chrono::DateTime::from_timestamp(now_secs, now_nanos)?.naive_utc();
    let then = stamp.parse::<chrono::NaiveDateTime>().ok()?;
    Some(now.signed_duration_since(then).num_seconds())
}

/// Whether a device last seen `elapsed` whole seconds ago (if that could be told)
/// is online.
pub open spec fn online_after(elapsed: Option<i64>) -> bool {
    elapsed matches Some(s) && s < ONLINE_WINDOW_SECS
}

/// Whether a device last seen `elapsed` whole seconds ago (if that could be told)
/// is online: less than 90 seconds.
pub fn online_from_elapsed(elapsed: Option<i64>) -> (online: bool)
    ensures
        online == online_after(elapsed),
{
    match elapsed {
        Some(s) => s < ONLINE_WINDOW_SECS,
        None => false,
    }
}

/// Whether a device whose `last_online` time stamp is `last_online` is online at
/// the instant `now_secs`/`now_nanos`: the time stamp must parse and lie less than
/// 90 whole seconds before now.
pub fn device_online(now_secs: i64, now_nanos: u32, last_online: &str) -> (online: bool)
    ensures
        online == online_after(chrono_seconds_since(now_secs, now_nanos, last_online@)),
{
    online_from_elapsed(seconds_since(now_secs, now_nanos, last_online))
}

/// The color of a tag created by device auto-registration.
pub const AUTO_TAG_COLOR: i64 = 4286141768;

/// The columns of a stored peer that device auto-registration writes.
pub struct PeerFields {
    pub username: String,
    pub hostname: String,
    pub platform: String,
    pub alias: String,
    pub note: String,
}

/// Where device auto-registration stands, waiting for the outcome of its last action.
pub enum AutoAddState {
    /// Waiting for the first administrator (lowest id).
    AwaitAdmin,
    /// Waiting for the administrator's personal book.
    AwaitBook,
    /// Waiting for the peer stored under the device id in book `guid`.
    AwaitPeer { guid: String },
    /// Waiting for the peer to be written to book `guid`.
    AwaitWrite { guid: String },
    /// Waiting for the id of the preset tag in book `guid`.
    AwaitTag { guid: String },
    /// Waiting for the preset tag to be created in book `guid`.
    AwaitNewTag { guid: String },
    /// Waiting for the id of the peer, to link it to tag `tag_id`.
    AwaitPeerId { guid: String, tag_id: i64 },
    /// Waiting for the peer to be linked to its tag.
    AwaitLink,
    /// Nothing more to do.
    Finished,
}

/// The outcome of the last action, as reported by the database.
pub enum AutoAddEvent {
    AdminFound(Option<i64>),
    BookFound(Option<String>),
    PeerFound(Option<PeerFields>),
    PeerWritten,
    TagFound(Option<i64>),
    TagCreated(i64),
    PeerIdFound(i64),
    Linked,
}

/// What the database is asked to do next.
pub enum AutoAddAction {
    /// Find the administrator with the lowest id.
    FindAdmin,
    /// Find the personal book of user `owner_id`.
    FindPersonalBook { owner_id: i64 },
    /// Find the peer with RustDesk id `rustdesk_id` in book `guid`.
    FindPeer { guid: String, rustdesk_id: String },
    /// Store a new peer (with an empty hash) in book `guid`.
    InsertPeer { guid: String, rustdesk_id: String, fields: PeerFields },
    /// Overwrite the stored peer's columns with `fields`.
    UpdatePeer { guid: String, rustdesk_id: String, fields: PeerFields },
    /// Find the tag named `name` in book `guid`.
    FindTag { guid: String, name: String },
    /// Create the tag `name` in book `guid` with `color`.
    CreateTag { guid: String, name: String, color: i64 },
    /// Find the id of the peer with RustDesk id `rustdesk_id` in book `guid`.
    FindPeerId { guid: String, rustdesk_id: String },
    /// Link peer `peer_id` to tag `tag_id`, unless they are linked already.
    LinkTag { peer_id: i64, tag_id: i64 },
    /// Stop.
    Done,
}

/// The alias a device gets: the `ab_alias` preset, or its hostname when none is given.
pub open spec fn preset_alias(req: SysinfoRequest) -> String {
    if req.ab_alias@.len() == 0 {
        req.hostname
    } else {
        req.ab_alias
    }
}

/// The columns of a peer registered for the first time.
pub open spec fn new_peer_fields(req: SysinfoRequest) -> PeerFields {
    PeerFields {
        username: req.username,
        hostname: req.hostname,
        platform: req.platform,
        alias: preset_alias(req),
        note: req.ab_note,
    }
}

/// The columns of a peer registered again: non-empty uploaded hostname, username,
/// platform and note replace the stored ones, and the alias is only set when the
/// stored one is empty.
pub open spec fn merged_peer_fields(stored: PeerFields, req: SysinfoRequest) -> PeerFields {
    PeerFields {
        username: if req.username@.len() > 0 {
            req.username
        } else {
            stored.username
        },
        hostname: if req.hostname@.len() > 0 {
            req.hostname
        } else {
            stored.hostname
        },
        platform: if req.platform@.len() > 0 {
            req.platform
        } else {
            stored.platform
        },
        alias: if stored.alias@.len() == 0 {
            preset_alias(req)
        } else {
            stored.alias
        },
        note: if req.ab_note@.len() > 0 {
            req.ab_note
        } else {
            stored.note
        },
    }
}

/// The next state and action of device auto-registration for the upload `req`,
/// given the outcome `event` of the last action. An outcome that does not fit
/// the state ends the registration.
pub open spec fn auto_add_next(state: AutoAddState, req: SysinfoRequest, event: AutoAddEvent) -> (
    AutoAddState,
    AutoAddAction,
) {
    match (state, event) {
        (AutoAddState::AwaitAdmin, AutoAddEvent::AdminFound(Some(owner_id))) => (
            AutoAddState::AwaitBook,
            AutoAddAction::FindPersonalBook { owner_id },
        ),
        (AutoAddState::AwaitBook, AutoAddEvent::BookFound(Some(guid))) => (
            AutoAddState::AwaitPeer { guid },
            AutoAddAction::FindPeer { guid, rustdesk_id: req.id },
        ),
        (AutoAddState::AwaitPeer { guid }, AutoAddEvent::PeerFound(found)) => (
            AutoAddState::AwaitWrite { guid },
            match found {
                None => AutoAddAction::InsertPeer {
                    guid,
                    rustdesk_id: req.id,
                    fields: new_peer_fields(req),
                },
                Some(stored) => AutoAddAction::UpdatePeer {
                    guid,
                    rustdesk_id: req.id,
                    fields: merged_peer_fields(stored, req),
                },
            },
        ),
        (AutoAddState::AwaitWrite { guid }, AutoAddEvent::PeerWritten) => if req.ab_tag@.len()
            == 0 {
            (AutoAddState::Finished, AutoAddAction::Done)
        } else {
            (AutoAddState::AwaitTag { guid }, AutoAddAction::FindTag { guid, name: req.ab_tag })
        },
        (AutoAddState::AwaitTag { guid }, AutoAddEvent::TagFound(Some(tag_id))) => (
            AutoAddState::AwaitPeerId { guid, tag_id },
            AutoAddAction::FindPeerId { guid, rustdesk_id: req.id },
        ),
        (AutoAddState::AwaitTag { guid }, AutoAddEvent::TagFound(None)) => (
            AutoAddState::AwaitNewTag { guid },
            AutoAddAction::CreateTag { guid, name: req.ab_tag, color: AUTO_TAG_COLOR },
        ),
        (AutoAddState::AwaitNewTag { guid }, AutoAddEvent::TagCreated(tag_id)) => (
            AutoAddState::AwaitPeerId { guid, tag_id },
            AutoAddAction::FindPeerId { guid, rustdesk_id: req.id },
        ),
        (AutoAddState::AwaitPeerId { guid, tag_id }, AutoAddEvent::PeerIdFound(peer_id)) => (
            AutoAddState::AwaitLink,
            AutoAddAction::LinkTag { peer_id, tag_id },
        ),
        _ => (AutoAddState::Finished, AutoAddAction::Done),
    }
}

/// The first step of device auto-registration: find the administrator whose
/// personal book receives the device.
pub fn auto_add_start() -> (r: (AutoAddState, AutoAddAction))
    ensures
        r == (AutoAddState::AwaitAdmin, AutoAddAction::FindAdmin),
{
    (AutoAddState::AwaitAdmin, AutoAddAction::FindAdmin)
}

fn choose_alias(req: &SysinfoRequest) -> (alias: String)
    ensures
        alias == preset_alias(*req),
{
    if req.ab_alias.as_str().is_empty() {
        req.hostname.clone()
    } else {
        req.ab_alias.clone()
    }
}

fn keep_unless_empty(incoming: &String, stored: String) -> (r: String)
    ensures
        r == (if incoming@.len() > 0 {
            *incoming
        } else {
            stored
        }),
{
    if incoming.as_str().is_empty() {
        stored
    } else {
        incoming.clone()
    }
}

/// Auto-adds (or updates) a registered device in the first administrator's
/// personal book, one database step at a time: given where registration stands
/// and the outcome of its last action, the next state and the next action.
/// Applies the client-side presets: `ab_alias` -> alias, `ab_tag` -> tag,
/// `ab_note` -> note.
pub fn auto_add_step(state: AutoAddState, req: &SysinfoRequest, event: AutoAddEvent) -> (r: (
    AutoAddState,
    AutoAddAction,
))
    ensures
        r == auto_add_next(state, *req, event),
{
    match (state, event) {
        (AutoAddState::AwaitAdmin, AutoAddEvent::AdminFound(Some(owner_id))) => (
            AutoAddState::AwaitBook,
            AutoAddAction::FindPersonalBook { owner_id },
        ),
        (AutoAddState::AwaitBook, AutoAddEvent::BookFound(Some(guid))) => {
            let g = guid.clone();
            (AutoAddState::AwaitPeer { guid }, AutoAddAction::FindPeer { guid: g, rustdesk_id: req.id.clone() })
        },
        (AutoAddState::AwaitPeer { guid }, AutoAddEvent::PeerFound(found)) => {
            let g = guid.clone();
            let action = match found {
                None => AutoAddAction::InsertPeer {
                    guid: g,
                    rustdesk_id: req.id.clone(),
                    fields: PeerFields {
                        username: req.username.clone(),
                        hostname: req.hostname.clone(),
                        platform: req.platform.clone(),
                        alias: choose_alias(req),
                        note: req.ab_note.clone(),
                    },
                },
                Some(stored) => {
                    let alias = if stored.alias.as_str().is_empty() {
                        choose_alias(req)
                    } else {
                        stored.alias
                    };
                    AutoAddAction::UpdatePeer {
                        guid: g,
                        rustdesk_id: req.id.clone(),
                        fields: PeerFields {
                            username: keep_unless_empty(&req.username, stored.username),
                            hostname: keep_unless_empty(&req.hostname, stored.hostname),
                            platform: keep_unless_empty(&req.platform, stored.platform),
                            alias,
                            note: keep_unless_empty(&req.ab_note, stored.note),
                        },
                    }
                },
            };
            (AutoAddState::AwaitWrite { guid }, action)
        },
        (AutoAddState::AwaitWrite { guid }, AutoAddEvent::PeerWritten) => {
            if req.ab_tag.as_str().is_empty() {
                (AutoAddState::Finished, AutoAddAction::Done)
            } else {
                let g = guid.clone();
                (AutoAddState::AwaitTag { guid }, AutoAddAction::FindTag { guid: g, name: req.ab_tag.clone() })
            }
        },
        (AutoAddState::AwaitTag { guid }, AutoAddEvent::TagFound(Some(tag_id))) => {
            let g = guid.clone();
            (
                AutoAddState::AwaitPeerId { guid, tag_id },
                AutoAddAction::FindPeerId { guid: g, rustdesk_id: req.id.clone() },
            )
        },
        (AutoAddState::AwaitTag { guid }, AutoAddEvent::TagFound(None)) => {
            let g = guid.clone();
            (
                AutoAddState::AwaitNewTag { guid },
                AutoAddAction::CreateTag { guid: g, name: req.ab_tag.clone(), color: AUTO_TAG_COLOR },
            )
        },
        (AutoAddState::AwaitNewTag { guid }, AutoAddEvent::TagCreated(tag_id)) => {
            let g = guid.clone();
            (
                AutoAddState::AwaitPeerId { guid, tag_id },
                AutoAddAction::FindPeerId { guid: g, rustdesk_id: req.id.clone() },
            )
        },
        (AutoAddState::AwaitPeerId { guid: _, tag_id }, AutoAddEvent::PeerIdFound(peer_id)) => (
            AutoAddState::AwaitLink,
            AutoAddAction::LinkTag { peer_id, tag_id },
        ),
        _ => (AutoAddState::Finished, AutoAddAction::Done),
    }
}

/// Registering a device again never replaces an alias the stored peer already has.
pub proof fn law_auto_add_keeps_stored_alias(stored: PeerFields, req: SysinfoRequest)
    requires
        stored.alias@.len() > 0,
    ensures
        merged_peer_fields(stored, req).alias == stored.alias,
{
}

/// Registering a device again never blanks a stored column: an empty uploaded
/// hostname, username, platform or note leaves the stored one in place, and a
/// non-empty one replaces it.
pub proof fn law_auto_add_never_blanks_fields(stored: PeerFields, req: SysinfoRequest)
    ensures
        req.hostname@.len() == 0 ==> merged_peer_fields(stored, req).hostname == stored.hostname,
        req.username@.len() == 0 ==> merged_peer_fields(stored, req).username == stored.username,
        req.platform@.len() == 0 ==> merged_peer_fields(stored, req).platform == stored.platform,
        req.ab_note@.len() == 0 ==> merged_peer_fields(stored, req).note == stored.note,
        req.hostname@.len() > 0 ==> merged_peer_fields(stored, req).hostname == req.hostname,
        req.username@.len() > 0 ==> merged_peer_fields(stored, req).username == req.username,
        req.platform@.len() > 0 ==> merged_peer_fields(stored, req).platform == req.platform,
        req.ab_note@.len() > 0 ==> merged_peer_fields(stored, req).note == req.ab_note,
{
}

/// A peer registered for the first time takes the `ab_alias` preset as its alias,
/// or its hostname when no preset is given.
pub proof fn law_new_peer_alias(req: SysinfoRequest)
    ensures
        req.ab_alias@.len() > 0 ==> new_peer_fields(req).alias == req.ab_alias,
        req.ab_alias@.len() == 0 ==> new_peer_fields(req).alias == req.hostname,
{
}

/// Registering the same upload again changes nothing: the peer written the first
/// time is written again unchanged, and updating twice is updating once.
pub proof fn law_registration_is_idempotent(stored: PeerFields, req: SysinfoRequest)
    ensures
        merged_peer_fields(new_peer_fields(req), req) == new_peer_fields(req),
        merged_peer_fields(merged_peer_fields(stored, req), req) == merged_peer_fields(stored, req),
{
}

/// A tag preset is created only when the book has no tag of that name: once the
/// tag exists, registration links the peer to it without creating another.
pub proof fn law_tag_created_only_when_missing(
    guid: String,
    req: SysinfoRequest,
    found: Option<i64>,
)
    ensures
        auto_add_next(AutoAddState::AwaitTag { guid }, req, AutoAddEvent::TagFound(found)).1 is CreateTag
            <==> found is None,
        found matches Some(tag_id) ==> auto_add_next(
            AutoAddState::AwaitTag { guid },
            req,
            AutoAddEvent::TagFound(found),
        ) == (
            AutoAddState::AwaitPeerId { guid, tag_id },
            AutoAddAction::FindPeerId { guid, rustdesk_id: req.id },
        ),
{
}

/// The guid of the book a state of auto-registration works on, if any.
pub open spec fn state_guid(state: AutoAddState) -> Option<String> {
    match state {
        AutoAddState::AwaitPeer { guid } => Some(guid),
        AutoAddState::AwaitWrite { guid } => Some(guid),
        AutoAddState::AwaitTag { guid } => Some(guid),
        AutoAddState::AwaitNewTag { guid } => Some(guid),
        AutoAddState::AwaitPeerId { guid, tag_id: _ } => Some(guid),
        _ => None,
    }
}

/// The book and the RustDesk id that a peer action (a lookup, insert or update
/// of the peer, or a lookup of its id) addresses.
pub open spec fn peer_target(action: AutoAddAction) -> Option<(String, String)> {
    match action {
        AutoAddAction::FindPeer { guid, rustdesk_id } => Some((guid, rustdesk_id)),
        AutoAddAction::InsertPeer { guid, rustdesk_id, fields: _ } => Some((guid, rustdesk_id)),
        AutoAddAction::UpdatePeer { guid, rustdesk_id, fields: _ } => Some((guid, rustdesk_id)),
        AutoAddAction::FindPeerId { guid, rustdesk_id } => Some((guid, rustdesk_id)),
        _ => None,
    }
}

/// The book and the name of the tag that a tag action looks up or creates.
pub open spec fn tag_target(action: AutoAddAction) -> Option<(String, String)> {
    match action {
        AutoAddAction::FindTag { guid, name } => Some((guid, name)),
        AutoAddAction::CreateTag { guid, name, color: _ } => Some((guid, name)),
        _ => None,
    }
}

/// The columns that an insert or update of the peer stores.
pub open spec fn written_fields(action: AutoAddAction) -> Option<PeerFields> {
    match action {
        AutoAddAction::InsertPeer { guid: _, rustdesk_id: _, fields } => Some(fields),
        AutoAddAction::UpdatePeer { guid: _, rustdesk_id: _, fields } => Some(fields),
        _ => None,
    }
}

/// What auto-registration asks once the lookup of the peer in book `guid` came back.
pub open spec fn peer_write(guid: String, req: SysinfoRequest, found: Option<PeerFields>) -> AutoAddAction {
    auto_add_next(AutoAddState::AwaitPeer { guid }, req, AutoAddEvent::PeerFound(found)).1
}

/// Every peer action of auto-registration addresses the uploading device in the
/// book that was found: it names the uploaded id; a lookup of the peer names the
/// book just found, and an insert or update of the peer, or a lookup of its id,
/// names the book the registration works on. The tag it looks up or creates is the
/// `ab_tag` preset in that book, a created tag gets the fixed colour, and the
/// registration keeps working on the same book from step to step.
pub proof fn law_auto_add_addresses_the_device(
    state: AutoAddState,
    req: SysinfoRequest,
    event: AutoAddEvent,
)
    ensures
        peer_target(auto_add_next(state, req, event).1) is Some ==> peer_target(
            auto_add_next(state, req, event).1,
        ).unwrap().1 == req.id,
        auto_add_next(state, req, event).1 is FindPeer ==> event == AutoAddEvent::BookFound(
            Some(peer_target(auto_add_next(state, req, event).1).unwrap().0),
        ),
        peer_target(auto_add_next(state, req, event).1) is Some && !(auto_add_next(
            state,
            req,
            event,
        ).1 is FindPeer) ==> state_guid(state) == Some(
            peer_target(auto_add_next(state, req, event).1).unwrap().0,
        ),
        tag_target(auto_add_next(state, req, event).1) is Some ==> tag_target(
            auto_add_next(state, req, event).1,
        ).unwrap().1 == req.ab_tag,
        tag_target(auto_add_next(state, req, event).1) is Some ==> state_guid(state) == Some(
            tag_target(auto_add_next(state, req, event).1).unwrap().0,
        ),
        auto_add_next(state, req, event).1 is CreateTag ==> auto_add_next(state, req, event).1->color
            == 4286141768i64,
        state_guid(state) is Some && state_guid(auto_add_next(state, req, event).0) is Some
            ==> state_guid(auto_add_next(state, req, event).0) == state_guid(state),
{
}

/// Auto-registration writes the peer of the uploading device into the book that
/// was found, addressed by the uploaded id: an update when the peer is stored
/// already, an insert otherwise. A non-empty uploaded hostname, username, platform
/// or note is written; an empty one keeps the stored value. The alias is the
/// stored one unless that is empty (or nothing is stored), in which case it is the
/// `ab_alias` preset, or the hostname when no preset is given.
pub proof fn law_auto_add_writes_the_upload(
    guid: String,
    req: SysinfoRequest,
    found: Option<PeerFields>,
)
    ensures
        peer_target(peer_write(guid, req, found)) == Some((guid, req.id)),
        found is None ==> (peer_write(guid, req, found) is InsertPeer),
        found is Some ==> (peer_write(guid, req, found) is UpdatePeer),
        written_fields(peer_write(guid, req, found)) is Some,
        req.hostname@.len() > 0 || found is None ==> written_fields(
            peer_write(guid, req, found),
        ).unwrap().hostname == req.hostname,
        req.hostname@.len() == 0 && found is Some ==> written_fields(
            peer_write(guid, req, found),
        ).unwrap().hostname == found.unwrap().hostname,
        req.username@.len() > 0 || found is None ==> written_fields(
            peer_write(guid, req, found),
        ).unwrap().username == req.username,
        req.username@.len() == 0 && found is Some ==> written_fields(
            peer_write(guid, req, found),
        ).unwrap().username == found.unwrap().username,
        req.platform@.len() > 0 || found is None ==> written_fields(
            peer_write(guid, req, found),
        ).unwrap().platform == req.platform,
        req.platform@.len() == 0 && found is Some ==> written_fields(
            peer_write(guid, req, found),
        ).unwrap().platform == found.unwrap().platform,
        req.ab_note@.len() > 0 || found is None ==> written_fields(
            peer_write(guid, req, found),
        ).unwrap().note == req.ab_note,
        req.ab_note@.len() == 0 && found is Some ==> written_fields(
            peer_write(guid, req, found),
        ).unwrap().note == found.unwrap().note,
        found is Some && found.unwrap().alias@.len() > 0 ==> written_fields(
            peer_write(guid, req, found),
        ).unwrap().alias == found.unwrap().alias,
        (found is None || found.unwrap().alias@.len() == 0) && req.ab_alias@.len() > 0
            ==> written_fields(peer_write(guid, req, found)).unwrap().alias == req.ab_alias,
        (found is None || found.unwrap().alias@.len() == 0) && req.ab_alias@.len() == 0
            ==> written_fields(peer_write(guid, req, found)).unwrap().alias == req.hostname,
{
}

/// Auto-registration acts on what the database reported: the personal book it
/// looks up is that of the administrator found; it stops when no administrator or
/// no personal book is found; after the peer is written it goes on to the tag
/// preset exactly when one is given; and it links the peer whose id was found to
/// the tag that was found or created.
pub proof fn law_auto_add_follows_outcomes(
    state: AutoAddState,
    req: SysinfoRequest,
    event: AutoAddEvent,
)
    ensures
        event matches AutoAddEvent::AdminFound(Some(id)) ==> (state is AwaitAdmin ==> auto_add_next(
            state,
            req,
            event,
        ).1->owner_id == id && (auto_add_next(state, req, event).1 is FindPersonalBook)),
        event == AutoAddEvent::AdminFound(None) || event == AutoAddEvent::BookFound(None)
            ==> auto_add_next(state, req, event) == (AutoAddState::Finished, AutoAddAction::Done),
        state is AwaitWrite && event is PeerWritten && req.ab_tag@.len() > 0 ==> (auto_add_next(
            state,
            req,
            event,
        ).1 is FindTag),
        state is AwaitWrite && event is PeerWritten && req.ab_tag@.len() == 0 ==> auto_add_next(
            state,
            req,
            event,
        ) == (AutoAddState::Finished, AutoAddAction::Done),
        event matches AutoAddEvent::TagFound(Some(t)) ==> (state is AwaitTag ==> auto_add_next(
            state,
            req,
            event,
        ).0->tag_id == t && (auto_add_next(state, req, event).0 is AwaitPeerId)),
        event matches AutoAddEvent::TagCreated(t) ==> (state is AwaitNewTag ==> auto_add_next(
            state,
            req,
            event,
        ).0->tag_id == t && (auto_add_next(state, req, event).0 is AwaitPeerId)),
        auto_add_next(state, req, event).1 is LinkTag ==> state is AwaitPeerId && event
            == AutoAddEvent::PeerIdFound(auto_add_next(state, req, event).1->peer_id) && state->tag_id
            == auto_add_next(state, req, event).1->tag_id,
{
}

} // verus!
