use rustdesk_ab::models::device::{AuditRequest, SysinfoRequest};
use rustdesk_ab::routes::system::{
    audit_subject, auto_add_start, auto_add_step, device_online, registers_device, sysinfo_plan,
    AutoAddAction, AutoAddEvent, AutoAddState, PeerFields, SysinfoPlan, AUTO_TAG_COLOR,
};

fn sysinfo(id: &str, hostname: &str, username: &str, platform: &str, alias: &str, tag: &str, note: &str) -> SysinfoRequest {
    SysinfoRequest {
        id: id.to_string(),
        hostname: hostname.to_string(),
        platform: platform.to_string(),
        os: "os".to_string(),
        cpu: "cpu".to_string(),
        memory: "8GB".to_string(),
        version: "1.4".to_string(),
        username: username.to_string(),
        ab_alias: alias.to_string(),
        ab_tag: tag.to_string(),
        ab_note: note.to_string(),
    }
}

#[test]
fn auto_add_creates_peer_alias_and_tag() {
    let req = sysinfo("999888777", "macbook-pro", "magnum", "macos", "MyMac", "srv", "");
    let (state, action) = auto_add_start();
    assert!(matches!(action, AutoAddAction::FindAdmin));
    let (state, action) = auto_add_step(state, &req, AutoAddEvent::AdminFound(Some(1)));
    assert!(matches!(action, AutoAddAction::FindPersonalBook { owner_id: 1 }));
    let (state, action) = auto_add_step(state, &req, AutoAddEvent::BookFound(Some("p1".to_string())));
    match &action {
        AutoAddAction::FindPeer { guid, rustdesk_id } => {
            assert_eq!(guid, "p1");
            assert_eq!(rustdesk_id, "999888777");
        }
        _ => panic!("expected a peer lookup"),
    }
    let (state, action) = auto_add_step(state, &req, AutoAddEvent::PeerFound(None));
    match &action {
        AutoAddAction::InsertPeer { guid, rustdesk_id, fields } => {
            assert_eq!(guid, "p1");
            assert_eq!(rustdesk_id, "999888777");
            assert_eq!(fields.alias, "MyMac");
            assert_eq!(fields.hostname, "macbook-pro");
            assert_eq!(fields.username, "magnum");
            assert_eq!(fields.platform, "macos");
            assert_eq!(fields.note, "");
        }
        _ => panic!("expected an insert"),
    }
    let (state, action) = auto_add_step(state, &req, AutoAddEvent::PeerWritten);
    match &action {
        AutoAddAction::FindTag { guid, name } => {
            assert_eq!(guid, "p1");
            assert_eq!(name, "srv");
        }
        _ => panic!("expected a tag lookup"),
    }
    let (state, action) = auto_add_step(state, &req, AutoAddEvent::TagFound(None));
    match &action {
        AutoAddAction::CreateTag { name, color, .. } => {
            assert_eq!(name, "srv");
            assert_eq!(*color, 4286141768);
            assert_eq!(*color, AUTO_TAG_COLOR);
        }
        _ => panic!("expected a tag creation"),
    }
    let (state, action) = auto_add_step(state, &req, AutoAddEvent::TagCreated(7));
    assert!(matches!(action, AutoAddAction::FindPeerId { .. }));
    let (state, action) = auto_add_step(state, &req, AutoAddEvent::PeerIdFound(3));
    assert!(matches!(action, AutoAddAction::LinkTag { peer_id: 3, tag_id: 7 }));
    let (state, action) = auto_add_step(state, &req, AutoAddEvent::Linked);
    assert!(matches!(action, AutoAddAction::Done));
    assert!(matches!(state, AutoAddState::Finished));
}

#[test]
fn auto_add_without_admin_or_book_stops() {
    let req = sysinfo("1", "h", "u", "p", "", "", "");
    let (state, _) = auto_add_start();
    let (state, action) = auto_add_step(state, &req, AutoAddEvent::AdminFound(None));
    assert!(matches!(action, AutoAddAction::Done));
    assert!(matches!(state, AutoAddState::Finished));
    let (state, _) = auto_add_start();
    let (state, _) = auto_add_step(state, &req, AutoAddEvent::AdminFound(Some(4)));
    let (_, action) = auto_add_step(state, &req, AutoAddEvent::BookFound(None));
    assert!(matches!(action, AutoAddAction::Done));
}

#[test]
fn auto_add_updates_existing_peer() {
    let req = sysinfo("1", "new-host", "", "windows", "Preset", "", "");
    let (state, _) = auto_add_start();
    let (state, _) = auto_add_step(state, &req, AutoAddEvent::AdminFound(Some(1)));
    let (state, _) = auto_add_step(state, &req, AutoAddEvent::BookFound(Some("p1".to_string())));
    let stored = PeerFields {
        username: "olduser".to_string(),
        hostname: "old-host".to_string(),
        platform: "linux".to_string(),
        alias: "Kept".to_string(),
        note: "old note".to_string(),
    };
    let (state, action) = auto_add_step(state, &req, AutoAddEvent::PeerFound(Some(stored)));
    match &action {
        AutoAddAction::UpdatePeer { fields, .. } => {
            assert_eq!(fields.hostname, "new-host");
            assert_eq!(fields.username, "olduser");
            assert_eq!(fields.platform, "windows");
            assert_eq!(fields.alias, "Kept");
            assert_eq!(fields.note, "old note");
        }
        _ => panic!("expected an update"),
    }
    // No tag preset: done after the write.
    let (_, action) = auto_add_step(state, &req, AutoAddEvent::PeerWritten);
    assert!(matches!(action, AutoAddAction::Done));
}

#[test]
fn auto_add_fills_empty_alias_from_hostname() {
    let req = sysinfo("1", "host", "", "", "", "t", "n");
    let (state, _) = auto_add_start();
    let (state, _) = auto_add_step(state, &req, AutoAddEvent::AdminFound(Some(1)));
    let (state, _) = auto_add_step(state, &req, AutoAddEvent::BookFound(Some("p1".to_string())));
    let stored = PeerFields {
        username: String::new(),
        hostname: String::new(),
        platform: String::new(),
        alias: String::new(),
        note: String::new(),
    };
    let (state, action) = auto_add_step(state, &req, AutoAddEvent::PeerFound(Some(stored)));
    match &action {
        AutoAddAction::UpdatePeer { fields, .. } => {
            assert_eq!(fields.alias, "host");
            assert_eq!(fields.note, "n");
        }
        _ => panic!("expected an update"),
    }
    let (state, _) = auto_add_step(state, &req, AutoAddEvent::PeerWritten);
    // An existing tag is reused.
    let (state, action) = auto_add_step(state, &req, AutoAddEvent::TagFound(Some(11)));
    assert!(matches!(action, AutoAddAction::FindPeerId { .. }));
    let (_, action) = auto_add_step(state, &req, AutoAddEvent::PeerIdFound(5));
    assert!(matches!(action, AutoAddAction::LinkTag { peer_id: 5, tag_id: 11 }));
}

#[test]
fn unexpected_event_ends_registration() {
    let req = sysinfo("1", "h", "u", "p", "", "", "");
    let (state, _) = auto_add_start();
    let (state, action) = auto_add_step(state, &req, AutoAddEvent::Linked);
    assert!(matches!(action, AutoAddAction::Done));
    assert!(matches!(state, AutoAddState::Finished));
}

#[test]
fn sysinfo_replies() {
    let plan = sysinfo_plan("", true);
    assert_eq!(plan, SysinfoPlan::IdNotFound);
    assert_eq!(plan.reply_text(), "ID_NOT_FOUND");
    let plan = sysinfo_plan("123", true);
    assert_eq!(plan, SysinfoPlan::Store { auto_add: true });
    assert_eq!(plan.reply_text(), "SYSINFO_UPDATED");
    assert_eq!(sysinfo_plan("123", false), SysinfoPlan::Store { auto_add: false });
}

#[test]
fn heartbeat_without_id_is_not_recorded() {
    assert!(!registers_device(""));
    assert!(registers_device("123"));
}

#[test]
fn audit_subject_prefers_rustdesk_id() {
    let mut req = AuditRequest {
        action: "close".to_string(),
        rustdesk_id: String::new(),
        id: "42".to_string(),
        peer_id: "7".to_string(),
        ip: "1.2.3.4".to_string(),
        note: String::new(),
    };
    assert_eq!(audit_subject(&req), "42");
    req.rustdesk_id = "99".to_string();
    assert_eq!(audit_subject(&req), "99");
}

#[test]
fn device_online_window() {
    // 2024-01-01T00:00:00 is 1704067200 seconds after the epoch.
    let stamp = "2024-01-01T00:00:00";
    assert!(device_online(1704067200 + 89, 999_999_999, stamp));
    assert!(!device_online(1704067200 + 90, 0, stamp));
    // A time stamp in the future counts as online.
    assert!(device_online(1704067200 - 10, 0, stamp));
    // chrono's NaiveDateTime needs the `T` separator; other texts are offline.
    assert!(!device_online(1704067200, 0, "2024-01-01 00:00:00"));
    assert!(!device_online(1704067200, 0, "garbage"));
}
