use rustdesk_ab::error::{ApiError, ErrorKind};
use rustdesk_ab::models::peer::Peer;
use rustdesk_ab::models::address_book::Tag;
use rustdesk_ab::routes::ab::{
    admin_profiles, book_rule, plan_remove_share, plan_upsert_share, resolve_ab_access,
    resolve_ab_admin, resolve_ab_guid, resolve_ab_write, AbShare, AdminBookRow, Requester,
    ShareRequest, StoredBook,
};
use rustdesk_ab::routes::ab_books::{
    personal_book, personal_profile, plan_create_ab, shared_profiles, PersonalBook, SharedBookRow,
};
use rustdesk_ab::routes::ab_legacy::{
    build_legacy_ab, legacy_tag_rows, legacy_tag_rows_from_json, tag_colors_json,
    DEFAULT_TAG_COLOR,
};

fn requester(user_id: i64, groups: Vec<i64>) -> Requester {
    Requester { user_id, group_ids: groups }
}

fn book(guid: &str, owner_id: i64, shares: Vec<AbShare>) -> StoredBook {
    StoredBook { guid: guid.to_string(), owner_id, shares }
}

fn user_share(user_id: i64, rule: i32) -> AbShare {
    AbShare { user_id: Some(user_id), group_id: None, rule }
}

fn group_share(group_id: i64, rule: i32) -> AbShare {
    AbShare { user_id: None, group_id: Some(group_id), rule }
}

fn is_uuid_v4(s: &str) -> bool {
    let b = s.as_bytes();
    b.len() == 36
        && b.iter().enumerate().all(|(i, c)| {
            if i == 8 || i == 13 || i == 18 || i == 23 {
                *c == b'-'
            } else {
                c.is_ascii_digit() || (b'a'..=b'f').contains(c)
            }
        })
        && b[14] == b'4'
        && matches!(b[19], b'8' | b'9' | b'a' | b'b')
}

// alice = 1, bob = 2

#[test]
fn owner_gets_full_access() {
    let uid = 1;
    let guid = "book-1";
    let (resolved, rule) =
        resolve_ab_access(&requester(uid, vec![]), guid, None, Some(book(guid, uid, vec![])))
            .unwrap();
    assert_eq!(resolved, guid);
    assert_eq!(rule, 3);
}

#[test]
fn stranger_is_denied() {
    let owner = 1;
    let uid = 2;
    let guid = "book-2";
    assert!(matches!(
        resolve_ab_access(&requester(uid, vec![]), guid, None, Some(book(guid, owner, vec![]))),
        Err(ApiError::Forbidden(_))
    ));
}

#[test]
fn share_grants_rule_and_blocks_admin() {
    let owner = 1;
    let uid = 2;
    let guid = "book-3";
    let shared = || Some(book(guid, owner, vec![user_share(uid, 2)]));
    let who = requester(uid, vec![]);
    let (_, rule) = resolve_ab_access(&who, guid, None, shared()).unwrap();
    assert_eq!(rule, 2);
    assert!(resolve_ab_write(&who, guid, None, shared()).is_ok());
    assert!(matches!(resolve_ab_admin(&who, guid, None, shared()), Err(ApiError::Forbidden(_))));
}

#[test]
fn empty_guid_resolves_personal_book() {
    let uid = 1;
    let (guid, rule) =
        resolve_ab_access(&requester(uid, vec![]), "", Some("p1".to_string()), None).unwrap();
    assert_eq!(guid, "p1");
    assert_eq!(rule, 3);
}

#[test]
fn missing_personal_book_is_not_found() {
    let err = resolve_ab_access(&requester(1, vec![]), "", None, None).unwrap_err();
    assert_eq!(err.kind(), ErrorKind::NotFound);
    assert_eq!(err.message(), "No personal address book found");
    assert_eq!(err.kind().status_code(), 404);
}

#[test]
fn unknown_book_is_not_found() {
    let err = resolve_ab_access(&requester(1, vec![]), "nope", None, None).unwrap_err();
    assert_eq!(err.kind(), ErrorKind::NotFound);
    assert_eq!(err.message(), "Address book not found");
}

#[test]
fn denial_message() {
    let err = resolve_ab_guid(&requester(2, vec![]), "b", None, Some(book("b", 1, vec![])))
        .unwrap_err();
    assert_eq!(err.message(), "Access denied to this address book");
    assert_eq!(err.kind().status_code(), 403);
}

#[test]
fn group_share_grants_access() {
    let who = requester(2, vec![7, 9]);
    let b = || Some(book("b", 1, vec![group_share(5, 3), group_share(9, 1)]));
    assert_eq!(resolve_ab_guid(&who, "b", None, b()).unwrap(), "b");
    let err = resolve_ab_write(&who, "b", None, b()).unwrap_err();
    assert_eq!(err.message(), "Address book is read-only");
}

#[test]
fn highest_share_wins() {
    let who = requester(2, vec![9]);
    let shares = vec![user_share(2, 1), group_share(9, 3), user_share(3, 2)];
    assert_eq!(book_rule(1, &shares, &who), 3);
    let err = resolve_ab_admin(&requester(3, vec![]), "b", None, Some(book("b", 1, shares)))
        .unwrap_err();
    assert_eq!(err.message(), "Administrator access required");
}

#[test]
fn non_positive_share_denies() {
    let who = requester(2, vec![]);
    let shares = vec![user_share(2, 0)];
    assert_eq!(book_rule(1, &shares, &who), 0);
    assert!(resolve_ab_guid(&who, "b", None, Some(book("b", 1, shares))).is_err());
}

#[test]
fn admin_share_grants_admin() {
    let who = requester(2, vec![4]);
    let b = Some(book("b", 1, vec![group_share(4, 3)]));
    assert_eq!(resolve_ab_admin(&who, "b", None, b).unwrap(), "b");
}

fn share_request(user_id: Option<i64>, group_id: Option<i64>, rule: i32) -> ShareRequest {
    ShareRequest { ab_guid: "b".to_string(), user_id, group_id, rule }
}

#[test]
fn upsert_share_checks() {
    let owner = requester(1, vec![]);
    let b = || Some(book("b", 1, vec![]));
    let (target, rule) = plan_upsert_share(&owner, &share_request(Some(2), None, 2), None, b()).ok().unwrap();
    assert_eq!(target.ab_guid, "b");
    assert_eq!(target.user_id, Some(2));
    assert_eq!(target.group_id, None);
    assert_eq!(rule, 2);

    let err = plan_upsert_share(&owner, &share_request(None, None, 2), None, b()).err().unwrap();
    assert_eq!(err.kind(), ErrorKind::BadRequest);
    assert_eq!(err.message(), "user_id or group_id is required");
    assert_eq!(err.kind().status_code(), 400);

    let err = plan_upsert_share(&owner, &share_request(None, Some(3), 4), None, b()).err().unwrap();
    assert_eq!(err.message(), "rule must be 1 (read), 2 (read-write) or 3 (admin)");
    let err = plan_upsert_share(&owner, &share_request(None, Some(3), 0), None, b()).err().unwrap();
    assert_eq!(err.kind(), ErrorKind::BadRequest);

    // Access is checked first.
    let err = plan_upsert_share(&requester(5, vec![]), &share_request(None, None, 9), None, b())
        .err()
        .unwrap();
    assert_eq!(err.kind(), ErrorKind::Forbidden);
}

#[test]
fn remove_share_checks() {
    let owner = requester(1, vec![]);
    let b = || Some(book("b", 1, vec![]));
    let target = plan_remove_share(&owner, &share_request(None, Some(3), 0), None, b()).ok().unwrap();
    assert_eq!(target.group_id, Some(3));
    let err = plan_remove_share(&owner, &share_request(None, None, 0), None, b()).err().unwrap();
    assert_eq!(err.message(), "user_id or group_id is required");
    let writer = requester(2, vec![]);
    let err = plan_remove_share(&writer, &share_request(Some(2), None, 0), None, Some(book("b", 1, vec![user_share(2, 2)])))
        .err()
        .unwrap();
    assert_eq!(err.message(), "Administrator access required");
}

fn admin_row(guid: &str, owner_id: i64, shares: Vec<AbShare>, personal: bool) -> AdminBookRow {
    AdminBookRow {
        book: book(guid, owner_id, shares),
        name: format!("name-{}", guid),
        owner_name: format!("owner-{}", owner_id),
        is_personal: personal,
    }
}

#[test]
fn admin_profiles_lists_owned_and_administered_books() {
    let who = requester(2, vec![8]);
    let rows = vec![
        admin_row("own", 2, vec![], true),
        admin_row("admin-share", 1, vec![group_share(8, 3)], false),
        admin_row("write-share", 1, vec![user_share(2, 2)], false),
        admin_row("stranger", 1, vec![user_share(5, 3)], false),
    ];
    let listed = admin_profiles(&who, &rows);
    assert_eq!(listed.len(), 2);
    assert_eq!(listed[0].guid, "own");
    assert_eq!(listed[0].rule, 3);
    assert!(listed[0].is_personal);
    assert_eq!(listed[0].owner, "owner-2");
    assert_eq!(listed[1].guid, "admin-share");
    assert_eq!(listed[1].name, "name-admin-share");
    assert_eq!(listed[1].rule, 3);
    assert!(!listed[1].is_personal);
}

#[test]
fn personal_book_is_reused_or_created() {
    match personal_book(Some("p1".to_string())) {
        PersonalBook::Existing(g) => assert_eq!(g, "p1"),
        PersonalBook::Created(_) => panic!("existing book must be reused"),
    }
    let created = personal_book(None);
    match &created {
        PersonalBook::Created(g) => assert!(is_uuid_v4(g)),
        PersonalBook::Existing(_) => panic!("a book must be created"),
    }
    assert!(is_uuid_v4(created.guid()));
    // Two new books get different guids.
    assert_ne!(personal_book(None).guid(), created.guid());
}

#[test]
fn personal_profile_has_full_control() {
    let p = personal_profile("p1".to_string(), "alice".to_string());
    assert_eq!(p.guid, "p1");
    assert_eq!(p.name, "Personal");
    assert_eq!(p.owner, "alice");
    assert_eq!(p.rule, 3);
    assert_eq!(p.note, "");
}

#[test]
fn shared_profiles_fill_missing_owner() {
    let rows = vec![
        SharedBookRow { guid: "b1".to_string(), name: "Team".to_string(), rule: 2, owner_name: Some("alice".to_string()) },
        SharedBookRow { guid: "b2".to_string(), name: "Ops".to_string(), rule: 1, owner_name: None },
    ];
    let r = shared_profiles(rows);
    assert_eq!(r.total, 2);
    assert_eq!(r.data[0].owner, "alice");
    assert_eq!(r.data[0].rule, 2);
    assert_eq!(r.data[1].owner, "");
    assert_eq!(r.data[1].name, "Ops");
    assert_eq!(r.data[1].note, "");
}

#[test]
fn create_ab_trims_name() {
    let b = plan_create_ab("  Team books \n").ok().unwrap();
    assert_eq!(b.name, "Team books");
    assert!(is_uuid_v4(&b.guid));
    let err = plan_create_ab(" \t ").err().unwrap();
    assert_eq!(err.kind(), ErrorKind::BadRequest);
    assert_eq!(err.message(), "Name is required");
    assert!(plan_create_ab("").is_err());
}

fn tag(name: &str, color: i64) -> Tag {
    Tag { id: 1, ab_guid: "p1".to_string(), name: name.to_string(), color }
}

fn peer(rustdesk_id: &str, alias: &str) -> Peer {
    Peer {
        id: 1,
        ab_guid: "p1".to_string(),
        rustdesk_id: rustdesk_id.to_string(),
        hash: "h".to_string(),
        username: "u".to_string(),
        hostname: "host".to_string(),
        platform: "linux".to_string(),
        alias: alias.to_string(),
        note: "note".to_string(),
        created_at: "c".to_string(),
        updated_at: "u".to_string(),
    }
}

#[test]
fn tag_colors_are_a_json_object() {
    assert_eq!(tag_colors_json(&vec![]), "{}");
    let tags = vec![tag("work", 4278190080), tag("home", -5)];
    assert_eq!(tag_colors_json(&tags), "{\"home\":-5,\"work\":4278190080}");
    // A later tag with the same name wins.
    let tags = vec![tag("x", 1), tag("x", 2)];
    assert_eq!(tag_colors_json(&tags), "{\"x\":2}");
}

#[test]
fn legacy_payload_is_built() {
    let tags = vec![tag("home", 1), tag("work", 2)];
    let peers = vec![
        (peer("111", "a"), vec!["home".to_string()]),
        (peer("222", "b"), vec![]),
    ];
    let data = build_legacy_ab(peers, &tags);
    assert_eq!(data.tags, vec!["home".to_string(), "work".to_string()]);
    assert_eq!(data.tag_colors, "{\"home\":1,\"work\":2}");
    assert_eq!(data.peers.len(), 2);
    assert_eq!(data.peers[0].id, "111");
    assert_eq!(data.peers[0].alias, "a");
    assert_eq!(data.peers[0].hash, "h");
    assert_eq!(data.peers[0].hostname, "host");
    assert_eq!(data.peers[0].tags, vec!["home".to_string()]);
    assert_eq!(data.peers[1].id, "222");
    assert!(data.peers[1].tags.is_empty());
}

#[test]
fn legacy_tag_colors_with_defaults() {
    let names = vec!["home".to_string(), "work".to_string()];
    let rows = legacy_tag_rows_from_json(&names, "{\"home\": 42}");
    assert_eq!(rows, vec![("home".to_string(), 42), ("work".to_string(), DEFAULT_TAG_COLOR)]);
    // Colors that cannot be read count as none (clients may not send them at all).
    let rows = legacy_tag_rows_from_json(&names, "");
    assert_eq!(rows, vec![("home".to_string(), 4278190080), ("work".to_string(), 4278190080)]);
    let rows = legacy_tag_rows_from_json(&names, "{\"home\": \"red\"}");
    assert_eq!(rows[0].1, DEFAULT_TAG_COLOR);
    let rows = legacy_tag_rows(&names, Some(vec![("work".to_string(), 1), ("work".to_string(), 3)]));
    assert_eq!(rows, vec![("home".to_string(), DEFAULT_TAG_COLOR), ("work".to_string(), 3)]);
}

#[test]
fn create_ab_trims_unicode_whitespace() {
    let b = plan_create_ab("\u{3000}Team\u{a0}\u{2009}").ok().unwrap();
    assert_eq!(b.name, "Team");
    assert_eq!(b.name, "\u{3000}Team\u{a0}\u{2009}".trim());
    assert!(plan_create_ab("\u{2028}\u{85}\u{1680}\u{205f}").is_err());
    // A zero-width space is not whitespace.
    assert_eq!(plan_create_ab("\u{200b}").ok().unwrap().name, "\u{200b}");
}
