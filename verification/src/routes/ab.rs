use vstd::prelude::*;

use crate::error::{ApiError, ErrorKind};

verus! {

/// Read-only access to an address book.
pub const RULE_READ: i32 = 1;

/// Read-write access to an address book.
pub const RULE_WRITE: i32 = 2;

/// Full control of an address book: the owner's access, or an admin share.
pub const RULE_FULL: i32 = 3;

/// A share of an address book with a user or with a group, granting `rule`.
#[derive(Clone, Copy, Debug, PartialEq, Eq, Structural)]
pub struct AbShare {
    pub user_id: Option<i64>,
    pub group_id: Option<i64>,
    pub rule: i32,
}

/// An address book as far as access control needs it: its guid, its owner and
/// the shares that grant access to it.
pub struct StoredBook {
    pub guid: String,
    pub owner_id: i64,
    pub shares: Vec<AbShare>,
}

/// The user asking for access, with the groups the user belongs to.
pub struct Requester {
    pub user_id: i64,
    pub group_ids: Vec<i64>,
}

/// Whether a share reaches the user: directly, or through one of the user's groups.
pub open spec fn share_applies(share: AbShare, user_id: i64, groups: Seq<i64>) -> bool {
    share.user_id == Some(user_id) || (share.group_id matches Some(g) && groups.contains(g))
}

/// The highest rule among the shares that reach the user, if any does.
pub open spec fn best_share_rule(shares: Seq<AbShare>, user_id: i64, groups: Seq<i64>) -> Option<
    i32,
>
    decreases shares.len(),
{
    if shares.len() == 0 {
        None
    } else {
        let rest = best_share_rule(shares.drop_last(), user_id, groups);
        let last = shares.last();
        if share_applies(last, user_id, groups) {
            match rest {
                Some(r) => Some(if r < last.rule {
                    last.rule
                } else {
                    r
                }),
                None => Some(last.rule),
            }
        } else {
            rest
        }
    }
}

/// The effective access rule of a user on a book: the owner always gets full
/// control; anyone else gets the highest rule among the shares that reach them,
/// and 0 when none does.
pub open spec fn effective_rule(owner_id: i64, shares: Seq<AbShare>, user_id: i64, groups: Seq<i64>) -> i32 {
    if owner_id == user_id {
        RULE_FULL
    } else {
        match best_share_rule(shares, user_id, groups) {
            Some(r) => r,
            None => 0,
        }
    }
}

/// A refusal as the client sees it: its kind and its message.
pub type Refusal = (ErrorKind, Seq<char>);

/// The access a requester gets to the book named by `ab_guid`, as the guid that
/// was resolved and the effective rule. An empty guid names the requester's
/// personal book, `personal` being the result of looking it up; any other guid
/// is looked up as `book`.
pub open spec fn access_outcome(
    who: Requester,
    ab_guid: Seq<char>,
    personal: Option<String>,
    book: Option<StoredBook>,
) -> Result<(Seq<char>, i32), Refusal> {
    if ab_guid.len() == 0 {
        match personal {
            Some(g) => Ok((g@, RULE_FULL)),
            None => Err((ErrorKind::NotFound, "No personal address book found"@)),
        }
    } else {
        match book {
            None => Err((ErrorKind::NotFound, "Address book not found"@)),
            Some(b) => {
                let rule = effective_rule(b.owner_id, b.shares@, who.user_id, who.group_ids@);
                if rule <= 0 {
                    Err((ErrorKind::Forbidden, "Access denied to this address book"@))
                } else {
                    Ok((b.guid@, rule))
                }
            },
        }
    }
}

/// Read access (rule >= 1): the guid of the book.
pub open spec fn read_outcome(
    who: Requester,
    ab_guid: Seq<char>,
    personal: Option<String>,
    book: Option<StoredBook>,
) -> Result<Seq<char>, Refusal> {
    match access_outcome(who, ab_guid, personal, book) {
        Ok((g, _)) => Ok(g),
        Err(e) => Err(e),
    }
}

/// Write access (rule >= 2): the guid of the book.
pub open spec fn write_outcome(
    who: Requester,
    ab_guid: Seq<char>,
    personal: Option<String>,
    book: Option<StoredBook>,
) -> Result<Seq<char>, Refusal> {
    match access_outcome(who, ab_guid, personal, book) {
        Ok((g, rule)) => if rule < RULE_WRITE {
            Err((ErrorKind::Forbidden, "Address book is read-only"@))
        } else {
            Ok(g)
        },
        Err(e) => Err(e),
    }
}

/// Full access (rule >= 3, owner or admin share): the guid of the book.
pub open spec fn admin_outcome(
    who: Requester,
    ab_guid: Seq<char>,
    personal: Option<String>,
    book: Option<StoredBook>,
) -> Result<Seq<char>, Refusal> {
    match access_outcome(who, ab_guid, personal, book) {
        Ok((g, rule)) => if rule < RULE_FULL {
            Err((ErrorKind::Forbidden, "Administrator access required"@))
        } else {
            Ok(g)
        },
        Err(e) => Err(e),
    }
}

/// How a result of the access functions looks to the client.
pub open spec fn seen_access(r: Result<(String, i32), ApiError>) -> Result<(Seq<char>, i32), Refusal> {
    match r {
        Ok((g, rule)) => Ok((g@, rule)),
        Err(e) => Err(e.failure()),
    }
}

/// How a result carrying a guid looks to the client.
pub open spec fn seen_guid(r: Result<String, ApiError>) -> Result<Seq<char>, Refusal> {
    match r {
        Ok(g) => Ok(g@),
        Err(e) => Err(e.failure()),
    }
}

fn belongs_to(groups: &Vec<i64>, group: i64) -> (r: bool)
    ensures
        r == groups@.contains(group),
{
    let mut i: usize = 0;
    while i < groups.len()
        invariant
            i <= groups.len(),
            forall|k: int| 0 <= k < i ==> groups@[k] != group,
        decreases groups.len() - i,
    {
        if groups[i] == group {
            assert(groups@[i as int] == group);
            return true;
        }
        i = i + 1;
    }
    false
}

/// The effective rule of `who` on a book owned by `owner_id` with `shares`.
pub fn book_rule(owner_id: i64, shares: &Vec<AbShare>, who: &Requester) -> (rule: i32)
    ensures
        rule == effective_rule(owner_id, shares@, who.user_id, who.group_ids@),
{
    if owner_id == who.user_id {
        return RULE_FULL;
    }
    let mut best: Option<i32> = None;
    let mut i: usize = 0;
    while i < shares.len()
        invariant
            i <= shares.len(),
            best == best_share_rule(shares@.take(i as int), who.user_id, who.group_ids@),
        decreases shares.len() - i,
    {
        let share = shares[i];
        let applies = match share.user_id {
            Some(u) if u == who.user_id => true,
            _ => match share.group_id {
                Some(g) => belongs_to(&who.group_ids, g),
                None => false,
            },
        };
        assert(shares@.take(i + 1).drop_last() =~= shares@.take(i as int));
        assert(shares@.take(i + 1).last() == share);
        if applies {
            best = match best {
                Some(r) => Some(if r < share.rule {
                    share.rule
                } else {
                    r
                }),
                None => Some(share.rule),
            };
        }
        i = i + 1;
    }
    assert(shares@.take(shares.len() as int) =~= shares@);
    match best {
        Some(r) => r,
        None => 0,
    }
}

/// Effective access rule for a user on an address book.
/// Returns `(guid, rule)` where rule: 1=read-only, 2=read-write, 3=full (admin).
/// Owner always gets rule 3; otherwise the maximum rule from direct or group shares.
/// An empty `ab_guid` names the user's personal book, of which `personal` is the
/// looked-up guid; otherwise `book` is the book stored under `ab_guid`.
pub fn resolve_ab_access(
    who: &Requester,
    ab_guid: &str,
    personal: Option<String>,
    book: Option<StoredBook>,
) -> (r: Result<(String, i32), ApiError>)
    ensures
        seen_access(r) == access_outcome(*who, ab_guid@, personal, book),
{
    if ab_guid.is_empty() {
        return match personal {
            Some(g) => Ok((g, RULE_FULL)),
            None => Err(ApiError::new(ErrorKind::NotFound, "No personal address book found")),
        };
    }
    match book {
        None => Err(ApiError::new(ErrorKind::NotFound, "Address book not found")),
        Some(b) => {
            let rule = book_rule(b.owner_id, &b.shares, who);
            if rule <= 0 {
                Err(ApiError::new(ErrorKind::Forbidden, "Access denied to this address book"))
            } else {
                Ok((b.guid, rule))
            }
        },
    }
}

/// Read access (rule >= 1). Returns the resolved guid.
pub fn resolve_ab_guid(
    who: &Requester,
    ab_guid: &str,
    personal: Option<String>,
    book: Option<StoredBook>,
) -> (r: Result<String, ApiError>)
    ensures
        seen_guid(r) == read_outcome(*who, ab_guid@, personal, book),
{
    match resolve_ab_access(who, ab_guid, personal, book) {
        Ok((g, _)) => Ok(g),
        Err(e) => Err(e),
    }
}

/// Write access (rule >= 2). Returns the resolved guid.
pub fn resolve_ab_write(
    who: &Requester,
    ab_guid: &str,
    personal: Option<String>,
    book: Option<StoredBook>,
) -> (r: Result<String, ApiError>)
    ensures
        seen_guid(r) == write_outcome(*who, ab_guid@, personal, book),
{
    let (guid, rule) = resolve_ab_access(who, ab_guid, personal, book)?;
    if rule < RULE_WRITE {
        return Err(ApiError::new(ErrorKind::Forbidden, "Address book is read-only"));
    }
    Ok(guid)
}

/// Full access (rule >= 3, owner or admin share). Returns the resolved guid.
pub fn resolve_ab_admin(
    who: &Requester,
    ab_guid: &str,
    personal: Option<String>,
    book: Option<StoredBook>,
) -> (r: Result<String, ApiError>)
    ensures
        seen_guid(r) == admin_outcome(*who, ab_guid@, personal, book),
{
    let (guid, rule) = resolve_ab_access(who, ab_guid, personal, book)?;
    if rule < RULE_FULL {
        return Err(ApiError::new(ErrorKind::Forbidden, "Administrator access required"));
    }
    Ok(guid)
}

/// A request to create, update or remove a share of a book.
pub struct ShareRequest {
    pub ab_guid: String,
    pub user_id: Option<i64>,
    pub group_id: Option<i64>,
    pub rule: i32,
}

/// The share a request addresses: the resolved book and the user or group it reaches.
pub struct ShareTarget {
    pub ab_guid: String,
    pub user_id: Option<i64>,
    pub group_id: Option<i64>,
}

/// How a share target looks to the client.
pub type SeenTarget = (Seq<char>, Option<i64>, Option<i64>);

/// The message of a share request that names neither a user nor a group.
pub open spec fn missing_target_message() -> Seq<char> {
    "user_id or group_id is required"@
}

/// The message of a share request with a rule outside 1..=3.
pub open spec fn bad_rule_message() -> Seq<char> {
    "rule must be 1 (read), 2 (read-write) or 3 (admin)"@
}

/// The outcome of a request to remove a share: the requester needs full control of
/// the book, and the request must name a user or a group.
pub open spec fn remove_share_outcome(
    who: Requester,
    req: ShareRequest,
    personal: Option<String>,
    book: Option<StoredBook>,
) -> Result<SeenTarget, Refusal> {
    match admin_outcome(who, req.ab_guid@, personal, book) {
        Err(e) => Err(e),
        Ok(g) => if req.user_id is None && req.group_id is None {
            Err((ErrorKind::BadRequest, missing_target_message()))
        } else {
            Ok((g, req.user_id, req.group_id))
        },
    }
}

/// The outcome of a request to create or update a share: as for removal, and the
/// rule must be 1 (read), 2 (read-write) or 3 (admin).
pub open spec fn upsert_share_outcome(
    who: Requester,
    req: ShareRequest,
    personal: Option<String>,
    book: Option<StoredBook>,
) -> Result<(SeenTarget, i32), Refusal> {
    match remove_share_outcome(who, req, personal, book) {
        Err(e) => Err(e),
        Ok(t) => if !(RULE_READ <= req.rule <= RULE_FULL) {
            Err((ErrorKind::BadRequest, bad_rule_message()))
        } else {
            Ok((t, req.rule))
        },
    }
}

/// How a share target looks to the client.
pub open spec fn seen_target(t: ShareTarget) -> SeenTarget {
    (t.ab_guid@, t.user_id, t.group_id)
}

/// Checks a request to remove a share (POST/DELETE /api/ab/share): full control of
/// the book is required, and a user or a group must be named. On success, the
/// share to delete.
pub fn plan_remove_share(
    who: &Requester,
    req: &ShareRequest,
    personal: Option<String>,
    book: Option<StoredBook>,
) -> (r: Result<ShareTarget, ApiError>)
    ensures
        match r {
            Ok(t) => remove_share_outcome(*who, *req, personal, book) == Ok::<SeenTarget, Refusal>(
                seen_target(t),
            ),
            Err(e) => remove_share_outcome(*who, *req, personal, book) == Err::<SeenTarget, Refusal>(
                e.failure(),
            ),
        },
{
    let guid = resolve_ab_admin(who, req.ab_guid.as_str(), personal, book)?;
    if req.user_id.is_none() && req.group_id.is_none() {
        return Err(ApiError::new(ErrorKind::BadRequest, "user_id or group_id is required"));
    }
    Ok(ShareTarget { ab_guid: guid, user_id: req.user_id, group_id: req.group_id })
}

/// Checks a request to create or update a share: as for removal, and the rule
/// must be 1, 2 or 3. On success, the share to write (any existing share for the
/// same user and group is replaced) and its rule.
pub fn plan_upsert_share(
    who: &Requester,
    req: &ShareRequest,
    personal: Option<String>,
    book: Option<StoredBook>,
) -> (r: Result<(ShareTarget, i32), ApiError>)
    ensures
        match r {
            Ok((t, rule)) => upsert_share_outcome(*who, *req, personal, book) == Ok::<
                (SeenTarget, i32),
                Refusal,
            >((seen_target(t), rule)),
            Err(e) => upsert_share_outcome(*who, *req, personal, book) == Err::<
                (SeenTarget, i32),
                Refusal,
            >(e.failure()),
        },
{
    let target = plan_remove_share(who, req, personal, book)?;
    if !(RULE_READ <= req.rule && req.rule <= RULE_FULL) {
        return Err(
            ApiError::new(ErrorKind::BadRequest, "rule must be 1 (read), 2 (read-write) or 3 (admin)"),
        );
    }
    Ok((target, req.rule))
}

/// A book as listed for the web console: its access data, display name, owner's
/// username and whether it is a personal book.
pub struct AdminBookRow {
    pub book: StoredBook,
    pub name: String,
    pub owner_name: String,
    pub is_personal: bool,
}

/// A book the requester owns or administers, with the requester's effective rule.
pub struct AdminProfile {
    pub guid: String,
    pub name: String,
    pub owner: String,
    pub rule: i32,
    pub is_personal: bool,
}

/// Whether the requester owns the book or holds a share with rule >= 3 on it.
pub open spec fn administers(row: AdminBookRow, who: Requester) -> bool {
    row.book.owner_id == who.user_id || exists|i: int|
        0 <= i < row.book.shares@.len() && share_applies(
            #[trigger] row.book.shares@[i],
            who.user_id,
            who.group_ids@,
        ) && row.book.shares@[i].rule >= RULE_FULL
}

/// The requester's effective rule on the book of `row`.
pub open spec fn row_rule(row: AdminBookRow, who: Requester) -> i32 {
    effective_rule(row.book.owner_id, row.book.shares@, who.user_id, who.group_ids@)
}

/// Whether the book of `row` is listed for the requester.
pub open spec fn listed_for(row: AdminBookRow, who: Requester) -> bool {
    administers(row, who) && row_rule(row, who) >= RULE_READ
}

/// The listing of the book of `row` for the requester.
pub open spec fn admin_profile_of(row: AdminBookRow, who: Requester) -> AdminProfile {
    AdminProfile {
        guid: row.book.guid,
        name: row.name,
        owner: row.owner_name,
        rule: row_rule(row, who),
        is_personal: row.is_personal,
    }
}

/// The books listed for the requester, in the order of `rows`.
pub open spec fn admin_listing(who: Requester, rows: Seq<AdminBookRow>) -> Seq<AdminProfile> {
    rows.filter(|row: AdminBookRow| listed_for(row, who)).map_values(
        |row: AdminBookRow| admin_profile_of(row, who),
    )
}

fn administers_exec(row: &AdminBookRow, who: &Requester) -> (r: bool)
    ensures
        r == administers(*row, *who),
{
    if row.book.owner_id == who.user_id {
        return true;
    }
    let shares = &row.book.shares;
    let mut i: usize = 0;
    while i < shares.len()
        invariant
            i <= shares.len(),
            shares@ == row.book.shares@,
            row.book.owner_id != who.user_id,
            forall|k: int|
                0 <= k < i ==> !(share_applies(#[trigger] shares@[k], who.user_id, who.group_ids@)
                    && shares@[k].rule >= RULE_FULL),
        decreases shares.len() - i,
    {
        let share = shares[i];
        let applies = match share.user_id {
            Some(u) if u == who.user_id => true,
            _ => match share.group_id {
                Some(g) => belongs_to(&who.group_ids, g),
                None => false,
            },
        };
        if applies && share.rule >= RULE_FULL {
            assert(share == row.book.shares@[i as int]);
            assert(share_applies(row.book.shares@[i as int], who.user_id, who.group_ids@)
                && row.book.shares@[i as int].rule >= RULE_FULL);
            return true;
        }
        i = i + 1;
    }
    false
}

/// The address books the requester owns or administers (owner, or a share with
/// rule 3), each with the requester's effective rule, in the order of `rows`;
/// books on which that rule is below 1 are left out.
pub fn admin_profiles(who: &Requester, rows: &Vec<AdminBookRow>) -> (r: Vec<AdminProfile>)
    ensures
        r@ == rows@.filter(|row: AdminBookRow| listed_for(row, *who)).map_values(
            |row: AdminBookRow| admin_profile_of(row, *who),
        ),
        r@ == admin_listing(*who, rows@),
{
    let ghost pred = |row: AdminBookRow| listed_for(row, *who);
    let ghost f = |row: AdminBookRow| admin_profile_of(row, *who);
    let mut out: Vec<AdminProfile> = Vec::new();
    let mut i: usize = 0;
    while i < rows.len()
        invariant
            i <= rows.len(),
            pred == (|row: AdminBookRow| listed_for(row, *who)),
            f == (|row: AdminBookRow| admin_profile_of(row, *who)),
            out@ == rows@.take(i as int).filter(pred).map_values(f),
        decreases rows.len() - i,
    {
        let row = &rows[i];
        proof {
            assert(rows@.take(i + 1) =~= rows@.take(i as int).push(*row));
            rows@.take(i as int).lemma_filter_push(*row, pred);
        }
        if administers_exec(row, who) {
            let rule = book_rule(row.book.owner_id, &row.book.shares, who);
            if rule >= RULE_READ {
                let profile = AdminProfile {
                    guid: row.book.guid.clone(),
                    name: row.name.clone(),
                    owner: row.owner_name.clone(),
                    rule,
                    is_personal: row.is_personal,
                };
                out.push(profile);
                assert(out@ =~= rows@.take(i + 1).filter(pred).map_values(f));
            } else {
                assert(out@ =~= rows@.take(i + 1).filter(pred).map_values(f));
            }
        } else {
            assert(out@ =~= rows@.take(i + 1).filter(pred).map_values(f));
        }
        i = i + 1;
    }
    assert(rows@.take(rows.len() as int) =~= rows@);
    out
}

proof fn lemma_best_share_rule(shares: Seq<AbShare>, user_id: i64, groups: Seq<i64>)
    ensures
        best_share_rule(shares, user_id, groups) is None <==> (forall|i: int|
            0 <= i < shares.len() ==> !share_applies(#[trigger] shares[i], user_id, groups)),
        best_share_rule(shares, user_id, groups) matches Some(r) ==> {
            &&& forall|i: int|
                0 <= i < shares.len() && share_applies(#[trigger] shares[i], user_id, groups)
                    ==> shares[i].rule <= r
            &&& exists|j: int|
                0 <= j < shares.len() && share_applies(#[trigger] shares[j], user_id, groups)
                    && shares[j].rule == r
        },
    decreases shares.len(),
{
    if shares.len() > 0 {
        let rest = shares.drop_last();
        lemma_best_share_rule(rest, user_id, groups);
        let last_index = shares.len() - 1;
        assert(shares[last_index] == shares.last());
        assert forall|i: int| 0 <= i < rest.len() implies rest[i] == #[trigger] shares[i] by {}
        match best_share_rule(rest, user_id, groups) {
            Some(r) => {
                let j = choose|j: int|
                    0 <= j < rest.len() && share_applies(#[trigger] rest[j], user_id, groups)
                        && rest[j].rule == r;
                assert(shares[j] == rest[j]);
            },
            None => {},
        }
    }
}

/// The owner of a book always gets full control of it.
pub proof fn law_owner_has_full_access(
    who: Requester,
    ab_guid: Seq<char>,
    personal: Option<String>,
    book: StoredBook,
)
    requires
        ab_guid.len() > 0,
        book.owner_id == who.user_id,
    ensures
        access_outcome(who, ab_guid, personal, Some(book)) == Ok::<(Seq<char>, i32), Refusal>(
            (book.guid@, RULE_FULL),
        ),
        admin_outcome(who, ab_guid, personal, Some(book)) == Ok::<Seq<char>, Refusal>(book.guid@),
{
}

/// An empty guid resolves to the requester's personal book, with full control;
/// without a personal book it is not found.
pub proof fn law_empty_guid_is_personal_book(
    who: Requester,
    ab_guid: Seq<char>,
    personal: Option<String>,
    book: Option<StoredBook>,
)
    requires
        ab_guid.len() == 0,
    ensures
        personal matches Some(g) ==> access_outcome(who, ab_guid, personal, book) == Ok::<
            (Seq<char>, i32),
            Refusal,
        >((g@, RULE_FULL)),
        personal is None ==> access_outcome(who, ab_guid, personal, book) is Err,
{
}

/// The levels of access nest: admin access implies write access, write access
/// implies read access, all to the same book; and any granted access has rule >= 1.
pub proof fn law_access_levels_nest(
    who: Requester,
    ab_guid: Seq<char>,
    personal: Option<String>,
    book: Option<StoredBook>,
)
    ensures
        admin_outcome(who, ab_guid, personal, book) matches Ok(g) ==> write_outcome(
            who,
            ab_guid,
            personal,
            book,
        ) == Ok::<Seq<char>, Refusal>(g),
        write_outcome(who, ab_guid, personal, book) matches Ok(g) ==> read_outcome(
            who,
            ab_guid,
            personal,
            book,
        ) == Ok::<Seq<char>, Refusal>(g),
        access_outcome(who, ab_guid, personal, book) matches Ok((_, rule)) ==> rule >= RULE_READ,
{
}

/// Someone who is not the owner gets the highest rule among the shares that reach
/// them (directly or through a group), and 0 when none does.
pub proof fn law_effective_rule_is_highest_share(
    owner_id: i64,
    shares: Seq<AbShare>,
    user_id: i64,
    groups: Seq<i64>,
)
    requires
        owner_id != user_id,
    ensures
        forall|i: int|
            0 <= i < shares.len() && share_applies(#[trigger] shares[i], user_id, groups)
                ==> shares[i].rule <= effective_rule(owner_id, shares, user_id, groups),
        (exists|j: int| 0 <= j < shares.len() && share_applies(#[trigger] shares[j], user_id, groups))
            ==> exists|j: int|
            0 <= j < shares.len() && share_applies(#[trigger] shares[j], user_id, groups)
                && shares[j].rule == effective_rule(owner_id, shares, user_id, groups),
        (forall|i: int| 0 <= i < shares.len() ==> !share_applies(#[trigger] shares[i], user_id, groups))
            ==> effective_rule(owner_id, shares, user_id, groups) == 0,
{
    lemma_best_share_rule(shares, user_id, groups);
}

/// A user who neither owns a book nor is reached by any of its shares is denied.
pub proof fn law_stranger_is_denied(who: Requester, ab_guid: Seq<char>, book: StoredBook)
    requires
        ab_guid.len() > 0,
        book.owner_id != who.user_id,
        forall|i: int|
            0 <= i < book.shares@.len() ==> !share_applies(
                #[trigger] book.shares@[i],
                who.user_id,
                who.group_ids@,
            ),
    ensures
        forall|personal: Option<String>|
            access_outcome(who, ab_guid, personal, Some(book)) == Err::<(Seq<char>, i32), Refusal>(
                (ErrorKind::Forbidden, "Access denied to this address book"@),
            ),
{
    lemma_best_share_rule(book.shares@, who.user_id, who.group_ids@);
}

/// Adding a share with a non-negative rule never lowers anyone's access.
pub proof fn law_share_never_lowers_access(
    owner_id: i64,
    shares: Seq<AbShare>,
    share: AbShare,
    user_id: i64,
    groups: Seq<i64>,
)
    requires
        share.rule >= 0,
    ensures
        effective_rule(owner_id, shares.push(share), user_id, groups) >= effective_rule(
            owner_id,
            shares,
            user_id,
            groups,
        ),
{
    assert(shares.push(share).drop_last() =~= shares);
}

/// Only someone with full control of a book can create, change or remove its
/// shares, and only with a named user or group and a rule of 1, 2 or 3.
pub proof fn law_share_changes_need_full_control(
    who: Requester,
    req: ShareRequest,
    personal: Option<String>,
    book: Option<StoredBook>,
)
    ensures
        remove_share_outcome(who, req, personal, book) matches Ok((g, user, group)) ==> {
            &&& admin_outcome(who, req.ab_guid@, personal, book) == Ok::<Seq<char>, Refusal>(g)
            &&& (user is Some || group is Some)
        },
        upsert_share_outcome(who, req, personal, book) matches Ok(((g, user, group), rule)) ==> {
            &&& admin_outcome(who, req.ab_guid@, personal, book) == Ok::<Seq<char>, Refusal>(g)
            &&& (user is Some || group is Some)
            &&& RULE_READ <= rule <= RULE_FULL
        },
{
}

/// A row of the share table: book guid, user, group and rule.
pub type ShareRow = (Seq<char>, Option<i64>, Option<i64>, i32);

/// Whether a share row is the one a share target addresses (the same book, and
/// the same user and group, absent ones included).
pub open spec fn addresses(row: ShareRow, target: SeenTarget) -> bool {
    row.0 == target.0 && row.1 == target.1 && row.2 == target.2
}

/// The share table after removing the share `target` addresses.
pub open spec fn shares_after_remove(table: Seq<ShareRow>, target: SeenTarget) -> Seq<ShareRow> {
    table.filter(|row: ShareRow| !addresses(row, target))
}

/// The share table after creating or updating the share `target` addresses:
/// any row for it is replaced by one with `rule`.
pub open spec fn shares_after_upsert(table: Seq<ShareRow>, target: SeenTarget, rule: i32) -> Seq<
    ShareRow,
> {
    shares_after_remove(table, target).push((target.0, target.1, target.2, rule))
}

proof fn lemma_filter_keeps_all_rows(s: Seq<ShareRow>, pred: spec_fn(ShareRow) -> bool)
    requires
        forall|i: int| 0 <= i < s.len() ==> pred(#[trigger] s[i]),
    ensures
        s.filter(pred) == s,
    decreases s.len(),
{
    reveal(Seq::filter);
    if s.len() > 0 {
        let rest = s.drop_last();
        assert forall|i: int| 0 <= i < rest.len() implies pred(#[trigger] rest[i]) by {
            assert(rest[i] == s[i]);
        }
        lemma_filter_keeps_all_rows(rest, pred);
        assert(pred(s[s.len() - 1]));
        assert(rest.push(s.last()) =~= s);
    }
}

proof fn lemma_removed_has_no_target(table: Seq<ShareRow>, target: SeenTarget)
    ensures
        forall|i: int|
            0 <= i < shares_after_remove(table, target).len() ==> !addresses(
                #[trigger] shares_after_remove(table, target)[i],
                target,
            ),
        shares_after_remove(shares_after_remove(table, target), target) == shares_after_remove(
            table,
            target,
        ),
{
    let pred = |row: ShareRow| !addresses(row, target);
    let kept = table.filter(pred);
    assert forall|i: int| 0 <= i < kept.len() implies !addresses(#[trigger] kept[i], target) by {
        table.lemma_filter_pred(pred, i);
    }
    lemma_filter_keeps_all_rows(kept, pred);
}

/// Creating or updating a share leaves exactly one row for its target, with the
/// requested rule, keeps every other row, and doing it twice is doing it once.
pub proof fn law_upsert_share_replaces_row(table: Seq<ShareRow>, target: SeenTarget, rule: i32)
    ensures
        shares_after_upsert(table, target, rule).last() == (target.0, target.1, target.2, rule),
        forall|i: int|
            0 <= i < shares_after_upsert(table, target, rule).len() - 1 ==> !addresses(
                #[trigger] shares_after_upsert(table, target, rule)[i],
                target,
            ),
        shares_after_remove(shares_after_upsert(table, target, rule), target)
            == shares_after_remove(table, target),
        shares_after_upsert(shares_after_upsert(table, target, rule), target, rule)
            == shares_after_upsert(table, target, rule),
{
    let pred = |row: ShareRow| !addresses(row, target);
    let kept = shares_after_remove(table, target);
    let row = (target.0, target.1, target.2, rule);
    lemma_removed_has_no_target(table, target);
    kept.lemma_filter_push(row, pred);
    assert(!pred(row));
    let up = shares_after_upsert(table, target, rule);
    assert forall|i: int| 0 <= i < up.len() - 1 implies !addresses(#[trigger] up[i], target) by {
        assert(up[i] == kept[i]);
    }
}

/// Removing a share deletes every row for its target and keeps the others; after
/// creating a share, removing it leaves the table as removal alone would, which
/// is the table itself when it had no row for that target.
pub proof fn law_remove_share_deletes_row(table: Seq<ShareRow>, target: SeenTarget, rule: i32)
    ensures
        forall|i: int|
            0 <= i < shares_after_remove(table, target).len() ==> !addresses(
                #[trigger] shares_after_remove(table, target)[i],
                target,
            ),
        forall|i: int|
            0 <= i < table.len() && !addresses(table[i], target) ==> #[trigger] shares_after_remove(
                table,
                target,
            ).contains(table[i]),
        shares_after_remove(shares_after_upsert(table, target, rule), target)
            == shares_after_remove(table, target),
        (forall|i: int| 0 <= i < table.len() ==> !addresses(#[trigger] table[i], target))
            ==> shares_after_remove(shares_after_upsert(table, target, rule), target) == table,
{
    let pred = |row: ShareRow| !addresses(row, target);
    lemma_removed_has_no_target(table, target);
    law_upsert_share_replaces_row(table, target, rule);
    assert forall|i: int| 0 <= i < table.len() && !addresses(table[i], target) implies #[trigger] shares_after_remove(
        table,
        target,
    ).contains(table[i]) by {
        table.lemma_filter_contains(pred, i);
    }
    if forall|i: int| 0 <= i < table.len() ==> !addresses(#[trigger] table[i], target) {
        lemma_filter_keeps_all_rows(table, pred);
    }
}

/// A share that names the requester directly, or names any group the requester
/// belongs to, grants at least its rule to anyone who is not the owner; and an
/// access check on the book then succeeds with a rule at least that high when
/// that rule is 1 or more.
pub proof fn law_reaching_share_grants_its_rule(
    who: Requester,
    ab_guid: Seq<char>,
    personal: Option<String>,
    book: StoredBook,
    i: int,
)
    requires
        book.owner_id != who.user_id,
        0 <= i < book.shares@.len(),
        book.shares@[i].user_id == Some(who.user_id) || (book.shares@[i].group_id is Some
            && who.group_ids@.contains(book.shares@[i].group_id->0)),
    ensures
        effective_rule(book.owner_id, book.shares@, who.user_id, who.group_ids@)
            >= book.shares@[i].rule,
        ab_guid.len() > 0 && book.shares@[i].rule >= RULE_READ ==> (access_outcome(
            who,
            ab_guid,
            personal,
            Some(book),
        ) matches Ok((g, rule)) && g == book.guid@ && rule >= book.shares@[i].rule),
{
    lemma_best_share_rule(book.shares@, who.user_id, who.group_ids@);
    assert(share_applies(book.shares@[i], who.user_id, who.group_ids@));
}

/// For someone who is not the owner of a named book, read, write and admin access
/// are granted exactly when some share naming them directly or naming one of
/// their groups has rule at least 1, 2 and 3 respectively, and what is granted is
/// the book's own guid.
pub proof fn law_access_levels_by_shares(
    who: Requester,
    ab_guid: Seq<char>,
    personal: Option<String>,
    book: StoredBook,
)
    requires
        ab_guid.len() > 0,
        book.owner_id != who.user_id,
    ensures
        access_outcome(who, ab_guid, personal, Some(book)) is Ok <==> exists|i: int|
            0 <= i < book.shares@.len() && (book.shares@[i].user_id == Some(who.user_id) || (
            book.shares@[i].group_id is Some && who.group_ids@.contains(
                book.shares@[i].group_id->0,
            ))) && (#[trigger] book.shares@[i]).rule >= RULE_READ,
        write_outcome(who, ab_guid, personal, Some(book)) is Ok <==> exists|i: int|
            0 <= i < book.shares@.len() && (book.shares@[i].user_id == Some(who.user_id) || (
            book.shares@[i].group_id is Some && who.group_ids@.contains(
                book.shares@[i].group_id->0,
            ))) && (#[trigger] book.shares@[i]).rule >= RULE_WRITE,
        admin_outcome(who, ab_guid, personal, Some(book)) is Ok <==> exists|i: int|
            0 <= i < book.shares@.len() && (book.shares@[i].user_id == Some(who.user_id) || (
            book.shares@[i].group_id is Some && who.group_ids@.contains(
                book.shares@[i].group_id->0,
            ))) && (#[trigger] book.shares@[i]).rule >= RULE_FULL,
        access_outcome(who, ab_guid, personal, Some(book)) matches Ok((g, _)) ==> g == book.guid@,
        read_outcome(who, ab_guid, personal, Some(book)) matches Ok(g) ==> g == book.guid@,
        write_outcome(who, ab_guid, personal, Some(book)) matches Ok(g) ==> g == book.guid@,
        admin_outcome(who, ab_guid, personal, Some(book)) matches Ok(g) ==> g == book.guid@,
{
    let shares = book.shares@;
    lemma_best_share_rule(shares, who.user_id, who.group_ids@);
    assert forall|i: int| 0 <= i < shares.len() implies share_applies(#[trigger] shares[i], who.user_id, who.group_ids@)
        == (shares[i].user_id == Some(who.user_id) || (shares[i].group_id is Some
        && who.group_ids@.contains(shares[i].group_id->0))) by {}
}

/// A book is listed for the requester exactly when the requester owns it or a
/// share with rule 3 or more names the requester directly or through a group.
proof fn lemma_admin_listing_member(who: Requester, row: AdminBookRow)
    ensures
        listed_for(row, who) <==> (row.book.owner_id == who.user_id || exists|i: int|
            0 <= i < row.book.shares@.len() && (row.book.shares@[i].user_id == Some(who.user_id)
                || (row.book.shares@[i].group_id is Some && who.group_ids@.contains(
                row.book.shares@[i].group_id->0,
            ))) && (#[trigger] row.book.shares@[i]).rule >= RULE_FULL),
        listed_for(row, who) ==> row_rule(row, who) >= RULE_FULL,
{
    let shares = row.book.shares@;
    lemma_best_share_rule(shares, who.user_id, who.group_ids@);
    assert forall|i: int| 0 <= i < shares.len() implies share_applies(#[trigger] shares[i], who.user_id, who.group_ids@)
        == (shares[i].user_id == Some(who.user_id) || (shares[i].group_id is Some
        && who.group_ids@.contains(shares[i].group_id->0))) by {}
}

/// The console lists a book exactly when the requester owns it or some share of
/// it with rule 3 or more names the requester directly or through one of the
/// requester's groups; each listed book appears with its own guid, name, owner
/// and kind, and with the requester's effective rule, which is then at least 3.
pub proof fn law_admin_listing_by_shares(who: Requester, rows: Seq<AdminBookRow>, k: int)
    requires
        0 <= k < rows.len(),
    ensures
        (rows[k].book.owner_id == who.user_id || exists|i: int|
            0 <= i < rows[k].book.shares@.len() && (rows[k].book.shares@[i].user_id == Some(
                who.user_id,
            ) || (rows[k].book.shares@[i].group_id is Some && who.group_ids@.contains(
                rows[k].book.shares@[i].group_id->0,
            ))) && (#[trigger] rows[k].book.shares@[i]).rule >= RULE_FULL) ==> exists|j: int|
            0 <= j < admin_listing(who, rows).len() && (#[trigger] admin_listing(who, rows)[j]).guid
                == rows[k].book.guid && admin_listing(who, rows)[j].name == rows[k].name
                && admin_listing(who, rows)[j].owner == rows[k].owner_name && admin_listing(
                who,
                rows,
            )[j].is_personal == rows[k].is_personal && admin_listing(who, rows)[j].rule
                == effective_rule(
                rows[k].book.owner_id,
                rows[k].book.shares@,
                who.user_id,
                who.group_ids@,
            ),
        forall|j: int|
            0 <= j < admin_listing(who, rows).len() ==> exists|m: int|
                0 <= m < rows.len() && (#[trigger] rows[m]).book.guid == (#[trigger] admin_listing(
                    who,
                    rows,
                )[j]).guid && admin_listing(who, rows)[j].rule >= RULE_FULL && (rows[m].book.owner_id
                    == who.user_id || exists|i: int|
                    0 <= i < rows[m].book.shares@.len() && (rows[m].book.shares@[i].user_id == Some(
                        who.user_id,
                    ) || (rows[m].book.shares@[i].group_id is Some && who.group_ids@.contains(
                        rows[m].book.shares@[i].group_id->0,
                    ))) && (#[trigger] rows[m].book.shares@[i]).rule >= RULE_FULL),
{
    let pred = |row: AdminBookRow| listed_for(row, who);
    let f = |row: AdminBookRow| admin_profile_of(row, who);
    let kept = rows.filter(pred);
    let out = admin_listing(who, rows);
    assert(out == kept.map_values(f));
    lemma_admin_listing_member(who, rows[k]);
    if listed_for(rows[k], who) {
        rows.lemma_filter_contains(pred, k);
        let m = choose|m: int| 0 <= m < kept.len() && kept[m] == rows[k];
        assert(out[m] == f(kept[m]));
    }
    assert forall|j: int| 0 <= j < out.len() implies exists|m: int|
        0 <= m < rows.len() && (#[trigger] rows[m]).book.guid == (#[trigger] out[j]).guid
            && out[j].rule >= RULE_FULL && (rows[m].book.owner_id == who.user_id || exists|i: int|
            0 <= i < rows[m].book.shares@.len() && (rows[m].book.shares@[i].user_id == Some(
                who.user_id,
            ) || (rows[m].book.shares@[i].group_id is Some && who.group_ids@.contains(
                rows[m].book.shares@[i].group_id->0,
            ))) && (#[trigger] rows[m].book.shares@[i]).rule >= RULE_FULL) by {
        rows.lemma_filter_pred(pred, j);
        assert(kept.contains(kept[j]));
        rows.lemma_filter_contains_rev(pred, kept[j]);
        let m = choose|m: int| 0 <= m < rows.len() && rows[m] == kept[j];
        lemma_admin_listing_member(who, rows[m]);
        assert(out[j] == f(kept[j]));
    }
}

/// Someone with full control of a book who names a user or a group can remove
/// that share, and can create or update it with any rule of 1 (read), 2
/// (read-write) or 3 (admin); any other rule is refused as a bad request.
pub proof fn law_full_control_can_manage_shares(
    who: Requester,
    req: ShareRequest,
    personal: Option<String>,
    book: Option<StoredBook>,
    g: Seq<char>,
)
    requires
        admin_outcome(who, req.ab_guid@, personal, book) == Ok::<Seq<char>, Refusal>(g),
        req.user_id is Some || req.group_id is Some,
    ensures
        remove_share_outcome(who, req, personal, book) == Ok::<SeenTarget, Refusal>(
            (g, req.user_id, req.group_id),
        ),
        1 <= req.rule <= 3 ==> upsert_share_outcome(who, req, personal, book) == Ok::<
            (SeenTarget, i32),
            Refusal,
        >(((g, req.user_id, req.group_id), req.rule)),
        !(1 <= req.rule <= 3) ==> upsert_share_outcome(who, req, personal, book) == Err::<
            (SeenTarget, i32),
            Refusal,
        >((ErrorKind::BadRequest, bad_rule_message())),
{
}

/// A share request that names neither a user nor a group is refused as a bad
/// request once full control is established, whatever its rule.
pub proof fn law_share_request_needs_target(
    who: Requester,
    req: ShareRequest,
    personal: Option<String>,
    book: Option<StoredBook>,
)
    requires
        admin_outcome(who, req.ab_guid@, personal, book) is Ok,
        req.user_id is None && req.group_id is None,
    ensures
        remove_share_outcome(who, req, personal, book) == Err::<SeenTarget, Refusal>(
            (ErrorKind::BadRequest, missing_target_message()),
        ),
        upsert_share_outcome(who, req, personal, book) == Err::<(SeenTarget, i32), Refusal>(
            (ErrorKind::BadRequest, missing_target_message()),
        ),
{
}

} // verus!
