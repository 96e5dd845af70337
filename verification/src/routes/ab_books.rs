use vstd::prelude::*;

use crate::error::{ApiError, ErrorKind};
use crate::models::address_book::{AbProfile, AbSharedProfilesResponse};
use crate::routes::ab::RULE_FULL;

verus! {

/// Whether `c` is a digit or a lowercase letter `a` to `f`.
pub open spec fn is_lower_hex(c: char) -> bool {
    ('0' <= c <= '9') || ('a' <= c <= 'f')
}

/// Whether `s` is a random (version 4) UUID in its hyphenated lowercase text form:
/// 36 characters, hyphens at positions 8, 13, 18 and 23, lowercase hex digits
/// elsewhere, the version digit `4` at position 14 and one of `8`, `9`, `a`, `b`
/// (the RFC variant) at position 19.
pub open spec fn is_uuid_v4_text(s: Seq<char>) -> bool {
    &&& s.len() == 36
    &&& forall|i: int|
        0 <= i < 36 ==> if i == 8 || i == 13 || i == 18 || i == 23 {
            #[trigger] s[i] == '-'
        } else {
            is_lower_hex(s[i])
        }
    &&& s[14] == '4'
    &&& (s[19] == '8' || s[19] == '9' || s[19] == 'a' || s[19] == 'b')
}

/// A fresh address-book guid: `uuid::Uuid::new_v4()` in its `Display` form, the
/// hyphenated lowercase text. Its random bits are left to chance; the format, the
/// version digit and the variant digit are stated. (`uuid` panics only when the
/// operating system cannot supply random bytes, which no argument can avoid.)
#[verifier::external_body]
fn new_guid() -> (guid: String)
    ensures
        is_uuid_v4_text(guid@),
{
    uuid::Uuid::new_v4().to_string()
}

/// The personal address book of a user: the one found, or a new one to create.
pub enum PersonalBook {
    /// The user already has this personal book.
    Existing(String),
    /// The user has none; a book with this new guid and the name `Personal` is to be created.
    Created(String),
}

impl PersonalBook {
    /// The guid of the personal book.
    pub fn guid(&self) -> (g: &String)
        ensures
            g == match self {
                PersonalBook::Existing(x) => x,
                PersonalBook::Created(x) => x,
            },
    {
        match self {
            PersonalBook::Existing(g) => g,
            PersonalBook::Created(g) => g,
        }
    }
}

/// Whether `book` is the decision for a user whose personal book lookup found
/// `existing`: that book if there is one, else a new one with a random guid.
pub open spec fn decides_personal_book(existing: Option<String>, book: PersonalBook) -> bool {
    match existing {
        Some(g) => book == PersonalBook::Existing(g),
        None => book matches PersonalBook::Created(g) && is_uuid_v4_text(g@),
    }
}

/// Ensures the user has a personal address book: `existing` is the guid found for
/// the user's personal book, if any. When there is none, a new random guid is
/// chosen for the book to create.
pub fn personal_book(existing: Option<String>) -> (book: PersonalBook)
    ensures
        decides_personal_book(existing, book),
{
    match existing {
        Some(g) => PersonalBook::Existing(g),
        None => PersonalBook::Created(new_guid()),
    }
}

/// The profile of a user's personal address book: named `Personal`, owned by the
/// user, with full control.
pub fn personal_profile(guid: String, username: String) -> (p: AbProfile)
    ensures
        p.guid == guid,
        p.name@ == "Personal"@,
        p.owner == username,
        p.rule == RULE_FULL,
        p.note@ == Seq::<char>::empty(),
{
    AbProfile { guid, name: "Personal".to_owned(), owner: username, rule: RULE_FULL, note: String::new() }
}

/// A book shared with the user: its guid, name, the user's rule from the share,
/// and its owner's username if the owner was found.
pub struct SharedBookRow {
    pub guid: String,
    pub name: String,
    pub rule: i32,
    pub owner_name: Option<String>,
}

/// Whether `p` is the profile listed for a shared book: an owner that was not
/// found shows as empty.
pub open spec fn lists_shared_book(p: AbProfile, row: SharedBookRow) -> bool {
    &&& p.guid == row.guid
    &&& p.name == row.name
    &&& p.owner@ == match row.owner_name {
        Some(o) => o@,
        None => Seq::<char>::empty(),
    }
    &&& p.rule == row.rule
    &&& p.note@ == Seq::<char>::empty()
}

/// The shared address books of a user as listed to the client, one profile per
/// row in order, with their count.
pub fn shared_profiles(rows: Vec<SharedBookRow>) -> (r: AbSharedProfilesResponse)
    ensures
        r.data@.len() == rows@.len(),
        forall|i: int| 0 <= i < rows@.len() ==> lists_shared_book(#[trigger] r.data@[i], rows@[i]),
        forall|i: int| 0 <= i < rows@.len() ==> (#[trigger] r.data@[i]).guid == rows@[i].guid,
        forall|i: int| 0 <= i < rows@.len() ==> (#[trigger] r.data@[i]).name == rows@[i].name,
        forall|i: int| 0 <= i < rows@.len() ==> (#[trigger] r.data@[i]).rule == rows@[i].rule,
        forall|i: int|
            0 <= i < rows@.len() && rows@[i].owner_name is Some ==> (#[trigger] r.data@[i]).owner@
                == rows@[i].owner_name.unwrap()@,
        forall|i: int|
            0 <= i < rows@.len() && rows@[i].owner_name is None ==> (#[trigger] r.data@[i]).owner@.len()
                == 0,
        forall|i: int| 0 <= i < rows@.len() ==> (#[trigger] r.data@[i]).note@.len() == 0,
        r.total == rows@.len() as i64,
{
    let ghost all = rows@;
    let mut data: Vec<AbProfile> = Vec::new();
    for row in it: rows
        invariant
            all == it.seq(),
            data@.len() == it.index(),
            forall|k: int| 0 <= k < it.index() ==> lists_shared_book(#[trigger] data@[k], all[k]),
    {
        let owner = match row.owner_name {
            Some(o) => o,
            None => String::new(),
        };
        data.push(AbProfile { guid: row.guid, name: row.name, owner, rule: row.rule, note: String::new() });
    }
    let total = data.len() as i64;
    AbSharedProfilesResponse { data, total }
}

/// Whether `c` has the Unicode `White_Space` property, which is what
/// `char::is_whitespace` tests.
pub open spec fn is_unicode_whitespace(c: char) -> bool {
    ||| ('\u{9}' <= c <= '\u{d}')
    ||| c == ' '
    ||| c == '\u{85}'
    ||| c == '\u{a0}'
    ||| c == '\u{1680}'
    ||| ('\u{2000}' <= c <= '\u{200a}')
    ||| c == '\u{2028}'
    ||| c == '\u{2029}'
    ||| c == '\u{202f}'
    ||| c == '\u{205f}'
    ||| c == '\u{3000}'
}

/// `s` without its leading whitespace.
pub open spec fn trim_start(s: Seq<char>) -> Seq<char>
    decreases s.len(),
{
    if s.len() > 0 && is_unicode_whitespace(s[0]) {
        trim_start(s.drop_first())
    } else {
        s
    }
}

/// `s` without its trailing whitespace.
pub open spec fn trim_end(s: Seq<char>) -> Seq<char>
    decreases s.len(),
{
    if s.len() > 0 && is_unicode_whitespace(s.last()) {
        trim_end(s.drop_last())
    } else {
        s
    }
}

/// The text that `str::trim` leaves of `s`: `s` without its leading and trailing
/// whitespace.
pub open spec fn str_trim(s: Seq<char>) -> Seq<char> {
    trim_end(trim_start(s))
}

/// `str::trim` of the standard library, which removes the leading and trailing
/// characters for which `char::is_whitespace` holds.
#[verifier::external_body]
fn trimmed(s: &str) -> (r: String)
    ensures
        r@ == str_trim(s@),
{
    s.trim().to_string()
}

/// The message of a book creation request without a name.
pub open spec fn name_required_message() -> Seq<char> {
    "Name is required"@
}

/// Accepts the (already trimmed) name of a new shared book unless it is empty.
pub fn check_ab_name(name: String) -> (r: Result<String, ApiError>)
    ensures
        r is Err <==> name@.len() == 0,
        r matches Ok(n) ==> n == name,
        r matches Err(e) ==> e.failure() == (ErrorKind::BadRequest, name_required_message()),
{
    if name.as_str().is_empty() {
        return Err(ApiError::new(ErrorKind::BadRequest, "Name is required"));
    }
    Ok(name)
}

/// A shared address book to create: its new guid and its name.
pub struct NewBook {
    pub guid: String,
    pub name: String,
}

/// Checks a request to create a shared address book (the caller becomes its
/// owner): the name is trimmed and must not be empty; the book gets a new random guid.
pub fn plan_create_ab(name: &str) -> (r: Result<NewBook, ApiError>)
    ensures
        r is Err <==> str_trim(name@).len() == 0,
        r matches Ok(b) ==> b.name@ == str_trim(name@) && is_uuid_v4_text(b.guid@),
        r matches Err(e) ==> e.failure() == (ErrorKind::BadRequest, name_required_message()),
{
    let name = check_ab_name(trimmed(name))?;
    Ok(NewBook { guid: new_guid(), name })
}

proof fn lemma_trim_start_blank(s: Seq<char>)
    ensures
        (forall|i: int| 0 <= i < s.len() ==> is_unicode_whitespace(#[trigger] s[i])) ==> trim_start(
            s,
        ).len() == 0,
        (exists|i: int| 0 <= i < s.len() && !is_unicode_whitespace(#[trigger] s[i])) ==> {
            let t = trim_start(s);
            t.len() > 0 && !is_unicode_whitespace(t[0])
        },
    decreases s.len(),
{
    if s.len() > 0 {
        let rest = s.drop_first();
        lemma_trim_start_blank(rest);
        if forall|i: int| 0 <= i < s.len() ==> is_unicode_whitespace(#[trigger] s[i]) {
            assert forall|i: int| 0 <= i < rest.len() implies is_unicode_whitespace(#[trigger] rest[i]) by {
                assert(rest[i] == s[i + 1]);
            }
        }
        if exists|i: int| 0 <= i < s.len() && !is_unicode_whitespace(#[trigger] s[i]) {
            if is_unicode_whitespace(s[0]) {
                let i = choose|i: int| 0 <= i < s.len() && !is_unicode_whitespace(#[trigger] s[i]);
                assert(i > 0);
                assert(rest[i - 1] == s[i]);
            }
        }
    }
}

proof fn lemma_trim_end_keeps_first(s: Seq<char>)
    requires
        s.len() > 0,
        !is_unicode_whitespace(s[0]),
    ensures
        trim_end(s).len() > 0,
    decreases s.len(),
{
    if is_unicode_whitespace(s.last()) {
        assert(s.len() > 1);
        let rest = s.drop_last();
        assert(rest[0] == s[0]);
        lemma_trim_end_keeps_first(rest);
    }
}

/// A book name made only of whitespace (or empty) is refused, and a name with any
/// other character is accepted.
pub proof fn law_blank_name_refused(name: Seq<char>)
    ensures
        (forall|i: int| 0 <= i < name.len() ==> is_unicode_whitespace(#[trigger] name[i])) ==> str_trim(
            name,
        ).len() == 0,
        (exists|i: int| 0 <= i < name.len() && !is_unicode_whitespace(#[trigger] name[i]))
            ==> str_trim(name).len() > 0,
{
    lemma_trim_start_blank(name);
    let t = trim_start(name);
    if t.len() == 0 {
        assert(trim_end(t) == t);
    } else if !is_unicode_whitespace(t[0]) {
        lemma_trim_end_keeps_first(t);
    }
}

/// A row of the address-book table as far as personal books go: guid, owner,
/// whether the book is personal.
pub type BookRow = (String, i64, bool);

/// The personal book of `owner` found in the table (the last such row, when
/// there would be several).
pub open spec fn personal_guid_of(table: Seq<BookRow>, owner: i64) -> Option<String>
    decreases table.len(),
{
    if table.len() == 0 {
        None
    } else if table.last().1 == owner && table.last().2 {
        Some(table.last().0)
    } else {
        personal_guid_of(table.drop_last(), owner)
    }
}

/// The guid of a personal book decision.
pub open spec fn decided_guid(book: PersonalBook) -> String {
    match book {
        PersonalBook::Existing(g) => g,
        PersonalBook::Created(g) => g,
    }
}

/// The table after carrying out a personal book decision for `owner`: a created
/// book is added as a personal book named for the owner; an existing one changes nothing.
pub open spec fn after_ensure(table: Seq<BookRow>, owner: i64, book: PersonalBook) -> Seq<BookRow> {
    match book {
        PersonalBook::Existing(_) => table,
        PersonalBook::Created(g) => table.push((g, owner, true)),
    }
}

/// Ensuring a personal book is stable: after the first decision is carried out,
/// the owner's personal book is the decided one, and a second lookup finds it
/// as existing and changes nothing.
pub proof fn law_personal_book_is_stable(
    table: Seq<BookRow>,
    owner: i64,
    first: PersonalBook,
    second: PersonalBook,
)
    requires
        decides_personal_book(personal_guid_of(table, owner), first),
    ensures
        personal_guid_of(after_ensure(table, owner, first), owner) == Some(decided_guid(first)),
        decides_personal_book(personal_guid_of(after_ensure(table, owner, first), owner), second)
            ==> second == PersonalBook::Existing(decided_guid(first)) && after_ensure(
            after_ensure(table, owner, first),
            owner,
            second,
        ) == after_ensure(table, owner, first),
{
    let t1 = after_ensure(table, owner, first);
    if let PersonalBook::Created(g) = first {
        assert(t1.last() == (g, owner, true));
    }
}

} // verus!
