use vstd::hash_map::StringHashMap;
use vstd::prelude::*;

use crate::error::{ApiError, ErrorKind};

verus! {

/// Brute-force protection: at most this many login attempts per username in one window.
pub const LOGIN_MAX_ATTEMPTS: usize = 5;

/// The length of the sliding window, in nanoseconds (60 seconds).
pub const LOGIN_WINDOW_NANOS: u64 = 60_000_000_000;

/// The message of a login refused by the rate limiter.
pub open spec fn too_many_attempts_message() -> Seq<char> {
    "Too many login attempts, try again later"@
}

/// Recent login attempts, per username. An attempt is the time it was made,
/// in nanoseconds on a monotonic clock chosen by the caller.
pub struct LoginAttempts {
    history: StringHashMap<Vec<u64>>,
}

impl View for LoginAttempts {
    type V = Map<Seq<char>, Seq<u64>>;

    closed spec fn view(&self) -> Map<Seq<char>, Seq<u64>> {
        self.history@.map_values(|v: Vec<u64>| v@)
    }
}

impl LoginAttempts {
    /// A limiter that has seen no attempt.
    pub fn new() -> (r: LoginAttempts)
        ensures
            r@ == Map::<Seq<char>, Seq<u64>>::empty(),
    {
        let r = LoginAttempts { history: StringHashMap::new() };
        assert(r@ =~= Map::<Seq<char>, Seq<u64>>::empty());
        r
    }

    /// The attempts recorded for `username`, oldest first.
    pub fn attempts_of(&self, username: &str) -> (r: Vec<u64>)
        ensures
            r@ == history_of(self@, username@),
    {
        match self.history.get(username) {
            Some(h) => h.clone(),
            None => Vec::new(),
        }
    }
}

/// Whether an attempt made at `attempt` still counts at time `now`: it lies less
/// than one window in the past (an attempt stamped after `now` counts too).
pub open spec fn in_window(attempt: u64, now: u64) -> bool {
    now < attempt + LOGIN_WINDOW_NANOS
}

/// The attempts of `history` that still count at time `now`, in their order.
pub open spec fn recent(history: Seq<u64>, now: u64) -> Seq<u64> {
    history.filter(|t: u64| in_window(t, now))
}

/// The attempts recorded for `user` (none if the user has no entry).
pub open spec fn history_of(m: Map<Seq<char>, Seq<u64>>, user: Seq<char>) -> Seq<u64> {
    if m.contains_key(user) {
        m[user]
    } else {
        Seq::empty()
    }
}

/// Whether a login attempt by `user` at `now` is let through.
pub open spec fn attempt_allowed(m: Map<Seq<char>, Seq<u64>>, user: Seq<char>, now: u64) -> bool {
    recent(history_of(m, user), now).len() < LOGIN_MAX_ATTEMPTS
}

/// The recorded attempts after `user` tried to log in at `now`: the user's
/// expired attempts are dropped, and the new attempt is recorded if it is let through.
pub open spec fn after_attempt(m: Map<Seq<char>, Seq<u64>>, user: Seq<char>, now: u64) -> Map<
    Seq<char>,
    Seq<u64>,
> {
    let kept = recent(history_of(m, user), now);
    if kept.len() < LOGIN_MAX_ATTEMPTS {
        m.insert(user, kept.push(now))
    } else {
        m.insert(user, kept)
    }
}

/// Sliding-window rate limiter keyed by username. Drops the user's attempts that
/// are a window old or older; refuses the attempt with `TooManyRequests` once
/// `LOGIN_MAX_ATTEMPTS` remain, and otherwise records it.
pub fn check_rate_limit(map: &mut LoginAttempts, username: &str, now: u64) -> (r: Result<
    (),
    ApiError,
>)
    ensures
        r is Ok <==> attempt_allowed(old(map)@, username@, now),
        final(map)@ == after_attempt(old(map)@, username@, now),
        r matches Err(e) ==> e.failure() == (ErrorKind::TooManyRequests, too_many_attempts_message()),
{
    let ghost before = map@;
    let ghost pred = |t: u64| in_window(t, now);
    let mut kept: Vec<u64> = Vec::new();
    match map.history.get(username) {
        Some(h) => {
            let n = h.len();
            let mut i: usize = 0;
            while i < n
                invariant
                    n == h@.len(),
                    i <= n,
                    pred == (|t: u64| in_window(t, now)),
                    kept@ == h@.take(i as int).filter(pred),
                decreases n - i,
            {
                let t = h[i];
                proof {
                    assert(h@.take(i as int + 1) =~= h@.take(i as int).push(t));
                    h@.take(i as int).lemma_filter_push(t, pred);
                }
                if t >= now || now - t < LOGIN_WINDOW_NANOS {
                    kept.push(t);
                }
                i = i + 1;
            }
            assert(h@.take(n as int) =~= h@);
            assert(history_of(before, username@) == h@);
        },
        None => {
            assert(kept@ =~= Seq::<u64>::empty().filter(pred)) by {
                reveal(Seq::filter);
            }
        },
    }
    assert(kept@ == recent(history_of(before, username@), now));
    if kept.len() >= LOGIN_MAX_ATTEMPTS {
        let ghost kept_view = kept@;
        map.history.insert(username.to_owned(), kept);
        assert(map@ =~= before.insert(username@, kept_view));
        return Err(ApiError::new(ErrorKind::TooManyRequests, "Too many login attempts, try again later"));
    }
    kept.push(now);
    let ghost kept_view = kept@;
    map.history.insert(username.to_owned(), kept);
    assert(map@ =~= before.insert(username@, kept_view));
    Ok(())
}

/// Forgets every attempt recorded for `username`.
pub fn reset_rate_limit(map: &mut LoginAttempts, username: &str)
    ensures
        final(map)@ == old(map)@.remove(username@),
{
    let ghost before = map@;
    map.history.remove(username);
    assert(map@ =~= before.remove(username@));
}

/// A user account as stored by the server.
pub struct UserRecord {
    pub id: i64,
    pub username: String,
    pub password_hash: String,
    pub name: String,
    pub email: String,
    pub is_admin: bool,
    pub status: i64,
}

/// The user as presented to the RustDesk client after login.
pub struct UserPayload {
    pub name: String,
    pub email: String,
    pub is_admin: bool,
    pub note: String,
}

/// The message of a refused login, whichever of username or password was wrong.
pub open spec fn invalid_credentials_message() -> Seq<char> {
    "Invalid username or password"@
}

/// The name shown for a user: the display name, or the username when none is set.
pub open spec fn shown_name(name: Seq<char>, username: Seq<char>) -> Seq<char> {
    if name.len() == 0 {
        username
    } else {
        name
    }
}

/// The name shown for a user: the display name, or the username when none is set.
pub fn display_name(name: &String, username: &String) -> (r: String)
    ensures
        r@ == shown_name(name@, username@),
{
    if name.as_str().is_empty() {
        username.clone()
    } else {
        name.clone()
    }
}

/// The user part of a login response.
pub fn user_payload(user: &UserRecord) -> (p: UserPayload)
    ensures
        p.name@ == shown_name(user.name@, user.username@),
        p.email@ == user.email@,
        p.is_admin == user.is_admin,
        p.note@ == Seq::<char>::empty(),
{
    UserPayload {
        name: display_name(&user.name, &user.username),
        email: user.email.clone(),
        is_admin: user.is_admin,
        note: String::new(),
    }
}

/// Concludes a login attempt that the rate limiter let through. `found` is the
/// active account with the requested username, if any; `password_matches` tells
/// whether the given password matches its stored hash. An unknown user or a wrong
/// password is refused as `Unauthorized` and the attempt stays recorded; a
/// successful login clears the attempt history of `username`.
pub fn finish_login(
    attempts: &mut LoginAttempts,
    username: &str,
    found: Option<UserRecord>,
    password_matches: bool,
) -> (r: Result<UserPayload, ApiError>)
    ensures
        r is Ok <==> (found is Some && password_matches),
        r matches Err(e) ==> e.failure() == (ErrorKind::Unauthorized, invalid_credentials_message())
            && final(attempts)@ == old(attempts)@,
        r matches Ok(p) ==> {
            let user = found->0;
            &&& p.name@ == shown_name(user.name@, user.username@)
            &&& p.email@ == user.email@
            &&& p.is_admin == user.is_admin
            &&& p.note@ == Seq::<char>::empty()
            &&& final(attempts)@ == old(attempts)@.remove(username@)
        },
{
    match found {
        None => Err(ApiError::new(ErrorKind::Unauthorized, "Invalid username or password")),
        Some(user) => {
            if !password_matches {
                return Err(ApiError::new(ErrorKind::Unauthorized, "Invalid username or password"));
            }
            reset_rate_limit(attempts, username);
            Ok(user_payload(&user))
        },
    }
}

/// The answer to a successful login: the issued access token, its type and the user.
pub struct LoginResponse {
    pub access_token: String,
    pub token_type: String,
    pub user: UserPayload,
}

/// The token type the RustDesk client expects in a login answer.
pub open spec fn access_token_type() -> Seq<char> {
    "access_token"@
}

/// Builds the answer to a successful login from the token issued for the user
/// and the user part of the answer.
pub fn login_response(token: String, user: UserPayload) -> (r: LoginResponse)
    ensures
        r.access_token == token,
        r.token_type@ == access_token_type(),
        r.user == user,
{
    LoginResponse { access_token: token, token_type: "access_token".to_owned(), user }
}

/// The recorded attempts after `user` tried to log in at each of `times`, in order.
pub open spec fn after_attempts(m: Map<Seq<char>, Seq<u64>>, user: Seq<char>, times: Seq<u64>) -> Map<
    Seq<char>,
    Seq<u64>,
>
    decreases times.len(),
{
    if times.len() == 0 {
        m
    } else {
        after_attempt(after_attempts(m, user, times.drop_last()), user, times.last())
    }
}

/// Whether every attempt of `user` at each of `times`, in order, is let through.
pub open spec fn all_allowed(m: Map<Seq<char>, Seq<u64>>, user: Seq<char>, times: Seq<u64>) -> bool
    decreases times.len(),
{
    if times.len() == 0 {
        true
    } else {
        all_allowed(m, user, times.drop_last()) && attempt_allowed(
            after_attempts(m, user, times.drop_last()),
            user,
            times.last(),
        )
    }
}

proof fn lemma_filter_keeps_all(s: Seq<u64>, pred: spec_fn(u64) -> bool)
    requires
        forall|i: int| 0 <= i < s.len() ==> pred(#[trigger] s[i]),
    ensures
        s.filter(pred) == s,
    decreases s.len(),
{
    reveal(Seq::filter);
    if s.len() > 0 {
        let rest = s.drop_last();
        assert forall|i: int| 0 <= i < rest.len() implies pred(#[trigger] rest[i]) by {
            assert(rest[i] == s[i]);
        }
        lemma_filter_keeps_all(rest, pred);
        assert(pred(s[s.len() - 1]));
        assert(rest.push(s.last()) =~= s);
    }
}

proof fn lemma_filter_keeps_none(s: Seq<u64>, pred: spec_fn(u64) -> bool)
    requires
        forall|i: int| 0 <= i < s.len() ==> !pred(#[trigger] s[i]),
    ensures
        s.filter(pred).len() == 0,
    decreases s.len(),
{
    reveal(Seq::filter);
    if s.len() > 0 {
        let rest = s.drop_last();
        assert forall|i: int| 0 <= i < rest.len() implies !pred(#[trigger] rest[i]) by {
            assert(rest[i] == s[i]);
        }
        lemma_filter_keeps_none(rest, pred);
        assert(!pred(s[s.len() - 1]));
    }
}

/// An attempt by one user changes nothing recorded for any other user.
pub proof fn law_other_users_unaffected(
    m: Map<Seq<char>, Seq<u64>>,
    user: Seq<char>,
    other: Seq<char>,
    now: u64,
    later: u64,
)
    requires
        user != other,
    ensures
        history_of(after_attempt(m, user, now), other) == history_of(m, other),
        attempt_allowed(after_attempt(m, user, now), other, later) == attempt_allowed(
            m,
            other,
            later,
        ),
{
}

/// Starting from no recorded attempt, `LOGIN_MAX_ATTEMPTS` attempts of one user
/// that fall within one window are all let through, and a further attempt within
/// the same window is refused.
pub proof fn law_limit_reached_within_window(
    m: Map<Seq<char>, Seq<u64>>,
    user: Seq<char>,
    times: Seq<u64>,
    now: u64,
)
    requires
        !m.contains_key(user),
        times.len() == LOGIN_MAX_ATTEMPTS,
        forall|i: int, j: int| 0 <= i <= j < times.len() ==> times[i] <= times[j],
        forall|i: int| 0 <= i < times.len() ==> times[i] <= now,
        now < times[0] + LOGIN_WINDOW_NANOS,
    ensures
        all_allowed(m, user, times),
        !attempt_allowed(after_attempts(m, user, times), user, now),
{
    lemma_prefix_recorded(m, user, times, now, times.len() as int);
    assert(times.take(times.len() as int) =~= times);
    let h = history_of(after_attempts(m, user, times), user);
    lemma_filter_keeps_all(h, |t: u64| in_window(t, now));
}

proof fn lemma_prefix_recorded(
    m: Map<Seq<char>, Seq<u64>>,
    user: Seq<char>,
    times: Seq<u64>,
    now: u64,
    k: int,
)
    requires
        !m.contains_key(user),
        0 <= k <= times.len() == LOGIN_MAX_ATTEMPTS,
        forall|i: int, j: int| 0 <= i <= j < times.len() ==> times[i] <= times[j],
        forall|i: int| 0 <= i < times.len() ==> times[i] <= now,
        now < times[0] + LOGIN_WINDOW_NANOS,
    ensures
        all_allowed(m, user, times.take(k)),
        history_of(after_attempts(m, user, times.take(k)), user) == times.take(k),
    decreases k,
{
    if k == 0 {
        assert(times.take(0) =~= Seq::<u64>::empty());
    } else {
        lemma_prefix_recorded(m, user, times, now, k - 1);
        let prefix = times.take(k);
        assert(prefix.drop_last() =~= times.take(k - 1));
        let before = after_attempts(m, user, times.take(k - 1));
        let t = times[k - 1];
        assert(prefix.last() == t);
        let h = times.take(k - 1);
        assert forall|i: int| 0 <= i < h.len() implies in_window(#[trigger] h[i], t) by {
            assert(h[i] == times[i]);
            assert(times[0] <= times[i]);
        }
        lemma_filter_keeps_all(h, |x: u64| in_window(x, t));
        assert(recent(h, t) == h);
        assert(h.push(t) =~= prefix);
    }
}

/// Once every recorded attempt of a user is a full window old, the user may try again.
pub proof fn law_window_expires(m: Map<Seq<char>, Seq<u64>>, user: Seq<char>, now: u64)
    requires
        forall|i: int|
            0 <= i < history_of(m, user).len() ==> #[trigger] history_of(m, user)[i]
                + LOGIN_WINDOW_NANOS <= now,
    ensures
        attempt_allowed(m, user, now),
        history_of(after_attempt(m, user, now), user) == seq![now],
{
    let h = history_of(m, user);
    lemma_filter_keeps_none(h, |t: u64| in_window(t, now));
    assert(recent(h, now) =~= Seq::<u64>::empty());
    assert(Seq::<u64>::empty().push(now) =~= seq![now]);
}

/// After the attempts of a user are reset, the next attempt is let through.
pub proof fn law_reset_allows_next_attempt(m: Map<Seq<char>, Seq<u64>>, user: Seq<char>, now: u64)
    ensures
        attempt_allowed(m.remove(user), user, now),
{
    assert(history_of(m.remove(user), user) =~= Seq::<u64>::empty());
    assert(recent(Seq::<u64>::empty(), now) =~= Seq::<u64>::empty()) by {
        reveal(Seq::filter);
    }
}

/// No user ever has more than `LOGIN_MAX_ATTEMPTS` attempts recorded: the bound
/// holds of an empty limiter and every attempt keeps it.
pub proof fn law_history_stays_bounded(m: Map<Seq<char>, Seq<u64>>, user: Seq<char>, now: u64)
    requires
        forall|u: Seq<char>| #[trigger] m.contains_key(u) ==> m[u].len() <= LOGIN_MAX_ATTEMPTS,
    ensures
        forall|u: Seq<char>|
            #[trigger] after_attempt(m, user, now).contains_key(u) ==> after_attempt(
                m,
                user,
                now,
            )[u].len() <= LOGIN_MAX_ATTEMPTS,
{
    let h = history_of(m, user);
    h.lemma_filter_len(|t: u64| in_window(t, now));
}

/// A refused attempt is not recorded: the user's history keeps only the attempts
/// that still count, and it still refuses an attempt at the same time.
pub proof fn law_refusal_is_not_recorded(m: Map<Seq<char>, Seq<u64>>, user: Seq<char>, now: u64)
    requires
        !attempt_allowed(m, user, now),
    ensures
        history_of(after_attempt(m, user, now), user) == recent(history_of(m, user), now),
        !attempt_allowed(after_attempt(m, user, now), user, now),
{
    let h = recent(history_of(m, user), now);
    assert forall|i: int| 0 <= i < h.len() implies in_window(#[trigger] h[i], now) by {
        history_of(m, user).lemma_filter_pred(|t: u64| in_window(t, now), i);
    }
    lemma_filter_keeps_all(h, |t: u64| in_window(t, now));
}

} // verus!
