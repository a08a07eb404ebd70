//! Authorization of API requests: the bearer token in the `Authorization`
//! header names a user, and each request is charged to that user's daily
//! quota. Without authorization every request runs as the first user.

use vstd::prelude::*;
use crate::clock::{utc_now, ClockError};
use crate::quota::{decide_quota, quota_decision, QuotaDecision};
use crate::records::{Timestamp, UserRecord};
use crate::text::push_char;

verus! {

/// The key with which access tokens are signed.
pub const JWT_SECRET: &'static str = "s_Ec_retg95k20ls";

/// What an access token carries: the user's id and its expiry time in
/// seconds since the Unix epoch.
#[derive(Debug, Clone, Copy, PartialEq, Eq, Structural)]
pub struct Claims {
    pub id: i32,
    pub exp: u64,
}

/// A byte that may stand in a header value read as text: visible ASCII or
/// a tab.
pub open spec fn header_text_byte(b: u8) -> bool {
    (32 <= b && b < 127) || b == 9
}

/// The bytes `"Bearer "`.
pub open spec fn bearer_prefix() -> Seq<u8> {
    seq![66u8, 101u8, 97u8, 114u8, 101u8, 114u8, 32u8]
}

/// `s` with every leading copy of `"Bearer "` removed.
pub open spec fn strip_bearer(s: Seq<u8>) -> Seq<u8>
    decreases s.len(),
{
    if s.len() >= 7 && s.subrange(0, 7) == bearer_prefix() {
        strip_bearer(s.subrange(7, s.len() as int))
    } else {
        s
    }
}

/// The characters of an ASCII byte string.
pub open spec fn ascii_chars(s: Seq<u8>) -> Seq<char> {
    Seq::new(s.len(), |i: int| s[i] as char)
}

/// The token of an `Authorization` header: the value with all leading
/// `"Bearer "` removed; a refusal when the header is missing or its value
/// holds a byte that is not text.
pub open spec fn token_of_header(header: Option<Seq<u8>>) -> Result<Seq<char>, Refusal> {
    match header {
        None => Err(Refusal::MissingHeader),
        Some(h) => if forall|i: int| 0 <= i < h.len() ==> header_text_byte(#[trigger] h[i]) {
            Ok(ascii_chars(strip_bearer(h)))
        } else {
            Err(Refusal::UnreadableHeader)
        },
    }
}

/// The bytes of an optional byte slice.
pub open spec fn bytes_view(b: Option<&[u8]>) -> Option<Seq<u8>> {
    match b {
        None => None,
        Some(b) => Some(b@),
    }
}

/// Reads the token out of an `Authorization` header value.
pub fn bearer_token(header: Option<&[u8]>) -> (r: Result<String, Refusal>)
    ensures
        r matches Ok(t) ==> token_of_header(bytes_view(header)) == Ok::<Seq<char>, Refusal>(t@),
        r matches Err(e) ==> token_of_header(bytes_view(header)) == Err::<Seq<char>, Refusal>(e),
{
    let h = match header {
        None => {
            return Err(Refusal::MissingHeader);
        },
        Some(h) => h,
    };
    assert(bytes_view(header) == Some(h@));
    let mut k: usize = 0;
    while k < h.len()
        invariant
            k <= h@.len(),
            bytes_view(header) == Some(h@),
            forall|j: int| 0 <= j < k ==> header_text_byte(#[trigger] h@[j]),
        decreases h@.len() - k,
    {
        let b = h[k];
        if !((32 <= b && b < 127) || b == 9) {
            assert(!header_text_byte(h@[k as int]));
            assert(bytes_view(header) == Some(h@));
            return Err(Refusal::UnreadableHeader);
        }
        k = k + 1;
    }
    let mut start: usize = 0;
    assert(h@.subrange(0, h@.len() as int) =~= h@);
    while h.len() - start >= 7 && h[start] == 66 && h[start + 1] == 101 && h[start + 2] == 97
        && h[start + 3] == 114 && h[start + 4] == 101 && h[start + 5] == 114 && h[start + 6]
        == 32
        invariant
            start <= h@.len(),
            strip_bearer(h@) == strip_bearer(h@.subrange(start as int, h@.len() as int)),
        decreases h@.len() - start,
    {
        let ghost rest = h@.subrange(start as int, h@.len() as int);
        assert(rest.subrange(0, 7) =~= bearer_prefix());
        assert(rest.subrange(7, rest.len() as int) =~= h@.subrange(start + 7, h@.len() as int));
        start = start + 7;
    }
    let ghost rest = h@.subrange(start as int, h@.len() as int);
    assert(!(rest.len() >= 7 && rest.subrange(0, 7) == bearer_prefix())) by {
        if rest.len() >= 7 && rest.subrange(0, 7) == bearer_prefix() {
            assert(rest.subrange(0, 7)[0] == h@[start as int]);
            assert(rest.subrange(0, 7)[1] == h@[start + 1]);
            assert(rest.subrange(0, 7)[2] == h@[start + 2]);
            assert(rest.subrange(0, 7)[3] == h@[start + 3]);
            assert(rest.subrange(0, 7)[4] == h@[start + 4]);
            assert(rest.subrange(0, 7)[5] == h@[start + 5]);
            assert(rest.subrange(0, 7)[6] == h@[start + 6]);
        }
    }
    assert(strip_bearer(h@) == rest);
    let mut token = String::new();
    let mut i: usize = start;
    while i < h.len()
        invariant
            start <= i <= h@.len(),
            token@ == ascii_chars(h@.subrange(start as int, i as int)),
        decreases h@.len() - i,
    {
        let c = h[i] as char;
        push_char(&mut token, c);
        assert(ascii_chars(h@.subrange(start as int, i + 1)) =~= ascii_chars(
            h@.subrange(start as int, i as int),
        ).push(c));
        i = i + 1;
    }
    assert(forall|j: int| 0 <= j < h@.len() ==> header_text_byte(#[trigger] h@[j]));
    assert(bytes_view(header) == Some(h@));
    Ok(token)
}

/// Why a request is refused.
#[derive(Debug, Clone, Copy, PartialEq, Eq, Structural)]
pub enum Refusal {
    /// The request has no `Authorization` header.
    MissingHeader,
    /// The `Authorization` header holds a byte that is not text.
    UnreadableHeader,
    /// The token is not valid: its signature or expiry is wrong.
    AuthFailed,
    /// The token names no user.
    UserNotFound,
    /// Looking the user up failed.
    DatabaseError,
    /// Reading or writing a user failed elsewhere.
    InternalError,
    /// The user's quota for the day is used up.
    LimitExceeded,
}

/// The HTTP status of each refusal.
pub open spec fn refusal_status(r: Refusal) -> u16 {
    match r {
        Refusal::MissingHeader => 401,
        Refusal::UnreadableHeader => 401,
        Refusal::AuthFailed => 401,
        Refusal::UserNotFound => 401,
        Refusal::DatabaseError => 500,
        Refusal::InternalError => 500,
        Refusal::LimitExceeded => 429,
    }
}

impl Refusal {
    /// The HTTP status code of the refusal.
    pub fn status_code(&self) -> (s: u16)
        ensures
            s == refusal_status(*self),
    {
        match self {
            Refusal::MissingHeader => 401,
            Refusal::UnreadableHeader => 401,
            Refusal::AuthFailed => 401,
            Refusal::UserNotFound => 401,
            Refusal::DatabaseError => 500,
            Refusal::InternalError => 500,
            Refusal::LimitExceeded => 429,
        }
    }

    /// The body of the refusal response.
    pub fn body(&self) -> (b: String)
        ensures
            *self == Refusal::MissingHeader ==> b@ == "auth user fail"@,
            *self == Refusal::UnreadableHeader ==> b@ == "auth user fail"@,
            *self == Refusal::AuthFailed ==> b@ == "auth user fail"@,
            *self == Refusal::UserNotFound ==> b@ == "user not found"@,
            *self == Refusal::DatabaseError ==> b@ == "database error"@,
            *self == Refusal::InternalError ==> b@ == ""@,
            *self == Refusal::LimitExceeded ==> b@ == "user request limit exceeded"@,
    {
        match self {
            Refusal::MissingHeader => "auth user fail".to_owned(),
            Refusal::UnreadableHeader => "auth user fail".to_owned(),
            Refusal::AuthFailed => "auth user fail".to_owned(),
            Refusal::UserNotFound => "user not found".to_owned(),
            Refusal::DatabaseError => "database error".to_owned(),
            Refusal::InternalError => "".to_owned(),
            Refusal::LimitExceeded => "user request limit exceeded".to_owned(),
        }
    }
}

impl Refusal {
    /// What is logged when a request is refused for this reason.
    pub fn log_message(&self) -> (m: String)
        ensures
            *self == Refusal::MissingHeader ==> m@ == "don't get AUTHORIZATION header"@,
            *self == Refusal::UnreadableHeader ==> m@ == "failed to convert header to a str"@,
            *self == Refusal::AuthFailed ==> m@ == "Error getting user id from auth header, or expire"@,
            *self == Refusal::UserNotFound ==> m@ == "User not found"@,
            *self == Refusal::DatabaseError ==> m@ == "DB error"@,
            *self == Refusal::InternalError ==> m@ == "internal error"@,
            *self == Refusal::LimitExceeded ==> m@ == "User request limit exceeded"@,
    {
        match self {
            Refusal::MissingHeader => "don't get AUTHORIZATION header".to_owned(),
            Refusal::UnreadableHeader => "failed to convert header to a str".to_owned(),
            Refusal::AuthFailed => "Error getting user id from auth header, or expire".to_owned(),
            Refusal::UserNotFound => "User not found".to_owned(),
            Refusal::DatabaseError => "DB error".to_owned(),
            Refusal::InternalError => "internal error".to_owned(),
            Refusal::LimitExceeded => "User request limit exceeded".to_owned(),
        }
    }
}

/// Where the authorization of one request stands.
#[derive(Debug)]
pub enum AuthState {
    /// Nothing has happened yet.
    Start,
    /// Without authorization: waiting for the first stored user.
    AwaitFirstUser,
    /// Without authorization: waiting for a fresh user to be stored.
    AwaitCreatedUser { first: Option<UserRecord> },
    /// Waiting for the token to be decoded into a user id.
    AwaitUserId,
    /// Waiting for the user named by the token.
    AwaitUser,
    /// Waiting for the charge of user `id` to be stored.
    AwaitCharge { id: i32 },
    /// The request has been admitted or refused.
    Finished,
}

/// What the outside world reports back.
#[derive(Debug)]
pub enum AuthEvent {
    /// A request arrives; `auth` says whether authorization is enforced.
    Request { auth: bool, authorization: Option<Vec<u8>> },
    /// The first stored user, if any.
    FirstUser { found: Result<Option<UserRecord>, String> },
    /// The freshly stored user.
    UserCreated { created: Result<UserRecord, String> },
    /// The user id carried by the token, or why it could not be read.
    TokenDecoded { user_id: Result<i32, String> },
    /// The user with that id, if any.
    UserFound { found: Result<Option<UserRecord>, String> },
    /// The user as stored after the charge, or none when the stored row
    /// had changed since it was read, so that the charge was not made.
    Charged { updated: Result<Option<UserRecord>, String> },
}

/// What is to be done next.
#[derive(Debug)]
pub enum AuthAction {
    /// Look up the first stored user.
    FetchFirstUser,
    /// Store a new user with this name and daily limit.
    CreateUser { username: String, max_query: i32 },
    /// Decode and validate this access token.
    DecodeToken { token: String },
    /// Look up the user with this id.
    FetchUser { id: i32 },
    /// Store `value` as the user's remaining quota, charged now.
    SetRemain { value: i32, user: UserRecord },
    /// Let the request through on behalf of this user.
    Admit { user: UserRecord },
    /// Refuse the request.
    Refuse { reason: Refusal },
    /// The clock could not be read to judge the quota: the request stops
    /// here with a panic.
    Abort { error: ClockError },
}

/// The bytes of an optional header value.
pub open spec fn opt_vec_view(v: Option<Vec<u8>>) -> Option<Seq<u8>> {
    match v {
        None => None,
        Some(v) => Some(v@),
    }
}

/// The events that each state waits for.
pub open spec fn auth_event_expected(state: AuthState, event: AuthEvent) -> bool {
    match (state, event) {
        (AuthState::Start, AuthEvent::Request { .. }) => true,
        (AuthState::AwaitFirstUser, AuthEvent::FirstUser { .. }) => true,
        (AuthState::AwaitCreatedUser { .. }, AuthEvent::UserCreated { .. }) => true,
        (AuthState::AwaitUserId, AuthEvent::TokenDecoded { .. }) => true,
        (AuthState::AwaitUser, AuthEvent::UserFound { .. }) => true,
        (AuthState::AwaitCharge { .. }, AuthEvent::Charged { .. }) => true,
        _ => false,
    }
}

/// What the quota rule makes of a found user's request at `now`.
pub open spec fn charge_outcome(user: UserRecord, now: Timestamp, r: (AuthState, AuthAction)) -> bool {
    match quota_decision(user, now) {
        QuotaDecision::Unlimited => r == (AuthState::Finished, AuthAction::Admit { user }),
        QuotaDecision::Refill { remain } => r == (AuthState::AwaitCharge { id: user.id }, AuthAction::SetRemain {
            value: remain,
            user,
        }),
        QuotaDecision::Consume { remain } => r == (AuthState::AwaitCharge { id: user.id }, AuthAction::SetRemain {
            value: remain,
            user,
        }),
        QuotaDecision::Exceeded => r == (AuthState::Finished, AuthAction::Refuse {
            reason: Refusal::LimitExceeded,
        }),
    }
}

/// One step of authorization: from the current state and what was reported,
/// the next state and the next thing to do.
pub open spec fn auth_transition(state: AuthState, event: AuthEvent, r: (AuthState, AuthAction)) -> bool {
    let refuse = |reason: Refusal| (AuthState::Finished, AuthAction::Refuse { reason });
    match event {
        AuthEvent::Request { auth, authorization } => if !auth {
            r == (AuthState::AwaitFirstUser, AuthAction::FetchFirstUser)
        } else {
            match token_of_header(opt_vec_view(authorization)) {
                Err(reason) => r == refuse(reason),
                Ok(t) => r.0 == AuthState::AwaitUserId && (r.1 matches AuthAction::DecodeToken {
                    token,
                } && token@ == t),
            }
        },
        AuthEvent::FirstUser { found } => match found {
            Err(_) => r == refuse(Refusal::InternalError),
            Ok(first) => r.0 == (AuthState::AwaitCreatedUser { first }) && (
            r.1 matches AuthAction::CreateUser { username, max_query } && username@
                == Seq::<char>::empty() && max_query == 0),
        },
        AuthEvent::UserCreated { created } => match created {
            Err(_) => r == refuse(Refusal::InternalError),
            Ok(fresh) => match state {
                AuthState::AwaitCreatedUser { first } => r == (AuthState::Finished, AuthAction::Admit {
                    user: match first {
                        Some(f) => f,
                        None => fresh,
                    },
                }),
                _ => false,
            },
        },
        AuthEvent::TokenDecoded { user_id } => match user_id {
            Err(_) => r == refuse(Refusal::AuthFailed),
            Ok(id) => r == (AuthState::AwaitUser, AuthAction::FetchUser { id }),
        },
        AuthEvent::UserFound { found } => match found {
            Err(_) => r == refuse(Refusal::DatabaseError),
            Ok(None) => r == refuse(Refusal::UserNotFound),
            Ok(Some(user)) => if user.max_query < 0 {
                r == (AuthState::Finished, AuthAction::Admit { user })
            } else {
                (r.0 == AuthState::Finished && r.1 is Abort) || exists|now: Timestamp|
                    #[trigger] charge_outcome(user, now, r)
            },
        },
        AuthEvent::Charged { updated } => match updated {
            Err(_) => r == refuse(Refusal::InternalError),
            Ok(Some(user)) => r == (AuthState::Finished, AuthAction::Admit { user }),
            Ok(None) => match state {
                AuthState::AwaitCharge { id } => r == (AuthState::AwaitUser, AuthAction::FetchUser { id }),
                _ => false,
            },
        },
    }
}

/// Applies the quota rule to a found user's request made at `now`.
pub fn charge_user_at(user: UserRecord, now: &Timestamp) -> (r: (AuthState, AuthAction))
    ensures
        charge_outcome(user, *now, r),
{
    let id = user.id;
    match decide_quota(&user, now) {
        QuotaDecision::Unlimited => (AuthState::Finished, AuthAction::Admit { user }),
        QuotaDecision::Refill { remain } => (AuthState::AwaitCharge { id }, AuthAction::SetRemain {
            value: remain,
            user,
        }),
        QuotaDecision::Consume { remain } => (AuthState::AwaitCharge { id }, AuthAction::SetRemain {
            value: remain,
            user,
        }),
        QuotaDecision::Exceeded => (AuthState::Finished, AuthAction::Refuse {
            reason: Refusal::LimitExceeded,
        }),
    }
}

/// Advances the authorization of a request by one step. A found user
/// without a limit is let through at once; a limited user's quota is
/// judged against the clock, read at that moment.
pub fn auth_step(state: AuthState, event: AuthEvent) -> (r: (AuthState, AuthAction))
    requires
        auth_event_expected(state, event),
    ensures
        auth_transition(state, event, r),
{
    let refuse = |reason: Refusal| -> (r: (AuthState, AuthAction))
        ensures
            r == (AuthState::Finished, AuthAction::Refuse { reason }),
        { (AuthState::Finished, AuthAction::Refuse { reason }) };
    match event {
        AuthEvent::Request { auth, authorization } => {
            if !auth {
                (AuthState::AwaitFirstUser, AuthAction::FetchFirstUser)
            } else {
                let token = match &authorization {
                    None => bearer_token(None),
                    Some(v) => bearer_token(Some(v.as_slice())),
                };
                match token {
                    Err(reason) => refuse(reason),
                    Ok(token) => (AuthState::AwaitUserId, AuthAction::DecodeToken { token }),
                }
            }
        },
        AuthEvent::FirstUser { found } => match found {
            Err(_) => refuse(Refusal::InternalError),
            Ok(first) => (
                AuthState::AwaitCreatedUser { first },
                AuthAction::CreateUser { username: String::new(), max_query: 0 },
            ),
        },
        AuthEvent::UserCreated { created } => match created {
            Err(_) => refuse(Refusal::InternalError),
            Ok(fresh) => match state {
                AuthState::AwaitCreatedUser { first } => {
                    let user = match first {
                        Some(f) => f,
                        None => fresh,
                    };
                    (AuthState::Finished, AuthAction::Admit { user })
                },
                _ => refuse(Refusal::InternalError),
            },
        },
        AuthEvent::TokenDecoded { user_id } => match user_id {
            Err(_) => refuse(Refusal::AuthFailed),
            Ok(id) => (AuthState::AwaitUser, AuthAction::FetchUser { id }),
        },
        AuthEvent::UserFound { found } => match found {
            Err(_) => refuse(Refusal::DatabaseError),
            Ok(None) => refuse(Refusal::UserNotFound),
            Ok(Some(user)) => {
                if user.max_query < 0 {
                    return (AuthState::Finished, AuthAction::Admit { user });
                }
                match utc_now() {
                    Err(error) => (AuthState::Finished, AuthAction::Abort { error }),
                    Ok(now) => {
                        let r = charge_user_at(user, &now);
                        assert(charge_outcome(user, now, r));
                        r
                    },
                }
            },
        },
        AuthEvent::Charged { updated } => match updated {
            Err(_) => refuse(Refusal::InternalError),
            Ok(Some(user)) => (AuthState::Finished, AuthAction::Admit { user }),
            Ok(None) => match state {
                AuthState::AwaitCharge { id } => (AuthState::AwaitUser, AuthAction::FetchUser { id }),
                _ => refuse(Refusal::InternalError),
            },
        },
    }
}

/// Without enforced authorization, a request for which the store reports
/// no error is let through on behalf of the first stored user, or, when no
/// user is stored yet, of the user just created. A fresh user is created
/// either way.
pub proof fn lemma_open_access(
    authorization: Option<Vec<u8>>,
    first: Option<UserRecord>,
    fresh: UserRecord,
    r1: (AuthState, AuthAction),
    r2: (AuthState, AuthAction),
    r3: (AuthState, AuthAction),
)
    requires
        auth_transition(
            AuthState::Start,
            AuthEvent::Request { auth: false, authorization },
            r1,
        ),
        auth_transition(r1.0, AuthEvent::FirstUser { found: Ok(first) }, r2),
        auth_transition(r2.0, AuthEvent::UserCreated { created: Ok(fresh) }, r3),
    ensures
        r1.1 == AuthAction::FetchFirstUser,
        r2.1 is CreateUser,
        r3.1 == (AuthAction::Admit {
            user: match first {
                Some(f) => f,
                None => fresh,
            },
        }),
{
}

/// With enforced authorization, a request is refused for its quota only
/// when the user has a limit and nothing left of it: nothing remains of
/// the quota charged within the last day, or, once that day is over, the
/// limit is zero. A user without a limit is let through as found, never
/// charged and never refused. (A request of a limited user stops instead
/// when the clock cannot be read.)
pub proof fn lemma_quota_refusal(user: UserRecord, r: (AuthState, AuthAction))
    requires
        auth_transition(
            AuthState::AwaitUser,
            AuthEvent::UserFound { found: Ok(Some(user)) },
            r,
        ),
    ensures
        r.1 == (AuthAction::Refuse { reason: Refusal::LimitExceeded }) ==> exists|now: Timestamp|
            user.max_query >= 0 && crate::quota::quota_left(user, now) <= 0
                && #[trigger] charge_outcome(user, now, r),
        user.max_query < 0 ==> r == (AuthState::Finished, AuthAction::Admit { user }),
        r.1 is Admit || r.1 is SetRemain || r.1 is Abort || r.1 == (AuthAction::Refuse {
            reason: Refusal::LimitExceeded,
        }),
{
    if user.max_query >= 0 && !(r.1 is Abort) {
        let now = choose|now: Timestamp| #[trigger] charge_outcome(user, now, r);
        assert(charge_outcome(user, now, r));
    }
}

/// A request whose header carries a readable token has exactly that token
/// decoded; any other request with enforced authorization is refused as
/// unauthorized, a request without the header as missing it.
pub proof fn lemma_token_decoded(authorization: Option<Vec<u8>>, r: (AuthState, AuthAction))
    requires
        auth_transition(AuthState::Start, AuthEvent::Request { auth: true, authorization }, r),
    ensures
        token_of_header(opt_vec_view(authorization)) matches Ok(t) ==> (r.1 matches AuthAction::DecodeToken { token } && token@ == t),
        token_of_header(opt_vec_view(authorization)) matches Err(reason) ==> r == (AuthState::Finished, AuthAction::Refuse {
            reason,
        }),
        authorization is None ==> r == (AuthState::Finished, AuthAction::Refuse {
            reason: Refusal::MissingHeader,
        }),
{
}


/// The state a run of authorization steps is in before its `i`-th step.
pub open spec fn state_before(steps: Seq<(AuthState, AuthAction)>, i: int) -> AuthState {
    if i == 0 {
        AuthState::Start
    } else {
        steps[i - 1].0
    }
}

/// `steps` is what the authorization of one request gives back, step by
/// step, for the reported `events`: each event is one its state waits for.
pub open spec fn auth_run(events: Seq<AuthEvent>, steps: Seq<(AuthState, AuthAction)>) -> bool {
    &&& events.len() == steps.len()
    &&& forall|i: int|
        0 <= i < events.len() ==> auth_event_expected(#[trigger] state_before(steps, i), events[i])
            && auth_transition(state_before(steps, i), events[i], steps[i])
}

/// At step `i` a token was decoded into a user id, which is then looked up.
pub open spec fn token_accepted_at(events: Seq<AuthEvent>, steps: Seq<(AuthState, AuthAction)>, i: int) -> bool {
    events[i] matches AuthEvent::TokenDecoded { user_id: Ok(id) } && steps[i].1 == (AuthAction::FetchUser { id })
}

/// At step `j` the store reported the user looked up.
pub open spec fn user_found_at(events: Seq<AuthEvent>, j: int) -> bool {
    events[j] matches AuthEvent::UserFound { found: Ok(Some(_)) }
}

/// What holds after the first `n` steps of a run whose request enforces
/// authorization.
proof fn lemma_enforced_prefix(events: Seq<AuthEvent>, steps: Seq<(AuthState, AuthAction)>, n: int)
    requires
        auth_run(events, steps),
        1 <= n <= events.len(),
        events[0] matches AuthEvent::Request { auth, .. } && auth,
    ensures
        steps[n - 1].0 is AwaitUserId || steps[n - 1].0 is AwaitUser || steps[n - 1].0 is AwaitCharge
            || steps[n - 1].0 is Finished,
        steps[n - 1].0 is AwaitUser ==> exists|i: int|
            0 <= i < n && #[trigger] token_accepted_at(events, steps, i),
        steps[n - 1].0 is AwaitCharge || steps[n - 1].1 is Admit ==> exists|i: int, j: int|
            #![trigger token_accepted_at(events, steps, i), user_found_at(events, j)]
            0 <= i < j < n && token_accepted_at(events, steps, i) && user_found_at(events, j),
    decreases n,
{
    assert(auth_event_expected(state_before(steps, n - 1), events[n - 1]));
    if n == 1 {
        assert(state_before(steps, 0) == AuthState::Start);
    } else {
        lemma_enforced_prefix(events, steps, n - 1);
        let m = n - 1;
        assert(state_before(steps, m) == steps[m - 1].0);
        match events[m] {
            AuthEvent::TokenDecoded { user_id } => {
                if user_id is Ok {
                    assert(token_accepted_at(events, steps, m));
                }
            },
            AuthEvent::UserFound { found } => {
                if let Ok(Some(user)) = found {
                    assert(user_found_at(events, m));
                    let i = choose|i: int| 0 <= i < m && #[trigger] token_accepted_at(events, steps, i);
                    assert(token_accepted_at(events, steps, i) && user_found_at(events, m));
                    if !(steps[m].1 is Abort) {
                        let now = choose|now: Timestamp| #[trigger] charge_outcome(user, now, steps[m]);
                        assert(charge_outcome(user, now, steps[m]));
                    }
                }
            },
            AuthEvent::Charged { updated } => {
                let (i, j) = choose|i: int, j: int|
                    #![trigger token_accepted_at(events, steps, i), user_found_at(events, j)]
                    0 <= i < j < m && token_accepted_at(events, steps, i) && user_found_at(events, j);
                assert(token_accepted_at(events, steps, i) && user_found_at(events, j));
            },
            _ => {},
        }
    }
}

/// With enforced authorization, a request is let through only after its
/// token was decoded into a user id, looked up, and the store reported
/// that user.
pub proof fn lemma_admitted_only_with_valid_token(
    events: Seq<AuthEvent>,
    steps: Seq<(AuthState, AuthAction)>,
)
    requires
        auth_run(events, steps),
        events.len() >= 1,
        events[0] matches AuthEvent::Request { auth, .. } && auth,
        steps.last().1 is Admit,
    ensures
        exists|i: int, j: int|
            #![trigger token_accepted_at(events, steps, i), user_found_at(events, j)]
            0 <= i < j < events.len() && token_accepted_at(events, steps, i) && user_found_at(
                events,
                j,
            ),
{
    lemma_enforced_prefix(events, steps, events.len() as int);
}

} // verus!
