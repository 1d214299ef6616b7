//! The session-credential cache and its single-flight refresh protocol.
//!
//! One `SessionCache` owns both the current session and the in-progress
//! flag, so the two are always observed and changed together. Callers hold
//! it under one lock and drive it with two steps:
//!
//! * `begin(now)` answers with the cached token while it is valid; otherwise
//!   exactly one caller is told to authenticate and every other caller is told
//!   to wait.
//! * `complete(outcome, now)` records what that one authentication returned and
//!   ends the refresh. Waiting callers then call `begin` again and read the new
//!   token.
//!
//! Time is a count of seconds on a monotonic clock, handed in by the caller.
use vstd::prelude::*;
use crate::error::Error;

verus! {

/// A session stays usable for this many seconds after it was obtained. It is
/// kept well below the server's own session lifetime, so that a request sent
/// right after the check still arrives while the session is alive.
pub const SESSION_LIFETIME_SECS: u64 = 3300;

/// A session token and the moment it was obtained.
#[derive(Debug, Clone)]
pub struct Session {
    pub token: String,
    pub created_at: u64,
}

/// The mathematical model of a `Session`.
pub struct SessionView {
    pub token: Seq<char>,
    pub created_at: int,
}

impl SessionView {
    /// A session has expired once the lifetime has passed since it was obtained.
    pub open spec fn expired_at(self, now: int) -> bool {
        now - self.created_at >= SESSION_LIFETIME_SECS
    }
}

impl View for Session {
    type V = SessionView;

    open spec fn view(&self) -> SessionView {
        SessionView { token: self.token@, created_at: self.created_at as int }
    }
}

impl Session {
    /// A session holding `token`, obtained at `created_at`.
    pub fn new(token: String, created_at: u64) -> (r: Session)
        ensures
            r@.token == token@,
            r@.created_at == created_at,
    {
        Session { token, created_at }
    }

    /// Whether the session has expired at time `now`.
    pub fn is_expired(&self, now: u64) -> (r: bool)
        ensures
            r == self@.expired_at(now as int),
    {
        now >= self.created_at && now - self.created_at >= SESSION_LIFETIME_SECS
    }
}

/// The model of the cache: the current session, if any, and whether a
/// refresh is in flight.
pub struct CacheView {
    pub session: Option<SessionView>,
    pub refreshing: bool,
}

impl CacheView {
    /// Whether the cache holds a session that is still valid at `now`.
    pub open spec fn valid_at(self, now: int) -> bool {
        self.session is Some && !self.session->0.expired_at(now)
    }
}

/// What a caller asking for a token is to do next.
#[derive(Debug)]
pub enum TokenStep {
    /// Use this token.
    Ready(String),
    /// Authenticate, then report the outcome with `SessionCache::complete`.
    Authenticate,
    /// Another caller is authenticating: wait for it, then ask again.
    Wait,
}

/// The model of a `TokenStep`.
pub enum StepView {
    Ready(Seq<char>),
    Authenticate,
    Wait,
}

impl View for TokenStep {
    type V = StepView;

    open spec fn view(&self) -> StepView {
        match self {
            TokenStep::Ready(t) => StepView::Ready(t@),
            TokenStep::Authenticate => StepView::Authenticate,
            TokenStep::Wait => StepView::Wait,
        }
    }
}

/// The state after a caller asks for a token at `now`, and what it is told.
pub open spec fn begin_spec(c: CacheView, now: int) -> (CacheView, StepView) {
    if c.valid_at(now) {
        (c, StepView::Ready(c.session->0.token))
    } else if c.refreshing {
        (c, StepView::Wait)
    } else {
        (CacheView { refreshing: true, ..c }, StepView::Authenticate)
    }
}

/// The state after the authentication outcome is recorded at `now`: a token
/// replaces the session, a failure keeps it; either way the refresh is over.
pub open spec fn complete_spec(c: CacheView, outcome: Result<Seq<char>, ()>, now: int) -> CacheView {
    match outcome {
        Ok(t) => CacheView {
            session: Some(SessionView { token: t, created_at: now }),
            refreshing: false,
        },
        Err(_) => CacheView { refreshing: false, ..c },
    }
}

/// The state and the answers after callers ask for a token at each of `times`,
/// in order, with no authentication completing in between.
pub open spec fn run_begins(c: CacheView, times: Seq<int>) -> (CacheView, Seq<StepView>)
    decreases times.len(),
{
    if times.len() == 0 {
        (c, Seq::empty())
    } else {
        let (c1, step) = begin_spec(c, times[0]);
        let (c2, rest) = run_begins(c1, times.drop_first());
        (c2, seq![step] + rest)
    }
}

/// The number of answers in `steps` that start an authentication.
pub open spec fn count_authenticate(steps: Seq<StepView>) -> nat
    decreases steps.len(),
{
    if steps.len() == 0 {
        0
    } else {
        (if steps[0] is Authenticate {
            1nat
        } else {
            0nat
        }) + count_authenticate(steps.drop_first())
    }
}

/// While a refresh is in flight and the session is not valid, every caller
/// is told to wait and the cache does not change.
proof fn lemma_all_wait(c: CacheView, times: Seq<int>)
    requires
        c.refreshing,
        forall|i: int| 0 <= i < times.len() ==> !c.valid_at(#[trigger] times[i]),
    ensures
        run_begins(c, times).0 == c,
        run_begins(c, times).1.len() == times.len(),
        forall|i: int| 0 <= i < times.len() ==> #[trigger] run_begins(c, times).1[i] == StepView::Wait,
        count_authenticate(run_begins(c, times).1) == 0,
    decreases times.len(),
{
    if times.len() > 0 {
        let rest = times.drop_first();
        assert forall|i: int| 0 <= i < rest.len() implies !c.valid_at(#[trigger] rest[i]) by {
            assert(rest[i] == times[i + 1]);
        }
        lemma_all_wait(c, rest);
        let steps = run_begins(c, times).1;
        assert(steps.drop_first() =~= run_begins(c, rest).1);
        assert forall|i: int| 0 <= i < times.len() implies #[trigger] steps[i] == StepView::Wait by {
            if i > 0 {
                assert(steps[i] == run_begins(c, rest).1[i - 1]);
            }
        }
    }
}

/// While the session is valid, callers asking for a token are each given the
/// cached token, no authentication is started, and the cache does not change.
pub proof fn lemma_fast_path(c: CacheView, times: Seq<int>)
    requires
        forall|i: int| 0 <= i < times.len() ==> c.valid_at(#[trigger] times[i]),
    ensures
        run_begins(c, times).0 == c,
        run_begins(c, times).1.len() == times.len(),
        forall|i: int|
            0 <= i < times.len() ==> #[trigger] run_begins(c, times).1[i] == StepView::Ready(
                c.session->0.token,
            ),
        count_authenticate(run_begins(c, times).1) == 0,
    decreases times.len(),
{
    if times.len() > 0 {
        let rest = times.drop_first();
        assert forall|i: int| 0 <= i < rest.len() implies c.valid_at(#[trigger] rest[i]) by {
            assert(rest[i] == times[i + 1]);
        }
        lemma_fast_path(c, rest);
        let steps = run_begins(c, times).1;
        assert(steps.drop_first() =~= run_begins(c, rest).1);
        assert forall|i: int|
            0 <= i < times.len() implies #[trigger] steps[i] == StepView::Ready(
                c.session->0.token,
            ) by {
            if i > 0 {
                assert(steps[i] == run_begins(c, rest).1[i - 1]);
            }
        }
    }
}

/// Single flight: when several callers ask for a token while the session is
/// missing or expired and no refresh is in flight, only the first is told to
/// authenticate and all the others to wait. Once that one authentication
/// completes with a token at `now`, each waiting caller that asks again
/// before the new session expires receives that same token, and no further
/// authentication is started.
pub proof fn lemma_single_flight(
    c: CacheView,
    times: Seq<int>,
    token: Seq<char>,
    now: int,
    retry_times: Seq<int>,
)
    requires
        !c.refreshing,
        times.len() > 0,
        forall|i: int| 0 <= i < times.len() ==> !c.valid_at(#[trigger] times[i]),
        forall|i: int|
            0 <= i < retry_times.len() ==> #[trigger] retry_times[i] - now
                < SESSION_LIFETIME_SECS,
    ensures
        run_begins(c, times).1.len() == times.len(),
        run_begins(c, times).1[0] == StepView::Authenticate,
        forall|i: int| 1 <= i < times.len() ==> #[trigger] run_begins(c, times).1[i] == StepView::Wait,
        count_authenticate(run_begins(c, times).1) == 1,
        run_begins(c, times).0.refreshing,
        ({
            let after = complete_spec(run_begins(c, times).0, Ok(token), now);
            &&& !after.refreshing
            &&& run_begins(after, retry_times).0 == after
            &&& forall|i: int|
                0 <= i < retry_times.len() ==> #[trigger] run_begins(after, retry_times).1[i]
                    == StepView::Ready(token)
            &&& count_authenticate(run_begins(after, retry_times).1) == 0
        }),
{
    let c1 = CacheView { refreshing: true, ..c };
    let rest = times.drop_first();
    assert(begin_spec(c, times[0]) == (c1, StepView::Authenticate));
    assert forall|i: int| 0 <= i < rest.len() implies !c1.valid_at(#[trigger] rest[i]) by {
        assert(rest[i] == times[i + 1]);
        assert(!c.valid_at(times[i + 1]));
    }
    lemma_all_wait(c1, rest);
    let steps = run_begins(c, times).1;
    assert(steps.drop_first() =~= run_begins(c1, rest).1);
    assert forall|i: int| 1 <= i < times.len() implies #[trigger] steps[i] == StepView::Wait by {
        assert(steps[i] == run_begins(c1, rest).1[i - 1]);
    }
    let after = complete_spec(run_begins(c, times).0, Ok(token), now);
    assert forall|i: int| 0 <= i < retry_times.len() implies after.valid_at(
        #[trigger] retry_times[i],
    ) by {
        assert(retry_times[i] - now < SESSION_LIFETIME_SECS);
    }
    lemma_fast_path(after, retry_times);
}

/// The expiry boundary: a session obtained at time T is still valid at
/// T + (lifetime - 1) and has expired at T + lifetime and at any later time.
pub proof fn lemma_expiry_boundary(s: SessionView, later: int)
    requires
        later >= SESSION_LIFETIME_SECS,
    ensures
        !s.expired_at(s.created_at + SESSION_LIFETIME_SECS - 1),
        s.expired_at(s.created_at + SESSION_LIFETIME_SECS),
        s.expired_at(s.created_at + later),
{
}

/// Logging out twice does not disturb the session cache. A logout only asks
/// the cache for a token before it sends its request, and asking never
/// removes or alters the cached session. While that session is valid, both
/// logouts are handed its token and the cache is left exactly as it was.
pub proof fn lemma_logout_twice(c: CacheView, first: int, second: int)
    ensures
        run_begins(c, seq![first, second]).0.session == c.session,
        c.valid_at(first) && c.valid_at(second) ==> {
            &&& run_begins(c, seq![first, second]).0 == c
            &&& run_begins(c, seq![first, second]).1 == seq![
                StepView::Ready(c.session->0.token),
                StepView::Ready(c.session->0.token),
            ]
        },
{
    reveal_with_fuel(run_begins, 3);
    let times = seq![first, second];
    assert(times.drop_first() =~= seq![second]);
    assert(seq![second].drop_first() =~= Seq::<int>::empty());
    if c.valid_at(first) && c.valid_at(second) {
        assert(run_begins(c, times).1 =~= seq![
            StepView::Ready(c.session->0.token),
            StepView::Ready(c.session->0.token),
        ]);
    }
}

/// The session cache and refresh coordinator of one client.
#[derive(Debug)]
pub struct SessionCache {
    session: Option<Session>,
    refreshing: bool,
}

impl View for SessionCache {
    type V = CacheView;

    closed spec fn view(&self) -> CacheView {
        CacheView {
            session: match self.session {
                Some(s) => Some(s@),
                None => None,
            },
            refreshing: self.refreshing,
        }
    }
}

impl SessionCache {
    /// An empty cache: the first caller to ask for a token authenticates.
    pub fn new() -> (r: SessionCache)
        ensures
            r@.session is None,
            !r@.refreshing,
    {
        SessionCache { session: None, refreshing: false }
    }

    /// Whether an authentication is in flight.
    pub fn is_refreshing(&self) -> (r: bool)
        ensures
            r == self@.refreshing,
    {
        self.refreshing
    }

    /// The cached token, valid or not.
    pub fn current_token(&self) -> (r: Option<String>)
        ensures
            match r {
                Some(t) => self@.session is Some && t@ == self@.session->0.token,
                None => self@.session is None,
            },
    {
        match &self.session {
            Some(s) => Some(s.token.clone()),
            None => None,
        }
    }

    /// A caller asks for a token at time `now`.
    ///
    /// While the session is valid this returns its token and changes nothing.
    /// Otherwise the first caller is told to authenticate and the cache
    /// records that a refresh is in flight; every caller after it, until the
    /// refresh completes, is told to wait.
    pub fn begin(&mut self, now: u64) -> (step: TokenStep)
        ensures
            (final(self)@, step@) == begin_spec(old(self)@, now as int),
    {
        let valid = match &self.session {
            Some(s) => !s.is_expired(now),
            None => false,
        };
        if valid {
            match &self.session {
                Some(s) => TokenStep::Ready(s.token.clone()),
                None => TokenStep::Wait,
            }
        } else if self.refreshing {
            TokenStep::Wait
        } else {
            self.refreshing = true;
            TokenStep::Authenticate
        }
    }

    /// Records the outcome of the authentication that `begin` asked for,
    /// finished at time `now`, and ends the refresh.
    ///
    /// A new token replaces the session and is returned; a failure keeps the
    /// previous session and is returned as it came.
    pub fn complete(&mut self, outcome: Result<String, Error>, now: u64) -> (r: Result<String, Error>)
        ensures
            final(self)@ == complete_spec(
                old(self)@,
                match outcome {
                    Ok(t) => Ok(t@),
                    Err(_) => Err(()),
                },
                now as int,
            ),
            r == outcome,
    {
        match outcome {
            Ok(token) => {
                self.session = Some(Session::new(token.clone(), now));
                self.refreshing = false;
                Ok(token)
            },
            Err(e) => {
                self.refreshing = false;
                Err(e)
            },
        }
    }
}

} // verus!
