//! The notification state machine and the per-tick state threading.
//!
//! The poll loop itself lives outside the library: each tick it asks
//! [`needs_refresh`] whether to re-query the catalog, reports the outcome of
//! that query as a [`FetchOutcome`], asks [`decide`] whether a notification
//! must be dispatched, performs the dispatch, and finally lets [`check`]
//! compute the state carried into the next tick.

use vstd::prelude::*;
use crate::data::spec_needs_refresh;
use crate::data::State;
use crate::data::Thread;

verus! {

/// Command-line configuration, as plain values.
///
/// `board` and `title` select the thread to track; `no_bump_limit`
/// suppresses alerts once the thread has reached its bump limit; the two
/// optional keys select the push transport when both are present.
pub struct PagenineArgs {
    pub board: String,
    pub title: String,
    pub no_bump_limit: bool,
    pub pushover_application_api_token: Option<String>,
    pub pushover_user_key: Option<String>,
}

/// What a catalog query performed this tick reported.
pub enum FetchOutcome {
    /// The query itself failed (network, protocol, decoding); nothing new
    /// is known about the thread.
    Failed,
    /// The catalog was fetched but holds no matching thread.
    NoMatch,
    /// The catalog was fetched and the thread was found.
    Found(Thread),
}

/// What this tick should act on, resolved from the prior state and the
/// outcome of the optional catalog query.
pub enum TickObservation {
    /// Keep the prior state untouched (the query failed).
    KeepState,
    /// Reset to the initial state (the thread is gone from the catalog).
    ResetState,
    /// Feed this observation into the notification state machine.
    Observed(Thread),
}

/// Whether a fresh catalog query is warranted: always when nothing has been
/// observed yet, otherwise by the page-indexed threshold table.
pub open spec fn spec_needs_refresh_opt(thread: Option<Thread>, now: int) -> bool {
    match thread {
        None => true,
        Some(t) => spec_needs_refresh(t, now),
    }
}

/// Whether a notification must be dispatched this tick: the thread sits at
/// page 9 or beyond, that exact page has not already been notified, and the
/// bump-limit opt-out does not apply.
pub open spec fn spec_should_notify(notified: int, t: Thread, no_bump_limit: bool) -> bool {
    t.page >= 9 && !(no_bump_limit && t.bumplimit) && t.page != notified
}

/// The notified page carried into the next tick. Below page 9 any
/// notification lock is released; at page 9 and beyond the page is recorded
/// only when a notification was due and its dispatch succeeded, so a failed
/// dispatch is retried on the next tick at the same page.
pub open spec fn spec_next_notified(
    notified: int,
    t: Thread,
    no_bump_limit: bool,
    dispatch_succeeded: bool,
) -> int {
    if t.page < 9 {
        0
    } else if spec_should_notify(notified, t, no_bump_limit) {
        if dispatch_succeeded {
            t.page as int
        } else {
            notified
        }
    } else {
        notified
    }
}

/// How a tick resolves the prior state and the outcome of the optional
/// catalog query into something to act on. `None` stands for a tick where no
/// refresh was performed and the prior observation is carried over.
pub open spec fn spec_resolve(state: State, fetched: Option<FetchOutcome>) -> TickObservation {
    match fetched {
        Some(FetchOutcome::Failed) => TickObservation::KeepState,
        Some(FetchOutcome::NoMatch) => TickObservation::ResetState,
        Some(FetchOutcome::Found(t)) => TickObservation::Observed(t),
        None => match state.thread {
            Some(t) => TickObservation::Observed(t),
            None => TickObservation::ResetState,
        },
    }
}

/// The full state carried out of a tick, given everything the outside world
/// contributed to it: the catalog query's outcome (if one was made) and
/// whether a dispatched notification succeeded (consulted only where a
/// notification was due).
pub open spec fn spec_check(
    state: State,
    fetched: Option<FetchOutcome>,
    no_bump_limit: bool,
    dispatch_succeeded: bool,
) -> State {
    match spec_resolve(state, fetched) {
        TickObservation::KeepState => state,
        TickObservation::ResetState => State { thread: None, notified: 0 },
        TickObservation::Observed(t) => State {
            thread: Some(t),
            notified: spec_next_notified(
                state.notified as int,
                t,
                no_bump_limit,
                dispatch_succeeded,
            ) as i32,
        },
    }
}

/// A tracking state the poll loop can reach: the recorded page is 0 (no
/// active notification) or a page at or past the alert threshold.
pub open spec fn spec_state_inv(s: State) -> bool {
    s.notified == 0 || s.notified >= 9
}

/// Every tick preserves the tracking-state invariant: the machine only ever
/// records page 0 or a page at or past the alert threshold, whatever the
/// catalog query and the notification transport reported.
pub proof fn lemma_check_preserves_inv(
    state: State,
    fetched: Option<FetchOutcome>,
    no_bump_limit: bool,
    dispatch_succeeded: bool,
)
    requires
        spec_state_inv(state),
    ensures
        spec_state_inv(spec_check(state, fetched, no_bump_limit, dispatch_succeeded)),
{
}

/// At page 9 or beyond, and when nothing has been observed yet, a refresh
/// is always wanted.
pub proof fn lemma_always_refresh(thread: Option<Thread>, now: int)
    requires
        match thread {
            Some(t) => t.page >= 9,
            None => true,
        },
    ensures
        spec_needs_refresh_opt(thread, now),
{
}

/// Notifications are idempotent per page: once the observed page has been
/// recorded as notified, no further notification is due while the thread
/// stays at that page, and the recorded page stays unchanged — whatever a
/// dispatch before or now reported.
pub proof fn lemma_notification_idempotent(
    notified: int,
    t: Thread,
    no_bump_limit: bool,
    dispatch_succeeded: bool,
)
    requires
        t.page >= 9,
        notified == t.page,
    ensures
        !spec_should_notify(notified, t, no_bump_limit),
        spec_next_notified(notified, t, no_bump_limit, dispatch_succeeded) == notified,
{
}

/// An observation below page 9 releases any notification lock: whatever
/// page was recorded before, no notification is due and the recorded page
/// drops to 0.
pub proof fn lemma_page_drop_resets(
    notified: int,
    t: Thread,
    no_bump_limit: bool,
    dispatch_succeeded: bool,
)
    requires
        t.page < 9,
    ensures
        !spec_should_notify(notified, t, no_bump_limit),
        spec_next_notified(notified, t, no_bump_limit, dispatch_succeeded) == 0,
{
}

/// With the bump-limit opt-out set, a thread that has exhausted its bumps
/// never triggers a notification, even at page 9 or beyond, and the
/// recorded page stays unchanged — so a repeated tick suppresses again.
pub proof fn lemma_bump_limit_suppression(notified: int, t: Thread, dispatch_succeeded: bool)
    requires
        t.page >= 9,
        t.bumplimit,
    ensures
        !spec_should_notify(notified, t, true),
        spec_next_notified(notified, t, true, dispatch_succeeded) == notified,
{
}

/// `s` with every leading slash removed.
pub open spec fn drop_leading_slashes(s: Seq<char>) -> Seq<char>
    decreases s.len(),
{
    if s.len() > 0 && s[0] == '/' {
        drop_leading_slashes(s.subrange(1, s.len() as int))
    } else {
        s
    }
}

/// `s` with every trailing slash removed.
pub open spec fn drop_trailing_slashes(s: Seq<char>) -> Seq<char>
    decreases s.len(),
{
    if s.len() > 0 && s[s.len() - 1] == '/' {
        drop_trailing_slashes(s.subrange(0, s.len() - 1))
    } else {
        s
    }
}

/// `s` with every leading and trailing slash removed.
pub open spec fn spec_trim_slashes(s: Seq<char>) -> Seq<char> {
    drop_trailing_slashes(drop_leading_slashes(s))
}

proof fn lemma_drop_leading(s: Seq<char>, f: int)
    requires
        0 <= f <= s.len(),
        forall|k: int| 0 <= k < f ==> s[k] == '/',
        f == s.len() || s[f] != '/',
    ensures
        drop_leading_slashes(s) == s.subrange(f, s.len() as int),
    decreases f,
{
    if f == 0 {
        assert(s.subrange(0, s.len() as int) =~= s);
    } else {
        let s1 = s.subrange(1, s.len() as int);
        lemma_drop_leading(s1, f - 1);
        assert(s1.subrange(f - 1, s1.len() as int) =~= s.subrange(f, s.len() as int));
    }
}

proof fn lemma_drop_trailing(s: Seq<char>, e: int)
    requires
        0 <= e <= s.len(),
        forall|k: int| e <= k < s.len() ==> s[k] == '/',
        e == 0 || s[e - 1] != '/',
    ensures
        drop_trailing_slashes(s) == s.subrange(0, e),
    decreases s.len(),
{
    if e == s.len() {
        assert(s.subrange(0, e) =~= s);
    } else {
        let s1 = s.subrange(0, s.len() - 1);
        lemma_drop_trailing(s1, e);
        assert(s1.subrange(0, e) =~= s.subrange(0, e));
    }
}

/// Normalize a board identifier by stripping any leading and trailing
/// slashes; every input is accepted.
pub fn validate_board(value: &str) -> (r: Result<String, String>)
    ensures
        r matches Ok(b) && b@ == spec_trim_slashes(value@),
{
    let len = value.unicode_len();
    let mut start: usize = 0;
    while start < len && value.get_char(start) == '/'
        invariant
            len == value@.len(),
            0 <= start <= len,
            forall|k: int| 0 <= k < start ==> value@[k] == '/',
        decreases len - start,
    {
        start += 1;
    }
    let mut end: usize = len;
    while end > start && value.get_char(end - 1) == '/'
        invariant
            len == value@.len(),
            start <= end <= len,
            forall|k: int| end <= k < len ==> value@[k] == '/',
        decreases end,
    {
        end -= 1;
    }
    let trimmed = value.substring_char(start, end);
    proof {
        lemma_drop_leading(value@, start as int);
        let mid = value@.subrange(start as int, value@.len() as int);
        assert forall|k: int| end - start <= k < mid.len() implies mid[k] == '/' by {
            assert(value@[start + k] == '/');
        }
        lemma_drop_trailing(mid, end - start);
        assert(mid.subrange(0, end - start) =~= value@.subrange(start as int, end as int));
    }
    Ok(trimmed.to_owned())
}

/// Whether the catalog should be re-queried this tick.
pub fn needs_refresh(thread: &Option<Thread>, now_ms: i64) -> (b: bool)
    requires
        match thread {
            Some(t) => t.time <= now_ms && now_ms - t.time <= i64::MAX - 500,
            None => true,
        },
    ensures
        b == spec_needs_refresh_opt(*thread, now_ms as int),
{
    match thread {
        None => true,
        Some(t) => t.check_if_needs_refresh(now_ms),
    }
}

/// Resolve the prior state and this tick's query outcome into what the tick
/// acts on.
pub fn resolve_observation(state: &State, fetched: &Option<FetchOutcome>) -> (r: TickObservation)
    ensures
        r == spec_resolve(*state, *fetched),
{
    match fetched {
        Some(FetchOutcome::Failed) => TickObservation::KeepState,
        Some(FetchOutcome::NoMatch) => TickObservation::ResetState,
        Some(FetchOutcome::Found(t)) => TickObservation::Observed(t.clone()),
        None => match &state.thread {
            Some(t) => TickObservation::Observed(t.clone()),
            None => TickObservation::ResetState,
        },
    }
}

/// Whether a notification must be dispatched for `thread` this tick.
pub fn decide(state: &State, thread: &Thread, no_bump_limit: bool) -> (b: bool)
    ensures
        b == spec_should_notify(state.notified as int, *thread, no_bump_limit),
{
    thread.page >= 9 && !(no_bump_limit && thread.bumplimit) && thread.page != state.notified
}

/// Record an observation and the outcome of this tick's notification
/// decision. `dispatch_succeeded` reports the transport's verdict for the
/// dispatch that [`decide`] called for; it is ignored where none was due.
pub fn notify(state: State, thread: Thread, no_bump_limit: bool, dispatch_succeeded: bool) -> (s:
    State)
    ensures
        s.thread == Some(thread),
        s.notified as int == spec_next_notified(
            state.notified as int,
            thread,
            no_bump_limit,
            dispatch_succeeded,
        ),
{
    let notified: i32 = if thread.page >= 9 && !(no_bump_limit && thread.bumplimit)
        && thread.page != state.notified {
        if dispatch_succeeded {
            thread.page
        } else {
            state.notified
        }
    } else if thread.page < 9 {
        0
    } else {
        state.notified
    };
    State { thread: Some(thread), notified }
}

/// One tick's complete state threading: a failed query keeps the prior state
/// untouched, a query that found no match resets tracking, and an
/// observation (fresh or carried over) runs the notification state machine.
pub fn check(
    state: State,
    fetched: Option<FetchOutcome>,
    no_bump_limit: bool,
    dispatch_succeeded: bool,
) -> (s: State)
    ensures
        s == spec_check(state, fetched, no_bump_limit, dispatch_succeeded),
{
    let State { thread: prior_thread, notified: prior_notified } = state;
    match fetched {
        Some(FetchOutcome::Failed) => State { thread: prior_thread, notified: prior_notified },
        Some(FetchOutcome::NoMatch) => State::new(),
        Some(FetchOutcome::Found(t)) => notify(
            State { thread: prior_thread, notified: prior_notified },
            t,
            no_bump_limit,
            dispatch_succeeded,
        ),
        None => match prior_thread {
            Some(t) => notify(
                State { thread: None, notified: prior_notified },
                t,
                no_bump_limit,
                dispatch_succeeded,
            ),
            None => State::new(),
        },
    }
}

} // verus!
