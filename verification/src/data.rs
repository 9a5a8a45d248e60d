//! Thread observations, tracking state, and the adaptive refresh policy.

use vstd::prelude::*;

verus! {

/// Tracking state carried from one poll tick to the next.
///
/// `notified` is the page for which a notification was last successfully
/// dispatched; `0` means no notification is active.
pub struct State {
    pub thread: Option<Thread>,
    pub notified: i32,
}

/// The latest known fact about the tracked thread.
///
/// `time` is the capture timestamp in milliseconds since the epoch;
/// `position` is the 1-based rank of the thread on its page and
/// `page_length` the total number of threads on that page.
#[derive(Debug, PartialEq, Eq)]
pub struct Thread {
    pub page: i32,
    pub no: i32,
    pub sub: String,
    pub time: i64,
    pub position: i32,
    pub page_length: i32,
    pub bumplimit: bool,
}

impl State {
    /// The initial state: no observation, no active notification.
    pub fn new() -> (s: State)
        ensures
            s.thread is None,
            s.notified == 0,
    {
        State { thread: None, notified: 0 }
    }
}

/// Full minutes elapsed from `time` to `now` (both in milliseconds):
/// the difference is rounded to the nearest whole second, then divided
/// by sixty with truncation.
pub open spec fn spec_minutes_since(time: int, now: int) -> int {
    ((now - time + 500) / 1000) / 60
}

/// The refresh threshold in minutes for a thread at `page` with the given
/// on-page placement, or `None` where a refresh is wanted on every tick.
/// On page 8 a thread still in the top half of its page
/// (`position / page_length` below one half) gets a 2-minute threshold;
/// lower on page 8, and from page 9 on, every tick refreshes.
pub open spec fn spec_refresh_threshold(page: int, position: int, page_length: int) -> Option<int> {
    if page == 1 {
        Some(15int)
    } else if page == 2 || page == 3 {
        Some(10int)
    } else if page == 4 || page == 5 {
        Some(7int)
    } else if page == 6 {
        Some(5int)
    } else if page == 7 {
        Some(3int)
    } else if page == 8 && 2 * position < page_length {
        Some(2int)
    } else {
        None
    }
}

/// Whether a thread observed as `t` warrants a fresh catalog query at `now`.
pub open spec fn spec_needs_refresh(t: Thread, now: int) -> bool {
    match spec_refresh_threshold(t.page as int, t.position as int, t.page_length as int) {
        Some(threshold) => spec_minutes_since(t.time as int, now) >= threshold,
        None => true,
    }
}

/// For every page from 1 through 7 the refresh decision holds exactly at
/// the minute granularity of the page-indexed table: a refresh is wanted
/// precisely when the elapsed whole minutes reach the page's threshold,
/// and not one minute sooner.
pub proof fn lemma_threshold_boundaries(t: Thread, now: int)
    ensures
        t.page == 1 ==> (spec_needs_refresh(t, now) <==> spec_minutes_since(t.time as int, now)
            >= 15),
        t.page == 2 || t.page == 3 ==> (spec_needs_refresh(t, now) <==> spec_minutes_since(
            t.time as int,
            now,
        ) >= 10),
        t.page == 4 || t.page == 5 ==> (spec_needs_refresh(t, now) <==> spec_minutes_since(
            t.time as int,
            now,
        ) >= 7),
        t.page == 6 ==> (spec_needs_refresh(t, now) <==> spec_minutes_since(t.time as int, now)
            >= 5),
        t.page == 7 ==> (spec_needs_refresh(t, now) <==> spec_minutes_since(t.time as int, now)
            >= 3),
{
}

/// On page 8 a thread still in the top half of its page (its rank over the
/// page's length below one half) refreshes exactly from two elapsed minutes
/// on; lower on the page it refreshes on every tick.
pub proof fn lemma_page_eight_split(t: Thread, now: int)
    requires
        t.page == 8,
    ensures
        2 * t.position < t.page_length ==> (spec_needs_refresh(t, now) <==> spec_minutes_since(
            t.time as int,
            now,
        ) >= 2),
        2 * t.position >= t.page_length ==> spec_needs_refresh(t, now),
{
}

impl Clone for Thread {
    /// An observation is duplicated without change whenever the tick carries
    /// it over instead of refreshing.
    fn clone(&self) -> (r: Self)
        ensures
            r == *self,
    {
        Thread {
            page: self.page,
            no: self.no,
            sub: self.sub.clone(),
            time: self.time,
            position: self.position,
            page_length: self.page_length,
            bumplimit: self.bumplimit,
        }
    }
}

impl Thread {
    /// The observation is internally consistent: the thread's rank lies
    /// within its page.
    pub open spec fn wf(self) -> bool {
        1 <= self.position <= self.page_length
    }

    /// Full minutes since this observation was captured, rounded to the
    /// nearest second first.
    pub fn time_in_minutes(&self, now_ms: i64) -> (m: i64)
        requires
            self.time <= now_ms,
            now_ms - self.time <= i64::MAX - 500,
        ensures
            m == spec_minutes_since(self.time as int, now_ms as int),
            m >= 0,
    {
        let elapsed_ms: i64 = now_ms - self.time;
        let seconds: i64 = (elapsed_ms + 500) / 1000;
        seconds / 60
    }

    /// Check if the thread should be refreshed from the catalog at `now_ms`.
    pub fn check_if_needs_refresh(&self, now_ms: i64) -> (b: bool)
        requires
            self.time <= now_ms,
            now_ms - self.time <= i64::MAX - 500,
        ensures
            b == spec_needs_refresh(*self, now_ms as int),
    {
        let minutes_since_refresh = self.time_in_minutes(now_ms);
        match self.page {
            1 => minutes_since_refresh >= 15,
            2 | 3 => minutes_since_refresh >= 10,
            4 | 5 => minutes_since_refresh >= 7,
            6 => minutes_since_refresh >= 5,
            7 => minutes_since_refresh >= 3,
            8 => {
                if 2 * (self.position as i64) < (self.page_length as i64) {
                    minutes_since_refresh >= 2
                } else {
                    true
                }
            },
            _ => true,
        }
    }
}

} // verus!
