use pagenine::data::State;
use pagenine::data::Thread;

fn thread_at(page: i32, seconds_ago: i64) -> (Thread, i64) {
    let now_ms: i64 = 10_000_000;
    let thread = Thread {
        page,
        no: 1,
        sub: String::new(),
        time: now_ms - seconds_ago * 1000,
        position: 1,
        page_length: 2,
        bumplimit: false,
    };
    (thread, now_ms)
}

fn page_8_thread(position: i32, seconds_ago: i64) -> (Thread, i64) {
    let now_ms: i64 = 10_000_000;
    let thread = Thread {
        page: 8,
        no: 1,
        sub: String::new(),
        time: now_ms - seconds_ago * 1000,
        position,
        page_length: 20,
        bumplimit: false,
    };
    (thread, now_ms)
}

#[test]
fn state_new() {
    let state = State::new();
    assert!(state.thread.is_none());
    assert_eq!(state.notified, 0);
}

#[test]
fn refresh_under_page_1_threshold() {
    let (thread, now_ms) = thread_at(1, 885);
    assert_eq!(thread.check_if_needs_refresh(now_ms), false);
}

#[test]
fn refresh_over_page_1_threshold() {
    let (thread, now_ms) = thread_at(1, 966);
    assert_eq!(thread.check_if_needs_refresh(now_ms), true);
}

#[test]
fn refresh_under_page_2_threshold() {
    let (thread, now_ms) = thread_at(2, 557);
    assert_eq!(thread.check_if_needs_refresh(now_ms), false);
}

#[test]
fn refresh_over_page_3_threshold() {
    let (thread, now_ms) = thread_at(3, 600);
    assert_eq!(thread.check_if_needs_refresh(now_ms), true);
}

#[test]
fn refresh_under_page_4_threshold() {
    let (thread, now_ms) = thread_at(4, 9);
    assert_eq!(thread.check_if_needs_refresh(now_ms), false);
}

#[test]
fn refresh_over_page_5_threshold() {
    let (thread, now_ms) = thread_at(5, 421);
    assert_eq!(thread.check_if_needs_refresh(now_ms), true);
}

#[test]
fn refresh_under_page_6_threshold() {
    let (thread, now_ms) = thread_at(6, 299);
    assert_eq!(thread.check_if_needs_refresh(now_ms), false);
}

#[test]
fn refresh_over_page_6_threshold() {
    let (thread, now_ms) = thread_at(6, 333);
    assert_eq!(thread.check_if_needs_refresh(now_ms), true);
}

#[test]
fn refresh_under_page_7_threshold() {
    let (thread, now_ms) = thread_at(7, 65);
    assert_eq!(thread.check_if_needs_refresh(now_ms), false);
}

#[test]
fn refresh_over_page_7_threshold() {
    let (thread, now_ms) = thread_at(7, 210);
    assert_eq!(thread.check_if_needs_refresh(now_ms), true);
}

#[test]
fn refresh_page_9_always() {
    let (thread, now_ms) = thread_at(9, 15);
    assert_eq!(thread.check_if_needs_refresh(now_ms), true);
}

#[test]
fn refresh_page_8_top_half_under_threshold() {
    let (thread, now_ms) = page_8_thread(6, 88);
    assert_eq!(thread.check_if_needs_refresh(now_ms), false);
}

#[test]
fn refresh_page_8_top_half_over_threshold() {
    let (thread, now_ms) = page_8_thread(8, 130);
    assert_eq!(thread.check_if_needs_refresh(now_ms), true);
}

#[test]
fn refresh_page_8_bottom_half_always() {
    let (thread, now_ms) = page_8_thread(10, 10);
    assert_eq!(thread.check_if_needs_refresh(now_ms), true);
}

#[test]
fn refresh_page_6_exact_boundary() {
    let (thread, now_ms) = thread_at(6, 299);
    assert_eq!(thread.check_if_needs_refresh(now_ms), false);
    let (thread, now_ms) = thread_at(6, 300);
    assert_eq!(thread.check_if_needs_refresh(now_ms), true);
}

#[test]
fn refresh_page_1_exact_boundary() {
    let (thread, now_ms) = thread_at(1, 14 * 60);
    assert_eq!(thread.check_if_needs_refresh(now_ms), false);
    let (thread, now_ms) = thread_at(1, 15 * 60);
    assert_eq!(thread.check_if_needs_refresh(now_ms), true);
}

#[test]
fn minutes_under_closest_minute() {
    let (thread, now_ms) = thread_at(1, 276);
    assert_eq!(thread.time_in_minutes(now_ms), 4);
}

#[test]
fn minutes_even_minute() {
    let (thread, now_ms) = thread_at(1, 300);
    assert_eq!(thread.time_in_minutes(now_ms), 5);
}

#[test]
fn minutes_over_closest_minute() {
    let (thread, now_ms) = thread_at(1, 305);
    assert_eq!(thread.time_in_minutes(now_ms), 5);
}

#[test]
fn minutes_round_half_up() {
    let thread = Thread {
        page: 1,
        no: 1,
        sub: String::new(),
        time: 0,
        position: 1,
        page_length: 2,
        bumplimit: false,
    };
    assert_eq!(thread.time_in_minutes(899_499), 14);
    assert_eq!(thread.time_in_minutes(899_500), 15);
}

#[test]
fn thread_clone_keeps_fields() {
    let thread = Thread {
        page: 3,
        no: 42,
        sub: String::from("general"),
        time: 1234,
        position: 5,
        page_length: 15,
        bumplimit: true,
    };
    assert_eq!(thread.clone(), thread);
}
