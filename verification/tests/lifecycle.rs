use blockdns::control;
use blockdns::session::{EndDuration, Session, SessionError, SessionState};
use blockdns::store::Store;

fn store_with(sessions: Vec<Session>) -> Store {
    Store { users: vec![], clients: vec![], domains: vec![], sessions }
}

fn active_session(id: i32, end: i64) -> Session {
    Session { id, user_id: 1, end_timestamp: Some(end), time_left: None }
}

fn paused_session(id: i32, left: i64) -> Session {
    Session { id, user_id: 1, end_timestamp: None, time_left: Some(EndDuration(left)) }
}

fn exactly_one_populated(s: &Session) {
    assert_eq!(s.end_timestamp.is_some(), s.time_left.is_none());
}

#[test]
fn create_populates_exactly_one_field() {
    let mut store = store_with(vec![]);
    let s = store.create_session(7, 1_000, 60_000);
    exactly_one_populated(&s);
    assert_eq!(s.user_id, 7);
    assert_eq!(s.end_timestamp, Some(61_000));
    assert_eq!(s.time_left, None);
}

#[test]
fn pause_and_resume_each_populate_exactly_one_field() {
    let mut store = store_with(vec![active_session(1, 500_000)]);
    let paused = store.pause(1, 100_000).unwrap();
    exactly_one_populated(&paused);
    let resumed = store.resume(1, 100_000).unwrap();
    exactly_one_populated(&resumed);
}

#[test]
fn pause_then_resume_with_no_time_elapsed_restores_end_timestamp() {
    let mut store = store_with(vec![active_session(4, 800_000)]);
    let now = 123_456;
    store.pause(4, now).unwrap();
    let back = store.resume(4, now).unwrap();
    assert_eq!(back.end_timestamp, Some(800_000));
    assert_eq!(back.time_left, None);
}

#[test]
fn pause_stores_the_remaining_duration() {
    let mut store = store_with(vec![active_session(2, 10_000)]);
    let paused = store.pause(2, 4_000).unwrap();
    assert_eq!(paused.end_timestamp, None);
    assert_eq!(paused.time_left, Some(EndDuration(6_000)));
}

#[test]
fn pause_after_the_end_stores_a_negative_remainder() {
    let mut store = store_with(vec![active_session(2, 10_000)]);
    let paused = store.pause(2, 11_000).unwrap();
    assert_eq!(paused.time_left, Some(EndDuration(-1_000)));
}

#[test]
fn resume_honors_the_stored_duration() {
    let mut store = store_with(vec![paused_session(3, 5_000)]);
    let now = 2_000_000;
    let resumed = store.resume(3, now).unwrap();
    assert_eq!(resumed.end_timestamp, Some(now + 5_000));
    assert_eq!(resumed.time_left, None);
    assert_eq!(resumed.state(now), SessionState::Active { end_timestamp: now + 5_000 });
}

#[test]
fn resume_of_an_overdue_pause_is_immediately_expired() {
    let mut store = store_with(vec![paused_session(3, -1_000)]);
    let now = 50_000;
    let resumed = store.resume(3, now).unwrap();
    assert_eq!(resumed.end_timestamp, Some(now - 1_000));
    assert!(resumed.end_timestamp.unwrap() <= now);
    assert!(!resumed.is_active(now));
    assert_eq!(resumed.state(now), SessionState::Expired);
}

#[test]
fn pause_of_a_paused_session_is_a_no_op() {
    let before = paused_session(5, 7_000);
    let mut store = store_with(vec![before]);
    let after = store.pause(5, 999).unwrap();
    assert_eq!(after, before);
    assert_eq!(store.sessions[0], before);
}

#[test]
fn resume_of_an_active_session_is_a_no_op() {
    let before = active_session(6, 44_000);
    let mut store = store_with(vec![before]);
    let after = store.resume(6, 999).unwrap();
    assert_eq!(after, before);
    assert_eq!(store.sessions[0], before);
}

#[test]
fn operations_on_a_missing_id_report_not_found() {
    let mut store = store_with(vec![active_session(1, 10)]);
    assert_eq!(store.get(2), Err(SessionError::NotFound));
    assert_eq!(store.pause(2, 0), Err(SessionError::NotFound));
    assert_eq!(store.resume(2, 0), Err(SessionError::NotFound));
    assert_eq!(store.get(1), Ok(active_session(1, 10)));
}

#[test]
fn created_ids_count_up_from_the_greatest() {
    let mut store = store_with(vec![active_session(3, 10), active_session(1, 20)]);
    let s = store.create_session(9, 0, 0);
    assert_eq!(s.id, 4);
    let t = store.create_session(9, 0, 0);
    assert_eq!(t.id, 5);
}

#[test]
fn create_with_zero_duration_ends_at_now() {
    let mut store = store_with(vec![]);
    let now = 77_000;
    let s = store.create_session(1, now, 0);
    assert_eq!(s.end_timestamp, Some(now));
    assert!(!s.is_active(now));
}

#[test]
fn list_active_keeps_running_and_pending_sessions_only() {
    let now = 100_000;
    let running = active_session(1, now + 1);
    let ended_now = active_session(2, now);
    let ended_before = active_session(3, now - 5);
    let pending = paused_session(4, 1);
    let spent_pause = paused_session(5, 0);
    let overdue_pause = paused_session(6, -2_000);
    let store = store_with(vec![
        running,
        ended_now,
        ended_before,
        pending,
        spent_pause,
        overdue_pause,
    ]);
    let listed = store.list_active(now);
    assert_eq!(listed, vec![running, pending]);
}

#[test]
fn requested_durations_combine_minutes_and_seconds() {
    assert_eq!(control::duration_ms(Some(1), Some(2)), 62_000);
    assert_eq!(control::duration_ms(None, Some(30)), 30_000);
    assert_eq!(control::duration_ms(Some(2), None), 120_000);
    assert_eq!(control::duration_ms(None, None), 0);
    assert_eq!(control::duration_ms(Some(i64::MAX), None), i64::MAX);
    assert_eq!(control::duration_ms(Some(i64::MIN), Some(i64::MIN)), i64::MIN);
}

#[test]
fn control_operations_capture_one_non_negative_instant() {
    let mut store = store_with(vec![]);
    let (created, at) = control::new_session(&mut store, 7, Some(1), None);
    assert!(at >= 0);
    assert_eq!(created.end_timestamp, Some(at + 60_000));
    assert_eq!(created.time_left, None);

    let (paused, pat) = control::pause(&mut store, created.id);
    assert!(pat >= at);
    let paused = paused.unwrap();
    assert_eq!(paused.end_timestamp, None);
    assert_eq!(paused.time_left, Some(EndDuration(at + 60_000 - pat)));

    let (resumed, rat) = control::unpause(&mut store, created.id);
    let resumed = resumed.unwrap();
    assert_eq!(resumed.end_timestamp, Some(rat + (at + 60_000 - pat)));

    let (listed, lat) = control::timers(&store);
    assert!(lat >= rat);
    if resumed.end_timestamp.unwrap() > lat {
        assert_eq!(listed, vec![resumed]);
    }
}
