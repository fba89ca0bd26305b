//! The operations behind the control surface and the query path's policy
//! lookup.  Each captures the current instant exactly once, hands it to the
//! store, and returns it beside the result, so a caller sees precisely
//! which instant the operation was computed at and no transition compares
//! two different clock readings.

use crate::clock::now_millis;
use crate::session::{clip, Session, SessionError};
use crate::store::{names_of, spec_list_active, spec_max_id, spec_transition_outcome, Store};
use vstd::prelude::*;

verus! {

/// The milliseconds of an optional amount, zero when absent.
pub open spec fn spec_or_zero(v: Option<i64>) -> int {
    match v {
        Some(x) => x as int,
        None => 0,
    }
}

/// The duration of a new session from the optional minutes and seconds of
/// a creation request; absent parts default to zero.
pub open spec fn spec_duration_ms(minutes: Option<i64>, seconds: Option<i64>) -> i64 {
    clip(spec_or_zero(minutes) * 60000 + spec_or_zero(seconds) * 1000)
}

/// Computes a requested duration in milliseconds, saturating at the bounds
/// of `i64`.
pub fn duration_ms(minutes: Option<i64>, seconds: Option<i64>) -> (d: i64)
    ensures
        d == spec_duration_ms(minutes, seconds),
{
    let m: i64 = match minutes {
        Some(v) => v,
        None => 0,
    };
    let s: i64 = match seconds {
        Some(v) => v,
        None => 0,
    };
    let total: i128 = (m as i128) * 60000 + (s as i128) * 1000;
    if total > i64::MAX as i128 {
        i64::MAX
    } else if total < i64::MIN as i128 {
        i64::MIN
    } else {
        total as i64
    }
}

/// Handles a pause request: captures the current instant once and pauses
/// the addressed session at it.  Returns the store's answer beside the
/// captured instant.
pub fn pause(store: &mut Store, session_id: i32) -> (r: (Result<Session, SessionError>, i64))
    ensures
        0 <= r.1,
        spec_transition_outcome(
            old(store).sessions@,
            final(store).sessions@,
            r.0,
            session_id,
            |s: Session| s.spec_pause(r.1),
        ),
        final(store).users@ == old(store).users@,
        final(store).clients@ == old(store).clients@,
        final(store).domains@ == old(store).domains@,
{
    let now = now_millis();
    let res = store.pause(session_id, now);
    (res, now)
}

/// Handles an unpause request: captures the current instant once and
/// resumes the addressed session at it.  Returns the store's answer beside
/// the captured instant.
pub fn unpause(store: &mut Store, session_id: i32) -> (r: (Result<Session, SessionError>, i64))
    ensures
        0 <= r.1,
        spec_transition_outcome(
            old(store).sessions@,
            final(store).sessions@,
            r.0,
            session_id,
            |s: Session| s.spec_resume(r.1),
        ),
        final(store).users@ == old(store).users@,
        final(store).clients@ == old(store).clients@,
        final(store).domains@ == old(store).domains@,
{
    let now = now_millis();
    let res = store.resume(session_id, now);
    (res, now)
}

/// Handles a creation request: captures the current instant once and
/// inserts a session for the user, active from that instant for the
/// requested duration.
pub fn new_session(
    store: &mut Store,
    user_id: i32,
    minutes: Option<i64>,
    seconds: Option<i64>,
) -> (r: (Session, i64))
    requires
        spec_max_id(old(store).sessions@) < i32::MAX as int,
    ensures
        0 <= r.1,
        r.0 == Session::spec_new_row(
            (spec_max_id(old(store).sessions@) + 1) as i32,
            user_id,
            r.1,
            spec_duration_ms(minutes, seconds),
        ),
        final(store).sessions@ == old(store).sessions@.push(r.0),
        final(store).users@ == old(store).users@,
        final(store).clients@ == old(store).clients@,
        final(store).domains@ == old(store).domains@,
{
    let now = now_millis();
    let d = duration_ms(minutes, seconds);
    let s = store.create_session(user_id, now, d);
    (s, now)
}

/// Handles a status request: captures the current instant once and lists
/// every session active at it or due to resume with remaining time.
pub fn timers(store: &Store) -> (r: (Vec<Session>, i64))
    ensures
        0 <= r.1,
        r.0@ == spec_list_active(store.sessions@, r.1),
{
    let now = now_millis();
    let active = store.list_active(now);
    (active, now)
}

/// The policy lookup of the query path: captures the current instant once
/// and resolves the zones blocked for the query's source address at it.
pub fn blocked_zones(store: &Store, client_address: &String) -> (r: (Vec<String>, i64))
    ensures
        0 <= r.1,
        names_of(r.0@) == store.spec_blocked_zones(client_address@, r.1),
{
    let now = now_millis();
    let zones = store.resolve_blocked_zones(client_address, now);
    (zones, now)
}

} // verus!
