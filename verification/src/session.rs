//! The session lifecycle state machine.
//!
//! A session stores at most one of two nullable fields: `end_timestamp`
//! (blocking is in force until that instant) and `time_left` (blocking is
//! paused and this much is left to honor on resume).  With both fields null
//! the session is spent.  All times are UTC wall-clock milliseconds; all
//! durations are signed milliseconds.

use vstd::prelude::*;

verus! {

/// Why a lifecycle operation keyed by session id failed.  An operation on a
/// session that is already in the requested phase is not a failure: it is an
/// idempotent no-op.
#[derive(Clone, Copy, Debug, PartialEq, Eq, Structural)]
pub enum SessionError {
    /// No session row carries the requested id.
    NotFound,
}

/// A duration in signed integer milliseconds, the unit in which the store
/// persists remaining time.  It may be negative: a session paused after its
/// end keeps a negative remainder, which resumes to an already-expired end.
#[derive(Clone, Copy, Debug, PartialEq, Eq)]
pub struct EndDuration(pub i64);

/// One user's blocking session.  `end_timestamp` is UTC milliseconds.
#[derive(Clone, Copy, Debug, PartialEq, Eq)]
pub struct Session {
    pub id: i32,
    pub user_id: i32,
    pub end_timestamp: Option<i64>,
    pub time_left: Option<EndDuration>,
}

/// The state of a session at a given instant, derived from which nullable
/// field is populated and whether the end lies in the future.  There is no
/// stored state field; this variant is derived once per operation.
#[derive(Clone, Copy, Debug, PartialEq, Eq)]
pub enum SessionState {
    /// Blocking is in force until `end_timestamp`.
    Active { end_timestamp: i64 },
    /// Blocking is suspended; `time_left` is owed on resume.
    Paused { time_left: i64 },
    /// Blocking is not in force and nothing is owed.
    Expired,
}

/// `x` clamped to the range of `i64`.
pub open spec fn clip(x: int) -> i64 {
    if x > i64::MAX as int {
        i64::MAX
    } else if x < i64::MIN as int {
        i64::MIN
    } else {
        x as i64
    }
}

/// `a + b` saturating at the bounds of `i64`.
pub fn sat_add(a: i64, b: i64) -> (r: i64)
    ensures
        r == clip(a + b),
{
    match a.checked_add(b) {
        Some(v) => v,
        None => if b >= 0 {
            i64::MAX
        } else {
            i64::MIN
        },
    }
}

/// `a - b` saturating at the bounds of `i64`.
pub fn sat_sub(a: i64, b: i64) -> (r: i64)
    ensures
        r == clip(a - b),
{
    match a.checked_sub(b) {
        Some(v) => v,
        None => if b >= 0 {
            i64::MIN
        } else {
            i64::MAX
        },
    }
}

impl Session {
    /// Exactly one of the two nullable fields is populated.  Sessions made
    /// by [`Session::new_row`] satisfy this, and pause and resume keep it.
    pub open spec fn wf(self) -> bool {
        (self.end_timestamp is Some) <==> (self.time_left is None)
    }

    /// Blocking is in force: the end is set and lies strictly in the future.
    /// A session ending exactly at `now` is no longer active.
    pub open spec fn active_at(self, now: i64) -> bool {
        match self.end_timestamp {
            Some(end) => end > now,
            None => false,
        }
    }

    /// The session is active, or paused with a strictly positive remainder:
    /// blocking is or will resume being in force.
    pub open spec fn listed_at(self, now: i64) -> bool {
        self.active_at(now) || match self.time_left {
            Some(EndDuration(left)) => left > 0,
            None => false,
        }
    }

    /// The state derived at instant `now`.
    pub open spec fn state_at(self, now: i64) -> SessionState {
        match self.end_timestamp {
            Some(end) => if end > now {
                SessionState::Active { end_timestamp: end }
            } else {
                SessionState::Expired
            },
            None => match self.time_left {
                Some(EndDuration(left)) => SessionState::Paused { time_left: left },
                None => SessionState::Expired,
            },
        }
    }

    /// The pause transition.  Effectful only while the end is set: the
    /// remainder `end - now` (negative if the end has already passed) moves
    /// into `time_left` and the end is cleared.  Otherwise the session is
    /// returned unchanged.
    pub open spec fn spec_pause(self, now: i64) -> Session {
        match self.end_timestamp {
            Some(end) => Session {
                end_timestamp: None,
                time_left: Some(EndDuration(clip(end - now))),
                ..self
            },
            None => self,
        }
    }

    /// The resume transition.  Effectful only while a remainder is stored:
    /// the end becomes `now + time_left` and the remainder is cleared.
    /// Otherwise the session is returned unchanged.
    pub open spec fn spec_resume(self, now: i64) -> Session {
        match self.time_left {
            Some(EndDuration(left)) => Session {
                end_timestamp: Some(clip(now + left)),
                time_left: None,
                ..self
            },
            None => self,
        }
    }

    /// A fresh session row: active from `now` for `duration_ms`.
    pub open spec fn spec_new_row(id: i32, user_id: i32, now: i64, duration_ms: i64) -> Session {
        Session {
            id,
            user_id,
            end_timestamp: Some(clip(now + duration_ms)),
            time_left: None,
        }
    }

    /// Builds a fresh session row: active from `now` for `duration_ms`.
    pub fn new_row(id: i32, user_id: i32, now: i64, duration_ms: i64) -> (s: Session)
        ensures
            s == Self::spec_new_row(id, user_id, now, duration_ms),
            s.wf(),
    {
        Session { id, user_id, end_timestamp: Some(sat_add(now, duration_ms)), time_left: None }
    }

    /// Derives the state at instant `now`.
    pub fn state(&self, now: i64) -> (st: SessionState)
        ensures
            st == self.state_at(now),
    {
        match self.end_timestamp {
            Some(end) => if end > now {
                SessionState::Active { end_timestamp: end }
            } else {
                SessionState::Expired
            },
            None => match self.time_left {
                Some(EndDuration(left)) => SessionState::Paused { time_left: left },
                None => SessionState::Expired,
            },
        }
    }

    /// Whether blocking is in force at instant `now`.
    pub fn is_active(&self, now: i64) -> (b: bool)
        ensures
            b == self.active_at(now),
    {
        match self.end_timestamp {
            Some(end) => end > now,
            None => false,
        }
    }

    /// Whether the session belongs in the operator-facing status view.
    pub fn is_listed(&self, now: i64) -> (b: bool)
        ensures
            b == self.listed_at(now),
    {
        if self.is_active(now) {
            true
        } else {
            match self.time_left {
                Some(EndDuration(left)) => left > 0,
                None => false,
            }
        }
    }

    /// Applies the pause transition at instant `now`.
    pub fn pause(&self, now: i64) -> (s: Session)
        ensures
            s == self.spec_pause(now),
            self.wf() ==> s.wf(),
    {
        match self.end_timestamp {
            Some(end) => Session {
                end_timestamp: None,
                time_left: Some(EndDuration(sat_sub(end, now))),
                ..*self
            },
            None => *self,
        }
    }

    /// Applies the resume transition at instant `now`.
    pub fn resume(&self, now: i64) -> (s: Session)
        ensures
            s == self.spec_resume(now),
            self.wf() ==> s.wf(),
    {
        match self.time_left {
            Some(EndDuration(left)) => Session {
                end_timestamp: Some(sat_add(now, left)),
                time_left: None,
                ..*self
            },
            None => *self,
        }
    }
}

/// At every point of the lifecycle exactly one of `time_left` and
/// `end_timestamp` is populated: creation establishes [`Session::wf`] and
/// the pause and resume transitions preserve it.
pub proof fn lemma_lifecycle_keeps_exactly_one(
    s: Session,
    id: i32,
    user_id: i32,
    now: i64,
    duration_ms: i64,
)
    ensures
        Session::spec_new_row(id, user_id, now, duration_ms).wf(),
        s.wf() ==> s.spec_pause(now).wf(),
        s.wf() ==> s.spec_resume(now).wf(),
{
}

/// Pausing and then resuming at the same instant returns the session to the
/// very `end_timestamp` it had before pausing.  The hypothesis keeps the
/// stored remainder `end - now` representable in `i64` milliseconds, which
/// every wall-clock instant satisfies.
pub proof fn lemma_pause_resume_round_trip(s: Session, now: i64)
    requires
        s.wf(),
        s.end_timestamp is Some,
        i64::MIN as int <= s.end_timestamp->0 - now <= i64::MAX as int,
    ensures
        s.spec_pause(now).spec_resume(now) == s,
{
}

/// Resuming a session whose stored remainder is zero or negative yields a
/// session that is immediately expired: its new end does not lie in the
/// future.
pub proof fn lemma_resume_overdue_is_expired(s: Session, now: i64)
    requires
        s.time_left is Some,
        (s.time_left->0).0 <= 0,
    ensures
        !s.spec_resume(now).active_at(now),
        s.spec_resume(now).state_at(now) is Expired,
{
}

} // verus!
