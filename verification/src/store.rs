//! The in-memory row model of the session store and the blocklist resolver.
//!
//! A [`Store`] holds the four row kinds the policy is made of: users, their
//! registered client devices, their blocked domain zones and their blocking
//! sessions.  The lifecycle operations are keyed by session id, exactly as
//! the control surface addresses them, and act on the first row carrying the
//! id.  The blocklist resolver joins a client address to its user, keeps the
//! user only while some session of theirs is active, and hands back that
//! user's domain zones.

use crate::session::{Session, SessionError};
use vstd::prelude::*;
use vstd::pervasive::VecAdditionalExecFns;

verus! {

/// An account owning clients, domains and a session.  Rows are immutable
/// here: they are created and removed by administrative operations outside
/// this crate.
#[derive(Clone, Debug, PartialEq, Eq)]
pub struct User {
    pub id: i32,
    pub name: String,
    pub username: String,
}

/// A registered device; `ip` is the textual address incoming queries are
/// looked up by.
#[derive(Clone, Debug, PartialEq, Eq)]
pub struct Client {
    pub id: i32,
    pub ip: String,
    pub user_id: i32,
}

/// A blocked zone owned by a user: the zone root itself and every
/// subdomain of it are blocked while the user's session is active.
#[derive(Clone, Debug, PartialEq, Eq)]
pub struct Domain {
    pub id: i32,
    pub domain_name: String,
    pub user_id: i32,
}

/// The rows the access-control policy is computed from.
pub struct Store {
    pub users: Vec<User>,
    pub clients: Vec<Client>,
    pub domains: Vec<Domain>,
    pub sessions: Vec<Session>,
}

/// The character sequences of a list of names.
pub open spec fn names_of(zones: Seq<String>) -> Seq<Seq<char>> {
    zones.map_values(|z: String| z@)
}

/// `i` is the index of the first session row carrying `session_id`.
pub open spec fn spec_found_first(sessions: Seq<Session>, session_id: i32, i: int) -> bool {
    &&& 0 <= i < sessions.len()
    &&& sessions[i].id == session_id
    &&& forall|j: int| 0 <= j < i ==> (#[trigger] sessions[j]).id != session_id
}

/// No session row carries `session_id`.
pub open spec fn spec_no_session(sessions: Seq<Session>, session_id: i32) -> bool {
    forall|j: int| 0 <= j < sessions.len() ==> (#[trigger] sessions[j]).id != session_id
}

/// What a read keyed by session id returns: the first row carrying the id,
/// or `NotFound` exactly when no row carries it.
pub open spec fn spec_get_outcome(
    sessions: Seq<Session>,
    r: Result<Session, SessionError>,
    session_id: i32,
) -> bool {
    match r {
        Ok(s) => exists|i: int|
            #[trigger] spec_found_first(sessions, session_id, i) && s == sessions[i],
        Err(e) => e == SessionError::NotFound && spec_no_session(sessions, session_id),
    }
}

/// What a transition keyed by session id does: the first row carrying the
/// id is replaced by `step` of it and returned, and every other row is kept;
/// or `NotFound` is returned and nothing changes, exactly when no row
/// carries the id.
pub open spec fn spec_transition_outcome(
    pre: Seq<Session>,
    post: Seq<Session>,
    r: Result<Session, SessionError>,
    session_id: i32,
    step: spec_fn(Session) -> Session,
) -> bool {
    match r {
        Ok(s) => exists|i: int|
            #[trigger] spec_found_first(pre, session_id, i) && s == step(pre[i]) && post
                == pre.update(i, s),
        Err(e) => e == SessionError::NotFound && spec_no_session(pre, session_id) && post == pre,
    }
}

/// The sessions that are active, or paused with a strictly positive
/// remainder, kept in row order.
pub open spec fn spec_list_active(sessions: Seq<Session>, now: i64) -> Seq<Session>
    decreases sessions.len(),
{
    if sessions.len() == 0 {
        Seq::empty()
    } else {
        let rest = spec_list_active(sessions.drop_last(), now);
        if sessions.last().listed_at(now) {
            rest.push(sessions.last())
        } else {
            rest
        }
    }
}

/// The greatest session id in the store, or zero when there is none.
pub open spec fn spec_max_id(sessions: Seq<Session>) -> int
    decreases sessions.len(),
{
    if sessions.len() == 0 {
        0
    } else {
        let rest = spec_max_id(sessions.drop_last());
        if sessions.last().id > rest {
            sessions.last().id as int
        } else {
            rest
        }
    }
}

proof fn lemma_max_id_bounds(sessions: Seq<Session>)
    ensures
        0 <= spec_max_id(sessions),
        forall|i: int|
            0 <= i < sessions.len() ==> (#[trigger] sessions[i]).id <= spec_max_id(sessions),
    decreases sessions.len(),
{
    if sessions.len() > 0 {
        lemma_max_id_bounds(sessions.drop_last());
        assert forall|i: int|
            0 <= i < sessions.len() implies (#[trigger] sessions[i]).id <= spec_max_id(
            sessions,
        ) by {
            if i < sessions.len() - 1 {
                assert(sessions.drop_last()[i] == sessions[i]);
            }
        }
    }
}

impl Store {
    /// A store with no rows at all.
    pub fn new() -> (s: Store)
        ensures
            s.users@.len() == 0,
            s.clients@.len() == 0,
            s.domains@.len() == 0,
            s.sessions@.len() == 0,
    {
        Store { users: Vec::new(), clients: Vec::new(), domains: Vec::new(), sessions: Vec::new() }
    }

    /// Some user row carries `user_id`.
    pub open spec fn spec_user_row_exists(self, user_id: i32) -> bool {
        exists|i: int| 0 <= i < self.users@.len() && (#[trigger] self.users@[i]).id == user_id
    }

    /// Some client of the user is registered under the address `ip`.
    pub open spec fn spec_client_registered(self, user_id: i32, ip: Seq<char>) -> bool {
        exists|i: int|
            0 <= i < self.clients@.len() && (#[trigger] self.clients@[i]).user_id == user_id
                && self.clients@[i].ip@ == ip
    }

    /// Some session of the user is active at `now`.
    pub open spec fn spec_session_active_for(self, user_id: i32, now: i64) -> bool {
        exists|i: int|
            0 <= i < self.sessions@.len() && (#[trigger] self.sessions@[i]).user_id == user_id
                && self.sessions@[i].active_at(now)
    }

    /// The join the resolver filters on: the user row exists, one of its
    /// clients is registered under `ip`, and one of its sessions is active.
    pub open spec fn spec_user_blocking(self, user_id: i32, ip: Seq<char>, now: i64) -> bool {
        self.spec_user_row_exists(user_id) && self.spec_client_registered(user_id, ip)
            && self.spec_session_active_for(user_id, now)
    }

    /// The zone names of the domain rows (in row order, from a prefix of the
    /// domain table) whose owner is blocking for the address `ip` at `now`.
    pub open spec fn spec_blocked_zones_of(
        self,
        domains: Seq<Domain>,
        ip: Seq<char>,
        now: i64,
    ) -> Seq<Seq<char>>
        decreases domains.len(),
    {
        if domains.len() == 0 {
            Seq::empty()
        } else {
            let rest = self.spec_blocked_zones_of(domains.drop_last(), ip, now);
            if self.spec_user_blocking(domains.last().user_id, ip, now) {
                rest.push(domains.last().domain_name@)
            } else {
                rest
            }
        }
    }

    /// The zones blocked for the client address `ip` at instant `now`.
    pub open spec fn spec_blocked_zones(self, ip: Seq<char>, now: i64) -> Seq<Seq<char>> {
        self.spec_blocked_zones_of(self.domains@, ip, now)
    }

    fn user_exists(&self, user_id: i32) -> (b: bool)
        ensures
            b == self.spec_user_row_exists(user_id),
    {
        let mut i: usize = 0;
        while i < self.users.len()
            invariant
                i <= self.users@.len(),
                forall|j: int| 0 <= j < i ==> (#[trigger] self.users@[j]).id != user_id,
            decreases self.users@.len() - i,
        {
            if self.users[i].id == user_id {
                return true;
            }
            i += 1;
        }
        false
    }

    fn client_registered(&self, user_id: i32, ip: &String) -> (b: bool)
        ensures
            b == self.spec_client_registered(user_id, ip@),
    {
        let mut i: usize = 0;
        while i < self.clients.len()
            invariant
                i <= self.clients@.len(),
                forall|j: int|
                    0 <= j < i ==> !((#[trigger] self.clients@[j]).user_id == user_id
                        && self.clients@[j].ip@ == ip@),
            decreases self.clients@.len() - i,
        {
            let c = &self.clients[i];
            if c.user_id == user_id && c.ip == *ip {
                return true;
            }
            i += 1;
        }
        false
    }

    fn session_active_for(&self, user_id: i32, now: i64) -> (b: bool)
        ensures
            b == self.spec_session_active_for(user_id, now),
    {
        let mut i: usize = 0;
        while i < self.sessions.len()
            invariant
                i <= self.sessions@.len(),
                forall|j: int|
                    0 <= j < i ==> !((#[trigger] self.sessions@[j]).user_id == user_id
                        && self.sessions@[j].active_at(now)),
            decreases self.sessions@.len() - i,
        {
            let s = self.sessions[i];
            if s.user_id == user_id && s.is_active(now) {
                return true;
            }
            i += 1;
        }
        false
    }

    fn user_blocking(&self, user_id: i32, ip: &String, now: i64) -> (b: bool)
        ensures
            b == self.spec_user_blocking(user_id, ip@, now),
    {
        self.user_exists(user_id) && self.client_registered(user_id, ip)
            && self.session_active_for(user_id, now)
    }

    /// The set of zones currently blocked for a client address: the domain
    /// names of every user that owns a client registered under the address
    /// and has a session active at `now`.  An address registered to no
    /// client gets the empty set — unknown devices are never blocked.
    pub fn resolve_blocked_zones(&self, client_address: &String, now: i64) -> (zones: Vec<String>)
        ensures
            names_of(zones@) == self.spec_blocked_zones(client_address@, now),
    {
        let mut zones: Vec<String> = Vec::new();
        let mut i: usize = 0;
        while i < self.domains.len()
            invariant
                i <= self.domains@.len(),
                names_of(zones@) == self.spec_blocked_zones_of(
                    self.domains@.take(i as int),
                    client_address@,
                    now,
                ),
            decreases self.domains@.len() - i,
        {
            let ghost prev = zones@;
            let d = &self.domains[i];
            if self.user_blocking(d.user_id, client_address, now) {
                zones.push(d.domain_name.clone());
                proof {
                    assert(names_of(zones@) =~= names_of(prev).push(
                        self.domains@[i as int].domain_name@,
                    ));
                }
            }
            proof {
                assert(self.domains@.take(i as int + 1).drop_last() =~= self.domains@.take(
                    i as int,
                ));
                assert(self.domains@.take(i as int + 1).last() == self.domains@[i as int]);
            }
            i += 1;
        }
        proof {
            assert(self.domains@.take(self.domains@.len() as int) =~= self.domains@);
        }
        zones
    }

    /// Reads the session carrying `session_id`, or `NotFound` when there is
    /// none.
    pub fn get(&self, session_id: i32) -> (r: Result<Session, SessionError>)
        ensures
            spec_get_outcome(self.sessions@, r, session_id),
    {
        let mut i: usize = 0;
        while i < self.sessions.len()
            invariant
                i <= self.sessions@.len(),
                forall|j: int| 0 <= j < i ==> (#[trigger] self.sessions@[j]).id != session_id,
            decreases self.sessions@.len() - i,
        {
            if self.sessions[i].id == session_id {
                proof {
                    assert(spec_found_first(self.sessions@, session_id, i as int));
                }
                return Ok(self.sessions[i]);
            }
            i += 1;
        }
        Err(SessionError::NotFound)
    }

    /// Pauses the session carrying `session_id` at instant `now`; a session
    /// that is not active-shaped is returned unchanged.  `NotFound` exactly
    /// when no row carries the id.
    pub fn pause(&mut self, session_id: i32, now: i64) -> (r: Result<Session, SessionError>)
        ensures
            spec_transition_outcome(
                old(self).sessions@,
                final(self).sessions@,
                r,
                session_id,
                |s: Session| s.spec_pause(now),
            ),
            final(self).users@ == old(self).users@,
            final(self).clients@ == old(self).clients@,
            final(self).domains@ == old(self).domains@,
    {
        let mut i: usize = 0;
        while i < self.sessions.len()
            invariant
                i <= self.sessions@.len(),
                self.users@ == old(self).users@,
                self.clients@ == old(self).clients@,
                self.domains@ == old(self).domains@,
                self.sessions@ == old(self).sessions@,
                forall|j: int| 0 <= j < i ==> (#[trigger] self.sessions@[j]).id != session_id,
            decreases self.sessions@.len() - i,
        {
            if self.sessions[i].id == session_id {
                let updated = self.sessions[i].pause(now);
                self.sessions.set(i, updated);
                proof {
                    assert(spec_found_first(old(self).sessions@, session_id, i as int));
                }
                return Ok(updated);
            }
            i += 1;
        }
        Err(SessionError::NotFound)
    }

    /// Resumes the session carrying `session_id` at instant `now`; a session
    /// that is not paused is returned unchanged.  `NotFound` exactly when no
    /// row carries the id.
    pub fn resume(&mut self, session_id: i32, now: i64) -> (r: Result<Session, SessionError>)
        ensures
            spec_transition_outcome(
                old(self).sessions@,
                final(self).sessions@,
                r,
                session_id,
                |s: Session| s.spec_resume(now),
            ),
            final(self).users@ == old(self).users@,
            final(self).clients@ == old(self).clients@,
            final(self).domains@ == old(self).domains@,
    {
        let mut i: usize = 0;
        while i < self.sessions.len()
            invariant
                i <= self.sessions@.len(),
                self.users@ == old(self).users@,
                self.clients@ == old(self).clients@,
                self.domains@ == old(self).domains@,
                self.sessions@ == old(self).sessions@,
                forall|j: int| 0 <= j < i ==> (#[trigger] self.sessions@[j]).id != session_id,
            decreases self.sessions@.len() - i,
        {
            if self.sessions[i].id == session_id {
                let updated = self.sessions[i].resume(now);
                self.sessions.set(i, updated);
                proof {
                    assert(spec_found_first(old(self).sessions@, session_id, i as int));
                }
                return Ok(updated);
            }
            i += 1;
        }
        Err(SessionError::NotFound)
    }

    /// Inserts a fresh session for `user_id`, active from `now` for
    /// `duration_ms`, under an id one past the greatest in the store.
    pub fn create_session(&mut self, user_id: i32, now: i64, duration_ms: i64) -> (s: Session)
        requires
            spec_max_id(old(self).sessions@) < i32::MAX as int,
        ensures
            s == Session::spec_new_row(
                (spec_max_id(old(self).sessions@) + 1) as i32,
                user_id,
                now,
                duration_ms,
            ),
            s.wf(),
            final(self).sessions@ == old(self).sessions@.push(s),
            forall|i: int|
                0 <= i < old(self).sessions@.len() ==> (#[trigger] old(self).sessions@[i]).id
                    != s.id,
            final(self).users@ == old(self).users@,
            final(self).clients@ == old(self).clients@,
            final(self).domains@ == old(self).domains@,
    {
        let mut max: i32 = 0;
        let mut i: usize = 0;
        while i < self.sessions.len()
            invariant
                i <= self.sessions@.len(),
                self.users@ == old(self).users@,
                self.clients@ == old(self).clients@,
                self.domains@ == old(self).domains@,
                self.sessions@ == old(self).sessions@,
                max as int == spec_max_id(self.sessions@.take(i as int)),
                0 <= max,
            decreases self.sessions@.len() - i,
        {
            let sid = self.sessions[i].id;
            proof {
                assert(self.sessions@.take(i as int + 1).drop_last() =~= self.sessions@.take(
                    i as int,
                ));
                assert(self.sessions@.take(i as int + 1).last() == self.sessions@[i as int]);
            }
            if sid > max {
                max = sid;
            }
            i += 1;
        }
        proof {
            assert(self.sessions@.take(self.sessions@.len() as int) =~= self.sessions@);
            lemma_max_id_bounds(self.sessions@);
        }
        let s = Session::new_row(max + 1, user_id, now, duration_ms);
        self.sessions.push(s);
        s
    }

    /// Every session that is active at `now` or paused with a strictly
    /// positive remainder, in row order: the operator-facing status view.
    pub fn list_active(&self, now: i64) -> (active: Vec<Session>)
        ensures
            active@ == spec_list_active(self.sessions@, now),
    {
        let mut active: Vec<Session> = Vec::new();
        let mut i: usize = 0;
        while i < self.sessions.len()
            invariant
                i <= self.sessions@.len(),
                active@ == spec_list_active(self.sessions@.take(i as int), now),
            decreases self.sessions@.len() - i,
        {
            let s = self.sessions[i];
            if s.is_listed(now) {
                active.push(s);
            }
            proof {
                assert(self.sessions@.take(i as int + 1).drop_last() =~= self.sessions@.take(
                    i as int,
                ));
                assert(self.sessions@.take(i as int + 1).last() == self.sessions@[i as int]);
            }
            i += 1;
        }
        proof {
            assert(self.sessions@.take(self.sessions@.len() as int) =~= self.sessions@);
        }
        active
    }
}

proof fn lemma_blocked_zones_of_none(store: Store, domains: Seq<Domain>, ip: Seq<char>, now: i64)
    requires
        forall|uid: i32| !(#[trigger] store.spec_user_blocking(uid, ip, now)),
    ensures
        store.spec_blocked_zones_of(domains, ip, now) == Seq::<Seq<char>>::empty(),
    decreases domains.len(),
{
    if domains.len() > 0 {
        lemma_blocked_zones_of_none(store, domains.drop_last(), ip, now);
    }
}

/// A client address registered to no client row resolves to the empty set
/// of zones: unknown devices are never blocked.
pub proof fn lemma_unknown_address_unblocked(store: Store, ip: Seq<char>, now: i64)
    requires
        forall|i: int| 0 <= i < store.clients@.len() ==> (#[trigger] store.clients@[i]).ip@ != ip,
    ensures
        store.spec_blocked_zones(ip, now) == Seq::<Seq<char>>::empty(),
{
    assert forall|uid: i32| !(#[trigger] store.spec_user_blocking(uid, ip, now)) by {
        if store.spec_client_registered(uid, ip) {
            let i = choose|i: int|
                0 <= i < store.clients@.len() && (#[trigger] store.clients@[i]).user_id == uid
                    && store.clients@[i].ip@ == ip;
            assert(store.clients@[i].ip@ != ip);
        }
    }
    lemma_blocked_zones_of_none(store, store.domains@, ip, now);
}

proof fn lemma_list_active_only_listed(sessions: Seq<Session>, s: Session, now: i64)
    requires
        spec_list_active(sessions, now).contains(s),
    ensures
        s.listed_at(now),
    decreases sessions.len(),
{
    if sessions.len() == 0 {
    } else {
        let rest = spec_list_active(sessions.drop_last(), now);
        if sessions.last().listed_at(now) {
            if s != sessions.last() {
                let i = choose|i: int|
                    0 <= i < rest.push(sessions.last()).len() && rest.push(sessions.last())[i]
                        == s;
                assert(rest[i] == s);
                lemma_list_active_only_listed(sessions.drop_last(), s, now);
            }
        } else {
            lemma_list_active_only_listed(sessions.drop_last(), s, now);
        }
    }
}

/// The status view excludes every spent session: a well-formed session in
/// it that is paused has a strictly positive remainder, and one that has an
/// end has it strictly in the future.
pub proof fn lemma_list_active_excludes_spent(sessions: Seq<Session>, s: Session, now: i64)
    requires
        s.wf(),
        spec_list_active(sessions, now).contains(s),
    ensures
        s.time_left is Some ==> (s.time_left->0).0 > 0,
        s.end_timestamp is Some ==> s.end_timestamp->0 > now,
{
    lemma_list_active_only_listed(sessions, s, now);
}

} // verus!
