//! The session registry: the one mapping from identifier to live session.
//!
//! The registry owns its sessions. Whoever holds it mutably has every
//! session to itself, so the embedding program keeps the registry behind one
//! guard and takes that guard for every access.

use crate::session::{Area, Nanos, Session};
use std::collections::HashMap;
use vstd::prelude::*;
use vstd::std_specs::iter::IteratorSpec;

verus! {

broadcast use vstd::std_specs::hash::group_hash_axioms;

/// Why a registration was refused.
#[derive(Clone, Copy, Debug, PartialEq, Eq, Structural)]
pub enum RegistryError {
    /// The identifier already has a session.
    AlreadyRegistered,
}

/// Whether `access`, handed `session`, may hand back `after` and return
/// `result`.
pub open spec fn accesses<R, T, F: FnOnce(Session<R>) -> (Session<R>, T)>(
    access: F,
    session: Session<R>,
    after: Session<R>,
    result: T,
) -> bool {
    call_ensures(access, (session,), (after, result))
}

/// Whether `sessions` is `before` with the session of `id` holding the
/// resources of `after`, and nothing else changed.
pub open spec fn refiled<R>(
    before: Map<usize, Session<R>>,
    id: usize,
    after: Session<R>,
    sessions: Map<usize, Session<R>>,
) -> bool {
    sessions =~= before.insert(id, before[id].holding(after.resources))
}

/// The sessions that are live, keyed by identifier.
pub struct Registry<R> {
    sessions: HashMap<usize, Session<R>>,
}

impl<R> View for Registry<R> {
    type V = Map<usize, Session<R>>;

    closed spec fn view(&self) -> Map<usize, Session<R>> {
        self.sessions@
    }
}

impl<R> Registry<R> {
    /// An empty registry.
    pub fn new() -> (registry: Registry<R>)
        ensures
            registry@ == Map::<usize, Session<R>>::empty(),
    {
        Registry { sessions: HashMap::new() }
    }

    /// The number of live sessions.
    pub fn len(&self) -> (count: usize)
        ensures
            count == self@.len(),
            self@.dom().finite(),
    {
        self.sessions.len()
    }

    /// Whether `id` has a session.
    pub fn contains(&self, id: usize) -> (present: bool)
        ensures
            present == self@.contains_key(id),
    {
        self.sessions.contains_key(&id)
    }

    /// The session of `id`, if it has one.
    pub fn get(&self, id: usize) -> (session: Option<&Session<R>>)
        ensures
            match session {
                Some(found) => self@.contains_key(id) && *found == self@[id],
                None => !self@.contains_key(id),
            },
    {
        self.sessions.get(&id)
    }

    /// Files `session` under `id`. An identifier that already has a session
    /// is refused and the registry stays as it was.
    pub fn register(&mut self, id: usize, session: Session<R>) -> (outcome: Result<
        (),
        RegistryError,
    >)
        ensures
            old(self)@.contains_key(id) ==> outcome == Err::<(), RegistryError>(
                RegistryError::AlreadyRegistered,
            ) && final(self)@ == old(self)@,
            !old(self)@.contains_key(id) ==> outcome is Ok && final(self)@ == old(self)@.insert(
                id,
                session,
            ),
    {
        if self.sessions.contains_key(&id) {
            Err(RegistryError::AlreadyRegistered)
        } else {
            self.sessions.insert(id, session);
            Ok(())
        }
    }

    /// Erases the session of `id` and hands it back. An identifier without a
    /// session leaves the registry as it was.
    pub fn remove(&mut self, id: usize) -> (removed: Option<Session<R>>)
        ensures
            final(self)@ == old(self)@.remove(id),
            removed == (if old(self)@.contains_key(id) {
                Some(old(self)@[id])
            } else {
                None
            }),
    {
        self.sessions.remove(&id)
    }

    /// Gives `access` the session of `id` to itself: it takes the session,
    /// works on the connection's resources, and hands the session back
    /// together with a result of its own. Of what comes back only the
    /// resources are filed: the last activity changes with input alone and
    /// the recorded dimensions with a resize alone. Nothing else in the
    /// registry changes, and an identifier without a session leaves
    /// `access` uncalled.
    pub fn with_session<T, F: FnOnce(Session<R>) -> (Session<R>, T)>(
        &mut self,
        id: usize,
        access: F,
    ) -> (output: Option<T>)
        requires
            old(self)@.contains_key(id) ==> call_requires(access, (old(self)@[id],)),
        ensures
            output is Some <==> old(self)@.contains_key(id),
            output is None ==> final(self)@ == old(self)@,
            output matches Some(result) ==> exists|after: Session<R>|
                accesses(access, old(self)@[id], after, result) && #[trigger] refiled(
                    old(self)@,
                    id,
                    after,
                    final(self)@,
                ),
    {
        match self.sessions.remove(&id) {
            Some(session) => {
                let last_activity = session.last_activity;
                let area = session.area;
                let (after, result) = access(session);
                let Session { resources, .. } = after;
                self.sessions.insert(id, Session { last_activity, area, resources });
                assert(accesses(access, old(self)@[id], after, result));
                assert(refiled(old(self)@, id, after, self@));
                Some(result)
            },
            None => None,
        }
    }

    /// Records that a translated key arrived for `id` at `now`.
    pub fn touch(&mut self, id: usize, now: Nanos) -> (found: bool)
        ensures
            found == old(self)@.contains_key(id),
            !found ==> final(self)@ == old(self)@,
            found ==> final(self)@ == old(self)@.insert(id, old(self)@[id].touched_at(now)),
    {
        match self.sessions.remove(&id) {
            Some(session) => {
                let touched = Session { last_activity: now, ..session };
                self.sessions.insert(id, touched);
                true
            },
            None => false,
        }
    }

    /// Records new dimensions for the render surface of `id`.
    pub fn resize(&mut self, id: usize, area: Area) -> (found: bool)
        ensures
            found == old(self)@.contains_key(id),
            !found ==> final(self)@ == old(self)@,
            found ==> final(self)@ == old(self)@.insert(id, old(self)@[id].resized_to(area)),
    {
        match self.sessions.remove(&id) {
            Some(session) => {
                let resized = Session { area, ..session };
                self.sessions.insert(id, resized);
                true
            },
            None => false,
        }
    }

    /// The identifiers of all live sessions, each once, in no particular
    /// order.
    pub fn ids(&self) -> (ids: Vec<usize>)
        ensures
            ids@.no_duplicates(),
            forall|id: usize| ids@.contains(id) <==> self@.contains_key(id),
    {
        let mut ids: Vec<usize> = Vec::new();
        for key in it: self.sessions.keys()
            invariant
                ids@ == it.seq().take(it.index()).unref(),
        {
            ids.push(*key);
        }
        proof {
            assert(ids@ =~= self.sessions.keys().remaining().unref());
        }
        ids
    }
}

/// Removal is idempotent: erasing an identifier that has no session changes
/// nothing, so a second removal of the same identifier has no effect.
pub proof fn removal_is_idempotent<R>(sessions: Map<usize, Session<R>>, id: usize)
    ensures
        !sessions.contains_key(id) ==> sessions.remove(id) == sessions,
        sessions.remove(id).remove(id) == sessions.remove(id),
        !sessions.remove(id).contains_key(id),
{
}

} // verus!
