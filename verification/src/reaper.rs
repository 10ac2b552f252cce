//! Idle eviction: which sessions a sweep of the registry takes out.
//!
//! A sweep has two phases. The first reads the registry and collects the
//! sessions that have been idle for too long. The registry guard is then
//! released, each collected session is torn down over the network, and only
//! after that is its entry removed. No network write happens while the
//! registry is held.

use crate::registry::Registry;
use crate::session::{Nanos, Session};
use vstd::prelude::*;

verus! {

/// How long a session may go without input: 300 seconds.
pub const IDLE_LIMIT: Nanos = 300_000_000_000;

/// The time between two sweeps: one second.
pub const SWEEP_PERIOD: Nanos = 1_000_000_000;

/// Whether `session` has been idle for longer than [`IDLE_LIMIT`] at `now`.
pub open spec fn is_expired<R>(session: Session<R>, now: Nanos) -> bool {
    session.idle_for(now) > IDLE_LIMIT
}

/// Computes [`is_expired`].
pub fn has_expired<R>(session: &Session<R>, now: Nanos) -> (expired: bool)
    ensures
        expired == is_expired(*session, now),
{
    session.idle_time(now) > IDLE_LIMIT
}

/// The first phase of a sweep at `now`: the identifiers of exactly the
/// sessions that have expired, each once, in no particular order.
pub fn collect_expired<R>(clients: &Registry<R>, now: Nanos) -> (expired: Vec<usize>)
    ensures
        expired@.no_duplicates(),
        forall|id: usize|
            expired@.contains(id) <==> clients@.contains_key(id) && is_expired(clients@[id], now),
{
    let ids = clients.ids();
    let mut expired: Vec<usize> = Vec::new();
    let mut i: usize = 0;
    while i < ids.len()
        invariant
            0 <= i <= ids.len(),
            ids@.no_duplicates(),
            forall|id: usize| ids@.contains(id) <==> clients@.contains_key(id),
            expired@.no_duplicates(),
            forall|id: usize|
                expired@.contains(id) <==> ids@.take(i as int).contains(id)
                    && clients@.contains_key(id) && is_expired(clients@[id], now),
        decreases ids.len() - i,
    {
        let id: usize = ids[i];
        let ghost seen = ids@.take(i as int);
        let ghost found = expired@;
        proof {
            assert(ids@.take(i as int + 1) =~= seen.push(id));
            assert(!seen.contains(id));
        }
        let idle = match clients.get(id) {
            Some(session) => has_expired(session, now),
            None => false,
        };
        if idle {
            expired.push(id);
        }
        i = i + 1;
        proof {
            assert forall|other: usize|
                expired@.contains(other) <==> seen.push(id).contains(other)
                    && clients@.contains_key(other) && is_expired(clients@[other], now) by {
                vstd::seq_lib::lemma_seq_contains_after_push(seen, id, other);
                if idle {
                    vstd::seq_lib::lemma_seq_contains_after_push(found, id, other);
                }
            }
            if idle {
                assert forall|a: int, b: int|
                    0 <= a < expired@.len() && 0 <= b < expired@.len() && a != b implies expired@[a]
                    != expired@[b] by {
                    if a < found.len() {
                        assert(found.contains(found[a]));
                    }
                    if b < found.len() {
                        assert(found.contains(found[b]));
                    }
                }
            }
        }
    }
    proof {
        assert(ids@.take(i as int) =~= ids@);
    }
    expired
}

/// The registry after the sessions of `ids` were removed one after the
/// other, which is how the second phase of a sweep goes about it.
pub open spec fn without<R>(sessions: Map<usize, Session<R>>, ids: Seq<usize>) -> Map<
    usize,
    Session<R>,
>
    decreases ids.len(),
{
    if ids.len() == 0 {
        sessions
    } else {
        without(sessions.remove(ids[0]), ids.drop_first())
    }
}

/// A sweep takes out exactly the expired: once every collected session has
/// been removed, the registry holds the sessions that had not expired, each
/// unchanged, and no others.
pub proof fn sweep_evicts_exactly_the_expired<R>(
    before: Map<usize, Session<R>>,
    collected: Seq<usize>,
    now: Nanos,
)
    requires
        forall|id: usize|
            collected.contains(id) <==> before.contains_key(id) && is_expired(before[id], now),
    ensures
        forall|id: usize|
            without(before, collected).contains_key(id) <==> before.contains_key(id)
                && !is_expired(before[id], now),
        forall|id: usize|
            without(before, collected).contains_key(id) ==> without(before, collected)[id]
                == before[id],
{
    assert forall|id: usize|
        without(before, collected).contains_key(id) <==> before.contains_key(id) && !is_expired(
            before[id],
            now,
        ) by {
        lemma_without(before, collected, id);
    }
    assert forall|id: usize| without(before, collected).contains_key(id) implies without(
        before,
        collected,
    )[id] == before[id] by {
        lemma_without(before, collected, id);
    }
}

proof fn lemma_without<R>(sessions: Map<usize, Session<R>>, ids: Seq<usize>, id: usize)
    ensures
        without(sessions, ids).contains_key(id) <==> sessions.contains_key(id) && !ids.contains(id),
        without(sessions, ids).contains_key(id) ==> without(sessions, ids)[id] == sessions[id],
    decreases ids.len(),
{
    if ids.len() > 0 {
        let rest = ids.drop_first();
        lemma_without(sessions.remove(ids[0]), rest, id);
        if ids.contains(id) {
            let i = choose|i: int| 0 <= i < ids.len() && ids[i] == id;
            if i > 0 {
                assert(rest[i - 1] == id);
            }
        }
    }
}

/// Expiry goes by the clock alone: a session is expired at every reading
/// later than its last input plus [`IDLE_LIMIT`], at none up to it, and once
/// expired it stays so until new input arrives.
pub proof fn expiry_follows_the_clock<R>(session: Session<R>, now: Nanos, later: Nanos)
    ensures
        is_expired(session, now) <==> now > session.last_activity + IDLE_LIMIT,
        is_expired(session, now) && now <= later ==> is_expired(session, later),
{
}

/// Eviction is prompt: when one sweep finds a session alive and the next
/// finds it expired, the session has been past the limit for no longer than
/// the time between the two sweeps.
pub proof fn eviction_is_prompt<R>(session: Session<R>, previous: Nanos, next: Nanos)
    requires
        previous <= next,
        !is_expired(session, previous),
        is_expired(session, next),
    ensures
        0 < next - (session.last_activity + IDLE_LIMIT) <= next - previous,
{
}

} // verus!
