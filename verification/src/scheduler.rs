//! The render schedule: what one tick of the fixed-rate render cycle does.
//!
//! Every tick hands the current tick count to each live session's
//! application and redraws it. A draw that fails is reported and otherwise
//! forgotten: it holds up no other session, and the session is simply part
//! of the next pass again.

use crate::registry::Registry;
use crate::session::{Nanos, Session};
use vstd::prelude::*;

verus! {

/// Render passes per second.
pub const FRAMES_PER_SECOND: u64 = 30;

/// The time between two render passes: a whole number of milliseconds.
pub const RENDER_PERIOD: Nanos = (1000 / FRAMES_PER_SECOND) * 1_000_000;

/// The tick count that follows `tick`. The counter wraps: after the largest
/// value comes zero.
pub open spec fn next_tick(tick: u64) -> u64 {
    if tick == u64::MAX {
        0
    } else {
        (tick + 1) as u64
    }
}

/// Whether `drawn` names every session of `sessions` exactly once.
pub open spec fn names_each_once<R>(
    drawn: Seq<(usize, bool)>,
    sessions: Map<usize, Session<R>>,
) -> bool {
    &&& drawn.len() == sessions.len()
    &&& forall|k: int| 0 <= k < drawn.len() ==> sessions.contains_key((#[trigger] drawn[k]).0)
    &&& forall|k: int, l: int| 0 <= k < l < drawn.len() ==> drawn[k].0 != drawn[l].0
    &&& forall|id: usize|
        sessions.contains_key(id) ==> exists|k: int| 0 <= k < drawn.len() && drawn[k].0 == id
}

/// Whether `draw`, handed `session` and `tick`, may hand back `after` and
/// report `outcome`.
pub open spec fn draws<R, F: Fn(Session<R>, u64) -> (Session<R>, bool)>(
    draw: F,
    session: Session<R>,
    tick: u64,
    after: Session<R>,
    outcome: bool,
) -> bool {
    call_ensures(draw, (session, tick), (after, outcome))
}

/// Whether `filed` is what a render pass with tick count `tick` leaves of
/// `session` when `draw` reports `outcome`: the resources are those that
/// `draw` handed back, and the last activity and the recorded dimensions are
/// those that the session had.
pub open spec fn redrawn<R, F: Fn(Session<R>, u64) -> (Session<R>, bool)>(
    draw: F,
    session: Session<R>,
    tick: u64,
    filed: Session<R>,
    outcome: bool,
) -> bool {
    exists|after: Session<R>| #[trigger]
        draws(draw, session, tick, after, outcome) && filed == session.holding(after.resources)
}

/// What one render pass covers.
#[derive(Debug, PartialEq, Eq)]
pub struct RenderPass {
    /// The tick count to hand to every application in this pass.
    pub tick: u64,
    /// The sessions to tick and redraw: every live session, once.
    pub sessions: Vec<usize>,
}

/// The render clock.
#[derive(Clone, Copy, Debug, PartialEq, Eq, Structural)]
pub struct Scheduler {
    /// The tick count of the next pass.
    pub tick: u64,
}

impl Scheduler {
    /// A scheduler whose first pass has tick count zero.
    pub fn new() -> (scheduler: Scheduler)
        ensures
            scheduler.tick == 0,
    {
        Scheduler { tick: 0 }
    }

    /// Plans one render pass over `clients` and advances the tick count.
    pub fn cycle<R>(&mut self, clients: &Registry<R>) -> (pass: RenderPass)
        ensures
            pass.tick == old(self).tick,
            final(self).tick == next_tick(old(self).tick),
            pass.sessions@.no_duplicates(),
            forall|id: usize| pass.sessions@.contains(id) <==> clients@.contains_key(id),
    {
        let tick = self.tick;
        self.tick = tick.wrapping_add(1);
        RenderPass { tick, sessions: clients.ids() }
    }

    /// Runs one render pass: every live session is handed to `draw` once,
    /// together with the tick count of the pass. `draw` says whether the
    /// session's surface was drawn; the outcomes are returned, one per
    /// session, and a failure keeps no other session from its turn. Of what
    /// `draw` hands back only the resources are filed: a render pass changes
    /// neither a session's last activity nor the recorded dimensions of its
    /// surface.
    pub fn render<R, F: Fn(Session<R>, u64) -> (Session<R>, bool)>(
        &mut self,
        clients: &mut Registry<R>,
        draw: F,
    ) -> (drawn: Vec<(usize, bool)>)
        requires
            forall|id: usize|
                old(clients)@.contains_key(id) ==> call_requires(
                    draw,
                    (old(clients)@[id], old(self).tick),
                ),
        ensures
            final(self).tick == next_tick(old(self).tick),
            final(clients)@.dom() == old(clients)@.dom(),
            names_each_once(drawn@, old(clients)@),
            forall|k: int|
                0 <= k < drawn@.len() ==> redrawn(
                    draw,
                    old(clients)@[drawn@[k].0],
                    old(self).tick,
                    final(clients)@[drawn@[k].0],
                    (#[trigger] drawn@[k]).1,
                ),
    {
        let ghost before = clients@;
        let pass = self.cycle(clients);
        let tick = pass.tick;
        let ids = pass.sessions;
        let mut drawn: Vec<(usize, bool)> = Vec::new();
        let mut i: usize = 0;
        while i < ids.len()
            invariant
                0 <= i <= ids.len(),
                drawn@.len() == i,
                ids@.no_duplicates(),
                forall|id: usize| ids@.contains(id) <==> before.contains_key(id),
                forall|id: usize|
                    before.contains_key(id) ==> call_requires(draw, (before[id], tick)),
                clients@.dom() == before.dom(),
                forall|k: int| 0 <= k < i ==> (#[trigger] drawn@[k]).0 == ids@[k],
                forall|k: int|
                    0 <= k < i ==> redrawn(
                        draw,
                        before[ids@[k]],
                        tick,
                        clients@[ids@[k]],
                        (#[trigger] drawn@[k]).1,
                    ),
                forall|j: int|
                    i <= j < ids.len() ==> clients@[#[trigger] ids@[j]] == before[ids@[j]],
            decreases ids.len() - i,
        {
            let id: usize = ids[i];
            assert(ids@.contains(id));
            if let Some(session) = clients.remove(id) {
                let last_activity = session.last_activity;
                let area = session.area;
                let (after, outcome) = draw(session, tick);
                let Session { resources, .. } = after;
                let _ = clients.register(id, Session { last_activity, area, resources });
                drawn.push((id, outcome));
                assert(draws(draw, before[id], tick, after, outcome));
            }
            i = i + 1;
        }
        proof {
            ids@.unique_seq_to_set();
            assert(ids@.to_set() =~= before.dom());
            assert forall|id: usize| before.contains_key(id) implies exists|k: int|
                0 <= k < drawn@.len() && drawn@[k].0 == id by {
                let k = choose|k: int| 0 <= k < ids@.len() && ids@[k] == id;
                assert(drawn@[k].0 == id);
            }
        }
        drawn
    }
}

/// Advancing the tick count never fails: below the largest value it goes up
/// by one, and from the largest value it wraps to zero.
pub proof fn tick_wraps_to_zero(tick: u64)
    ensures
        next_tick(u64::MAX) == 0,
        tick < u64::MAX ==> next_tick(tick) == tick + 1,
{
}

} // verus!
