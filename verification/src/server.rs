//! The per-connection lifecycle rules.
//!
//! The server hands every new connection a handler that carries the
//! connection's identifier. The transport's events for that connection are
//! then put to the handler together with the registry, which the caller
//! holds exclusively for the duration of the call. Each rule touches the
//! handler's own session only.

use crate::keys::{key_for, map_key_event, Key};
use crate::registry::Registry;
use crate::session::{Area, Nanos, Session};
use crate::teardown::{is_teardown, teardown, Action};
use vstd::prelude::*;

verus! {

/// The server, and at the same time the handler of one connection: a handler
/// is the server as it was when the connection arrived.
#[derive(Clone, Copy, Debug, PartialEq, Eq, Structural)]
pub struct AppServer {
    /// For a handler, the identifier of its connection; for the server, the
    /// identifier that its next client gets.
    pub id: usize,
}

/// The key to hand to the application of session `id` when `bytes` arrive:
/// the key they translate to, provided the session is live.
pub open spec fn dispatched_key<R>(
    sessions: Map<usize, Session<R>>,
    id: usize,
    bytes: Seq<u8>,
) -> Option<Key> {
    if sessions.contains_key(id) {
        key_for(bytes)
    } else {
        None
    }
}

/// Whether `dispatch`, handed `session` and `key`, may hand back `after` and
/// report `failed`.
pub open spec fn dispatches<R, F: FnOnce(Session<R>, Key) -> (Session<R>, bool)>(
    dispatch: F,
    session: Session<R>,
    key: Key,
    after: Session<R>,
    failed: bool,
) -> bool {
    call_ensures(dispatch, (session, key), (after, failed))
}

/// Whether the input rule has come to its end for session `id`, whose key
/// arrived at `now`: the hosted application handed the session back as
/// `after` and either failed, so that the session is gone and `actions` is
/// its teardown, or did not, so that nothing is to be done and the session
/// is filed with the resources of `after`, its last activity at `now` and
/// the recorded dimensions that it had.
pub open spec fn settled<R>(
    before: Map<usize, Session<R>>,
    id: usize,
    now: Nanos,
    after: Session<R>,
    failed: bool,
    sessions: Map<usize, Session<R>>,
    actions: Seq<Action>,
) -> bool {
    if failed {
        sessions =~= before.remove(id) && is_teardown(actions)
    } else {
        sessions =~= before.insert(id, before[id].touched_at(now).holding(after.resources))
            && actions.len() == 0
    }
}

impl AppServer {
    /// Whether an identifier is left for one more client.
    pub open spec fn admits(self) -> bool {
        self.id < usize::MAX
    }

    /// The server after it was asked to admit a client.
    pub open spec fn next(self) -> AppServer {
        if self.admits() {
            AppServer { id: (self.id + 1) as usize }
        } else {
            self
        }
    }

    /// The handlers that `calls` requests in a row hand out, in the order of
    /// the requests.
    pub open spec fn handlers(self, calls: nat) -> Seq<AppServer>
        decreases calls,
    {
        if calls == 0 || !self.admits() {
            Seq::empty()
        } else {
            seq![self] + self.next().handlers((calls - 1) as nat)
        }
    }

    /// A server that has admitted no client yet.
    pub fn new() -> (server: AppServer)
        ensures
            server.id == 0,
    {
        AppServer { id: 0 }
    }

    /// Admits a client: hands out a handler with the current identifier and
    /// moves the server on to the next. Once the identifiers are used up no
    /// client is admitted any more.
    pub fn new_client(&mut self) -> (handler: Option<AppServer>)
        ensures
            handler == (if old(self).admits() {
                Some(*old(self))
            } else {
                None
            }),
            *final(self) == old(self).next(),
    {
        if self.id == usize::MAX {
            None
        } else {
            let handler = *self;
            self.id = self.id + 1;
            Some(handler)
        }
    }

    /// The peer opened its session channel at `now`: a fresh session that
    /// holds `resources` is registered under the handler's identifier. A
    /// connection that already has a session is refused a second one.
    pub fn channel_open_session<R>(
        &self,
        clients: &mut Registry<R>,
        resources: R,
        now: Nanos,
    ) -> (accepted: bool)
        ensures
            accepted == !old(clients)@.contains_key(self.id),
            accepted ==> final(clients)@ == old(clients)@.insert(
                self.id,
                Session::opened_at(now, resources),
            ),
            !accepted ==> final(clients)@ == old(clients)@,
    {
        clients.register(self.id, Session::new(now, resources)).is_ok()
    }

    /// The first half of the input rule. If the bytes that arrived at `now`
    /// translate to a key and the session is live, the session's last
    /// activity becomes `now` and the key is returned for the hosted
    /// application. Otherwise nothing happens.
    pub fn accept_input<R>(&self, clients: &mut Registry<R>, data: &[u8], now: Nanos) -> (key:
        Option<Key>)
        ensures
            key == dispatched_key(old(clients)@, self.id, data@),
            key is Some ==> final(clients)@ == old(clients)@.insert(
                self.id,
                old(clients)@[self.id].touched_at(now),
            ),
            key is None ==> final(clients)@ == old(clients)@,
    {
        match map_key_event(data) {
            Some(key) => {
                if clients.touch(self.id, now) {
                    Some(key)
                } else {
                    None
                }
            },
            None => None,
        }
    }

    /// Input arrived at `now`: the whole rule, in one step. Bytes that
    /// translate to no key, or that arrive for no live session, change
    /// nothing. Otherwise the session's last activity becomes `now`, and
    /// `dispatch` hands the key to the hosted application and says whether
    /// the application failed for good. If it did, the session ends here and
    /// now: its entry is removed and the teardown of its channel is
    /// returned. If it did not, the session is filed with the resources that
    /// `dispatch` handed back; its last activity stays at `now` and the
    /// recorded dimensions of its surface stay as they were.
    pub fn data<R, F: FnOnce(Session<R>, Key) -> (Session<R>, bool)>(
        &self,
        clients: &mut Registry<R>,
        data: &[u8],
        now: Nanos,
        dispatch: F,
    ) -> (actions: Vec<Action>)
        requires
            dispatched_key(old(clients)@, self.id, data@) matches Some(key) ==> call_requires(
                dispatch,
                (old(clients)@[self.id].touched_at(now), key),
            ),
        ensures
            dispatched_key(old(clients)@, self.id, data@) is None ==> actions@.len() == 0
                && final(clients)@ == old(clients)@,
            dispatched_key(old(clients)@, self.id, data@) matches Some(key) ==> exists|
                after: Session<R>,
                failed: bool,
            |
                dispatches(dispatch, old(clients)@[self.id].touched_at(now), key, after, failed)
                    && #[trigger] settled(
                    old(clients)@,
                    self.id,
                    now,
                    after,
                    failed,
                    final(clients)@,
                    actions@,
                ),
    {
        match self.accept_input(clients, data, now) {
            Some(key) => {
                let ghost touched = clients@[self.id];
                match clients.remove(self.id) {
                    Some(session) => {
                        let area = session.area;
                        let (after, failed) = dispatch(session, key);
                        let actions = if failed {
                            teardown()
                        } else {
                            let Session { resources, .. } = after;
                            let _ = clients.register(
                                self.id,
                                Session { last_activity: now, area, resources },
                            );
                            Vec::new()
                        };
                        proof {
                            assert(dispatches(dispatch, touched, key, after, failed));
                            assert(settled(
                                old(clients)@,
                                self.id,
                                now,
                                after,
                                failed,
                                clients@,
                                actions@,
                            ));
                        }
                        actions
                    },
                    None => Vec::new(),
                }
            },
            None => Vec::new(),
        }
    }

    /// The second half of the input rule: the hosted application has handled
    /// the key. If it reported a fatal error and the session is still live,
    /// the session ends here and now: its entry is removed and the teardown
    /// of its channel is returned. A session that is already gone has had
    /// its teardown, so nothing is returned for it; and without a fatal
    /// error nothing happens at all.
    pub fn key_handled<R>(&self, clients: &mut Registry<R>, failed: bool) -> (actions: Vec<Action>)
        ensures
            failed ==> final(clients)@ == old(clients)@.remove(self.id),
            !failed ==> final(clients)@ == old(clients)@,
            failed && old(clients)@.contains_key(self.id) ==> is_teardown(actions@),
            !(failed && old(clients)@.contains_key(self.id)) ==> actions@.len() == 0,
    {
        if failed {
            match clients.remove(self.id) {
                Some(_) => teardown(),
                None => Vec::new(),
            }
        } else {
            Vec::new()
        }
    }

    /// The peer's window changed size: the session's render surface gets the
    /// reported dimensions, which are returned. Without a live session there
    /// is nothing to resize.
    pub fn window_change_request<R>(
        &self,
        clients: &mut Registry<R>,
        col_width: u32,
        row_height: u32,
    ) -> (area: Option<Area>)
        ensures
            area == (if old(clients)@.contains_key(self.id) {
                Some(Area::reported(col_width, row_height))
            } else {
                None
            }),
            area is Some ==> final(clients)@ == old(clients)@.insert(
                self.id,
                old(clients)@[self.id].resized_to(Area::reported(col_width, row_height)),
            ),
            area is None ==> final(clients)@ == old(clients)@,
    {
        let area = Area::from_report(col_width, row_height);
        if clients.resize(self.id, area) {
            Some(area)
        } else {
            None
        }
    }

    /// The peer asked for a terminal of the given size: the render surface is
    /// sized as for a window change.
    pub fn pty_request<R>(
        &self,
        clients: &mut Registry<R>,
        col_width: u32,
        row_height: u32,
    ) -> (area: Option<Area>)
        ensures
            area == (if old(clients)@.contains_key(self.id) {
                Some(Area::reported(col_width, row_height))
            } else {
                None
            }),
            area is Some ==> final(clients)@ == old(clients)@.insert(
                self.id,
                old(clients)@[self.id].resized_to(Area::reported(col_width, row_height)),
            ),
            area is None ==> final(clients)@ == old(clients)@,
    {
        self.window_change_request(clients, col_width, row_height)
    }

    /// The peer closed the channel. A session that is still live ends: its
    /// entry is removed and the teardown of its channel is returned. A
    /// session that is already gone has had its teardown, so nothing is
    /// returned for it.
    pub fn channel_close<R>(&self, clients: &mut Registry<R>) -> (actions: Vec<Action>)
        ensures
            final(clients)@ == old(clients)@.remove(self.id),
            old(clients)@.contains_key(self.id) ==> is_teardown(actions@),
            !old(clients)@.contains_key(self.id) ==> actions@.len() == 0,
    {
        match clients.remove(self.id) {
            Some(_) => teardown(),
            None => Vec::new(),
        }
    }

    /// The connection is gone: whatever is left of its session is removed.
    /// Nothing can be sent any more.
    pub fn disconnect<R>(&self, clients: &mut Registry<R>)
        ensures
            final(clients)@ == old(clients)@.remove(self.id),
    {
        clients.remove(self.id);
    }
}

/// Identifiers are unique and increase in creation order: of two handlers
/// that one server handed out, the later one has the larger identifier.
pub proof fn identifiers_increase(server: AppServer, calls: nat, earlier: int, later: int)
    requires
        0 <= earlier < later < server.handlers(calls).len(),
    ensures
        server.handlers(calls)[earlier].id < server.handlers(calls)[later].id,
{
    lemma_handler_identifiers(server, calls, earlier);
    lemma_handler_identifiers(server, calls, later);
}

proof fn lemma_handler_identifiers(server: AppServer, calls: nat, index: int)
    requires
        0 <= index < server.handlers(calls).len(),
    ensures
        server.handlers(calls)[index].id == server.id + index,
    decreases calls,
{
    if index > 0 {
        lemma_handler_identifiers(server.next(), (calls - 1) as nat, index - 1);
    }
}

} // verus!
