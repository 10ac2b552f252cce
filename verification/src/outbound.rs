//! The outbound path of one session.
//!
//! Everything a session sends goes through one queue of byte buffers. A
//! single forwarder drains it: it takes the oldest buffer, writes it to the
//! transport, reports how the write went, and only then takes the next. So
//! at most one write is in flight, and buffers reach the transport in the
//! order in which they were queued. A failed write stops the path for good.

use std::collections::VecDeque;
use vstd::prelude::*;

verus! {

/// The state of an outbound path, as contracts see it.
pub struct OutboundView {
    /// The buffers that wait to be written, oldest first.
    pub pending: Seq<Seq<u8>>,
    /// Whether a buffer has been taken and its write not yet reported.
    pub in_flight: bool,
    /// Whether a write has failed.
    pub stopped: bool,
}

impl OutboundView {
    /// A path with nothing queued.
    pub open spec fn empty() -> OutboundView {
        OutboundView { pending: Seq::empty(), in_flight: false, stopped: false }
    }

    /// Whether the forwarder may take a buffer now.
    pub open spec fn ready(self) -> bool {
        !self.stopped && !self.in_flight && self.pending.len() > 0
    }

    /// The path after `bytes` was offered to it. A stopped path drops them.
    pub open spec fn enqueue(self, bytes: Seq<u8>) -> OutboundView {
        if self.stopped {
            self
        } else {
            OutboundView { pending: self.pending.push(bytes), ..self }
        }
    }

    /// The buffer that the forwarder takes now, if it may take one.
    pub open spec fn next_buffer(self) -> Option<Seq<u8>> {
        if self.ready() {
            Some(self.pending[0])
        } else {
            None
        }
    }

    /// The path after the forwarder asked for a buffer.
    pub open spec fn after_take(self) -> OutboundView {
        if self.ready() {
            OutboundView { pending: self.pending.skip(1), in_flight: true, ..self }
        } else {
            self
        }
    }

    /// The path after the write in flight was reported. A failure stops the
    /// path and discards what was still queued.
    pub open spec fn finish_write(self, delivered: bool) -> OutboundView {
        if delivered {
            OutboundView { in_flight: false, ..self }
        } else {
            OutboundView { pending: Seq::empty(), in_flight: false, stopped: true }
        }
    }

    /// The path after it was closed: nothing is queued any more and nothing
    /// will be.
    pub open spec fn close(self) -> OutboundView {
        OutboundView { pending: Seq::empty(), stopped: true, ..self }
    }

    /// The buffers that `count` more writes hand to the transport, in the
    /// order in which they are written, if every write succeeds. A write
    /// that is in flight is reported first.
    pub open spec fn written(self, count: nat) -> Seq<Seq<u8>>
        decreases count,
    {
        let idle = self.finish_write(true);
        if count == 0 || !idle.ready() {
            Seq::empty()
        } else {
            seq![idle.pending[0]] + idle.after_take().written((count - 1) as nat)
        }
    }

    /// Everything that the path still hands to the transport if every write
    /// succeeds.
    pub open spec fn drained(self) -> Seq<Seq<u8>> {
        self.written(self.pending.len())
    }
}

/// The outbound queue of one session.
pub struct Outbound {
    pending: VecDeque<Vec<u8>>,
    in_flight: bool,
    stopped: bool,
}

impl View for Outbound {
    type V = OutboundView;

    closed spec fn view(&self) -> OutboundView {
        OutboundView {
            pending: self.pending@.map_values(|buffer: Vec<u8>| buffer@),
            in_flight: self.in_flight,
            stopped: self.stopped,
        }
    }
}

impl Outbound {
    /// A path with nothing queued and no write in flight.
    pub fn new() -> (outbound: Outbound)
        ensures
            outbound@ == OutboundView::empty(),
    {
        let outbound = Outbound { pending: VecDeque::new(), in_flight: false, stopped: false };
        assert(outbound@.pending =~= Seq::<Seq<u8>>::empty());
        outbound
    }

    /// The number of buffers that wait to be written.
    pub fn len(&self) -> (count: usize)
        ensures
            count == self@.pending.len(),
    {
        self.pending.len()
    }

    /// Whether a write is in flight.
    pub fn is_writing(&self) -> (writing: bool)
        ensures
            writing == self@.in_flight,
    {
        self.in_flight
    }

    /// Whether a write has failed and the path is closed.
    pub fn is_stopped(&self) -> (stopped: bool)
        ensures
            stopped == self@.stopped,
    {
        self.stopped
    }

    /// Queues `bytes` behind everything queued before. A stopped path
    /// refuses them.
    pub fn enqueue(&mut self, bytes: Vec<u8>) -> (accepted: bool)
        ensures
            accepted == !old(self)@.stopped,
            final(self)@ == old(self)@.enqueue(bytes@),
    {
        if self.stopped {
            false
        } else {
            self.pending.push_back(bytes);
            assert(self@.pending =~= old(self)@.pending.push(bytes@));
            true
        }
    }

    /// Takes the oldest buffer for writing, unless a write is in flight, the
    /// path is stopped, or nothing is queued.
    pub fn next_write(&mut self) -> (buffer: Option<Vec<u8>>)
        ensures
            final(self)@ == old(self)@.after_take(),
            match buffer {
                Some(bytes) => old(self)@.next_buffer() == Some(bytes@),
                None => old(self)@.next_buffer() is None,
            },
    {
        if self.stopped || self.in_flight {
            return None;
        }
        match self.pending.pop_front() {
            Some(bytes) => {
                self.in_flight = true;
                assert(self@.pending =~= old(self)@.pending.skip(1));
                Some(bytes)
            },
            None => {
                None
            },
        }
    }

    /// Closes the path: what is still queued is discarded, and nothing more
    /// is accepted. The forwarder, which finds the path stopped, can end.
    pub fn close(&mut self)
        ensures
            final(self)@ == old(self)@.close(),
    {
        self.stopped = true;
        self.pending.clear();
        assert(self@.pending =~= Seq::<Seq<u8>>::empty());
    }

    /// Reports how the write in flight went.
    pub fn finish_write(&mut self, delivered: bool)
        ensures
            final(self)@ == old(self)@.finish_write(delivered),
    {
        self.in_flight = false;
        if !delivered {
            self.stopped = true;
            self.pending.clear();
            assert(self@.pending =~= Seq::<Seq<u8>>::empty());
        }
    }
}

/// First in, first out: what a path hands to the transport is what is
/// queued, from the oldest buffer on. So two buffers queued one after the
/// other are written in that order, behind everything queued before them. A
/// stopped path hands over nothing, whatever is offered to it.
pub proof fn writes_keep_queue_order(path: OutboundView, first: Seq<u8>, second: Seq<u8>)
    ensures
        !path.stopped ==> path.drained() == path.pending,
        !path.stopped ==> path.enqueue(first).enqueue(second).drained() == path.drained() + seq![
            first,
            second,
        ],
        path.stopped ==> path.enqueue(first).enqueue(second) == path,
{
    if !path.stopped {
        let both = path.enqueue(first).enqueue(second);
        lemma_written_is_prefix(path, path.pending.len());
        lemma_written_is_prefix(both, both.pending.len());
    }
}

/// At most one write is in flight: while one is, the forwarder is handed
/// nothing and the queue stays as it is.
pub proof fn one_write_at_a_time(path: OutboundView)
    requires
        path.in_flight,
    ensures
        path.next_buffer() is None,
        path.after_take() == path,
{
}

proof fn lemma_written_is_prefix(path: OutboundView, count: nat)
    requires
        !path.stopped,
        count <= path.pending.len(),
    ensures
        path.written(count) == path.pending.take(count as int),
    decreases count,
{
    if count > 0 {
        let rest = path.finish_write(true).after_take();
        lemma_written_is_prefix(rest, (count - 1) as nat);
        assert(path.pending.take(count as int) =~= seq![path.pending[0]] + rest.pending.take(
            count - 1,
        ));
    }
}

} // verus!
