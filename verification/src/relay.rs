//! The log stream relay: a bounded, strictly FIFO channel model between
//! the duty that pulls chunks from the runtime's log stream (the producer)
//! and the duty that forwards them to the registered sink (the forwarder).
//!
//! The relay tracks, alongside the buffered chunks, the full sequence of
//! chunks accepted from the runtime and the full sequence handed to the
//! sink. Its invariant — produced equals delivered followed by buffered —
//! is what makes the delivery guarantees exact: chunks reach the sink in
//! production order, none is dropped, and at most [`RELAY_CAPACITY`] of
//! them are ever held. A full buffer makes the producer's offer fail, so a
//! slow sink creates backpressure instead of memory growth. On any
//! terminal phase no further chunk is accepted, and once a terminal phase
//! other than the stream's own end is observed, none is delivered either.

use vstd::prelude::*;

verus! {

/// Capacity of the bounded intermediary channel between the producer and
/// the forwarder.
pub const RELAY_CAPACITY: usize = 100;

/// The phase of a log subscription: streaming, or one of the three
/// terminal phases — the runtime closed the stream, the sink became
/// unreachable, or the subscription was cancelled.
#[derive(Clone, Copy, Debug, PartialEq, Eq, Structural)]
pub enum RelayPhase {
    Streaming,
    Ended,
    SinkClosed,
    Cancelled,
}

/// The state of one log subscription.
pub struct LogRelay {
    phase: RelayPhase,
    buffer: Vec<Vec<u8>>,
    produced: Ghost<Seq<Seq<u8>>>,
    delivered: Ghost<Seq<Seq<u8>>>,
}

impl LogRelay {
    /// The current phase.
    pub closed spec fn phase(&self) -> RelayPhase {
        self.phase
    }

    /// The chunks currently buffered, oldest first.
    pub closed spec fn buffered(&self) -> Seq<Seq<u8>> {
        self.buffer@.map_values(|c: Vec<u8>| c@)
    }

    /// Every chunk accepted from the runtime so far, in production order.
    pub closed spec fn produced(&self) -> Seq<Seq<u8>> {
        self.produced@
    }

    /// Every chunk handed to the sink so far, in delivery order.
    pub closed spec fn delivered(&self) -> Seq<Seq<u8>> {
        self.delivered@
    }

    /// The relay invariant: what was produced is exactly what was
    /// delivered followed by what is still buffered, and the buffer never
    /// exceeds the channel capacity.
    pub open spec fn wf(&self) -> bool {
        &&& self.produced() == self.delivered() + self.buffered()
        &&& self.buffered().len() <= RELAY_CAPACITY
    }

    /// A fresh subscription, streaming and empty.
    pub fn new() -> (r: LogRelay)
        ensures
            r.wf(),
            r.phase() == RelayPhase::Streaming,
            r.produced() == Seq::<Seq<u8>>::empty(),
            r.delivered() == Seq::<Seq<u8>>::empty(),
            r.buffered() == Seq::<Seq<u8>>::empty(),
    {
        let r = LogRelay {
            phase: RelayPhase::Streaming,
            buffer: Vec::new(),
            produced: Ghost(Seq::empty()),
            delivered: Ghost(Seq::empty()),
        };
        proof {
            assert(r.buffered() =~= Seq::<Seq<u8>>::empty());
            assert(r.produced() =~= r.delivered() + r.buffered());
        }
        r
    }

    /// A subscription whose log stream could not even be opened: it is
    /// over from the start, in the ended phase, with zero chunks
    /// delivered. The failure is reported once by the caller; it never
    /// escalates past the subscription.
    pub fn failed_open() -> (r: LogRelay)
        ensures
            r.wf(),
            r.phase() == RelayPhase::Ended,
            r.produced() == Seq::<Seq<u8>>::empty(),
            r.delivered() == Seq::<Seq<u8>>::empty(),
            r.buffered() == Seq::<Seq<u8>>::empty(),
    {
        let mut r = LogRelay::new();
        r.end_stream();
        r
    }

    /// The producer duty offers one chunk pulled from the runtime. It is
    /// accepted exactly when the subscription is still streaming and the
    /// buffer has room; a full buffer rejects the chunk so that the
    /// producer suspends and retries — backpressure, never a drop. After a
    /// terminal phase nothing is accepted.
    pub fn offer(&mut self, chunk: Vec<u8>) -> (accepted: bool)
        requires
            old(self).wf(),
        ensures
            final(self).wf(),
            accepted == (old(self).phase() == RelayPhase::Streaming && old(self).buffered().len()
                < RELAY_CAPACITY),
            final(self).phase() == old(self).phase(),
            final(self).delivered() == old(self).delivered(),
            accepted ==> final(self).produced() == old(self).produced().push(chunk@)
                && final(self).buffered() == old(self).buffered().push(chunk@),
            !accepted ==> final(self).produced() == old(self).produced() && final(self).buffered()
                == old(self).buffered(),
    {
        match self.phase {
            RelayPhase::Streaming => {
                if self.buffer.len() < RELAY_CAPACITY {
                    let ghost c = chunk@;
                    self.buffer.push(chunk);
                    proof {
                        self.produced@ = self.produced@.push(c);
                        assert(self.buffered() =~= old(self).buffered().push(c));
                        assert(self.produced() =~= self.delivered() + self.buffered());
                    }
                    true
                } else {
                    false
                }
            },
            _ => false,
        }
    }

    /// The forwarder duty takes the oldest buffered chunk to hand to the
    /// sink. A chunk comes out exactly when one is buffered and the
    /// subscription is streaming or draining after the stream's own end;
    /// after a cancellation or a sink failure nothing is delivered.
    pub fn take(&mut self) -> (r: Option<Vec<u8>>)
        requires
            old(self).wf(),
        ensures
            final(self).wf(),
            final(self).phase() == old(self).phase(),
            final(self).produced() == old(self).produced(),
            r is Some <==> ((old(self).phase() == RelayPhase::Streaming || old(self).phase()
                == RelayPhase::Ended) && old(self).buffered().len() > 0),
            match r {
                Some(c) => {
                    &&& c@ == old(self).buffered()[0]
                    &&& final(self).buffered() == old(self).buffered().drop_first()
                    &&& final(self).delivered() == old(self).delivered().push(c@)
                },
                None => {
                    &&& final(self).buffered() == old(self).buffered()
                    &&& final(self).delivered() == old(self).delivered()
                },
            },
    {
        match self.phase {
            RelayPhase::Streaming | RelayPhase::Ended => {
                if self.buffer.len() > 0 {
                    let c = self.buffer.remove(0);
                    proof {
                        self.delivered@ = self.delivered@.push(c@);
                        assert(self.buffer@ =~= old(self).buffer@.drop_first());
                        assert(self.buffered() =~= old(self).buffered().drop_first());
                        assert(self.produced() =~= self.delivered() + self.buffered());
                    }
                    Some(c)
                } else {
                    None
                }
            },
            _ => None,
        }
    }

    /// The runtime closed the log stream: a streaming subscription ends;
    /// already-buffered chunks may still drain to the sink.
    pub fn end_stream(&mut self)
        requires
            old(self).wf(),
        ensures
            final(self).wf(),
            final(self).phase() == (if old(self).phase() == RelayPhase::Streaming {
                RelayPhase::Ended
            } else {
                old(self).phase()
            }),
            final(self).produced() == old(self).produced(),
            final(self).delivered() == old(self).delivered(),
            final(self).buffered() == old(self).buffered(),
    {
        if let RelayPhase::Streaming = self.phase {
            self.phase = RelayPhase::Ended;
        }
    }

    /// The caller cancelled the subscription: a streaming subscription
    /// becomes cancelled, after which no chunk is accepted or delivered.
    pub fn cancel(&mut self)
        requires
            old(self).wf(),
        ensures
            final(self).wf(),
            final(self).phase() == (if old(self).phase() == RelayPhase::Streaming {
                RelayPhase::Cancelled
            } else {
                old(self).phase()
            }),
            final(self).produced() == old(self).produced(),
            final(self).delivered() == old(self).delivered(),
            final(self).buffered() == old(self).buffered(),
    {
        if let RelayPhase::Streaming = self.phase {
            self.phase = RelayPhase::Cancelled;
        }
    }

    /// Forwarding to the sink failed: terminal, not retried.
    pub fn sink_closed(&mut self)
        requires
            old(self).wf(),
        ensures
            final(self).wf(),
            final(self).phase() == (if old(self).phase() == RelayPhase::Streaming {
                RelayPhase::SinkClosed
            } else {
                old(self).phase()
            }),
            final(self).produced() == old(self).produced(),
            final(self).delivered() == old(self).delivered(),
            final(self).buffered() == old(self).buffered(),
    {
        if let RelayPhase::Streaming = self.phase {
            self.phase = RelayPhase::SinkClosed;
        }
    }

    /// The current phase, for the driving loop.
    pub fn phase_now(&self) -> (p: RelayPhase)
        ensures
            p == self.phase(),
    {
        self.phase
    }

    /// How many chunks wait in the channel.
    pub fn pending_len(&self) -> (n: usize)
        ensures
            n == self.buffered().len(),
    {
        self.buffer.len()
    }
}

/// What the sink has received is always a prefix of what the runtime
/// produced: delivery preserves the production order exactly and drops
/// nothing — anything not yet delivered still waits in the buffer.
pub proof fn lemma_delivery_preserves_order(r: LogRelay)
    requires
        r.wf(),
    ensures
        r.delivered() == r.produced().subrange(0, r.delivered().len() as int),
{
    assert(r.delivered() =~= r.produced().subrange(0, r.delivered().len() as int));
}

/// Once the buffer has drained, the sink has received exactly the chunks
/// the runtime produced, in their order.
pub proof fn lemma_drained_relay_delivered_everything(r: LogRelay)
    requires
        r.wf(),
        r.buffered().len() == 0,
    ensures
        r.delivered() == r.produced(),
{
    assert(r.delivered() =~= r.produced());
}

} // verus!
