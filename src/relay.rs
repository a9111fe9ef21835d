use vstd::prelude::*;

verus! {

/// What a relay buffer has seen: every byte read from the source, the bytes
/// written to the destination so far, and those still waiting.
pub struct RelayView {
    pub received: Seq<u8>,
    pub delivered: Seq<u8>,
    pub pending: Seq<u8>,
}

/// One thing that happens to a relay buffer: a chunk read from the source,
/// or a write that the destination took `n` bytes of.
pub enum RelayEvent {
    Read(Seq<u8>),
    Wrote(nat),
}

/// A relay buffer before anything was read.
pub open spec fn relay_start() -> RelayView {
    RelayView { received: Seq::empty(), delivered: Seq::empty(), pending: Seq::empty() }
}

/// The relay buffer after one event. A write of more bytes than are waiting
/// cannot happen and changes nothing.
pub open spec fn relay_step(v: RelayView, e: RelayEvent) -> RelayView {
    match e {
        RelayEvent::Read(c) => RelayView {
            received: v.received + c,
            delivered: v.delivered,
            pending: v.pending + c,
        },
        RelayEvent::Wrote(n) => if n <= v.pending.len() {
            RelayView {
                received: v.received,
                delivered: v.delivered + v.pending.subrange(0, n as int),
                pending: v.pending.subrange(n as int, v.pending.len() as int),
            }
        } else {
            v
        },
    }
}

/// The relay buffer after a sequence of events, from the start.
pub open spec fn relay_run(evs: Seq<RelayEvent>) -> RelayView
    decreases evs.len(),
{
    if evs.len() == 0 {
        relay_start()
    } else {
        relay_step(relay_run(evs.drop_last()), evs.last())
    }
}

/// All the bytes read, in order, of a sequence of events.
pub open spec fn bytes_read(evs: Seq<RelayEvent>) -> Seq<u8>
    decreases evs.len(),
{
    if evs.len() == 0 {
        Seq::empty()
    } else {
        match evs.last() {
            RelayEvent::Read(c) => bytes_read(evs.drop_last()) + c,
            RelayEvent::Wrote(_) => bytes_read(evs.drop_last()),
        }
    }
}

/// Whatever the chunks the source was read in and the sizes the destination
/// took them in, what was written followed by what waits is exactly what was
/// read, in order; so once nothing waits, the destination has received the
/// very bytes the source gave.
pub proof fn lemma_relay_keeps_order(evs: Seq<RelayEvent>)
    ensures
        relay_run(evs).delivered + relay_run(evs).pending == bytes_read(evs),
        relay_run(evs).received == bytes_read(evs),
        relay_run(evs).pending.len() == 0 ==> relay_run(evs).delivered == bytes_read(evs),
    decreases evs.len(),
{
    if evs.len() > 0 {
        let prev = relay_run(evs.drop_last());
        lemma_relay_keeps_order(evs.drop_last());
        match evs.last() {
            RelayEvent::Read(c) => {
                assert(prev.delivered + (prev.pending + c) =~= (prev.delivered + prev.pending) + c);
            },
            RelayEvent::Wrote(n) => {
                if n <= prev.pending.len() {
                    assert(prev.delivered + prev.pending.subrange(0, n as int)
                        + prev.pending.subrange(n as int, prev.pending.len() as int)
                        =~= prev.delivered + prev.pending);
                }
            },
        }
    }
    let v = relay_run(evs);
    if v.pending.len() == 0 {
        assert(v.delivered + v.pending =~= v.delivered);
    }
}

/// A buffer between a source that is read in chunks and a destination that
/// may take fewer bytes than offered.
pub struct Relay {
    pending: Vec<u8>,
    received: Ghost<Seq<u8>>,
    delivered: Ghost<Seq<u8>>,
}

impl View for Relay {
    type V = RelayView;

    closed spec fn view(&self) -> RelayView {
        RelayView {
            received: self.received@,
            delivered: self.delivered@,
            pending: self.pending@,
        }
    }
}

impl Relay {
    /// An empty buffer.
    pub fn new() -> (r: Relay)
        ensures
            r@ == relay_start(),
    {
        let r = Relay { pending: Vec::new(), received: Ghost(Seq::empty()), delivered: Ghost(Seq::empty()) };
        assert(r@.pending =~= Seq::<u8>::empty());
        r
    }

    /// Takes a chunk read from the source.
    pub fn read(&mut self, chunk: &[u8])
        ensures
            final(self)@ == relay_step(old(self)@, RelayEvent::Read(chunk@)),
    {
        let mut i: usize = 0;
        let ghost start = self.pending@;
        while i < chunk.len()
            invariant
                i <= chunk@.len(),
                self.pending@ == start + chunk@.subrange(0, i as int),
                self.received == old(self).received,
                self.delivered == old(self).delivered,
            decreases chunk@.len() - i,
        {
            self.pending.push(chunk[i]);
            i += 1;
            assert(self.pending@ =~= start + chunk@.subrange(0, i as int));
        }
        assert(chunk@.subrange(0, chunk@.len() as int) =~= chunk@);
        self.received = Ghost(self.received@ + chunk@);
    }

    /// The bytes waiting for the destination.
    pub fn pending(&self) -> (r: &[u8])
        ensures
            r@ == self@.pending,
    {
        self.pending.as_slice()
    }

    /// Whether nothing waits.
    pub fn is_drained(&self) -> (r: bool)
        ensures
            r == (self@.pending.len() == 0),
    {
        self.pending.len() == 0
    }

    /// Records that the destination took the first `n` waiting bytes.
    pub fn wrote(&mut self, n: usize)
        requires
            n <= old(self)@.pending.len(),
        ensures
            final(self)@ == relay_step(old(self)@, RelayEvent::Wrote(n as nat)),
    {
        let ghost taken = self.pending@.subrange(0, n as int);
        let mut rest: Vec<u8> = Vec::new();
        let mut i: usize = n;
        while i < self.pending.len()
            invariant
                n <= i <= self.pending@.len(),
                rest@ == self.pending@.subrange(n as int, i as int),
            decreases self.pending@.len() - i,
        {
            rest.push(self.pending[i]);
            i += 1;
            assert(rest@ =~= self.pending@.subrange(n as int, i as int));
        }
        self.pending = rest;
        self.delivered = Ghost(self.delivered@ + taken);
    }
}

} // verus!
