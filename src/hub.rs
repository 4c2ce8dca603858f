use vstd::prelude::*;

use crate::updates::{is_terminal, SimulationUpdate, UpdateView};

verus! {

/// Why a publish was refused.
#[derive(Clone, Copy, Debug, PartialEq, Eq, Structural)]
pub enum HubError {
    /// A terminal update was published before: the producer side is closed for good.
    Closed,
}

/// A consumer's place in the broadcast: the sequence number of the next update it
/// expects.
#[derive(Clone, Copy, Debug, PartialEq, Eq, Structural)]
pub struct Subscriber {
    next: u64,
}

impl Subscriber {
    pub closed spec fn spec_next(&self) -> nat {
        self.next as nat
    }

    pub fn next_sequence(&self) -> (r: u64)
        ensures
            r == self.spec_next(),
    {
        self.next
    }
}

/// What one receive attempt yields.
#[derive(Debug)]
pub enum RecvOutcome {
    /// The next update in publish order.
    Update(SimulationUpdate),
    /// The subscriber fell behind the retained history; this many updates were skipped
    /// and it continues from the oldest retained one.
    Lagged(u64),
    /// Nothing new has been published yet.
    Empty,
    /// Everything was received and the producer side is closed.
    Closed,
}

/// What a receive attempt yields, as a mathematical value.
pub enum Received {
    Update(UpdateView),
    Lagged(nat),
    Empty,
    Closed,
}

pub open spec fn received(r: RecvOutcome) -> Received {
    match r {
        RecvOutcome::Update(u) => Received::Update(u@),
        RecvOutcome::Lagged(n) => Received::Lagged(n as nat),
        RecvOutcome::Empty => Received::Empty,
        RecvOutcome::Closed => Received::Closed,
    }
}

/// The single-producer, many-consumer distribution of updates. It keeps the most recent
/// `retention` updates; publishing never waits on consumers, and a consumer that falls
/// further behind is told so with `Lagged`.
pub struct BroadcastHub {
    slots: Vec<SimulationUpdate>,
    retention: usize,
    published: u64,
    closed: bool,
    log: Ghost<Seq<UpdateView>>,
}

impl BroadcastHub {
    /// Every update published so far, in publish order.
    pub closed spec fn log(&self) -> Seq<UpdateView> {
        self.log@
    }

    pub closed spec fn spec_retention(&self) -> nat {
        self.retention as nat
    }

    pub closed spec fn spec_closed(&self) -> bool {
        self.closed
    }

    /// The sequence number of the oldest retained update.
    pub closed spec fn oldest(&self) -> nat {
        (self.published - self.slots@.len()) as nat
    }

    pub closed spec fn wf(&self) -> bool {
        &&& 0 < self.retention
        &&& self.published == self.log@.len()
        &&& self.slots@.len() == if self.published < self.retention {
            self.published as int
        } else {
            self.retention as int
        }
        &&& forall|i: int|
            0 <= i < self.slots@.len() ==> #[trigger] self.slots@[i]@ == self.log@[self.published
                - self.slots@.len() + i]
        &&& self.closed <==> (self.log@.len() > 0 && is_terminal(self.log@.last()))
        &&& forall|i: int| 0 <= i < self.log@.len() - 1 ==> !is_terminal(#[trigger] self.log@[i])
    }

    /// What a subscriber at `next` receives, and where it stands afterwards.
    pub open spec fn recv_spec(&self, next: nat) -> (Received, nat) {
        let published = self.log().len();
        if next < self.oldest() {
            (Received::Lagged((self.oldest() - next) as nat), self.oldest())
        } else if next < published {
            (Received::Update(self.log()[next as int]), next + 1)
        } else if self.spec_closed() {
            (Received::Closed, next)
        } else {
            (Received::Empty, next)
        }
    }

    /// An open hub with nothing published, that retains the last `retention` updates.
    pub fn new(retention: usize) -> (h: Self)
        requires
            retention > 0,
        ensures
            h.wf(),
            h.log() == Seq::<UpdateView>::empty(),
            h.spec_retention() == retention,
            !h.spec_closed(),
    {
        BroadcastHub {
            slots: Vec::new(),
            retention,
            published: 0,
            closed: false,
            log: Ghost(Seq::empty()),
        }
    }

    /// How many updates were published so far.
    pub fn published_count(&self) -> (r: u64)
        requires
            self.wf(),
        ensures
            r == self.log().len(),
    {
        self.published
    }

    pub fn is_closed(&self) -> (r: bool)
        ensures
            r == self.spec_closed(),
    {
        self.closed
    }

    /// Publishes `update` without waiting on any consumer; a terminal update closes the
    /// producer side. Once closed, every publish is refused and changes nothing.
    pub fn publish(&mut self, update: SimulationUpdate) -> (r: Result<(), HubError>)
        requires
            old(self).wf(),
            old(self).log().len() < u64::MAX,
        ensures
            final(self).wf(),
            final(self).spec_retention() == old(self).spec_retention(),
            r is Ok <==> !old(self).spec_closed(),
            r is Ok ==> final(self).log() == old(self).log().push(update@) && final(self).spec_closed() == is_terminal(update@),
            r is Err ==> r == Err::<(), HubError>(HubError::Closed) && final(self).log() == old(self).log() && final(self).spec_closed(),
    {
        if self.closed {
            return Err(HubError::Closed);
        }
        let ghost old_slots = self.slots@;
        let terminal = update.is_terminal();
        if self.slots.len() >= self.retention {
            self.slots.remove(0);
        }
        self.slots.push(update);
        self.published = self.published + 1;
        self.log = Ghost(self.log@.push(update@));
        self.closed = terminal;
        proof {
            assert forall|i: int| 0 <= i < self.slots@.len() implies #[trigger] self.slots@[i]@
                == self.log@[self.published - self.slots@.len() + i] by {
                if i < self.slots@.len() - 1 {
                    if old_slots.len() >= self.retention {
                        assert(self.slots@[i] == old_slots[i + 1]);
                    } else {
                        assert(self.slots@[i] == old_slots[i]);
                    }
                }
            }
        }
        Ok(())
    }

    /// A new consumer that sees only updates published from now on; on a closed hub it
    /// receives `Closed` at once.
    pub fn subscribe(&self) -> (s: Subscriber)
        requires
            self.wf(),
        ensures
            s.spec_next() == self.log().len(),
    {
        Subscriber { next: self.published }
    }

    /// Receives, for `sub`, the next update, a lag signal, or word that nothing is
    /// there (yet, or ever again). Never waits.
    pub fn recv(&self, sub: &mut Subscriber) -> (r: RecvOutcome)
        requires
            self.wf(),
        ensures
            (received(r), final(sub).spec_next()) == self.recv_spec(old(sub).spec_next()),
    {
        let oldest: u64 = self.published - self.slots.len() as u64;
        if sub.next < oldest {
            let skipped: u64 = oldest - sub.next;
            sub.next = oldest;
            RecvOutcome::Lagged(skipped)
        } else if sub.next < self.published {
            let idx: usize = (sub.next - oldest) as usize;
            let u = self.slots[idx].duplicate();
            sub.next = sub.next + 1;
            RecvOutcome::Update(u)
        } else if self.closed {
            RecvOutcome::Closed
        } else {
            RecvOutcome::Empty
        }
    }
}

/// A subscriber that fell behind the retained history is told so exactly once, with a
/// non-zero count of skipped updates, and then resumes with the oldest retained update,
/// which directly follows the skipped ones: no update goes missing without a signal.
pub proof fn lemma_lag_signalled_then_resumed(hub: BroadcastHub, next: nat)
    requires
        hub.wf(),
        next < hub.oldest(),
    ensures
        hub.recv_spec(next).0 == Received::Lagged((hub.oldest() - next) as nat),
        hub.oldest() - next > 0,
        hub.recv_spec(next).1 == hub.oldest(),
        hub.recv_spec(hub.oldest()).0 == Received::Update(hub.log()[hub.oldest() as int]),
{
}

/// At most one terminal update is ever published, and it is the last one: no update
/// follows it, the hub is closed exactly when it has been published, and a subscriber
/// that is told `Closed` has received everything up to and including it.
pub proof fn lemma_terminal_is_last(hub: BroadcastHub, next: nat)
    requires
        hub.wf(),
    ensures
        forall|i: int|
            0 <= i < hub.log().len() && is_terminal(#[trigger] hub.log()[i]) ==> i == hub.log().len()
                - 1,
        hub.spec_closed() <==> (hub.log().len() > 0 && is_terminal(hub.log().last())),
        !hub.spec_closed() ==> forall|i: int|
            0 <= i < hub.log().len() ==> !is_terminal(#[trigger] hub.log()[i]),
        hub.recv_spec(next).0 == Received::Closed ==> next >= hub.log().len() && is_terminal(
            hub.log().last(),
        ) && hub.recv_spec(next).1 == next,
{
}

} // verus!
