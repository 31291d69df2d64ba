//! Who frees the state behind a read stream. The host builds it, hands it to
//! the engine when the stream is made, and from then on only the engine's
//! finalizer frees it; if no stream was made, the host frees it itself.
use vstd::prelude::*;

verus! {

/// Who holds the state behind a read stream.
#[derive(Debug, Clone, Copy, PartialEq, Eq, Structural)]
pub enum Holder {
    /// The host built it and has not handed it over.
    Host,
    /// A stream was made: the engine owns it until its finalizer runs.
    Engine,
    /// It has been freed.
    Freed,
}

/// Something that happens to the state behind a read stream.
#[derive(Debug, Clone, Copy, PartialEq, Eq, Structural)]
pub enum HandoverEvent {
    /// The engine was asked for a stream over the state and did, or did not,
    /// make one.
    StreamMade(bool),
    /// The host's call is over and its own handle on the state goes away.
    HostDone,
    /// The engine's finalizer ran for the stream.
    Finalized,
}

/// The holder after `event`, and whether the state is to be freed then.
pub open spec fn handover_step(holder: Holder, event: HandoverEvent) -> (Holder, bool) {
    match event {
        HandoverEvent::StreamMade(made) => if holder is Host && made {
            (Holder::Engine, false)
        } else {
            (holder, false)
        },
        HandoverEvent::HostDone => if holder is Host {
            (Holder::Freed, true)
        } else {
            (holder, false)
        },
        HandoverEvent::Finalized => if holder is Engine {
            (Holder::Freed, true)
        } else {
            (holder, false)
        },
    }
}

/// How many times the state is freed over `events`, from `holder`.
pub open spec fn handover_frees(holder: Holder, events: Seq<HandoverEvent>) -> nat
    decreases events.len(),
{
    if events.len() == 0 {
        0
    } else {
        let (next, freed) = handover_step(holder, events[0]);
        (if freed { 1nat } else { 0nat }) + handover_frees(next, events.drop_first())
    }
}

/// The hand-over of the state behind one read stream.
pub struct Handover {
    holder: Holder,
}

impl View for Handover {
    type V = Holder;

    closed spec fn view(&self) -> Holder {
        self.holder
    }
}

impl Handover {
    /// State that the host has built and not yet handed over.
    pub fn new() -> (h: Handover)
        ensures
            h@ == Holder::Host,
    {
        Handover { holder: Holder::Host }
    }

    /// Who holds the state now.
    pub fn holder(&self) -> (h: Holder)
        ensures
            h == self@,
    {
        self.holder
    }

    /// Takes in whether the engine made a stream over the state; if it did,
    /// the engine owns the state from now on.
    pub fn record_stream(&mut self, made: bool)
        ensures
            final(self)@ == handover_step(old(self)@, HandoverEvent::StreamMade(made)).0,
    {
        if made {
            if let Holder::Host = self.holder {
                self.holder = Holder::Engine;
            }
        }
    }

    /// The host's call is over; says whether the host is to free the state,
    /// which it is only where it never handed it over.
    pub fn host_done(&mut self) -> (free: bool)
        ensures
            (final(self)@, free) == handover_step(old(self)@, HandoverEvent::HostDone),
    {
        if let Holder::Host = self.holder {
            self.holder = Holder::Freed;
            true
        } else {
            false
        }
    }

    /// The engine's finalizer runs; says whether it is to free the state,
    /// which it is only where the engine owns it.
    pub fn finalize(&mut self) -> (free: bool)
        ensures
            (final(self)@, free) == handover_step(old(self)@, HandoverEvent::Finalized),
    {
        if let Holder::Engine = self.holder {
            self.holder = Holder::Freed;
            true
        } else {
            false
        }
    }
}

proof fn lemma_none_after_freed(events: Seq<HandoverEvent>)
    ensures
        handover_frees(Holder::Freed, events) == 0,
    decreases events.len(),
{
    if events.len() > 0 {
        lemma_none_after_freed(events.drop_first());
    }
}

proof fn lemma_at_most_once(holder: Holder, events: Seq<HandoverEvent>)
    ensures
        handover_frees(holder, events) <= 1,
    decreases events.len(),
{
    if events.len() > 0 {
        let (next, freed) = handover_step(holder, events[0]);
        if freed {
            lemma_none_after_freed(events.drop_first());
        } else {
            lemma_at_most_once(next, events.drop_first());
        }
    }
}

proof fn lemma_engine_frees_at_finalizer(events: Seq<HandoverEvent>)
    requires
        exists|i: int| 0 <= i < events.len() && events[i] is Finalized,
    ensures
        handover_frees(Holder::Engine, events) == 1,
    decreases events.len(),
{
    let rest = events.drop_first();
    if events[0] is Finalized {
        lemma_none_after_freed(rest);
    } else {
        let i = choose|i: int| 0 <= i < events.len() && events[i] is Finalized;
        assert(rest[i - 1] is Finalized);
        lemma_engine_frees_at_finalizer(rest);
    }
}

/// The state behind a read stream is freed at most once, whatever happens in
/// whatever order. Once a stream has been made over it, the host never frees
/// it and the engine's finalizer does, exactly once; where the engine made no
/// stream, the host frees it when its call is over.
pub proof fn lemma_handover_frees_once(holder: Holder, events: Seq<HandoverEvent>)
    ensures
        handover_frees(holder, events) <= 1,
        !handover_step(Holder::Engine, HandoverEvent::HostDone).1,
        holder is Engine && (exists|i: int| 0 <= i < events.len() && events[i] is Finalized)
            ==> handover_frees(holder, events) == 1,
        handover_frees(
            Holder::Host,
            seq![HandoverEvent::StreamMade(false), HandoverEvent::HostDone],
        ) == 1,
        handover_frees(
            Holder::Host,
            seq![HandoverEvent::StreamMade(true), HandoverEvent::HostDone, HandoverEvent::Finalized],
        ) == 1,
{
    lemma_at_most_once(holder, events);
    if holder is Engine && (exists|i: int| 0 <= i < events.len() && events[i] is Finalized) {
        lemma_engine_frees_at_finalizer(events);
    }
    let a = seq![HandoverEvent::StreamMade(false), HandoverEvent::HostDone];
    assert(a.drop_first() =~= seq![HandoverEvent::HostDone]);
    assert(seq![HandoverEvent::HostDone].drop_first() =~= Seq::<HandoverEvent>::empty());
    assert(handover_frees(Holder::Freed, Seq::<HandoverEvent>::empty()) == 0);
    assert(seq![HandoverEvent::HostDone][0] == HandoverEvent::HostDone);
    assert(handover_frees(Holder::Host, seq![HandoverEvent::HostDone]) == 1);
    let b = seq![HandoverEvent::StreamMade(true), HandoverEvent::HostDone, HandoverEvent::Finalized];
    let b1 = seq![HandoverEvent::HostDone, HandoverEvent::Finalized];
    let b2 = seq![HandoverEvent::Finalized];
    assert(b.drop_first() =~= b1);
    assert(b1.drop_first() =~= b2);
    assert(b2.drop_first() =~= Seq::<HandoverEvent>::empty());
    assert(b2[0] == HandoverEvent::Finalized);
    assert(handover_frees(Holder::Engine, b2) == 1);
    assert(b1[0] == HandoverEvent::HostDone);
    assert(handover_frees(Holder::Engine, b1) == 1);
}

} // verus!
