//! The lifecycle of a document's native handle: allocated once, usable while
//! live, released exactly once.
use vstd::prelude::*;

use crate::status::{load_error, missing_handle_error, status_result, Error, STATUS_OK};

verus! {

/// Where a document stands in its life.
#[derive(Debug, Clone, Copy, PartialEq, Eq, Structural)]
pub enum DocState {
    /// No native handle has been obtained.
    Unallocated,
    /// The handle is live and no operation has failed.
    Ready,
    /// The handle is live and some operation has failed; further operations
    /// are still made, but the saved output is suspect.
    Errored,
    /// The handle has been handed back to the engine.
    Released,
}

/// Whether a document in this state holds a handle that must be freed.
pub open spec fn is_live(state: DocState) -> bool {
    state is Ready || state is Errored
}

/// Something that happens to a document.
#[derive(Debug, Clone, Copy, PartialEq, Eq, Structural)]
pub enum LifeEvent {
    /// The engine was asked for a handle and did, or did not, give one.
    Allocation(bool),
    /// An operation returned this status.
    Status(u32),
    /// The document is being destroyed.
    Release,
}

/// The state after `event`, and whether the handle is to be freed then.
pub open spec fn life_step(state: DocState, event: LifeEvent) -> (DocState, bool) {
    match event {
        LifeEvent::Allocation(ok) => if state is Unallocated && ok {
            (DocState::Ready, false)
        } else {
            (state, false)
        },
        LifeEvent::Status(code) => if is_live(state) && code != STATUS_OK {
            (DocState::Errored, false)
        } else {
            (state, false)
        },
        LifeEvent::Release => (DocState::Released, is_live(state)),
    }
}

/// How many times the handle is freed over `events`, from `state`.
pub open spec fn frees(state: DocState, events: Seq<LifeEvent>) -> nat
    decreases events.len(),
{
    if events.len() == 0 {
        0
    } else {
        let (next, freed) = life_step(state, events[0]);
        (if freed { 1nat } else { 0nat }) + frees(next, events.drop_first())
    }
}

/// The lifecycle of one document handle.
pub struct Lifecycle {
    state: DocState,
}

impl View for Lifecycle {
    type V = DocState;

    closed spec fn view(&self) -> DocState {
        self.state
    }
}

impl Lifecycle {
    /// A document that has not yet asked the engine for a handle.
    pub fn new() -> (l: Lifecycle)
        ensures
            l@ == DocState::Unallocated,
    {
        Lifecycle { state: DocState::Unallocated }
    }

    /// The current state.
    pub fn state(&self) -> (s: DocState)
        ensures
            s == self@,
    {
        self.state
    }

    /// Whether the document holds a live handle.
    pub fn is_live(&self) -> (b: bool)
        ensures
            b == is_live(self@),
    {
        match self.state {
            DocState::Ready | DocState::Errored => true,
            _ => false,
        }
    }

    /// Whether some operation on the live document has failed, so that what
    /// it saves is suspect.
    pub fn is_suspect(&self) -> (b: bool)
        ensures
            b == (self@ is Errored),
    {
        match self.state {
            DocState::Errored => true,
            _ => false,
        }
    }

    /// Takes in whether the engine gave a handle. Without one there is no
    /// document, and the engine has no document to record why.
    pub fn record_allocation(&mut self, allocated: bool) -> (r: Result<(), Error>)
        requires
            old(self)@ is Unallocated,
        ensures
            final(self)@ == life_step(old(self)@, LifeEvent::Allocation(allocated)).0,
            r == if allocated { Ok(()) } else { Err(Error::Unknown) },
    {
        if allocated {
            self.state = DocState::Ready;
            Ok(())
        } else {
            Err(Error::Unknown)
        }
    }

    /// Takes in the status of an operation on the live document.
    pub fn record_status(&mut self, status: u32) -> (r: Result<(), Error>)
        requires
            is_live(old(self)@),
        ensures
            final(self)@ == life_step(old(self)@, LifeEvent::Status(status)).0,
            r == status_result(status),
    {
        if status != STATUS_OK {
            self.state = DocState::Errored;
        }
        Error::from_status(status)
    }

    /// Takes in that an operation on the live document gave no handle, with
    /// the error that the engine recorded for it.
    pub fn record_missing(&mut self, last_error: u32) -> (e: Error)
        requires
            is_live(old(self)@),
        ensures
            final(self)@ is Errored,
            e == missing_handle_error(last_error),
    {
        self.state = DocState::Errored;
        Error::from_last_error(last_error)
    }

    /// Takes in that loading a font into the live document gave no font, with
    /// whether the font's source failed and the error that the engine recorded.
    pub fn record_load_failure(&mut self, read_failed: bool, last_error: u32) -> (e: Error)
        requires
            is_live(old(self)@),
        ensures
            final(self)@ is Errored,
            e == load_error(read_failed, last_error),
    {
        self.state = DocState::Errored;
        Error::from_load_failure(read_failed, last_error)
    }

    /// Takes in the result of an operation on the live document and passes it on.
    pub fn record_result(&mut self, r: Result<(), Error>) -> (out: Result<(), Error>)
        requires
            is_live(old(self)@),
        ensures
            out == r,
            final(self)@ == if r is Ok { old(self)@ } else { DocState::Errored },
    {
        if r.is_err() {
            self.state = DocState::Errored;
        }
        r
    }

    /// Ends the document's life, and says whether its handle is to be freed
    /// now: only where it is live, so never twice and never for a handle that
    /// was not obtained.
    pub fn release(&mut self) -> (free: bool)
        ensures
            (final(self)@, free) == life_step(old(self)@, LifeEvent::Release),
    {
        let free = match self.state {
            DocState::Ready | DocState::Errored => true,
            _ => false,
        };
        self.state = DocState::Released;
        free
    }
}

proof fn lemma_frees_from_released(events: Seq<LifeEvent>)
    ensures
        frees(DocState::Released, events) == 0,
    decreases events.len(),
{
    if events.len() > 0 {
        lemma_frees_from_released(events.drop_first());
    }
}

proof fn lemma_frees_from_unallocated(events: Seq<LifeEvent>)
    ensures
        frees(DocState::Unallocated, events) <= 1,
    decreases events.len(),
{
    if events.len() > 0 {
        let (next, freed) = life_step(DocState::Unallocated, events[0]);
        if next is Unallocated {
            lemma_frees_from_unallocated(events.drop_first());
        } else if next is Released {
            lemma_frees_from_released(events.drop_first());
        } else {
            lemma_frees_from_live(next, events.drop_first());
        }
    }
}

proof fn lemma_frees_from_live(state: DocState, events: Seq<LifeEvent>)
    requires
        is_live(state),
    ensures
        frees(state, events) <= 1,
        (exists|i: int| 0 <= i < events.len() && events[i] is Release) ==> frees(state, events)
            == 1,
    decreases events.len(),
{
    if events.len() > 0 {
        let (next, freed) = life_step(state, events[0]);
        let rest = events.drop_first();
        if events[0] is Release {
            lemma_frees_from_released(rest);
        } else {
            assert(is_live(next));
            lemma_frees_from_live(next, rest);
            if exists|i: int| 0 <= i < events.len() && events[i] is Release {
                let i = choose|i: int| 0 <= i < events.len() && events[i] is Release;
                assert(rest[i - 1] is Release);
            }
        }
    }
}

/// However often a document is released, and whatever operations report in
/// between, its handle is freed at most once. A live document that is
/// released is freed exactly once, one never allocated is never freed, and one
/// allocated and released at once is freed once.
pub proof fn lemma_release_frees_once(state: DocState, events: Seq<LifeEvent>)
    ensures
        frees(state, events) <= 1,
        is_live(state) && (exists|i: int| 0 <= i < events.len() && events[i] is Release) ==> frees(
            state,
            events,
        ) == 1,
        (forall|i: int| 0 <= i < events.len() ==> events[i] != LifeEvent::Allocation(true))
            && !is_live(state) ==> frees(state, events) == 0,
        frees(DocState::Unallocated, seq![LifeEvent::Allocation(true), LifeEvent::Release]) == 1,
{
    if is_live(state) {
        lemma_frees_from_live(state, events);
    } else if state is Released {
        lemma_frees_from_released(events);
    } else {
        lemma_frees_from_unallocated(events);
        if forall|i: int| 0 <= i < events.len() ==> events[i] != LifeEvent::Allocation(true) {
            lemma_never_allocated(events);
        }
    }
    let last = seq![LifeEvent::Release];
    let two = seq![LifeEvent::Allocation(true), LifeEvent::Release];
    assert(two.drop_first() =~= last);
    assert(last.drop_first() =~= Seq::<LifeEvent>::empty());
    assert(frees(DocState::Released, Seq::<LifeEvent>::empty()) == 0);
    assert(frees(DocState::Ready, last) == 1);
}

proof fn lemma_never_allocated(events: Seq<LifeEvent>)
    requires
        forall|i: int| 0 <= i < events.len() ==> events[i] != LifeEvent::Allocation(true),
    ensures
        frees(DocState::Unallocated, events) == 0,
    decreases events.len(),
{
    if events.len() > 0 {
        let rest = events.drop_first();
        assert forall|i: int| 0 <= i < rest.len() implies rest[i] != LifeEvent::Allocation(true) by {
            assert(rest[i] == events[i + 1]);
        }
        if events[0] is Release {
            lemma_frees_from_released(rest);
        } else {
            lemma_never_allocated(rest);
        }
    }
}

} // verus!
