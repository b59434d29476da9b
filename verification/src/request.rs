//! The capture requests that cycle between the pipeline and the device.
//!
//! Every request is bound to one buffer slot for the whole run. It is
//! queued with the device, completes when the hardware has filled its
//! buffer, is recycled once the frame has been taken out, and is queued
//! again. Requests are never added or dropped.

use vstd::prelude::*;

verus! {

/// Where a request stands in its cycle.
#[derive(Clone, Copy, Debug, PartialEq, Eq, Structural)]
pub enum RequestState {
    /// Submitted to the device, awaiting completion.
    Queued,
    /// Completed by the device; its frame can be read.
    Completed,
    /// Marked reusable; not with the device.
    Recycled,
}

impl RequestState {
    /// The state that follows in the cycle.
    pub open spec fn successor(self) -> RequestState {
        match self {
            RequestState::Queued => RequestState::Completed,
            RequestState::Completed => RequestState::Recycled,
            RequestState::Recycled => RequestState::Queued,
        }
    }
}

/// The states of a fixed set of requests, one per buffer slot.
pub struct RequestCycle {
    states: Vec<RequestState>,
}

impl View for RequestCycle {
    type V = Seq<RequestState>;

    closed spec fn view(&self) -> Seq<RequestState> {
        self.states@
    }
}

/// The states after request `index` has moved on from `from`. Nothing
/// changes where there is no such request or it is not in state `from`.
pub open spec fn advanced(states: Seq<RequestState>, index: int, from: RequestState) -> Seq<
    RequestState,
> {
    if 0 <= index < states.len() && states[index] == from {
        states.update(index, from.successor())
    } else {
        states
    }
}

impl RequestCycle {
    /// `count` requests, all of them reusable and none with the device.
    pub fn new(count: usize) -> (cycle: RequestCycle)
        ensures
            cycle@.len() == count,
            forall|i: int| 0 <= i < count ==> cycle@[i] == RequestState::Recycled,
    {
        let mut states: Vec<RequestState> = Vec::new();
        let mut filled: usize = 0;
        while filled < count
            invariant
                filled <= count,
                states@.len() == filled,
                forall|i: int| 0 <= i < filled ==> states@[i] == RequestState::Recycled,
            decreases count - filled,
        {
            states.push(RequestState::Recycled);
            filled = filled + 1;
        }
        RequestCycle { states }
    }

    /// The number of requests.
    pub fn len(&self) -> (len: usize)
        ensures
            len == self@.len(),
    {
        self.states.len()
    }

    /// The state of request `index`, or `None` where there is none.
    pub fn state(&self, index: usize) -> (state: Option<RequestState>)
        ensures
            state == if index < self@.len() {
                Some(self@[index as int])
            } else {
                None
            },
    {
        if index < self.states.len() {
            Some(self.states[index])
        } else {
            None
        }
    }

    /// Moves request `index` on from `from` to the state that follows it.
    /// Returns whether it did; it does not where the request does not
    /// exist or is in another state, and then nothing changes.
    fn advance(&mut self, index: usize, from: RequestState) -> (moved: bool)
        ensures
            moved == (index < old(self)@.len() && old(self)@[index as int] == from),
            final(self)@ == advanced(old(self)@, index as int, from),
    {
        if index >= self.states.len() {
            return false;
        }
        if self.states[index] != from {
            return false;
        }
        let next = match from {
            RequestState::Queued => RequestState::Completed,
            RequestState::Completed => RequestState::Recycled,
            RequestState::Recycled => RequestState::Queued,
        };
        self.states[index] = next;
        true
    }

    /// Submits a reusable request to the device.
    pub fn queue(&mut self, index: usize) -> (moved: bool)
        ensures
            moved == (index < old(self)@.len() && old(self)@[index as int]
                == RequestState::Recycled),
            final(self)@ == advanced(old(self)@, index as int, RequestState::Recycled),
    {
        self.advance(index, RequestState::Recycled)
    }

    /// Records that the device has completed a queued request.
    pub fn complete(&mut self, index: usize) -> (moved: bool)
        ensures
            moved == (index < old(self)@.len() && old(self)@[index as int]
                == RequestState::Queued),
            final(self)@ == advanced(old(self)@, index as int, RequestState::Queued),
    {
        self.advance(index, RequestState::Queued)
    }

    /// Marks a completed request reusable.
    pub fn recycle(&mut self, index: usize) -> (moved: bool)
        ensures
            moved == (index < old(self)@.len() && old(self)@[index as int]
                == RequestState::Completed),
            final(self)@ == advanced(old(self)@, index as int, RequestState::Completed),
    {
        self.advance(index, RequestState::Completed)
    }

    /// Submits every reusable request to the device. Requests in other
    /// states stay as they are.
    pub fn queue_all(&mut self)
        ensures
            final(self)@.len() == old(self)@.len(),
            forall|i: int|
                0 <= i < old(self)@.len() ==> final(self)@[i] == if old(self)@[i]
                    == RequestState::Recycled {
                    RequestState::Queued
                } else {
                    old(self)@[i]
                },
    {
        let mut index: usize = 0;
        while index < self.states.len()
            invariant
                self@.len() == old(self)@.len(),
                index <= self@.len(),
                forall|i: int|
                    0 <= i < index ==> self@[i] == if old(self)@[i] == RequestState::Recycled {
                        RequestState::Queued
                    } else {
                        old(self)@[i]
                    },
                forall|i: int| index <= i < self@.len() ==> self@[i] == old(self)@[i],
            decreases self@.len() - index,
        {
            self.advance(index, RequestState::Recycled);
            index = index + 1;
        }
    }
}

/// No transition adds or drops a request, and none touches a request
/// other than the one it names.
pub proof fn advance_keeps_the_others(states: Seq<RequestState>, index: int, from: RequestState)
    ensures
        advanced(states, index, from).len() == states.len(),
        forall|other: int|
            0 <= other < states.len() && other != index ==> advanced(states, index, from)[other]
                == states[other],
{
}

/// A request that completes, is recycled and is queued again is back
/// where it started, and so is the whole set.
pub proof fn full_cycle_restores(states: Seq<RequestState>, index: int)
    requires
        0 <= index < states.len(),
        states[index] == RequestState::Queued,
    ensures
        advanced(
            advanced(
                advanced(states, index, RequestState::Queued),
                index,
                RequestState::Completed,
            ),
            index,
            RequestState::Recycled,
        ) == states,
{
}

} // verus!
