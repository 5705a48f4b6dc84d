//! The lifecycle of an ordered group of counters.
//!
//! An `EventsSet` wraps one hardware counting context. It moves
//! through the states Created, Running and Stopped; while Running it
//! owns scarce physical counter slots. The set itself decides which
//! transitions are legal and what each runtime answer means; issuing
//! the actual runtime calls is its caller's part. A transition is
//! split into a request, which decides whether the move is allowed
//! at all, and a confirmation, which folds the runtime's status into
//! the state.

use vstd::prelude::*;

use crate::counter::Counter;
use crate::errors::PapiError;
use crate::errors::PAPI_EISRUN;
use crate::errors::PAPI_ENOTRUN;
use crate::errors::PAPI_OK;

verus! {

/// Where a counter set stands in its lifecycle.
#[derive(Clone, Copy, PartialEq, Eq, Structural, Debug)]
pub enum SetState {
    /// Built, never started; holds no slots.
    Created,
    /// Counting; owns physical counter slots.
    Running,
    /// Stopped after counting; holds no slots and may start again.
    Stopped,
}

/// An ordered group of counters bound to one counting context.
/// The order given at construction is the canonical order of every
/// count it ever reports.
pub struct EventsSet {
    counters: Vec<Counter>,
    state: SetState,
}

impl EventsSet {
    /// The counters of the set, in construction order.
    pub closed spec fn counters_seq(&self) -> Seq<Counter> {
        self.counters@
    }

    /// The current lifecycle state.
    pub closed spec fn spec_state(&self) -> SetState {
        self.state
    }

    /// A start is allowed from any state but Running.
    pub open spec fn can_start(&self) -> bool {
        self.spec_state() != SetState::Running
    }

    /// A stop is allowed only while Running.
    pub open spec fn can_stop(&self) -> bool {
        self.spec_state() == SetState::Running
    }

    /// Builds a set over the given counters, in the given order, in
    /// state Created.
    pub fn new(counters: &Vec<Counter>) -> (s: EventsSet)
        ensures
            s.counters_seq() == counters@,
            s.spec_state() == SetState::Created,
    {
        let mut owned: Vec<Counter> = Vec::new();
        let mut i: usize = 0;
        let n = counters.len();
        while i < n
            invariant
                i <= n == counters@.len(),
                owned@ == counters@.subrange(0, i as int),
            decreases n - i,
        {
            let c = counters[i].clone();
            owned.push(c);
            proof {
                assert(counters@.subrange(0, i + 1) =~= counters@.subrange(0, i as int).push(
                    counters@[i as int],
                ));
            }
            i += 1;
        }
        proof {
            assert(owned@ =~= counters@);
        }
        EventsSet { counters: owned, state: SetState::Created }
    }

    /// How many counters the set holds.
    pub fn len(&self) -> (n: usize)
        ensures
            n == self.counters_seq().len(),
    {
        self.counters.len()
    }

    /// The current state, readable without moving it.
    pub fn state(&self) -> (s: SetState)
        ensures
            s == self.spec_state(),
    {
        self.state
    }

    /// The internal event codes of the counters, in construction
    /// order: what the runtime context must be loaded with.
    pub fn codes(&self) -> (v: Vec<i32>)
        ensures
            v@.len() == self.counters_seq().len(),
            forall|i: int| 0 <= i < v@.len() ==> v@[i] == self.counters_seq()[i].code,
    {
        let mut v: Vec<i32> = Vec::new();
        let mut i: usize = 0;
        let n = self.counters.len();
        while i < n
            invariant
                i <= n == self.counters@.len(),
                v@.len() == i,
                forall|j: int| 0 <= j < i ==> v@[j] == self.counters@[j].code,
            decreases n - i,
        {
            v.push(self.counters[i].code);
            i += 1;
        }
        v
    }

    /// Decides whether a start may be issued: rejected exactly while
    /// already Running, as an invalid state transition.
    pub fn request_start(&self) -> (r: Result<(), PapiError>)
        ensures
            r == (if self.can_start() {
                Ok::<(), PapiError>(())
            } else {
                Err::<(), PapiError>(PapiError { code: PAPI_EISRUN })
            }),
    {
        match self.state {
            SetState::Running => Err(PapiError { code: PAPI_EISRUN }),
            _ => Ok(()),
        }
    }

    /// Folds the runtime's answer to a start into the state: success
    /// moves the set to Running; any failure (typically saturated
    /// counter slots, which is retryable) leaves it exactly as it
    /// was, carrying the status as the error.
    pub fn confirm_start(&mut self, status: i32) -> (r: Result<(), PapiError>)
        requires
            old(self).can_start(),
        ensures
            final(self).counters_seq() == old(self).counters_seq(),
            status == PAPI_OK ==> final(self).spec_state() == SetState::Running && r
                == Ok::<(), PapiError>(()),
            status != PAPI_OK ==> *final(self) == *old(self) && r == Err::<(), PapiError>(
                PapiError { code: status },
            ),
    {
        if status == PAPI_OK {
            self.state = SetState::Running;
            Ok(())
        } else {
            Err(PapiError { code: status })
        }
    }

    /// Decides whether a stop may be issued: allowed exactly while
    /// Running; a stop of a Created or already Stopped set is an
    /// invalid state transition.
    pub fn request_stop(&self) -> (r: Result<(), PapiError>)
        ensures
            r == (if self.can_stop() {
                Ok::<(), PapiError>(())
            } else {
                Err::<(), PapiError>(PapiError { code: PAPI_ENOTRUN })
            }),
    {
        match self.state {
            SetState::Running => Ok(()),
            _ => Err(PapiError { code: PAPI_ENOTRUN }),
        }
    }

    /// Folds the runtime's answer to a stop into the state. On
    /// success the set is Stopped and the counts read by the runtime
    /// are returned unchanged: one per counter, positionally aligned
    /// with construction order. On failure the set stays Running and
    /// the status is carried as the error.
    pub fn confirm_stop(&mut self, status: i32, counts: Vec<u64>) -> (r: Result<
        Vec<u64>,
        PapiError,
    >)
        requires
            old(self).can_stop(),
            counts@.len() == old(self).counters_seq().len(),
        ensures
            final(self).counters_seq() == old(self).counters_seq(),
            status == PAPI_OK ==> {
                &&& final(self).spec_state() == SetState::Stopped
                &&& r matches Ok(v) && v@ == counts@ && v@.len() == old(self).counters_seq().len()
            },
            status != PAPI_OK ==> *final(self) == *old(self) && r == Err::<Vec<u64>, PapiError>(
                PapiError { code: status },
            ),
    {
        if status == PAPI_OK {
            self.state = SetState::Stopped;
            Ok(counts)
        } else {
            Err(PapiError { code: status })
        }
    }

    /// Whether the context may be released: only while not Running,
    /// since a Running set still owns hardware slots.
    pub fn release_allowed(&self) -> (b: bool)
        ensures
            b == (self.spec_state() != SetState::Running),
    {
        match self.state {
            SetState::Running => false,
            _ => true,
        }
    }
}

} // verus!
