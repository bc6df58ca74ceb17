//! One-shot response cell: a single-use slot that bridges an asynchronous
//! reply to the task awaiting it. The slot starts pending, is resolved at
//! most once with either a value or an error, and hands its outcome out
//! exactly once when polled.

use vstd::prelude::*;

verus! {

/// Why a request failed: the reply was unusable, or none arrived in time.
#[derive(Clone, Copy, Debug, PartialEq, Eq, Structural)]
pub enum ResponseError {
    InvalidValue,
    Timeout,
}

/// What one poll of a response observed: the value, or not ready yet.
#[derive(Debug)]
pub enum PollOutcome<T> {
    Ready(T),
    NotReady,
}

#[derive(Debug)]
enum ResponseState<T> {
    /// No terminal value has been written yet.
    Pending,
    /// A terminal value has been written and not yet handed out.
    Ready(Result<T, ResponseError>),
    /// The terminal value has been handed out to a poll.
    Taken,
}

/// A single-use result slot. A fresh cell is pending; `set` writes the one
/// terminal outcome; `poll` reports it once and never again.
#[derive(Debug)]
pub struct Response<T> {
    state: ResponseState<T>,
}

impl<T> Response<T> {
    /// The cell still awaits its terminal value.
    pub closed spec fn is_pending(self) -> bool {
        self.state is Pending
    }

    /// The terminal value has been written and not yet observed.
    pub closed spec fn is_resolved(self) -> bool {
        self.state is Ready
    }

    /// The terminal value has been written and already observed by a poll.
    pub closed spec fn is_spent(self) -> bool {
        self.state is Taken
    }

    /// The terminal value, for a resolved cell.
    pub closed spec fn outcome(self) -> Result<T, ResponseError>
        recommends
            self.is_resolved(),
    {
        self.state->Ready_0
    }

    pub fn new() -> (r: Response<T>)
        ensures
            r.is_pending(),
    {
        Response { state: ResponseState::Pending }
    }

    /// Write the terminal value. The first write wins: a cell that already
    /// holds its outcome is left exactly as it is, so a reply and a timeout
    /// racing to resolve the same request can never produce two different
    /// observed outcomes.
    pub fn set(&mut self, response: Result<T, ResponseError>)
        ensures
            *final(self) == resolve_transition(*old(self), response),
            old(self).is_pending() ==> final(self).is_resolved() && final(self).outcome()
                == response,
            !old(self).is_pending() ==> *final(self) == *old(self),
    {
        if let ResponseState::Pending = self.state {
            self.state = ResponseState::Ready(response);
        }
    }

    /// Observe the outcome. A pending cell reports not-ready and stays
    /// pending; a resolved cell hands its value or error out and becomes
    /// spent; a spent cell reports not-ready forever after, so the value is
    /// observed exactly once.
    pub fn poll(&mut self) -> (r: Result<PollOutcome<T>, ResponseError>)
        ensures
            old(self).is_pending() ==> {
                &&& *final(self) == *old(self)
                &&& r matches Ok(PollOutcome::NotReady)
            },
            old(self).is_spent() ==> {
                &&& *final(self) == *old(self)
                &&& r matches Ok(PollOutcome::NotReady)
            },
            old(self).is_resolved() ==> {
                &&& final(self).is_spent()
                &&& match old(self).outcome() {
                    Ok(v) => r == Result::<PollOutcome<T>, ResponseError>::Ok(
                        PollOutcome::Ready(v),
                    ),
                    Err(e) => r == Result::<PollOutcome<T>, ResponseError>::Err(e),
                }
            },
    {
        let mut prev = ResponseState::Taken;
        core::mem::swap(&mut prev, &mut self.state);
        match prev {
            ResponseState::Pending => {
                self.state = ResponseState::Pending;
                Ok(PollOutcome::NotReady)
            }
            ResponseState::Ready(outcome) => {
                match outcome {
                    Ok(v) => Ok(PollOutcome::Ready(v)),
                    Err(e) => Err(e),
                }
            }
            ResponseState::Taken => Ok(PollOutcome::NotReady),
        }
    }
}

/// How an attempted resolution changes a cell: it fills a pending cell and
/// leaves any other cell untouched.
pub closed spec fn resolve_transition<T>(
    c: Response<T>,
    r: Result<T, ResponseError>,
) -> Response<T> {
    if c.state is Pending {
        Response { state: ResponseState::Ready(r) }
    } else {
        c
    }
}

/// Law: a response resolves to exactly one terminal outcome. The first
/// resolution of a pending cell is the outcome; any later attempt (a reply
/// and a timeout racing each other) changes nothing.
pub proof fn lemma_single_terminal_outcome<T>(
    c: Response<T>,
    first: Result<T, ResponseError>,
    second: Result<T, ResponseError>,
)
    requires
        c.is_pending(),
    ensures
        resolve_transition(c, first).is_resolved(),
        resolve_transition(c, first).outcome() == first,
        resolve_transition(resolve_transition(c, first), second) == resolve_transition(c, first),
{
}

} // verus!
