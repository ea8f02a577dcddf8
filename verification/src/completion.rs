//! A model of the completion channel: a single-value handoff.
//!
//! A request/response submission attaches a one-shot sender to its envelope;
//! the dispatcher triggers it at most once with the handler's result, or
//! drops it untriggered, in which case the caller's receiver resolves to a
//! canceled outcome. The sender and receiver halves share one cell, modelled
//! here as one owned value that moves with the envelope: triggering is
//! `send`, dropping the sender untriggered is `cancel`, and the receiver's
//! poll is `poll_value`.

use vstd::prelude::*;

verus! {

/// The one-shot cell behind a request/response submission.
pub enum Completion<T> {
    /// Neither triggered nor abandoned yet: the caller would still wait.
    Waiting,
    /// Triggered with the result value, which the caller has not taken yet.
    Sent(T),
    /// The sender half was dropped without being triggered.
    Canceled,
    /// The caller has taken the value out.
    Taken,
}

/// What the caller's poll of the completion cell yields.
pub enum CompletionPoll<T> {
    /// Nothing yet: the sender half is still live and untriggered.
    Pending,
    /// The result value, handed out exactly once.
    Value(T),
    /// The sender half is gone and no value will ever arrive.
    Canceled,
}

impl<T> Completion<T> {
    /// A fresh cell: not triggered, not abandoned.
    pub fn new() -> (cell: Self)
        ensures
            cell is Waiting,
    {
        Completion::Waiting
    }

    /// Whether the cell can still be triggered.
    pub fn is_waiting(&self) -> (waiting: bool)
        ensures
            waiting == (*self is Waiting),
    {
        matches!(self, Completion::Waiting)
    }

    /// Triggers the cell with a value. A sender half is consumed by its
    /// send, so a cell can only ever be triggered once.
    pub fn send(&mut self, value: T)
        requires
            *old(self) is Waiting,
        ensures
            *final(self) == Completion::Sent(value),
    {
        *self = Completion::Sent(value);
    }

    /// The sender half goes away untriggered: the caller's wait resolves to
    /// a canceled outcome.
    pub fn cancel(&mut self)
        requires
            *old(self) is Waiting,
        ensures
            *final(self) is Canceled,
    {
        *self = Completion::Canceled;
    }

    /// The receiver half's poll: pending while the cell waits, the value
    /// exactly once after the trigger, canceled forever after abandonment.
    pub fn poll_value(&mut self) -> (outcome: CompletionPoll<T>)
        requires
            !(*old(self) is Taken),
        ensures
            *old(self) is Waiting ==> outcome is Pending && *final(self) is Waiting,
            (*old(self) matches Completion::Sent(v)) ==> outcome == CompletionPoll::Value(
                (*old(self))->Sent_0,
            ) && *final(self) is Taken,
            *old(self) is Canceled ==> outcome is Canceled && *final(self) is Canceled,
    {
        let mut prev = Completion::Taken;
        core::mem::swap(self, &mut prev);
        match prev {
            Completion::Waiting => {
                *self = Completion::Waiting;
                CompletionPoll::Pending
            },
            Completion::Sent(value) => CompletionPoll::Value(value),
            Completion::Canceled => {
                *self = Completion::Canceled;
                CompletionPoll::Canceled
            },
            Completion::Taken => CompletionPoll::Pending,
        }
    }
}

} // verus!
