//! Envelopes: the unit of work a mailbox's channel carries.
//!
//! An envelope wraps exactly one message instance together with an optional
//! completion cell for that message's result type. Dispatch takes the
//! message out (the envelope is consumed, so redelivery is impossible), runs
//! the handler registered for the service and message pair, and — if a
//! completion cell was attached and the mailbox is not paused — triggers the
//! cell with the handler's result; under a paused mailbox the result is
//! discarded and the caller's wait resolves to a canceled outcome.
//!
//! A service whose mailbox carries several message types erases them into
//! one envelope type: an enum with one variant per message type, each
//! holding the typed envelope, wrapped through the `Wraps` conversion.

use vstd::prelude::*;

use crate::completion::Completion;
use crate::context::{Context, ContextView};
use crate::handler::{EnvelopProxy, Handler, Message};

verus! {

/// One message instance and the optional completion cell for its result.
pub struct EnvelopWithMessage<M: Message> {
    /// The wrapped message, moved out exactly once, on dispatch.
    pub message: M,
    /// The completion cell of a request/response submission, or `None` on
    /// the fire-and-forget path.
    pub result_channel: Option<Completion<M::Result>>,
}

impl<M: Message> EnvelopWithMessage<M> {
    /// Wraps a message and, for a request/response submission, the
    /// completion cell that will carry its result back.
    pub fn new(message: M, result_channel: Option<Completion<M::Result>>) -> (env: Self)
        ensures
            env == (EnvelopWithMessage { message, result_channel }),
    {
        EnvelopWithMessage { message, result_channel }
    }

    /// Dispatches the wrapped message against the service: the handler runs
    /// exactly once, and the completion cell — handed back to the caller —
    /// is triggered with the handler's result, unless the mailbox was left
    /// paused, in which case the result is discarded and the cell resolves
    /// to canceled.
    pub fn deliver<S: Handler<M>>(self, svc: &mut S, ctx: &mut Context<S::Envelope>) -> (done:
        Option<Completion<M::Result>>)
        requires
            old(ctx).wf(),
        ensures
            final(ctx).wf(),
            *final(svc) == S::handle_spec(*old(svc), self.message, old(ctx)@).0,
            final(ctx)@ == S::handle_spec(*old(svc), self.message, old(ctx)@).2,
            self.result_channel is None ==> done is None,
            self.result_channel matches Some(cell) ==> (cell is Waiting ==> done == Some(
                if S::handle_spec(*old(svc), self.message, old(ctx)@).2.paused {
                    Completion::<M::Result>::Canceled
                } else {
                    Completion::<M::Result>::Sent(
                        S::handle_spec(*old(svc), self.message, old(ctx)@).1,
                    )
                },
            )),
            self.result_channel matches Some(cell) ==> (!(cell is Waiting) ==> done == Some(
                cell,
            )),
    {
        let EnvelopWithMessage { message, result_channel } = self;
        let result = svc.handler(message, ctx);
        match result_channel {
            None => None,
            Some(mut cell) => {
                if cell.is_waiting() {
                    if ctx.is_paused() {
                        cell.cancel();
                    } else {
                        cell.send(result);
                    }
                }
                Some(cell)
            },
        }
    }
}

impl<S: Handler<M>, M: Message> EnvelopProxy<S> for EnvelopWithMessage<M> {
    /// Dispatching a typed envelope is exactly the handler's effect on the
    /// service and the mailbox.
    open spec fn dispatch_spec(self, svc: S, ctx: ContextView<S::Envelope>) -> (
        S,
        ContextView<S::Envelope>,
    ) {
        (
            S::handle_spec(svc, self.message, ctx).0,
            S::handle_spec(svc, self.message, ctx).2,
        )
    }

    fn handle(self, svc: &mut S, ctx: &mut Context<S::Envelope>) {
        let _ = self.deliver(svc, ctx);
    }
}

/// The conversion a service's envelope type provides for each message type
/// it accepts: wrapping a typed envelope, payload and completion cell
/// intact, into the one type the mailbox's channel carries.
pub trait Wraps<M: Message>: Sized {
    /// The wrapped form of a typed envelope.
    spec fn wrap_spec(env: EnvelopWithMessage<M>) -> Self;

    /// Wraps a typed envelope without touching its payload.
    fn wrap(env: EnvelopWithMessage<M>) -> (wrapped: Self)
        ensures
            wrapped == Self::wrap_spec(env),
    ;
}

impl<M: Message> Wraps<M> for EnvelopWithMessage<M> {
    /// A mailbox typed to a single message type carries the typed envelope
    /// itself.
    open spec fn wrap_spec(env: EnvelopWithMessage<M>) -> Self {
        env
    }

    fn wrap(env: EnvelopWithMessage<M>) -> Self {
        env
    }
}

} // verus!
