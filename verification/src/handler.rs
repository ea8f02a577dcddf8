//! The capability contracts between the runtime and user code.
//!
//! A message declares its result type at compile time. A service is the
//! business-logic value a mailbox owns; the mailbox invokes its lifecycle
//! hooks and, per message type, the handler registered by a `Handler` impl.
//! Each of these carries a specification method along with the executable
//! one, so that dispatch can promise callers exactly what a handled message
//! did to the service and to the mailbox.

use vstd::prelude::*;

use crate::context::{Context, ContextView};

verus! {

/// A message: a value type paired at compile time with its result type.
pub trait Message {
    /// The result a handler of this message returns.
    type Result;
}

/// A service: the state a mailbox runs. All mutation happens through
/// messages dispatched one at a time, and through the two lifecycle hooks.
pub trait Service: Sized {
    /// The one type this service's mailbox carries: each message type the
    /// service handles is wrapped into it, so one channel serves them all.
    /// It implements `EnvelopProxy<Self>`; the bound is stated where
    /// dispatch needs it.
    type Envelope;

    /// What the `started` hook does to the service and the mailbox.
    open spec fn started_spec(pre: Self, ctx: ContextView<Self::Envelope>) -> (
        Self,
        ContextView<Self::Envelope>,
    ) {
        (pre, ctx)
    }

    /// What the `stopped` hook does to the service and the mailbox.
    open spec fn stopped_spec(pre: Self, ctx: ContextView<Self::Envelope>) -> (
        Self,
        ContextView<Self::Envelope>,
    ) {
        (pre, ctx)
    }

    /// Hook invoked once when the mailbox starts, before any message is
    /// processed.
    fn started(&mut self, ctx: &mut Context<Self::Envelope>)
        requires
            old(ctx).wf(),
        ensures
            final(ctx).wf(),
            (*final(self), final(ctx)@) == Self::started_spec(*old(self), old(ctx)@),
    ;

    /// Hook invoked once after the mailbox has drained and stopped.
    fn stopped(&mut self, ctx: &mut Context<Self::Envelope>)
        requires
            old(ctx).wf(),
        ensures
            final(ctx).wf(),
            (*final(self), final(ctx)@) == Self::stopped_spec(*old(self), old(ctx)@),
    ;
}

/// The type-erasure contract: an envelope applies itself against the service
/// and the mailbox, dispatching the one message it carries.
pub trait EnvelopProxy<S: Service>: Sized {
    /// What dispatching this envelope does to the service and the mailbox.
    spec fn dispatch_spec(self, svc: S, ctx: ContextView<S::Envelope>) -> (
        S,
        ContextView<S::Envelope>,
    );

    /// Dispatches the envelope: takes the message out, runs the handler, and
    /// satisfies the completion channel if one was attached and the mailbox
    /// is not paused.
    fn handle(self, svc: &mut S, ctx: &mut Context<S::Envelope>)
        requires
            old(ctx).wf(),
        ensures
            final(ctx).wf(),
            (*final(svc), final(ctx)@) == self.dispatch_spec(*old(svc), old(ctx)@),
    ;
}

/// The handler a service registers for one message type.
pub trait Handler<M: Message>: Service {
    /// What handling the message does: the new service state, the result
    /// value, and the new mailbox state.
    spec fn handle_spec(pre: Self, message: M, ctx: ContextView<Self::Envelope>) -> (
        Self,
        M::Result,
        ContextView<Self::Envelope>,
    );

    /// Handles one message, with mutable access to the service state and to
    /// the mailbox (through which further messages may be enqueued).
    fn handler(&mut self, message: M, ctx: &mut Context<Self::Envelope>) -> (result: M::Result)
        requires
            old(ctx).wf(),
        ensures
            final(ctx).wf(),
            (*final(self), result, final(ctx)@) == Self::handle_spec(
                *old(self),
                message,
                old(ctx)@,
            ),
    ;
}

} // verus!
