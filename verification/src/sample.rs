//! A small reference service: how a service, its handlers and its envelope
//! type are wired together. The crate's tests drive the runtime through it.
//!
//! `Service0` handles two message types. Each carries a small integer;
//! handling `U8` returns the value increased by two, handling `U16` returns
//! it increased by three hundred (both wrapping), and either bumps the
//! service's count of handled messages. The mailbox carries
//! `Service0Envelope`, the closed sum of the two typed envelopes.

use vstd::prelude::*;

use crate::context::{Context, ContextView};
use crate::envelope::{EnvelopWithMessage, Wraps};
use crate::handler::{EnvelopProxy, Handler, Message, Service};

verus! {

/// A message carrying one byte; its handler answers with a byte.
#[derive(Clone, Copy, Debug, PartialEq, Eq, Structural)]
pub struct U8(pub u8);

impl Message for U8 {
    type Result = U8;
}

/// A message carrying one 16-bit value; its handler answers in kind.
#[derive(Clone, Copy, Debug, PartialEq, Eq, Structural)]
pub struct U16(pub u16);

impl Message for U16 {
    type Result = U16;
}

/// The reference service: it counts how many messages it has handled.
#[derive(Clone, Copy, Debug, PartialEq, Eq, Structural)]
pub struct Service0 {
    /// How many messages this service has handled, wrapping.
    pub handled: u64,
}

impl Default for Service0 {
    /// A fresh service that has handled nothing.
    fn default() -> (svc: Self)
        ensures
            svc.handled == 0,
    {
        Service0 { handled: 0 }
    }
}

/// The closed message universe of `Service0`: one variant per message type
/// it handles, each holding the typed envelope.
pub enum Service0Envelope {
    /// A wrapped `U8` submission.
    U8Env(EnvelopWithMessage<U8>),
    /// A wrapped `U16` submission.
    U16Env(EnvelopWithMessage<U16>),
}

impl Service for Service0 {
    type Envelope = Service0Envelope;

    fn started(&mut self, _ctx: &mut Context<Service0Envelope>) {
    }

    fn stopped(&mut self, _ctx: &mut Context<Service0Envelope>) {
    }
}

impl Handler<U8> for Service0 {
    /// Answer the byte increased by two; count the message as handled.
    open spec fn handle_spec(pre: Self, message: U8, ctx: ContextView<Service0Envelope>) -> (
        Self,
        U8,
        ContextView<Service0Envelope>,
    ) {
        (
            Service0 { handled: vstd::wrapping::u64_specs::wrapping_add(pre.handled, 1) },
            U8(vstd::wrapping::u8_specs::wrapping_add(message.0, 2)),
            ctx,
        )
    }

    fn handler(&mut self, message: U8, _ctx: &mut Context<Service0Envelope>) -> U8 {
        self.handled = self.handled.wrapping_add(1);
        U8(message.0.wrapping_add(2))
    }
}

impl Handler<U16> for Service0 {
    /// Answer the value increased by three hundred; count the message as
    /// handled.
    open spec fn handle_spec(pre: Self, message: U16, ctx: ContextView<Service0Envelope>) -> (
        Self,
        U16,
        ContextView<Service0Envelope>,
    ) {
        (
            Service0 { handled: vstd::wrapping::u64_specs::wrapping_add(pre.handled, 1) },
            U16(vstd::wrapping::u16_specs::wrapping_add(message.0, 300)),
            ctx,
        )
    }

    fn handler(&mut self, message: U16, _ctx: &mut Context<Service0Envelope>) -> U16 {
        self.handled = self.handled.wrapping_add(1);
        U16(message.0.wrapping_add(300))
    }
}

impl EnvelopProxy<Service0> for Service0Envelope {
    /// Dispatching the sum envelope is dispatching whichever typed envelope
    /// it holds.
    open spec fn dispatch_spec(self, svc: Service0, ctx: ContextView<Service0Envelope>) -> (
        Service0,
        ContextView<Service0Envelope>,
    ) {
        match self {
            Service0Envelope::U8Env(env) => env.dispatch_spec(svc, ctx),
            Service0Envelope::U16Env(env) => env.dispatch_spec(svc, ctx),
        }
    }

    fn handle(self, svc: &mut Service0, ctx: &mut Context<Service0Envelope>) {
        match self {
            Service0Envelope::U8Env(env) => env.handle(svc, ctx),
            Service0Envelope::U16Env(env) => env.handle(svc, ctx),
        }
    }
}

impl Wraps<U8> for Service0Envelope {
    open spec fn wrap_spec(env: EnvelopWithMessage<U8>) -> Self {
        Service0Envelope::U8Env(env)
    }

    fn wrap(env: EnvelopWithMessage<U8>) -> Self {
        Service0Envelope::U8Env(env)
    }
}

impl Wraps<U16> for Service0Envelope {
    open spec fn wrap_spec(env: EnvelopWithMessage<U16>) -> Self {
        Service0Envelope::U16Env(env)
    }

    fn wrap(env: EnvelopWithMessage<U16>) -> Self {
        Service0Envelope::U16Env(env)
    }
}

} // verus!
