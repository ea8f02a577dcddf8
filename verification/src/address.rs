//! The narrowed address: a capability restricted to one message type.
//!
//! A full address can submit any message its service handles. Narrowing
//! hands out a capability that can submit exactly one message type: the
//! narrowed address owns a private channel typed to that message, and a
//! dedicated relay pops each accepted envelope and re-wraps it — payload and
//! completion cell intact, without re-allocating — into the target mailbox's
//! envelope type. Holders of the narrowed address cannot submit any other
//! message type, and the target service never learns that the capability was
//! narrowed. When the target's channel closes, the relay exits and closes
//! the private channel, so the narrowed address reports itself closed within
//! one relay cycle.

use vstd::prelude::*;

use crate::completion::Completion;
use crate::context::Context;
use crate::envelope::{EnvelopWithMessage, Wraps};
use crate::error::Error;
use crate::handler::Message;
use crate::mpsc::{unbounded, view_wf, ChannelView, NextMessage, UnboundedChannel};
use crate::state::MAX_CAPACITY;

verus! {

/// What one cycle of the narrowing relay did.
#[derive(Clone, Copy, Debug, PartialEq, Eq, Structural)]
pub enum ForwardStep {
    /// One envelope was moved from the private channel to the target.
    Forwarded,
    /// Nothing to relay yet: the relay registered itself in the waker slot
    /// and should suspend until a submission signals.
    Parked,
    /// The relay is done: the target is closed (the private channel was
    /// closed in response) or the private channel has fully drained.
    Exited,
}

/// An address for one specific message type `M`, backed by its own private
/// channel and a forwarding relay.
pub struct Address<M: Message> {
    channel: UnboundedChannel<EnvelopWithMessage<M>>,
}

impl<M: Message> View for Address<M> {
    type V = ChannelView<EnvelopWithMessage<M>>;

    closed spec fn view(&self) -> ChannelView<EnvelopWithMessage<M>> {
        self.channel@
    }
}

impl<M: Message> Address<M> {
    /// The private channel's internal consistency.
    pub closed spec fn wf(&self) -> bool {
        self.channel.wf()
    }

    /// A narrowed address always keeps its abstract state consistent.
    pub proof fn lemma_wf(&self)
        requires
            self.wf(),
        ensures
            view_wf(self@),
    {
    }

    /// Creates the narrowed address's private channel: open, empty, one
    /// sender handle. The relay that drains it is the embedding's task,
    /// calling `forward_step` each cycle.
    pub fn new() -> (addr: Self)
        ensures
            addr.wf(),
            addr@.open,
            addr@.count == 0,
            addr@.msgs == Seq::<EnvelopWithMessage<M>>::empty(),
            addr@.senders == 1,
            !addr@.parked,
            !addr@.terminated,
    {
        Address { channel: unbounded() }
    }

    /// Reports whether this address's channel is closed. Once the relay has
    /// observed the target closed, this answers true.
    pub fn is_stop(&self) -> (stopped: bool)
        ensures
            stopped == !self@.open,
    {
        self.channel.is_closed()
    }

    /// Submits a message of the bound type, fire-and-forget. No other
    /// message type can be submitted through this address.
    pub fn send(&mut self, message: M) -> (sent: Result<(), Error>)
        requires
            old(self).wf(),
            old(self)@.count < MAX_CAPACITY,
        ensures
            final(self).wf(),
            old(self)@.open ==> sent is Ok && final(self)@ == (ChannelView {
                count: (old(self)@.count + 1) as usize,
                msgs: old(self)@.msgs.push(
                    EnvelopWithMessage {
                        message,
                        result_channel: Option::<Completion<M::Result>>::None,
                    },
                ),
                parked: false,
                ..old(self)@
            }),
            !old(self)@.open ==> sent == Err::<(), Error>(Error::ServiceStoped) && *final(self)
                == *old(self),
    {
        match self.channel.unbounded_send(EnvelopWithMessage::new(message, None)) {
            Ok(()) => Ok(()),
            Err(_) => Err(Error::ServiceStoped),
        }
    }

    /// Submits a message of the bound type with a completion cell attached:
    /// the enqueue half of a call through this address. The cell travels
    /// with the envelope through the relay to the target mailbox, whose
    /// dispatch triggers it.
    pub fn call_enqueue(&mut self, message: M) -> (sent: Result<(), Error>)
        requires
            old(self).wf(),
            old(self)@.count < MAX_CAPACITY,
        ensures
            final(self).wf(),
            old(self)@.open ==> sent is Ok && final(self)@ == (ChannelView {
                count: (old(self)@.count + 1) as usize,
                msgs: old(self)@.msgs.push(
                    EnvelopWithMessage {
                        message,
                        result_channel: Some(Completion::<M::Result>::Waiting),
                    },
                ),
                parked: false,
                ..old(self)@
            }),
            !old(self)@.open ==> sent == Err::<(), Error>(Error::ServiceStoped) && *final(self)
                == *old(self),
    {
        match self.channel.unbounded_send(EnvelopWithMessage::new(message, Some(Completion::new()))) {
            Ok(()) => Ok(()),
            Err(_) => Err(Error::ServiceStoped),
        }
    }

    /// The narrowed address is cloned: one more handle can submit through
    /// the private channel. Cloning past the sender cap is excluded.
    pub fn clone_sender_handle(&mut self)
        requires
            old(self).wf(),
            old(self)@.senders >= 1,
            old(self)@.senders < crate::state::MAX_BUFFER,
        ensures
            final(self).wf(),
            final(self)@ == (ChannelView {
                senders: (old(self)@.senders + 1) as usize,
                ..old(self)@
            }),
    {
        self.channel.clone_sender();
    }

    /// A handle of the narrowed address is dropped; the last one closes the
    /// private channel, after which the relay drains what was accepted and
    /// exits.
    pub fn drop_sender_handle(&mut self)
        requires
            old(self).wf(),
            old(self)@.senders >= 1,
        ensures
            final(self).wf(),
            old(self)@.senders == 1 ==> final(self)@ == (ChannelView {
                senders: 0,
                open: false,
                parked: false,
                ..old(self)@
            }),
            old(self)@.senders > 1 ==> final(self)@ == (ChannelView {
                senders: (old(self)@.senders - 1) as usize,
                ..old(self)@
            }),
    {
        self.channel.drop_sender();
    }

    /// One cycle of the forwarding relay: pops the next accepted envelope
    /// from the private channel and re-wraps it into the target mailbox's
    /// envelope type, forwarding it on. If the target's channel is closed,
    /// the relay exits and closes the private channel, so this address
    /// reports closed from then on; the popped envelope is dropped, as any
    /// message undelivered at teardown is.
    pub fn forward_step<E: Wraps<M>>(&mut self, target: &mut Context<E>) -> (step: ForwardStep)
        requires
            old(self).wf(),
            old(target).wf(),
            old(target)@.chan.count < MAX_CAPACITY,
        ensures
            final(self).wf(),
            final(target).wf(),
            old(self)@.terminated ==> step is Exited && *final(self) == *old(self) && *final(target) == *old(target),
            !old(self)@.terminated && old(self)@.msgs.len() > 0 && old(target)@.chan.open ==> step
                is Forwarded && final(self)@ == (ChannelView {
                msgs: old(self)@.msgs.drop_first(),
                count: (old(self)@.count - 1) as usize,
                ..old(self)@
            }) && final(target)@.chan.msgs == old(target)@.chan.msgs.push(
                E::wrap_spec(old(self)@.msgs[0]),
            ) && final(target)@.chan.count == old(target)@.chan.count + 1,
            !old(self)@.terminated && old(self)@.msgs.len() > 0 && !old(target)@.chan.open ==> step
                is Exited && *final(target) == *old(target) && final(self)@ == (ChannelView {
                open: false,
                msgs: old(self)@.msgs.drop_first(),
                count: (old(self)@.count - 1) as usize,
                ..old(self)@
            }),
            !old(self)@.terminated && old(self)@.msgs.len() == 0 && (old(self)@.open || old(self)@.count > 0) ==> step is Parked && *final(target) == *old(target) && final(self)@
                == (ChannelView { parked: true, ..old(self)@ }),
            !old(self)@.terminated && old(self)@.msgs.len() == 0 && !old(self)@.open && old(self)@.count == 0 ==> step is Exited && *final(target) == *old(target) && final(self)@
                == (ChannelView { terminated: true, ..old(self)@ }),
    {
        match self.channel.poll_next() {
            NextMessage::Ready(Some(env)) => {
                match target.enqueue(E::wrap(env)) {
                    Ok(()) => ForwardStep::Forwarded,
                    Err(_) => {
                        self.channel.close();
                        ForwardStep::Exited
                    },
                }
            },
            NextMessage::Ready(None) => ForwardStep::Exited,
            NextMessage::Pending => ForwardStep::Parked,
        }
    }
}

} // verus!
