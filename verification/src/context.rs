//! The mailbox: one channel receiver bound to one running service.
//!
//! A mailbox owns the channel under a service instance, a paused flag that
//! suppresses result delivery without halting consumption, and the lifecycle
//! phase of its dispatch loop. The loop itself is one verified step at a
//! time: `poll_step` pops the next envelope and dispatches it, strictly one
//! envelope in flight per mailbox, which is what gives a service its
//! single-threaded consistency guarantee despite many concurrent producers.

use vstd::prelude::*;

use crate::completion::{Completion, CompletionPoll};
use crate::envelope::{EnvelopWithMessage, Wraps};
use crate::error::Error;
use crate::handler::{EnvelopProxy, Handler, Message, Service};
use crate::mpsc::{unbounded, ChannelView, NextMessage, UnboundedChannel};
use crate::state::MAX_CAPACITY;

verus! {

/// The lifecycle of a mailbox's dispatch loop. While running with a closed
/// channel the loop is draining: already-accepted messages are still
/// dispatched before the loop stops.
#[derive(Clone, Copy, Debug, PartialEq, Eq, Structural)]
pub enum Phase {
    /// No dispatch loop has begun; messages may already queue up.
    NotStarted,
    /// The `started` hook has run and envelopes are being dispatched.
    Running,
    /// The channel was drained to end-of-stream and the `stopped` hook ran.
    Stopped,
}

/// Abstract state of a mailbox: what its contracts speak of.
#[verifier::ext_equal]
pub ghost struct ContextView<E> {
    /// The channel under the mailbox.
    pub chan: ChannelView<E>,
    /// Whether result delivery is suppressed.
    pub paused: bool,
    /// Where the dispatch loop stands.
    pub phase: Phase,
}

/// The mailbox and runtime context of one service, carrying that service's
/// envelope type `E`.
pub struct Context<E> {
    channel: UnboundedChannel<E>,
    paused: bool,
    phase: Phase,
}

impl<E> View for Context<E> {
    type V = ContextView<E>;

    closed spec fn view(&self) -> ContextView<E> {
        ContextView { chan: self.channel@, paused: self.paused, phase: self.phase }
    }
}

impl<E> Context<E> {
    /// The mailbox's internal consistency: the channel is consistent, and a
    /// stopped mailbox has a closed channel behind it.
    pub closed spec fn wf(&self) -> bool {
        &&& self.channel.wf()
        &&& (self@.phase is Stopped ==> !self@.chan.open)
    }

    /// Creates an empty mailbox: channel open and empty, one sender handle
    /// (the mailbox's own, from which addresses are cloned), not paused, not
    /// started.
    pub fn new() -> (ctx: Self)
        ensures
            ctx.wf(),
            ctx@.chan.open,
            ctx@.chan.count == 0,
            ctx@.chan.msgs == Seq::<E>::empty(),
            ctx@.chan.senders == 1,
            !ctx@.chan.parked,
            !ctx@.chan.terminated,
            !ctx@.paused,
            ctx@.phase is NotStarted,
    {
        Context { channel: unbounded(), paused: false, phase: Phase::NotStarted }
    }

    /// Where the dispatch loop stands.
    pub fn phase(&self) -> (phase: Phase)
        ensures
            phase == self@.phase,
    {
        self.phase
    }

    /// Whether result delivery is currently suppressed.
    pub fn is_paused(&self) -> (paused: bool)
        ensures
            paused == self@.paused,
    {
        self.paused
    }

    /// Address side: true exactly when the service's channel is closed.
    pub fn is_stop(&self) -> (stopped: bool)
        ensures
            stopped == !self@.chan.open,
    {
        self.channel.is_closed()
    }

    /// Suppresses result delivery from now on. Consumption continues; only
    /// completion channels stop being satisfied.
    pub fn pause(&mut self)
        requires
            old(self).wf(),
        ensures
            final(self).wf(),
            final(self)@ == (ContextView { paused: true, ..old(self)@ }),
    {
        self.paused = true;
    }

    /// Stops the service: closes the channel's receiving half, so no further
    /// message is accepted while the buffered ones still drain.
    pub fn stop(&mut self)
        requires
            old(self).wf(),
        ensures
            final(self).wf(),
            final(self)@ == (ContextView {
                chan: ChannelView { open: false, ..old(self)@.chan },
                ..old(self)@
            }),
    {
        self.channel.close();
    }
}

/// What one step of the dispatch loop did.
#[derive(Clone, Copy, Debug, PartialEq, Eq, Structural)]
pub enum MailboxStep {
    /// One envelope was popped and dispatched.
    Dispatched,
    /// Nothing can be dispatched yet: the receiver registered itself in the
    /// waker slot and the loop should suspend until a producer signals.
    Idle,
    /// End-of-stream: the channel was closed and fully drained, and the
    /// `stopped` hook has run.
    Stopped,
}

/// A mailbox's state right after its channel handed one envelope out.
pub open spec fn spec_after_pop<E>(c: ContextView<E>) -> ContextView<E> {
    ContextView {
        chan: ChannelView {
            msgs: c.chan.msgs.drop_first(),
            count: (c.chan.count - 1) as usize,
            ..c.chan
        },
        ..c
    }
}

/// The service and mailbox state after the dispatch loop has popped and
/// dispatched up to `n` envelopes, stopping early if the queue runs dry.
pub open spec fn run_bounded<S: Service<Envelope = E>, E: EnvelopProxy<S>>(
    svc: S,
    c: ContextView<E>,
    n: nat,
) -> (S, ContextView<E>)
    decreases n,
{
    if n == 0 || c.chan.msgs.len() == 0 {
        (svc, c)
    } else {
        let (s2, c2) = c.chan.msgs[0].dispatch_spec(svc, spec_after_pop(c));
        run_bounded(s2, c2, (n - 1) as nat)
    }
}

/// Dispatching `i + k` envelopes is dispatching `i`, then `k` more from
/// where that left off.
pub proof fn lemma_run_bounded_compose<S: Service<Envelope = E>, E: EnvelopProxy<S>>(
    svc: S,
    c: ContextView<E>,
    i: nat,
    k: nat,
)
    ensures
        run_bounded(svc, c, i + k) == ({
            let (s1, c1) = run_bounded(svc, c, i);
            run_bounded(s1, c1, k)
        }),
    decreases i,
{
    if i == 0 || c.chan.msgs.len() == 0 {
        if c.chan.msgs.len() == 0 && i + k > 0 {
            assert(run_bounded(svc, c, i + k) == (svc, c));
            assert(run_bounded(svc, c, i) == (svc, c));
            assert(run_bounded(svc, c, k) == (svc, c));
        }
    } else {
        let (s2, c2) = c.chan.msgs[0].dispatch_spec(svc, spec_after_pop(c));
        lemma_run_bounded_compose(s2, c2, (i - 1) as nat, k);
        assert(run_bounded(svc, c, i + k) == run_bounded(s2, c2, (i - 1) as nat + k));
        assert(run_bounded(svc, c, i) == run_bounded(s2, c2, (i - 1) as nat));
    }
}

impl<E> Context<E> {
    /// The number of envelopes sitting in the mailbox's queue.
    pub fn queued_len(&self) -> (len: usize)
        ensures
            len == self@.chan.msgs.len(),
    {
        self.channel.queued_len()
    }

    /// An address handle is cloned off this mailbox: one more sender exists.
    /// Cloning past the sender cap is a structural misuse and is excluded
    /// outright.
    pub fn clone_sender(&mut self)
        requires
            old(self).wf(),
            old(self)@.chan.senders >= 1,
            old(self)@.chan.senders < crate::state::MAX_BUFFER,
        ensures
            final(self).wf(),
            final(self)@ == (ContextView {
                chan: ChannelView {
                    senders: (old(self)@.chan.senders + 1) as usize,
                    ..old(self)@.chan
                },
                ..old(self)@
            }),
    {
        self.channel.clone_sender();
    }

    /// An address handle is dropped. The last one to go closes the channel
    /// and wakes the receiver, so the mailbox drains and stops.
    pub fn drop_sender(&mut self)
        requires
            old(self).wf(),
            old(self)@.chan.senders >= 1,
        ensures
            final(self).wf(),
            old(self)@.chan.senders == 1 ==> final(self)@ == (ContextView {
                chan: ChannelView { senders: 0, open: false, parked: false, ..old(self)@.chan },
                ..old(self)@
            }),
            old(self)@.chan.senders > 1 ==> final(self)@ == (ContextView {
                chan: ChannelView {
                    senders: (old(self)@.chan.senders - 1) as usize,
                    ..old(self)@.chan
                },
                ..old(self)@
            }),
    {
        self.channel.drop_sender();
    }

    /// Address side: submits a message fire-and-forget. The envelope is
    /// accepted exactly while the channel is open, and is refused with
    /// `ServiceStoped` — never silently dropped — otherwise.
    pub fn send<M: Message>(&mut self, message: M) -> (sent: Result<(), Error>)
        where E: Wraps<M>,
        requires
            old(self).wf(),
            old(self)@.chan.count < MAX_CAPACITY,
        ensures
            final(self).wf(),
            old(self)@.chan.open ==> sent is Ok && final(self)@ == (ContextView {
                chan: ChannelView {
                    count: (old(self)@.chan.count + 1) as usize,
                    msgs: old(self)@.chan.msgs.push(
                        E::wrap_spec(
                            EnvelopWithMessage {
                                message,
                                result_channel: Option::<Completion<M::Result>>::None,
                            },
                        ),
                    ),
                    parked: false,
                    ..old(self)@.chan
                },
                ..old(self)@
            }),
            !old(self)@.chan.open ==> sent == Err::<(), Error>(Error::ServiceStoped) && *final(self) == *old(self),
    {
        let env = E::wrap(EnvelopWithMessage::new(message, None));
        match self.channel.unbounded_send(env) {
            Ok(()) => Ok(()),
            Err(_) => Err(Error::ServiceStoped),
        }
    }

    /// Enqueues an already-wrapped envelope, completion cell and all, as the
    /// narrowing relay does when it forwards an accepted message onward.
    pub fn enqueue(&mut self, env: E) -> (sent: Result<(), Error>)
        requires
            old(self).wf(),
            old(self)@.chan.count < MAX_CAPACITY,
        ensures
            final(self).wf(),
            old(self)@.chan.open ==> sent is Ok && final(self)@ == (ContextView {
                chan: ChannelView {
                    count: (old(self)@.chan.count + 1) as usize,
                    msgs: old(self)@.chan.msgs.push(env),
                    parked: false,
                    ..old(self)@.chan
                },
                ..old(self)@
            }),
            !old(self)@.chan.open ==> sent == Err::<(), Error>(Error::ServiceStoped) && *final(self) == *old(self),
    {
        match self.channel.unbounded_send(env) {
            Ok(()) => Ok(()),
            Err(_) => Err(Error::ServiceStoped),
        }
    }

    /// Begins the dispatch loop: runs the `started` hook, synchronously with
    /// respect to the loop — no message is processed before it completes —
    /// and moves the mailbox to its running phase.
    pub fn start<S: Service<Envelope = E>>(&mut self, svc: &mut S)
        requires
            old(self).wf(),
            old(self)@.phase is NotStarted,
        ensures
            final(self).wf(),
            (*final(svc), final(self)@) == S::started_spec(
                *old(svc),
                (ContextView { phase: Phase::Running, ..old(self)@ }),
            ),
    {
        self.phase = Phase::Running;
        svc.started(self);
    }

    /// One step of the dispatch loop: pops the next envelope and dispatches
    /// it. Exactly one envelope is in flight per mailbox at any time, so
    /// handlers observe serialized access to the service state. When nothing
    /// is deliverable the receiver parks; when the closed channel has fully
    /// drained, the mailbox moves to its stopped phase and the `stopped`
    /// hook runs, observing the stopped mailbox.
    pub fn poll_step<S: Service<Envelope = E>>(&mut self, svc: &mut S) -> (step: MailboxStep)
        where E: EnvelopProxy<S>,
        requires
            old(self).wf(),
            old(self)@.phase is Running,
        ensures
            final(self).wf(),
            old(self)@.chan.msgs.len() > 0 ==> step is Dispatched && (*final(svc), final(self)@)
                == old(self)@.chan.msgs[0].dispatch_spec(*old(svc), spec_after_pop(old(self)@)),
            old(self)@.chan.msgs.len() == 0 && (old(self)@.chan.open || old(self)@.chan.count > 0)
                ==> step is Idle && *final(svc) == *old(svc) && final(self)@ == (ContextView {
                chan: ChannelView { parked: true, ..old(self)@.chan },
                ..old(self)@
            }),
            old(self)@.chan.msgs.len() == 0 && !old(self)@.chan.open && old(self)@.chan.count == 0
                ==> step is Stopped && (*final(svc), final(self)@) == S::stopped_spec(
                *old(svc),
                (ContextView {
                    chan: ChannelView { terminated: true, ..old(self)@.chan },
                    paused: old(self)@.paused,
                    phase: Phase::Stopped,
                }),
            ),
    {
        proof {
            assert(old(self)@.chan.terminated ==> old(self)@.chan.msgs.len() == 0);
        }
        match self.channel.poll_next() {
            NextMessage::Ready(Some(env)) => {
                env.handle(svc, self);
                MailboxStep::Dispatched
            },
            NextMessage::Ready(None) => {
                self.phase = Phase::Stopped;
                proof {
                    assert(self@ =~= (ContextView {
                        chan: ChannelView { terminated: true, ..old(self)@.chan },
                        paused: old(self)@.paused,
                        phase: Phase::Stopped,
                    }));
                }
                svc.stopped(self);
                MailboxStep::Stopped
            },
            NextMessage::Pending => MailboxStep::Idle,
        }
    }

    /// Address side: submits a message with a completion cell attached and
    /// waits for the result. In the running system the caller suspends on
    /// the cell while the dispatch loop works towards its envelope; in this
    /// owned model those same dispatches happen inline, so the call's whole
    /// resolution is one verified function.
    ///
    /// A call into a closed mailbox resolves to `ServiceStoped` at once — it
    /// never hangs and the message is not accepted. Otherwise the mailbox
    /// dispatches the envelopes already queued ahead of this one, then this
    /// one; the call resolves to exactly the handler's result, unless the
    /// mailbox was left paused, in which case the result was discarded and
    /// the call resolves to `ServicePaused`.
    pub fn call<S: Service<Envelope = E>, M: Message>(&mut self, svc: &mut S, message: M) -> (
        outcome: Result<M::Result, Error>
    )
        where E: EnvelopProxy<S>, S: Handler<M>,
        requires
            old(self).wf(),
            old(self)@.phase is Running || !old(self)@.chan.open,
        ensures
            final(self).wf(),
            !old(self)@.chan.open ==> outcome == Err::<M::Result, Error>(Error::ServiceStoped)
                && *final(self) == *old(self) && *final(svc) == *old(svc),
            old(self)@.chan.open ==> ({
                let (s1, c1) = run_bounded(*old(svc), old(self)@, old(self)@.chan.msgs.len());
                let (s2, r2, c2) = S::handle_spec(s1, message, c1);
                &&& *final(svc) == s2
                &&& final(self)@ == c2
                &&& (c2.paused ==> outcome == Err::<M::Result, Error>(Error::ServicePaused))
                &&& (!c2.paused ==> outcome == Ok::<M::Result, Error>(r2))
            }),
    {
        if self.is_stop() {
            return Err(Error::ServiceStoped);
        }
        let ghost s0 = *svc;
        let ghost c0 = self@;
        let n = self.queued_len();
        let mut i: usize = 0;
        while i < n && self.queued_len() > 0
            invariant
                self.wf(),
                i <= n,
                n == c0.chan.msgs.len(),
                *svc == run_bounded::<S, E>(s0, c0, i as nat).0,
                self@ == run_bounded::<S, E>(s0, c0, i as nat).1,
            decreases n - i,
        {
            match self.channel.next_message() {
                NextMessage::Ready(Some(env)) => {
                    proof {
                        assert(self@ =~= spec_after_pop(run_bounded::<S, E>(s0, c0, i as nat).1));
                    }
                    env.handle(svc, self);
                    proof {
                        lemma_run_bounded_compose::<S, E>(s0, c0, i as nat, 1);
                        let si = run_bounded::<S, E>(s0, c0, i as nat).0;
                        let ci = run_bounded::<S, E>(s0, c0, i as nat).1;
                        let s2 = ci.chan.msgs[0].dispatch_spec(si, spec_after_pop(ci)).0;
                        let c2 = ci.chan.msgs[0].dispatch_spec(si, spec_after_pop(ci)).1;
                        assert(run_bounded::<S, E>(s2, c2, 0) == (s2, c2));
                        assert(run_bounded::<S, E>(si, ci, 1) == (s2, c2));
                        assert(run_bounded::<S, E>(s0, c0, i as nat + 1) == (s2, c2));
                    }
                    i = i + 1;
                },
                NextMessage::Ready(None) => {
                    proof {
                        assert(false);
                    }
                },
                NextMessage::Pending => {
                    proof {
                        assert(false);
                    }
                },
            }
        }
        proof {
            lemma_run_bounded_compose::<S, E>(s0, c0, i as nat, (n - i) as nat);
        }
        let env = EnvelopWithMessage::new(message, Some(Completion::new()));
        let done = env.deliver(svc, self);
        match done {
            Some(mut cell) => {
                match cell.poll_value() {
                    CompletionPoll::Value(result) => Ok(result),
                    CompletionPoll::Canceled => Err(Error::ServicePaused),
                    CompletionPoll::Pending => unreached(),
                }
            },
            None => unreached(),
        }
    }
}

} // verus!
