//! A model of the unbounded multi-producer, single-consumer channel.
//!
//! The channel pairs the queue with a packed state word (open flag plus live
//! message count), a sender reference count and a parked-receiver waker slot.
//! In the running system that state is shared: senders and the receiver race
//! on it with compare-and-swap loops. This module models the shared state as
//! one owned value, and every operation a sender handle or the receiver
//! handle can perform as a method with an exact contract. A send increments
//! the count and then pushes; the two halves are exposed separately
//! (`inc_num_messages`, `queue_push_and_signal`) because the window between
//! them is observable: a receiver can find the channel closed with a positive
//! count and an empty queue, and must keep waiting rather than report
//! end-of-stream. The open flag moves one way: it starts set and every
//! transition clears it, so a channel that has closed never reopens, and a
//! count decrement always answers an earlier granted increment.

use vstd::prelude::*;

use crate::queue::Queue;
use crate::state::{
    decode_state, encode_state, spec_is_open, spec_num_messages, State, INIT_STATE, MAX_BUFFER,
    MAX_CAPACITY,
};

verus! {

/// The error type for senders: the one condition a send can fail with.
#[derive(Clone, Copy, Debug, PartialEq, Eq, Structural)]
pub enum SendErrorKind {
    /// The channel's open flag was already clear.
    Disconnected,
}

/// The error type returned when a send finds the channel closed.
#[derive(Clone, Copy, Debug, PartialEq, Eq, Structural)]
pub struct SendError {
    pub kind: SendErrorKind,
}

/// The error type returned from a failed send, carrying the rejected value
/// back to the caller.
#[derive(Clone)]
pub struct TrySendError<T> {
    pub err: SendError,
    pub val: T,
}

/// Error returned by `try_recv`.
#[derive(Clone, Copy, Debug, PartialEq, Eq, Structural)]
pub enum TryRecvError {
    /// The channel is empty but not closed.
    Empty,
    /// The channel is empty and closed.
    Closed,
}

/// Error returned by the receive path once the channel is empty and closed.
#[derive(Clone, Copy, Debug, PartialEq, Eq, Structural)]
pub struct RecvError;

impl SendError {
    /// Returns `true` if this error is a result of the receiver being gone.
    pub fn is_disconnected(&self) -> (disconnected: bool)
        ensures
            disconnected == (self.kind is Disconnected),
    {
        matches!(self.kind, SendErrorKind::Disconnected)
    }
}

impl<T> TrySendError<T> {
    /// Returns `true` if this error is a result of the receiver being gone.
    pub fn is_disconnected(&self) -> (disconnected: bool)
        ensures
            disconnected == (self.err.kind is Disconnected),
    {
        self.err.is_disconnected()
    }

    /// Returns the message that was attempted to be sent but failed.
    pub fn into_inner(self) -> (val: T)
        ensures
            val == self.val,
    {
        self.val
    }

    /// Drops the message and converts into a `SendError`.
    pub fn into_send_error(self) -> (err: SendError)
        ensures
            err == self.err,
    {
        self.err
    }
}

impl TryRecvError {
    /// Returns `true` if the channel is empty but not closed.
    pub fn is_empty(&self) -> (empty: bool)
        ensures
            empty == (*self is Empty),
    {
        matches!(self, TryRecvError::Empty)
    }

    /// Returns `true` if the channel is empty and closed.
    pub fn is_closed(&self) -> (closed: bool)
        ensures
            closed == (*self is Closed),
    {
        matches!(self, TryRecvError::Closed)
    }
}

/// What one poll of the receive path yields: a value or end-of-stream when
/// ready, or nothing yet, in which case the receiver parks.
pub enum NextMessage<T> {
    /// A message, or `None` for end-of-stream.
    Ready(Option<T>),
    /// Nothing can be delivered yet; more may still arrive.
    Pending,
}

/// Abstract state of a channel: what its contracts speak of.
#[verifier::ext_equal]
pub ghost struct ChannelView<T> {
    /// The open flag of the state word.
    pub open: bool,
    /// The live message count of the state word. It runs ahead of `msgs`
    /// while a send has incremented it but not pushed yet.
    pub count: usize,
    /// The queued messages, in the order the queue observed their pushes.
    pub msgs: Seq<T>,
    /// The number of live sender handles.
    pub senders: usize,
    /// Whether a receiver task is registered in the waker slot.
    pub parked: bool,
    /// Whether the receiver has observed end-of-stream and detached.
    pub terminated: bool,
}

/// The unbounded channel: the queue, the packed state word, the sender
/// count and the waker slot, owned as one value.
pub struct UnboundedChannel<T> {
    state: usize,
    message_queue: Queue<T>,
    num_senders: usize,
    recv_parked: bool,
    terminated: bool,
}

impl<T> View for UnboundedChannel<T> {
    type V = ChannelView<T>;

    closed spec fn view(&self) -> ChannelView<T> {
        ChannelView {
            open: spec_is_open(self.state),
            count: spec_num_messages(self.state),
            msgs: self.message_queue@,
            senders: self.num_senders,
            parked: self.recv_parked,
            terminated: self.terminated,
        }
    }
}

/// Creates an unbounded channel: open, empty, with one sender handle.
pub fn unbounded<T>() -> (chan: UnboundedChannel<T>)
    ensures
        chan.wf(),
        chan@.open,
        chan@.count == 0,
        chan@.msgs == Seq::<T>::empty(),
        chan@.senders == 1,
        !chan@.parked,
        !chan@.terminated,
{
    UnboundedChannel {
        state: INIT_STATE,
        message_queue: Queue::new(),
        num_senders: 1,
        recv_parked: false,
        terminated: false,
    }
}

/// The consistency a channel's abstract state always keeps: the count covers
/// every queued message, counts stay in range, and a detached receiver has
/// left nothing behind.
pub open spec fn view_wf<T>(c: ChannelView<T>) -> bool {
    &&& c.count >= c.msgs.len()
    &&& c.count <= MAX_CAPACITY
    &&& c.senders <= MAX_BUFFER
    &&& (c.terminated ==> !c.open && c.count == 0)
    &&& (c.senders == 0 ==> !c.open)
}

impl<T> UnboundedChannel<T> {
    /// Every queued push has published its link: the channel's own send path
    /// only ever performs complete pushes.
    pub closed spec fn linked(&self) -> bool {
        self.message_queue.all_linked()
    }

    /// The channel's internal consistency.
    pub open spec fn wf(&self) -> bool {
        &&& self.linked()
        &&& view_wf(self@)
    }

    /// Clears the open flag, keeping the message count intact.
    fn set_closed(&mut self)
        requires
            old(self).wf(),
        ensures
            final(self).wf(),
            final(self)@ == (ChannelView { open: false, ..old(self)@ }),
    {
        let st = decode_state(self.state);
        if !st.is_open {
            return ;
        }
        self.state = encode_state(&State { is_open: false, num_messages: st.num_messages });
    }

    /// Sender side: whether this channel can still accept a message.
    pub fn poll_ready_nb(&self) -> (ready: Result<(), SendError>)
        ensures
            self@.open ==> ready == Ok::<(), SendError>(()),
            !self@.open ==> ready == Err::<(), SendError>(
                SendError { kind: SendErrorKind::Disconnected },
            ),
    {
        let state = decode_state(self.state);
        if state.is_open {
            Ok(())
        } else {
            Err(SendError { kind: SendErrorKind::Disconnected })
        }
    }

    /// Sender side: returns whether this channel is closed.
    pub fn is_closed(&self) -> (closed: bool)
        ensures
            closed == !self@.open,
    {
        let state = decode_state(self.state);
        !state.is_open
    }

    /// Sender side: closes this channel, preventing any new message, and
    /// wakes a parked receiver so it can observe the closure.
    pub fn close_channel(&mut self)
        requires
            old(self).wf(),
        ensures
            final(self).wf(),
            final(self)@ == (ChannelView { open: false, parked: false, ..old(self)@ }),
    {
        self.set_closed();
        self.recv_parked = false;
    }

    /// The first half of a send: atomically increments the live message
    /// count, unless the channel is already closed. Returns the new count on
    /// success. The caller owes the queue a push for the slot it was granted.
    pub fn inc_num_messages(&mut self) -> (granted: Option<usize>)
        requires
            old(self).wf(),
            old(self)@.count < MAX_CAPACITY,
        ensures
            final(self).wf(),
            !old(self)@.open ==> granted is None && *final(self) == *old(self),
            old(self)@.open ==> granted == Some((old(self)@.count + 1) as usize) && final(self)@
                == (ChannelView { count: (old(self)@.count + 1) as usize, ..old(self)@ }),
    {
        let state = decode_state(self.state);

        if !state.is_open {
            return None;
        }
        let next = State { is_open: true, num_messages: state.num_messages + 1 };
        self.state = encode_state(&next);
        Some(next.num_messages)
    }

    /// The second half of a send: pushes the message onto the queue and
    /// signals the receiver, waking it if it was parked.
    pub fn queue_push_and_signal(&mut self, msg: T)
        requires
            old(self).wf(),
            old(self)@.msgs.len() < old(self)@.count,
        ensures
            final(self).wf(),
            final(self)@ == (ChannelView {
                msgs: old(self)@.msgs.push(msg),
                parked: false,
                ..old(self)@
            }),
    {
        self.message_queue.push(msg);
        self.recv_parked = false;
    }

    // Both halves of a send, without parking the current task.
    fn do_send_nb(&mut self, msg: T) -> (sent: Result<(), TrySendError<T>>)
        requires
            old(self).wf(),
            old(self)@.count < MAX_CAPACITY,
        ensures
            final(self).wf(),
            old(self)@.open ==> sent is Ok && final(self)@ == (ChannelView {
                count: (old(self)@.count + 1) as usize,
                msgs: old(self)@.msgs.push(msg),
                parked: false,
                ..old(self)@
            }),
            !old(self)@.open ==> *final(self) == *old(self) && (sent matches Err(e)
                && e.err.kind is Disconnected && e.val == msg),
    {
        match self.inc_num_messages() {
            Some(_) => {
                self.queue_push_and_signal(msg);
                Ok(())
            },
            None => Err(
                TrySendError { err: SendError { kind: SendErrorKind::Disconnected }, val: msg },
            ),
        }
    }

    /// Sends a message along this channel: succeeds exactly while the channel
    /// is open, and hands the message back otherwise.
    pub fn unbounded_send(&mut self, msg: T) -> (sent: Result<(), TrySendError<T>>)
        requires
            old(self).wf(),
            old(self)@.count < MAX_CAPACITY,
        ensures
            final(self).wf(),
            old(self)@.open ==> sent is Ok && final(self)@ == (ChannelView {
                count: (old(self)@.count + 1) as usize,
                msgs: old(self)@.msgs.push(msg),
                parked: false,
                ..old(self)@
            }),
            !old(self)@.open ==> *final(self) == *old(self) && (sent matches Err(e)
                && e.err.kind is Disconnected && e.val == msg),
    {
        self.do_send_nb(msg)
    }

    /// Sends a message, dropping it on failure and reporting only the error.
    pub fn start_send(&mut self, msg: T) -> (sent: Result<(), SendError>)
        requires
            old(self).wf(),
            old(self)@.count < MAX_CAPACITY,
        ensures
            final(self).wf(),
            old(self)@.open ==> sent is Ok && final(self)@ == (ChannelView {
                count: (old(self)@.count + 1) as usize,
                msgs: old(self)@.msgs.push(msg),
                parked: false,
                ..old(self)@
            }),
            !old(self)@.open ==> *final(self) == *old(self) && sent == Err::<(), SendError>(
                SendError { kind: SendErrorKind::Disconnected },
            ),
    {
        match self.do_send_nb(msg) {
            Ok(()) => Ok(()),
            Err(e) => Err(e.err),
        }
    }

    /// The number of messages actually sitting in the queue. It can lag the
    /// live count while a send holds a granted slot it has not pushed into.
    pub fn queued_len(&self) -> (len: usize)
        ensures
            len == self@.msgs.len(),
    {
        self.message_queue.len()
    }

    /// Sender side: the number of live messages the channel tracks.
    pub fn len(&self) -> (len: usize)
        ensures
            len == self@.count,
    {
        let state = decode_state(self.state);
        state.num_messages
    }

    /// Sender side: whether the channel tracks no live message.
    pub fn is_empty(&self) -> (empty: bool)
        ensures
            empty == (self@.count == 0),
    {
        self.len() == 0
    }

    /// A sender handle is cloned: one more sender exists. Cloning past the
    /// sender cap is a structural misuse and is excluded outright.
    pub fn clone_sender(&mut self)
        requires
            old(self).wf(),
            old(self)@.senders >= 1,
            old(self)@.senders < MAX_BUFFER,
        ensures
            final(self).wf(),
            final(self)@ == (ChannelView {
                senders: (old(self)@.senders + 1) as usize,
                ..old(self)@
            }),
    {
        self.num_senders = self.num_senders + 1;
    }

    /// A sender handle is dropped. The last one to go closes the channel and
    /// wakes the receiver; any earlier drop changes nothing else.
    pub fn drop_sender(&mut self)
        requires
            old(self).wf(),
            old(self)@.senders >= 1,
        ensures
            final(self).wf(),
            old(self)@.senders == 1 ==> final(self)@ == (ChannelView {
                senders: 0,
                open: false,
                parked: false,
                ..old(self)@
            }),
            old(self)@.senders > 1 ==> final(self)@ == (ChannelView {
                senders: (old(self)@.senders - 1) as usize,
                ..old(self)@
            }),
    {
        if self.num_senders == 1 {
            self.close_channel();
        }
        self.num_senders = self.num_senders - 1;
    }

    /// Receiver side: closes the channel without dropping it, so that no
    /// further message is accepted while the buffered ones can still drain.
    pub fn close(&mut self)
        requires
            old(self).wf(),
        ensures
            final(self).wf(),
            final(self)@ == (ChannelView { open: false, ..old(self)@ }),
    {
        self.set_closed();
    }

    // Decrements the live message count after a successful pop.
    fn dec_num_messages(&mut self)
        requires
            old(self).wf(),
            old(self)@.count >= old(self)@.msgs.len() + 1,
        ensures
            final(self).wf(),
            final(self)@ == (ChannelView { count: (old(self)@.count - 1) as usize, ..old(self)@ }),
    {
        let state = decode_state(self.state);
        self.state = encode_state(
            &State { is_open: state.is_open, num_messages: state.num_messages - 1 },
        );
        proof {
            assert(self@ =~= (ChannelView { count: (old(self)@.count - 1) as usize, ..old(self)@ }));
        }
    }

    /// Receiver side: one poll of the receive path.
    ///
    /// Delivers the front message when one is queued. With nothing queued it
    /// reports end-of-stream only once the channel is closed and the count
    /// agrees that nothing is still in flight; a clear flag with a positive
    /// count means a sender was granted a slot and has not pushed yet, so the
    /// receiver must keep waiting for exactly that message.
    pub fn next_message(&mut self) -> (next: NextMessage<T>)
        requires
            old(self).wf(),
        ensures
            final(self).wf(),
            old(self)@.terminated ==> next == NextMessage::Ready(Option::<T>::None) && *final(self)
                == *old(self),
            !old(self)@.terminated && old(self)@.msgs.len() > 0 ==> next == NextMessage::Ready(
                Some(old(self)@.msgs[0]),
            ) && final(self)@ == (ChannelView {
                msgs: old(self)@.msgs.drop_first(),
                count: (old(self)@.count - 1) as usize,
                ..old(self)@
            }),
            !old(self)@.terminated && old(self)@.msgs.len() == 0 && !old(self)@.open && old(
                self,
            )@.count == 0 ==> next == NextMessage::Ready(Option::<T>::None) && final(self)@
                == (ChannelView { terminated: true, ..old(self)@ }),
            !old(self)@.terminated && old(self)@.msgs.len() == 0 && (old(self)@.open || old(
                self,
            )@.count > 0) ==> next is Pending && *final(self) == *old(self),
    {
        if self.terminated {
            return NextMessage::Ready(None);
        }
        proof {
            self.message_queue.lemma_links_len();
        }
        match self.message_queue.pop_spin() {
            Some(msg) => {
                self.dec_num_messages();
                NextMessage::Ready(Some(msg))
            },
            None => {
                let state = decode_state(self.state);
                if state.is_closed() {
                    self.terminated = true;
                    NextMessage::Ready(None)
                } else {
                    NextMessage::Pending
                }
            },
        }
    }

    /// Receiver side: tries to receive the next message without parking.
    ///
    /// Returns `Ok(Some(msg))` when a message is fetched, `Ok(None)` when the
    /// channel is closed with nothing left, and `Err` when nothing can be
    /// delivered yet.
    pub fn try_next(&mut self) -> (next: Result<Option<T>, TryRecvError>)
        requires
            old(self).wf(),
        ensures
            final(self).wf(),
            old(self)@.terminated ==> next == Ok::<Option<T>, TryRecvError>(Option::<T>::None)
                && *final(self) == *old(self),
            !old(self)@.terminated && old(self)@.msgs.len() > 0 ==> next == Ok::<
                Option<T>,
                TryRecvError,
            >(Some(old(self)@.msgs[0])) && final(self)@ == (ChannelView {
                msgs: old(self)@.msgs.drop_first(),
                count: (old(self)@.count - 1) as usize,
                ..old(self)@
            }),
            !old(self)@.terminated && old(self)@.msgs.len() == 0 && !old(self)@.open && old(
                self,
            )@.count == 0 ==> next == Ok::<Option<T>, TryRecvError>(Option::<T>::None) && final(self)@ == (ChannelView { terminated: true, ..old(self)@ }),
            !old(self)@.terminated && old(self)@.msgs.len() == 0 && (old(self)@.open || old(
                self,
            )@.count > 0) ==> next == Err::<Option<T>, TryRecvError>(TryRecvError::Empty)
                && *final(self) == *old(self),
    {
        match self.next_message() {
            NextMessage::Ready(msg) => Ok(msg),
            NextMessage::Pending => Err(TryRecvError::Empty),
        }
    }

    /// Receiver side: tries to receive a message without parking, telling an
    /// empty channel apart from a closed one in the error.
    pub fn try_recv(&mut self) -> (received: Result<T, TryRecvError>)
        requires
            old(self).wf(),
        ensures
            final(self).wf(),
            old(self)@.terminated ==> received == Err::<T, TryRecvError>(TryRecvError::Closed)
                && *final(self) == *old(self),
            !old(self)@.terminated && old(self)@.msgs.len() > 0 ==> received == Ok::<
                T,
                TryRecvError,
            >(old(self)@.msgs[0]) && final(self)@ == (ChannelView {
                msgs: old(self)@.msgs.drop_first(),
                count: (old(self)@.count - 1) as usize,
                ..old(self)@
            }),
            !old(self)@.terminated && old(self)@.msgs.len() == 0 && !old(self)@.open && old(
                self,
            )@.count == 0 ==> received == Err::<T, TryRecvError>(TryRecvError::Closed) && final(self)@ == (ChannelView { terminated: true, ..old(self)@ }),
            !old(self)@.terminated && old(self)@.msgs.len() == 0 && (old(self)@.open || old(
                self,
            )@.count > 0) ==> received == Err::<T, TryRecvError>(TryRecvError::Empty) && *final(self) == *old(self),
    {
        match self.next_message() {
            NextMessage::Ready(Some(msg)) => Ok(msg),
            NextMessage::Ready(None) => Err(TryRecvError::Closed),
            NextMessage::Pending => Err(TryRecvError::Empty),
        }
    }

    /// Receiver side: whether the receive path has reported end-of-stream.
    pub fn is_terminated(&self) -> (terminated: bool)
        ensures
            terminated == self@.terminated,
    {
        self.terminated
    }

    /// Receiver side: one poll of the stream. Where a plain `next_message`
    /// would report nothing yet, this registers the receiver task in the
    /// waker slot and checks once more, closing the race between observing
    /// an empty queue and parking.
    pub fn poll_next(&mut self) -> (next: NextMessage<T>)
        requires
            old(self).wf(),
        ensures
            final(self).wf(),
            old(self)@.terminated ==> next == NextMessage::Ready(Option::<T>::None) && *final(self)
                == *old(self),
            !old(self)@.terminated && old(self)@.msgs.len() > 0 ==> next == NextMessage::Ready(
                Some(old(self)@.msgs[0]),
            ) && final(self)@ == (ChannelView {
                msgs: old(self)@.msgs.drop_first(),
                count: (old(self)@.count - 1) as usize,
                ..old(self)@
            }),
            !old(self)@.terminated && old(self)@.msgs.len() == 0 && !old(self)@.open && old(
                self,
            )@.count == 0 ==> next == NextMessage::Ready(Option::<T>::None) && final(self)@
                == (ChannelView { terminated: true, ..old(self)@ }),
            !old(self)@.terminated && old(self)@.msgs.len() == 0 && (old(self)@.open || old(
                self,
            )@.count > 0) ==> next is Pending && final(self)@ == (ChannelView {
                parked: true,
                ..old(self)@
            }),
    {
        match self.next_message() {
            NextMessage::Ready(msg) => NextMessage::Ready(msg),
            NextMessage::Pending => {
                self.recv_parked = true;
                self.next_message()
            },
        }
    }

    /// Receiver side: bounds on how many messages may still be observed.
    pub fn size_hint(&self) -> (hint: (usize, Option<usize>))
        ensures
            self@.terminated ==> hint == (0usize, Some(0usize)),
            !self@.terminated ==> hint.0 == self@.count && hint.1 == if self@.open {
                Option::<usize>::None
            } else {
                Option::<usize>::Some(self@.count)
            },
    {
        if self.terminated {
            (0, Some(0))
        } else {
            let state = decode_state(self.state);
            state.size_hint()
        }
    }

    /// Runs the receive path to end-of-stream on a closed channel: every
    /// message that was accepted before closure is delivered, in push order,
    /// and only then does the channel terminate. Nothing submitted before
    /// closure is silently lost.
    pub fn recv_all(&mut self) -> (values: Vec<T>)
        requires
            old(self).wf(),
            !old(self)@.open,
            old(self)@.count == old(self)@.msgs.len(),
        ensures
            final(self).wf(),
            values@ == old(self)@.msgs,
            final(self)@ == (ChannelView {
                count: 0,
                msgs: Seq::<T>::empty(),
                terminated: true,
                ..old(self)@
            }),
    {
        let mut values: Vec<T> = Vec::new();
        if self.terminated {
            proof {
                assert(values@ =~= old(self)@.msgs);
                assert(self@ =~= (ChannelView {
                    count: 0,
                    msgs: Seq::<T>::empty(),
                    terminated: true,
                    ..old(self)@
                }));
            }
            return values;
        }
        loop
            invariant
                self.wf(),
                !old(self)@.open,
                !self@.open,
                !self@.terminated,
                self@.count == self@.msgs.len(),
                self@.senders == old(self)@.senders,
                self@.parked == old(self)@.parked,
                values@ + self@.msgs == old(self)@.msgs,
            decreases self@.msgs.len() + 1,
        {
            match self.next_message() {
                NextMessage::Ready(Some(value)) => {
                    values.push(value);
                    proof {
                        assert(values@ + self@.msgs =~= old(self)@.msgs);
                    }
                },
                NextMessage::Ready(None) => {
                    proof {
                        assert(values@ =~= old(self)@.msgs);
                        assert(self@ =~= (ChannelView {
                            count: 0,
                            msgs: Seq::<T>::empty(),
                            terminated: true,
                            ..old(self)@
                        }));
                    }
                    return values;
                },
                NextMessage::Pending => {
                    proof {
                        assert(false);
                    }
                },
            }
        }
    }

    /// The receiver handle is dropped: the channel is closed first, so no
    /// further send is accepted, and then drained so no queued message is
    /// left behind. Every message still queued is observed (and discarded)
    /// before the channel terminates; a send that was granted a slot but has
    /// not pushed yet would be waited out in the running system, so this
    /// model asks for none.
    pub fn drop_receiver(&mut self)
        requires
            old(self).wf(),
            old(self)@.count == old(self)@.msgs.len(),
        ensures
            final(self).wf(),
            final(self)@ == (ChannelView {
                open: false,
                count: 0,
                msgs: Seq::<T>::empty(),
                terminated: true,
                ..old(self)@
            }),
    {
        self.close();
        if self.terminated {
            proof {
                assert(self@ =~= ChannelView {
                    open: false,
                    count: 0,
                    msgs: Seq::<T>::empty(),
                    terminated: true,
                    ..old(self)@
                });
            }
            return ;
        }
        loop
            invariant
                self.wf(),
                !self@.open,
                !self@.terminated,
                self@.count == self@.msgs.len(),
                self@.senders == old(self)@.senders,
                self@.parked == old(self)@.parked,
            decreases self@.msgs.len() + 1,
        {
            match self.next_message() {
                NextMessage::Ready(Some(_)) => {
                },
                NextMessage::Ready(None) => {
                    proof {
                        assert(self@ =~= ChannelView {
                            open: false,
                            count: 0,
                            msgs: Seq::<T>::empty(),
                            terminated: true,
                            ..old(self)@
                        });
                    }
                    return ;
                },
                NextMessage::Pending => {
                    proof {
                        assert(false);
                    }
                },
            }
        }
    }
}

} // verus!
