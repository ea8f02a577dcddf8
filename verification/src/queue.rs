//! A model of the runtime's multi-producer, single-consumer queue.
//!
//! The queue under every mailbox is an intrusive linked list: a push first
//! swaps the shared head pointer to the new node and only then publishes the
//! new node as its predecessor's successor. Between those two steps the value
//! is in the queue's order but not yet reachable by the consumer, which is
//! exactly when a pop reports `Inconsistent`. This module models the list as
//! the sequence of values in swap order, each carrying a flag that says
//! whether its link has been published. `push` performs both steps at once
//! (an uninterrupted producer); `begin_push` and `finish_push` perform them
//! separately, which is how an interleaving of preempted producers is
//! expressed. `pop` is the single consumer's step and is exact about all
//! three outcomes.

use vstd::prelude::*;

verus! {

/// A result of the `pop` function.
pub enum PopResult<T> {
    /// Some data has been popped.
    Data(T),
    /// The queue is empty: no value is pending at all.
    Empty,
    /// The queue holds data, but the front value's link has not been
    /// published yet. The condition is transient: it resolves as soon as the
    /// producer that began that push finishes it.
    Inconsistent,
}

struct Node<T> {
    value: T,
    linked: bool,
}

/// The multi-producer single-consumer queue, modelled as the sequence of its
/// values in the order the head pointer observed their pushes.
pub struct Queue<T> {
    nodes: Vec<Node<T>>,
}

impl<T> View for Queue<T> {
    type V = Seq<T>;

    /// All values in swap order, published or not.
    closed spec fn view(&self) -> Seq<T> {
        self.nodes@.map_values(|n: Node<T>| n.value)
    }
}

impl<T> Queue<T> {
    /// Which pushes have published their link, in swap order.
    pub closed spec fn links(&self) -> Seq<bool> {
        self.nodes@.map_values(|n: Node<T>| n.linked)
    }

    /// Every value in the queue is reachable by the consumer: no push is
    /// mid-flight.
    pub open spec fn all_linked(&self) -> bool {
        forall|i: int| 0 <= i < self.links().len() ==> self.links()[i]
    }

    /// The swap order and the link flags describe the same nodes.
    pub proof fn lemma_links_len(&self)
        ensures
            self.links().len() == self@.len(),
    {
    }

    /// The number of values in the queue, published or not.
    pub fn len(&self) -> (len: usize)
        ensures
            len == self@.len(),
    {
        self.nodes.len()
    }

    /// Creates a new, empty queue.
    pub fn new() -> (queue: Self)
        ensures
            queue@ == Seq::<T>::empty(),
            queue.links() == Seq::<bool>::empty(),
    {
        let queue = Queue { nodes: Vec::new() };
        proof {
            assert(queue@ =~= Seq::<T>::empty());
            assert(queue.links() =~= Seq::<bool>::empty());
        }
        queue
    }

    /// Pushes a new value onto this queue: the head swap and the link
    /// publication as one uninterrupted step.
    pub fn push(&mut self, t: T)
        ensures
            final(self)@ == old(self)@.push(t),
            final(self).links() == old(self).links().push(true),
    {
        self.nodes.push(Node { value: t, linked: true });
        proof {
            assert(self@ =~= old(self)@.push(t));
            assert(self.links() =~= old(self).links().push(true));
        }
    }

    /// The first half of a push: the producer has swapped the shared head to
    /// its node, so the value now has its place in the queue's order, but the
    /// predecessor's successor link is not published yet.
    pub fn begin_push(&mut self, t: T)
        ensures
            final(self)@ == old(self)@.push(t),
            final(self).links() == old(self).links().push(false),
    {
        self.nodes.push(Node { value: t, linked: false });
        proof {
            assert(self@ =~= old(self)@.push(t));
            assert(self.links() =~= old(self).links().push(false));
        }
    }

    /// The second half of the push that was begun at position `i`: its
    /// producer publishes the link, making the value reachable.
    pub fn finish_push(&mut self, i: usize)
        requires
            i < old(self).links().len(),
            !old(self).links()[i as int],
        ensures
            final(self)@ == old(self)@,
            final(self).links() == old(self).links().update(i as int, true),
    {
        let mut node = self.nodes.remove(i);
        node.linked = true;
        self.nodes.insert(i, node);
        proof {
            assert(self@ =~= old(self)@);
            assert(self.links() =~= old(self).links().update(i as int, true));
        }
    }

    /// Pops some data from this queue. Only the single consumer may call it.
    ///
    /// Returns the front value when its link is published; `Empty` when no
    /// value is pending at all; `Inconsistent` when a value exists whose push
    /// has not finished, in which case popping again after the producer makes
    /// progress will succeed.
    pub fn pop(&mut self) -> (result: PopResult<T>)
        ensures
            old(self)@.len() == 0 ==> result is Empty && *final(self) == *old(self),
            old(self)@.len() > 0 && old(self).links()[0] ==> result == PopResult::Data(
                old(self)@[0],
            ) && final(self)@ == old(self)@.drop_first() && final(self).links() == old(
                self,
            ).links().drop_first(),
            old(self)@.len() > 0 && !old(self).links()[0] ==> result is Inconsistent
                && *final(self) == *old(self),
    {
        if self.nodes.len() == 0 {
            return PopResult::Empty;
        }
        if !self.nodes[0].linked {
            return PopResult::Inconsistent;
        }
        let node = self.nodes.remove(0);
        proof {
            assert(self@ =~= old(self)@.drop_first());
            assert(self.links() =~= old(self).links().drop_first());
        }
        PopResult::Data(node.value)
    }

    /// Pops an element like `pop`, but where the consumer would spin through
    /// a transient `Inconsistent` state until the mid-flight push finishes.
    /// A producer's progress is outside a sequential model, so this form asks
    /// the front push to be finished already.
    pub fn pop_spin(&mut self) -> (result: Option<T>)
        requires
            old(self)@.len() > 0 ==> old(self).links()[0],
        ensures
            old(self)@.len() == 0 ==> result is None && *final(self) == *old(self),
            old(self)@.len() > 0 ==> result == Some(old(self)@[0]) && final(self)@ == old(
                self,
            )@.drop_first() && final(self).links() == old(self).links().drop_first(),
    {
        proof {
            self.lemma_links_len();
        }
        match self.pop() {
            PopResult::Data(t) => Some(t),
            PopResult::Empty => None,
            PopResult::Inconsistent => unreached(),
        }
    }

    /// Drains the whole queue in one sweep, as the consumer does when the
    /// channel above it is torn down.
    ///
    /// The consumer observes every pushed value exactly once — nothing is
    /// lost, nothing is duplicated — in swap order, which preserves each
    /// producer's own push order.
    pub fn drain(&mut self) -> (values: Vec<T>)
        requires
            old(self).all_linked(),
        ensures
            values@ == old(self)@,
            values@.to_multiset() == old(self)@.to_multiset(),
            final(self)@.len() == 0,
    {
        let mut values: Vec<T> = Vec::new();
        proof {
            self.lemma_links_len();
        }
        loop
            invariant
                self.all_linked(),
                values@ + self@ == old(self)@,
                self.links().len() == self@.len(),
            decreases self@.len(),
        {
            proof {
                self.lemma_links_len();
            }
            match self.pop_spin() {
                Some(t) => {
                    values.push(t);
                    proof {
                        assert(values@ + self@ =~= old(self)@);
                    }
                },
                None => {
                    proof {
                        assert(values@ =~= old(self)@);
                    }
                    return values;
                },
            }
        }
    }
}

} // verus!
