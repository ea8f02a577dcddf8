//! The channel's packed state word.
//!
//! A channel stores its open flag and its live message count in one machine
//! word: the left-most bit holds the flag, the remaining bits the count.
//! Because the flag sits above every admissible count, setting it is an
//! addition of `OPEN_MASK` and reading it is a comparison against
//! `OPEN_MASK`; the word's layout is exactly the bitwise packing, stated in
//! arithmetic so that every use of it is checked.

use vstd::prelude::*;

verus! {

/// The `is_open` flag is stored in the left-most bit of the state word.
pub const OPEN_MASK: usize = usize::MAX - usize::MAX / 2;

/// A channel starts open with no pending messages.
pub const INIT_STATE: usize = OPEN_MASK;

/// The maximum number of messages a channel can track: all bits but the flag.
pub const MAX_CAPACITY: usize = usize::MAX / 2;

/// The maximum number of sender handles: each sender gets a guaranteed slot,
/// so the cap stays below the message capacity.
pub const MAX_BUFFER: usize = usize::MAX / 2 / 2;

/// Decoded form of the state word.
#[derive(Clone, Copy)]
pub struct State {
    /// `true` while the channel is open.
    pub is_open: bool,

    /// Number of live messages in the channel.
    pub num_messages: usize,
}

/// The flag read of a state word: the word carries an open channel.
pub open spec fn spec_is_open(num: usize) -> bool {
    num >= OPEN_MASK
}

/// The count read of a state word: the live message count it carries.
pub open spec fn spec_num_messages(num: usize) -> usize {
    if spec_is_open(num) {
        (num - OPEN_MASK) as usize
    } else {
        num
    }
}

/// The word that carries the given flag and count.
pub open spec fn spec_encode(state: State) -> usize
    recommends
        state.num_messages <= MAX_CAPACITY,
{
    if state.is_open {
        (state.num_messages + OPEN_MASK) as usize
    } else {
        state.num_messages
    }
}

/// Decoding inverts encoding: a word built from a flag and an in-range count
/// reads back as exactly that flag and count.
pub proof fn lemma_state_round_trip(state: State)
    requires
        state.num_messages <= MAX_CAPACITY,
    ensures
        spec_is_open(spec_encode(state)) == state.is_open,
        spec_num_messages(spec_encode(state)) == state.num_messages,
{
}

/// Reads the flag and the count out of a packed state word.
pub fn decode_state(num: usize) -> (state: State)
    ensures
        state.is_open == spec_is_open(num),
        state.num_messages == spec_num_messages(num),
{
    if num >= OPEN_MASK {
        State { is_open: true, num_messages: num - OPEN_MASK }
    } else {
        State { is_open: false, num_messages: num }
    }
}

/// Packs a flag and a count into one state word.
pub fn encode_state(state: &State) -> (num: usize)
    requires
        state.num_messages <= MAX_CAPACITY,
    ensures
        num == spec_encode(*state),
        spec_is_open(num) == state.is_open,
        spec_num_messages(num) == state.num_messages,
{
    if state.is_open {
        state.num_messages + OPEN_MASK
    } else {
        state.num_messages
    }
}

impl State {
    /// A channel is fully closed once the flag is clear and no message is
    /// left to drain.
    pub fn is_closed(&self) -> (closed: bool)
        ensures
            closed == (!self.is_open && self.num_messages == 0),
    {
        !self.is_open && self.num_messages == 0
    }

    /// Bounds on how many messages the receiver may still observe: at least
    /// the live count, and no more than the live count once the channel is
    /// closed.
    pub fn size_hint(&self) -> (hint: (usize, Option<usize>))
        ensures
            hint.0 == self.num_messages,
            hint.1 == if self.is_open {
                Option::<usize>::None
            } else {
                Option::<usize>::Some(self.num_messages)
            },
    {
        if self.is_open {
            (self.num_messages, None)
        } else {
            (self.num_messages, Some(self.num_messages))
        }
    }
}

} // verus!
