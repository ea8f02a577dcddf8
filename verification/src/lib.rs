//! An in-process actor runtime kernel, verified with Verus.
//!
//! Services run one at a time behind a mailbox; callers reach them through
//! cloneable addresses that submit typed messages over an unbounded
//! multi-producer single-consumer channel. This crate verifies the kernel's
//! observable behaviour as a sequential state machine: every shared
//! structure of the runtime (the lock-free queue, the channel's packed state
//! word, the completion cell, the mailbox) is modelled as an owned value,
//! and each operation a producer, a consumer or the dispatch loop may
//! perform on it is an exec function with an exact contract. An embedding
//! supplies the sharing and the task wiring around these operations: it
//! locks the mailbox, runs `Context::start` once and then `poll_step` per
//! cycle, suspends on `Idle`, and wakes on each send.

pub mod address;
pub mod completion;
pub mod context;
pub mod envelope;
pub mod error;
pub mod handler;
pub mod mpsc;
pub mod queue;
pub mod rpc;
pub mod sample;
pub mod state;
pub mod step;

pub use address::{Address, ForwardStep};
pub use completion::{Completion, CompletionPoll};
pub use context::{Context, ContextView, MailboxStep, Phase};
pub use envelope::{EnvelopWithMessage, Wraps};
pub use error::Error;
pub use handler::{EnvelopProxy, Handler, Message, Service};
pub use mpsc::{
    unbounded, ChannelView, NextMessage, RecvError, SendError, TryRecvError, TrySendError,
    UnboundedChannel,
};
pub use queue::{PopResult, Queue};
pub use rpc::{RpcClient, RpcClientError, RpcError, RpcResponse};
pub use state::{decode_state, encode_state, State, MAX_BUFFER, MAX_CAPACITY};
pub use step::{AsyncStepService, StepError};
