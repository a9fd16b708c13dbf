//! Wire-level vocabulary shared with the lower transport protocol, and the
//! tunable constants of the manager.

use vstd::prelude::*;

verus! {

/// Channel id: identifies one attached transport, unique per participant,
/// assigned by the caller of `attach_channel`.
pub type Cid = u64;

/// Stream id: identifies one logical stream, minted monotonically from the
/// participant's configured offset (locally) or announced by the peer.
pub type Sid = u64;

/// Priority hint for a stream; lower is more urgent.
pub type Prio = u8;

/// Bitset of guarantees requested for a stream at open time.
pub type Promises = u32;

/// Guaranteed-bandwidth hint, in bytes per second.
pub type Bandwidth = u64;

/// Stream promise: messages are delivered in order.
pub const PROMISE_ORDERED: u32 = 1;

/// Stream promise: messages are delivered reliably.
pub const PROMISE_RELIABLE: u32 = 2;

/// Stream promise: delivery of each message is guaranteed.
pub const PROMISE_GUARANTEED_DELIVERY: u32 = 4;

/// Stream promise: messages are compressed on the wire.
pub const PROMISE_COMPRESSED: u32 = 8;

/// Stream promise: messages are encrypted on the wire.
pub const PROMISE_ENCRYPTED: u32 = 16;

/// Shutdown-barrier share of the channel attach manager.
pub const BARR_CHANNEL: u32 = 1;

/// Shutdown-barrier share of the send manager.
pub const BARR_SEND: u32 = 2;

/// Shutdown-barrier share of the receive manager.
pub const BARR_RECV: u32 = 4;

/// Period of the send manager's flush tick, in milliseconds.
pub const TICK_TIME_MS: u64 = 10;

/// Capacity of the bounded api-to-send-manager message queue.
pub const SEND_QUEUE_CAP: usize = 10000;

/// Soft byte budget for the per-iteration flush of the active channel.
pub const FLUSH_BYTES_PER_TICK: u64 = 1000000;

/// Upper bound on any single flush, in milliseconds.
pub const FLUSH_TIME_LIMIT_MS: u64 = 1000;

/// Initial backoff while polling the shutdown barrier, in milliseconds.
pub const SHUTDOWN_BACKOFF_INITIAL_MS: u64 = 10;

/// The protocol events exchanged with the lower transport protocol.
#[derive(Debug)]
pub enum ProtocolEvent {
    /// Announces a new stream together with its negotiated attributes.
    OpenStream { sid: Sid, prio: Prio, promises: Promises, guaranteed_bandwidth: Bandwidth },
    /// Ends a stream; sent after all of the stream's pending messages.
    CloseStream { sid: Sid },
    /// Carries one byte-message of a stream.
    Message { sid: Sid, mid: u64, buffer: Vec<u8> },
    /// Announces that the sending side of this channel is going away.
    Shutdown,
}

/// One outbound instruction: emit `event` on the channel `cid`.
#[derive(Debug)]
pub struct WireSend {
    pub cid: Cid,
    pub event: ProtocolEvent,
}

/// One flush instruction: flush channel `cid` with the given soft byte budget
/// and time bound.
#[derive(Debug, Clone, Copy, PartialEq, Eq, Structural)]
pub struct FlushCmd {
    pub cid: Cid,
    pub byte_budget: u64,
    pub time_limit_ms: u64,
}

/// The caller-facing handle of one stream: its read-only attributes.
/// Sending, receiving and closing go through the participant, keyed by `sid`.
#[derive(Debug, Clone, Copy, PartialEq, Eq, Structural)]
pub struct StreamHandle {
    pub remote_pid: u128,
    pub sid: Sid,
    pub prio: Prio,
    pub promises: Promises,
    pub guaranteed_bandwidth: Bandwidth,
}

/// Why a stream-open request was not served.
#[derive(Debug, Clone, Copy, PartialEq, Eq, Structural)]
pub enum StreamOpenError {
    /// Shutdown has begun, or the send manager has already exited.
    ShutdownBegan,
}

/// Why a stream send was not accepted.
#[derive(Debug, Clone, Copy, PartialEq, Eq, Structural)]
pub enum StreamSendError {
    /// The stream is unknown or its send direction has been closed.
    StreamClosed,
    /// The bounded send queue is full; the caller must retry (blocking).
    QueueFull,
}

/// Result of reading the next inbound message of a stream.
#[derive(Debug)]
pub enum StreamRecv {
    /// The next message, in arrival order.
    Data(Vec<u8>),
    /// No message queued right now, but the stream is still open.
    Empty,
    /// The stream was closed and its mailbox is exhausted.
    Closed,
}

/// The kind of a per-stream wire event, used by the ghost wire history to
/// state the open/message/close ordering of each stream.
pub enum WireKind {
    Open,
    Msg,
    Close,
}

} // verus!
