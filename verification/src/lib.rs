//! Per-peer multiplexed stream manager.
//!
//! One [`participant::Participant`] serves one remote peer. It multiplexes
//! many logical, ordered, prioritized byte-message streams over one or more
//! attached transport channels. The state machine here is purely sequential:
//! every decision the manager tasks make (opening and closing streams,
//! draining the send queue, demultiplexing received protocol events, and the
//! ordered shutdown handshake) is an exec function on the [`participant::Participant`]
//! state with a contract. An embedding runtime performs the transport sends,
//! receives, flushes and timers that the returned actions describe, and feeds
//! the resulting events back in.

pub mod types;
pub mod participant;
pub mod send;
pub mod recv;
pub mod shutdown;
pub mod laws;
pub mod item;
pub mod text;
pub mod hud;
pub mod comp;
pub mod idle;
pub mod object;
pub mod anim;
pub mod terrain;
