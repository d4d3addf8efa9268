//! Peer-to-peer session layer: classification of peer messages, the session
//! slot with its take-and-return protocol, the message pump's decisions, the
//! connection supervisor's state machine, and the buffer handed to the host.

pub mod codec;
pub mod exts;
pub mod peer_msg;
pub mod pump;
pub mod safe_bytes;
pub mod session;
pub mod supervisor;
