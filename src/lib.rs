//! Membership and gossip core of a small peer-to-peer mesh: the peer
//! registry, the join handshake, and the periodic gossip broadcaster.
pub mod gossip;
pub mod node;
pub mod protocol;
pub mod registry;

pub use gossip::{Broadcast, Broadcaster};
pub use node::{Args, Node, Reply};
pub use protocol::{BootstrapFailure, HandshakeResponse, MalformedRequest, Outbound, Request};
pub use registry::PeerRegistry;
