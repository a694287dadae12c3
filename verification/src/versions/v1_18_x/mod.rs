//! 1.17 and 1.18 share the packet shapes of the 1.19 family; their ids
//! differ per version through `PacketId::packet_id(ver)` and the registry
//! table.
pub use crate::versions::v1_19_x::{handshake, play, status};
