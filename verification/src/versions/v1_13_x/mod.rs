//! 1.13 to 1.16.5 share the packet shapes of the 1.16 family; their ids
//! differ per version through `PacketId::packet_id(ver)` and the registry
//! table.
pub use crate::versions::v1_16_x::{login, play};
