//! 1.9 to 1.11 share the packet shapes of the 1.12 family; their ids differ
//! per version through `PacketId::packet_id(ver)` and the registry table.
pub use crate::versions::v1_12_x::{play, status};
