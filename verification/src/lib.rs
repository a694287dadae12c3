//! The Minecraft Java Edition wire protocol, from the 1.6 pre-netty
//! handshake up to 1.21: protocol version negotiation, the packet id
//! registry, the wire codec and each version's packet layouts, chunk and
//! block id conversions, and the data behind the 1.13 flattening tables.
//!
//! Decoding and encoding are stated over byte sequences: every packet type
//! says which bytes it writes and what reading a byte sequence yields, and
//! for the packets whose decoder reads back what their encoder writes, that
//! round trip is proved.
pub mod buffer;
pub mod codec;
pub mod dimension_codec;
pub mod error;
pub mod flattening;
pub mod negotiation;
pub mod registry;
pub mod tables;
pub mod text;
pub mod types;
pub mod versions;
pub mod wire;

pub use codec::{Decode, Encode, PacketId};
pub use error::ProtocolError;
pub use negotiation::{ProtocolVersion, VersionRegistry};
pub use registry::{build_default_registry, Direction, PacketMeta, PacketRegistry, ProtocolState};
pub use types::{Position, VarInt, VarLong};
