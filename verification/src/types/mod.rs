pub mod chunk;
pub mod position;
pub mod uuid_wire;
pub mod var_int;
pub mod var_long;

pub use position::Position;
pub use var_int::VarInt;
pub use var_long::VarLong;
