pub mod handshake;
pub mod play;
pub mod status;
