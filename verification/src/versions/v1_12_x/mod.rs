pub mod play;
pub mod status;
