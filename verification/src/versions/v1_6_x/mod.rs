pub mod login;
pub mod play;
pub mod status;
pub mod ucs2;
