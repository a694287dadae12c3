pub mod play;
