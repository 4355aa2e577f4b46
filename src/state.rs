pub mod config;
pub mod donation;
pub mod streamer;
