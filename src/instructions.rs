pub mod common;
pub mod donate;
pub mod donate_with_token;
pub mod initialize;
pub mod pause;
pub mod register_streamer;
pub mod unpause;
