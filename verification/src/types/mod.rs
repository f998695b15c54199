pub mod config;
pub mod player;
pub mod response;
