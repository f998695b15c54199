//! Decision logic of a bot that bridges a Minecraft server and Discord.
pub mod text;
pub mod discord;
pub mod events;
pub mod pattern;
pub mod state;
pub mod types;
