//! Minecraft server instances.
pub mod configurable;
pub mod console;
pub mod cmd_args;
pub mod player;
pub mod players_manager;
pub mod versions;
pub mod setup;
pub mod fabric;
pub mod macros;
pub mod tasks;
