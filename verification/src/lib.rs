//! Core logic of the Lodestone game-server manager: users and permissions,
//! events and their filters, console-line parsing, and Minecraft server
//! property handling.
pub mod auth;
pub mod binaries;
pub mod error;
pub mod event_processor;
pub mod events;
pub mod generic;
pub mod handlers;
pub mod instance;
pub mod jar;
pub mod global_settings;
pub mod manifest;
pub mod matching;
pub mod minecraft;
pub mod player;
pub mod text;
pub mod traits;
pub mod types;
