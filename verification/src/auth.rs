//! Users, their permissions, and authentication.
pub mod file_access;
pub mod jwt;
pub mod permission;
pub mod user;
pub mod user_id;
pub mod users_manager;
