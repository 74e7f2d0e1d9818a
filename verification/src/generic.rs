//! Generic (scripted) instances.
pub mod player;
pub mod procedure_call;
pub mod bootstrap;
