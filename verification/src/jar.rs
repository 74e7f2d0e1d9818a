//! Where server jars are found, by flavour: the versions each source
//! offers, and the address of the jar of a version.
pub mod fabric;
pub mod paper;
pub mod vanilla;
