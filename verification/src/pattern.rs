//! Protocols built from typed switches.
pub mod cycle;
