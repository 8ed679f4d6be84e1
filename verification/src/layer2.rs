//! Data Link layer (Layer 2) protocols.

pub mod ethernet;
