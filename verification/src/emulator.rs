//! The host's side of the bus, played by a stand-in for the host.

pub mod input;
pub mod keyboard;
pub mod machine;
pub mod output;
