//! Bridge between a sixteen-bit parallel handshake bus and a record store.
//!
//! The crate holds the pure logic of the device: the signal codec that maps
//! logical words and control lines onto port registers, the session state
//! machine that turns bus events into replies and storage requests, and the
//! host-side machine that exercises a device without the host it was built for.
//! Register access, storage access and interrupt plumbing live outside.

pub mod adapter;
pub mod bench;
pub mod buffer;
pub mod emulator;
pub mod error;
pub mod indicators;
pub mod led;
pub mod sdmmc;
pub mod session;
pub mod sm2m;
pub mod status;
pub mod wire;
