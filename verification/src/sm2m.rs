//! The bus: logical line sets, the port mapping, and the frames carried.

pub mod bus;
pub mod helper;
pub mod input;
pub mod io;
pub mod output;
