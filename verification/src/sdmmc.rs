//! The record store behind the device: names, requests and outcomes.

pub mod controller;
pub mod detect;
pub mod file;
pub mod request;
pub mod time;
