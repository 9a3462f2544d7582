//! A small command-dispatch library: devices that expose an
//! activate/deactivate capability, and a registry that maps string
//! identifiers to devices and forwards named commands to them.

pub mod devices;
pub mod remote;
