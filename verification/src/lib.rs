//! Client library for a remote-controlled boat: the GPIO protocol values,
//! the HTTP exchanges with the boat's server, and the state kept by the
//! client's user interface.

pub mod remote;
pub mod ui;
