//! Packet formats, device state and setting logic for the Soundcore A3953 earbuds, with the
//! address and write-retry decisions of the macOS RFCOMM connection and the command line's
//! verbosity levels.
pub mod api;
pub mod connection_backend;
pub mod devices;
pub mod logging;
