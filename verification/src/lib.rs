//! Decision logic of a transparent TLS relay that probes CBC padding.
//!
//! The relay sits between a TLS client and a TLS server. It frames the byte
//! stream by the five-byte record header, can overwrite the final ciphertext
//! byte of an application-data record on its way to the server, and measures
//! how long the server takes to answer such a record with an alert.
//!
//! Everything here is a function from plain values to plain values: the
//! sockets, the threads and the clock belong to the program around it.

pub mod backward;
pub mod forward;
pub mod policy;
pub mod stamp;
pub mod tls;
