//! Physical-layer abstraction of a small network stack: devices that yield
//! single-use frame tokens, checksum-offload capability descriptors, and a
//! bit-exact packet-capture writer.

pub mod physical;
pub mod time;
