//! Hardware video decoding core of a cloud-gaming stream client.
//!
//! The crate holds the decisions of the decode pipeline as verified code:
//! picture-order-count derivation, the decoded picture buffer, the surface
//! pool, the accelerator's picture parameters and bitstream framing, the
//! choice of decoder backends and pipelines, and the coalescing of raw mouse
//! input. Devices, threads and channels live with the caller.

pub mod input;
pub mod media;
pub mod text;
