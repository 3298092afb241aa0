//! Fuse-map synthesizer for GAL (Generic Array Logic) devices.
//!
//! Given an analyzed blueprint of per-pin logic equations plus a chip type,
//! the library emits the exact bit pattern of the fuse array and its
//! associated configuration bits (mode selectors, polarity XOR bits,
//! tristate-control bits, product-term disables, signature).

pub mod blueprint;
pub mod chips;
pub mod errors;
pub mod gal;
pub mod gal_builder;
pub mod laws;
pub mod olmc;
