//! The extended binary Golay code (24, 12, 8).

pub mod algebra;
pub mod bits;
pub mod codec;
pub mod decoding;
pub mod distance;
pub mod matrix;

pub use crate::bits::weight;
pub use crate::codec::{decode, ecc, ecc_flagged, encode};
