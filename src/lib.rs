//! Powers-of-tau parameter streams over the BLS12-381 groups.
//!
//! A stream starts from a group's base point and a secret scalar tau, and
//! yields base * tau, base * tau^2, ... in order, grouped into fixed-length
//! chunks. Only complete chunks are handed out.
pub mod curve;
pub mod naming;
pub mod sampler;
pub mod stream;
