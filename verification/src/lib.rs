//! Data-encoding core of a QR symbol generator.
//!
//! The library classifies raw input bytes into the cheapest encoding mode,
//! packs them into the mode-tagged, length-prefixed bit stream that the QR
//! format prescribes, terminates and pads the stream to the exact data-bit
//! budget of the chosen symbol version and error-correction level, and
//! exposes the structural constants (block layout, codeword counts, format
//! codewords, generator polynomials, penalty weights) that the downstream
//! placement and error-correction stages consume.

pub mod bits;
pub mod bitstring;
pub mod decode;
pub mod ecl;
pub mod encode;
pub mod hardcode;
pub mod module;
pub mod version;
