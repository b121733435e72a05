//! A looping text-terminal animation of a DNA double helix.
//!
//! The library holds the verified core: the frame templates, the choice of a
//! nucleotide pair from a random byte, the substitution of that pair into a
//! template's placeholder slots, the cyclic frame index, and the cooperative
//! shutdown state. A thin binary drives the loop, doing the printing, the
//! sleeping and the signal handling that the library cannot.

pub mod engine;
pub mod frame;
pub mod pair;
