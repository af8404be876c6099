//! Synthesis of identifier names from raw manifest keys, and assembly of the
//! synthesized names into a closed enumeration with reverse lookup and a
//! designated default variant.

pub mod assemble;
pub mod chars;
pub mod laws;
pub mod manifest;
pub mod synth;
