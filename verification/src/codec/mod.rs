//! Packets, their wire form, and the codecs that move between the two.

pub mod decoder;
pub mod encoder;
pub mod id;
pub mod parse;
pub mod types;
pub mod version;
pub mod wire;
