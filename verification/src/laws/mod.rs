//! What holds of the broker as a whole.

pub mod buffers;
pub mod codec;
pub mod connect;
pub mod decoding;
pub mod handshake;
pub mod lifecycle;
pub mod packets;
pub mod served;
pub mod session;
pub mod settings;
pub mod starting;
pub mod timing;
pub mod total;
pub mod whole;
pub mod wire;
pub mod words;
pub mod workers;
