//! The broker: what it does with a connection, a packet, a worker.

pub mod config;
pub mod event;
pub mod handler;
pub mod handshake;
pub mod packet;
pub mod startup;
pub mod worker;
