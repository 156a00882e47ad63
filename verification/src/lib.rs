//! The core of an MQTT 3.1.1 and 5.0 ingest broker: what it answers to a packet,
//! how a session runs from the first byte to the close, and how its workers
//! start, keep count, and stop. Sockets, threads and timers are the caller's.

pub mod broker;
pub mod buffer;
pub mod codec;
pub mod connection;
pub mod error;
pub mod laws;
pub mod pool;
pub mod record;

pub use broker::config::BrokerConfig;
pub use broker::event::Event;
pub use broker::startup::MqttBroker;
pub use connection::ConnectionState;
pub use error::Error;
pub use pool::BufferPool;
