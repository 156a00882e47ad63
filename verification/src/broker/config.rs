//! How a broker is configured.

use vstd::prelude::*;

verus! {

/// How long active connections may drain after a shutdown, unless configured
/// otherwise.
pub const DEFAULT_DRAIN_TIMEOUT_SECS: u64 = 5;

/// A broker's configuration.
pub struct BrokerConfig {
    /// The address to listen on, such as "0.0.0.0:1883".
    pub bind_addr: String,
    /// How many connections a worker serves at a time.
    pub max_connections_per_worker: usize,
    /// How long a handshake may take, in seconds.
    pub connection_timeout_secs: u64,
    /// How long a session may stay silent, in seconds.
    pub idle_timeout_secs: u64,
    /// How long active connections may drain after a shutdown, in seconds.
    pub drain_timeout_secs: u64,
    /// How many workers there are. One for each processor unless it is set.
    pub num_workers: Option<usize>,
    /// The TCP listen backlog.
    pub backlog: i32,
}

impl BrokerConfig {
    /// The default configuration for the address that `bind_addr` converts to.
    pub fn new<A: Into<String>>(bind_addr: A) -> (r: BrokerConfig)
        ensures
            call_ensures(A::into, (bind_addr,), r.bind_addr),
            r.max_connections_per_worker == 1000,
            r.connection_timeout_secs == 10,
            r.idle_timeout_secs == 300,
            r.drain_timeout_secs == DEFAULT_DRAIN_TIMEOUT_SECS,
            r.num_workers is None,
            r.backlog == 1024,
    {
        BrokerConfig::listening_on(bind_addr.into())
    }

    /// The default configuration for the given address.
    pub fn listening_on(bind_addr: String) -> (r: BrokerConfig)
        ensures
            r == (BrokerConfig {
                bind_addr,
                max_connections_per_worker: 1000,
                connection_timeout_secs: 10,
                idle_timeout_secs: 300,
                drain_timeout_secs: DEFAULT_DRAIN_TIMEOUT_SECS,
                num_workers: None,
                backlog: 1024,
            }),
    {
        BrokerConfig {
            bind_addr,
            max_connections_per_worker: 1000,
            connection_timeout_secs: 10,
            idle_timeout_secs: 300,
            drain_timeout_secs: DEFAULT_DRAIN_TIMEOUT_SECS,
            num_workers: None,
            backlog: 1024,
        }
    }

    /// The same configuration with another connection limit.
    pub fn max_connections_per_worker(self, max: usize) -> (r: BrokerConfig)
        ensures
            r == (BrokerConfig { max_connections_per_worker: max, ..self }),
    {
        BrokerConfig { max_connections_per_worker: max, ..self }
    }

    /// The same configuration with another handshake timeout.
    pub fn connection_timeout_secs(self, secs: u64) -> (r: BrokerConfig)
        ensures
            r == (BrokerConfig { connection_timeout_secs: secs, ..self }),
    {
        BrokerConfig { connection_timeout_secs: secs, ..self }
    }

    /// The same configuration with another idle timeout.
    pub fn idle_timeout_secs(self, secs: u64) -> (r: BrokerConfig)
        ensures
            r == (BrokerConfig { idle_timeout_secs: secs, ..self }),
    {
        BrokerConfig { idle_timeout_secs: secs, ..self }
    }

    /// The same configuration with another drain timeout.
    pub fn drain_timeout_secs(self, secs: u64) -> (r: BrokerConfig)
        ensures
            r == (BrokerConfig { drain_timeout_secs: secs, ..self }),
    {
        BrokerConfig { drain_timeout_secs: secs, ..self }
    }

    /// The same configuration with a set number of workers.
    pub fn num_workers(self, workers: usize) -> (r: BrokerConfig)
        ensures
            r == (BrokerConfig { num_workers: Some(workers), ..self }),
    {
        BrokerConfig { num_workers: Some(workers), ..self }
    }

    /// The same configuration with another listen backlog.
    pub fn backlog(self, backlog: i32) -> (r: BrokerConfig)
        ensures
            r == (BrokerConfig { backlog, ..self }),
    {
        BrokerConfig { backlog, ..self }
    }
}

impl Clone for BrokerConfig {
    fn clone(&self) -> (r: BrokerConfig)
        ensures
            r == *self,
    {
        BrokerConfig {
            bind_addr: self.bind_addr.clone(),
            max_connections_per_worker: self.max_connections_per_worker,
            connection_timeout_secs: self.connection_timeout_secs,
            idle_timeout_secs: self.idle_timeout_secs,
            drain_timeout_secs: self.drain_timeout_secs,
            num_workers: self.num_workers,
            backlog: self.backlog,
        }
    }
}

impl Default for BrokerConfig {
    fn default() -> (r: BrokerConfig)
        ensures
            r.bind_addr@ == "0.0.0.0:1883"@,
            r.max_connections_per_worker == 1000,
            r.connection_timeout_secs == 10,
            r.idle_timeout_secs == 300,
            r.drain_timeout_secs == DEFAULT_DRAIN_TIMEOUT_SECS,
            r.num_workers is None,
            r.backlog == 1024,
    {
        BrokerConfig::listening_on("0.0.0.0:1883".to_owned())
    }
}

} // verus!
