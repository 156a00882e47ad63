//! The configuration: what it says unless told otherwise, and that every setting is set
//! alone.

use crate::broker::config::BrokerConfig;
use vstd::prelude::*;

verus! {

/// A configuration says, unless told otherwise: a thousand connections for each worker,
/// ten seconds for a handshake, five minutes of silence, five seconds to drain, as many
/// workers as there are processors, and a backlog of 1024.
pub proof fn law_defaults(bind_addr: String, r: BrokerConfig)
    requires
        call_ensures(BrokerConfig::listening_on, (bind_addr,), r),
    ensures
        r.bind_addr == bind_addr,
        r.max_connections_per_worker == 1000,
        r.connection_timeout_secs == 10,
        r.idle_timeout_secs == 300,
        r.drain_timeout_secs == 5,
        r.num_workers is None,
        r.backlog == 1024,
{
}

/// Without an address the broker listens on the port of MQTT, on every interface.
pub proof fn law_default_address(r: BrokerConfig, listening: BrokerConfig)
    requires
        call_ensures(<BrokerConfig as Default>::default, (), r),
        call_ensures(BrokerConfig::listening_on, (r.bind_addr,), listening),
    ensures
        r.bind_addr@ == "0.0.0.0:1883"@,
        alike(r, listening, 6),
{
}

/// A configuration for an address in any form is the one for that address.
pub proof fn law_addresses_are_converted<A: Into<String>>(bind_addr: A, r: BrokerConfig)
    requires
        call_ensures(BrokerConfig::new::<A>, (bind_addr,), r),
    ensures
        call_ensures(A::into, (bind_addr,), r.bind_addr),
        r.max_connections_per_worker == 1000,
        r.connection_timeout_secs == 10,
        r.idle_timeout_secs == 300,
        r.drain_timeout_secs == 5,
        r.num_workers is None,
        r.backlog == 1024,
{
}

/// Whether two configurations differ in nothing but what `except` names: the connection
/// limit, the handshake timeout, the idle timeout, the drain timeout, the number of
/// workers, or the backlog, in that order.
pub open spec fn alike(a: BrokerConfig, b: BrokerConfig, except: int) -> bool {
    &&& a.bind_addr == b.bind_addr
    &&& except != 0 ==> a.max_connections_per_worker == b.max_connections_per_worker
    &&& except != 1 ==> a.connection_timeout_secs == b.connection_timeout_secs
    &&& except != 2 ==> a.idle_timeout_secs == b.idle_timeout_secs
    &&& except != 3 ==> a.drain_timeout_secs == b.drain_timeout_secs
    &&& except != 4 ==> a.num_workers == b.num_workers
    &&& except != 5 ==> a.backlog == b.backlog
}

/// Every setting is set to what it is told, and leaves the others as they were.
pub proof fn law_settings_are_set_alone(
    config: BrokerConfig,
    max: usize,
    secs: u64,
    workers: usize,
    backlog: i32,
    limited: BrokerConfig,
    hurried: BrokerConfig,
    patient: BrokerConfig,
    drained: BrokerConfig,
    staffed: BrokerConfig,
    queued: BrokerConfig,
)
    requires
        call_ensures(BrokerConfig::max_connections_per_worker, (config, max), limited),
        call_ensures(BrokerConfig::connection_timeout_secs, (config, secs), hurried),
        call_ensures(BrokerConfig::idle_timeout_secs, (config, secs), patient),
        call_ensures(BrokerConfig::drain_timeout_secs, (config, secs), drained),
        call_ensures(BrokerConfig::num_workers, (config, workers), staffed),
        call_ensures(BrokerConfig::backlog, (config, backlog), queued),
    ensures
        limited.max_connections_per_worker == max && alike(config, limited, 0),
        hurried.connection_timeout_secs == secs && alike(config, hurried, 1),
        patient.idle_timeout_secs == secs && alike(config, patient, 2),
        drained.drain_timeout_secs == secs && alike(config, drained, 3),
        staffed.num_workers == Some(workers) && alike(config, staffed, 4),
        queued.backlog == backlog && alike(config, queued, 5),
{
}

/// A copy of a configuration says what the original says.
pub proof fn law_copies_say_the_same(config: BrokerConfig, copy: BrokerConfig)
    requires
        call_ensures(BrokerConfig::clone, (&config,), copy),
    ensures
        copy.bind_addr@ == config.bind_addr@,
        alike(config, copy, 6),
{
}

} // verus!
