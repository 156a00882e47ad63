//! The two protocol versions.

use vstd::prelude::*;

verus! {

/// The protocol version a connection speaks.
#[derive(Debug, Clone, Copy, PartialEq, Eq, Structural)]
pub enum ProtocolVersion {
    /// MQTT 3.1 or 3.1.1.
    MQTT3,
    /// MQTT 5.0.
    MQTT5,
}

} // verus!
