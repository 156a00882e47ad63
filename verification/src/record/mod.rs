//! The clock and the ends of channels, each with a record of what went through it.
//! A record is written by the calls that it records and by nothing else, which is
//! why these types stand apart from all that is stated over them.

pub mod clock;
pub mod events;
pub mod workers;
