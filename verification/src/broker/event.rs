//! What the broker hands on of the payloads that it receives.

use vstd::prelude::*;

verus! {

/// What a client reported.
#[derive(Debug, Clone, Copy, PartialEq, Eq, Structural)]
pub enum Event {
    /// A sensor reading: temperature in hundredths of a degree Celsius, pressure
    /// in hectopascals.
    SensorV1 { temperature: i16, pressure: u16 },
}

/// Two bytes, most significant first, as an unsigned number.
pub open spec fn unsigned(high: u8, low: u8) -> int {
    high * 256 + low
}

/// Two bytes, most significant first, as a number in two's complement.
pub open spec fn signed(high: u8, low: u8) -> int {
    if high < 128 {
        unsigned(high, low)
    } else {
        unsigned(high, low) - 65536
    }
}

/// The reading that a payload holds: its first four bytes, of which the first
/// two are the temperature and the others the pressure.
pub open spec fn reading(data: Seq<u8>) -> Option<Event> {
    if data.len() < 4 {
        None
    } else {
        Some(
            Event::SensorV1 {
                temperature: signed(data[0], data[1]) as i16,
                pressure: unsigned(data[2], data[3]) as u16,
            },
        )
    }
}

/// The sensor reading that a payload holds, or `None` where it is too short for
/// one.
pub fn parse_sensor_data(data: &[u8]) -> (r: Option<Event>)
    ensures
        r == reading(data@),
        r matches Some(Event::SensorV1 { temperature, pressure }) ==> temperature == signed(
            data@[0],
            data@[1],
        ) && pressure == unsigned(data@[2], data@[3]),
{
    if data.len() < 4 {
        return None;
    }
    let word: i32 = data[0] as i32 * 256 + data[1] as i32;
    let temperature: i16 = if word < 32768 {
        word as i16
    } else {
        (word - 65536) as i16
    };
    let pressure: u16 = data[2] as u16 * 256 + data[3] as u16;
    Some(Event::SensorV1 { temperature, pressure })
}

} // verus!
