//! Records and their classification into typed measurements.
//!
//! A validated frame yields a [`Record`]: the tag byte and a 16-bit value
//! taken from bytes 1 and 2, high byte first. [`parse_record`] maps the
//! tag onto a closed set of three measurement kinds. The numeric fields of
//! [`Metrics`] carry the raw fixed-point readings; scaling them to display
//! units (sixteenths of a Kelvin to degrees Celsius, hundredths of a
//! percent to percent) needs floating point and is left to the consumer,
//! which keeps every function here a pure integer transform.

use vstd::prelude::*;

verus! {

/// The decoded pair extracted from a validated frame: a tag byte
/// selecting the measurement kind, and a 16-bit payload.
#[derive(Clone, Copy, Debug, PartialEq, Eq, Structural)]
pub struct Record {
    pub key: u8,
    pub value: u16,
}

impl Record {
    /// Extracts the record from a validated frame: the tag from byte 0,
    /// the value from bytes 1 and 2, high byte first.
    pub fn from_frame(frame: &[u8; 8]) -> (r: Record)
        ensures
            r.key == frame@[0],
            r.value == frame@[1] * 256 + frame@[2],
    {
        let hi = frame[1];
        let lo = frame[2];
        let value: u16 = ((hi as u16) << 8) | (lo as u16);
        proof {
            assert(value == hi * 256 + lo) by (bit_vector)
                requires
                    value == ((hi as u16) << 8) | (lo as u16),
            ;
        }
        Record { key: frame[0], value }
    }
}

/// The closed set of measurements the sensor reports. No fourth variant is
/// ever produced. `value` holds the raw reading (sixteenths of a Kelvin
/// for `Temp`, hundredths of a percent for `Hum`, plain PPM for `CO2`);
/// `unit` labels the display unit the consumer scales to.
#[derive(Clone, Debug, PartialEq, Eq)]
pub enum Metrics {
    Temp { value: u16, unit: String },
    CO2 { value: i32, unit: String },
    Hum { value: u16, unit: String },
}

/// Classifies a record by its tag byte: 0x42 is temperature, 0x44 is
/// humidity, 0x50 is CO2 concentration. Every other tag produces no
/// measurement — that is not an error, the caller silently skips it.
pub fn parse_record(record: Record) -> (r: Option<Metrics>)
    ensures
        record.key == 0x42 ==> (r matches Some(Metrics::Temp { value, unit }) && value
            == record.value && unit@ == "\u{b0}C"@),
        record.key == 0x44 ==> (r matches Some(Metrics::Hum { value, unit }) && value
            == record.value && unit@ == "%"@),
        record.key == 0x50 ==> (r matches Some(Metrics::CO2 { value, unit }) && value
            == record.value as i32 && unit@ == "PPM"@),
        record.key != 0x42 && record.key != 0x44 && record.key != 0x50 ==> r is None,
{
    match record.key {
        0x42 => Some(
            Metrics::Temp { value: record.value, unit: String::from_str("\u{b0}C") },
        ),
        0x44 => Some(Metrics::Hum { value: record.value, unit: String::from_str("%") }),
        0x50 => Some(
            Metrics::CO2 { value: record.value as i32, unit: String::from_str("PPM") },
        ),
        _ => None,
    }
}

/// The topic suffix a publisher appends to its base topic: the lower-cased
/// name of the measurement kind.
pub fn get_topic_suffix(metric: &Metrics) -> (s: String)
    ensures
        (metric matches Metrics::Temp { .. }) ==> s@ == "temp"@,
        (metric matches Metrics::CO2 { .. }) ==> s@ == "co2"@,
        (metric matches Metrics::Hum { .. }) ==> s@ == "hum"@,
{
    match metric {
        Metrics::Temp { .. } => String::from_str("temp"),
        Metrics::CO2 { .. } => String::from_str("co2"),
        Metrics::Hum { .. } => String::from_str("hum"),
    }
}

} // verus!
