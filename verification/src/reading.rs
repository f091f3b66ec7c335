//! The data model: one sensor sample and its timestamped form.

use vstd::prelude::*;

verus! {

/// A measured quantity that the device reports as a decimal number.
///
/// The value is held as the bit pattern of its IEEE 754 binary64 encoding, so
/// that it passes through the collector without any rounding. Two scalars
/// are equal when their encodings are.
#[derive(Clone, Copy, Debug, PartialEq, Eq)]
pub struct Scalar {
    pub bits: u64,
}

/// One sample of the sensor device. Built only from one decoded response and
/// never changed afterwards.
#[derive(Clone, Copy, Debug, PartialEq, Eq)]
pub struct Reading {
    pub temperature: Scalar,
    pub humidity: Scalar,
    pub voc: i32,
    pub co2: i32,
    pub ch2o: i32,
    pub o3: Scalar,
    pub pm1: Scalar,
    pub pm25: Scalar,
    pub pm10: Scalar,
    pub noise: Scalar,
}

/// A reading together with the moment it was captured, in milliseconds since
/// the Unix epoch.
#[derive(Clone, Copy, Debug, PartialEq, Eq)]
pub struct HistoryEntry {
    pub timestamp: u128,
    pub reading: Reading,
}

impl HistoryEntry {
    /// Pairs `reading` with the capture time `timestamp`. The reading is
    /// carried over field for field.
    pub fn new(timestamp: u128, reading: Reading) -> (entry: HistoryEntry)
        ensures
            entry.timestamp == timestamp,
            entry.reading == reading,
    {
        HistoryEntry { timestamp, reading }
    }
}

} // verus!
