//! What a metadata file says of a media file.

use vstd::prelude::*;
use vstd::string::*;

use crate::timestamp::epoch_seconds;
use crate::timestamp::parse_timestamp;

verus! {

/// A double-precision number, held by its IEEE 754 bit pattern.
#[derive(Clone, Copy, Debug)]
pub struct Coordinate {
    pub bits: u64,
}

impl Coordinate {
    /// Whether the number is zero. Zero has two bit patterns, one for each
    /// sign; every other pattern, those of the non-numbers included, is a
    /// number that compares unequal to zero.
    pub open spec fn zero(self) -> bool {
        self.bits == 0 || self.bits == 0x8000_0000_0000_0000
    }

    /// The number with the given bit pattern.
    pub fn from_bits(bits: u64) -> (number: Coordinate)
        ensures
            number.bits == bits,
    {
        Coordinate { bits }
    }

    /// The bit pattern of the number.
    pub fn to_bits(&self) -> (bits: u64)
        ensures
            bits == self.bits,
    {
        self.bits
    }

    /// Whether the number is zero.
    pub fn is_zero(&self) -> (zero: bool)
        ensures
            zero == self.zero(),
    {
        self.bits == 0 || self.bits == 0x8000_0000_0000_0000
    }
}

/// Where a picture was taken.
#[derive(Clone, Copy, Debug)]
pub struct GeoInfo {
    pub latitude: Coordinate,
    pub longitude: Coordinate,
    pub altitude: Coordinate,
}

impl GeoInfo {
    /// Whether a place is recorded. Latitude and longitude both zero stand
    /// for "no place", whatever the altitude.
    pub open spec fn located(self) -> bool {
        !self.latitude.zero() || !self.longitude.zero()
    }

    /// Whether a place is recorded.
    pub fn has_location(&self) -> (located: bool)
        ensures
            located == self.located(),
    {
        !self.latitude.is_zero() || !self.longitude.is_zero()
    }
}

/// When a picture was taken.
#[derive(Clone, Debug)]
pub struct TimeInfo {
    /// Epoch seconds, as a decimal number.
    pub timestamp: String,
    /// The same moment in words, for the reader only.
    pub formatted: String,
}

/// The content of a metadata file.
#[derive(Clone, Debug)]
pub struct GoogleMetadata {
    pub title: String,
    pub description: String,
    pub photo_taken_time: TimeInfo,
    pub geo_data: GeoInfo,
}

/// The content of a metadata file as mathematical text.
pub struct MetadataView {
    pub title: Seq<char>,
    pub description: Seq<char>,
    pub timestamp: Seq<char>,
    pub formatted: Seq<char>,
    pub geo_data: GeoInfo,
}

impl View for GoogleMetadata {
    type V = MetadataView;

    open spec fn view(&self) -> MetadataView {
        MetadataView {
            title: self.title@,
            description: self.description@,
            timestamp: self.photo_taken_time.timestamp@,
            formatted: self.photo_taken_time.formatted@,
            geo_data: self.geo_data,
        }
    }
}

impl MetadataView {
    /// The capture time in epoch seconds, where the metadata file gives it
    /// as a decimal number that fits in 64 bits.
    pub open spec fn captured_at(self) -> Option<i64> {
        epoch_seconds(self.timestamp)
    }
}

impl GoogleMetadata {
    /// The capture time in epoch seconds, or nothing where the metadata file
    /// does not give it as a decimal number that fits in 64 bits.
    pub fn captured_at(&self) -> (seconds: Option<i64>)
        ensures
            seconds == self@.captured_at(),
    {
        parse_timestamp(self.photo_taken_time.timestamp.as_str())
    }
}

} // verus!
