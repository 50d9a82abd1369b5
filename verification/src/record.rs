//! Inbound telemetry: the NOWRECORD payload and the response union.
//!
//! The NOWRECORD frame is the 32-byte header, 8 undeciphered bytes, and then
//! numeric channels at fixed offsets, all little-endian and unaligned. The
//! console transmits each floating-point channel as a 32-bit IEEE 754 value;
//! the record carries those channels as their raw bit patterns, opaque 32-bit
//! quantities that the presentation shell converts for display. Decoding is
//! pure field extraction at the documented offsets: no rounding and no unit
//! conversion.
use crate::error::Error;
use crate::header::{
    spec_decode_argument, spec_decoded_header, spec_header_text_ok, ArgumentType, RecordHeader,
    HEADER_SIZE,
};
use crate::wire::{read_i16_le, read_u32_le, spec_i16_le, spec_u32_le};
use vstd::prelude::*;

verus! {

/// The least number of bytes a NOWRECORD frame can hold: the header (32),
/// the undeciphered block (8), wind direction (2), the humidity pair (2),
/// fourteen 32-bit channels (56), the two index bytes (2).
pub const NOW_RECORD_SIZE: usize = 102;

/// Wind telemetry: direction in degrees from North, and three speed
/// channels as raw 32-bit float bits.
#[derive(Clone, Copy, Debug, PartialEq, Eq, Structural)]
pub struct WindRecord {
    pub direction: i16,
    pub wind_chill: u32,
    pub wind_speed: u32,
    pub wind_gust: u32,
}

/// A temperature channel (raw 32-bit float bits) with its relative humidity.
#[derive(Clone, Copy, Debug, PartialEq, Eq, Structural)]
pub struct TemperatureAndHumidity {
    pub temperature: u32,
    pub humidity_percent: u8,
}

/// Rain accumulation channels as raw 32-bit float bits. The monthly total is
/// present on the wire but intentionally dropped from the domain record.
#[derive(Clone, Copy, Debug, PartialEq, Eq, Structural)]
pub struct RainRecord {
    pub rain_rate: u32,
    pub daily_rain: u32,
    pub weekly_rain: u32,
    pub yearly_rain: u32,
}

/// One decoded weather telemetry record.
#[derive(Clone, Debug, PartialEq)]
pub struct WeatherRecord {
    pub record_header: RecordHeader,
    pub wind: WindRecord,
    pub inside: TemperatureAndHumidity,
    pub outside: TemperatureAndHumidity,
    pub pressure: u32,
    pub barometer: u32,
    pub dewpoint: u32,
    pub rain: RainRecord,
    pub radiation: u32,
    pub uv_index: u8,
    pub heat_index: u8,
}

/// Each numeric field of a decoded record, pinned to the bytes at its
/// documented offset in the frame.
pub open spec fn spec_now_record_fields(b: Seq<u8>, r: WeatherRecord) -> bool {
    &&& r.wind.direction as int == spec_i16_le(b.subrange(0x28, 0x2A))
    &&& r.inside.humidity_percent == b[0x2A]
    &&& r.outside.humidity_percent == b[0x2B]
    &&& r.inside.temperature == spec_u32_le(b.subrange(0x2C, 0x30))
    &&& r.pressure == spec_u32_le(b.subrange(0x30, 0x34))
    &&& r.barometer == spec_u32_le(b.subrange(0x34, 0x38))
    &&& r.outside.temperature == spec_u32_le(b.subrange(0x38, 0x3C))
    &&& r.dewpoint == spec_u32_le(b.subrange(0x3C, 0x40))
    &&& r.wind.wind_chill == spec_u32_le(b.subrange(0x40, 0x44))
    &&& r.wind.wind_speed == spec_u32_le(b.subrange(0x44, 0x48))
    &&& r.wind.wind_gust == spec_u32_le(b.subrange(0x48, 0x4C))
    &&& r.rain.rain_rate == spec_u32_le(b.subrange(0x4C, 0x50))
    &&& r.rain.daily_rain == spec_u32_le(b.subrange(0x50, 0x54))
    &&& r.rain.weekly_rain == spec_u32_le(b.subrange(0x54, 0x58))
    &&& r.rain.yearly_rain == spec_u32_le(b.subrange(0x5C, 0x60))
    &&& r.radiation == spec_u32_le(b.subrange(0x60, 0x64))
    &&& r.uv_index == b[0x64]
    &&& r.heat_index == b[0x65]
}

impl WeatherRecord {
    /// Decodes a NOWRECORD frame: the typed header off the front, then every
    /// numeric channel at its fixed offset. Fails (never reads out of
    /// bounds) on a buffer shorter than the frame, and on header tokens that
    /// are not text.
    pub fn parse(bytes: &[u8]) -> (r: Result<WeatherRecord, Error>)
        ensures
            match r {
                Ok(rec) => {
                    &&& bytes@.len() >= NOW_RECORD_SIZE
                    &&& spec_header_text_ok(bytes@.subrange(0, 32))
                    &&& spec_decoded_header(bytes@.subrange(0, 32), rec.record_header)
                    &&& spec_now_record_fields(bytes@, rec)
                },
                Err(e) => {
                    if bytes@.len() < NOW_RECORD_SIZE {
                        e == Error::BufferTooShort
                    } else {
                        e == Error::InvalidText && !spec_header_text_ok(bytes@.subrange(0, 32))
                    }
                },
            },
    {
        if bytes.len() < NOW_RECORD_SIZE {
            return Err(Error::BufferTooShort);
        }
        let record_header = match RecordHeader::from_bytes(bytes) {
            Ok(h) => h,
            Err(e) => {
                return Err(e);
            },
        };
        let record = WeatherRecord {
            record_header,
            wind: WindRecord {
                direction: read_i16_le(bytes, 0x28),
                wind_chill: read_u32_le(bytes, 0x40),
                wind_speed: read_u32_le(bytes, 0x44),
                wind_gust: read_u32_le(bytes, 0x48),
            },
            inside: TemperatureAndHumidity {
                temperature: read_u32_le(bytes, 0x2C),
                humidity_percent: bytes[0x2A],
            },
            outside: TemperatureAndHumidity {
                temperature: read_u32_le(bytes, 0x38),
                humidity_percent: bytes[0x2B],
            },
            pressure: read_u32_le(bytes, 0x30),
            barometer: read_u32_le(bytes, 0x34),
            dewpoint: read_u32_le(bytes, 0x3C),
            rain: RainRecord {
                rain_rate: read_u32_le(bytes, 0x4C),
                daily_rain: read_u32_le(bytes, 0x50),
                weekly_rain: read_u32_le(bytes, 0x54),
                yearly_rain: read_u32_le(bytes, 0x5C),
            },
            radiation: read_u32_le(bytes, 0x60),
            uv_index: bytes[0x64],
            heat_index: bytes[0x65],
        };
        Ok(record)
    }
}

/// Whether a buffer decodes as a response: it must hold a full NOWRECORD
/// frame whose header tokens are text and whose argument kind is `NowRecord`,
/// the one payload kind with a decoder.
pub open spec fn spec_response_ok(b: Seq<u8>) -> bool {
    &&& b.len() >= NOW_RECORD_SIZE
    &&& spec_header_text_ok(b.subrange(0, 32))
    &&& spec_decode_argument(b.subrange(0, 32)) == ArgumentType::NowRecord
}

/// The error a buffer that is no response decodes to: too short for a
/// header, bad header text, an argument kind with no decoder, or too short
/// for the NOWRECORD payload its header announces — in that order.
pub open spec fn spec_response_error(b: Seq<u8>) -> Error {
    if b.len() < HEADER_SIZE {
        Error::BufferTooShort
    } else if !spec_header_text_ok(b.subrange(0, 32)) {
        Error::InvalidText
    } else if spec_decode_argument(b.subrange(0, 32)) != ArgumentType::NowRecord {
        Error::UnimplementedResponse
    } else {
        Error::BufferTooShort
    }
}

/// The payload kinds a response frame can decode to. Telemetry is the only
/// kind implemented; a recognized but unimplemented argument kind fails the
/// decode loudly instead of returning an empty record.
#[derive(Clone, Debug, PartialEq)]
pub enum Response {
    WeatherRecord(WeatherRecord),
}

impl Response {
    /// Decodes a response frame by its header's argument kind. `NowRecord`
    /// wraps the telemetry decode; every other kind is unimplemented and is
    /// reported as such.
    pub fn from_bytes(bytes: &[u8]) -> (r: Result<Response, Error>)
        ensures
            r is Ok <==> spec_response_ok(bytes@),
            match r {
                Ok(Response::WeatherRecord(rec)) => {
                    &&& spec_decoded_header(bytes@.subrange(0, 32), rec.record_header)
                    &&& spec_now_record_fields(bytes@, rec)
                },
                Err(e) => e == spec_response_error(bytes@),
            },
    {
        let header = match RecordHeader::from_bytes(bytes) {
            Ok(h) => h,
            Err(e) => {
                return Err(e);
            },
        };
        match header.argument {
            ArgumentType::NowRecord => {
                match WeatherRecord::parse(bytes) {
                    Ok(rec) => Ok(Response::WeatherRecord(rec)),
                    Err(e) => Err(e),
                }
            },
            _ => Err(Error::UnimplementedResponse),
        }
    }
}

/// Fixed-offset decoding is local: a numeric field of the record depends
/// only on the bytes of its own documented offset range, so corrupting one
/// field of a frame cannot change how any other field decodes.
pub proof fn lemma_now_record_field_locality(
    b1: Seq<u8>,
    b2: Seq<u8>,
    r1: WeatherRecord,
    r2: WeatherRecord,
)
    requires
        b1.len() >= NOW_RECORD_SIZE,
        b2.len() >= NOW_RECORD_SIZE,
        spec_now_record_fields(b1, r1),
        spec_now_record_fields(b2, r2),
    ensures
        b1.subrange(0x28, 0x2A) == b2.subrange(0x28, 0x2A) ==> r1.wind.direction
            == r2.wind.direction,
        b1[0x2A] == b2[0x2A] ==> r1.inside.humidity_percent == r2.inside.humidity_percent,
        b1[0x2B] == b2[0x2B] ==> r1.outside.humidity_percent == r2.outside.humidity_percent,
        b1.subrange(0x2C, 0x30) == b2.subrange(0x2C, 0x30) ==> r1.inside.temperature
            == r2.inside.temperature,
        b1.subrange(0x30, 0x34) == b2.subrange(0x30, 0x34) ==> r1.pressure == r2.pressure,
        b1.subrange(0x34, 0x38) == b2.subrange(0x34, 0x38) ==> r1.barometer == r2.barometer,
        b1.subrange(0x38, 0x3C) == b2.subrange(0x38, 0x3C) ==> r1.outside.temperature
            == r2.outside.temperature,
        b1.subrange(0x3C, 0x40) == b2.subrange(0x3C, 0x40) ==> r1.dewpoint == r2.dewpoint,
        b1.subrange(0x40, 0x44) == b2.subrange(0x40, 0x44) ==> r1.wind.wind_chill
            == r2.wind.wind_chill,
        b1.subrange(0x44, 0x48) == b2.subrange(0x44, 0x48) ==> r1.wind.wind_speed
            == r2.wind.wind_speed,
        b1.subrange(0x48, 0x4C) == b2.subrange(0x48, 0x4C) ==> r1.wind.wind_gust
            == r2.wind.wind_gust,
        b1.subrange(0x4C, 0x50) == b2.subrange(0x4C, 0x50) ==> r1.rain.rain_rate
            == r2.rain.rain_rate,
        b1.subrange(0x50, 0x54) == b2.subrange(0x50, 0x54) ==> r1.rain.daily_rain
            == r2.rain.daily_rain,
        b1.subrange(0x54, 0x58) == b2.subrange(0x54, 0x58) ==> r1.rain.weekly_rain
            == r2.rain.weekly_rain,
        b1.subrange(0x5C, 0x60) == b2.subrange(0x5C, 0x60) ==> r1.rain.yearly_rain
            == r2.rain.yearly_rain,
        b1.subrange(0x60, 0x64) == b2.subrange(0x60, 0x64) ==> r1.radiation == r2.radiation,
        b1[0x64] == b2[0x64] ==> r1.uv_index == r2.uv_index,
        b1[0x65] == b2[0x65] ==> r1.heat_index == r2.heat_index,
{
}

} // verus!
