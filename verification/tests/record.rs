//! NOWRECORD decoding: fixed offsets, length guards, response dispatch.
use ws1001::{ArgumentType, CommandType, Error, Response, WeatherRecord};

/// A synthetic NOWRECORD frame with recognizable values in every channel.
fn now_record_buffer() -> Vec<u8> {
    let mut b = Vec::new();
    b.extend_from_slice(b"HP2000\x00\x00"); // device name
    b.extend_from_slice(b"WRITE\x00\x00\x00"); // command
    b.extend_from_slice(b"NOWRECORD\x00\x00\x00\x00\x00\x00\x00"); // argument
    b.extend_from_slice(&[0xAAu8; 8]); // undeciphered block
    b.extend_from_slice(&180i16.to_le_bytes()); // 0x28 wind direction
    b.push(45); // 0x2A inside humidity
    b.push(52); // 0x2B outside humidity
    b.extend_from_slice(&19.25f32.to_le_bytes()); // 0x2C inside temperature
    b.extend_from_slice(&1013.5f32.to_le_bytes()); // 0x30 pressure
    b.extend_from_slice(&998.25f32.to_le_bytes()); // 0x34 barometer
    b.extend_from_slice(&21.5f32.to_le_bytes()); // 0x38 outside temperature
    b.extend_from_slice(&10.75f32.to_le_bytes()); // 0x3C dew point
    b.extend_from_slice(&20.5f32.to_le_bytes()); // 0x40 wind chill
    b.extend_from_slice(&3.5f32.to_le_bytes()); // 0x44 wind speed
    b.extend_from_slice(&7.25f32.to_le_bytes()); // 0x48 wind gust
    b.extend_from_slice(&0.5f32.to_le_bytes()); // 0x4C rain rate
    b.extend_from_slice(&1.5f32.to_le_bytes()); // 0x50 daily rain
    b.extend_from_slice(&4.25f32.to_le_bytes()); // 0x54 weekly rain
    b.extend_from_slice(&9.75f32.to_le_bytes()); // 0x58 monthly rain (dropped)
    b.extend_from_slice(&88.5f32.to_le_bytes()); // 0x5C yearly rain
    b.extend_from_slice(&640.0f32.to_le_bytes()); // 0x60 solar radiation
    b.push(6); // 0x64 UV index
    b.push(23); // 0x65 heat index
    b.extend_from_slice(&[0u8; 2]); // reserved
    assert_eq!(b.len(), 104);
    b
}

#[test]
fn now_record_decodes_every_field_at_its_offset() {
    let record = WeatherRecord::parse(&now_record_buffer()).unwrap();
    assert_eq!(record.record_header.device_name, "HP2000");
    assert_eq!(record.record_header.command, CommandType::Write);
    assert_eq!(record.record_header.argument, ArgumentType::NowRecord);
    assert_eq!(record.wind.direction, 180);
    assert_eq!(record.wind.wind_chill, 20.5f32.to_bits());
    assert_eq!(record.wind.wind_speed, 3.5f32.to_bits());
    assert_eq!(record.wind.wind_gust, 7.25f32.to_bits());
    assert_eq!(record.inside.temperature, 19.25f32.to_bits());
    assert_eq!(record.inside.humidity_percent, 45);
    assert_eq!(record.outside.temperature, 21.5f32.to_bits());
    assert_eq!(record.outside.humidity_percent, 52);
    assert_eq!(record.pressure, 1013.5f32.to_bits());
    assert_eq!(record.barometer, 998.25f32.to_bits());
    assert_eq!(record.dewpoint, 10.75f32.to_bits());
    assert_eq!(record.rain.rain_rate, 0.5f32.to_bits());
    assert_eq!(record.rain.daily_rain, 1.5f32.to_bits());
    assert_eq!(record.rain.weekly_rain, 4.25f32.to_bits());
    assert_eq!(record.rain.yearly_rain, 88.5f32.to_bits());
    assert_eq!(record.radiation, 640.0f32.to_bits());
    assert_eq!(record.uv_index, 6);
    assert_eq!(record.heat_index, 23);
}

#[test]
fn negative_wind_direction_decodes_as_signed() {
    let mut b = now_record_buffer();
    b[0x28..0x2A].copy_from_slice(&(-90i16).to_le_bytes());
    assert_eq!(WeatherRecord::parse(&b).unwrap().wind.direction, -90);
}

#[test]
fn corrupting_one_field_leaves_the_others_alone() {
    let clean = WeatherRecord::parse(&now_record_buffer()).unwrap();
    let mut corrupted = now_record_buffer();
    corrupted[0x30..0x34].copy_from_slice(&2222.75f32.to_le_bytes()); // pressure
    let record = WeatherRecord::parse(&corrupted).unwrap();
    assert_eq!(record.pressure, 2222.75f32.to_bits());
    assert_eq!(record.barometer, clean.barometer);
    assert_eq!(record.inside, clean.inside);
    assert_eq!(record.outside, clean.outside);
    assert_eq!(record.wind, clean.wind);
    assert_eq!(record.rain, clean.rain);
    assert_eq!(record.dewpoint, clean.dewpoint);
    assert_eq!(record.radiation, clean.radiation);
    assert_eq!(record.uv_index, clean.uv_index);
    assert_eq!(record.heat_index, clean.heat_index);
    assert_eq!(record.record_header, clean.record_header);
}

#[test]
fn now_record_needs_one_hundred_two_bytes() {
    assert_eq!(WeatherRecord::parse(&[]), Err(Error::BufferTooShort));
    let b = now_record_buffer();
    assert_eq!(WeatherRecord::parse(&b[..32]), Err(Error::BufferTooShort));
    assert_eq!(WeatherRecord::parse(&b[..101]), Err(Error::BufferTooShort));
    assert!(WeatherRecord::parse(&b[..102]).is_ok());
    // Trailing bytes beyond the frame are tolerated and ignored.
    let mut long = b.clone();
    long.extend_from_slice(&[0xEEu8; 7]);
    assert_eq!(WeatherRecord::parse(&long).unwrap(), WeatherRecord::parse(&b).unwrap());
}

#[test]
fn now_record_rejects_non_ascii_header_text() {
    let mut b = now_record_buffer();
    b[0] = 0xC3;
    b[1] = 0xA9;
    assert_eq!(WeatherRecord::parse(&b), Err(Error::InvalidText));
}

#[test]
fn response_wraps_a_now_record() {
    let b = now_record_buffer();
    let Response::WeatherRecord(record) = Response::from_bytes(&b).unwrap();
    assert_eq!(record, WeatherRecord::parse(&b).unwrap());
    assert_eq!(record.wind.direction, 180);
    assert_eq!(record.inside.humidity_percent, 45);
    assert_eq!(record.outside.temperature, 21.5f32.to_bits());
}

#[test]
fn response_with_unimplemented_argument_fails_loudly() {
    let mut b = now_record_buffer();
    b[16..32].copy_from_slice(b"HISTORY_DATA\x00\x00\x00\x00");
    assert_eq!(Response::from_bytes(&b), Err(Error::UnimplementedResponse));
    let mut b = now_record_buffer();
    b[16..32].copy_from_slice(&[0u8; 16]); // empty argument: NoArgument
    assert_eq!(Response::from_bytes(&b), Err(Error::UnimplementedResponse));
}

#[test]
fn response_length_guards() {
    let b = now_record_buffer();
    assert_eq!(Response::from_bytes(&b[..20]), Err(Error::BufferTooShort));
    // Header announces NOWRECORD but the payload is cut short.
    assert_eq!(Response::from_bytes(&b[..64]), Err(Error::BufferTooShort));
}
