use weather_station::station::controller::{
    read_result, Error, FrameReader, ReadAction, ReadEvent, SerialError, FRAME_BODY_SIZE,
};
use weather_station::station::data::{parse_byte_str, parse_field, Data, NumberParseError, ParseError};
use weather_station::station::raw::{
    RawBreak, RawData, RawField, RawHumidity, RawTemperature, RawWindDirection, TaggedField,
    WrongFieldTagError, RAW_DATA_END_BYTE,
};

const SAMPLE: &[u8; 37] = b"c000s000g000t086r000p000h53b10020\\r\\n";

fn frame(bytes: &[u8]) -> RawData {
    let arr: [u8; 37] = bytes.try_into().unwrap();
    RawData::from_slice(&arr)
}

#[test]
fn from_slice_splits_fields() {
    let d = frame(SAMPLE);
    assert_eq!(d.wind_direction, RawField { tag: b'c', data: *b"000" });
    assert_eq!(d.temperature, RawField { tag: b't', data: *b"086" });
    assert_eq!(d.humidity, RawField { tag: b'h', data: *b"53" });
    assert_eq!(d.air_pressure, RawField { tag: b'b', data: *b"10020" });
    assert_eq!(d.line_break, RawBreak::tag());
}

#[test]
fn raw_field_validity() {
    assert!(RawField { tag: b't', data: *b"086" }.is_valid());
    assert!(!RawField { tag: b't', data: *b"0.6" }.is_valid());
    assert!(!RawField { tag: b't', data: *b"..." }.is_valid());
}

#[test]
fn tagged_field_checks_tag() {
    let ok = RawTemperature::try_from(RawField { tag: b't', data: *b"086" });
    assert_eq!(ok, Ok(TaggedField::new(*b"086")));
    let wrong = RawTemperature::try_from(RawField { tag: b'x', data: *b"086" });
    assert_eq!(wrong, Err(WrongFieldTagError));
    let back: RawField<3> = RawField::from(ok.unwrap());
    assert_eq!(back, RawField { tag: b't', data: *b"086" });
    assert_eq!(RawWindDirection::invalid().data, *b"...");
}

#[test]
fn parse_byte_str_reads_decimal_numbers() {
    assert_eq!(parse_byte_str::<u16>(b"086"), Ok(86));
    assert_eq!(parse_byte_str::<u16>(b"999"), Ok(999));
    assert_eq!(parse_byte_str::<u32>(b"10020"), Ok(10020));
    assert_eq!(parse_byte_str::<u8>(b"00"), Ok(0));
    assert_eq!(parse_byte_str::<u16>(b"1a2"), Err(NumberParseError));
    assert_eq!(parse_byte_str::<u16>(b"12 "), Err(NumberParseError));
    assert_eq!(parse_byte_str::<u16>(b"x12"), Err(NumberParseError));
    assert_eq!(parse_byte_str::<u16>(b""), Err(NumberParseError));
}

#[test]
fn parse_field_blank_is_none() {
    assert_eq!(parse_field::<u8, b'h', 2>(RawHumidity::new(*b"..")), Ok(None));
    assert_eq!(parse_field::<u8, b'h', 2>(RawHumidity::new(*b"4.")), Ok(None));
    assert_eq!(parse_field::<u8, b'h', 2>(RawHumidity::new(*b"47")), Ok(Some(47)));
    assert_eq!(parse_field::<u8, b'h', 2>(RawHumidity::new(*b"4-")), Err(NumberParseError));
}

#[test]
fn decodes_sample_frame() {
    let data = Data::try_from(frame(SAMPLE)).unwrap();
    assert_eq!(
        data,
        Data {
            wind_direction: Some(0),
            wind_speed_1_min: Some(0),
            max_wind_speed_5_min: Some(0),
            temperature: Some(86),
            rainfall_1_hour: Some(0),
            rainfall_1_day: Some(0),
            humidity: Some(53),
            air_pressure: Some(10020),
        }
    );
}

#[test]
fn humidity_zero_means_hundred() {
    let data = Data::try_from(frame(b"c270s012g034t072r005p123h00b09876\\r\\n")).unwrap();
    assert_eq!(data.humidity, Some(100));
    assert_eq!(data.wind_direction, Some(270));
    assert_eq!(data.wind_speed_1_min, Some(12));
    assert_eq!(data.max_wind_speed_5_min, Some(34));
    assert_eq!(data.rainfall_1_hour, Some(5));
    assert_eq!(data.rainfall_1_day, Some(123));
    assert_eq!(data.air_pressure, Some(9876));
}

#[test]
fn blank_fields_decode_to_none() {
    let data = Data::try_from(frame(b"c...s...g...t...r...p...h..b.....\\r\\n")).unwrap();
    assert_eq!(data, Data::default());
}

#[test]
fn wrong_tag_is_reported() {
    let r = Data::try_from(frame(b"c000s000g000x086r000p000h53b10020\\r\\n"));
    assert_eq!(r, Err(ParseError::WrongFieldTag(WrongFieldTagError)));
}

#[test]
fn wrong_tag_wins_over_bad_number() {
    let r = Data::try_from(frame(b"c0x0s000g000t086r000p000h53z10020\\r\\n"));
    assert_eq!(r, Err(ParseError::WrongFieldTag(WrongFieldTagError)));
}

#[test]
fn bad_number_is_reported() {
    let r = Data::try_from(frame(b"c000s000g000t0-6r000p000h53b10020\\r\\n"));
    assert_eq!(r, Err(ParseError::NumberParsingFailed(NumberParseError)));
}

#[test]
fn parse_error_from_conversions() {
    assert_eq!(ParseError::from(WrongFieldTagError), ParseError::WrongFieldTag(WrongFieldTagError));
    assert_eq!(ParseError::from(NumberParseError), ParseError::NumberParsingFailed(NumberParseError));
}

/// Drives a reader over a byte stream the way the serial driver would.
fn drive(stream: &[u8]) -> (ReadAction, usize) {
    let mut reader = FrameReader::new();
    let mut pos = 0;
    let mut action = reader.action();
    let mut steps = 0;
    loop {
        steps += 1;
        assert!(steps < 10_000);
        let event = match action {
            ReadAction::ReadByte => {
                if pos >= stream.len() {
                    return (action, pos);
                }
                pos += 1;
                ReadEvent::Byte(Ok(stream[pos - 1]))
            }
            ReadAction::ReadBody => {
                if pos + FRAME_BODY_SIZE > stream.len() {
                    return (action, pos);
                }
                let mut body = reader.body();
                body.copy_from_slice(&stream[pos..pos + FRAME_BODY_SIZE]);
                pos += FRAME_BODY_SIZE;
                ReadEvent::Body(body, Ok(()))
            }
            ReadAction::SkipTrailer => {
                pos = (pos + 3).min(stream.len());
                ReadEvent::TrailerSkipped
            }
            ReadAction::Sleep(_) => ReadEvent::Slept,
            ReadAction::Finished(_) => return (action, pos),
        };
        action = reader.step(event);
    }
}

#[test]
fn reader_finds_frame_after_noise() {
    let mut stream = b"xyz\n".to_vec();
    stream.extend_from_slice(SAMPLE);
    stream.push(RAW_DATA_END_BYTE);
    stream.extend_from_slice(b"3C\r\n");
    let (action, _) = drive(&stream);
    assert_eq!(action, ReadAction::Finished(Ok(frame(SAMPLE))));
}

#[test]
fn reader_skips_frames_with_wrong_tags() {
    let mut stream = b"c000s000g000x086r000p000h53b10020\\r\\n*3C\r\n".to_vec();
    stream.extend_from_slice(SAMPLE);
    stream.extend_from_slice(b"*3C\r\n");
    let (action, _) = drive(&stream);
    assert_eq!(action, ReadAction::Finished(Ok(frame(SAMPLE))));
}

#[test]
fn reader_restarts_on_new_frame_start() {
    // A frame cut short: the byte after it is a new frame's first byte.
    let mut stream = b"c999s999g999t999r999p999h99b99999\\r\\n".to_vec();
    stream.extend_from_slice(SAMPLE);
    stream.extend_from_slice(b"*3C\r\n");
    let (action, _) = drive(&stream);
    assert_eq!(action, ReadAction::Finished(Ok(frame(SAMPLE))));
}

#[test]
fn reader_waits_after_break_and_fails_on_framing_error() {
    let mut reader = FrameReader::new();
    assert_eq!(reader.action(), ReadAction::ReadByte);
    assert_eq!(reader.step(ReadEvent::Byte(Err(SerialError::Break))), ReadAction::Sleep(100));
    assert_eq!(reader.step(ReadEvent::Slept), ReadAction::ReadByte);
    assert_eq!(reader.step(ReadEvent::Byte(Ok(b'c'))), ReadAction::ReadBody);
    let body = reader.body();
    assert_eq!(reader.step(ReadEvent::Body(body, Err(SerialError::Break))), ReadAction::Sleep(200));
    assert_eq!(reader.step(ReadEvent::Slept), ReadAction::ReadBody);
    assert_eq!(reader.step(ReadEvent::Body(body, Err(SerialError::Overrun))), ReadAction::ReadByte);
    let done = reader.step(ReadEvent::Byte(Err(SerialError::Framing)));
    assert_eq!(done, ReadAction::Finished(Err(SerialError::Framing)));
    // Once finished, the reader stays finished.
    assert_eq!(reader.step(ReadEvent::Slept), done);
}

#[test]
fn reader_ignores_unexpected_events() {
    let mut reader = FrameReader::new();
    assert_eq!(reader.step(ReadEvent::Slept), ReadAction::ReadByte);
    assert_eq!(reader.step(ReadEvent::TrailerSkipped), ReadAction::ReadByte);
    assert_eq!(reader.step(ReadEvent::Byte(Err(SerialError::Overrun))), ReadAction::ReadByte);
}

#[test]
fn read_result_maps_errors() {
    assert_eq!(read_result(Err(SerialError::Parity)), Err(Error::Serial(SerialError::Parity)));
    let bad = frame(b"c000s000g000t0-6r000p000h53b10020\\r\\n");
    assert_eq!(read_result(Ok(bad)), Err(Error::Parse(ParseError::NumberParsingFailed(NumberParseError))));
    assert_eq!(read_result(Ok(frame(SAMPLE))).unwrap().temperature, Some(86));
}

#[test]
fn leading_zeros_are_read() {
    assert_eq!(parse_byte_str::<u8>(b"0099"), Ok(99));
    assert_eq!(parse_byte_str::<u32>(b"0000000001"), Ok(1));
}
