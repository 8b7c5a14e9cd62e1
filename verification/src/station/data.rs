//! Decoding a frame into readings: each field is either absent (the station
//! sent placeholders) or a decimal number in the station's own unit.
use vstd::prelude::*;

use crate::station::raw::{
    RawAirPressure, RawData, RawField, RawHumidity, RawRainfall1Day, RawRainfall1Hour,
    RawTemperature, RawWindDirection, RawWindSpeed1Min, RawWindSpeed5Min, TaggedField,
    WrongFieldTagError, PLACEHOLDER,
};

verus! {

/// An ASCII decimal digit.
pub open spec fn is_digit(b: u8) -> bool {
    48 <= b <= 57
}

/// Every byte is an ASCII decimal digit.
pub open spec fn all_digits(s: Seq<u8>) -> bool {
    forall|i: int| 0 <= i < s.len() ==> is_digit(#[trigger] s[i])
}

/// Number of ASCII digits at the start of `s`.
pub open spec fn digit_count(s: Seq<u8>) -> nat
    decreases s.len(),
{
    if s.len() == 0 || !is_digit(s[0]) {
        0
    } else {
        1 + digit_count(s.drop_first())
    }
}

/// The number that the digits of `s` write in base ten, most significant first.
pub open spec fn decimal_value(s: Seq<u8>) -> nat
    decreases s.len(),
{
    if s.len() == 0 {
        0
    } else {
        decimal_value(s.drop_last()) * 10 + (s.last() - 48) as nat
    }
}

/// Ten to the power `n`.
pub open spec fn pow10(n: nat) -> nat
    decreases n,
{
    if n == 0 {
        1
    } else {
        10 * pow10((n - 1) as nat)
    }
}

/// What `digit_count` counts: a run of digits, ended by the end of `s` or by
/// a byte that is no digit.
pub proof fn lemma_digit_count(s: Seq<u8>)
    ensures
        digit_count(s) <= s.len(),
        all_digits(s.take(digit_count(s) as int)),
        digit_count(s) < s.len() ==> !is_digit(s[digit_count(s) as int]),
        all_digits(s) ==> digit_count(s) == s.len(),
    decreases s.len(),
{
    if s.len() > 0 && is_digit(s[0]) {
        let t = s.drop_first();
        lemma_digit_count(t);
        let k = digit_count(s) as int;
        assert forall|i: int| 0 <= i < k implies is_digit(#[trigger] s.take(k)[i]) by {
            if i > 0 {
                assert(s.take(k)[i] == t.take(k - 1)[i - 1]);
            }
        }
        if all_digits(s) {
            assert forall|i: int| 0 <= i < t.len() implies is_digit(#[trigger] t[i]) by {
                assert(t[i] == s[i + 1]);
            }
        }
    } else {
        assert(s.take(0) =~= Seq::<u8>::empty());
    }
}

/// A run of `n` digits writes a number below `10^n`.
pub proof fn lemma_decimal_value_bound(s: Seq<u8>)
    requires
        all_digits(s),
    ensures
        decimal_value(s) < pow10(s.len()),
    decreases s.len(),
{
    if s.len() > 0 {
        let t = s.drop_last();
        assert(all_digits(t)) by {
            assert forall|i: int| 0 <= i < t.len() implies is_digit(#[trigger] t[i]) by {
                assert(t[i] == s[i]);
            }
        }
        lemma_decimal_value_bound(t);
        assert(is_digit(s[s.len() - 1]));
    }
}

/// `10^m <= 10^n` when `m <= n`.
pub proof fn lemma_pow10_monotone(m: nat, n: nat)
    requires
        m <= n,
    ensures
        pow10(m) <= pow10(n),
    decreases n,
{
    if m < n {
        lemma_pow10_monotone(m, (n - 1) as nat);
    }
}

/// `atoi::FromRadix10::from_radix_10` for `u8`: reads the digits at the start
/// of `buf` and returns their value and how many there were. It multiplies
/// as it goes, so the value of the digits must fit in a `u8`.
#[verifier::external_body]
fn atoi_u8(buf: &[u8]) -> (r: (u8, usize))
    requires
        decimal_value(buf@.take(digit_count(buf@) as int)) <= u8::MAX,
    ensures
        r.1 == digit_count(buf@),
        r.0 == decimal_value(buf@.take(r.1 as int)),
{
    <u8 as atoi::FromRadix10>::from_radix_10(buf)
}

/// `atoi::FromRadix10::from_radix_10` for `u16`: reads the digits at the start
/// of `buf` and returns their value and how many there were. It multiplies
/// as it goes, so the value of the digits must fit in a `u16`.
#[verifier::external_body]
fn atoi_u16(buf: &[u8]) -> (r: (u16, usize))
    requires
        decimal_value(buf@.take(digit_count(buf@) as int)) <= u16::MAX,
    ensures
        r.1 == digit_count(buf@),
        r.0 == decimal_value(buf@.take(r.1 as int)),
{
    <u16 as atoi::FromRadix10>::from_radix_10(buf)
}

/// `atoi::FromRadix10::from_radix_10` for `u32`: reads the digits at the start
/// of `buf` and returns their value and how many there were. It multiplies
/// as it goes, so the value of the digits must fit in a `u32`.
#[verifier::external_body]
fn atoi_u32(buf: &[u8]) -> (r: (u32, usize))
    requires
        decimal_value(buf@.take(digit_count(buf@) as int)) <= u32::MAX,
    ensures
        r.1 == digit_count(buf@),
        r.0 == decimal_value(buf@.take(r.1 as int)),
{
    <u32 as atoi::FromRadix10>::from_radix_10(buf)
}

/// An unsigned integer type that readings are parsed into.
pub trait DecimalInteger: Sized + Copy {
    /// The largest value of the type.
    spec fn max_value() -> nat;

    /// The value of the type that stands for `n` (when `n` fits).
    spec fn from_nat(n: nat) -> Self;

    /// Reads the decimal digits at the start of `buf`: their value and their count.
    fn from_radix_10(buf: &[u8]) -> (r: (Self, usize))
        requires
            decimal_value(buf@.take(digit_count(buf@) as int)) <= Self::max_value(),
        ensures
            r.1 == digit_count(buf@),
            r.0 == Self::from_nat(decimal_value(buf@.take(r.1 as int))),
    ;

    /// Whether the value is zero.
    fn is_zero(&self) -> (r: bool)
        ensures
            r == (*self == Self::from_nat(0)),
    ;
}

impl DecimalInteger for u8 {
    open spec fn max_value() -> nat {
        u8::MAX as nat
    }

    open spec fn from_nat(n: nat) -> u8 {
        n as u8
    }

    fn from_radix_10(buf: &[u8]) -> (r: (u8, usize)) {
        atoi_u8(buf)
    }

    fn is_zero(&self) -> (r: bool) {
        *self == 0
    }
}

impl DecimalInteger for u16 {
    open spec fn max_value() -> nat {
        u16::MAX as nat
    }

    open spec fn from_nat(n: nat) -> u16 {
        n as u16
    }

    fn from_radix_10(buf: &[u8]) -> (r: (u16, usize)) {
        atoi_u16(buf)
    }

    fn is_zero(&self) -> (r: bool) {
        *self == 0
    }
}

impl DecimalInteger for u32 {
    open spec fn max_value() -> nat {
        u32::MAX as nat
    }

    open spec fn from_nat(n: nat) -> u32 {
        n as u32
    }

    fn from_radix_10(buf: &[u8]) -> (r: (u32, usize)) {
        atoi_u32(buf)
    }

    fn is_zero(&self) -> (r: bool) {
        *self == 0
    }
}

/// The powers of ten that the frame's field widths need.
pub proof fn lemma_small_powers()
    ensures
        pow10(2) == 100,
        pow10(3) == 1000,
        pow10(5) == 100000,
{
    reveal_with_fuel(pow10, 6);
}

/// A field held something other than a decimal number.
#[derive(Debug, Clone, Copy, PartialEq, Eq)]
pub struct NumberParseError;

/// Why a frame could not be decoded.
#[derive(Debug, Clone, Copy, PartialEq, Eq)]
pub enum ParseError {
    /// A field did not carry the tag of its position.
    WrongFieldTag(WrongFieldTagError),
    /// A field held something other than a decimal number.
    NumberParsingFailed(NumberParseError),
}

impl From<WrongFieldTagError> for ParseError {
    fn from(e: WrongFieldTagError) -> (r: Self)
        ensures
            r == ParseError::WrongFieldTag(e),
    {
        ParseError::WrongFieldTag(e)
    }
}

impl vstd::std_specs::convert::FromSpecImpl<WrongFieldTagError> for ParseError {
    open spec fn obeys_from_spec() -> bool {
        true
    }

    open spec fn from_spec(e: WrongFieldTagError) -> Self {
        ParseError::WrongFieldTag(e)
    }
}

impl From<NumberParseError> for ParseError {
    fn from(e: NumberParseError) -> (r: Self)
        ensures
            r == ParseError::NumberParsingFailed(e),
    {
        ParseError::NumberParsingFailed(e)
    }
}

impl vstd::std_specs::convert::FromSpecImpl<NumberParseError> for ParseError {
    open spec fn obeys_from_spec() -> bool {
        true
    }

    open spec fn from_spec(e: NumberParseError) -> Self {
        ParseError::NumberParsingFailed(e)
    }
}

/// The readings of one frame, each in the unit the station sends it in, or
/// `None` where the station had no value.
#[derive(Debug, Clone, Copy, PartialEq, Eq)]
pub struct Data {
    /// Wind direction, degrees
    pub wind_direction: Option<u16>,
    /// Wind speed over the last 1 minute, 0.1 miles per hour
    pub wind_speed_1_min: Option<u16>,
    /// Max wind speed over the last 5 minutes, 0.1 miles per hour
    pub max_wind_speed_5_min: Option<u16>,
    /// Temperature, degrees Fahrenheit
    pub temperature: Option<u16>,
    /// Rainfall over the last hour, 0.01 inches
    pub rainfall_1_hour: Option<u16>,
    /// Rainfall over the last 24 hours, 0.01 inches
    pub rainfall_1_day: Option<u16>,
    /// Relative humidity, percent
    pub humidity: Option<u8>,
    /// Air pressure, 0.1 hPa
    pub air_pressure: Option<u32>,
}

impl Default for Data {
    fn default() -> (r: Self)
        ensures
            r == Data::empty_spec(),
    {
        Data {
            wind_direction: None,
            wind_speed_1_min: None,
            max_wind_speed_5_min: None,
            temperature: None,
            rainfall_1_hour: None,
            rainfall_1_day: None,
            humidity: None,
            air_pressure: None,
        }
    }
}

impl Data {
    /// No reading at all.
    pub open spec fn empty_spec() -> Data {
        Data {
            wind_direction: None,
            wind_speed_1_min: None,
            max_wind_speed_5_min: None,
            temperature: None,
            rainfall_1_hour: None,
            rainfall_1_day: None,
            humidity: None,
            air_pressure: None,
        }
    }
}

/// What a field's data bytes decode to: no value where they hold a
/// placeholder, the number they write where they are all digits, and an
/// error otherwise.
pub open spec fn spec_parse_field<T: DecimalInteger>(data: Seq<u8>) -> Result<Option<T>, NumberParseError> {
    if data.contains(PLACEHOLDER) {
        Ok(None)
    } else if data.len() > 0 && all_digits(data) {
        Ok(Some(T::from_nat(decimal_value(data))))
    } else {
        Err(NumberParseError)
    }
}

/// The digits at the start of `s` write a number of at most `max`.
pub open spec fn digit_prefix_fits(s: Seq<u8>, max: nat) -> bool {
    decimal_value(s.take(digit_count(s) as int)) <= max
}

/// Any `n` digits write a number that fits a type whose values reach `10^n - 1`.
pub proof fn lemma_digit_prefix_fits(s: Seq<u8>, max: nat)
    requires
        pow10(s.len()) <= max + 1,
    ensures
        digit_prefix_fits(s, max),
{
    lemma_digit_count(s);
    let k = digit_count(s);
    lemma_decimal_value_bound(s.take(k as int));
    lemma_pow10_monotone(k, s.len());
}

/// Parses `buf` as a decimal number: it must be non-empty and all digits.
/// The digits it starts with must write a number that `T` holds: reading
/// them multiplies as it goes.
pub fn parse_byte_str<T: DecimalInteger>(buf: &[u8]) -> (r: Result<T, NumberParseError>)
    requires
        digit_prefix_fits(buf@, T::max_value()),
    ensures
        buf@.len() > 0 && all_digits(buf@) ==> r == Ok::<T, NumberParseError>(
            T::from_nat(decimal_value(buf@)),
        ),
        !(buf@.len() > 0 && all_digits(buf@)) ==> r == Err::<T, NumberParseError>(NumberParseError),
{
    proof {
        lemma_digit_count(buf@);
    }
    let (value, len) = T::from_radix_10(buf);
    if len == 0 && value.is_zero() {
        // Invalid number
        proof {
            if buf@.len() > 0 {
                assert(!is_digit(buf@[0]));
            }
        }
        Err(NumberParseError)
    } else if len != buf.len() {
        // Corrupted number
        proof {
            assert(!is_digit(buf@[len as int]));
        }
        Err(NumberParseError)
    } else {
        proof {
            assert(buf@.take(len as int) =~= buf@);
            if len == 0 {
                assert(buf@.take(0) =~= Seq::<u8>::empty());
                assert(decimal_value(Seq::<u8>::empty()) == 0);
            }
        }
        Ok(value)
    }
}

/// Decodes a field: `None` where it carries placeholders, else its number.
/// Where there is no placeholder, the digits the field starts with must
/// write a number that `T` holds.
pub fn parse_field<T: DecimalInteger, const TAG: u8, const N: usize>(field: TaggedField<TAG, N>) -> (r: Result<
    Option<T>,
    NumberParseError,
>)
    requires
        !field.data@.contains(PLACEHOLDER) ==> digit_prefix_fits(field.data@, T::max_value()),
    ensures
        r == spec_parse_field::<T>(field.data@),
{
    let raw_field: RawField<N> = RawField::from(field);
    if raw_field.is_valid() {
        match parse_byte_str::<T>(&raw_field.data) {
            Ok(v) => Ok(Some(v)),
            Err(e) => Err(e),
        }
    } else {
        Ok(None)
    }
}

/// Humidity `00` stands for 100 percent.
pub open spec fn humidity_percent(v: Option<u8>) -> Option<u8> {
    match v {
        Some(0) => Some(100u8),
        other => other,
    }
}

/// Every field of the frame decodes.
pub open spec fn fields_decode(raw: RawData) -> bool {
    &&& spec_parse_field::<u16>(raw.wind_direction.data@) is Ok
    &&& spec_parse_field::<u16>(raw.wind_speed_1_min.data@) is Ok
    &&& spec_parse_field::<u16>(raw.wind_speed_5_min.data@) is Ok
    &&& spec_parse_field::<u16>(raw.temperature.data@) is Ok
    &&& spec_parse_field::<u16>(raw.rainfall_1_hour.data@) is Ok
    &&& spec_parse_field::<u16>(raw.rainfall_1_day.data@) is Ok
    &&& spec_parse_field::<u8>(raw.humidity.data@) is Ok
    &&& spec_parse_field::<u32>(raw.air_pressure.data@) is Ok
}

/// The readings of a frame whose fields all decode.
pub open spec fn decoded_readings(raw: RawData) -> Data {
    Data {
        wind_direction: spec_parse_field::<u16>(raw.wind_direction.data@)->Ok_0,
        wind_speed_1_min: spec_parse_field::<u16>(raw.wind_speed_1_min.data@)->Ok_0,
        max_wind_speed_5_min: spec_parse_field::<u16>(raw.wind_speed_5_min.data@)->Ok_0,
        temperature: spec_parse_field::<u16>(raw.temperature.data@)->Ok_0,
        rainfall_1_hour: spec_parse_field::<u16>(raw.rainfall_1_hour.data@)->Ok_0,
        rainfall_1_day: spec_parse_field::<u16>(raw.rainfall_1_day.data@)->Ok_0,
        humidity: humidity_percent(spec_parse_field::<u8>(raw.humidity.data@)->Ok_0),
        air_pressure: spec_parse_field::<u32>(raw.air_pressure.data@)->Ok_0,
    }
}

/// What a frame decodes to: a wrong tag anywhere is reported first, then a
/// field that holds no number, and otherwise the frame's readings.
pub open spec fn spec_data_from_raw(raw: RawData) -> Result<Data, ParseError> {
    if !raw.tags_valid() {
        Err(ParseError::WrongFieldTag(WrongFieldTagError))
    } else if !fields_decode(raw) {
        Err(ParseError::NumberParsingFailed(NumberParseError))
    } else {
        Ok(decoded_readings(raw))
    }
}

/// Decoding keeps the numbers of the frame: every reading is the number its
/// field writes (humidity `00` being 100), and so below ten to the power of
/// the field's width.
pub proof fn lemma_decoded_readings_exact(raw: RawData)
    requires
        spec_data_from_raw(raw) is Ok,
    ensures
        ({
            let d = spec_data_from_raw(raw)->Ok_0;
            &&& d.wind_direction matches Some(v) ==> v as nat == decimal_value(raw.wind_direction.data@) && v < 1000
            &&& d.wind_speed_1_min matches Some(v) ==> v as nat == decimal_value(raw.wind_speed_1_min.data@) && v < 1000
            &&& d.max_wind_speed_5_min matches Some(v) ==> v as nat == decimal_value(raw.wind_speed_5_min.data@) && v < 1000
            &&& d.temperature matches Some(v) ==> v as nat == decimal_value(raw.temperature.data@) && v < 1000
            &&& d.rainfall_1_hour matches Some(v) ==> v as nat == decimal_value(raw.rainfall_1_hour.data@) && v < 1000
            &&& d.rainfall_1_day matches Some(v) ==> v as nat == decimal_value(raw.rainfall_1_day.data@) && v < 1000
            &&& d.humidity matches Some(v) ==> 1 <= v <= 100 && (v == 100 || v as nat == decimal_value(raw.humidity.data@))
            &&& d.air_pressure matches Some(v) ==> v as nat == decimal_value(raw.air_pressure.data@) && v < 100000
        }),
{
    lemma_small_powers();
    assert(raw.wind_direction.data@.len() == 3);
    assert(raw.humidity.data@.len() == 2);
    assert(raw.air_pressure.data@.len() == 5);
    if !raw.wind_direction.data@.contains(PLACEHOLDER) {
        lemma_decimal_value_bound(raw.wind_direction.data@);
    }
    if !raw.wind_speed_1_min.data@.contains(PLACEHOLDER) {
        lemma_decimal_value_bound(raw.wind_speed_1_min.data@);
    }
    if !raw.wind_speed_5_min.data@.contains(PLACEHOLDER) {
        lemma_decimal_value_bound(raw.wind_speed_5_min.data@);
    }
    if !raw.temperature.data@.contains(PLACEHOLDER) {
        lemma_decimal_value_bound(raw.temperature.data@);
    }
    if !raw.rainfall_1_hour.data@.contains(PLACEHOLDER) {
        lemma_decimal_value_bound(raw.rainfall_1_hour.data@);
    }
    if !raw.rainfall_1_day.data@.contains(PLACEHOLDER) {
        lemma_decimal_value_bound(raw.rainfall_1_day.data@);
    }
    if !raw.humidity.data@.contains(PLACEHOLDER) {
        lemma_decimal_value_bound(raw.humidity.data@);
    }
    if !raw.air_pressure.data@.contains(PLACEHOLDER) {
        lemma_decimal_value_bound(raw.air_pressure.data@);
    }
}

/// Humidity is 100 percent only where the field reads `00`; any other
/// humidity is exactly the number the field's two digits write.
pub proof fn lemma_humidity_reading(raw: RawData)
    requires
        spec_data_from_raw(raw) is Ok,
    ensures
        spec_data_from_raw(raw)->Ok_0.humidity matches Some(v) ==> {
            &&& all_digits(raw.humidity.data@)
            &&& (v == 100 <==> decimal_value(raw.humidity.data@) == 0)
            &&& (v != 100 ==> v as nat == decimal_value(raw.humidity.data@))
            &&& 1 <= v <= 100
        },
        spec_data_from_raw(raw)->Ok_0.humidity is None <==> raw.humidity.data@.contains(PLACEHOLDER),
{
    lemma_small_powers();
    assert(raw.humidity.data@.len() == 2);
    if !raw.humidity.data@.contains(PLACEHOLDER) {
        lemma_decimal_value_bound(raw.humidity.data@);
    }
}

/// A field decodes to no reading exactly when the station left it blank
/// with placeholders.
pub proof fn lemma_blank_fields_give_no_reading<T: DecimalInteger>(data: Seq<u8>)
    ensures
        spec_parse_field::<T>(data) == Ok::<Option<T>, NumberParseError>(None) <==> data.contains(PLACEHOLDER),
{
}

/// A frame whose tags are all in place never fails for a wrong tag.
pub proof fn lemma_tagged_frames_have_no_tag_error(raw: RawData)
    requires
        raw.tags_valid(),
    ensures
        spec_data_from_raw(raw) != Err::<Data, ParseError>(ParseError::WrongFieldTag(WrongFieldTagError)),
{
}

impl TryFrom<RawData> for Data {
    type Error = ParseError;

    fn try_from(raw: RawData) -> (r: Result<Data, ParseError>)
        ensures
            r == spec_data_from_raw(raw),
    {
        let wind_direction = match RawWindDirection::try_from(raw.wind_direction) {
            Ok(f) => f,
            Err(e) => return Err(ParseError::from(e)),
        };
        let wind_speed_1_min = match RawWindSpeed1Min::try_from(raw.wind_speed_1_min) {
            Ok(f) => f,
            Err(e) => return Err(ParseError::from(e)),
        };
        let max_wind_speed_5_min = match RawWindSpeed5Min::try_from(raw.wind_speed_5_min) {
            Ok(f) => f,
            Err(e) => return Err(ParseError::from(e)),
        };
        let temperature = match RawTemperature::try_from(raw.temperature) {
            Ok(f) => f,
            Err(e) => return Err(ParseError::from(e)),
        };
        let rainfall_1_hour = match RawRainfall1Hour::try_from(raw.rainfall_1_hour) {
            Ok(f) => f,
            Err(e) => return Err(ParseError::from(e)),
        };
        let rainfall_1_day = match RawRainfall1Day::try_from(raw.rainfall_1_day) {
            Ok(f) => f,
            Err(e) => return Err(ParseError::from(e)),
        };
        let humidity = match RawHumidity::try_from(raw.humidity) {
            Ok(f) => f,
            Err(e) => return Err(ParseError::from(e)),
        };
        let air_pressure = match RawAirPressure::try_from(raw.air_pressure) {
            Ok(f) => f,
            Err(e) => return Err(ParseError::from(e)),
        };

        proof {
            lemma_small_powers();
            lemma_digit_prefix_fits(wind_direction.data@, u16::MAX as nat);
            lemma_digit_prefix_fits(wind_speed_1_min.data@, u16::MAX as nat);
            lemma_digit_prefix_fits(max_wind_speed_5_min.data@, u16::MAX as nat);
            lemma_digit_prefix_fits(temperature.data@, u16::MAX as nat);
            lemma_digit_prefix_fits(rainfall_1_hour.data@, u16::MAX as nat);
            lemma_digit_prefix_fits(rainfall_1_day.data@, u16::MAX as nat);
            lemma_digit_prefix_fits(humidity.data@, u8::MAX as nat);
            lemma_digit_prefix_fits(air_pressure.data@, u32::MAX as nat);
        }

        let wind_direction = match parse_field::<u16, _, 3>(wind_direction) {
            Ok(v) => v,
            Err(e) => return Err(ParseError::from(e)),
        };
        let wind_speed_1_min = match parse_field::<u16, _, 3>(wind_speed_1_min) {
            Ok(v) => v,
            Err(e) => return Err(ParseError::from(e)),
        };
        let max_wind_speed_5_min = match parse_field::<u16, _, 3>(max_wind_speed_5_min) {
            Ok(v) => v,
            Err(e) => return Err(ParseError::from(e)),
        };
        let temperature = match parse_field::<u16, _, 3>(temperature) {
            Ok(v) => v,
            Err(e) => return Err(ParseError::from(e)),
        };
        let rainfall_1_hour = match parse_field::<u16, _, 3>(rainfall_1_hour) {
            Ok(v) => v,
            Err(e) => return Err(ParseError::from(e)),
        };
        let rainfall_1_day = match parse_field::<u16, _, 3>(rainfall_1_day) {
            Ok(v) => v,
            Err(e) => return Err(ParseError::from(e)),
        };
        let humidity = match parse_field::<u8, _, 2>(humidity) {
            // 00 means 100%
            Ok(Some(val)) => Some(if val == 0 { 100u8 } else { val }),
            Ok(None) => None,
            Err(e) => return Err(ParseError::from(e)),
        };
        let air_pressure = match parse_field::<u32, _, 5>(air_pressure) {
            Ok(v) => v,
            Err(e) => return Err(ParseError::from(e)),
        };

        Ok(Data {
            wind_direction,
            wind_speed_1_min,
            max_wind_speed_5_min,
            temperature,
            rainfall_1_hour,
            rainfall_1_day,
            humidity,
            air_pressure,
        })
    }
}

impl vstd::std_specs::convert::TryFromSpecImpl<RawData> for Data {
    open spec fn obeys_try_from_spec() -> bool {
        true
    }

    open spec fn try_from_spec(raw: RawData) -> Result<Data, ParseError> {
        spec_data_from_raw(raw)
    }
}

} // verus!
