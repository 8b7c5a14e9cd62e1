//! The station's frame format: eight tagged ASCII fields followed by a line
//! break, 37 bytes in all, for example `c000s000g000t086r000p000h53b10020`.
use vstd::prelude::*;

verus! {

/// Tag of the wind direction field (`c`), in degrees.
pub const WIND_DIRECTION_TAG: u8 = 99;
/// Tag of the 1 minute wind speed field (`s`), in 0.1 miles per hour.
pub const WIND_SPEED_1_MIN_TAG: u8 = 115;
/// Tag of the 5 minute wind speed field (`g`), in 0.1 miles per hour.
pub const WIND_SPEED_5_MIN_TAG: u8 = 103;
/// Tag of the temperature field (`t`), in degrees Fahrenheit.
pub const TEMPERATURE_TAG: u8 = 116;
/// Tag of the 1 hour rainfall field (`r`), in 0.01 inches.
pub const RAINFALL_1_HOUR_TAG: u8 = 114;
/// Tag of the 24 hour rainfall field (`p`), in 0.01 inches.
pub const RAINFALL_1_DAY_TAG: u8 = 112;
/// Tag of the humidity field (`h`), in percent (`00` means 100).
pub const HUMIDITY_TAG: u8 = 104;
/// Tag of the air pressure field (`b`), in 0.1 hPa.
pub const AIR_PRESSURE_TAG: u8 = 98;

/// The byte (`.`) the station sends in place of digits it has no value for.
pub const PLACEHOLDER: u8 = 46;

/// Number of bytes in one frame.
pub const RAW_DATA_SIZE: usize = 37;

/// The byte that the station sends after a frame, before its checksum.
pub const RAW_DATA_END_BYTE: u8 = 42;

/// The field type did not match the tag of the raw field.
#[derive(Debug, Clone, Copy, PartialEq, Eq)]
pub struct WrongFieldTagError;

/// A field as it stands in the frame: a tag byte and `N` data bytes.
#[derive(Debug, Clone, Copy, PartialEq, Eq)]
pub struct RawField<const N: usize> {
    pub tag: u8,
    pub data: [u8; N],
}

impl<const N: usize> RawField<N> {
    /// The field carries a value: none of its data bytes is a placeholder.
    pub open spec fn spec_is_valid(&self) -> bool {
        !self.data@.contains(PLACEHOLDER)
    }

    /// The bytes of the field as they stand in the frame.
    pub open spec fn bytes(&self) -> Seq<u8> {
        seq![self.tag] + self.data@
    }

    /// Whether the field carries a value, that is holds no placeholder byte.
    pub fn is_valid(&self) -> (r: bool)
        ensures
            r == self.spec_is_valid(),
    {
        let mut i: usize = 0;
        while i < N
            invariant
                i <= N,
                self.data@.len() == N,
                forall|j: int| 0 <= j < i ==> self.data@[j] != PLACEHOLDER,
            decreases N - i,
        {
            if self.data[i] == PLACEHOLDER {
                assert(self.data@[i as int] == PLACEHOLDER);
                return false;
            }
            i = i + 1;
        }
        assert(!self.data@.contains(PLACEHOLDER));
        true
    }
}

/// What every field type of the frame states: its tag and its size.
pub trait Field {
    const TAG: u8;
    const SIZE: usize;
}

/// A field whose tag has been checked to be `TAG`, with `N` data bytes.
#[derive(Debug, Clone, Copy, PartialEq, Eq)]
pub struct TaggedField<const TAG: u8, const N: usize> {
    pub data: [u8; N],
}

impl<const TAG: u8, const N: usize> Field for TaggedField<TAG, N> {
    const TAG: u8 = TAG;
    const SIZE: usize = N;
}

/// Wind direction, degrees.
pub type RawWindDirection = TaggedField<WIND_DIRECTION_TAG, 3>;
/// Wind speed over 1 minute, 0.1 miles per hour.
pub type RawWindSpeed1Min = TaggedField<WIND_SPEED_1_MIN_TAG, 3>;
/// Wind speed over 5 minutes, 0.1 miles per hour.
pub type RawWindSpeed5Min = TaggedField<WIND_SPEED_5_MIN_TAG, 3>;
/// Temperature, degrees Fahrenheit.
pub type RawTemperature = TaggedField<TEMPERATURE_TAG, 3>;
/// Rainfall over 1 hour, 0.01 inches.
pub type RawRainfall1Hour = TaggedField<RAINFALL_1_HOUR_TAG, 3>;
/// Rainfall over 24 hours, 0.01 inches.
pub type RawRainfall1Day = TaggedField<RAINFALL_1_DAY_TAG, 3>;
/// Humidity, percent.
pub type RawHumidity = TaggedField<HUMIDITY_TAG, 2>;
/// Air pressure, 0.1 hPa.
pub type RawAirPressure = TaggedField<AIR_PRESSURE_TAG, 5>;

impl<const TAG: u8, const N: usize> TaggedField<TAG, N> {
    /// A field that carries no value: every data byte is a placeholder.
    pub fn invalid() -> (r: Self)
        ensures
            forall|i: int| 0 <= i < N ==> r.data@[i] == PLACEHOLDER,
    {
        Self { data: [PLACEHOLDER; N] }
    }

    /// A field with the given data bytes.
    pub fn new(data: [u8; N]) -> (r: Self)
        ensures
            r.data == data,
    {
        Self { data }
    }

    /// The tag of this field type.
    pub fn tag(&self) -> (r: u8)
        ensures
            r == TAG,
    {
        TAG
    }
}

impl<const TAG: u8, const N: usize> Default for TaggedField<TAG, N> {
    fn default() -> (r: Self)
        ensures
            forall|i: int| 0 <= i < N ==> r.data@[i] == PLACEHOLDER,
    {
        Self::invalid()
    }
}

impl<const TAG: u8, const N: usize> TryFrom<RawField<N>> for TaggedField<TAG, N> {
    type Error = WrongFieldTagError;

    fn try_from(field: RawField<N>) -> (r: Result<Self, WrongFieldTagError>)
        ensures
            field.tag == TAG ==> r == Ok::<Self, WrongFieldTagError>(Self { data: field.data }),
            field.tag != TAG ==> r == Err::<Self, WrongFieldTagError>(WrongFieldTagError),
    {
        if field.tag == TAG {
            Ok(Self::new(field.data))
        } else {
            Err(WrongFieldTagError)
        }
    }
}

impl<const TAG: u8, const N: usize> vstd::std_specs::convert::TryFromSpecImpl<RawField<N>> for TaggedField<TAG, N> {
    open spec fn obeys_try_from_spec() -> bool {
        true
    }

    open spec fn try_from_spec(field: RawField<N>) -> Result<Self, WrongFieldTagError> {
        if field.tag == TAG {
            Ok(Self { data: field.data })
        } else {
            Err(WrongFieldTagError)
        }
    }
}

impl<const TAG: u8, const N: usize> From<TaggedField<TAG, N>> for RawField<N> {
    fn from(field: TaggedField<TAG, N>) -> (r: Self)
        ensures
            r.tag == TAG,
            r.data == field.data,
    {
        RawField { tag: TAG, data: field.data }
    }
}

impl<const TAG: u8, const N: usize> vstd::std_specs::convert::FromSpecImpl<TaggedField<TAG, N>> for RawField<N> {
    open spec fn obeys_from_spec() -> bool {
        true
    }

    open spec fn from_spec(field: TaggedField<TAG, N>) -> Self {
        RawField { tag: TAG, data: field.data }
    }
}

/// The line break that closes a frame, as the station's format gives it:
/// the four bytes `\r\n` written out (backslash, `r`, backslash, `n`).
#[derive(Debug, Clone, Copy, PartialEq, Eq)]
pub struct RawBreak {
    tag: [u8; 4],
}

impl RawBreak {
    /// Number of bytes of the line break.
    pub const SIZE: usize = 4;

    /// The bytes of the line break.
    pub fn tag() -> (r: [u8; 4])
        ensures
            r@ == seq![92u8, 114u8, 92u8, 110u8],
    {
        [92, 114, 92, 110]
    }
}

/// One frame, field by field, in the order the station sends them.
#[derive(Debug, Clone, Copy, PartialEq, Eq)]
pub struct RawData {
    /// c000: air direction, degree
    pub wind_direction: RawField<3>,
    /// s000: air speed(1 minute), 0.1 miles per hour
    pub wind_speed_1_min: RawField<3>,
    /// g000: air speed(5 minutes), 0.1 miles per hour
    pub wind_speed_5_min: RawField<3>,
    /// t086: temperature, Fahrenheit
    pub temperature: RawField<3>,
    /// r000: rainfall(1 hour), 0.01 inches
    pub rainfall_1_hour: RawField<3>,
    /// p000: rainfall(24 hours), 0.01 inches
    pub rainfall_1_day: RawField<3>,
    /// h53: humidity, % (00％ = 100)
    pub humidity: RawField<2>,
    /// b10020: atmosphere, 0.1 hpa
    pub air_pressure: RawField<5>,
    /// CR/LF
    pub line_break: [u8; 4],
}

impl RawData {
    /// The frame's bytes, in the order they stand on the wire.
    pub open spec fn bytes(&self) -> Seq<u8> {
        self.wind_direction.bytes() + self.wind_speed_1_min.bytes()
            + self.wind_speed_5_min.bytes() + self.temperature.bytes()
            + self.rainfall_1_hour.bytes() + self.rainfall_1_day.bytes()
            + self.humidity.bytes() + self.air_pressure.bytes() + self.line_break@
    }

    /// Every field carries the tag of its position.
    pub open spec fn tags_valid(&self) -> bool {
        &&& self.wind_direction.tag == WIND_DIRECTION_TAG
        &&& self.wind_speed_1_min.tag == WIND_SPEED_1_MIN_TAG
        &&& self.wind_speed_5_min.tag == WIND_SPEED_5_MIN_TAG
        &&& self.temperature.tag == TEMPERATURE_TAG
        &&& self.rainfall_1_hour.tag == RAINFALL_1_HOUR_TAG
        &&& self.rainfall_1_day.tag == RAINFALL_1_DAY_TAG
        &&& self.humidity.tag == HUMIDITY_TAG
        &&& self.air_pressure.tag == AIR_PRESSURE_TAG
    }

    /// A frame is determined by its bytes: two frames with the same bytes are
    /// the same frame, so reading a frame back out of its bytes gives it again.
    pub proof fn lemma_bytes_determine_frame(a: RawData, b: RawData)
        requires
            a.bytes() == b.bytes(),
        ensures
            a == b,
    {
        broadcast use vstd::array::axiom_array_ext_equal;

        let x = a.bytes();
        let y = b.bytes();
        assert(x[0] == a.wind_direction.tag && y[0] == b.wind_direction.tag);
        assert(x[4] == a.wind_speed_1_min.tag && y[4] == b.wind_speed_1_min.tag);
        assert(x[8] == a.wind_speed_5_min.tag && y[8] == b.wind_speed_5_min.tag);
        assert(x[12] == a.temperature.tag && y[12] == b.temperature.tag);
        assert(x[16] == a.rainfall_1_hour.tag && y[16] == b.rainfall_1_hour.tag);
        assert(x[20] == a.rainfall_1_day.tag && y[20] == b.rainfall_1_day.tag);
        assert(x[24] == a.humidity.tag && y[24] == b.humidity.tag);
        assert(x[27] == a.air_pressure.tag && y[27] == b.air_pressure.tag);
        assert(a.wind_direction.data@ =~= x.subrange(1, 4));
        assert(b.wind_direction.data@ =~= y.subrange(1, 4));
        assert(a.wind_speed_1_min.data@ =~= x.subrange(5, 8));
        assert(b.wind_speed_1_min.data@ =~= y.subrange(5, 8));
        assert(a.wind_speed_5_min.data@ =~= x.subrange(9, 12));
        assert(b.wind_speed_5_min.data@ =~= y.subrange(9, 12));
        assert(a.temperature.data@ =~= x.subrange(13, 16));
        assert(b.temperature.data@ =~= y.subrange(13, 16));
        assert(a.rainfall_1_hour.data@ =~= x.subrange(17, 20));
        assert(b.rainfall_1_hour.data@ =~= y.subrange(17, 20));
        assert(a.rainfall_1_day.data@ =~= x.subrange(21, 24));
        assert(b.rainfall_1_day.data@ =~= y.subrange(21, 24));
        assert(a.humidity.data@ =~= x.subrange(25, 27));
        assert(b.humidity.data@ =~= y.subrange(25, 27));
        assert(a.air_pressure.data@ =~= x.subrange(28, 33));
        assert(b.air_pressure.data@ =~= y.subrange(28, 33));
        assert(a.line_break@ =~= x.subrange(33, 37));
        assert(b.line_break@ =~= y.subrange(33, 37));
        assert(a.wind_direction.data =~= b.wind_direction.data);
        assert(a.wind_speed_1_min.data =~= b.wind_speed_1_min.data);
        assert(a.wind_speed_5_min.data =~= b.wind_speed_5_min.data);
        assert(a.temperature.data =~= b.temperature.data);
        assert(a.rainfall_1_hour.data =~= b.rainfall_1_hour.data);
        assert(a.rainfall_1_day.data =~= b.rainfall_1_day.data);
        assert(a.humidity.data =~= b.humidity.data);
        assert(a.air_pressure.data =~= b.air_pressure.data);
        assert(a.line_break =~= b.line_break);
    }

    /// Reads a frame out of its 37 bytes.
    pub fn from_slice(bytes: &[u8; RAW_DATA_SIZE]) -> (r: RawData)
        ensures
            r.bytes() == bytes@,
    {
        let r = RawData {
            wind_direction: RawField { tag: bytes[0], data: [bytes[1], bytes[2], bytes[3]] },
            wind_speed_1_min: RawField { tag: bytes[4], data: [bytes[5], bytes[6], bytes[7]] },
            wind_speed_5_min: RawField { tag: bytes[8], data: [bytes[9], bytes[10], bytes[11]] },
            temperature: RawField { tag: bytes[12], data: [bytes[13], bytes[14], bytes[15]] },
            rainfall_1_hour: RawField { tag: bytes[16], data: [bytes[17], bytes[18], bytes[19]] },
            rainfall_1_day: RawField { tag: bytes[20], data: [bytes[21], bytes[22], bytes[23]] },
            humidity: RawField { tag: bytes[24], data: [bytes[25], bytes[26]] },
            air_pressure: RawField {
                tag: bytes[27],
                data: [bytes[28], bytes[29], bytes[30], bytes[31], bytes[32]],
            },
            line_break: [bytes[33], bytes[34], bytes[35], bytes[36]],
        };
        assert(r.bytes() =~= bytes@);
        r
    }
}

} // verus!
