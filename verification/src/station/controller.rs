//! Finding frames in the station's serial stream. The serial port and the
//! timer are driven from outside; `FrameReader` takes what each read or wait
//! gave and says what to do next, until it hands out a frame or an error.
use vstd::prelude::*;

use crate::station::data::{lemma_tagged_frames_have_no_tag_error, spec_data_from_raw, Data, ParseError};
use crate::station::raw::{
    RawData, WrongFieldTagError, AIR_PRESSURE_TAG, HUMIDITY_TAG, RAINFALL_1_DAY_TAG, RAINFALL_1_HOUR_TAG,
    RAW_DATA_END_BYTE, RAW_DATA_SIZE, TEMPERATURE_TAG, WIND_DIRECTION_TAG, WIND_SPEED_1_MIN_TAG,
    WIND_SPEED_5_MIN_TAG,
};

verus! {

/// Baud rate of the station's serial line.
pub const BAUD_RATE: u32 = 9600;

/// Number of frame bytes that follow the first one.
pub const FRAME_BODY_SIZE: usize = 36;

/// Number of bytes after the end byte that are skipped: checksum and carriage return.
pub const TRAILER_SIZE: usize = 3;

/// Milliseconds to wait after a break condition while reading the frame body.
pub const BODY_BREAK_DELAY_MS: u64 = 200;

/// Milliseconds to wait after a break condition while reading a single byte.
pub const BYTE_BREAK_DELAY_MS: u64 = 100;

/// What the serial port reports when a read goes wrong.
#[derive(Debug, Clone, Copy, PartialEq, Eq)]
pub enum SerialError {
    /// The receive buffer overflowed.
    Overrun,
    /// A break condition was received.
    Break,
    /// A parity mismatch.
    Parity,
    /// A character without a valid stop bit.
    Framing,
}

/// Why reading the station failed.
#[derive(Debug, Clone, Copy, PartialEq, Eq)]
pub enum Error {
    /// The serial port failed.
    Serial(SerialError),
    /// A frame was read but did not decode.
    Parse(ParseError),
}

/// Where a paused reader goes on once the wait is over.
#[derive(Debug, Clone, Copy, PartialEq, Eq)]
pub enum Resume {
    /// Looking for the first byte of a frame.
    SeekStart,
    /// Reading the frame body.
    Body,
    /// Reading the byte after the frame.
    EndByte,
}

/// The reader's position in the protocol.
#[derive(Debug, Clone, Copy, PartialEq, Eq)]
pub enum Phase {
    /// Reading single bytes until the first byte of a frame comes.
    SeekStart,
    /// Reading the rest of the frame.
    AwaitBody,
    /// Reading the byte that follows the frame.
    AwaitEndByte,
    /// Skipping the checksum and carriage return.
    AwaitTrailer,
    /// Waiting after a break condition, then going on as given.
    Paused(Resume),
    /// A frame with all its tags was read.
    Complete,
    /// The serial port failed.
    Failed(SerialError),
}

/// What the driver of the reader is to do next.
#[derive(Debug, Clone, Copy, PartialEq, Eq)]
pub enum ReadAction {
    /// Read one byte and report it with `ReadEvent::Byte`.
    ReadByte,
    /// Read `FRAME_BODY_SIZE` bytes into a copy of `FrameReader::body` and
    /// report them with `ReadEvent::Body`.
    ReadBody,
    /// Read `TRAILER_SIZE` bytes, drop them whatever happens, and report
    /// `ReadEvent::TrailerSkipped`.
    SkipTrailer,
    /// Wait this many milliseconds and report `ReadEvent::Slept`.
    Sleep(u64),
    /// Stop: the frame that was read, or the serial error.
    Finished(Result<RawData, SerialError>),
}

/// What the driver reports back.
#[derive(Debug, Clone, Copy, PartialEq, Eq)]
pub enum ReadEvent {
    /// The outcome of a one-byte read.
    Byte(Result<u8, SerialError>),
    /// The body buffer after the read, and the outcome of the read.
    Body([u8; FRAME_BODY_SIZE], Result<(), SerialError>),
    /// The trailer was read and dropped.
    TrailerSkipped,
    /// The wait is over.
    Slept,
}

/// The tags stand at their positions in the frame's bytes.
pub open spec fn frame_tags_valid(frame: Seq<u8>) -> bool {
    &&& frame[0] == WIND_DIRECTION_TAG
    &&& frame[4] == WIND_SPEED_1_MIN_TAG
    &&& frame[8] == WIND_SPEED_5_MIN_TAG
    &&& frame[12] == TEMPERATURE_TAG
    &&& frame[16] == RAINFALL_1_HOUR_TAG
    &&& frame[20] == RAINFALL_1_DAY_TAG
    &&& frame[24] == HUMIDITY_TAG
    &&& frame[27] == AIR_PRESSURE_TAG
}

/// The byte that a one-byte read gives: after an overrun nothing was
/// written into the zeroed buffer, so the byte is 0.
pub open spec fn byte_of(res: Result<u8, SerialError>) -> u8 {
    match res {
        Ok(b) => b,
        Err(_) => 0,
    }
}

/// A read that the reader goes on after: a success or an overrun.
pub open spec fn read_went_on<T>(res: Result<T, SerialError>) -> bool {
    res is Ok || res == Err::<T, SerialError>(SerialError::Overrun)
}

/// The phase and frame bytes after one event.
pub open spec fn spec_transition(phase: Phase, frame: Seq<u8>, event: ReadEvent) -> (Phase, Seq<u8>) {
    match (phase, event) {
        (Phase::SeekStart, ReadEvent::Byte(res)) => {
            if read_went_on(res) {
                let b = byte_of(res);
                (if b == WIND_DIRECTION_TAG { Phase::AwaitBody } else { Phase::SeekStart }, frame.update(0, b))
            } else if res == Err::<u8, SerialError>(SerialError::Break) {
                (Phase::Paused(Resume::SeekStart), frame)
            } else {
                (Phase::Failed(res->Err_0), frame)
            }
        },
        (Phase::AwaitBody, ReadEvent::Body(bytes, res)) => {
            let frame2 = frame.subrange(0, 1) + bytes@;
            if read_went_on(res) {
                (Phase::AwaitEndByte, frame2)
            } else if res == Err::<(), SerialError>(SerialError::Break) {
                (Phase::Paused(Resume::Body), frame2)
            } else {
                (Phase::Failed(res->Err_0), frame2)
            }
        },
        (Phase::AwaitEndByte, ReadEvent::Byte(res)) => {
            if read_went_on(res) {
                let b = byte_of(res);
                if b == RAW_DATA_END_BYTE {
                    (Phase::AwaitTrailer, frame)
                } else if b == WIND_DIRECTION_TAG {
                    (Phase::AwaitBody, frame)
                } else {
                    (Phase::SeekStart, frame)
                }
            } else if res == Err::<u8, SerialError>(SerialError::Break) {
                (Phase::Paused(Resume::EndByte), frame)
            } else {
                (Phase::Failed(res->Err_0), frame)
            }
        },
        (Phase::AwaitTrailer, ReadEvent::TrailerSkipped) => {
            if frame_tags_valid(frame) {
                (Phase::Complete, frame)
            } else {
                (Phase::SeekStart, frame)
            }
        },
        (Phase::Paused(Resume::SeekStart), ReadEvent::Slept) => (Phase::SeekStart, frame),
        (Phase::Paused(Resume::Body), ReadEvent::Slept) => (Phase::AwaitBody, frame),
        (Phase::Paused(Resume::EndByte), ReadEvent::Slept) => (Phase::AwaitEndByte, frame),
        // Any other event is not the one the reader waits for: it changes nothing.
        _ => (phase, frame),
    }
}

/// The action that a phase asks for.
pub open spec fn is_action_for(phase: Phase, frame: Seq<u8>, a: ReadAction) -> bool {
    match phase {
        Phase::SeekStart => a == ReadAction::ReadByte,
        Phase::AwaitBody => a == ReadAction::ReadBody,
        Phase::AwaitEndByte => a == ReadAction::ReadByte,
        Phase::AwaitTrailer => a == ReadAction::SkipTrailer,
        Phase::Paused(Resume::Body) => a == ReadAction::Sleep(BODY_BREAK_DELAY_MS),
        Phase::Paused(_) => a == ReadAction::Sleep(BYTE_BREAK_DELAY_MS),
        Phase::Complete => a matches ReadAction::Finished(Ok(d)) && d.bytes() == frame,
        Phase::Failed(e) => a == ReadAction::Finished(Err::<RawData, SerialError>(e)),
    }
}

/// What holds in every state the reader reaches: the frame has its size;
/// once the first byte was found it is the wind direction tag; and a
/// complete frame carries all its tags.
pub open spec fn reader_inv(phase: Phase, frame: Seq<u8>) -> bool {
    &&& frame.len() == RAW_DATA_SIZE
    &&& (match phase {
        Phase::SeekStart | Phase::Paused(Resume::SeekStart) | Phase::Failed(_) => true,
        _ => frame[0] == WIND_DIRECTION_TAG,
    })
    &&& (phase == Phase::Complete ==> frame_tags_valid(frame))
}

/// Every step keeps the reader's invariant, so a frame that the reader hands
/// out always has all eight tags at their places.
pub proof fn lemma_transition_keeps_inv(phase: Phase, frame: Seq<u8>, event: ReadEvent)
    requires
        reader_inv(phase, frame),
    ensures
        reader_inv(spec_transition(phase, frame, event).0, spec_transition(phase, frame, event).1),
{
}

/// An overrun in the body read loses no frame: the reader keeps the bytes
/// that the read gave and goes on to the end byte, just as after a read
/// without error. After the end byte and the trailer it hands the frame out.
pub proof fn lemma_body_overrun_goes_on(frame: Seq<u8>, bytes: [u8; FRAME_BODY_SIZE])
    requires
        reader_inv(Phase::AwaitBody, frame),
    ensures
        spec_transition(Phase::AwaitBody, frame, ReadEvent::Body(bytes, Err(SerialError::Overrun)))
            == spec_transition(Phase::AwaitBody, frame, ReadEvent::Body(bytes, Ok(()))),
        spec_transition(Phase::AwaitBody, frame, ReadEvent::Body(bytes, Err(SerialError::Overrun)))
            == (Phase::AwaitEndByte, seq![frame[0]] + bytes@),
        ({
            let f = seq![frame[0]] + bytes@;
            let after_end = spec_transition(Phase::AwaitEndByte, f, ReadEvent::Byte(Ok(RAW_DATA_END_BYTE)));
            &&& after_end == (Phase::AwaitTrailer, f)
            &&& frame_tags_valid(f) ==> spec_transition(Phase::AwaitTrailer, f, ReadEvent::TrailerSkipped)
                == (Phase::Complete, f)
        }),
{
    assert(frame.subrange(0, 1) =~= seq![frame[0]]);
}

/// A reader that has finished stays finished, whatever it is told.
pub proof fn lemma_finished_reader_stays(phase: Phase, frame: Seq<u8>, event: ReadEvent)
    requires
        phase == Phase::Complete || phase is Failed,
    ensures
        spec_transition(phase, frame, event) == (phase, frame),
{
}

/// The reader gives up only on a parity or framing error: overruns are read
/// past and break conditions are waited out.
pub proof fn lemma_reader_fails_only_on_parity_or_framing(phase: Phase, frame: Seq<u8>, event: ReadEvent)
    requires
        !(phase is Failed),
    ensures
        spec_transition(phase, frame, event).0 matches Phase::Failed(e) ==> e == SerialError::Parity
            || e == SerialError::Framing,
{
}

/// A frame's bytes carry the tags exactly when its fields do.
pub proof fn lemma_frame_tags(d: RawData)
    ensures
        frame_tags_valid(d.bytes()) <==> d.tags_valid(),
{
    let b = d.bytes();
    assert(b[0] == d.wind_direction.tag);
    assert(b[4] == d.wind_speed_1_min.tag);
    assert(b[8] == d.wind_speed_5_min.tag);
    assert(b[12] == d.temperature.tag);
    assert(b[16] == d.rainfall_1_hour.tag);
    assert(b[20] == d.rainfall_1_day.tag);
    assert(b[24] == d.humidity.tag);
    assert(b[27] == d.air_pressure.tag);
}

/// The decisions of reading one frame from the station.
pub struct FrameReader {
    phase: Phase,
    buf: [u8; RAW_DATA_SIZE],
}

impl FrameReader {
    /// The reader's position in the protocol.
    pub closed spec fn phase(&self) -> Phase {
        self.phase
    }

    /// The frame bytes read so far.
    pub closed spec fn frame(&self) -> Seq<u8> {
        self.buf@
    }

    #[verifier::type_invariant]
    closed spec fn inv(&self) -> bool {
        reader_inv(self.phase, self.buf@)
    }

    /// A reader that starts by looking for the first byte of a frame.
    pub fn new() -> (r: FrameReader)
        ensures
            r.phase() == Phase::SeekStart,
            r.frame() == Seq::new(RAW_DATA_SIZE as nat, |i: int| 0u8),
            reader_inv(r.phase(), r.frame()),
    {
        let r = FrameReader { phase: Phase::SeekStart, buf: [0u8; RAW_DATA_SIZE] };
        assert(r.buf@ =~= Seq::new(RAW_DATA_SIZE as nat, |i: int| 0u8));
        r
    }

    /// The bytes after the first one, to be handed to a body read.
    pub fn body(&self) -> (r: [u8; FRAME_BODY_SIZE])
        ensures
            r@ == self.frame().subrange(1, RAW_DATA_SIZE as int),
    {
        proof {
            use_type_invariant(self);
        }
        let mut r = [0u8; FRAME_BODY_SIZE];
        let mut i: usize = 0;
        while i < FRAME_BODY_SIZE
            invariant
                i <= FRAME_BODY_SIZE,
                self.buf@.len() == RAW_DATA_SIZE,
                r@.len() == FRAME_BODY_SIZE,
                forall|j: int| 0 <= j < i ==> r@[j] == self.buf@[j + 1],
            decreases FRAME_BODY_SIZE - i,
        {
            r[i] = self.buf[i + 1];
            i = i + 1;
        }
        assert(r@ =~= self.buf@.subrange(1, RAW_DATA_SIZE as int));
        r
    }

    /// The action that the reader's phase asks for.
    pub fn action(&self) -> (r: ReadAction)
        ensures
            is_action_for(self.phase(), self.frame(), r),
            reader_inv(self.phase(), self.frame()),
            r matches ReadAction::Finished(Ok(d)) ==> d.tags_valid(),
    {
        proof {
            use_type_invariant(self);
        }
        match self.phase {
            Phase::SeekStart => ReadAction::ReadByte,
            Phase::AwaitBody => ReadAction::ReadBody,
            Phase::AwaitEndByte => ReadAction::ReadByte,
            Phase::AwaitTrailer => ReadAction::SkipTrailer,
            Phase::Paused(Resume::Body) => ReadAction::Sleep(BODY_BREAK_DELAY_MS),
            Phase::Paused(_) => ReadAction::Sleep(BYTE_BREAK_DELAY_MS),
            Phase::Complete => {
                let d = RawData::from_slice(&self.buf);
                proof {
                    lemma_frame_tags(d);
                }
                ReadAction::Finished(Ok(d))
            },
            Phase::Failed(e) => ReadAction::Finished(Err(e)),
        }
    }

    /// Takes what the last action gave and returns the next action.
    pub fn step(&mut self, event: ReadEvent) -> (r: ReadAction)
        ensures
            (final(self).phase(), final(self).frame()) == spec_transition(
                old(self).phase(),
                old(self).frame(),
                event,
            ),
            is_action_for(final(self).phase(), final(self).frame(), r),
            reader_inv(final(self).phase(), final(self).frame()),
            r matches ReadAction::Finished(Ok(d)) ==> d.tags_valid(),
            r matches ReadAction::Finished(Ok(d)) ==> spec_read_result(Ok(d)) != Err::<Data, Error>(
                Error::Parse(ParseError::WrongFieldTag(WrongFieldTagError)),
            ),
    {
        proof {
            use_type_invariant(&*self);
        }
        match (self.phase, event) {
            (Phase::SeekStart, ReadEvent::Byte(res)) => {
                match res {
                    Ok(b) => {
                        self.buf[0] = b;
                        if b == WIND_DIRECTION_TAG {
                            self.phase = Phase::AwaitBody;
                        }
                    },
                    // Nothing was written into the zeroed one-byte buffer.
                    Err(SerialError::Overrun) => {
                        self.buf[0] = 0;
                    },
                    Err(SerialError::Break) => {
                        self.phase = Phase::Paused(Resume::SeekStart);
                    },
                    Err(e) => {
                        self.phase = Phase::Failed(e);
                    },
                }
            },
            (Phase::AwaitBody, ReadEvent::Body(bytes, res)) => {
                let ghost first = self.buf@.subrange(0, 1);
                let mut i: usize = 0;
                while i < FRAME_BODY_SIZE
                    invariant
                        i <= FRAME_BODY_SIZE,
                        self.buf@.len() == RAW_DATA_SIZE,
                        self.buf@.subrange(0, 1) == first,
                        self.phase == old(self).phase,
                        self.phase == Phase::AwaitBody,
                        self.buf@[0] == WIND_DIRECTION_TAG,
                        forall|j: int| 0 <= j < i ==> self.buf@[j + 1] == bytes@[j],
                    decreases FRAME_BODY_SIZE - i,
                {
                    self.buf[i + 1] = bytes[i];
                    i = i + 1;
                    assert(self.buf@.subrange(0, 1) =~= first);
                }
                assert(self.buf@ =~= first + bytes@);
                match res {
                    Ok(()) | Err(SerialError::Overrun) => {
                        self.phase = Phase::AwaitEndByte;
                    },
                    Err(SerialError::Break) => {
                        self.phase = Phase::Paused(Resume::Body);
                    },
                    Err(e) => {
                        self.phase = Phase::Failed(e);
                    },
                }
            },
            (Phase::AwaitEndByte, ReadEvent::Byte(res)) => {
                let b = match res {
                    Ok(b) => b,
                    // Nothing was written into the zeroed one-byte buffer.
                    Err(SerialError::Overrun) => 0,
                    Err(SerialError::Break) => {
                        self.phase = Phase::Paused(Resume::EndByte);
                        return self.action();
                    },
                    Err(e) => {
                        self.phase = Phase::Failed(e);
                        return self.action();
                    },
                };
                if b == RAW_DATA_END_BYTE {
                    self.phase = Phase::AwaitTrailer;
                } else if b == WIND_DIRECTION_TAG {
                    // New data: it overwrites the frame read so far.
                    self.phase = Phase::AwaitBody;
                } else {
                    self.phase = Phase::SeekStart;
                }
            },
            (Phase::AwaitTrailer, ReadEvent::TrailerSkipped) => {
                let data = RawData::from_slice(&self.buf);
                proof {
                    lemma_frame_tags(data);
                }
                if data.wind_speed_1_min.tag == WIND_SPEED_1_MIN_TAG
                    && data.wind_speed_5_min.tag == WIND_SPEED_5_MIN_TAG
                    && data.temperature.tag == TEMPERATURE_TAG
                    && data.rainfall_1_hour.tag == RAINFALL_1_HOUR_TAG
                    && data.rainfall_1_day.tag == RAINFALL_1_DAY_TAG
                    && data.humidity.tag == HUMIDITY_TAG
                    && data.air_pressure.tag == AIR_PRESSURE_TAG
                {
                    self.phase = Phase::Complete;
                } else {
                    self.phase = Phase::SeekStart;
                }
            },
            (Phase::Paused(Resume::SeekStart), ReadEvent::Slept) => {
                self.phase = Phase::SeekStart;
            },
            (Phase::Paused(Resume::Body), ReadEvent::Slept) => {
                self.phase = Phase::AwaitBody;
            },
            (Phase::Paused(Resume::EndByte), ReadEvent::Slept) => {
                self.phase = Phase::AwaitEndByte;
            },
            _ => {},
        }
        let r = self.action();
        proof {
            use_type_invariant(&*self);
            if let ReadAction::Finished(Ok(d)) = r {
                lemma_frame_tags(d);
                lemma_tagged_frames_have_no_tag_error(d);
            }
        }
        r
    }
}

/// What reading the station gives: the serial error, or the decoded frame.
pub open spec fn spec_read_result(frame: Result<RawData, SerialError>) -> Result<Data, Error> {
    match frame {
        Err(e) => Err(Error::Serial(e)),
        Ok(raw) => match spec_data_from_raw(raw) {
            Ok(data) => Ok(data),
            Err(e) => Err(Error::Parse(e)),
        },
    }
}

/// Turns what the reader finished with into the station's readings.
pub fn read_result(frame: Result<RawData, SerialError>) -> (r: Result<Data, Error>)
    ensures
        r == spec_read_result(frame),
{
    match frame {
        Err(e) => Err(Error::Serial(e)),
        Ok(raw) => match Data::try_from(raw) {
            Ok(data) => Ok(data),
            Err(e) => Err(Error::Parse(e)),
        },
    }
}

} // verus!
