//! Streaming UART frame parser and packet decoder for the CN105 protocol.
//!
//! A frame is `FC cmd 01 30 len payload[len] checksum`; the parser
//! assembles frames byte by byte out of a stream that may hold noise between
//! them, checks each frame's checksum and decodes its payload.

use vstd::prelude::*;
use vstd::slice::{slice_subrange, slice_to_vec};

use crate::checksum::{calculate_checksum, spec_checksum};
use crate::temperature::{decode_temperature, spec_decode_temperature};
use crate::types::{
    FanSpeed, HeatpumpSettings, Mode, Power, Stage, SubMode, VanePosition, WideVane,
};

verus! {

/// The largest frame the parser assembles, header and checksum included.
pub const MAX_DATA_BYTES: usize = 64;

#[derive(Debug, Clone, Copy, PartialEq, Eq, Structural)]
pub enum ParseError {
    ChecksumMismatch { expected: u8, actual: u8 },
    PacketTooShort { len: usize },
    UnknownCommand(u8),
    BufferOverflow,
}

/// An incoming decoded CN105 event. Temperatures are in half degrees
/// Celsius, runtime in minutes and energy in tenths of a kWh.
#[derive(Debug, Clone, PartialEq, Eq)]
pub enum Cn105Event {
    Connected { installer: bool },
    UpdateSuccess,
    Settings(HeatpumpSettings),
    RoomTemperature { room_temp: i64, outside_temp: Option<i64>, runtime_minutes: Option<u32> },
    Status {
        operating: bool,
        compressor_frequency: u8,
        input_power_w: Option<u16>,
        kwh_tenths: Option<u16>,
    },
    StagesAndModes { stage: Option<Stage>, sub_mode: Option<SubMode> },
    ErrorInfo { error_code: u8, sub_code: u8, is_error: bool },
    Raw { command: u8, payload: Vec<u8> },
}

/// Byte `i` of `p`, or `None` past its end.
pub open spec fn byte_at(p: Seq<u8>, i: int) -> Option<u8> {
    if 0 <= i < p.len() {
        Some(p[i])
    } else {
        None
    }
}

/// A settings reply (`62 02 ...`): power at 3, mode at 4 (values above 8
/// carry the i-see flag and are 8 more than the mode), Encoding A and B of
/// the setpoint at 5 and 11, fan at 6, vane at 7, wide vane at 10 and, on
/// some models, a target humidity of 1..=100 % at 12. Fields beyond the end
/// of the payload stay unknown.
pub open spec fn spec_decode_settings(p: Seq<u8>) -> HeatpumpSettings {
    let isee = p.len() > 4 && p[4] > 0x08;
    HeatpumpSettings {
        power: if p.len() > 3 {
            Power::decode(p[3])
        } else {
            None
        },
        mode: if p.len() > 4 {
            Mode::decode(
                if isee {
                    (p[4] - 0x08) as u8
                } else {
                    p[4]
                },
            )
        } else {
            None
        },
        target_temperature: if p.len() > 11 {
            Some(spec_decode_temperature(p[5], p[11], 10) as i64)
        } else {
            None
        },
        fan_speed: if p.len() > 6 {
            FanSpeed::decode(p[6])
        } else {
            None
        },
        vane: if p.len() > 7 {
            VanePosition::decode(p[7])
        } else {
            None
        },
        wide_vane: if p.len() > 10 {
            WideVane::decode(p[10])
        } else {
            None
        },
        isee,
        target_humidity: if p.len() > 12 && 0 < p[12] <= 100 {
            Some(p[12])
        } else {
            None
        },
        connected: true,
    }
}

/// A room temperature reply (`62 03 ...`): the room temperature in
/// Encoding B at 6 or, when that byte is zero, in Encoding A at 3 (offset
/// 10 °C), else zero; the outside temperature in Encoding B at 5 when that
/// byte is above 1; the runtime in minutes as a 24-bit big-endian number at
/// 11..=13.
pub open spec fn spec_decode_room_temp(p: Seq<u8>) -> Cn105Event {
    Cn105Event::RoomTemperature {
        room_temp: if p.len() > 6 && p[6] != 0 {
            (p[6] - 128) as i64
        } else if p.len() > 3 {
            (2 * (p[3] + 10)) as i64
        } else {
            0
        },
        outside_temp: if p.len() > 5 && p[5] > 1 {
            Some((p[5] - 128) as i64)
        } else {
            None
        },
        runtime_minutes: if p.len() > 13 {
            Some((p[11] * 65536 + p[12] * 256 + p[13]) as u32)
        } else {
            None
        },
    }
}

/// An operating status reply (`62 06 ...`): running when byte 4 is 1, the
/// compressor frequency at 3 (reported as zero when not running), the input
/// power in watts big-endian at 5..=6 and the energy in tenths of a kWh
/// big-endian at 7..=8.
pub open spec fn spec_decode_status(p: Seq<u8>) -> Cn105Event {
    let operating = byte_at(p, 4) == Some(1u8);
    Cn105Event::Status {
        operating,
        compressor_frequency: if operating {
            p[3]
        } else {
            0
        },
        input_power_w: if p.len() > 6 {
            Some((p[5] * 256 + p[6]) as u16)
        } else {
            None
        },
        kwh_tenths: if p.len() > 8 {
            Some((p[7] * 256 + p[8]) as u16)
        } else {
            None
        },
    }
}

/// A stage and sub-mode reply (`62 09 ...`): sub-mode at 3, stage at 4.
pub open spec fn spec_decode_stages_and_modes(p: Seq<u8>) -> Cn105Event {
    Cn105Event::StagesAndModes {
        stage: if p.len() > 4 {
            Stage::decode(p[4])
        } else {
            None
        },
        sub_mode: if p.len() > 3 {
            SubMode::decode(p[3])
        } else {
            None
        },
    }
}

/// An error info reply (`62 04 ...`): the error code in the low 7 bits of
/// byte 4 and a sub-code at 5, missing bytes counting as zero; an error is
/// reported when either is non-zero.
pub open spec fn spec_decode_error_info(p: Seq<u8>) -> Cn105Event {
    let error_code = (if p.len() > 4 {
        p[4]
    } else {
        0u8
    }) % 128;
    let sub_code = if p.len() > 5 {
        p[5]
    } else {
        0u8
    };
    Cn105Event::ErrorInfo {
        error_code: error_code as u8,
        sub_code,
        is_error: error_code != 0 || sub_code != 0,
    }
}

/// The event a frame with a known command and reply type decodes to;
/// `None` for everything that is passed on raw.
pub open spec fn known_event(command: u8, p: Seq<u8>) -> Option<Cn105Event> {
    if command == 0x7A {
        Some(Cn105Event::Connected { installer: false })
    } else if command == 0x7B {
        Some(Cn105Event::Connected { installer: true })
    } else if command == 0x61 {
        Some(Cn105Event::UpdateSuccess)
    } else if command == 0x62 && p.len() > 0 {
        if p[0] == 0x02 {
            Some(Cn105Event::Settings(spec_decode_settings(p)))
        } else if p[0] == 0x03 {
            Some(spec_decode_room_temp(p))
        } else if p[0] == 0x04 {
            Some(spec_decode_error_info(p))
        } else if p[0] == 0x06 {
            Some(spec_decode_status(p))
        } else if p[0] == 0x09 {
            Some(spec_decode_stages_and_modes(p))
        } else {
            None
        }
    } else {
        None
    }
}

/// `e` is what a frame with command `command` and payload `p` decodes to:
/// the known event, or the raw command and payload.
pub open spec fn decodes_to(e: Cn105Event, command: u8, p: Seq<u8>) -> bool {
    match known_event(command, p) {
        Some(k) => e == k,
        None => match e {
            Cn105Event::Raw { command: c, payload } => c == command && payload@ == p,
            _ => false,
        },
    }
}

/// The mode byte of a settings reply: a mode's own code means that mode
/// without i-see, and the code plus 8 means that mode with i-see; so Auto
/// (0x08) is Auto without i-see, and 0x10 is Auto with i-see. Any frame
/// that decodes as a settings reply carries that mode.
pub proof fn lemma_settings_mode_byte(p: Seq<u8>, m: Mode, e: Cn105Event)
    requires
        p.len() > 4,
    ensures
        p[4] == m.code() ==> spec_decode_settings(p).mode == Some(m) && !spec_decode_settings(
            p,
        ).isee,
        p[4] == m.code() + 8 ==> spec_decode_settings(p).mode == Some(m) && spec_decode_settings(
            p,
        ).isee,
        p[4] == 0x08 ==> spec_decode_settings(p).mode == Some(Mode::Auto) && !spec_decode_settings(
            p,
        ).isee,
        p[4] == 0x00 ==> spec_decode_settings(p).mode is None && !spec_decode_settings(p).isee,
        p[0] == 0x02 && decodes_to(e, 0x62, p) && p[4] == m.code() ==> e == Cn105Event::Settings(
            spec_decode_settings(p),
        ) && spec_decode_settings(p).mode == Some(m) && !spec_decode_settings(p).isee,
{
}

/// The parser's buffer overflows when a header declares a payload that
/// does not fit.
pub open spec fn header_overflows(q: Seq<u8>) -> bool {
    q.len() == 5 && q[4] + 6 > MAX_DATA_BYTES
}

/// `q` holds a whole frame: header, the declared payload and the checksum.
pub open spec fn frame_complete(q: Seq<u8>) -> bool {
    q.len() >= 6 && q.len() == q[4] + 6
}

/// A frame still being assembled: it starts with `FC`, and once its header
/// is in, the declared frame fits the buffer and is not complete yet.
pub open spec fn partial_frame(s: Seq<u8>) -> bool {
    &&& 1 <= s.len()
    &&& s[0] == 0xFC
    &&& s.len() >= 5 ==> s[4] + 6 <= MAX_DATA_BYTES && s.len() < s[4] + 6
}

/// The frame being assembled after one more byte: hunting for `FC` while
/// no frame is open; otherwise the byte is appended, and the frame is
/// dropped once complete or once its header overflows.
pub open spec fn next_pending(p: Option<Seq<u8>>, byte: u8) -> Option<Seq<u8>> {
    match p {
        None => if byte == 0xFC {
            Some(seq![0xFCu8])
        } else {
            None
        },
        Some(s) => {
            let q = s.push(byte);
            if header_overflows(q) || frame_complete(q) {
                None
            } else {
                Some(q)
            }
        },
    }
}

/// What feeding `byte` returns with `p` pending: an error for an
/// overflowing header, an error naming both checksums for a complete frame
/// whose checksum byte is wrong, the decoded event for a complete frame
/// whose checksum holds, and `Ok(None)` otherwise.
pub open spec fn feed_result(
    p: Option<Seq<u8>>,
    byte: u8,
    r: Result<Option<Cn105Event>, ParseError>,
) -> bool {
    match p {
        None => r == Ok::<Option<Cn105Event>, ParseError>(None),
        Some(s) => {
            let q = s.push(byte);
            if header_overflows(q) {
                r == Err::<Option<Cn105Event>, ParseError>(ParseError::BufferOverflow)
            } else if frame_complete(q) {
                let expected = spec_checksum(q.drop_last());
                if expected != byte {
                    r == Err::<Option<Cn105Event>, ParseError>(
                        ParseError::ChecksumMismatch { expected, actual: byte },
                    )
                } else {
                    match r {
                        Ok(Some(e)) => decodes_to(e, q[1], q.subrange(5, q.len() - 1)),
                        _ => false,
                    }
                }
            } else {
                r == Ok::<Option<Cn105Event>, ParseError>(None)
            }
        },
    }
}

/// The frame pending after feeding `bytes`, one at a time, from `p`.
pub open spec fn run_pending(p: Option<Seq<u8>>, bytes: Seq<u8>) -> Option<Seq<u8>>
    decreases bytes.len(),
{
    if bytes.len() == 0 {
        p
    } else {
        next_pending(run_pending(p, bytes.drop_last()), bytes.last())
    }
}

/// A whole, valid frame: `FC`, a header declaring the payload length, the
/// payload, and a checksum byte that matches; it fits the parser's buffer.
pub open spec fn valid_frame(f: Seq<u8>) -> bool {
    &&& 6 <= f.len() <= MAX_DATA_BYTES
    &&& f[0] == 0xFC
    &&& f.len() == f[4] + 6
    &&& f.last() == spec_checksum(f.drop_last())
}

/// A valid frame fed byte by byte to an idle parser is assembled without
/// error: every proper prefix stays pending (so each of those feeds returns
/// `Ok(None)`), and the last byte yields exactly the frame's decoded event
/// and leaves the parser idle again.
pub proof fn lemma_valid_frame_is_decoded(f: Seq<u8>)
    requires
        valid_frame(f),
    ensures
        forall|k: int| 1 <= k < f.len() ==> #[trigger] run_pending(None, f.take(k)) == Some(f.take(k)),
        forall|k: int, r: Result<Option<Cn105Event>, ParseError>|
            0 <= k < f.len() - 1 ==> (#[trigger] feed_result(run_pending(None, f.take(k)), f[k], r)
                <==> r == Ok::<Option<Cn105Event>, ParseError>(None)),
        run_pending(None, f) is None,
        forall|r: Result<Option<Cn105Event>, ParseError>|
            #[trigger] feed_result(run_pending(None, f.drop_last()), f.last(), r) <==> (
            match r {
                Ok(Some(e)) => decodes_to(e, f[1], f.subrange(5, f.len() - 1)),
                _ => false,
            }),
{
    assert forall|k: int| 1 <= k < f.len() implies #[trigger] run_pending(None, f.take(k)) == Some(
        f.take(k),
    ) by {
        lemma_prefix_pending(f, k);
    }
    assert(run_pending(None, f.take(0)) is None) by {
        assert(f.take(0).len() == 0);
    }
    assert forall|k: int, r: Result<Option<Cn105Event>, ParseError>|
        0 <= k < f.len() - 1 implies (#[trigger] feed_result(run_pending(None, f.take(k)), f[k], r)
        <==> r == Ok::<Option<Cn105Event>, ParseError>(None)) by {
        if k >= 1 {
            lemma_prefix_pending(f, k);
            assert(f.take(k).push(f[k]) =~= f.take(k + 1));
        }
    }
    lemma_prefix_pending(f, f.len() - 1);
    assert(f.take(f.len() - 1) =~= f.drop_last());
    assert(f.drop_last().push(f.last()) =~= f);
    assert(f.take(f.len() as int) =~= f);
    assert(f.take(f.len() as int).drop_last() =~= f.drop_last());
}

proof fn lemma_prefix_pending(f: Seq<u8>, k: int)
    requires
        valid_frame(f),
        1 <= k < f.len(),
    ensures
        run_pending(None, f.take(k)) == Some(f.take(k)),
    decreases k,
{
    if k == 1 {
        assert(f.take(1).drop_last() =~= f.take(0));
        assert(f.take(0).len() == 0);
        assert(f.take(1) =~= seq![0xFCu8]);
    } else {
        lemma_prefix_pending(f, k - 1);
        assert(f.take(k).drop_last() =~= f.take(k - 1));
        assert(f.take(k - 1).push(f[k - 1]) =~= f.take(k));
    }
}

/// Noise is skipped: while no frame is open, any byte other than `FC`
/// leaves the parser idle and yields `Ok(None)`.
pub proof fn lemma_noise_is_skipped(byte: u8, r: Result<Option<Cn105Event>, ParseError>)
    requires
        byte != 0xFC,
    ensures
        next_pending(None, byte) is None,
        feed_result(None, byte, r) <==> r == Ok::<Option<Cn105Event>, ParseError>(None),
{
}

/// Streaming byte-by-byte parser that reconstructs frames from the UART.
#[derive(Debug)]
pub struct FrameParser {
    buffer: [u8; MAX_DATA_BYTES],
    found_start: bool,
    frame_complete: bool,
    bytes_read: usize,
    data_length: isize,
    command: u8,
    checksum_byte: u8,
}

impl FrameParser {
    /// The frame being assembled, or `None` while hunting for a start byte.
    pub closed spec fn pending(&self) -> Option<Seq<u8>> {
        if self.found_start {
            Some(self.buffer@.take(self.bytes_read as int))
        } else {
            None
        }
    }

    pub closed spec fn wf(&self) -> bool {
        if self.found_start {
            &&& 1 <= self.bytes_read <= 63
            &&& partial_frame(self.buffer@.take(self.bytes_read as int))
            &&& self.bytes_read <= 4 ==> self.data_length == -1
            &&& self.bytes_read >= 5 ==> {
                &&& self.data_length == self.buffer@[4] as isize
                &&& self.command == self.buffer@[1]
            }
        } else {
            self.bytes_read == 0 && self.data_length == -1
        }
    }

    /// A well-formed parser only ever holds a partial frame.
    pub proof fn lemma_pending_is_partial(&self)
        requires
            self.wf(),
        ensures
            self.pending() matches Some(s) ==> partial_frame(s),
    {
    }

    pub fn new() -> (p: FrameParser)
        ensures
            p.wf(),
            p.pending() is None,
    {
        FrameParser {
            buffer: [0u8; MAX_DATA_BYTES],
            found_start: false,
            frame_complete: false,
            bytes_read: 0,
            data_length: -1,
            command: 0,
            checksum_byte: 0,
        }
    }

    /// Resets the internal state to prepare for the next frame.
    pub fn reset(&mut self)
        ensures
            final(self).wf(),
            final(self).pending() is None,
    {
        self.found_start = false;
        self.frame_complete = false;
        self.bytes_read = 0;
        self.data_length = -1;
        self.command = 0;
        self.checksum_byte = 0;
    }

    /// Feeds a single byte into the parser; returns the event once a
    /// complete frame with a valid checksum has been assembled.
    pub fn feed(&mut self, byte: u8) -> (r: Result<Option<Cn105Event>, ParseError>)
        requires
            old(self).wf(),
        ensures
            final(self).wf(),
            final(self).pending() == next_pending(old(self).pending(), byte),
            feed_result(old(self).pending(), byte, r),
    {
        if !self.found_start {
            if byte == 0xFC {
                self.found_start = true;
                self.bytes_read = 0;
                self.buffer[self.bytes_read] = byte;
                self.bytes_read += 1;
                assert(self.buffer@.take(1) =~= seq![0xFCu8]);
            }
            return Ok(None);
        }
        let ghost s = self.buffer@.take(self.bytes_read as int);
        if self.bytes_read >= MAX_DATA_BYTES {
            self.reset();
            return Err(ParseError::BufferOverflow);
        }
        self.buffer[self.bytes_read] = byte;
        let ghost q = s.push(byte);
        assert(self.buffer@.take(self.bytes_read + 1) =~= q);

        // Byte 4 declares the payload length.
        if self.bytes_read == 4 {
            self.data_length = byte as isize;
            self.command = self.buffer[1];
            if (self.data_length as usize + 6) > MAX_DATA_BYTES {
                self.reset();
                return Err(ParseError::BufferOverflow);
            }
        }

        // The frame is complete once its checksum byte, at index
        // 5 + data_length, has arrived.
        if self.data_length >= 0 && self.bytes_read == (self.data_length as usize + 5) {
            self.checksum_byte = byte;
            self.frame_complete = true;
            let body = slice_subrange(self.buffer.as_slice(), 0, self.bytes_read);
            assert(body@ =~= q.drop_last());
            let computed_checksum = calculate_checksum(body);
            if computed_checksum != self.checksum_byte {
                let err = ParseError::ChecksumMismatch {
                    expected: computed_checksum,
                    actual: self.checksum_byte,
                };
                self.reset();
                return Err(err);
            }
            let payload = slice_subrange(self.buffer.as_slice(), 5, self.bytes_read);
            assert(payload@ =~= q.subrange(5, q.len() - 1));
            let event = Self::decode_frame(self.command, payload);
            self.reset();
            return Ok(Some(event));
        } else {
            self.bytes_read += 1;
        }
        Ok(None)
    }

    /// Decodes a command and its payload bytes into an event.
    pub fn decode_frame(command: u8, payload: &[u8]) -> (e: Cn105Event)
        ensures
            decodes_to(e, command, payload@),
    {
        match command {
            0x7A => Cn105Event::Connected { installer: false },
            0x7B => Cn105Event::Connected { installer: true },
            0x61 => Cn105Event::UpdateSuccess,
            0x62 => {
                if payload.len() == 0 {
                    return Cn105Event::Raw { command, payload: slice_to_vec(payload) };
                }
                let sub_type = payload[0];
                match sub_type {
                    0x02 => Cn105Event::Settings(Self::decode_settings(payload)),
                    0x03 => Self::decode_room_temp(payload),
                    0x04 => Self::decode_error_info(payload),
                    0x06 => Self::decode_status(payload),
                    0x09 => Self::decode_stages_and_modes(payload),
                    _ => Cn105Event::Raw { command, payload: slice_to_vec(payload) },
                }
            },
            _ => Cn105Event::Raw { command, payload: slice_to_vec(payload) },
        }
    }

    fn decode_settings(payload: &[u8]) -> (s: HeatpumpSettings)
        ensures
            s == spec_decode_settings(payload@),
    {
        let mut settings = HeatpumpSettings::default();
        settings.connected = true;
        if payload.len() > 3 {
            settings.power = Power::from_byte(payload[3]);
        }
        if payload.len() > 4 {
            let isee = payload[4] > 0x08;
            settings.isee = isee;
            let mode_byte = if isee {
                payload[4] - 0x08
            } else {
                payload[4]
            };
            settings.mode = Mode::from_byte(mode_byte);
        }
        if payload.len() > 11 {
            let enc_a = payload[5];
            let enc_b = payload[11];
            settings.target_temperature = Some(decode_temperature(enc_a, enc_b, 10));
        }
        if payload.len() > 6 {
            settings.fan_speed = FanSpeed::from_byte(payload[6]);
        }
        if payload.len() > 7 {
            settings.vane = VanePosition::from_byte(payload[7]);
        }
        if payload.len() > 10 {
            settings.wide_vane = WideVane::from_byte(payload[10]);
        }
        if payload.len() > 12 && payload[12] > 0 && payload[12] <= 100 {
            settings.target_humidity = Some(payload[12]);
        }
        settings
    }

    fn decode_room_temp(payload: &[u8]) -> (e: Cn105Event)
        ensures
            e == spec_decode_room_temp(payload@),
    {
        let room_temp: i64 = if payload.len() > 6 && payload[6] != 0x00 {
            payload[6] as i64 - 128
        } else if payload.len() > 3 {
            2 * (payload[3] as i64 + 10)
        } else {
            0
        };
        let outside_temp: Option<i64> = if payload.len() > 5 && payload[5] > 1 {
            Some(payload[5] as i64 - 128)
        } else {
            None
        };
        let runtime_minutes: Option<u32> = if payload.len() > 13 {
            let hi = payload[11] as u32;
            let mid = payload[12] as u32;
            let lo = payload[13] as u32;
            let mins = (hi << 16) | (mid << 8) | lo;
            assert(mins == hi * 65536 + mid * 256 + lo) by (bit_vector)
                requires
                    hi < 256,
                    mid < 256,
                    lo < 256,
                    mins == (hi << 16) | (mid << 8) | lo,
            ;
            Some(mins)
        } else {
            None
        };
        Cn105Event::RoomTemperature { room_temp, outside_temp, runtime_minutes }
    }

    fn decode_status(payload: &[u8]) -> (e: Cn105Event)
        ensures
            e == spec_decode_status(payload@),
    {
        let operating = payload.len() > 4 && payload[4] == 1;
        let compressor_frequency: u8 = if operating {
            payload[3]
        } else {
            0
        };
        let input_power_w: Option<u16> = if payload.len() > 6 {
            Some(be_u16(payload[5], payload[6]))
        } else {
            None
        };
        let kwh_tenths: Option<u16> = if payload.len() > 8 {
            Some(be_u16(payload[7], payload[8]))
        } else {
            None
        };
        Cn105Event::Status { operating, compressor_frequency, input_power_w, kwh_tenths }
    }

    fn decode_stages_and_modes(payload: &[u8]) -> (e: Cn105Event)
        ensures
            e == spec_decode_stages_and_modes(payload@),
    {
        let sub_mode = if payload.len() > 3 {
            SubMode::from_byte(payload[3])
        } else {
            None
        };
        let stage = if payload.len() > 4 {
            Stage::from_byte(payload[4])
        } else {
            None
        };
        Cn105Event::StagesAndModes { stage, sub_mode }
    }

    fn decode_error_info(payload: &[u8]) -> (e: Cn105Event)
        ensures
            e == spec_decode_error_info(payload@),
    {
        let error_raw: u8 = if payload.len() > 4 {
            payload[4]
        } else {
            0
        };
        let sub_code: u8 = if payload.len() > 5 {
            payload[5]
        } else {
            0
        };
        let error_code = error_raw & 0x7F;
        assert(error_code == error_raw % 128) by (bit_vector)
            requires
                error_code == error_raw & 0x7F,
        ;
        let is_error = error_code != 0 || sub_code != 0;
        Cn105Event::ErrorInfo { error_code, sub_code, is_error }
    }
}

/// A big-endian 16-bit number.
fn be_u16(hi: u8, lo: u8) -> (v: u16)
    ensures
        v == hi * 256 + lo,
{
    let v = ((hi as u16) << 8) | (lo as u16);
    assert(v == hi * 256 + lo) by (bit_vector)
        requires
            v == ((hi as u16) << 8) | (lo as u16),
    ;
    v
}

impl Default for FrameParser {
    fn default() -> (p: FrameParser)
        ensures
            p.wf(),
            p.pending() is None,
    {
        FrameParser::new()
    }
}

} // verus!
