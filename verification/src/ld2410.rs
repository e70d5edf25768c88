//! HLK-LD2410 24 GHz mmWave presence radar: frame assembly and decoding.
//!
//! A report frame is `F4 F3 F2 F1`, a little-endian length, the data type,
//! the target state at byte 7, the moving target's distance (8..=9) and
//! energy (10), the stationary target's distance (11..=12) and energy (13),
//! the detection distance (14..=15), and the footer `F8 F7 F6 F5`.

use vstd::prelude::*;

verus! {

#[derive(Debug, Clone, Copy, PartialEq, Eq, Structural)]
pub enum TargetType {
    NoTarget,
    MovingTarget,
    /// Still presence: breathing, sitting, sleeping.
    StationaryTarget,
    /// Both a moving and a stationary target.
    CombinedTarget,
}

#[derive(Debug, Clone, Copy, PartialEq, Eq, Structural)]
pub struct PresenceData {
    pub presence_detected: bool,
    pub target_type: TargetType,
    pub moving_distance_cm: u16,
    pub moving_energy: u8,
    pub stationary_distance_cm: u16,
    pub stationary_energy: u8,
    pub detection_distance_cm: u16,
}

pub const FRAME_HEADER: [u8; 4] = [0xF4, 0xF3, 0xF2, 0xF1];

pub const FRAME_FOOTER: [u8; 4] = [0xF8, 0xF7, 0xF6, 0xF5];

pub open spec fn header_bytes() -> Seq<u8> {
    seq![0xF4u8, 0xF3u8, 0xF2u8, 0xF1u8]
}

pub open spec fn footer_bytes() -> Seq<u8> {
    seq![0xF8u8, 0xF7u8, 0xF6u8, 0xF5u8]
}

/// `s` with leading bytes dropped until it starts with the frame header or
/// has fewer than four bytes left.
pub open spec fn align_to_header(s: Seq<u8>) -> Seq<u8>
    decreases s.len(),
{
    if s.len() < 4 || s.take(4) == header_bytes() {
        s
    } else {
        align_to_header(s.drop_first())
    }
}

pub open spec fn footer_at(s: Seq<u8>, i: int) -> bool {
    0 <= i && i + 4 <= s.len() && s.subrange(i, i + 4) == footer_bytes()
}

/// `pos` is where the first footer that starts at index 4 or later lies.
pub open spec fn is_first_footer(s: Seq<u8>, pos: int) -> bool {
    &&& 4 <= pos
    &&& footer_at(s, pos)
    &&& forall|j: int| 4 <= j < pos ==> !#[trigger] footer_at(s, j)
}

pub open spec fn le_u16(lo: u8, hi: u8) -> u16 {
    (lo + 256 * hi) as u16
}

pub open spec fn target_type_of(state: u8) -> TargetType {
    if state == 0x01 {
        TargetType::MovingTarget
    } else if state == 0x02 {
        TargetType::StationaryTarget
    } else if state == 0x03 {
        TargetType::CombinedTarget
    } else {
        TargetType::NoTarget
    }
}

/// The report a frame carries; frames shorter than the 20 bytes of a basic
/// report carry none.
pub open spec fn spec_parse_frame(f: Seq<u8>) -> Option<PresenceData> {
    if f.len() < 20 {
        None
    } else {
        let target_type = target_type_of(f[7]);
        Some(
            PresenceData {
                presence_detected: target_type != TargetType::NoTarget,
                target_type,
                moving_distance_cm: le_u16(f[8], f[9]),
                moving_energy: f[10],
                stationary_distance_cm: le_u16(f[11], f[12]),
                stationary_energy: f[13],
                detection_distance_cm: le_u16(f[14], f[15]),
            },
        )
    }
}

/// Accumulates UART bytes and cuts report frames out of them.
pub struct Ld2410Parser {
    buffer: Vec<u8>,
}

impl View for Ld2410Parser {
    type V = Seq<u8>;

    /// The bytes received and not yet consumed.
    closed spec fn view(&self) -> Seq<u8> {
        self.buffer@
    }
}

fn le_u16_exec(lo: u8, hi: u8) -> (v: u16)
    ensures
        v == le_u16(lo, hi),
{
    let v = (lo as u16) | ((hi as u16) << 8);
    assert(v == lo + 256 * hi) by (bit_vector)
        requires
            v == (lo as u16) | ((hi as u16) << 8),
    ;
    v
}

fn footer_at_exec(s: &Vec<u8>, i: usize) -> (b: bool)
    requires
        i + 4 <= s.len(),
    ensures
        b == footer_at(s@, i as int),
{
    let b = s[i] == 0xF8 && s[i + 1] == 0xF7 && s[i + 2] == 0xF6 && s[i + 3] == 0xF5;
    assert(b == (s@.subrange(i as int, i + 4) =~= footer_bytes()));
    b
}

impl Ld2410Parser {
    pub fn new() -> (p: Ld2410Parser)
        ensures
            p@ == Seq::<u8>::empty(),
    {
        Ld2410Parser { buffer: Vec::with_capacity(128) }
    }

    /// Appends `bytes` to what was received, drops leading bytes up to the
    /// frame header, and once at least 16 bytes are held, cuts off the
    /// frame that ends at the first footer found from index 4 on and
    /// decodes it. Without a footer, a buffer grown past 128 bytes loses
    /// its first byte.
    pub fn push_bytes(&mut self, bytes: &[u8]) -> (r: Option<PresenceData>)
        ensures
            ({
                let t = align_to_header(old(self)@ + bytes@);
                &&& t.len() < 16 ==> final(self)@ == t && r is None
                &&& t.len() >= 16 ==> forall|pos: int|
                    #[trigger] is_first_footer(t, pos) ==> final(self)@ == t.skip(pos + 4) && r
                        == spec_parse_frame(t.take(pos + 4))
                &&& t.len() >= 16 && (forall|pos: int| !#[trigger] is_first_footer(t, pos)) ==> {
                    &&& final(self)@ == (if t.len() > 128 {
                        t.drop_first()
                    } else {
                        t
                    })
                    &&& r is None
                }
            }),
    {
        let ghost s0 = old(self)@ + bytes@;
        let mut i: usize = 0;
        while i < bytes.len()
            invariant
                i <= bytes@.len(),
                self.buffer@ == old(self)@ + bytes@.take(i as int),
            decreases bytes@.len() - i,
        {
            self.buffer.push(bytes[i]);
            i = i + 1;
            assert(self.buffer@ =~= old(self)@ + bytes@.take(i as int));
        }
        assert(bytes@.take(i as int) =~= bytes@);

        // Drop bytes until the header leads.
        while self.buffer.len() >= 4
            invariant
                align_to_header(self.buffer@) == align_to_header(s0),
            ensures
                self.buffer@ == align_to_header(s0),
            decreases self.buffer@.len(),
        {
            if self.buffer[0] == 0xF4 && self.buffer[1] == 0xF3 && self.buffer[2] == 0xF2
                && self.buffer[3] == 0xF1 {
                assert(self.buffer@.take(4) =~= header_bytes());
                break;
            } else {
                assert(self.buffer@.take(4) != header_bytes()) by {
                    if self.buffer@.take(4) == header_bytes() {
                        assert(self.buffer@.take(4)[0] == self.buffer@[0]);
                        assert(self.buffer@.take(4)[1] == self.buffer@[1]);
                        assert(self.buffer@.take(4)[2] == self.buffer@[2]);
                        assert(self.buffer@.take(4)[3] == self.buffer@[3]);
                    }
                }
                let ghost before = self.buffer@;
                self.buffer.remove(0);
                assert(self.buffer@ =~= before.drop_first());
            }
        }
        let ghost t = self.buffer@;

        if self.buffer.len() < 16 {
            return None;
        }

        // Look for the footer, at least four bytes in.
        let mut idx: usize = 4;
        let mut found: Option<usize> = None;
        while idx <= self.buffer.len() - 4
            invariant_except_break
                4 <= idx,
                found is None,
                forall|j: int| 4 <= j < idx ==> !#[trigger] footer_at(t, j),
            invariant
                self.buffer@ == t,
                t.len() >= 16,
            ensures
                found matches Some(pos) ==> is_first_footer(t, pos as int),
                found is None ==> forall|j: int| 4 <= j ==> !#[trigger] footer_at(t, j),
            decreases self.buffer@.len() - idx,
        {
            if footer_at_exec(&self.buffer, idx) {
                found = Some(idx);
                break;
            }
            idx = idx + 1;
        }

        match found {
            Some(pos) => {
                let total_len = pos + 4;
                let mut frame = self.buffer.split_off(total_len);
                core::mem::swap(&mut frame, &mut self.buffer);
                assert(self.buffer@ =~= t.skip(total_len as int));
                Self::parse_frame(&frame)
            },
            None => {
                assert forall|pos: int| !#[trigger] is_first_footer(t, pos) by {}
                if self.buffer.len() > 128 {
                    let ghost before = self.buffer@;
                    self.buffer.remove(0);
                    assert(self.buffer@ =~= before.drop_first());
                }
                None
            },
        }
    }

    fn parse_frame(frame: &Vec<u8>) -> (r: Option<PresenceData>)
        ensures
            r == spec_parse_frame(frame@),
    {
        if frame.len() < 20 {
            return None;
        }
        let target_state = frame[7];
        let target_type = match target_state {
            0x01 => TargetType::MovingTarget,
            0x02 => TargetType::StationaryTarget,
            0x03 => TargetType::CombinedTarget,
            _ => TargetType::NoTarget,
        };
        let moving_distance_cm = le_u16_exec(frame[8], frame[9]);
        let moving_energy = frame[10];
        let stationary_distance_cm = le_u16_exec(frame[11], frame[12]);
        let stationary_energy = frame[13];
        let detection_distance_cm = le_u16_exec(frame[14], frame[15]);
        let presence_detected = match target_type {
            TargetType::NoTarget => false,
            _ => true,
        };
        Some(
            PresenceData {
                presence_detected,
                target_type,
                moving_distance_cm,
                moving_energy,
                stationary_distance_cm,
                stationary_energy,
                detection_distance_cm,
            },
        )
    }
}

/// A whole report frame: header first, at least the 20 bytes of a basic
/// report, and its only footer from index 4 on at its end.
pub open spec fn whole_frame(f: Seq<u8>) -> bool {
    &&& f.len() >= 20
    &&& f.take(4) == header_bytes()
    &&& is_first_footer(f, f.len() - 4)
}

/// A whole frame pushed into an empty parser is decoded at once and
/// consumed entirely; the report says presence exactly when the target
/// state byte names a target.
pub proof fn lemma_whole_frame_is_decoded(f: Seq<u8>)
    requires
        whole_frame(f),
    ensures
        align_to_header(Seq::<u8>::empty() + f) == f,
        is_first_footer(align_to_header(Seq::<u8>::empty() + f), f.len() - 4),
        f.skip(f.len() - 4 + 4) == Seq::<u8>::empty(),
        f.take(f.len() - 4 + 4) == f,
        spec_parse_frame(f) matches Some(d) && d.presence_detected == (1 <= f[7] <= 3),
{
    assert(Seq::<u8>::empty() + f =~= f);
    assert(f.skip(f.len() as int) =~= Seq::<u8>::empty());
    assert(f.take(f.len() as int) =~= f);
}

} // verus!
