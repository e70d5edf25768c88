//! CN105 packet construction.

use vstd::prelude::*;
use vstd::slice::slice_subrange;

use crate::checksum::{calculate_checksum, spec_checksum, spec_checksum_ok};
use crate::temperature::{
    encode_remote_temperature, encode_temperature_b, spec_encode_remote_temperature,
    spec_encode_temperature_b,
};
use crate::parser::valid_frame;
use crate::types::WantedSettings;

verus! {

pub const PACKET_LEN: usize = 22;

pub const CONNECT_LEN: usize = 8;

pub const CONNECT_PACKET: [u8; CONNECT_LEN] = [0xfc, 0x5a, 0x01, 0x30, 0x02, 0xca, 0x01, 0xa8];

/// Header of a SET command; bytes 5..=7 are command and flags.
pub const HEADER: [u8; 8] = [0xfc, 0x41, 0x01, 0x30, 0x10, 0x01, 0x00, 0x00];

pub const INFO_HEADER: [u8; 5] = [0xfc, 0x42, 0x01, 0x30, 0x10];

/// The body of a frame followed by its checksum byte.
pub open spec fn with_checksum(body: Seq<u8>) -> Seq<u8> {
    body.push(spec_checksum(body))
}

/// The handshake frame: `FC 5A 01 30 02 CA 01`, or `FC 5B ...` for the
/// installer handshake, then the checksum.
pub open spec fn connect_frame(installer: bool) -> Seq<u8> {
    with_checksum(
        seq![0xfcu8, if installer { 0x5bu8 } else { 0x5au8 }, 0x01u8, 0x30u8, 0x02u8, 0xcau8, 0x01u8],
    )
}

/// An information request: `FC 42 01 30 10`, the request code, fifteen zero
/// bytes, then the checksum.
pub open spec fn info_request_frame(code: u8) -> Seq<u8> {
    with_checksum(
        seq![0xfcu8, 0x42u8, 0x01u8, 0x30u8, 0x10u8, code] + Seq::new(15, |i: int| 0u8),
    )
}

/// Byte `i` (below 21) of a SET frame: the header `FC 41 01 30 10`, the
/// command code at 5 and zeros elsewhere, with `overrides` giving the bytes
/// from index 6 on that differ from zero.
pub open spec fn set_frame_byte(command: u8, overrides: spec_fn(int) -> u8, i: int) -> u8 {
    if i == 0 {
        0xfc
    } else if i == 1 {
        0x41
    } else if i == 2 {
        0x01
    } else if i == 3 {
        0x30
    } else if i == 4 {
        0x10
    } else if i == 5 {
        command
    } else {
        overrides(i)
    }
}

/// A SET frame (command `command`) whose bytes from index 6 are given by
/// `overrides`, with its checksum.
pub open spec fn set_frame(command: u8, overrides: spec_fn(int) -> u8) -> Seq<u8> {
    with_checksum(Seq::new(21, |i: int| set_frame_byte(command, overrides, i)))
}

/// Bytes 6.. of a remote temperature frame (SET 0x07): flag 1 at byte 6 and
/// the two remote temperature bytes at 7 and 8; with no temperature, `0x80`
/// at byte 8 hands the reading back to the unit's own sensor.
pub open spec fn remote_temp_bytes(temp: Option<i32>) -> spec_fn(int) -> u8 {
    |i: int|
        match temp {
            Some(h) => if i == 6 {
                1u8
            } else if i == 7 {
                spec_encode_remote_temperature(h).0
            } else if i == 8 {
                spec_encode_remote_temperature(h).1
            } else {
                0u8
            },
            None => if i == 8 {
                0x80u8
            } else {
                0u8
            },
        }
}

pub open spec fn remote_temp_frame(temp: Option<i32>) -> Seq<u8> {
    set_frame(0x07, remote_temp_bytes(temp))
}

pub open spec fn flag(present: bool, bit: u8) -> u8 {
    if present {
        bit
    } else {
        0
    }
}

/// The first control-flag byte: one bit for each field that is set.
pub open spec fn control_flags_1(w: WantedSettings) -> u8 {
    (flag(w.power is Some, 0x01) + flag(w.mode is Some, 0x02) + flag(w.temperature is Some, 0x04)
        + flag(w.fan_speed is Some, 0x08) + flag(w.vane is Some, 0x10)) as u8
}

/// The legacy setpoint index: `31 - t` for a whole-degree setpoint `t` in
/// 16..=31, else zero.
pub open spec fn legacy_setpoint_index(w: WantedSettings) -> u8 {
    match w.temperature {
        Some(t) => if 16 <= t.whole_degrees <= 31 {
            (31 - t.whole_degrees) as u8
        } else {
            0
        },
        None => 0,
    }
}

/// Bytes 6.. of a settings update (SET 0x01): the control flags at 6 and 7,
/// then power (8), mode (9), legacy setpoint (10), fan (11), vane (12), wide
/// vane (18) and the Encoding B setpoint (19); absent fields leave zeros.
pub open spec fn settings_bytes(w: WantedSettings) -> spec_fn(int) -> u8 {
    |i: int|
        if i == 6 {
            control_flags_1(w)
        } else if i == 7 {
            flag(w.wide_vane is Some, 0x01)
        } else if i == 8 {
            match w.power {
                Some(p) => p.code(),
                None => 0,
            }
        } else if i == 9 {
            match w.mode {
                Some(m) => m.code(),
                None => 0,
            }
        } else if i == 10 {
            legacy_setpoint_index(w)
        } else if i == 11 {
            match w.fan_speed {
                Some(f) => f.code(),
                None => 0,
            }
        } else if i == 12 {
            match w.vane {
                Some(v) => v.code(),
                None => 0,
            }
        } else if i == 18 {
            match w.wide_vane {
                Some(v) => v.code(),
                None => 0,
            }
        } else if i == 19 {
            match w.temperature {
                Some(t) => spec_encode_temperature_b(t.half_steps),
                None => 0,
            }
        } else {
            0
        }
}

pub open spec fn settings_frame(w: WantedSettings) -> Seq<u8> {
    set_frame(0x01, settings_bytes(w))
}

/// Every frame built as a body plus its checksum passes the checksum check.
pub proof fn lemma_with_checksum_verifies(body: Seq<u8>)
    requires
        body.len() >= 1,
    ensures
        spec_checksum_ok(with_checksum(body)),
        with_checksum(body).drop_last() == body,
{
    assert(with_checksum(body).drop_last() =~= body);
}

/// Writes the checksum of the first 21 bytes into the last byte.
fn seal(packet: &mut [u8; PACKET_LEN])
    ensures
        final(packet)@ == with_checksum(old(packet)@.take(21)),
{
    let c = calculate_checksum(slice_subrange(packet.as_slice(), 0, PACKET_LEN - 1));
    packet[PACKET_LEN - 1] = c;
    assert(packet@ =~= with_checksum(old(packet)@.take(21)));
}

/// Builds a connection handshake packet; `installer` selects the installer
/// handshake (0x5B) over the standard one (0x5A).
pub fn build_connect_packet(installer: bool) -> (p: [u8; CONNECT_LEN])
    ensures
        p@ == connect_frame(installer),
        spec_checksum_ok(p@),
{
    let mut packet = CONNECT_PACKET;
    packet[1] = if installer {
        0x5B
    } else {
        0x5A
    };
    let c = calculate_checksum(slice_subrange(packet.as_slice(), 0, CONNECT_LEN - 1));
    proof {
        let body = seq![0xfcu8, if installer { 0x5bu8 } else { 0x5au8 }, 0x01u8, 0x30u8, 0x02u8, 0xcau8, 0x01u8];
        assert(packet@.subrange(0, 7) =~= body);
        lemma_with_checksum_verifies(body);
    }
    packet[CONNECT_LEN - 1] = c;
    assert(packet@ =~= connect_frame(installer));
    packet
}

/// Builds an information request packet for `code` (0x02 settings, 0x03
/// room temperature, 0x04 error info, 0x06 operating status, 0x09 stages).
pub fn build_info_request_packet(code: u8) -> (p: [u8; PACKET_LEN])
    ensures
        p@ == info_request_frame(code),
        spec_checksum_ok(p@),
{
    let mut packet = [0u8; PACKET_LEN];
    packet[0] = 0xfc;
    packet[1] = 0x42;
    packet[2] = 0x01;
    packet[3] = 0x30;
    packet[4] = 0x10;
    packet[5] = code;
    let ghost body = seq![0xfcu8, 0x42u8, 0x01u8, 0x30u8, 0x10u8, code] + Seq::new(15, |i: int| 0u8);
    assert(packet@.take(21) =~= body);
    seal(&mut packet);
    proof {
        lemma_with_checksum_verifies(body);
    }
    packet
}

/// Builds a remote temperature packet (SET 0x07) that supplies an external
/// room reading, given in half degrees, or with `None` returns control to
/// the unit's own sensor.
pub fn build_remote_temp_packet(temp: Option<i32>) -> (p: [u8; PACKET_LEN])
    ensures
        p@ == remote_temp_frame(temp),
        spec_checksum_ok(p@),
{
    let mut packet = [0u8; PACKET_LEN];
    packet[0] = 0xfc;
    packet[1] = 0x41;
    packet[2] = 0x01;
    packet[3] = 0x30;
    packet[4] = 0x10;
    packet[5] = 0x07;
    match temp {
        Some(h) => {
            packet[6] = 0x01;
            let (enc_a, enc_b) = encode_remote_temperature(h);
            packet[7] = enc_a;
            packet[8] = enc_b;
        },
        None => {
            packet[8] = 0x80;
        },
    }
    let ghost body = Seq::new(21, |i: int| set_frame_byte(0x07, remote_temp_bytes(temp), i));
    assert(packet@.take(21) =~= body);
    seal(&mut packet);
    proof {
        lemma_with_checksum_verifies(body);
    }
    packet
}

fn compute_control_flags_1(wanted: &WantedSettings) -> (f: u8)
    ensures
        f == control_flags_1(*wanted),
{
    let mut f: u8 = 0;
    if wanted.power.is_some() {
        f = f + 0x01;
    }
    if wanted.mode.is_some() {
        f = f + 0x02;
    }
    if wanted.temperature.is_some() {
        f = f + 0x04;
    }
    if wanted.fan_speed.is_some() {
        f = f + 0x08;
    }
    if wanted.vane.is_some() {
        f = f + 0x10;
    }
    f
}

/// The legacy index and the Encoding B byte of the wanted setpoint; both
/// are given, for broad model compatibility.
fn setpoint_bytes(wanted: &WantedSettings) -> (r: (u8, u8))
    ensures
        r.0 == legacy_setpoint_index(*wanted),
        r.1 == (match wanted.temperature {
            Some(t) => spec_encode_temperature_b(t.half_steps),
            None => 0,
        }),
{
    match wanted.temperature {
        Some(temp) => {
            let legacy: u8 = if 16 <= temp.whole_degrees && temp.whole_degrees <= 31 {
                (31 - temp.whole_degrees) as u8
            } else {
                0
            };
            (legacy, encode_temperature_b(temp.half_steps))
        },
        None => (0, 0),
    }
}

/// Builds a settings update packet (SET 0x01) carrying the wanted settings.
pub fn build_settings_packet(wanted: &WantedSettings) -> (p: [u8; PACKET_LEN])
    ensures
        p@ == settings_frame(*wanted),
        spec_checksum_ok(p@),
{
    let flags_1 = compute_control_flags_1(wanted);
    let flags_2: u8 = if wanted.wide_vane.is_some() {
        0x01
    } else {
        0
    };
    let power_byte: u8 = match wanted.power {
        Some(power) => power.to_byte(),
        None => 0,
    };
    let mode_byte: u8 = match wanted.mode {
        Some(mode) => mode.to_byte(),
        None => 0,
    };
    let (legacy_byte, encoding_b_byte) = setpoint_bytes(wanted);
    let fan_byte: u8 = match wanted.fan_speed {
        Some(fan) => fan.to_byte(),
        None => 0,
    };
    let vane_byte: u8 = match wanted.vane {
        Some(vane) => vane.to_byte(),
        None => 0,
    };
    let wide_vane_byte: u8 = match wanted.wide_vane {
        Some(wide_vane) => wide_vane.to_byte(),
        None => 0,
    };
    let mut packet: [u8; PACKET_LEN] = [
        0xfc,
        0x41,
        0x01,
        0x30,
        0x10,
        0x01,
        flags_1,
        flags_2,
        power_byte,
        mode_byte,
        legacy_byte,
        fan_byte,
        vane_byte,
        0,
        0,
        0,
        0,
        0,
        wide_vane_byte,
        encoding_b_byte,
        0,
        0,
    ];
    let ghost body = Seq::new(21, |i: int| set_frame_byte(0x01, settings_bytes(*wanted), i));
    assert(packet@.take(21) =~= body);
    seal(&mut packet);
    proof {
        lemma_with_checksum_verifies(body);
    }
    packet
}

} // verus!

verus! {

/// Every frame the builder produces is one the frame parser assembles
/// whole: it starts with `FC`, its header declares exactly its payload,
/// it fits the parser's buffer and its checksum holds.
pub proof fn lemma_built_frames_are_valid(
    installer: bool,
    code: u8,
    temp: Option<i32>,
    w: WantedSettings,
)
    ensures
        valid_frame(connect_frame(installer)),
        valid_frame(info_request_frame(code)),
        valid_frame(remote_temp_frame(temp)),
        valid_frame(settings_frame(w)),
{
    let c = seq![0xfcu8, if installer { 0x5bu8 } else { 0x5au8 }, 0x01u8, 0x30u8, 0x02u8, 0xcau8, 0x01u8];
    lemma_with_checksum_verifies(c);
    let i = seq![0xfcu8, 0x42u8, 0x01u8, 0x30u8, 0x10u8, code] + Seq::new(15, |k: int| 0u8);
    lemma_with_checksum_verifies(i);
    assert(i[0] == 0xfc && i[4] == 0x10);
    let r = Seq::new(21, |k: int| set_frame_byte(0x07, remote_temp_bytes(temp), k));
    lemma_with_checksum_verifies(r);
    assert(r[0] == 0xfc && r[4] == 0x10);
    let s = Seq::new(21, |k: int| set_frame_byte(0x01, settings_bytes(w), k));
    lemma_with_checksum_verifies(s);
    assert(s[0] == 0xfc && s[4] == 0x10);
}

} // verus!
