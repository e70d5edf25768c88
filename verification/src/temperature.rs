//! CN105 temperature encodings.
//!
//! Temperatures are half degrees Celsius throughout: a temperature `t` in °C
//! enters as `half_steps`, the value `t * 2` rounded, and decoded readings
//! leave as half degrees, so `(enc_b - 128) / 2.0` °C is `enc_b - 128`.

use vstd::prelude::*;

verus! {

pub open spec fn clamp(x: int, lo: int, hi: int) -> int {
    if x < lo {
        lo
    } else if x > hi {
        hi
    } else {
        x
    }
}

fn clamp_i32(x: i32, lo: i32, hi: i32) -> (r: i32)
    requires
        lo <= hi,
    ensures
        r == clamp(x as int, lo as int, hi as int),
{
    if x < lo {
        lo
    } else if x > hi {
        hi
    } else {
        x
    }
}

/// Decoded temperature, in half degrees: encoding B (`enc_b - 128` half
/// degrees) when `enc_b` is non-zero, else encoding A (`enc_a + offset`
/// whole degrees).
pub open spec fn spec_decode_temperature(enc_a: u8, enc_b: u8, offset: i32) -> int {
    if enc_b != 0 {
        enc_b - 128
    } else {
        2 * (enc_a + offset)
    }
}

/// Decodes a temperature from its raw encoding bytes, in half degrees.
pub fn decode_temperature(enc_a: u8, enc_b: u8, offset: i32) -> (t: i64)
    ensures
        t == spec_decode_temperature(enc_a, enc_b, offset),
{
    if enc_b != 0 {
        enc_b as i64 - 128
    } else {
        2 * (enc_a as i64 + offset as i64)
    }
}

/// Encoding B of a setpoint: clamped to 10.0..=31.5 °C, plus 128.
pub open spec fn spec_encode_temperature_b(half_steps: i32) -> u8 {
    (clamp(half_steps as int, 20, 63) + 128) as u8
}

/// Encodes a setpoint given in half degrees into the Encoding B byte.
pub fn encode_temperature_b(half_steps: i32) -> (b: u8)
    ensures
        b == spec_encode_temperature_b(half_steps),
        148 <= b <= 191,
{
    let c = clamp_i32(half_steps, 20, 63);
    (c + 128) as u8
}

/// The two bytes of a remote temperature (SET 0x07): with the temperature
/// clamped to 10.0..=35.0 °C, `enc_a` is the half degrees minus 16 and
/// `enc_b` the half degrees plus 128.
pub open spec fn spec_encode_remote_temperature(half_steps: i32) -> (u8, u8) {
    let c = clamp(half_steps as int, 20, 70);
    ((c - 16) as u8, (c + 128) as u8)
}

/// Encodes a remote temperature given in half degrees.
pub fn encode_remote_temperature(half_steps: i32) -> (r: (u8, u8))
    ensures
        r == spec_encode_remote_temperature(half_steps),
{
    let c = clamp_i32(half_steps, 20, 70);
    ((c - 16) as u8, (c + 128) as u8)
}

/// An MSZ-A24NA setpoint byte, in half degrees: the low nibble counts whole
/// degrees down from 31 and bit 4 adds half a degree.
pub open spec fn spec_decode_msz_a24na_setpoint(byte: u8) -> int {
    2 * (31 - byte % 16) + (byte / 16) % 2
}

/// Decodes an MSZ-A24NA setpoint byte into half degrees.
pub fn decode_msz_a24na_setpoint(byte: u8) -> (t: i32)
    ensures
        t == spec_decode_msz_a24na_setpoint(byte),
{
    let low = byte & 0x0F;
    let half = (byte >> 4) & 0x01;
    assert(low == byte % 16 && half == (byte / 16) % 2) by (bit_vector)
        requires
            low == byte & 0x0F,
            half == (byte >> 4) & 0x01,
    ;
    2 * (31 - low as i32) + half as i32
}

/// The MSZ-A24NA byte of a setpoint clamped to 16.0..=31.0 °C: with `h` the
/// half steps above 16 °C, the low nibble is `15 - h / 2` and bit 4 is `h % 2`.
pub open spec fn spec_encode_msz_a24na_setpoint(half_steps: i32) -> u8 {
    let h = clamp(half_steps as int, 32, 62) - 32;
    (16 * (h % 2) + (15 - h / 2)) as u8
}

/// Encodes a setpoint given in half degrees into MSZ-A24NA format.
pub fn encode_msz_a24na_setpoint(half_steps: i32) -> (b: u8)
    ensures
        b == spec_encode_msz_a24na_setpoint(half_steps),
{
    let h = (clamp_i32(half_steps, 32, 62) - 32) as u8;
    let low: u8 = 15 - (h / 2);
    let high: u8 = (h % 2) << 4;
    let b = high | low;
    assert(b == 16 * (h % 2) + (15 - h / 2)) by (bit_vector)
        requires
            h <= 30,
            low == 15 - (h / 2),
            high == (h % 2) << 4,
            b == high | low,
    ;
    b
}

/// Encoding B round trip: a setpoint within 10.0..=31.5 °C, encoded and
/// decoded again, is the same temperature, whatever the A byte and offset.
pub proof fn lemma_encoding_b_round_trip(half_steps: i32, enc_a: u8, offset: i32)
    requires
        20 <= half_steps <= 63,
    ensures
        spec_decode_temperature(enc_a, spec_encode_temperature_b(half_steps), offset)
            == half_steps,
{
}

/// Encoding B clamps: whatever the setpoint, decoding its encoding gives it
/// clamped to 10.0..=31.5 °C.
pub proof fn lemma_encoding_b_clamps(half_steps: i32, enc_a: u8, offset: i32)
    ensures
        spec_decode_temperature(enc_a, spec_encode_temperature_b(half_steps), offset)
            == clamp(half_steps as int, 20, 63),
{
}

/// The remote temperature bytes encode the same clamped value: `enc_b` is
/// always `enc_a + 144`, and `enc_b` decodes (as Encoding B) to the
/// temperature clamped to 10.0..=35.0 °C.
pub proof fn lemma_remote_temperature_bytes_agree(half_steps: i32)
    ensures
        spec_encode_remote_temperature(half_steps).1 == spec_encode_remote_temperature(
            half_steps,
        ).0 + 144,
        spec_decode_temperature(0, spec_encode_remote_temperature(half_steps).1, 0) == clamp(
            half_steps as int,
            20,
            70,
        ),
{
}

/// MSZ-A24NA round trip: decoding the encoding of a setpoint gives it back,
/// clamped to 16.0..=31.0 °C.
pub proof fn lemma_msz_a24na_round_trip(half_steps: i32)
    ensures
        spec_decode_msz_a24na_setpoint(spec_encode_msz_a24na_setpoint(half_steps)) == clamp(
            half_steps as int,
            32,
            62,
        ),
{
    let h = clamp(half_steps as int, 32, 62) - 32;
    let b = spec_encode_msz_a24na_setpoint(half_steps);
    assert(0 <= h <= 30);
    assert(b as int == 16 * (h % 2) + (15 - h / 2));
    assert(b % 16 == 15 - h / 2);
    assert((b / 16) % 2 == h % 2);
}

} // verus!
