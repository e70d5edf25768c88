//! Sensirion SHTC3 temperature and humidity sensor: CRC check and frame
//! decoding. The conversion of the raw counts to °C and % RH is left to the
//! caller: `T = -45 + 175 * raw / 65535`, `RH = 100 * raw / 65535`.

use vstd::prelude::*;

verus! {

pub const SHTC3_I2C_ADDR: u8 = 0x70;

pub const CMD_WAKEUP: [u8; 2] = [0x35, 0x17];

pub const CMD_SLEEP: [u8; 2] = [0xB0, 0x98];

/// Normal mode, temperature first, clock stretching off.
pub const CMD_MEASURE_NORMAL: [u8; 2] = [0x78, 0x66];

/// One bit step of the Sensirion CRC-8 (polynomial 0x31).
pub open spec fn crc_bit(crc: u8) -> u8 {
    if crc >= 0x80 {
        (((crc as int * 2) % 256) as u8 ^ 0x31u8) as u8
    } else {
        ((crc as int * 2) % 256) as u8
    }
}

pub open spec fn crc_bits(crc: u8, n: nat) -> u8
    decreases n,
{
    if n == 0 {
        crc
    } else {
        crc_bits(crc_bit(crc), (n - 1) as nat)
    }
}

/// The CRC-8 register after taking in one more byte.
pub open spec fn crc_byte(crc: u8, b: u8) -> u8 {
    crc_bits(crc ^ b, 8)
}

/// Sensirion CRC-8 of `s`: polynomial 0x31, initial value 0xFF, no final XOR.
pub open spec fn crc8(s: Seq<u8>) -> u8
    decreases s.len(),
{
    if s.len() == 0 {
        0xFF
    } else {
        crc_byte(crc8(s.drop_last()), s.last())
    }
}

/// Checks `data` against its Sensirion CRC-8 byte.
pub fn check_crc(data: &[u8], expected_crc: u8) -> (ok: bool)
    ensures
        ok == (crc8(data@) == expected_crc),
{
    let mut crc: u8 = 0xFF;
    let mut i: usize = 0;
    while i < data.len()
        invariant
            i <= data@.len(),
            crc == crc8(data@.take(i as int)),
        decreases data@.len() - i,
    {
        let byte = data[i];
        crc = crc ^ byte;
        let ghost start = crc;
        let mut k: u32 = 0;
        while k < 8
            invariant
                k <= 8,
                crc_bits(start, 8) == crc_bits(crc, (8 - k) as nat),
            decreases 8 - k,
        {
            let next: u8 = if (crc & 0x80) != 0 {
                (crc << 1) ^ 0x31
            } else {
                crc << 1
            };
            assert(next == crc_bit(crc)) by (bit_vector)
                requires
                    next == (if (crc & 0x80) != 0 {
                        (crc << 1) ^ 0x31
                    } else {
                        crc << 1
                    }),
            ;
            crc = next;
            k = k + 1;
        }
        assert(data@.take(i + 1).drop_last() =~= data@.take(i as int));
        i = i + 1;
    }
    assert(data@.take(i as int) =~= data@);
    crc == expected_crc
}

/// The raw counts of one measurement.
#[derive(Debug, Clone, Copy, PartialEq, Eq, Structural)]
pub struct RawReading {
    pub raw_temperature: u16,
    pub raw_humidity: u16,
}

#[derive(Debug, Clone, Copy, PartialEq, Eq, Structural)]
pub enum Shtc3Error {
    TemperatureCrc,
    HumidityCrc,
}

/// Decodes the six bytes `[T_MSB, T_LSB, T_CRC, RH_MSB, RH_LSB, RH_CRC]`:
/// the temperature CRC is checked first, then the humidity CRC.
pub fn parse_shtc3_data(buf: &[u8; 6]) -> (r: Result<RawReading, Shtc3Error>)
    ensures
        crc8(buf@.subrange(0, 2)) != buf@[2] ==> r == Err::<RawReading, Shtc3Error>(
            Shtc3Error::TemperatureCrc,
        ),
        crc8(buf@.subrange(0, 2)) == buf@[2] && crc8(buf@.subrange(3, 5)) != buf@[5] ==> r == Err::<
            RawReading,
            Shtc3Error,
        >(Shtc3Error::HumidityCrc),
        crc8(buf@.subrange(0, 2)) == buf@[2] && crc8(buf@.subrange(3, 5)) == buf@[5] ==> r == Ok::<
            RawReading,
            Shtc3Error,
        >(
            RawReading {
                raw_temperature: (buf@[0] * 256 + buf@[1]) as u16,
                raw_humidity: (buf@[3] * 256 + buf@[4]) as u16,
            },
        ),
{
    let s = buf.as_slice();
    if !check_crc(vstd::slice::slice_subrange(s, 0, 2), buf[2]) {
        return Err(Shtc3Error::TemperatureCrc);
    }
    if !check_crc(vstd::slice::slice_subrange(s, 3, 5), buf[5]) {
        return Err(Shtc3Error::HumidityCrc);
    }
    let raw_temperature = be_u16(buf[0], buf[1]);
    let raw_humidity = be_u16(buf[3], buf[4]);
    Ok(RawReading { raw_temperature, raw_humidity })
}

fn be_u16(hi: u8, lo: u8) -> (v: u16)
    ensures
        v == hi * 256 + lo,
{
    let v = ((hi as u16) << 8) | (lo as u16);
    assert(v == hi * 256 + lo) by (bit_vector)
        requires
            v == ((hi as u16) << 8) | (lo as u16),
    ;
    v
}

} // verus!
