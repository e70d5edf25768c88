//! The CN105 frame checksum: `(0xFC - sum of all bytes) mod 256`.

use vstd::prelude::*;

verus! {

/// Sum of all bytes of `s`, as a mathematical integer.
pub open spec fn byte_sum(s: Seq<u8>) -> nat
    decreases s.len(),
{
    if s.len() == 0 {
        0
    } else {
        byte_sum(s.drop_last()) + s.last() as nat
    }
}

/// The checksum byte of a frame body `s`: `(0xFC - sum(s)) mod 256`.
pub open spec fn spec_checksum(s: Seq<u8>) -> u8 {
    ((0xFCint - byte_sum(s)) % 256) as u8
}

/// Calculates the CN105 packet checksum of `bytes` (header and payload,
/// without the checksum byte itself).
pub fn calculate_checksum(bytes: &[u8]) -> (c: u8)
    ensures
        c == spec_checksum(bytes@),
{
    let mut sum: u8 = 0;
    let mut i: usize = 0;
    while i < bytes.len()
        invariant
            i <= bytes.len(),
            sum as int == byte_sum(bytes@.take(i as int)) % 256,
        decreases bytes.len() - i,
    {
        assert(bytes@.take(i + 1).drop_last() =~= bytes@.take(i as int));
        sum = sum.wrapping_add(bytes[i]);
        i = i + 1;
    }
    assert(bytes@.take(i as int) =~= bytes@);
    0xFCu8.wrapping_sub(sum)
}

/// A frame is accepted when it has at least two bytes and its last byte is
/// the checksum of all bytes before it.
pub open spec fn spec_checksum_ok(packet: Seq<u8>) -> bool {
    packet.len() >= 2 && packet.last() == spec_checksum(packet.drop_last())
}

/// Verifies that the last byte of `packet` is the checksum of the bytes
/// before it. Packets shorter than two bytes are rejected.
pub fn verify_checksum(packet: &[u8]) -> (ok: bool)
    ensures
        ok == spec_checksum_ok(packet@),
{
    if packet.len() < 2 {
        return false;
    }
    let (data, expected) = packet.split_at(packet.len() - 1);
    assert(data@ =~= packet@.drop_last());
    calculate_checksum(data) == expected[0]
}

} // verus!
