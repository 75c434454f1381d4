//! The converter's three-byte transaction: the command sent for a channel and
//! the sample packed into the response.
use vstd::prelude::*;

verus! {

/// Highest channel index of the converter.
pub const MAX_CHANNEL: u8 = 7;

/// Largest sample value: ten bits, all set.
pub const MAX_SAMPLE: u16 = 0x3FF;

/// The first command byte for `channel`: start bit and single-ended bit in the
/// two top bits, the channel's three bits in bits 3 to 5.
pub open spec fn command_byte(channel: u8) -> u8 {
    0b1100_0000u8 | ((channel & 0x07u8) << 3u8)
}

/// The whole command for `channel`; the two trailing zero bytes clock out the
/// conversion.
pub open spec fn command_spec(channel: u8) -> Seq<u8> {
    seq![command_byte(channel), 0u8, 0u8]
}

/// The sample as the bit-level decoding of the response bytes.
pub open spec fn decode_spec(r0: u8, r1: u8, r2: u8) -> u16 {
    ((((r0 as u16) & 0x01u16) << 9u16) | (((r1 as u16) & 0xFFu16) << 1u16) | (((r2 as u16)
        & 0x80u16) >> 7u16)) & 0x3FFu16
}

/// The same sample in arithmetic terms: the low bit of the first byte, the whole
/// second byte and the top bit of the third, most significant first.
pub open spec fn sample_value(r0: u8, r1: u8, r2: u8) -> int {
    (r0 as int % 2) * 512 + (r1 as int) * 2 + (r2 as int) / 128
}

/// Decoding by bits agrees with the arithmetic reading, and the result always
/// fits in ten bits.
pub proof fn lemma_decode_value(r0: u8, r1: u8, r2: u8)
    ensures
        decode_spec(r0, r1, r2) as int == sample_value(r0, r1, r2),
        decode_spec(r0, r1, r2) <= MAX_SAMPLE,
{
    assert(((((r0 as u16) & 0x01u16) << 9u16) | (((r1 as u16) & 0xFFu16) << 1u16) | (((
    r2 as u16) & 0x80u16) >> 7u16)) & 0x3FFu16 == (r0 % 2) as u16 * 512 + (r1 as u16) * 2 + (
    r2 / 128) as u16) by (bit_vector);
    assert(((((r0 as u16) & 0x01u16) << 9u16) | (((r1 as u16) & 0xFFu16) << 1u16) | (((
    r2 as u16) & 0x80u16) >> 7u16)) & 0x3FFu16 <= 0x3FFu16) by (bit_vector);
}

/// For every valid channel the command byte is `0xC0 + 8 * channel`, and the
/// channel can be read back from bits 3 to 5.
pub proof fn lemma_command_channel(channel: u8)
    requires
        channel <= MAX_CHANNEL,
    ensures
        command_byte(channel) as int == 0xC0 + 8 * channel,
        (command_byte(channel) >> 3u8) & 0x07u8 == channel,
        command_byte(channel) & 0x07u8 == 0,
        command_byte(channel) >> 6u8 == 0b11u8,
{
    assert(channel <= 7 ==> (0b1100_0000u8 | ((channel & 0x07u8) << 3u8)) == 0xC0u8 + 8u8
        * channel) by (bit_vector);
    assert(channel <= 7 ==> ((0b1100_0000u8 | ((channel & 0x07u8) << 3u8)) >> 3u8) & 0x07u8
        == channel) by (bit_vector);
    assert((0b1100_0000u8 | ((channel & 0x07u8) << 3u8)) & 0x07u8 == 0) by (bit_vector);
    assert((0b1100_0000u8 | ((channel & 0x07u8) << 3u8)) >> 6u8 == 0b11u8) by (bit_vector);
}

/// Builds the three command bytes for `channel`.
pub fn command(channel: u8) -> (tx: [u8; 3])
    ensures
        tx@ == command_spec(channel),
{
    // Start bit, single-ended read.
    let mut first: u8 = 0b11 << 6;
    first = first | ((channel & 0x07) << 3);
    assert(first == command_byte(channel)) by (bit_vector)
        requires
            first == (0b11u8 << 6u8) | ((channel & 0x07u8) << 3u8),
    ;
    // The low three bits stay zero: one clock for the conversion and one for
    // the null bit that leads the response.
    let tx: [u8; 3] = [first, 0, 0];
    assert(tx@ =~= command_spec(channel));
    tx
}

/// Extracts the ten-bit sample from the three response bytes.
pub fn decode(rx: &[u8; 3]) -> (sample: u16)
    ensures
        sample == decode_spec(rx@[0], rx@[1], rx@[2]),
        sample as int == sample_value(rx@[0], rx@[1], rx@[2]),
        sample <= MAX_SAMPLE,
{
    let r0 = rx[0];
    let r1 = rx[1];
    let r2 = rx[2];
    let mut result: u16 = (r0 as u16 & 0x01) << 9;
    result = result | ((r1 as u16 & 0xFF) << 1);
    result = result | ((r2 as u16 & 0x80) >> 7);
    let sample = result & 0x3FF;
    proof {
        lemma_decode_value(r0, r1, r2);
    }
    sample
}

} // verus!
