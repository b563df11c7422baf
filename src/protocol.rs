//! Command frames sent to the converter and decoding of its replies.
use vstd::prelude::*;

verus! {

/// First byte of every request: the start bit that begins a conversion.
pub const START_BYTE: u8 = 0x01;

/// Mask that keeps the ten bits of a conversion result.
pub const RESULT_MASK: u16 = 0x3ff;

/// Second byte of a request for `address`: start bit, single-ended mode bit and
/// the channel address, moved into the upper nibble.
pub open spec fn command_spec(address: u8) -> u8 {
    ((0b1000u8 | address) << 4u8) as u8
}

/// The three bytes sent to start a conversion on `address`.
pub open spec fn request_spec(address: u8) -> Seq<u8> {
    seq![START_BYTE, command_spec(address), 0u8]
}

/// The ten-bit result held by the second and third bytes of a reply.
pub open spec fn decode_spec(hi: u8, lo: u8) -> u16 {
    (((hi as u16) << 8u16) | (lo as u16)) & RESULT_MASK
}

/// Second byte of a request for `address`.
pub fn command_byte(address: u8) -> (r: u8)
    requires
        address < 8,
    ensures
        r == command_spec(address),
        r == 0x80 + 16 * address,
{
    proof {
        lemma_command_layout(address);
    }
    (0b1000u8 | address) << 4u8
}

/// The request that starts a conversion on `address`.
pub fn request_frame(address: u8) -> (r: [u8; 3])
    requires
        address < 8,
    ensures
        r@ == request_spec(address),
{
    let frame: [u8; 3] = [START_BYTE, command_byte(address), 0u8];
    assert(frame@ =~= request_spec(address));
    frame
}

/// The conversion result carried by the reply bytes `hi` and `lo`: `hi` gives
/// the upper bits, `lo` the lower eight, and all but the low ten bits are dropped.
pub fn decode(hi: u8, lo: u8) -> (r: u16)
    ensures
        r == decode_spec(hi, lo),
        r == (hi % 4) * 256 + lo,
        r <= 1023,
{
    proof {
        lemma_decode_bounded(hi, lo);
        lemma_decode_arith(hi, lo);
    }
    (((hi as u16) << 8u16) | (lo as u16)) & RESULT_MASK
}

/// The command byte for a channel address below eight is `0b1000` followed by
/// the three address bits, then four zero bits: `0x80 + 16 * address`. Distinct
/// addresses thus give distinct command bytes.
pub proof fn lemma_command_layout(address: u8)
    requires
        address < 8,
    ensures
        command_spec(address) == 0x80 + 16 * address,
        command_spec(address) >> 4u8 == 0b1000u8 | address,
        command_spec(address) & 0x0fu8 == 0,
{
    assert(((0b1000u8 | address) << 4u8) as u8 == 0x80 + 16 * address
        && (((0b1000u8 | address) << 4u8) as u8) >> 4u8 == 0b1000u8 | address
        && (((0b1000u8 | address) << 4u8) as u8) & 0x0fu8 == 0) by (bit_vector)
        requires
            address < 8,
    ;
}

/// Every decoded reply lies in `0..=1023`, and masking it again changes nothing:
/// stray bits above bit nine never reach the result.
pub proof fn lemma_decode_bounded(hi: u8, lo: u8)
    ensures
        decode_spec(hi, lo) <= 1023,
        decode_spec(hi, lo) & RESULT_MASK == decode_spec(hi, lo),
{
    assert(((((hi as u16) << 8u16) | (lo as u16)) & 0x3ffu16) <= 1023
        && ((((hi as u16) << 8u16) | (lo as u16)) & 0x3ffu16) & 0x3ffu16
            == (((hi as u16) << 8u16) | (lo as u16)) & 0x3ffu16) by (bit_vector);
}

/// The decoded value is the low two bits of `hi` followed by the eight bits of `lo`.
pub proof fn lemma_decode_arith(hi: u8, lo: u8)
    ensures
        decode_spec(hi, lo) == (hi % 4) * 256 + lo,
{
    assert(((((hi as u16) << 8u16) | (lo as u16)) & 0x3ffu16) == (hi % 4) * 256 + lo)
        by (bit_vector);
}

} // verus!
