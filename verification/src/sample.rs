//! Decoding of the output data registers. The device publishes each axis as
//! a signed 12-bit sample, most significant byte first, left-justified in
//! sixteen bits. The driver reports each axis in raw counts: the magnitude
//! of that sample. No conversion to units of g is applied.

use vstd::prelude::*;

verus! {

/// Number of bytes in one burst read of the output data registers.
pub const SAMPLE_BYTES: usize = 6;

/// One reading of the three axes, in counts.
#[derive(Clone, Copy, Debug, PartialEq, Eq, Structural)]
pub struct Acceleration {
    pub x: u16,
    pub y: u16,
    pub z: u16,
}

/// The twelve sample bits of an axis as an unsigned number.
pub open spec fn axis_bits(msb: u8, lsb: u8) -> int {
    (msb as int * 256 + lsb as int) / 16
}

/// The sample of an axis read as a 12-bit two's-complement number.
pub open spec fn axis_signed(msb: u8, lsb: u8) -> int {
    if axis_bits(msb, lsb) >= 2048 {
        axis_bits(msb, lsb) - 4096
    } else {
        axis_bits(msb, lsb)
    }
}

/// The counts reported for an axis: the sample bits as they are when the
/// top bit of the most significant byte is clear, and 4096 less the sample
/// bits when it is set.
pub open spec fn axis_counts(msb: u8, lsb: u8) -> int {
    if msb > 0x7F {
        4096 - axis_bits(msb, lsb)
    } else {
        axis_bits(msb, lsb)
    }
}

/// The reading that six raw bytes stand for.
pub open spec fn sample_of(raw: Seq<u8>) -> Acceleration
    recommends
        raw.len() == 6,
{
    Acceleration {
        x: axis_counts(raw[0], raw[1]) as u16,
        y: axis_counts(raw[2], raw[3]) as u16,
        z: axis_counts(raw[4], raw[5]) as u16,
    }
}

/// The counts of an axis are the magnitude of its signed sample, and lie
/// between 0 and 2048.
pub proof fn lemma_counts_are_magnitude(msb: u8, lsb: u8)
    ensures
        -2048 <= axis_signed(msb, lsb) <= 2047,
        axis_signed(msb, lsb) < 0 <==> msb > 0x7F,
        axis_counts(msb, lsb) == if axis_signed(msb, lsb) < 0 {
            -axis_signed(msb, lsb)
        } else {
            axis_signed(msb, lsb)
        },
        0 <= axis_counts(msb, lsb) <= 2048,
{
}

/// Decodes one axis from its two bytes.
pub fn decode_axis(msb: u8, lsb: u8) -> (counts: u16)
    ensures
        counts == axis_counts(msb, lsb),
{
    let wide: u16 = ((msb as u16) << 8) | (lsb as u16);
    let mut g_count: u16 = wide >> 4;
    assert(g_count == (msb as u16 * 256 + lsb as u16) / 16) by (bit_vector)
        requires
            g_count == (((msb as u16) << 8) | (lsb as u16)) >> 4,
    ;
    if msb > 0x7F {
        g_count = 1 + 0xFFF - g_count;
    }
    g_count
}

/// Decodes a burst of the output data registers. A burst that does not hold
/// exactly six bytes decodes to nothing.
pub fn decode_sample(raw: &Vec<u8>) -> (sample: Option<Acceleration>)
    ensures
        sample == if raw@.len() == 6 {
            Some(sample_of(raw@))
        } else {
            None::<Acceleration>
        },
{
    if raw.len() != SAMPLE_BYTES {
        return None;
    }
    proof {
        lemma_counts_are_magnitude(raw@[0], raw@[1]);
        lemma_counts_are_magnitude(raw@[2], raw@[3]);
        lemma_counts_are_magnitude(raw@[4], raw@[5]);
    }
    let x: u16 = decode_axis(raw[0], raw[1]);
    let y: u16 = decode_axis(raw[2], raw[3]);
    let z: u16 = decode_axis(raw[4], raw[5]);
    Some(Acceleration { x, y, z })
}

} // verus!
