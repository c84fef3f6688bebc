//! The register map of the device and the bit fields the driver touches.

use vstd::prelude::*;

verus! {

/// Seven-bit bus address of the device.
pub const I2C_ADDRESS: u8 = 0x1D;

/// Identity the chip reports in its identification register.
pub const VALID_CHIP_ID: u8 = 42;

/// First of the six output data registers (X most significant byte).
pub const OUT_X_MSB: u8 = 0x01;

/// Chip identification register.
pub const CHIP_ID_REG: u8 = 0x0D;

/// Data configuration register; bits 0 and 1 select the scale range.
pub const XYZ_DATA_CFG: u8 = 0x0E;

/// Control register 1; bit 0 is the active bit, bits 3 to 5 select the
/// output data rate.
pub const CTRL_REG1: u8 = 0x2A;

/// Mask that keeps every bit of control register 1 but the rate field.
pub const RATE_FIELD_CLEAR: u8 = 0b1100_0111;

/// Scale range a fresh driver assumes, in g.
pub const DEFAULT_SCALE_RANGE: u8 = 2;

/// Largest scale range the device offers, in g.
pub const MAX_SCALE_RANGE: u8 = 8;

/// The scale ranges the device offers, in g.
pub open spec fn scale_range_table() -> Seq<u8> {
    seq![2u8, 4u8, 8u8]
}

/// The byte that opens a bus transaction: the address shifted left by one
/// bit (its top bit falls away), with the direction in bit 0.
pub open spec fn address_byte(address: u8, read: bool) -> u8 {
    ((address as int * 2) % 256 + if read { 1int } else { 0int }) as u8
}

/// Control register 1 with the active bit set.
pub open spec fn with_active_bit(control: u8) -> u8 {
    control | 0x01
}

/// Control register 1 with the active bit cleared.
pub open spec fn without_active_bit(control: u8) -> u8 {
    control & 0xFE
}

/// Control register 1 with its rate field replaced by `index`.
pub open spec fn with_rate_field(control: u8, index: u8) -> u8
    recommends
        index < 8,
{
    (control & 0xC7) | (index << 3)
}

/// The rate field of control register 1.
pub open spec fn rate_field(control: u8) -> u8 {
    (control >> 3) & 0x07
}

/// The scale range the driver records for a request: the request itself,
/// capped at 8.
pub open spec fn clamped_scale_range(requested: u8) -> u8 {
    if requested > 8 {
        8u8
    } else {
        requested
    }
}

/// The value written to the data configuration register for a request: a
/// quarter of the recorded range, rounded down.
pub open spec fn scale_code(requested: u8) -> u8 {
    (clamped_scale_range(requested) / 4) as u8
}

/// The scale ranges as a value.
pub fn scale_ranges() -> (ranges: [u8; 3])
    ensures
        ranges@ == scale_range_table(),
{
    let ranges: [u8; 3] = [2, 4, 8];
    assert(ranges@ =~= scale_range_table());
    ranges
}

/// Forms the byte that opens a transaction with `address`.
pub fn make_address_byte(address: u8, read: bool) -> (byte: u8)
    ensures
        byte == address_byte(address, read),
{
    let direction: u8 = if read { 1 } else { 0 };
    let byte: u8 = direction | (address << 1);
    assert(byte == ((address as int * 2) % 256 + direction as int) as u8) by (bit_vector)
        requires
            byte == direction | (address << 1),
            direction == 0 || direction == 1,
    ;
    byte
}

/// Sets the active bit.
pub fn set_active_bit(control: u8) -> (updated: u8)
    ensures
        updated == with_active_bit(control),
{
    control | 0x01
}

/// Clears the active bit.
pub fn clear_active_bit(control: u8) -> (updated: u8)
    ensures
        updated == without_active_bit(control),
{
    let updated: u8 = control & !0x01u8;
    assert(updated == control & 0xFE) by (bit_vector)
        requires
            updated == control & !0x01u8,
    ;
    updated
}

/// Replaces the rate field of control register 1.
pub fn set_rate_field(control: u8, index: u8) -> (updated: u8)
    ensures
        updated == with_rate_field(control, index),
{
    let mut updated: u8 = control & RATE_FIELD_CLEAR;
    if index != 0 {
        updated = updated | (index << 3);
    } else {
        assert(updated == updated | (0u8 << 3)) by (bit_vector);
    }
    updated
}

/// Caps a requested scale range at 8.
pub fn clamp_scale_range(requested: u8) -> (range: u8)
    ensures
        range == clamped_scale_range(requested),
{
    if requested > MAX_SCALE_RANGE {
        MAX_SCALE_RANGE
    } else {
        requested
    }
}

/// Encodes a scale range for the data configuration register.
pub fn encode_scale_range(requested: u8) -> (code: u8)
    ensures
        code == scale_code(requested),
{
    let range: u8 = clamp_scale_range(requested);
    let code: u8 = range >> 2;
    assert(code == range / 4) by (bit_vector)
        requires
            code == range >> 2,
    ;
    code
}

/// The active bit is bit 0: setting it leaves bits 1 to 7 alone, and so does
/// clearing it.
pub proof fn lemma_active_bit(control: u8)
    ensures
        with_active_bit(control) & 0x01 == 1,
        without_active_bit(control) & 0x01 == 0,
        with_active_bit(control) & 0xFE == control & 0xFE,
        without_active_bit(control) & 0xFE == control & 0xFE,
{
    assert((control | 0x01) & 0x01 == 1) by (bit_vector);
    assert((control & 0xFE) & 0x01 == 0) by (bit_vector);
    assert((control | 0x01) & 0xFE == control & 0xFE) by (bit_vector);
    assert((control & 0xFE) & 0xFE == control & 0xFE) by (bit_vector);
}

/// Writing a rate index leaves it in bits 3 to 5 and every other bit as it
/// was.
pub proof fn lemma_rate_field(control: u8, index: u8)
    requires
        index < 8,
    ensures
        rate_field(with_rate_field(control, index)) == index,
        with_rate_field(control, index) & 0xC7 == control & 0xC7,
{
    assert((((control & 0xC7) | (index << 3)) >> 3) & 0x07 == index) by (bit_vector)
        requires
            index < 8,
    ;
    assert(((control & 0xC7) | (index << 3)) & 0xC7 == control & 0xC7) by (bit_vector)
        requires
            index < 8,
    ;
}

/// The scale code is 0 below 4 g, 1 from 4 g to 7 g, and 2 from 8 g on.
pub proof fn lemma_scale_code(requested: u8)
    ensures
        requested < 4 ==> scale_code(requested) == 0,
        4 <= requested < 8 ==> scale_code(requested) == 1,
        8 <= requested ==> scale_code(requested) == 2,
{
}

} // verus!
