use accel_mma84::bus::{BusAction, BusReply, Transaction};
use accel_mma84::rates::{closest_rate, output_rates, rate_index};
use accel_mma84::registers::{
    clamp_scale_range, clear_active_bit, encode_scale_range, make_address_byte, scale_ranges,
    set_active_bit, set_rate_field, I2C_ADDRESS, VALID_CHIP_ID,
};
use accel_mma84::sample::{decode_axis, decode_sample, Acceleration};

#[test]
fn positive_sample_decodes_to_its_value() {
    assert_eq!(decode_axis(0x7F, 0xF0), 2047);
    assert_eq!(decode_axis(0x00, 0x00), 0);
    assert_eq!(decode_axis(0x00, 0x10), 1);
    assert_eq!(decode_axis(0x40, 0x00), 1024);
}

#[test]
fn negative_sample_decodes_to_its_magnitude() {
    assert_eq!(decode_axis(0x80, 0x00), 2048);
    assert_eq!(decode_axis(0xFF, 0xF0), 1);
    assert_eq!(decode_axis(0xC0, 0x00), 1024);
    assert_eq!(decode_axis(0x80, 0x10), 2047);
}

#[test]
fn low_four_bits_are_dropped() {
    assert_eq!(decode_axis(0x12, 0x3F), 0x123);
    assert_eq!(decode_axis(0x12, 0x30), 0x123);
    assert_eq!(decode_axis(0xFF, 0xFF), 1);
}

#[test]
fn every_sample_is_the_magnitude_of_its_signed_value() {
    for msb in 0..=255u8 {
        for lsb in 0..=255u8 {
            let bits = ((msb as i32) * 256 + lsb as i32) / 16;
            let signed = if bits >= 2048 { bits - 4096 } else { bits };
            assert_eq!(decode_axis(msb, lsb) as i32, signed.abs());
        }
    }
}

#[test]
fn burst_decodes_axis_by_axis() {
    assert_eq!(
        decode_sample(&vec![0x7F, 0xF0, 0x80, 0x00, 0xFF, 0xF0]),
        Some(Acceleration { x: 2047, y: 2048, z: 1 })
    );
    assert_eq!(decode_sample(&vec![]), None);
    assert_eq!(decode_sample(&vec![0; 5]), None);
    assert_eq!(decode_sample(&vec![0; 7]), None);
    assert_eq!(decode_sample(&vec![0; 6]), Some(Acceleration { x: 0, y: 0, z: 0 }));
}

#[test]
fn address_byte_carries_the_direction_in_bit_zero() {
    assert_eq!(I2C_ADDRESS, 0x1D);
    assert_eq!(make_address_byte(0x1D, false), 0x3A);
    assert_eq!(make_address_byte(0x1D, true), 0x3B);
    assert_eq!(make_address_byte(0x2A, false), 0x54);
    assert_eq!(make_address_byte(0x80, false), 0x00);
    assert_eq!(make_address_byte(0xFF, true), 0xFF);
}

#[test]
fn active_bit_is_bit_zero() {
    assert_eq!(set_active_bit(0x00), 0x01);
    assert_eq!(set_active_bit(0xFE), 0xFF);
    assert_eq!(set_active_bit(0x29), 0x29);
    assert_eq!(clear_active_bit(0xFF), 0xFE);
    assert_eq!(clear_active_bit(0x01), 0x00);
    assert_eq!(clear_active_bit(0x28), 0x28);
}

#[test]
fn rate_field_sits_in_bits_three_to_five() {
    assert_eq!(set_rate_field(0x00, 6), 0b0011_0000);
    assert_eq!(set_rate_field(0xFF, 0), 0b1100_0111);
    assert_eq!(set_rate_field(0xFF, 7), 0xFF);
    assert_eq!(set_rate_field(0b1011_1001, 2), 0b1001_0001);
    for control in 0..=255u8 {
        for index in 0..8u8 {
            let updated = set_rate_field(control, index);
            assert_eq!((updated >> 3) & 7, index);
            assert_eq!(updated & 0xC7, control & 0xC7);
        }
    }
}

#[test]
fn scale_range_is_capped_and_encoded() {
    assert_eq!(scale_ranges(), [2, 4, 8]);
    assert_eq!(encode_scale_range(2), 0);
    assert_eq!(encode_scale_range(4), 1);
    assert_eq!(encode_scale_range(8), 2);
    assert_eq!(encode_scale_range(9), 2);
    assert_eq!(encode_scale_range(0), 0);
    assert_eq!(encode_scale_range(7), 1);
    assert_eq!(clamp_scale_range(9), 8);
    assert_eq!(clamp_scale_range(0), 0);
    assert_eq!(clamp_scale_range(5), 5);
    assert_eq!(clamp_scale_range(255), 8);
}

#[test]
fn rates_and_their_indexes() {
    let rates = output_rates();
    assert_eq!(rates, [80000, 40000, 20000, 10000, 5000, 1250, 625, 156]);
    for (position, rate) in rates.iter().enumerate() {
        assert_eq!(rate_index(*rate), Some(position as u8));
        assert_eq!(closest_rate(*rate as i64), *rate);
    }
    assert_eq!(rate_index(0), None);
    assert_eq!(rate_index(157), None);
    assert_eq!(rate_index(u32::MAX), None);
}

#[test]
fn closest_rate_rounds_down() {
    let rates = output_rates();
    for requested in 1..=90000i64 {
        let granted = closest_rate(requested);
        assert!(rates.contains(&granted));
        if requested >= 156 {
            assert!(granted as i64 <= requested);
            for rate in rates {
                assert!(rate as i64 > requested || rate <= granted);
            }
        } else {
            assert_eq!(granted, 156);
        }
    }
    assert_eq!(closest_rate(0), 0);
    assert_eq!(closest_rate(-5), 0);
}

#[test]
fn transactions_are_spelled_out() {
    assert_eq!(
        Transaction::register_read(0x0D).actions,
        vec![
            BusAction::EnableI2c,
            BusAction::Start(0x3A),
            BusAction::Tx(vec![0x0D]),
            BusAction::Start(0x3B),
            BusAction::Rx(1),
            BusAction::Stop,
        ]
    );
    assert_eq!(
        Transaction::burst_read().actions,
        vec![
            BusAction::Start(0x3A),
            BusAction::Tx(vec![0x01]),
            BusAction::Start(0x3B),
            BusAction::Rx(6),
            BusAction::Stop,
        ]
    );
    assert_eq!(
        Transaction::register_write(0x0E, 2).actions,
        vec![
            BusAction::EnableI2c,
            BusAction::Start(0x1C),
            BusAction::Tx(vec![2]),
            BusAction::Stop,
        ]
    );
    assert_eq!(
        Transaction::control_write(0x31).actions,
        vec![
            BusAction::EnableI2c,
            BusAction::Start(0x3A),
            BusAction::Tx(vec![0x2A, 0x31]),
            BusAction::Stop,
        ]
    );
}

#[test]
fn replies_are_read_by_length() {
    assert_eq!(BusReply::Completed(vec![9]).single_byte(), Some(9));
    assert_eq!(BusReply::Completed(vec![]).single_byte(), None);
    assert_eq!(BusReply::Completed(vec![9, 9]).single_byte(), None);
    assert_eq!(BusReply::Failed.single_byte(), None);
    assert!(BusReply::Completed(vec![]).acknowledges());
    assert!(!BusReply::Completed(vec![0]).acknowledges());
    assert!(!BusReply::Failed.acknowledges());
    assert_eq!(VALID_CHIP_ID, 42);
}
