use mpu6886::bits::{get_bit, get_bits, set_bit, set_bits};

#[test]
fn get_bit_extracts_each_position() {
    let byte: u8 = 0b1010_0101;
    assert_eq!(get_bit(byte, 0), 1);
    assert_eq!(get_bit(byte, 1), 0);
    assert_eq!(get_bit(byte, 2), 1);
    assert_eq!(get_bit(byte, 3), 0);
    assert_eq!(get_bit(byte, 4), 0);
    assert_eq!(get_bit(byte, 5), 1);
    assert_eq!(get_bit(byte, 6), 0);
    assert_eq!(get_bit(byte, 7), 1);
}

#[test]
fn set_bit_then_get_bit_round_trips_and_keeps_other_bits() {
    for n in 0u8..8 {
        for &value in &[true, false] {
            let original: u8 = 0b0101_1010;
            let mut byte = original;
            set_bit(&mut byte, n, value);
            assert_eq!(get_bit(byte, n), if value { 1 } else { 0 });
            for m in 0u8..8 {
                if m != n {
                    assert_eq!(get_bit(byte, m), get_bit(original, m));
                }
            }
        }
    }
}

#[test]
fn set_bit_concrete_values() {
    let mut byte: u8 = 0x00;
    set_bit(&mut byte, 7, true);
    assert_eq!(byte, 0x80);
    set_bit(&mut byte, 0, true);
    assert_eq!(byte, 0x81);
    set_bit(&mut byte, 7, false);
    assert_eq!(byte, 0x01);
}

#[test]
fn get_bits_extracts_fields_right_aligned() {
    let byte: u8 = 0b1101_0110;
    assert_eq!(get_bits(byte, 0, 3), 0b110);
    assert_eq!(get_bits(byte, 3, 2), 0b10);
    assert_eq!(get_bits(byte, 4, 4), 0b1101);
    assert_eq!(get_bits(byte, 0, 8), byte);
}

#[test]
fn set_bits_then_get_bits_round_trips() {
    for start in 0u8..8 {
        for len in 1u8..=8 {
            if start + len <= 8 {
                for v in 0u8..(1u16 << len) as u8 {
                    let mut byte: u8 = 0b0110_1001;
                    set_bits(&mut byte, start, len, v);
                    assert_eq!(get_bits(byte, start, len), v);
                }
            }
        }
    }
}

#[test]
fn set_bits_preserves_bits_outside_the_field() {
    let mut byte: u8 = 0xff;
    set_bits(&mut byte, 3, 2, 0b01);
    assert_eq!(byte, 0b1110_1111);
    let mut byte2: u8 = 0x00;
    set_bits(&mut byte2, 3, 2, 0b10);
    assert_eq!(byte2, 0b0001_0000);
}

#[test]
fn set_bits_full_byte() {
    let mut byte: u8 = 0x5a;
    set_bits(&mut byte, 0, 8, 0xab);
    assert_eq!(byte, 0xab);
}

#[test]
fn set_bits_masks_oversized_values() {
    // a value wider than the field is truncated to the field, never an error
    let mut byte: u8 = 0x00;
    set_bits(&mut byte, 0, 3, 0b1111_1101);
    assert_eq!(byte, 0b101);
}
