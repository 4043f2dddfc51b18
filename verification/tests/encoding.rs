use atln_processor::driver::{Driver, Registers};
use atln_processor::encoding::{Driver0Encoding, Driver1Encoding, RegistersEncoding};

#[test]
fn driver_new_extracts_every_field() {
    let driver = Driver::new([0b001010_0_1, 0b1111_10_01]);
    assert_eq!(driver.extension, 0b001010);
    assert!(!driver.synchronise);
    assert!(driver.dynamic_destination);
    assert_eq!(driver.operation, 0b1111);
    assert_eq!(driver.addressing, 0b10);
    assert_eq!(driver.immediate_exponent, 0b1);
}

#[test]
fn driver_encode_packs_every_field() {
    let mut driver = Driver {
        operation: 0b1110,
        extension: 0b1010,
        synchronise: true,
        dynamic_destination: false,
        addressing: 0b11,
        immediate_exponent: 0b10,
    };
    let encoded = driver.encode();
    assert_eq!(encoded[0], 0b001010_1_0);
    assert_eq!(encoded[1], 0b1110_11_10);
    assert_eq!(driver.extension, 0b1010);
}

#[test]
fn driver_round_trips_over_all_byte_pairs() {
    for driver0 in 0..=255u8 {
        for driver1 in 0..=255u8 {
            let mut driver = Driver::new([driver0, driver1]);
            assert_eq!(driver.encode(), [driver0, driver1]);
        }
    }
}

#[test]
fn driver_round_trips_over_all_representable_values() {
    for extension in 0..64u8 {
        for operation in 0..16u8 {
            for rest in 0..64u8 {
                let mut driver = Driver {
                    extension,
                    operation,
                    synchronise: rest & 1 == 1,
                    dynamic_destination: rest & 2 == 2,
                    addressing: (rest >> 2) & 3,
                    immediate_exponent: rest >> 4,
                };
                let bytes = driver.encode();
                assert_eq!(Driver::new(bytes), driver);
            }
        }
    }
}

#[test]
fn driver_encode_truncates_wide_fields() {
    let mut driver = Driver {
        extension: 0xFF,
        operation: 0xFF,
        synchronise: false,
        dynamic_destination: false,
        addressing: 0xFF,
        immediate_exponent: 0xFE,
    };
    assert_eq!(driver.encode(), [0b111111_0_0, 0b1111_11_10]);
}

#[test]
fn registers_new_extracts_every_field() {
    assert_eq!(Registers::new(0b00_000_001), Registers { width: 0, x_static: 0, x_dynamic: 1 });
    assert_eq!(Registers::new(0b11_011_111), Registers { width: 3, x_static: 3, x_dynamic: 7 });
    assert_eq!(Registers::new(0b10_000_001), Registers { width: 2, x_static: 0, x_dynamic: 1 });
}

#[test]
fn registers_encode_packs_every_field() {
    assert_eq!(Registers { width: 0, x_static: 0, x_dynamic: 1 }.encode(), 0b00_000_001);
    assert_eq!(Registers { width: 3, x_static: 3, x_dynamic: 7 }.encode(), 0b11_011_111);
    assert_eq!(Registers { width: 2, x_static: 0, x_dynamic: 1 }.encode(), 0b10_000_001);
}

#[test]
fn registers_round_trip_over_all_bytes() {
    for byte in 0..=255u8 {
        let registers = Registers::new(byte);
        assert!(registers.width < 4 && registers.x_static < 8 && registers.x_dynamic < 8);
        assert_eq!(registers.encode(), byte);
    }
}

#[test]
fn extension_field() {
    assert_eq!(0b001101_0_0_u8.extract_extension(), 0b00_001101);
    assert_eq!(0b101010_0_1_u8.extract_extension(), 0b00_101010);
    assert_eq!(0b000000_0_1_u8.set_extension(10), 0b001010_0_1);
    assert_eq!(0b101100_0_0_u8.set_extension(0b101100), 0b101100_0_0);
    assert_eq!(0b101100_1_0_u8.set_extension(0b101100), 0b101100_1_0);
    assert_eq!(0b000000_0_0_u8.set_extension(0b11_111111), 0b111111_0_0);
    assert_eq!(0b000000_0_1_u8.set_extension(0b11_111110), 0b111110_0_1);
}

#[test]
fn synchronise_field() {
    assert!(0b000000_1_0_u8.extract_synchronise());
    assert!(!0b000000_0_0_u8.extract_synchronise());
    assert!(0b001010_1_1_u8.extract_synchronise());
    assert!(!0b001010_0_1_u8.extract_synchronise());
    assert_eq!(0b000000_0_0_u8.set_synchronise(true), 0b000000_1_0);
    assert_eq!(0b000000_1_0_u8.set_synchronise(false), 0b000000_0_0);
    assert_eq!(0b000000_0_1_u8.set_synchronise(true), 0b000000_1_1);
    assert_eq!(0b111111_0_0_u8.set_synchronise(false), 0b111111_0_0);
}

#[test]
fn dynamic_destination_field() {
    assert!(0b000000_0_1_u8.extract_dynamic_destination());
    assert!(!0b000000_0_0_u8.extract_dynamic_destination());
    assert!(0b000000_1_1_u8.extract_dynamic_destination());
    assert!(!0b000000_1_0_u8.extract_dynamic_destination());
    assert_eq!(0b000000_0_0_u8.set_dynamic_destination(true), 0b000000_0_1);
    assert_eq!(0b000000_1_0_u8.set_dynamic_destination(true), 0b000000_1_1);
    assert_eq!(0b000000_0_1_u8.set_dynamic_destination(false), 0b000000_0_0);
    assert_eq!(0b000000_1_1_u8.set_dynamic_destination(false), 0b000000_1_0);
}

#[test]
fn operation_field() {
    assert_eq!(0b1101_00_00_u8.extract_operation(), 0b0000_1101);
    assert_eq!(0b1010_01_10_u8.extract_operation(), 0b0000_1010);
    assert_eq!(0b0001_00_11_u8.set_operation(0b0000_1111), 0b1111_00_11);
    assert_eq!(0b1111_00_10_u8.set_operation(0b0000_1001), 0b1001_00_10);
    assert_eq!(0b1010_00_10_u8.set_operation(0b0000_1010), 0b1010_00_10);
    assert_eq!(0b0000_00_00_u8.set_operation(0b1111_1111), 0b1111_00_00);
    assert_eq!(0b0000_10_01_u8.set_operation(0b1111_1111), 0b1111_10_01);
}

#[test]
fn addressing_field() {
    assert_eq!(0b0011_10_00_u8.extract_addressing(), 0b000000_10);
    assert_eq!(0b1011_11_00_u8.extract_addressing(), 0b000000_11);
    assert_eq!(0b0000_00_00_u8.extract_addressing(), 0b000000_00);
    assert_eq!(0b0000_11_00_u8.set_addressing(0b000000_00), 0b0000_00_00);
    assert_eq!(0b0011_00_00_u8.set_addressing(0b000000_01), 0b0011_01_00);
    assert_eq!(0b1011_00_00_u8.set_addressing(0b000000_00), 0b1011_00_00);
    assert_eq!(0b0000_00_00_u8.set_addressing(0b111111_11), 0b0000_11_00);
    assert_eq!(0b1010_00_01_u8.set_addressing(0b111111_11), 0b1010_11_01);
}

#[test]
fn immediate_exponent_field() {
    assert_eq!(0b0000_00_11_u8.extract_immediate_exponent(), 0b000000_11);
    assert_eq!(0b1010_11_01_u8.extract_immediate_exponent(), 0b000000_01);
    assert_eq!(0b0011_00_00_u8.set_immediate_exponent(0b000000_11), 0b0011_00_11);
    assert_eq!(0b0000_11_00_u8.set_immediate_exponent(0b000000_10), 0b0000_11_10);
    assert_eq!(0b1011_01_00_u8.set_immediate_exponent(0b000000_00), 0b1011_01_00);
    assert_eq!(0b0000_00_00_u8.set_immediate_exponent(0b111111_11), 0b0000_00_11);
    assert_eq!(0b1011_01_00_u8.set_immediate_exponent(0b111111_10), 0b1011_01_10);
}

#[test]
fn width_field() {
    assert_eq!(0b00_000_000_u8.extract_width(), 0b00);
    assert_eq!(0b11_011_110_u8.extract_width(), 0b11);
    assert_eq!(0b10_001_010_u8.extract_width(), 0b10);
    assert_eq!(0b01_000_111_u8.extract_width(), 0b01);
    assert_eq!(0b00_000_000_u8.set_width(0b00), 0b00_000_000);
    assert_eq!(0b00_011_110_u8.set_width(0b11), 0b11_011_110);
    assert_eq!(0b11_001_010_u8.set_width(0b00), 0b00_001_010);
    assert_eq!(0b10_000_111_u8.set_width(0b11), 0b11_000_111);
}

#[test]
fn static_field() {
    assert_eq!(0b10_111_111_u8.extract_static(), 0b111);
    assert_eq!(0b11_101_100_u8.extract_static(), 0b101);
    assert_eq!(0b00_101_010_u8.extract_static(), 0b101);
    assert_eq!(0b01_000_011_u8.extract_static(), 0b000);
    assert_eq!(0b10_011_111_u8.set_static(0b111), 0b10_111_111);
    assert_eq!(0b11_011_100_u8.set_static(0b101), 0b11_101_100);
    assert_eq!(0b00_010_010_u8.set_static(0b101), 0b00_101_010);
    assert_eq!(0b01_000_011_u8.set_static(0b000), 0b01_000_011);
}

#[test]
fn dynamic_field() {
    assert_eq!(0b10_111_111_u8.extract_dynamic(), 0b111);
    assert_eq!(0b11_100_101_u8.extract_dynamic(), 0b101);
    assert_eq!(0b00_010_101_u8.extract_dynamic(), 0b101);
    assert_eq!(0b01_011_000_u8.extract_dynamic(), 0b000);
    assert_eq!(0b10_111_011_u8.set_dynamic(0b111), 0b10_111_111);
    assert_eq!(0b11_100_011_u8.set_dynamic(0b101), 0b11_100_101);
    assert_eq!(0b00_010_010_u8.set_dynamic(0b101), 0b00_010_101);
    assert_eq!(0b01_011_000_u8.set_dynamic(0b000), 0b01_011_000);
}

#[test]
fn set_then_extract_gives_the_truncated_value_and_keeps_other_bits() {
    for byte in 0..=255u8 {
        for value in 0..=255u8 {
            assert_eq!(byte.set_extension(value).extract_extension(), value & 0x3F);
            assert_eq!(byte.set_extension(value) & 0x03, byte & 0x03);
            assert_eq!(byte.set_operation(value).extract_operation(), value & 0x0F);
            assert_eq!(byte.set_operation(value) & 0x0F, byte & 0x0F);
            assert_eq!(byte.set_addressing(value).extract_addressing(), value & 0x03);
            assert_eq!(byte.set_addressing(value) & 0xF3, byte & 0xF3);
            assert_eq!(byte.set_immediate_exponent(value).extract_immediate_exponent(), value & 3);
            assert_eq!(byte.set_immediate_exponent(value) & 0xFC, byte & 0xFC);
            assert_eq!(byte.set_width(value).extract_width(), value & 0x03);
            assert_eq!(byte.set_width(value) & 0x3F, byte & 0x3F);
            assert_eq!(byte.set_static(value).extract_static(), value & 0x07);
            assert_eq!(byte.set_static(value) & 0xC7, byte & 0xC7);
            assert_eq!(byte.set_dynamic(value).extract_dynamic(), value & 0x07);
            assert_eq!(byte.set_dynamic(value) & 0xF8, byte & 0xF8);
        }
        for flag in [false, true] {
            assert_eq!(byte.set_synchronise(flag).extract_synchronise(), flag);
            assert_eq!(byte.set_synchronise(flag) & 0xFD, byte & 0xFD);
            assert_eq!(byte.set_dynamic_destination(flag).extract_dynamic_destination(), flag);
            assert_eq!(byte.set_dynamic_destination(flag) & 0xFE, byte & 0xFE);
        }
    }
}
