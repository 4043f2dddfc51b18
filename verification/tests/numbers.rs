use atln_processor::number::{Data, NumberBytes, RangeError, Size};

#[test]
fn size_exponents_and_byte_counts() {
    assert_eq!(Size::Byte.exponent(), 0);
    assert_eq!(Size::Word.exponent(), 1);
    assert_eq!(Size::Dual.exponent(), 2);
    assert_eq!(Size::Quad.exponent(), 3);
    assert_eq!(Size::Byte.size(), 1);
    assert_eq!(Size::Word.size(), 2);
    assert_eq!(Size::Dual.size(), 4);
    assert_eq!(Size::Quad.size(), 8);
}

#[test]
fn size_from_exponent_is_total_up_to_three() {
    assert_eq!(Size::from_exponent(0), Ok(Size::Byte));
    assert_eq!(Size::from_exponent(1), Ok(Size::Word));
    assert_eq!(Size::from_exponent(2), Ok(Size::Dual));
    assert_eq!(Size::from_exponent(3), Ok(Size::Quad));
    assert_eq!(Size::from_exponent(4), Err(RangeError {}));
    assert_eq!(Size::from_exponent(255), Err(RangeError {}));
}

#[test]
fn size_from_exponent_bits_uses_the_low_two_bits() {
    assert_eq!(Size::from_exponent_bits(2), Size::Dual);
    assert_eq!(Size::from_exponent_bits(0b111), Size::Quad);
    assert_eq!(Size::from_exponent_bits(4), Size::Byte);
}

#[test]
fn size_from_byte_count() {
    assert_eq!(Size::from_size(1), Ok(Size::Byte));
    assert_eq!(Size::from_size(2), Ok(Size::Word));
    assert_eq!(Size::from_size(4), Ok(Size::Dual));
    assert_eq!(Size::from_size(8), Ok(Size::Quad));
    assert_eq!(Size::from_size(0), Err(RangeError {}));
    assert_eq!(Size::from_size(3), Err(RangeError {}));
    assert_eq!(Size::from_size(16), Err(RangeError {}));
}

#[test]
fn data_size_value_and_exponent() {
    assert_eq!(Data::Byte(7).size(), Size::Byte);
    assert_eq!(Data::Quad(7).size(), Size::Quad);
    assert_eq!(Data::Word(0xBEEF).value(), 0xBEEF);
    assert_eq!(Data::Dual(0xDEAD_BEEF).exponent(), 2);
}

#[test]
fn data_to_le_bytes_is_least_significant_first() {
    assert_eq!(Data::Byte(0x12).to_le_bytes(), vec![0x12]);
    assert_eq!(Data::Word(0x1234).to_le_bytes(), vec![0x34, 0x12]);
    assert_eq!(Data::Dual(0x1234_5678).to_le_bytes(), vec![0x78, 0x56, 0x34, 0x12]);
    assert_eq!(
        Data::Quad(0x0102_0304_0506_0708).to_le_bytes(),
        vec![0x08, 0x07, 0x06, 0x05, 0x04, 0x03, 0x02, 0x01]
    );
    assert_eq!(Data::Word(1).to_le_bytes(), vec![1, 0]);
}

#[test]
fn data_from_le_bytes_reads_what_was_written() {
    assert_eq!(Data::from_le_bytes(Size::Byte, &[0x12]), Data::Byte(0x12));
    assert_eq!(Data::from_le_bytes(Size::Word, &[0x34, 0x12]), Data::Word(0x1234));
    assert_eq!(Data::from_le_bytes(Size::Dual, &[0x78, 0x56, 0x34, 0x12]), Data::Dual(0x1234_5678));
    assert_eq!(Data::from_le_bytes(Size::Quad, &[0xFF; 8]), Data::Quad(u64::MAX));
    for data in [Data::Byte(200), Data::Word(51_234), Data::Dual(4_000_000_123), Data::Quad(u64::MAX - 5)] {
        assert_eq!(Data::from_le_bytes(data.size(), &data.to_le_bytes()), data);
    }
}

#[test]
fn data_truncate_keeps_the_low_bytes() {
    assert_eq!(Data::truncate(Size::Byte, 0x1234), Data::Byte(0x34));
    assert_eq!(Data::truncate(Size::Word, 0x12_3456), Data::Word(0x3456));
    assert_eq!(Data::truncate(Size::Dual, 0x1_2345_6789), Data::Dual(0x2345_6789));
    assert_eq!(Data::truncate(Size::Quad, u64::MAX), Data::Quad(u64::MAX));
}

#[test]
fn conversions_between_sizes_and_numbers() {
    assert_eq!(Size::from(Data::Byte(9)), Size::Byte);
    assert_eq!(Size::from(Data::Quad(9)), Size::Quad);
    assert_eq!(Size::try_from(NumberBytes(1)), Ok(Size::Byte));
    assert_eq!(Size::try_from(NumberBytes(2)), Ok(Size::Word));
    assert_eq!(Size::try_from(NumberBytes(4)), Ok(Size::Dual));
    assert_eq!(Size::try_from(NumberBytes(8)), Ok(Size::Quad));
    assert_eq!(Size::try_from(NumberBytes(0)), Err(RangeError {}));
    assert_eq!(Size::try_from(NumberBytes(5)), Err(RangeError {}));
    assert_eq!(Data::from(Size::Byte), Data::Byte(0));
    assert_eq!(Data::from(Size::Word), Data::Word(0));
    assert_eq!(Data::from(Size::Dual), Data::Dual(0));
    assert_eq!(Data::from(Size::Quad), Data::Quad(0));
}
