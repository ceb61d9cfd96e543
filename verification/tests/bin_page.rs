use audiocloud::bin_page::{pack_raw, position_readable_in, position_writable_in, read_binary_within_page, unpack_raw, write_binary_within_page, BinaryPosition, ValuePacking};

/// Packs a number the way an instance driver does: the number is converted to
/// the packing's integer (or floating point) type with Rust's saturating
/// casts, and the bits of that are packed.
fn write_packed_value(value: f64, packing: &ValuePacking) -> [u8; 8] {
    let raw = match packing {
        ValuePacking::UInt8 => (value as u8) as u64,
        ValuePacking::UInt16LE | ValuePacking::UInt16BE => (value as u16) as u64,
        ValuePacking::UInt32LE | ValuePacking::UInt32BE => (value as u32) as u64,
        ValuePacking::Int8 => (value as i8) as u8 as u64,
        ValuePacking::Int16LE | ValuePacking::Int16BE => (value as i16) as u16 as u64,
        ValuePacking::Int32LE | ValuePacking::Int32BE => (value as i32) as u32 as u64,
        ValuePacking::Float32LE | ValuePacking::Float32BE => (value as f32).to_bits() as u64,
        ValuePacking::Float64LE | ValuePacking::Float64BE => value.to_bits(),
    };
    pack_raw(raw, packing)
}

#[test]
fn test_packing_u8() {
    let value = write_packed_value(1.0, &ValuePacking::UInt8);
    assert_eq!(value, [1, 0, 0, 0, 0, 0, 0, 0]);

    let value = write_packed_value(-1.0, &ValuePacking::UInt8);
    assert_eq!(value, [0, 0, 0, 0, 0, 0, 0, 0]);

    let value = write_packed_value(0.9, &ValuePacking::UInt8);
    assert_eq!(value, [0, 0, 0, 0, 0, 0, 0, 0]);
}

#[test]
fn test_packing_i8() {
    let value = write_packed_value(1.0, &ValuePacking::Int8);
    assert_eq!(value, [1, 0, 0, 0, 0, 0, 0, 0]);

    let value = write_packed_value(-1.0, &ValuePacking::Int8);
    assert_eq!(value, [0xff, 0, 0, 0, 0, 0, 0, 0]);

    let value = write_packed_value(-2.0, &ValuePacking::Int8);
    assert_eq!(value, [0xfe, 0, 0, 0, 0, 0, 0, 0]);

    let value = write_packed_value(0.9, &ValuePacking::Int8);
    assert_eq!(value, [0, 0, 0, 0, 0, 0, 0, 0]);
}

#[test]
fn test_packing_u16_le() {
    let value = write_packed_value(1.0, &ValuePacking::UInt16LE);
    assert_eq!(value, [1, 0, 0, 0, 0, 0, 0, 0]);

    let value = write_packed_value(-1.0, &ValuePacking::UInt16LE);
    assert_eq!(value, [0, 0, 0, 0, 0, 0, 0, 0]);

    let value = write_packed_value(0.9, &ValuePacking::UInt16LE);
    assert_eq!(value, [0, 0, 0, 0, 0, 0, 0, 0]);
}

#[test]
fn test_packing_u16_be() {
    let value = write_packed_value(1.0, &ValuePacking::UInt16BE);
    assert_eq!(value, [0, 1, 0, 0, 0, 0, 0, 0]);

    let value = write_packed_value(-1.0, &ValuePacking::UInt16BE);
    assert_eq!(value, [0, 0, 0, 0, 0, 0, 0, 0]);

    let value = write_packed_value(0.9, &ValuePacking::UInt16BE);
    assert_eq!(value, [0, 0, 0, 0, 0, 0, 0, 0]);
}

#[test]
fn test_position_bit() {
    let mut page = [0, 0b1, 0b10, 0b100];
    write_binary_within_page(&mut page, write_packed_value(1.0, &ValuePacking::UInt8), &BinaryPosition::Bit(0, 0));
    assert_eq!(page, [0b1, 0b1, 0b10, 0b100]);

    let mut page = [0, 0b1, 0b10, 0b100];
    write_binary_within_page(&mut page, write_packed_value(1.0, &ValuePacking::UInt8), &BinaryPosition::Bit(1, 0));
    assert_eq!(page, [0, 0b1, 0b10, 0b100]);

    let mut page = [0, 0b1, 0b10, 0b100];
    write_binary_within_page(&mut page, write_packed_value(1.0, &ValuePacking::UInt8), &BinaryPosition::Bit(2, 0));
    assert_eq!(page, [0, 0b1, 0b11, 0b100]);

    let mut page = [0, 0b1, 0b10, 0b100];
    write_binary_within_page(&mut page, write_packed_value(1.0, &ValuePacking::UInt8), &BinaryPosition::Bit(1, 1));
    assert_eq!(page, [0, 0b11, 0b10, 0b100]);
}

#[test]
fn test_position_byte() {
    let mut page = [0, 0b1, 0b10, 0b100];
    write_binary_within_page(&mut page, write_packed_value(1.0, &ValuePacking::UInt8), &BinaryPosition::Byte(0));
    assert_eq!(page, [1, 0b1, 0b10, 0b100]);

    let mut page = [0, 0b1, 0b10, 0b100];
    write_binary_within_page(&mut page, write_packed_value(1.0, &ValuePacking::UInt8), &BinaryPosition::Byte(1));
    assert_eq!(page, [0, 1, 0b10, 0b100]);

    let mut page = [0, 0b1, 0b10, 0b100];
    write_binary_within_page(&mut page, write_packed_value(1.0, &ValuePacking::UInt8), &BinaryPosition::Byte(2));
    assert_eq!(page, [0, 0b1, 1, 0b100]);

    let mut page = [0, 0b1, 0b10, 0b100];
    write_binary_within_page(&mut page, write_packed_value(1.0, &ValuePacking::UInt8), &BinaryPosition::Byte(3));
    assert_eq!(page, [0, 0b1, 0b10, 1]);
}

#[test]
fn test_position_bytes() {
    let mut page = [0, 0b1, 0b10, 0b100];
    write_binary_within_page(&mut page,
                             write_packed_value(1.0, &ValuePacking::UInt16LE),
                             &BinaryPosition::Bytes(0, 1));
    assert_eq!(page, [1, 0, 0b10, 0b100]);

    let mut page = [0, 0b1, 0b10, 0b100];
    write_binary_within_page(&mut page,
                             write_packed_value(1.0, &ValuePacking::UInt16BE),
                             &BinaryPosition::Bytes(0, 1));
    assert_eq!(page, [0, 1, 0b10, 0b100]);

    // putting bytes in the wrong order should not work
    let mut page = [0, 0b1, 0b10, 0b100];
    write_binary_within_page(&mut page,
                             write_packed_value(1.0, &ValuePacking::UInt16BE),
                             &BinaryPosition::Bytes(1, 0));
    assert_eq!(page, [0, 0b1, 0b10, 0b100]);
}

#[test]
fn pack_raw_writes_big_endian_u32() {
    assert_eq!(pack_raw(0x0102_0304, &ValuePacking::UInt32BE), [1, 2, 3, 4, 0, 0, 0, 0]);
    assert_eq!(pack_raw(0x0102_0304, &ValuePacking::Int32LE), [4, 3, 2, 1, 0, 0, 0, 0]);
    assert_eq!(pack_raw(0x0102_0304_0506_0708, &ValuePacking::Float64BE), [1, 2, 3, 4, 5, 6, 7, 8]);
    assert_eq!(pack_raw(0x0102_0304_0506_0708, &ValuePacking::Float64LE), [8, 7, 6, 5, 4, 3, 2, 1]);
    assert_eq!(pack_raw(0x0102_0304_0506_0708, &ValuePacking::UInt16BE), [7, 8, 0, 0, 0, 0, 0, 0]);
}

#[test]
fn unpack_reads_packed_value_back_masked() {
    let raw = 0xfedc_ba98_7654_3210u64;
    let packings = [ValuePacking::UInt8, ValuePacking::UInt16LE, ValuePacking::UInt16BE, ValuePacking::UInt32LE,
                    ValuePacking::UInt32BE, ValuePacking::Int8, ValuePacking::Int16LE, ValuePacking::Int16BE,
                    ValuePacking::Int32LE, ValuePacking::Int32BE, ValuePacking::Float32LE, ValuePacking::Float32BE,
                    ValuePacking::Float64LE, ValuePacking::Float64BE];
    let masks = [0xff, 0xffff, 0xffff, 0xffff_ffff, 0xffff_ffff, 0xff, 0xffff, 0xffff, 0xffff_ffff, 0xffff_ffff,
                 0xffff_ffff, 0xffff_ffff, u64::MAX, u64::MAX];
    for (p, m) in packings.iter().zip(masks.iter()) {
        assert_eq!(unpack_raw(&pack_raw(raw, p), p), raw & m);
    }
}

#[test]
fn unpack_float_bits() {
    let buf = pack_raw(1.5f64.to_bits(), &ValuePacking::Float64BE);
    assert_eq!(f64::from_bits(unpack_raw(&buf, &ValuePacking::Float64BE)), 1.5);
    let buf = pack_raw(0.25f32.to_bits() as u64, &ValuePacking::Float32LE);
    assert_eq!(f32::from_bits(unpack_raw(&buf, &ValuePacking::Float32LE) as u32), 0.25);
}

#[test]
fn read_byte_and_bit_positions() {
    let page = [0u8, 0b1, 0b10, 0b100];
    assert_eq!(read_binary_within_page(&page, &BinaryPosition::Byte(2)), [0b10, 0, 0, 0, 0, 0, 0, 0]);
    assert_eq!(read_binary_within_page(&page, &BinaryPosition::Bit(2, 1)), [1, 0, 0, 0, 0, 0, 0, 0]);
    assert_eq!(read_binary_within_page(&page, &BinaryPosition::Bit(2, 0)), [0, 0, 0, 0, 0, 0, 0, 0]);
    assert_eq!(read_binary_within_page(&page, &BinaryPosition::Bit(2, 9)), [1, 0, 0, 0, 0, 0, 0, 0]);
}

#[test]
fn read_bytes_is_exclusive_and_write_inclusive() {
    let mut page = [0u8; 12];
    write_binary_within_page(&mut page, [1, 2, 3, 4, 5, 6, 7, 8], &BinaryPosition::Bytes(2, 4));
    assert_eq!(page, [0, 0, 1, 2, 3, 0, 0, 0, 0, 0, 0, 0]);
    assert_eq!(read_binary_within_page(&page, &BinaryPosition::Bytes(2, 4)), [1, 2, 0, 0, 0, 0, 0, 0]);
    // at most eight bytes either way
    let mut page = [0u8; 12];
    write_binary_within_page(&mut page, [1, 2, 3, 4, 5, 6, 7, 8], &BinaryPosition::Bytes(1, 11));
    assert_eq!(page, [0, 1, 2, 3, 4, 5, 6, 7, 8, 0, 0, 0]);
    assert_eq!(read_binary_within_page(&page, &BinaryPosition::Bytes(0, 12)), [0, 1, 2, 3, 4, 5, 6, 7]);
}

#[test]
fn bit_range_round_trip() {
    let ranges = vec![(3, 7), (12, 14), (20, 22)];
    let mut page = [0xffu8, 0x00, 0xaa];
    let value = [0b1010_1101u8, 0b11, 0, 0, 0, 0, 0, 0];
    write_binary_within_page(&mut page, value, &BinaryPosition::BitRange(ranges.clone()));
    // bits 3..7 of byte 0 get value bits 0..4 (1,0,1,1); bits 12,13 get bits 4,5 (0,1);
    // bits 20,21 get bits 6,7 (0,1)
    assert_eq!(page, [0b1110_1111, 0b0010_0000, 0b1010_1010]);
    let back = read_binary_within_page(&page, &BinaryPosition::BitRange(ranges));
    assert_eq!(back, [0b1010_1101, 0, 0, 0, 0, 0, 0, 0]);
}

#[test]
fn bit_range_empty_range_changes_nothing() {
    let mut page = [0x5au8; 2];
    write_binary_within_page(&mut page, [0xff; 8], &BinaryPosition::BitRange(vec![(9, 9), (5, 2)]));
    assert_eq!(page, [0x5a, 0x5a]);
    assert_eq!(read_binary_within_page(&page, &BinaryPosition::BitRange(vec![(9, 9)])), [0; 8]);
}

#[test]
fn bit_range_later_write_wins() {
    let mut page = [0u8; 1];
    write_binary_within_page(&mut page, [0b01, 0, 0, 0, 0, 0, 0, 0], &BinaryPosition::BitRange(vec![(0, 1), (0, 1)]));
    assert_eq!(page, [0]);
}

#[test]
fn positions_fit_page() {
    assert!(position_writable_in(&BinaryPosition::Byte(3), 4));
    assert!(!position_writable_in(&BinaryPosition::Byte(4), 4));
    assert!(position_writable_in(&BinaryPosition::Bytes(2, 3), 4));
    assert!(position_writable_in(&BinaryPosition::Bytes(3, 2), 4));
    assert!(!position_writable_in(&BinaryPosition::Bytes(4, 2), 4));
    assert!(!position_writable_in(&BinaryPosition::Bytes(0, 4), 4));
    assert!(position_readable_in(&BinaryPosition::Bytes(0, 4), 4));
    assert!(!position_readable_in(&BinaryPosition::Bytes(3, 2), 4));
    assert!(position_writable_in(&BinaryPosition::Bit(1, 9), 2));
    assert!(!position_writable_in(&BinaryPosition::Bit(2, 0), 2));
    assert!(position_writable_in(&BinaryPosition::BitRange(vec![(0, 8), (12, 16), (9, 3)]), 2));
    assert!(!position_writable_in(&BinaryPosition::BitRange(vec![(0, 17)]), 2));
    assert!(position_writable_in(&BinaryPosition::BitRange(vec![(0, 64)]), 8));
    assert!(!position_writable_in(&BinaryPosition::BitRange(vec![(0, 32), (32, 65)]), 16));
    assert!(position_writable_in(&BinaryPosition::BitRange(vec![]), 0));
}
