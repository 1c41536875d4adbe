use fpexif::bytes::{read_i16, read_u16, read_u16_at, read_u32, read_u32_at, Endianness};

#[test]
fn byte_orders_mirror_each_other() {
    for (a, b) in [(0u8, 1u8), (0x12, 0x34), (0xff, 0x80)] {
        assert_eq!(read_u16(&[a, b], Endianness::Little), read_u16(&[b, a], Endianness::Big));
    }
    let d = [1u8, 2, 3, 4];
    let r = [4u8, 3, 2, 1];
    assert_eq!(read_u32(&d, Endianness::Little), read_u32(&r, Endianness::Big));
    assert_eq!(read_u32(&d, Endianness::Big), 0x0102_0304);
}

#[test]
fn reads_at_offsets_and_signs() {
    let d = [9u8, 0xff, 0xfe, 0, 0, 0, 5];
    assert_eq!(read_u16_at(&d, 1, Endianness::Big), 0xfffe);
    assert_eq!(read_i16(&d[1..], Endianness::Big), -2);
    assert_eq!(read_u32_at(&d, 3, Endianness::Big), 5);
}
