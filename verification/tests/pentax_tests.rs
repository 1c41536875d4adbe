use fpexif::bytes::Endianness;
use fpexif::pentax::{
    decode_date_from_bytes, decode_firmware_version, decode_time_from_bytes, decrypt_shutter_count,
    format_bytes_as_hex, parse_pentax_maker_notes,
};
use fpexif::types::{ExifError, ExifValue};

#[test]
fn shutter_count_cipher_round_trips() {
    let date = [0x07u8, 0xE5, 0x03, 0x0F];
    let time = [0x0Cu8, 0x1E, 0x2D];
    let value: u32 = 12345;
    let date_word = u32::from_be_bytes(date);
    let time_word = u32::from_be_bytes([time[0], time[1], time[2], 0]);
    let enc = (value ^ date_word ^ (0xFFFF_FFFF - time_word)).to_be_bytes();
    assert_eq!(decrypt_shutter_count(&enc, &date, &time), Some(value));
    let again = decrypt_shutter_count(&enc, &date, &time).unwrap().to_be_bytes();
    assert_eq!(decrypt_shutter_count(&again, &date, &time), Some(u32::from_be_bytes(enc)));
    assert_eq!(decrypt_shutter_count(&enc[..3], &date, &time), None);
    assert_eq!(decrypt_shutter_count(&enc, &date[..3], &time), None);
}

#[test]
fn date_time_and_hex() {
    assert_eq!(decode_date_from_bytes(&[0x07, 0xE5, 3, 15]), Some("2021:03:15".to_string()));
    assert_eq!(decode_date_from_bytes(&[0x07, 0xE5, 13, 15]), None);
    assert_eq!(decode_time_from_bytes(&[12, 30, 45]), Some("12:30:45".to_string()));
    assert_eq!(decode_time_from_bytes(&[24, 0, 0]), None);
    assert_eq!(format_bytes_as_hex(&[0x0a, 0xff]), "0a ff");
    assert_eq!(decode_firmware_version(&[0xfe, 0xfd, 0xfc, 0xfb]), "1.02.03.04");
    assert_eq!(decode_firmware_version(&[0x01]), "01");
}

#[test]
fn parses_aoc_note_with_quality() {
    let mut d = b"AOC\0MM".to_vec();
    d.extend_from_slice(&[0, 1]);
    d.extend_from_slice(&[0x00, 0x08, 0, 3, 0, 0, 0, 1, 0, 2, 0, 0]);
    let tags = parse_pentax_maker_notes(&d, Endianness::Little, None, 0).ok().unwrap();
    assert_eq!(tags.len(), 1);
    assert!(matches!(&tags[&0x0008].value, ExifValue::Ascii(s) if s == "Best"));
    assert_eq!(tags[&0x0008].tag_name, Some("Quality"));
}

#[test]
fn pentax_count_error() {
    let d = b"PENTAX \0MM\0\x2a\0\0\0\x08\0".to_vec();
    match parse_pentax_maker_notes(&d, Endianness::Big, None, 0) {
        Err(ExifError::Format(m)) => assert_eq!(m, "Failed to read Pentax maker note count"),
        Ok(t) => panic!("unexpected tags: {}", t.len()),
    }
}
