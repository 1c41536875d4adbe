use fpexif::bytes::Endianness;
use fpexif::panasonic::{decode_af_area_mode_pair, get_panasonic_tag_name, parse_panasonic_maker_notes};
use fpexif::types::ExifValue;

#[test]
fn af_area_mode_pairs() {
    assert_eq!(decode_af_area_mode_pair(0, 1), "9-area");
    assert_eq!(decode_af_area_mode_pair(64, 4), "Face Detect + 1-area");
    assert_eq!(decode_af_area_mode_pair(7, 7), "Unknown");
}

#[test]
fn parses_panasonic_note_with_header() {
    let mut d = b"Panasonic\0\0\0".to_vec();
    d.extend_from_slice(&[1, 0]);
    d.extend_from_slice(&[0x29, 0x00, 4, 0, 1, 0, 0, 0, 0x40, 0xE2, 0x01, 0x00]);
    let tags = parse_panasonic_maker_notes(&d, Endianness::Little, None, None, 0).ok().unwrap();
    assert_eq!(get_panasonic_tag_name(0x0029), Some("TimeSincePowerOn"));
    assert!(matches!(&tags[&0x0029].value, ExifValue::Ascii(s) if s == "00:20:34.56"));
    assert_eq!(tags[&0x0029].tag_name, Some("TimeSincePowerOn"));
}

#[test]
fn short_panasonic_note_has_no_tags() {
    let tags = parse_panasonic_maker_notes(b"Panasonic", Endianness::Little, None, None, 0).ok().unwrap();
    assert!(tags.is_empty());
}

#[test]
fn af_point_position_as_two_decimals() {
    let mut d = b"Panasonic\0\0\0".to_vec();
    d.extend_from_slice(&[1, 0]);
    d.extend_from_slice(&[0x4D, 0x00, 5, 0, 2, 0, 0, 0, 26, 0, 0, 0]);
    for (n, den) in [(1u32, 2u32), (3, 4)] {
        d.extend_from_slice(&n.to_le_bytes());
        d.extend_from_slice(&den.to_le_bytes());
    }
    let tags = parse_panasonic_maker_notes(&d, Endianness::Little, None, None, 0).ok().unwrap();
    assert!(matches!(&tags[&0x004D].value, ExifValue::Ascii(s) if s == "0.5 0.75"));
}

fn power_on_float(c: u32) -> String {
    let mut val = c as f64 / 100.0;
    let mut prefix = String::new();
    if val >= 24.0 * 3600.0 {
        let days = (val / (24.0 * 3600.0)) as u32;
        prefix = format!("{} days ", days);
        val -= days as f64 * 24.0 * 3600.0;
    }
    let hours = (val / 3600.0) as u32;
    val -= hours as f64 * 3600.0;
    let minutes = (val / 60.0) as u32;
    val -= minutes as f64 * 60.0;
    format!("{}{:02}:{:02}:{:05.2}", prefix, hours, minutes, val)
}

fn power_on_text(c: u32) -> String {
    let mut d = b"Panasonic\0\0\0".to_vec();
    d.extend_from_slice(&[1, 0]);
    d.extend_from_slice(&[0x29, 0x00, 4, 0, 1, 0, 0, 0]);
    d.extend_from_slice(&c.to_le_bytes());
    let tags = parse_panasonic_maker_notes(&d, Endianness::Little, None, None, 0).ok().unwrap();
    match &tags[&0x0029].value {
        ExifValue::Ascii(s) => s.clone(),
        other => panic!("unexpected {:?}", other),
    }
}

#[test]
fn time_since_power_on_matches_floating_formula() {
    assert_eq!(power_on_text(8640000 * 3 + 360000 * 5 + 6000 * 7 + 905), "3 days 05:07:09.05");
    assert_eq!(power_on_text(0), "00:00:00.00");
    assert_eq!(power_on_text(u32::MAX), power_on_float(u32::MAX));
    let mut x: u64 = 3;
    for i in 0..100000u32 {
        x = x.wrapping_mul(6364136223846793005).wrapping_add(1442695040888963407);
        let r = (x >> 32) as u32;
        let c = match i % 4 {
            0 => r,
            1 => r % 8640000,
            2 => (r % 500) * 8640000 + [0, 1, 8639999][(r % 3) as usize],
            _ => (r / 6000) * 6000 + (r % 3),
        };
        assert_eq!(power_on_text(c), power_on_float(c), "{}", c);
    }
}

#[test]
fn internal_nd_filter_as_shortest_decimal() {
    let mut d = b"Panasonic\0\0\0".to_vec();
    d.extend_from_slice(&[1, 0]);
    d.extend_from_slice(&[0x9D, 0x00, 5, 0, 1, 0, 0, 0, 26, 0, 0, 0]);
    d.extend_from_slice(&2u32.to_le_bytes());
    d.extend_from_slice(&3u32.to_le_bytes());
    let tags = parse_panasonic_maker_notes(&d, Endianness::Little, None, None, 0).ok().unwrap();
    assert!(matches!(&tags[&0x009D].value, ExifValue::Ascii(s) if s == "0.6666666666666666"));
}
