use fpexif::bytes::Endianness;
use fpexif::nikon::{
    decode_focus_mode_exiftool, decode_focus_mode_exiv2, decode_shooting_mode_exiftool,
    decode_shooting_mode_exiv2, get_exiv2_nikon_subfield, get_nikon_tag_name, nikon_decrypt, NIKON_AF_INFO_2,
};
use fpexif::nikon_af::{
    decode_af_points_grid, decode_af_points_used, decode_primary_af_point, parse_af_info, parse_af_info2,
    sort_af_points,
};
use fpexif::nikon_flash::{parse_flash_info, parse_iso_info};
use fpexif::nikon_lens::parse_lens_data;
use fpexif::nikon_parse::{parse_nikon_maker_notes, parse_u32};
use fpexif::nikon_wb::parse_color_balance;
use fpexif::types::{ExifError, ExifValue};

fn pairs(v: &[(&'static str, String)]) -> Vec<(String, String)> {
    v.iter().map(|(a, b)| (a.to_string(), b.clone())).collect()
}

fn expect(v: &[(&str, &str)]) -> Vec<(String, String)> {
    v.iter().map(|(a, b)| (a.to_string(), b.to_string())).collect()
}

fn ascii(v: &ExifValue) -> Option<&str> {
    match v {
        ExifValue::Ascii(s) => Some(s.as_str()),
        _ => None,
    }
}

/// A type 3 note, big-endian: FocusMode "MANUAL", ShutterCount 1234,
/// ISO (0, 200) and WB_RBLevels (512, 384).
fn sample_note() -> Vec<u8> {
    let mut d = b"Nikon\0".to_vec();
    d.extend_from_slice(&[0x02, 0x10, 0, 0]);
    d.extend_from_slice(b"MM\x00\x2a");
    d.extend_from_slice(&[0, 0, 0, 8]);
    d.extend_from_slice(&[0, 4]);
    d.extend_from_slice(&[0x00, 0x07, 0, 2, 0, 0, 0, 7, 0, 0, 0, 62]);
    d.extend_from_slice(&[0x00, 0xA7, 0, 4, 0, 0, 0, 1, 0, 0, 0x04, 0xD2]);
    d.extend_from_slice(&[0x00, 0x02, 0, 3, 0, 0, 0, 2, 0, 0, 0, 200]);
    d.extend_from_slice(&[0x00, 0x0C, 0, 3, 0, 0, 0, 2, 0x02, 0x00, 0x01, 0x80]);
    d.extend_from_slice(&[0, 0, 0, 0]);
    d.extend_from_slice(b"MANUAL\0");
    d
}

#[test]
fn parses_type3_note() {
    let tags = parse_nikon_maker_notes(&sample_note(), Endianness::Little, None, None, 0, None)
        .ok()
        .unwrap();
    assert_eq!(tags.len(), 7);
    assert_eq!(ascii(&tags[&0x0007].value), Some("Manual"));
    assert_eq!(tags[&0x0007].tag_name, Some("FocusMode"));
    assert_eq!(ascii(&tags[&0xA000].value), Some("Off"));
    assert!(matches!(&tags[&0x00A7].value, ExifValue::Long(v) if v == &vec![1234]));
    assert!(matches!(&tags[&0xFFFF].value, ExifValue::Short(v) if v == &vec![200]));
    assert!(!tags.contains_key(&0x0002));
    assert_eq!(ascii(&tags[&0x000C].value), Some("512 384"));
    assert_eq!(ascii(&tags[&0xFE00].value), Some("2.000000"));
    assert_eq!(ascii(&tags[&0xFE01].value), Some("1.500000"));
}

#[test]
fn short_note_has_no_tags() {
    let tags = parse_nikon_maker_notes(b"Nikon\0", Endianness::Big, None, None, 0, None).ok().unwrap();
    assert!(tags.is_empty());
}

#[test]
fn unreadable_entry_count_is_an_error() {
    let mut d = b"Nikon\0".to_vec();
    d.extend_from_slice(&[0, 0, 0, 0]);
    d.extend_from_slice(b"MM\x00\x2a");
    d.extend_from_slice(&[0, 0, 0, 7]);
    match parse_nikon_maker_notes(&d, Endianness::Big, None, None, 0, None) {
        Err(ExifError::Format(m)) => assert_eq!(m, "Failed to read Nikon maker note count"),
        Ok(_) => panic!("expected an error"),
    }
}

#[test]
fn af_info_bitmask_order_depends_on_model() {
    let d = [1u8, 2, 0x00, 0x05];
    assert_eq!(
        pairs(&parse_af_info(&d, Some("NIKON D70"))),
        expect(&[("AFAreaMode", "Dynamic Area"), ("AFPoint", "Bottom"), ("AFPointsInFocus", "Center,Bottom")])
    );
    assert_eq!(
        pairs(&parse_af_info(&d, None)),
        expect(&[
            ("AFAreaMode", "Dynamic Area"),
            ("AFPoint", "Bottom"),
            ("AFPointsInFocus", "Lower-right,Far Right"),
        ])
    );
    let unknown_bit = [0u8, 0, 0x10, 0x00];
    assert_eq!(
        pairs(&parse_af_info(&unknown_bit, Some("NIKON D3"))),
        expect(&[("AFAreaMode", "Single Area"), ("AFPoint", "Center"), ("AFPointsInFocus", "[12]")])
    );
    assert!(parse_af_info(&[], None).is_empty());
}

#[test]
fn af_info2_with_51_point_schema() {
    let mut d = b"0100".to_vec();
    d.extend_from_slice(&[0, 1, 1, 1, 6, 0, 0, 2, 0, 0, 0]);
    assert_eq!(
        pairs(&parse_af_info2(&d)),
        expect(&[
            ("AFInfo2Version", "0100"),
            ("AFDetectionMethod", "Phase Detect"),
            ("ContrastDetectAF", "Off"),
            ("AFAreaMode", "Dynamic Area"),
            ("PhaseDetectAF", "On (51-point)"),
            ("FocusPointSchema", "51-point"),
            ("PrimaryAFPoint", "C6 (Center)"),
            ("AFPointsUsed", "A5,B6,C10"),
        ])
    );
    assert!(parse_af_info2(b"0100").is_empty());
    assert_eq!(get_exiv2_nikon_subfield(NIKON_AF_INFO_2, "AFAreaMode"), Some(("NikonAf2", "AFAreaMode")));
}

#[test]
fn points_used_are_sorted_by_row_and_column() {
    assert_eq!(decode_af_points_used(&[6, 0, 0, 2, 0, 0, 0], 1), "A5,B6,C10");
    assert_eq!(decode_af_points_used(&[1, 4, 0, 2, 0, 0, 0], 1), "C5,C6,C10");
    assert_eq!(decode_af_points_used(&[0, 0, 0, 0, 0, 0, 0], 1), "(none)");
    assert_eq!(decode_af_points_used(&[1, 0], 1), "(none)");
    assert_eq!(decode_af_points_used(&[0xff, 0x07], 2), "All 11 Points");
    assert_eq!(decode_af_points_used(&[0x81, 0x00], 2), "Center, Mid-right");
    assert_eq!(decode_af_points_used(&[0xAB, 0x01], 9), "AB 01");
    assert_eq!(decode_af_points_used(&[0, 0], 9), "(none)");
    assert_eq!(decode_af_points_used(&[1, 2, 3], 0), "(none)");
}

#[test]
fn primary_af_point_by_schema() {
    assert_eq!(decode_primary_af_point(0, 0), "(none)");
    assert_eq!(decode_primary_af_point(7, 0), "7");
    assert_eq!(decode_primary_af_point(5, 12), "5");
    assert_eq!(decode_primary_af_point(1, 1), "C6 (Center)");
    assert_eq!(decode_primary_af_point(3, 1), "A5");
    assert_eq!(decode_primary_af_point(52, 1), "Unknown (52)");
    assert_eq!(decode_primary_af_point(8, 2), "Mid-right");
    assert_eq!(decode_primary_af_point(82, 5), "F8 (Center)");
    assert_eq!(decode_primary_af_point(16, 5), "B2");
    assert_eq!(decode_primary_af_point(115, 6), "F11 (Center)");
    assert_eq!(decode_primary_af_point(1, 7), "E9 (Center)");
    assert_eq!(decode_primary_af_point(1, 8), "E5");
    assert_eq!(decode_primary_af_point(1, 9), "D8 (Center)");
    assert_eq!(decode_primary_af_point(0, 4), "(none)");
}

#[test]
fn flash_info_version_0103() {
    let mut d = b"0103".to_vec();
    d.extend_from_slice(&[1, 0, 5, 2, 0x05, 0x81, 0xFA]);
    assert_eq!(
        pairs(&parse_flash_info(&d, None)),
        expect(&[
            ("FlashInfoVersion", "0103"),
            ("FlashSource", "External"),
            ("ExternalFlashFirmware", "5.02 (SB-900)"),
            ("ExternalFlashFlags", "Fired, Bounce Flash"),
            ("FlashCommanderMode", "On"),
            ("FlashControlMode", "iTTL-BL"),
            ("FlashCompensation", "+1"),
        ])
    );
    let z = parse_flash_info(&d, Some("NIKON Z 6"));
    assert!(z.iter().all(|(n, _)| *n != "FlashControlMode"));
    assert!(parse_flash_info(b"010", None).is_empty());
}

#[test]
fn iso_info_fields() {
    let mut d = vec![0u8; 14];
    d[0] = 72;
    d[4] = 0x01;
    d[5] = 0x01;
    assert_eq!(
        pairs(&parse_iso_info(&d)),
        expect(&[("ISO", "200"), ("ISOExpansion", "Hi 0.3"), ("ISOExpansion2", "Off")])
    );
}

#[test]
fn color_balance_0103_levels_and_balances() {
    let mut d = b"0103".to_vec();
    d.extend_from_slice(&[0u8; 16]);
    d.extend_from_slice(&[0x02, 0x00, 0x01, 0x00, 0x01, 0x80, 0x01, 0x00]);
    assert_eq!(
        pairs(&parse_color_balance(&d, Endianness::Little, None, None)),
        expect(&[
            ("ColorBalanceVersion", "0103"),
            ("WB_RGBGLevels", "512 256 384 256"),
            ("RedBalance", "2.000000"),
            ("BlueBalance", "1.500000"),
        ])
    );
    assert!(parse_color_balance(b"0103", Endianness::Little, None, None).is_empty());
}

#[test]
fn lens_data_0100_gives_id_bytes() {
    let mut d = b"0100".to_vec();
    d.extend_from_slice(&[0, 0, 0x4a, 0x48, 0x50, 0x50, 0x14, 0x14, 0x06]);
    let (tags, id) = parse_lens_data(&d, None, None);
    assert_eq!(id, Some([0x4a, 0x48, 0x50, 0x50, 0x14, 0x14, 0x06]));
    assert_eq!(tags[0], ("LensDataVersion", "0100".to_string()));
    assert_eq!(tags[1], ("LensIDNumber", "74".to_string()));
    let (none, no_id) = parse_lens_data(b"0204", None, None);
    assert_eq!(none.len(), 1);
    assert_eq!(no_id, None);
}

#[test]
fn decrypting_twice_restores_data() {
    let orig: Vec<u8> = (0u8..64).collect();
    let mut d = orig.clone();
    nikon_decrypt(0x1234, 5678, &mut d, 4);
    assert_eq!(&d[..4], &orig[..4]);
    assert_ne!(d, orig);
    nikon_decrypt(0x1234, 5678, &mut d, 4);
    assert_eq!(d, orig);
}

#[test]
fn parse_u32_accepts_what_str_parse_accepts() {
    for s in ["", "+", "-1", "12", "+12", "0042", "4294967295", "4294967296", "1a", " 1"] {
        assert_eq!(parse_u32(s), s.parse::<u32>().ok(), "{:?}", s);
    }
}

#[test]
fn tag_names() {
    assert_eq!(get_nikon_tag_name(0x00A7), Some("ShutterCount"));
    assert_eq!(get_nikon_tag_name(0x000C), Some("WB_RBLevels"));
}

#[test]
fn packed_rationals_in_a_note() {
    // ProgramShift bytes (-1, 1, 3) and LensFStops bytes (6, 1, 12), both UNDEFINED.
    let mut d = b"Nikon\0".to_vec();
    d.extend_from_slice(&[0x02, 0x10, 0, 0]);
    d.extend_from_slice(b"MM\x00\x2a");
    d.extend_from_slice(&[0, 0, 0, 8]);
    d.extend_from_slice(&[0, 2]);
    d.extend_from_slice(&[0x00, 0x0D, 0, 7, 0, 0, 0, 4, 0xFF, 1, 3, 0]);
    d.extend_from_slice(&[0x00, 0x8B, 0, 7, 0, 0, 0, 4, 6, 1, 12, 0]);
    d.extend_from_slice(&[0, 0, 0, 0]);
    let tags = parse_nikon_maker_notes(&d, Endianness::Little, None, None, 0, None).ok().unwrap();
    assert!(matches!(&tags[&0x000D].value, ExifValue::SRational(v) if v == &vec![(-33, 100)]));
    assert!(matches!(&tags[&0x008B].value, ExifValue::Rational(v) if v == &vec![(50, 100)]));
}

#[test]
fn lens_tag_in_a_note() {
    // Lens (0x0084): four RATIONALs 18/1, 55/1, 35/10, 56/10 at offset 26.
    let mut d = b"Nikon\0".to_vec();
    d.extend_from_slice(&[0x02, 0x10, 0, 0]);
    d.extend_from_slice(b"MM\x00\x2a");
    d.extend_from_slice(&[0, 0, 0, 8]);
    d.extend_from_slice(&[0, 1]);
    d.extend_from_slice(&[0x00, 0x84, 0, 5, 0, 0, 0, 4, 0, 0, 0, 26]);
    d.extend_from_slice(&[0, 0, 0, 0]);
    for (n, den) in [(18u32, 1u32), (55, 1), (35, 10), (56, 10)] {
        d.extend_from_slice(&n.to_be_bytes());
        d.extend_from_slice(&den.to_be_bytes());
    }
    let tags = parse_nikon_maker_notes(&d, Endianness::Little, None, None, 0, None).ok().unwrap();
    assert_eq!(ascii(&tags[&0x0084].value), Some("18-55mm f/3.5-5.6"));
}

#[test]
fn sensor_pixel_size_in_a_note() {
    // SensorPixelSize (0x009A): RATIONALs 39/5 and 78/10 at offset 26.
    let mut d = b"Nikon\0".to_vec();
    d.extend_from_slice(&[0x02, 0x10, 0, 0]);
    d.extend_from_slice(b"MM\x00\x2a");
    d.extend_from_slice(&[0, 0, 0, 8]);
    d.extend_from_slice(&[0, 1]);
    d.extend_from_slice(&[0x00, 0x9A, 0, 5, 0, 0, 0, 2, 0, 0, 0, 26]);
    d.extend_from_slice(&[0, 0, 0, 0]);
    for (n, den) in [(39u32, 5u32), (78, 10)] {
        d.extend_from_slice(&n.to_be_bytes());
        d.extend_from_slice(&den.to_be_bytes());
    }
    let tags = parse_nikon_maker_notes(&d, Endianness::Little, None, None, 0, None).ok().unwrap();
    assert_eq!(ascii(&tags[&0x009A].value), Some("7.8 x 7.8 um"));
}

#[test]
fn focus_mode_exiv2_spells_out_padded_values() {
    assert_eq!(decode_focus_mode_exiv2("AF-C  "), "Continuous autofocus");
    assert_eq!(decode_focus_mode_exiv2("AF-S  "), "Single autofocus");
    assert_eq!(decode_focus_mode_exiv2("AF-A  "), "Automatic");
    assert_eq!(decode_focus_mode_exiv2("AF-C"), "AF-C");
    assert_eq!(decode_focus_mode_exiv2("MANUAL"), "Manual");
    assert_eq!(decode_focus_mode_exiftool("AF-C  "), "AF-C");
}

#[test]
fn sorted_points_keep_repeats() {
    let a = sort_af_points(&vec![3]);
    let b = sort_af_points(&vec![40]);
    assert_eq!(sort_af_points(&vec![40, 3, 3]), format!("{},{},{}", a, a, b));
    assert_eq!(sort_af_points(&vec![]), "(none)");
}

#[test]
fn shooting_mode_exiftool_adds_single_frame() {
    assert_eq!(decode_shooting_mode_exiv2(0), "");
    assert_eq!(decode_shooting_mode_exiftool(0), "Single-Frame");
    assert_eq!(decode_shooting_mode_exiv2(0x08), "Self-timer");
    assert_eq!(decode_shooting_mode_exiftool(0x08), "Single-Frame, Self-timer");
    assert_eq!(decode_shooting_mode_exiftool(0x1000), format!("Single-Frame, {}", decode_shooting_mode_exiv2(0x1000)));
    assert_eq!(decode_shooting_mode_exiftool(0x01), decode_shooting_mode_exiv2(0x01));
}

#[test]
fn z_series_flash_info_drops_control_mode() {
    let d = [b'0', b'1', b'0', b'3', 1, 0, 3, 1, 0x80, 0x01, 6, 0, 24, 0, 0, 10, 0, 1, 0x12, 0, 0, 0];
    let all = parse_flash_info(&d, None);
    let z = parse_flash_info(&d, Some("NIKON Z 6"));
    assert_eq!(all[5].0, "FlashControlMode");
    let mut expected = all.clone();
    expected.remove(5);
    assert_eq!(z, expected);
}

#[test]
fn grid_points_with_one_column_and_short_data() {
    assert_eq!(decode_af_points_grid(&[0b101], 1, 1), "A1,C1");
    assert_eq!(decode_af_points_grid(&[1], 1, 5), "A1");
    assert_eq!(decode_af_points_grid(&[0, 0], 15, 21), "(none)");
}

#[test]
fn z_series_flash_info_filters_by_name() {
    let d = [b'0', b'1', b'0', b'6', 1, 0, 3, 1, 0x80, 0x01, 6, 0, 24, 0, 0, 10, 0, 1, 0x12, 0, 0, 0];
    let z = parse_flash_info(&d, Some("NIKON Z 6"));
    let filtered: Vec<_> = parse_flash_info(&d, None).into_iter().filter(|(k, _)| *k != "FlashControlMode").collect();
    assert_eq!(z, filtered);
}

