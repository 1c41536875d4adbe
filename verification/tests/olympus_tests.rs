use fpexif::bytes::Endianness;
use fpexif::olympus::{
    decode_af_point_by_model, decode_fi_image_stabilization, decode_flash_mode_exiftool,
    decode_special_mode, get_exiv2_group_for_ifd, get_olympus_tag_name, parse_olympus_maker_notes,
    OlympusIfdType,
};
use fpexif::types::ExifValue;

#[test]
fn special_mode_formats_three_values() {
    assert_eq!(decode_special_mode(&[0, 5, 1]), "Normal, Sequence: 5, Panorama: Left to Right");
    assert_eq!(decode_special_mode(&[9, 1, 2]), "Unknown (9), Sequence: 1, Panorama: Unknown (2)");
    assert_eq!(decode_special_mode(&[3, 0, 7]), "Panorama, Sequence: 0, Panorama: Unknown (7)");
    assert_eq!(decode_special_mode(&[1, 2]), "[1, 2]");
}

#[test]
fn flash_mode_bits_are_joined() {
    assert_eq!(decode_flash_mode_exiftool(0), "Off");
    assert_eq!(decode_flash_mode_exiftool(0x05), "On, Red-eye");
    assert_eq!(decode_flash_mode_exiftool(0x40), "Unknown (64)");
}

#[test]
fn af_point_depends_on_model() {
    assert_eq!(decode_af_point_by_model(0x46, Some("E-M1")), "70");
    assert_eq!(decode_af_point_by_model(0x46, Some("E-3")), "Center (horizontal); All Target");
    assert_eq!(decode_af_point_by_model(1, None), "Center (horizontal)");
    assert_eq!(decode_af_point_by_model(7, None), "Unknown (7)");
}

#[test]
fn image_stabilization_blob() {
    assert_eq!(decode_fi_image_stabilization(&[0, 0, 0, 0]), "Off");
    assert_eq!(decode_fi_image_stabilization(&[1, 0, 0, 0]), "On");
    assert_eq!(decode_fi_image_stabilization(&[1, 2]), "Unknown");
}

#[test]
fn tag_names_and_groups() {
    assert_eq!(get_olympus_tag_name(0x0200, OlympusIfdType::Main), Some("SpecialMode"));
    assert_eq!(get_exiv2_group_for_ifd(OlympusIfdType::Equipment), "OlympusEq");
}

#[test]
fn parses_new_format_note() {
    // "OLYMPUS\0" "II" version, one entry: Macro (0x0202) SHORT 1 = 1
    let mut d: Vec<u8> = b"OLYMPUS\0II\x03\x00".to_vec();
    d.extend_from_slice(&[1, 0]);
    d.extend_from_slice(&[0x02, 0x02, 3, 0, 1, 0, 0, 0, 1, 0, 0, 0]);
    let tags = parse_olympus_maker_notes(&d, Endianness::Little, None, 0, None).unwrap();
    let t = tags.get(&0x0202).unwrap();
    match &t.value {
        ExifValue::Ascii(s) => assert_eq!(s, "On"),
        other => panic!("unexpected {:?}", other),
    }
    assert_eq!(t.exiv2_group, Some("Olympus2"));
}

#[test]
fn focal_plane_diagonal_in_millimetres() {
    // FocalPlaneDiagonal (0x0205) RATIONAL 1 = 22/7 at offset 26.
    let mut d: Vec<u8> = b"OLYMPUS\0II\x03\x00".to_vec();
    d.extend_from_slice(&[1, 0]);
    d.extend_from_slice(&[0x05, 0x02, 5, 0, 1, 0, 0, 0, 26, 0, 0, 0]);
    d.extend_from_slice(&22u32.to_le_bytes());
    d.extend_from_slice(&7u32.to_le_bytes());
    let tags = parse_olympus_maker_notes(&d, Endianness::Little, None, 0, None).unwrap();
    match &tags.get(&0x0205).unwrap().value {
        ExifValue::Ascii(s) => assert_eq!(s, "3.143 mm"),
        other => panic!("unexpected {:?}", other),
    }
}

fn af_point_selected(points: [(i32, i32); 5]) -> ExifValue {
    // CameraSettings (0x2020) IFD at offset 30 with AFPointSelected (0x0305)
    // SRATIONAL[5] at offset 48.
    let mut d: Vec<u8> = b"OLYMPUS\0II\x03\x00".to_vec();
    d.extend_from_slice(&[1, 0]);
    d.extend_from_slice(&[0x20, 0x20, 13, 0, 1, 0, 0, 0, 30, 0, 0, 0]);
    d.extend_from_slice(&[0, 0, 0, 0]);
    d.extend_from_slice(&[1, 0]);
    d.extend_from_slice(&[0x05, 0x03, 10, 0, 5, 0, 0, 0, 48, 0, 0, 0]);
    d.extend_from_slice(&[0, 0, 0, 0]);
    for (n, den) in points {
        d.extend_from_slice(&n.to_le_bytes());
        d.extend_from_slice(&den.to_le_bytes());
    }
    let tags = parse_olympus_maker_notes(&d, Endianness::Little, None, 0, None).unwrap();
    tags.get(&0x2325).unwrap().value.duplicate()
}

#[test]
fn af_point_selected_as_percentages() {
    match af_point_selected([(0, 1), (1, 4), (1, 3), (-1, 8), (2, 3)]) {
        ExifValue::Ascii(s) => assert_eq!(s, "(25%,33%) (-13%,66%)"),
        other => panic!("unexpected {:?}", other),
    }
    match af_point_selected([(0, 1), (0, 1), (1, 1000), (0, 0), (0, 5)]) {
        ExifValue::Ascii(s) => assert_eq!(s, "n/a"),
        other => panic!("unexpected {:?}", other),
    }
    match af_point_selected([(0, 0), (0, 0), (0, 0), (0, 0), (0, 0)]) {
        ExifValue::Ascii(s) => assert_eq!(s, "n/a"),
        other => panic!("unexpected {:?}", other),
    }
}
