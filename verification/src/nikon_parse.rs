//! Reading a Nikon maker note: its directory entries, their values decoded
//! tag by tag, the sub-directories expanded into named fields, and the
//! values derived once the whole directory is read.
use vstd::prelude::*;
use vstd::string::StrSliceExecFns;
use std::collections::HashMap;
use crate::bytes::{Endianness, read_u16_at, read_u32_at, u16_of};
use crate::tiff::{
    at_u16, at_u32, first_bytes, read_shorts, read_sshorts, read_longs, read_slongs, read_rationals,
    read_srationals, read_shorts_exec, read_sshorts_exec, read_longs_exec, read_slongs_exec,
    read_rationals_exec, read_srationals_exec,
};
use crate::text::{
    dec, join, views, zero_pad, int_dec, fmt_int, owned, push_char, push_str, push_dec, push_dec_pad, fmt_dec,
    wrap_dec, join_strings, strip_nuls, trim_end_nuls, trim, trim_str, utf8_lossy, lossy_string,
    utf8_decode, utf8_str, all_digit_chars, all_digits_str, is_digit, hex_list, fmt_hex_list,
    contains, str_contains, starts_with, str_eq, unicode_upper,
};
use crate::types::{ExifValue, ValueView, MakerNoteTag, TagView, ExifError, plain_tag, tag_views};
use crate::ratio::{ratio6_text, rational_text, format_ratio6, format_rational_like_exiftool, packed_hundredths, packed_hundredths_exec, within_tenth, within_tenth_exec, whole_or_tenths, format_lens_value, shortest_text, format_shortest};
use crate::nikon::{
    NIKON_VERSION, NIKON_ISO_SETTING, NIKON_FOCUS_MODE, NIKON_WB_RB_LEVELS, NIKON_ISO_SETTING_2,
    NIKON_COLOR_BALANCE_A, NIKON_IMAGE_PROCESSING, NIKON_CROP_HI_SPEED, NIKON_SERIAL_NUMBER,
    NIKON_COLOR_SPACE, NIKON_VR_INFO, NIKON_IMAGE_AUTHENTICATION, NIKON_FACE_DETECT,
    NIKON_ACTIVE_D_LIGHTING, NIKON_HIGH_ISO_NOISE_REDUCTION, NIKON_PICTURE_CONTROL_DATA,
    NIKON_PICTURE_CONTROL_DATA_2, NIKON_WORLD_TIME, NIKON_ISO_INFO, NIKON_VIGNETTE_CONTROL,
    NIKON_DISTORTION_CONTROL, NIKON_LENS_TYPE, NIKON_FLASH_MODE, NIKON_AF_INFO, NIKON_SHOT_INFO,
    NIKON_NEF_COMPRESSION, NIKON_COLOR_BALANCE, NIKON_LENS_DATA, NIKON_FLASH_INFO,
    NIKON_DATE_STAMP_MODE, NIKON_RETOUCH_HISTORY, NIKON_SHUTTER_COUNT, NIKON_SILENT_PHOTOGRAPHY,
    NIKON_SHOOTING_MODE, NIKON_AUTO_BRACKET_RELEASE, NIKON_MULTI_EXPOSURE, NIKON_POWER_UP_TIME_2,
    NIKON_AF_INFO_2, NIKON_FILE_INFO, NIKON_AF_TUNE, NIKON_RETOUCH_INFO, NIKON_SHUTTER_MODE,
    NIKON_HDR_INFO, NIKON_NEF_BIT_DEPTH, nikon_tag_name, get_nikon_tag_name, nikon_lens_name,
    get_nikon_lens_name, nikon_subfield, get_exiv2_nikon_subfield, keyword_text, keyword_key,
    image_processing_word, lens_type_exiftool_text, flash_mode_text, shooting_mode_text,
    nikon_ascii_text, decode_lens_type_exiftool, decode_flash_mode_exiftool,
    decode_shooting_mode_exiftool, decode_image_processing_exiftool, decode_nikon_ascii_value,
    pairs_view, nikon_crypt, nikon_decrypt, z_series, vr_info_fields, parse_vr_info,
    hdr_info_fields, parse_hdr_info, picture_control_fields, parse_picture_control,
    distort_info_fields, parse_distort_info, af_tune_fields, parse_af_tune, face_detect_fields,
    parse_face_detect, multi_exposure_fields, parse_multi_exposure, shot_info_basic_fields,
    parse_shot_info_basic, file_info_fields, parse_file_info, retouch_info_fields,
    parse_retouch_info, world_time_fields, parse_world_time, crop_hi_speed_fields,
    parse_crop_hi_speed, firmware_len, firmware_len_exec, firmware_text, firmware_string,
    has_timezone_location_in_shotinfo, is_nikon_z_series, NIKON_PROGRAM_SHIFT,
    NIKON_EXPOSURE_DIFFERENCE, NIKON_FLASH_EXPOSURE_COMP, NIKON_EXTERNAL_FLASH_EXPOSURE_COMP,
    NIKON_FLASH_EXPOSURE_BRACKET_VALUE, NIKON_EXPOSURE_TUNING, NIKON_LENS_F_STOPS, NIKON_LENS,
    NIKON_SENSOR_PIXEL_SIZE,
};
use crate::nikon_af::{af_info_fields, parse_af_info, af_info2_fields, parse_af_info2, dslr_model, prefixed};
use crate::nikon_flash::{flash_info_fields, parse_flash_info, iso_info_fields, parse_iso_info};
use crate::nikon_wb::{color_balance_fields, parse_color_balance};
use crate::nikon_lens::{lens_data, parse_lens_data};
use crate::olympus::{first_bytes_slice, opt_bytes};

verus! {

// ---------------------------------------------------------------------------
// Decoders of single values
// ---------------------------------------------------------------------------

/// Active d lighting (ExifTool).
pub open spec fn active_d_lighting_name(value: u16) -> &'static str {
    match value {
        0 => "Off",
        1 => "Low",
        3 => "Normal",
        5 => "High",
        7 => "Extra High",
        8 => "Extra High 1",
        9 => "Extra High 2",
        65535 => "Auto",
        _ => "Unknown",
    }
}

/// Active d lighting (ExifTool).
pub fn decode_active_d_lighting_exiftool(value: u16) -> (r: &'static str)
    ensures
        r == active_d_lighting_name(value),
{
    match value {
        0 => "Off",
        1 => "Low",
        3 => "Normal",
        5 => "High",
        7 => "Extra High",
        8 => "Extra High 1",
        9 => "Extra High 2",
        65535 => "Auto",
        _ => "Unknown",
    }
}


/// Color space (ExifTool).
pub open spec fn color_space_name(value: u16) -> &'static str {
    match value {
        1 => "sRGB",
        2 => "Adobe RGB",
        4 => "BT.2100",
        _ => "Unknown",
    }
}

/// Color space (ExifTool).
pub fn decode_color_space_exiftool(value: u16) -> (r: &'static str)
    ensures
        r == color_space_name(value),
{
    match value {
        1 => "sRGB",
        2 => "Adobe RGB",
        4 => "BT.2100",
        _ => "Unknown",
    }
}


/// Vignette control (ExifTool).
pub open spec fn vignette_control_name(value: u16) -> &'static str {
    match value {
        0 => "Off",
        1 => "Low",
        3 => "Normal",
        5 => "High",
        _ => "Unknown",
    }
}

/// Vignette control (ExifTool).
pub fn decode_vignette_control_exiftool(value: u16) -> (r: &'static str)
    ensures
        r == vignette_control_name(value),
{
    match value {
        0 => "Off",
        1 => "Low",
        3 => "Normal",
        5 => "High",
        _ => "Unknown",
    }
}


/// High iso noise reduction (ExifTool).
pub open spec fn high_iso_noise_reduction_name(value: u16) -> &'static str {
    match value {
        0 => "Off",
        1 => "Minimal",
        2 => "Low",
        3 => "Medium Low",
        4 => "Normal",
        5 => "Medium High",
        6 => "High",
        _ => "Unknown",
    }
}

/// High iso noise reduction (ExifTool).
pub fn decode_high_iso_noise_reduction_exiftool(value: u16) -> (r: &'static str)
    ensures
        r == high_iso_noise_reduction_name(value),
{
    match value {
        0 => "Off",
        1 => "Minimal",
        2 => "Low",
        3 => "Medium Low",
        4 => "Normal",
        5 => "Medium High",
        6 => "High",
        _ => "Unknown",
    }
}


/// Date stamp mode (ExifTool).
pub open spec fn date_stamp_mode_name(value: u16) -> &'static str {
    match value {
        0 => "Off",
        1 => "Date & Time",
        2 => "Date",
        3 => "Date Counter",
        _ => "Unknown",
    }
}

/// Date stamp mode (ExifTool).
pub fn decode_date_stamp_mode_exiftool(value: u16) -> (r: &'static str)
    ensures
        r == date_stamp_mode_name(value),
{
    match value {
        0 => "Off",
        1 => "Date & Time",
        2 => "Date",
        3 => "Date Counter",
        _ => "Unknown",
    }
}


/// Nef compression (ExifTool).
pub open spec fn nef_compression_name(value: u16) -> &'static str {
    match value {
        1 => "Lossy (type 1)",
        2 => "Uncompressed",
        3 => "Lossless",
        4 => "Lossy (type 2)",
        5 => "Striped packed 12 bits",
        6 => "Uncompressed (reduced to 12 bit)",
        7 => "Unpacked 12 bits",
        8 => "Small",
        9 => "Packed 12 bits",
        10 => "Packed 14 bits",
        13 => "High Efficiency",
        14 => "High Efficiency*",
        _ => "Unknown",
    }
}

/// Nef compression (ExifTool).
pub fn decode_nef_compression_exiftool(value: u16) -> (r: &'static str)
    ensures
        r == nef_compression_name(value),
{
    match value {
        1 => "Lossy (type 1)",
        2 => "Uncompressed",
        3 => "Lossless",
        4 => "Lossy (type 2)",
        5 => "Striped packed 12 bits",
        6 => "Uncompressed (reduced to 12 bit)",
        7 => "Unpacked 12 bits",
        8 => "Small",
        9 => "Packed 12 bits",
        10 => "Packed 14 bits",
        13 => "High Efficiency",
        14 => "High Efficiency*",
        _ => "Unknown",
    }
}


/// Retouch history (ExifTool).
pub open spec fn retouch_history_name(value: u16) -> &'static str {
    match value {
        0 => "None",
        3 => "B & W",
        4 => "Sepia",
        5 => "Trim",
        6 => "Small Picture",
        7 => "D-Lighting",
        8 => "Red Eye",
        9 => "Cyanotype",
        10 => "Sky Light",
        11 => "Warm Tone",
        12 => "Color Custom",
        13 => "Image Overlay",
        _ => "Unknown",
    }
}

/// Retouch history (ExifTool).
pub fn decode_retouch_history_exiftool(value: u16) -> (r: &'static str)
    ensures
        r == retouch_history_name(value),
{
    match value {
        0 => "None",
        3 => "B & W",
        4 => "Sepia",
        5 => "Trim",
        6 => "Small Picture",
        7 => "D-Lighting",
        8 => "Red Eye",
        9 => "Cyanotype",
        10 => "Sky Light",
        11 => "Warm Tone",
        12 => "Color Custom",
        13 => "Image Overlay",
        _ => "Unknown",
    }
}


/// Auto bracket release (ExifTool).
pub open spec fn auto_bracket_release_name(value: u16) -> &'static str {
    match value {
        0 => "None",
        1 => "Auto Release",
        2 => "Manual Release",
        _ => "Unknown",
    }
}

/// Auto bracket release (ExifTool).
pub fn decode_auto_bracket_release_exiftool(value: u16) -> (r: &'static str)
    ensures
        r == auto_bracket_release_name(value),
{
    match value {
        0 => "None",
        1 => "Auto Release",
        2 => "Manual Release",
        _ => "Unknown",
    }
}


/// Shutter mode (ExifTool).
pub open spec fn shutter_mode_name(value: u16) -> &'static str {
    match value {
        0 => "Mechanical",
        16 => "Electronic",
        33 => "Unknown (33)",
        48 => "Electronic Front Curtain",
        64 => "Electronic (Movie)",
        80 => "Auto (Mechanical)",
        81 => "Auto (Electronic Front Curtain)",
        96 => "Electronic (High Speed)",
        _ => "Unknown",
    }
}

/// Shutter mode (ExifTool).
pub fn decode_shutter_mode_exiftool(value: u16) -> (r: &'static str)
    ensures
        r == shutter_mode_name(value),
{
    match value {
        0 => "Mechanical",
        16 => "Electronic",
        33 => "Unknown (33)",
        48 => "Electronic Front Curtain",
        64 => "Electronic (Movie)",
        80 => "Auto (Mechanical)",
        81 => "Auto (Electronic Front Curtain)",
        96 => "Electronic (High Speed)",
        _ => "Unknown",
    }
}


/// Image authentication (ExifTool).
pub open spec fn image_authentication_name(value: u8) -> &'static str {
    match value {
        0 => "Off",
        1 => "On",
        _ => "Unknown",
    }
}

/// Image authentication (ExifTool).
pub fn decode_image_authentication_exiftool(value: u8) -> (r: &'static str)
    ensures
        r == image_authentication_name(value),
{
    match value {
        0 => "Off",
        1 => "On",
        _ => "Unknown",
    }
}


/// Silent photography (ExifTool).
pub open spec fn silent_photography_name(value: u16) -> &'static str {
    match value {
        0 => "Off",
        1 => "On",
        _ => "Unknown",
    }
}

/// Silent photography (ExifTool).
pub fn decode_silent_photography_exiftool(value: u16) -> (r: &'static str)
    ensures
        r == silent_photography_name(value),
{
    match value {
        0 => "Off",
        1 => "On",
        _ => "Unknown",
    }
}


/// Crop hi speed (ExifTool).
pub open spec fn crop_hi_speed_name(value: u16) -> &'static str {
    match value {
        0 => "Off",
        1 => "1.3x Crop",
        2 => "DX Crop",
        3 => "5:4 Crop",
        4 => "3:2 Crop",
        6 => "16:9 Crop",
        8 => "2.7x Crop",
        9 => "DX Movie 16:9 Crop",
        10 => "1.3x Movie Crop",
        11 => "FX Uncropped",
        12 => "DX Uncropped",
        13 => "2.8x Movie Crop",
        14 => "1.4x Movie Crop",
        15 => "1.5x Movie Crop",
        17 => "FX 1:1 Crop",
        18 => "DX 1:1 Crop",
        _ => "Unknown",
    }
}

/// Crop hi speed (ExifTool).
pub fn decode_crop_hi_speed_exiftool(value: u16) -> (r: &'static str)
    ensures
        r == crop_hi_speed_name(value),
{
    match value {
        0 => "Off",
        1 => "1.3x Crop",
        2 => "DX Crop",
        3 => "5:4 Crop",
        4 => "3:2 Crop",
        6 => "16:9 Crop",
        8 => "2.7x Crop",
        9 => "DX Movie 16:9 Crop",
        10 => "1.3x Movie Crop",
        11 => "FX Uncropped",
        12 => "DX Uncropped",
        13 => "2.8x Movie Crop",
        14 => "1.4x Movie Crop",
        15 => "1.5x Movie Crop",
        17 => "FX 1:1 Crop",
        18 => "DX 1:1 Crop",
        _ => "Unknown",
    }
}


/// The ExifTool decoding of a single SHORT value of a tag, when it has one.
pub open spec fn short_word(tag: u16, v: u16) -> Option<Seq<char>> {
    if tag == NIKON_ACTIVE_D_LIGHTING {
        Some(active_d_lighting_name(v)@)
    } else if tag == NIKON_COLOR_SPACE {
        Some(color_space_name(v)@)
    } else if tag == NIKON_VIGNETTE_CONTROL {
        Some(vignette_control_name(v)@)
    } else if tag == NIKON_HIGH_ISO_NOISE_REDUCTION {
        Some(high_iso_noise_reduction_name(v)@)
    } else if tag == NIKON_DATE_STAMP_MODE {
        Some(date_stamp_mode_name(v)@)
    } else if tag == NIKON_NEF_COMPRESSION {
        Some(nef_compression_name(v)@)
    } else if tag == NIKON_RETOUCH_HISTORY {
        Some(retouch_history_name(v)@)
    } else if tag == NIKON_SHOOTING_MODE {
        Some(shooting_mode_text(v))
    } else if tag == NIKON_AUTO_BRACKET_RELEASE {
        Some(auto_bracket_release_name(v)@)
    } else if tag == NIKON_SILENT_PHOTOGRAPHY {
        Some(silent_photography_name(v)@)
    } else if tag == NIKON_SHUTTER_MODE {
        Some(shutter_mode_name(v)@)
    } else {
        None
    }
}

fn short_word_exec(tag: u16, v: u16) -> (r: Option<String>)
    ensures
        match r {
            Some(s) => short_word(tag, v) == Some(s@),
            None => short_word(tag, v) is None,
        },
{
    if tag == NIKON_ACTIVE_D_LIGHTING {
        Some(owned(decode_active_d_lighting_exiftool(v)))
    } else if tag == NIKON_COLOR_SPACE {
        Some(owned(decode_color_space_exiftool(v)))
    } else if tag == NIKON_VIGNETTE_CONTROL {
        Some(owned(decode_vignette_control_exiftool(v)))
    } else if tag == NIKON_HIGH_ISO_NOISE_REDUCTION {
        Some(owned(decode_high_iso_noise_reduction_exiftool(v)))
    } else if tag == NIKON_DATE_STAMP_MODE {
        Some(owned(decode_date_stamp_mode_exiftool(v)))
    } else if tag == NIKON_NEF_COMPRESSION {
        Some(owned(decode_nef_compression_exiftool(v)))
    } else if tag == NIKON_RETOUCH_HISTORY {
        Some(owned(decode_retouch_history_exiftool(v)))
    } else if tag == NIKON_SHOOTING_MODE {
        Some(decode_shooting_mode_exiftool(v))
    } else if tag == NIKON_AUTO_BRACKET_RELEASE {
        Some(owned(decode_auto_bracket_release_exiftool(v)))
    } else if tag == NIKON_SILENT_PHOTOGRAPHY {
        Some(owned(decode_silent_photography_exiftool(v)))
    } else if tag == NIKON_SHUTTER_MODE {
        Some(owned(decode_shutter_mode_exiftool(v)))
    } else {
        None
    }
}

/// ImageProcessing as ExifTool prints it.
pub open spec fn image_processing_text(v: Seq<char>) -> Seq<char> {
    keyword_text(v, image_processing_word(keyword_key(v)))
}

/// Text bytes as the parser reads them: decoded leniently, trailing NULs dropped.
pub open spec fn nul_trimmed(b: Seq<u8>) -> Seq<char> {
    strip_nuls(utf8_lossy(b))
}

fn nul_trimmed_string(b: &[u8]) -> (r: String)
    ensures
        r@ == nul_trimmed(b@),
{
    let s = lossy_string(b);
    trim_end_nuls(s.as_str())
}

/// The value of `n` ASCII digits.
pub open spec fn digits_value(s: Seq<char>) -> nat
    decreases s.len(),
{
    if s.len() == 0 {
        0
    } else {
        digits_value(s.drop_last()) * 10 + (s.last() as nat - 48) as nat
    }
}

/// What `str::parse::<u32>` gives: an optional '+' and one or more ASCII
/// digits whose value fits in 32 bits; `None` for anything else.
pub open spec fn parse_u32_text(s: Seq<char>) -> Option<u32> {
    let d = if s.len() > 0 && s[0] == '+' {
        s.drop_first()
    } else {
        s
    };
    if d.len() > 0 && all_digit_chars(d) && digits_value(d) <= u32::MAX {
        Some(digits_value(d) as u32)
    } else {
        None
    }
}

/// Parses an unsigned 32-bit decimal number.
pub fn parse_u32(s: &str) -> (r: Option<u32>)
    ensures
        r == parse_u32_text(s@),
{
    let n = s.unicode_len();
    let start: usize = if n > 0 && s.get_char(0) == '+' {
        1
    } else {
        0
    };
    let ghost d = if s@.len() > 0 && s@[0] == '+' {
        s@.drop_first()
    } else {
        s@
    };
    if start >= n {
        return None;
    }
    let mut v: u64 = 0;
    let mut i: usize = start;
    while i < n
        invariant
            n == s@.len(),
            start <= i <= n,
            start == (if s@.len() > 0 && s@[0] == '+' {
                1usize
            } else {
                0usize
            }),
            d == s@.subrange(start as int, n as int),
            d == (if s@.len() > 0 && s@[0] == '+' {
                s@.drop_first()
            } else {
                s@
            }),
            all_digit_chars(d.take(i - start)),
            v == digits_value(d.take(i - start)),
            v <= u32::MAX,
        decreases n - i,
    {
        let c = s.get_char(i);
        if !('0' <= c && c <= '9') {
            proof {
                assert(d[i - start] == c);
            }
            return None;
        }
        let next = v * 10 + (c as u64 - 48);
        proof {
            assert(d.take(i + 1 - start).drop_last() =~= d.take(i - start));
            assert(d.take(i + 1 - start).last() == c);
            assert(digits_value(d.take(i + 1 - start)) == next);
            assert(all_digit_chars(d.take(i + 1 - start)));
        }
        if next > 0xffff_ffff {
            proof {
                if all_digit_chars(d) {
                    lemma_digits_grow(d, (i + 1 - start) as nat);
                }
            }
            return None;
        }
        v = next;
        i = i + 1;
    }
    proof {
        assert(d.take(n - start) =~= d);
    }
    Some(v as u32)
}

proof fn lemma_digits_grow(d: Seq<char>, k: nat)
    requires
        k <= d.len(),
        all_digit_chars(d),
    ensures
        digits_value(d.take(k as int)) <= digits_value(d),
    decreases d.len() - k,
{
    if k < d.len() {
        lemma_digits_grow(d, k + 1);
        assert(d.take(k + 1int).drop_last() =~= d.take(k as int));
        assert(d.take(k + 1int).last() == d[k as int]);
    } else {
        assert(d.take(k as int) =~= d);
    }
}

// ---------------------------------------------------------------------------
// Entry values
// ---------------------------------------------------------------------------

/// A BYTE value: some tags are decoded from their first byte.
pub open spec fn byte_value(tag: u16, b: Seq<u8>) -> ValueView {
    if tag == NIKON_LENS_TYPE && b.len() > 0 {
        ValueView::Ascii(lens_type_exiftool_text(b[0]))
    } else if tag == NIKON_FLASH_MODE && b.len() > 0 {
        ValueView::Ascii(flash_mode_text(b[0]))
    } else if tag == NIKON_IMAGE_AUTHENTICATION && b.len() > 0 {
        ValueView::Ascii(image_authentication_name(b[0])@)
    } else if tag == NIKON_SHOOTING_MODE && b.len() > 0 {
        ValueView::Ascii(shooting_mode_text(b[0] as u16))
    } else if tag == NIKON_IMAGE_PROCESSING {
        if b.len() == 1 {
            ValueView::Ascii(dec(b[0] as nat))
        } else {
            ValueView::Ascii(image_processing_text(nul_trimmed(b)))
        }
    } else {
        ValueView::Byte(b)
    }
}

fn byte_value_exec(tag: u16, b: Vec<u8>) -> (r: ExifValue)
    ensures
        r@ == byte_value(tag, b@),
{
    if tag == NIKON_LENS_TYPE && b.len() > 0 {
        ExifValue::Ascii(decode_lens_type_exiftool(b[0]))
    } else if tag == NIKON_FLASH_MODE && b.len() > 0 {
        ExifValue::Ascii(decode_flash_mode_exiftool(b[0]))
    } else if tag == NIKON_IMAGE_AUTHENTICATION && b.len() > 0 {
        ExifValue::Ascii(owned(decode_image_authentication_exiftool(b[0])))
    } else if tag == NIKON_SHOOTING_MODE && b.len() > 0 {
        ExifValue::Ascii(decode_shooting_mode_exiftool(b[0] as u16))
    } else if tag == NIKON_IMAGE_PROCESSING {
        if b.len() == 1 {
            ExifValue::Ascii(fmt_dec(b[0] as u64))
        } else {
            let s = nul_trimmed_string(b.as_slice());
            ExifValue::Ascii(decode_image_processing_exiftool(s.as_str()))
        }
    } else {
        ExifValue::Byte(b)
    }
}

/// The decimal texts of SHORT values.
pub open spec fn short_texts(v: Seq<u16>) -> Seq<Seq<char>> {
    v.map_values(|x: u16| dec(x as nat))
}

fn join_shorts(v: &Vec<u16>) -> (r: String)
    ensures
        r@ == join(short_texts(v@), " "@),
{
    let mut parts: Vec<String> = Vec::new();
    let mut i: usize = 0;
    while i < v.len()
        invariant
            i <= v@.len(),
            views(parts@) =~= short_texts(v@.take(i as int)),
        decreases v.len() - i,
    {
        let ghost before = parts@;
        parts.push(fmt_dec(v[i] as u64));
        proof {
            assert(views(parts@) =~= views(before).push(dec(v@[i as int] as nat)));
            assert(v@.take(i + 1) =~= v@.take(i as int).push(v@[i as int]));
        }
        i = i + 1;
    }
    assert(v@.take(i as int) =~= v@);
    join_strings(&parts, " ")
}

/// CropHiSpeed from seven SHORT values, its mode decoded as ExifTool does.
pub open spec fn crop_hi_speed_text(v: Seq<u16>) -> Seq<char> {
    crop_hi_speed_name(v[0])@ + " ("@ + dec(v[1] as nat) + seq!['x'] + dec(v[2] as nat)
        + " cropped to "@ + dec(v[3] as nat) + seq!['x'] + dec(v[4] as nat) + " at pixel "@ + dec(
        v[5] as nat,
    ) + seq![','] + dec(v[6] as nat) + seq![')']
}

fn crop_hi_speed_string(v: &Vec<u16>) -> (r: String)
    requires
        v@.len() >= 7,
    ensures
        r@ == crop_hi_speed_text(v@),
{
    let mut s = owned(decode_crop_hi_speed_exiftool(v[0]));
    push_str(&mut s, " (");
    push_dec(&mut s, v[1] as u64);
    push_char(&mut s, 'x');
    push_dec(&mut s, v[2] as u64);
    push_str(&mut s, " cropped to ");
    push_dec(&mut s, v[3] as u64);
    push_char(&mut s, 'x');
    push_dec(&mut s, v[4] as u64);
    push_str(&mut s, " at pixel ");
    push_dec(&mut s, v[5] as u64);
    push_char(&mut s, ',');
    push_dec(&mut s, v[6] as u64);
    push_char(&mut s, ')');
    proof {
        assert(s@ =~= crop_hi_speed_text(v@));
    }
    s
}

/// A SHORT value: ISO (a "Hi" prefix when the first value is 1), the
/// first value of NEFBitDepth, single values decoded for some tags,
/// CropHiSpeed, and WB_RBLevels as text.
pub open spec fn short_value(tag: u16, v: Seq<u16>) -> ValueView {
    if tag == NIKON_ISO_SETTING && v.len() >= 2 {
        let iso = if v[1] > 0 {
            v[1]
        } else {
            v[0]
        };
        if v[0] == 1 && iso > 0 {
            ValueView::Ascii("Hi "@ + dec(iso as nat))
        } else {
            ValueView::Short(seq![iso])
        }
    } else if tag == NIKON_NEF_BIT_DEPTH && v.len() > 0 {
        ValueView::Short(seq![v[0]])
    } else if v.len() == 1 {
        match short_word(tag, v[0]) {
            Some(w) => ValueView::Ascii(w),
            None => ValueView::Short(v),
        }
    } else if tag == NIKON_CROP_HI_SPEED && v.len() >= 7 {
        ValueView::Ascii(crop_hi_speed_text(v))
    } else if tag == NIKON_WB_RB_LEVELS && v.len() >= 2 {
        ValueView::Ascii(join(short_texts(v), " "@))
    } else {
        ValueView::Short(v)
    }
}

fn short_value_exec(tag: u16, v: Vec<u16>) -> (r: ExifValue)
    ensures
        r@ == short_value(tag, v@),
{
    if tag == NIKON_ISO_SETTING && v.len() >= 2 {
        let iso = if v[1] > 0 {
            v[1]
        } else {
            v[0]
        };
        if v[0] == 1 && iso > 0 {
            let mut t = owned("Hi ");
            push_dec(&mut t, iso as u64);
            ExifValue::Ascii(t)
        } else {
            let w = vec![iso];
            assert(w@ =~= seq![iso]);
            ExifValue::Short(w)
        }
    } else if tag == NIKON_NEF_BIT_DEPTH && v.len() > 0 {
        let w = vec![v[0]];
        assert(w@ =~= seq![v@[0]]);
        ExifValue::Short(w)
    } else if v.len() == 1 {
        match short_word_exec(tag, v[0]) {
            Some(w) => ExifValue::Ascii(w),
            None => ExifValue::Short(v),
        }
    } else if tag == NIKON_CROP_HI_SPEED && v.len() >= 7 {
        ExifValue::Ascii(crop_hi_speed_string(&v))
    } else if tag == NIKON_WB_RB_LEVELS && v.len() >= 2 {
        ExifValue::Ascii(join_shorts(&v))
    } else {
        ExifValue::Short(v)
    }
}

/// A LONG value: ShutterCount's "unknown" marker and ImageProcessing as text.
pub open spec fn long_value(tag: u16, v: Seq<u32>) -> ValueView {
    if tag == NIKON_SHUTTER_COUNT && v.len() == 1 && v[0] == 4294965247 {
        ValueView::Ascii("n/a"@)
    } else if tag == NIKON_SHUTTER_COUNT && v.len() == 1 {
        ValueView::Long(v)
    } else if tag == NIKON_IMAGE_PROCESSING && v.len() == 1 {
        ValueView::Ascii(dec(v[0] as nat))
    } else {
        ValueView::Long(v)
    }
}

fn long_value_exec(tag: u16, v: Vec<u32>) -> (r: ExifValue)
    ensures
        r@ == long_value(tag, v@),
{
    if tag == NIKON_SHUTTER_COUNT && v.len() == 1 && v[0] == 4294965247 {
        ExifValue::Ascii(owned("n/a"))
    } else if tag == NIKON_SHUTTER_COUNT && v.len() == 1 {
        ExifValue::Long(v)
    } else if tag == NIKON_IMAGE_PROCESSING && v.len() == 1 {
        ExifValue::Ascii(fmt_dec(v[0] as u64))
    } else {
        ExifValue::Long(v)
    }
}

/// The texts of rationals as ExifTool prints them.
pub open spec fn rational_texts(v: Seq<(u32, u32)>) -> Seq<Seq<char>> {
    v.map_values(|x: (u32, u32)| rational_text(x.0 as nat, x.1 as nat))
}

fn join_rationals(v: &Vec<(u32, u32)>) -> (r: String)
    ensures
        r@ == join(rational_texts(v@), " "@),
{
    let mut parts: Vec<String> = Vec::new();
    let mut i: usize = 0;
    while i < v.len()
        invariant
            i <= v@.len(),
            views(parts@) =~= rational_texts(v@.take(i as int)),
        decreases v.len() - i,
    {
        let ghost before = parts@;
        let (n, d) = v[i];
        parts.push(format_rational_like_exiftool(n, d));
        proof {
            assert(views(parts@) =~= views(before).push(rational_text(n as nat, d as nat)));
            assert(v@.take(i + 1) =~= v@.take(i as int).push(v@[i as int]));
        }
        i = i + 1;
    }
    assert(v@.take(i as int) =~= v@);
    join_strings(&parts, " ")
}

/// The lens description from its four rationals (focal lengths, then the
/// maximum apertures at them): "Fmm f/A" for a prime, "F1-F2mm f/A" for a
/// constant aperture, "F1-F2mm f/A1-A2" otherwise, ranges telling apart as
/// [`within_tenth`] does; `None` for another count or a zero denominator.
pub open spec fn lens_info_text(v: Seq<(u32, u32)>) -> Option<Seq<char>> {
    if v.len() != 4 || v[0].1 == 0 || v[1].1 == 0 || v[2].1 == 0 || v[3].1 == 0 {
        None
    } else {
        let min_f = whole_or_tenths(v[0].0 as nat, v[0].1 as nat);
        let max_f = whole_or_tenths(v[1].0 as nat, v[1].1 as nat);
        let min_a = whole_or_tenths(v[2].0 as nat, v[2].1 as nat);
        let max_a = whole_or_tenths(v[3].0 as nat, v[3].1 as nat);
        if within_tenth(v[0].0 as nat, v[0].1 as nat, v[1].0 as nat, v[1].1 as nat) {
            Some(min_f + "mm f/"@ + min_a)
        } else if within_tenth(v[2].0 as nat, v[2].1 as nat, v[3].0 as nat, v[3].1 as nat) {
            Some(min_f + "-"@ + max_f + "mm f/"@ + min_a)
        } else {
            Some(min_f + "-"@ + max_f + "mm f/"@ + min_a + "-"@ + max_a)
        }
    }
}

/// Formats the Lens tag: see [`lens_info_text`].
pub fn format_lens_info(values: &[(u32, u32)]) -> (r: Option<String>)
    ensures
        match r {
            Some(t) => lens_info_text(values@) == Some(t@),
            None => lens_info_text(values@) is None,
        },
{
    if values.len() != 4 || values[0].1 == 0 || values[1].1 == 0 || values[2].1 == 0 || values[3].1 == 0 {
        return None;
    }
    let min_f = format_lens_value(values[0].0, values[0].1);
    let max_f = format_lens_value(values[1].0, values[1].1);
    let min_a = format_lens_value(values[2].0, values[2].1);
    let max_a = format_lens_value(values[3].0, values[3].1);
    let mut s = String::new();
    push_str(&mut s, min_f.as_str());
    proof {
        reveal_strlit("mm f/");
        reveal_strlit("-");
    }
    if within_tenth_exec(values[0].0, values[0].1, values[1].0, values[1].1) {
        push_str(&mut s, "mm f/");
        push_str(&mut s, min_a.as_str());
    } else if within_tenth_exec(values[2].0, values[2].1, values[3].0, values[3].1) {
        push_str(&mut s, "-");
        push_str(&mut s, max_f.as_str());
        push_str(&mut s, "mm f/");
        push_str(&mut s, min_a.as_str());
    } else {
        push_str(&mut s, "-");
        push_str(&mut s, max_f.as_str());
        push_str(&mut s, "mm f/");
        push_str(&mut s, min_a.as_str());
        push_str(&mut s, "-");
        push_str(&mut s, max_a.as_str());
    }
    proof {
        assert(lens_info_text(values@) == Some(s@));
    }
    Some(s)
}

/// A pixel pitch: the quotient (the numerator for a zero denominator) in its
/// shortest decimal form.
pub open spec fn pitch_text(r: (u32, u32)) -> Seq<char> {
    if r.1 != 0 {
        shortest_text(r.0 as nat, r.1 as nat)
    } else {
        shortest_text(r.0 as nat, 1)
    }
}

fn pitch_string(r: (u32, u32)) -> (s: String)
    ensures
        s@ == pitch_text(r),
{
    if r.1 != 0 {
        format_shortest(r.0, r.1)
    } else {
        format_shortest(r.0, 1)
    }
}

/// A RATIONAL value: Lens as its description, SensorPixelSize as "X x Y um",
/// WB_RBLevels as text.
pub open spec fn rational_value(tag: u16, v: Seq<(u32, u32)>) -> ValueView {
    if tag == NIKON_LENS && lens_info_text(v) is Some {
        ValueView::Ascii(lens_info_text(v)->0)
    } else if tag == NIKON_SENSOR_PIXEL_SIZE && v.len() == 2 {
        ValueView::Ascii(pitch_text(v[0]) + " x "@ + pitch_text(v[1]) + " um"@)
    } else if tag == NIKON_WB_RB_LEVELS && v.len() >= 2 {
        ValueView::Ascii(join(rational_texts(v), " "@))
    } else {
        ValueView::Rational(v)
    }
}

/// Two digits and a point: "major.MM".
pub open spec fn version_number_text(major: nat, minor: nat) -> Seq<char> {
    dec(major) + seq!['.'] + zero_pad(dec(minor), 2)
}

/// MakerNoteVersion: four binary digits (first byte at most 9, bytes
/// combined with 8-bit wrap-around) or four ASCII digits as "major.MM";
/// other text trimmed; bytes that are not UTF-8 kept.
pub open spec fn maker_version_value(b: Seq<u8>) -> ValueView {
    if b.len() < 4 {
        ValueView::Undefined(b)
    } else if b[0] <= 9 {
        ValueView::Ascii(
            version_number_text(((b[0] * 10 + b[1]) % 256) as nat, ((b[2] * 10 + b[3]) % 256) as nat),
        )
    } else {
        match utf8_decode(b.take(4)) {
            Some(t) => if t.len() == 4 && all_digit_chars(t) {
                ValueView::Ascii(
                    version_number_text(
                        ((t[0] as int - 48) * 10 + (t[1] as int - 48)) as nat,
                        ((t[2] as int - 48) * 10 + (t[3] as int - 48)) as nat,
                    ),
                )
            } else {
                ValueView::Ascii(trim(t))
            },
            None => ValueView::Undefined(b),
        }
    }
}

fn version_number_string(major: u8, minor: u8) -> (r: String)
    ensures
        r@ == version_number_text(major as nat, minor as nat),
{
    let mut s = fmt_dec(major as u64);
    push_char(&mut s, '.');
    push_dec_pad(&mut s, minor as u64, 2);
    proof {
        assert(s@ =~= version_number_text(major as nat, minor as nat));
    }
    s
}

fn maker_version_exec(b: Vec<u8>) -> (r: ExifValue)
    ensures
        r@ == maker_version_value(b@),
{
    if b.len() < 4 {
        return ExifValue::Undefined(b);
    }
    if b[0] <= 9 {
        let major = ((b[0] as u32 * 10 + b[1] as u32) % 256) as u8;
        let minor = ((b[2] as u32 * 10 + b[3] as u32) % 256) as u8;
        return ExifValue::Ascii(version_number_string(major, minor));
    }
    assert(b@.subrange(0, 4) =~= b@.take(4));
    let decoded = utf8_str(&b.as_slice()[0..4]);
    match decoded {
        Some(t) => {
            if t.unicode_len() == 4 && all_digits_str(t) {
                let c0 = t.get_char(0) as u32 - 48;
                let c1 = t.get_char(1) as u32 - 48;
                let c2 = t.get_char(2) as u32 - 48;
                let c3 = t.get_char(3) as u32 - 48;
                ExifValue::Ascii(version_number_string((c0 * 10 + c1) as u8, (c2 * 10 + c3) as u8))
            } else {
                ExifValue::Ascii(owned(trim_str(t)))
            }
        },
        None => ExifValue::Undefined(b),
    }
}

/// The value of a byte read as signed.
pub open spec fn sbyte(x: u8) -> int {
    if x < 128 {
        x as int
    } else {
        x as int - 256
    }
}

/// The magnitude of a byte read as signed.
pub open spec fn sbyte_abs(x: u8) -> nat {
    if x < 128 {
        x as nat
    } else {
        (256 - x) as nat
    }
}

/// An integer brought into the range of `i32`, as a float-to-integer cast saturates.
pub open spec fn saturate_i32(v: int) -> i32 {
    if v > 0x7fff_ffff {
        i32::MAX
    } else if v < -0x8000_0000 {
        i32::MIN
    } else {
        v as i32
    }
}

/// A signed packed rational (bytes a, b, c of signed values): `a * (b / c)` in
/// doubles, in hundredths rounded half away from zero; 0 when `c` is 0; `None`
/// under four bytes.
pub open spec fn packed_signed_hundredths(d: Seq<u8>) -> Option<i32> {
    if d.len() < 4 {
        None
    } else if d[2] == 0 {
        Some(0)
    } else {
        let h = packed_hundredths(sbyte_abs(d[0]), sbyte_abs(d[1]), sbyte_abs(d[2])) as int;
        let negative = (sbyte(d[0]) < 0) != ((sbyte(d[1]) < 0) != (sbyte(d[2]) < 0));
        Some(saturate_i32(if negative { -h } else { h }))
    }
}

/// An unsigned packed rational (bytes a, b, c): `a * (b / c)` in doubles, in
/// hundredths rounded half away from zero (saturating at `u32::MAX`); 0 when
/// `c` is 0; `None` under four bytes.
pub open spec fn packed_unsigned_hundredths(d: Seq<u8>) -> Option<u32> {
    if d.len() < 4 {
        None
    } else if d[2] == 0 {
        Some(0)
    } else {
        let h = packed_hundredths(d[0] as nat, d[1] as nat, d[2] as nat);
        Some(if h > 0xffff_ffff { 0xffff_ffff } else { h as u32 })
    }
}

fn sbyte_abs_exec(x: u8) -> (r: u8)
    ensures
        r as nat == sbyte_abs(x),
{
    if x < 128 {
        x
    } else {
        (256 - x as u16) as u8
    }
}

/// Decodes a signed packed rational (ProgramShift, ExposureDifference, the
/// flash compensations, ExposureTuning) to hundredths.
pub fn packed_rational_signed_hundredths(data: &[u8]) -> (r: Option<i32>)
    ensures
        r == packed_signed_hundredths(data@),
{
    if data.len() < 4 {
        return None;
    }
    if data[2] == 0 {
        return Some(0);
    }
    let h = packed_hundredths_exec(sbyte_abs_exec(data[0]), sbyte_abs_exec(data[1]), sbyte_abs_exec(data[2]));
    let negative = (data[0] >= 128) != ((data[1] >= 128) != (data[2] >= 128));
    let v: i32 = if h > 0x8000_0000 {
        if negative {
            -0x8000_0000
        } else {
            0x7fff_ffff
        }
    } else if negative {
        (-(h as i64)) as i32
    } else if h > 0x7fff_ffff {
        0x7fff_ffff
    } else {
        h as i32
    };
    Some(v)
}

/// Decodes an unsigned packed rational (LensFStops) to hundredths.
pub fn packed_rational_unsigned_hundredths(data: &[u8]) -> (r: Option<u32>)
    ensures
        r == packed_unsigned_hundredths(data@),
{
    if data.len() < 4 {
        return None;
    }
    if data[2] == 0 {
        return Some(0);
    }
    let h = packed_hundredths_exec(data[0], data[1], data[2]);
    Some(if h > 0xffff_ffff { 0xffff_ffff } else { h as u32 })
}

/// Whether a tag holds a signed packed rational.
pub open spec fn is_signed_packed(tag: u16) -> bool {
    tag == NIKON_PROGRAM_SHIFT || tag == NIKON_EXPOSURE_DIFFERENCE || tag == NIKON_FLASH_EXPOSURE_COMP
        || tag == NIKON_EXTERNAL_FLASH_EXPOSURE_COMP || tag == NIKON_FLASH_EXPOSURE_BRACKET_VALUE
        || tag == NIKON_EXPOSURE_TUNING
}

/// An UNDEFINED value: MakerNoteVersion and ImageProcessing as text, the
/// packed rationals (ProgramShift and the like, LensFStops) as one rational
/// in hundredths.
pub open spec fn undefined_value(tag: u16, count: u32, b: Seq<u8>) -> ValueView {
    if tag == NIKON_VERSION {
        maker_version_value(b)
    } else if is_signed_packed(tag) {
        match packed_signed_hundredths(b) {
            Some(v) => ValueView::SRational(seq![(v, 100i32)]),
            None => ValueView::Undefined(b),
        }
    } else if tag == NIKON_LENS_F_STOPS {
        match packed_unsigned_hundredths(b) {
            Some(v) => ValueView::Rational(seq![(v, 100u32)]),
            None => ValueView::Undefined(b),
        }
    } else if tag == NIKON_IMAGE_PROCESSING {
        if count == 1 {
            ValueView::Ascii(dec(b[0] as nat))
        } else {
            ValueView::Ascii(image_processing_text(nul_trimmed(first_bytes(b, count))))
        }
    } else {
        ValueView::Undefined(b)
    }
}

/// The decimal texts of signed values.
pub open spec fn signed_texts(v: Seq<int>) -> Seq<Seq<char>> {
    v.map_values(|x: int| int_dec(x))
}

fn join_signed(v: &Vec<i32>) -> (r: String)
    ensures
        r@ == join(signed_texts(v@.map_values(|x: i32| x as int)), " "@),
{
    let ghost w = v@.map_values(|x: i32| x as int);
    let mut parts: Vec<String> = Vec::new();
    let mut i: usize = 0;
    while i < v.len()
        invariant
            i <= v@.len(),
            w == v@.map_values(|x: i32| x as int),
            views(parts@) =~= signed_texts(w.take(i as int)),
        decreases v.len() - i,
    {
        let ghost before = parts@;
        parts.push(fmt_int(v[i] as i64));
        proof {
            assert(views(parts@) =~= views(before).push(int_dec(v@[i as int] as int)));
            assert(w.take(i + 1) =~= w.take(i as int).push(w[i as int]));
        }
        i = i + 1;
    }
    assert(w.take(i as int) =~= w);
    join_strings(&parts, " ")
}

/// An SSHORT value: a single value kept as a SHORT, several as text.
pub open spec fn sshort_value(v: Seq<i16>) -> ValueView {
    if v.len() == 1 {
        ValueView::Short(seq![v[0] as u16])
    } else {
        ValueView::Ascii(join(signed_texts(v.map_values(|x: i16| x as int)), " "@))
    }
}

/// An SLONG value: a single value kept as a LONG, several as text.
pub open spec fn slong_value(v: Seq<i32>) -> ValueView {
    if v.len() == 1 {
        ValueView::Long(seq![v[0] as u32])
    } else {
        ValueView::Ascii(join(signed_texts(v.map_values(|x: i32| x as int)), " "@))
    }
}

/// The value of an entry of a given type; `None` for a type that is not read.
pub open spec fn entry_value(tag: u16, typ: u16, count: u32, b: Seq<u8>, e: Endianness) -> Option<
    ValueView,
> {
    if typ == 1 {
        Some(byte_value(tag, first_bytes(b, count)))
    } else if typ == 2 {
        Some(ValueView::Ascii(nikon_ascii_text(tag, nul_trimmed(first_bytes(b, count)))))
    } else if typ == 3 {
        Some(short_value(tag, read_shorts(b, count, e)))
    } else if typ == 4 {
        Some(long_value(tag, read_longs(b, count, e)))
    } else if typ == 5 {
        Some(rational_value(tag, read_rationals(b, count, e)))
    } else if typ == 7 {
        Some(undefined_value(tag, count, b))
    } else if typ == 8 {
        Some(sshort_value(read_sshorts(b, count, e)))
    } else if typ == 9 {
        Some(slong_value(read_slongs(b, count, e)))
    } else if typ == 10 {
        Some(ValueView::SRational(read_srationals(b, count, e)))
    } else {
        None
    }
}

fn join_signed16(v: &Vec<i16>) -> (r: String)
    ensures
        r@ == join(signed_texts(v@.map_values(|x: i16| x as int)), " "@),
{
    let ghost w = v@.map_values(|x: i16| x as int);
    let mut parts: Vec<String> = Vec::new();
    let mut i: usize = 0;
    while i < v.len()
        invariant
            i <= v@.len(),
            w == v@.map_values(|x: i16| x as int),
            views(parts@) =~= signed_texts(w.take(i as int)),
        decreases v.len() - i,
    {
        let ghost before = parts@;
        parts.push(fmt_int(v[i] as i64));
        proof {
            assert(views(parts@) =~= views(before).push(int_dec(v@[i as int] as int)));
            assert(w.take(i + 1) =~= w.take(i as int).push(w[i as int]));
        }
        i = i + 1;
    }
    assert(w.take(i as int) =~= w);
    join_strings(&parts, " ")
}

/// Size in bytes of one value of a TIFF type; zero for the types not read.
pub open spec fn nikon_type_size(typ: u16) -> nat {
    if typ == 1 || typ == 2 || typ == 7 {
        1
    } else if typ == 3 || typ == 8 {
        2
    } else if typ == 4 || typ == 9 {
        4
    } else if typ == 5 || typ == 10 {
        8
    } else {
        0
    }
}

fn rational_value_exec(tag: u16, v: Vec<(u32, u32)>) -> (r: ExifValue)
    ensures
        r@ == rational_value(tag, v@),
{
    if tag == NIKON_LENS {
        match format_lens_info(v.as_slice()) {
            Some(t) => {
                return ExifValue::Ascii(t);
            },
            None => {},
        }
    }
    if tag == NIKON_SENSOR_PIXEL_SIZE && v.len() == 2 {
        let mut t = pitch_string(v[0]);
        push_str(&mut t, " x ");
        let y = pitch_string(v[1]);
        push_str(&mut t, y.as_str());
        push_str(&mut t, " um");
        proof {
            reveal_strlit(" x ");
            reveal_strlit(" um");
            assert(t@ =~= pitch_text(v@[0]) + " x "@ + pitch_text(v@[1]) + " um"@);
        }
        return ExifValue::Ascii(t);
    }
    if tag == NIKON_WB_RB_LEVELS && v.len() >= 2 {
        ExifValue::Ascii(join_rationals(&v))
    } else {
        ExifValue::Rational(v)
    }
}

/// Decodes the value of an entry from its bytes.
fn entry_value_exec(tag: u16, typ: u16, count: u32, b: &[u8], e: Endianness) -> (r: Option<ExifValue>)
    requires
        count * nikon_type_size(typ) <= 4 ==> b@.len() == 4,
        count * nikon_type_size(typ) > 4 ==> b@.len() == count * nikon_type_size(typ),
    ensures
        match r {
            Some(v) => entry_value(tag, typ, count, b@, e) == Some(v@),
            None => entry_value(tag, typ, count, b@, e) is None,
        },
{
    if typ == 1 {
        Some(byte_value_exec(tag, first_bytes_slice(b, count)))
    } else if typ == 2 {
        let f = first_bytes_slice(b, count);
        let s = nul_trimmed_string(f.as_slice());
        Some(ExifValue::Ascii(decode_nikon_ascii_value(tag, s.as_str())))
    } else if typ == 3 {
        Some(short_value_exec(tag, read_shorts_exec(b, count, e)))
    } else if typ == 4 {
        Some(long_value_exec(tag, read_longs_exec(b, count, e)))
    } else if typ == 5 {
        Some(rational_value_exec(tag, read_rationals_exec(b, count, e)))
    } else if typ == 7 {
        let c = vstd::slice::slice_to_vec(b);
        if tag == NIKON_VERSION {
            Some(maker_version_exec(c))
        } else if tag == NIKON_PROGRAM_SHIFT || tag == NIKON_EXPOSURE_DIFFERENCE || tag == NIKON_FLASH_EXPOSURE_COMP
            || tag == NIKON_EXTERNAL_FLASH_EXPOSURE_COMP || tag == NIKON_FLASH_EXPOSURE_BRACKET_VALUE
            || tag == NIKON_EXPOSURE_TUNING {
            match packed_rational_signed_hundredths(b) {
                Some(v) => {
                    let w = vec![(v, 100i32)];
                    assert(w@ =~= seq![(v, 100i32)]);
                    Some(ExifValue::SRational(w))
                },
                None => Some(ExifValue::Undefined(c)),
            }
        } else if tag == NIKON_LENS_F_STOPS {
            match packed_rational_unsigned_hundredths(b) {
                Some(v) => {
                    let w = vec![(v, 100u32)];
                    assert(w@ =~= seq![(v, 100u32)]);
                    Some(ExifValue::Rational(w))
                },
                None => Some(ExifValue::Undefined(c)),
            }
        } else if tag == NIKON_IMAGE_PROCESSING {
            if count == 1 {
                Some(ExifValue::Ascii(fmt_dec(b[0] as u64)))
            } else {
                let f = first_bytes_slice(b, count);
                let s = nul_trimmed_string(f.as_slice());
                Some(ExifValue::Ascii(decode_image_processing_exiftool(s.as_str())))
            }
        } else {
            Some(ExifValue::Undefined(c))
        }
    } else if typ == 8 {
        let v = read_sshorts_exec(b, count, e);
        if v.len() == 1 {
            let w = vec![v[0] as u16];
            assert(w@ =~= seq![v@[0] as u16]);
            Some(ExifValue::Short(w))
        } else {
            Some(ExifValue::Ascii(join_signed16(&v)))
        }
    } else if typ == 9 {
        let v = read_slongs_exec(b, count, e);
        if v.len() == 1 {
            let w = vec![v[0] as u32];
            assert(w@ =~= seq![v@[0] as u32]);
            Some(ExifValue::Long(w))
        } else {
            Some(ExifValue::Ascii(join_signed(&v)))
        }
    } else if typ == 10 {
        Some(ExifValue::SRational(read_srationals_exec(b, count, e)))
    } else {
        None
    }
}

// ---------------------------------------------------------------------------
// The directory, as a state machine over its entries
// ---------------------------------------------------------------------------

/// Where the maker note's directory and values are read from.
pub struct NkSrc {
    /// The maker-note bytes.
    pub data: Seq<u8>,
    /// Byte order of the maker note.
    pub endian: Endianness,
    /// Byte order the caller gave (FaceDetect reads with it).
    pub outer_endian: Endianness,
    /// Whether the note has the "Nikon" header of type 3, with its own TIFF header.
    pub type3: bool,
    /// The file's TIFF data, where values of older notes (and stray values of
    /// type 3 notes) are read.
    pub tiff: Option<Seq<u8>>,
    /// Offset of the TIFF header within `tiff`.
    pub tiff_offset: nat,
    /// Offset of the maker note within `tiff`.
    pub mn_offset: Option<nat>,
    /// The camera model.
    pub model: Option<Seq<char>>,
}

/// What the parser holds while reading the directory.
pub struct NkState {
    /// The tags so far.
    pub tags: Map<u16, TagView>,
    /// LensType's byte, for LensID.
    pub lens_type: Option<u8>,
    /// The serial number, a decryption key.
    pub serial: Option<u32>,
    /// The shutter count, the other decryption key.
    pub shutter: Option<u32>,
    /// LensData, read once the keys are known.
    pub lens_data: Option<Seq<u8>>,
    /// ColorBalance, read once the keys are known.
    pub color_balance: Option<Seq<u8>>,
    /// An encrypted ShotInfo, read once the keys are known.
    pub shot_info: Option<Seq<u8>>,
}

/// The state before any entry.
pub open spec fn nk_start() -> NkState {
    NkState {
        tags: Map::empty(),
        lens_type: None,
        serial: None,
        shutter: None,
        lens_data: None,
        color_balance: None,
        shot_info: None,
    }
}

/// The state with other tags.
pub open spec fn with_tags(st: NkState, tags: Map<u16, TagView>) -> NkState {
    NkState {
        tags,
        lens_type: st.lens_type,
        serial: st.serial,
        shutter: st.shutter,
        lens_data: st.lens_data,
        color_balance: st.color_balance,
        shot_info: st.shot_info,
    }
}

/// The bytes holding an entry's value: the entry's own four bytes when the
/// value fits there; else those its offset points at, in the maker note
/// (type 3, offsets from its TIFF header, falling back to the file past the
/// note's end) or in the file's TIFF data (older notes).
pub open spec fn nk_value_bytes(s: NkSrc, p: int) -> Option<Seq<u8>> {
    let typ = at_u16(s.data, p + 2, s.endian);
    let count = at_u32(s.data, p + 4, s.endian);
    let size = count * nikon_type_size(typ);
    let off = at_u32(s.data, p + 8, s.endian) as int;
    if size <= 4 {
        Some(s.data.subrange(p + 8, p + 12))
    } else if s.type3 {
        if 10 + off + size <= s.data.len() {
            Some(s.data.subrange(10 + off, 10 + off + size))
        } else {
            match (s.tiff, s.mn_offset) {
                (Some(t), Some(mn)) => if mn + 10 + off + size <= t.len() {
                    Some(t.subrange(mn as int + 10 + off, mn as int + 10 + off + size))
                } else {
                    None
                },
                _ => None,
            }
        }
    } else {
        match s.tiff {
            Some(t) => if s.tiff_offset + off + size <= t.len() {
                Some(t.subrange(s.tiff_offset as int + off, s.tiff_offset as int + off + size))
            } else {
                None
            },
            None => None,
        }
    }
}

/// The serial number as a key: the text's number, or a fallback (0x22 for the D50).
pub open spec fn serial_key(t: Seq<char>, model: Option<Seq<char>>) -> u32 {
    match parse_u32_text(trim(t)) {
        Some(v) => v,
        None => if (match model {
            Some(m) => contains(m, "D50"@),
            None => false,
        }) {
            0x22
        } else {
            0x60
        },
    }
}

/// A tag of RedBalance or BlueBalance.
pub open spec fn balance_tag(id: u16, name: &'static str, t: Seq<char>) -> TagView {
    plain_tag(id, Some(name), ValueView::Ascii(t))
}

/// What reading an entry learns besides its value: LensType's byte, the
/// serial number, the shutter count, and RedBalance and BlueBalance from
/// WB_RBLevels (levels over 256 as SHORTs, or the rationals themselves).
pub open spec fn nk_effects(s: NkSrc, st: NkState, tag: u16, typ: u16, count: u32, b: Seq<u8>) -> NkState {
    let e = s.endian;
    let bytes = first_bytes(b, count);
    let lens_type = if typ == 1 && tag == NIKON_LENS_TYPE && bytes.len() > 0 {
        Some(bytes[0])
    } else {
        st.lens_type
    };
    let serial = if typ == 2 && tag == NIKON_SERIAL_NUMBER {
        Some(serial_key(nul_trimmed(bytes), s.model))
    } else {
        st.serial
    };
    let longs = read_longs(b, count, e);
    let shutter = if typ == 4 && tag == NIKON_SHUTTER_COUNT && longs.len() == 1 && longs[0]
        != 4294965247 {
        Some(longs[0])
    } else {
        st.shutter
    };
    let shorts = read_shorts(b, count, e);
    let rats = read_rationals(b, count, e);
    let tags = if typ == 3 && tag == NIKON_WB_RB_LEVELS && shorts.len() >= 2 {
        st.tags.insert(0xFE00, balance_tag(0xFE00, "RedBalance", ratio6_text(shorts[0] as nat, 256))).insert(
            0xFE01,
            balance_tag(0xFE01, "BlueBalance", ratio6_text(shorts[1] as nat, 256)),
        )
    } else if typ == 5 && tag == NIKON_WB_RB_LEVELS && rats.len() >= 2 {
        st.tags.insert(
            0xFE00,
            balance_tag(
                0xFE00,
                "RedBalance",
                ratio6_text(rats[0].0 as nat, if rats[0].1 != 0 { rats[0].1 as nat } else { 1 }),
            ),
        ).insert(
            0xFE01,
            balance_tag(
                0xFE01,
                "BlueBalance",
                ratio6_text(rats[1].0 as nat, if rats[1].1 != 0 { rats[1].1 as nat } else { 1 }),
            ),
        )
    } else {
        st.tags
    };
    NkState {
        tags,
        lens_type,
        serial,
        shutter,
        lens_data: st.lens_data,
        color_balance: st.color_balance,
        shot_info: st.shot_info,
    }
}

/// The key of the next field of a sub-directory: its block's base plus the
/// number of tags held so far (16-bit, wrapping).
pub open spec fn field_id(base: u16, m: Map<u16, TagView>) -> u16 {
    ((base as int + (m.len() % 65536)) % 65536) as u16
}

/// A field of a sub-directory stored as a tag, with its exiv2 group and name
/// when its parent tag lists them.
pub open spec fn field_tag(id: u16, name: &'static str, v: Seq<char>, parent: Option<u16>) -> TagView {
    match parent {
        Some(pt) => match nikon_subfield(pt, name@) {
            Some((g, n)) => TagView {
                tag_id: id,
                tag_name: Some(name),
                value: ValueView::Ascii(v),
                exiv2_value: Some(ValueView::Ascii(v)),
                exiv2_group: Some(g),
                exiv2_name: Some(n),
            },
            None => plain_tag(id, Some(name), ValueView::Ascii(v)),
        },
        None => plain_tag(id, Some(name), ValueView::Ascii(v)),
    }
}

/// The tags with the fields of a sub-directory added in order, each under
/// `field_id`; with `skip_iso`, a field named "ISO" is left out.
pub open spec fn insert_fields(
    m: Map<u16, TagView>,
    base: u16,
    fields: Seq<(&'static str, Seq<char>)>,
    parent: Option<u16>,
    skip_iso: bool,
) -> Map<u16, TagView>
    decreases fields.len(),
{
    if fields.len() == 0 {
        m
    } else {
        let (name, v) = fields[0];
        let m2 = if skip_iso && name@ == "ISO"@ {
            m
        } else {
            m.insert(field_id(base, m), field_tag(field_id(base, m), name, v, parent))
        };
        insert_fields(m2, base, fields.drop_first(), parent, skip_iso)
    }
}

/// Whether the ISO from tag 0x0002 is a "Hi" setting.
pub open spec fn has_hi_iso(m: Map<u16, TagView>) -> bool {
    m.contains_key(0xFFFF) && match m[0xFFFF].value {
        ValueView::Ascii(t) => prefixed(t, "Hi "@),
        _ => false,
    }
}

/// Whether the ISO of tag 0x0002 is worth a tag: a positive first value or some text.
pub open spec fn iso_shown(v: ValueView) -> bool {
    match v {
        ValueView::Short(vals) => vals.len() > 0 && vals[0] > 0,
        ValueView::Ascii(t) => t.len() > 0,
        _ => false,
    }
}

/// PowerUpTime: "YYYY:MM:DD HH:MM:SS".
pub open spec fn power_up_text(b: Seq<u8>, e: Endianness) -> Seq<char> {
    zero_pad(dec(u16_of(b, e) as nat), 4) + seq![':'] + zero_pad(dec(b[2] as nat), 2) + seq![':']
        + zero_pad(dec(b[3] as nat), 2) + seq![' '] + zero_pad(dec(b[4] as nat), 2) + seq![':']
        + zero_pad(dec(b[5] as nat), 2) + seq![':'] + zero_pad(dec(b[6] as nat), 2)
}

/// The bytes of SHORT values, little-endian.
pub open spec fn shorts_le(v: Seq<u16>) -> Seq<u8>
    decreases v.len(),
{
    if v.len() == 0 {
        seq![]
    } else {
        shorts_le(v.drop_last()) + seq![(v.last() % 256) as u8, (v.last() / 256) as u8]
    }
}

/// Whether the model is a Z-series camera.
pub open spec fn z_model(model: Option<Seq<char>>) -> bool {
    match model {
        Some(m) => z_series(unicode_upper(m)),
        None => false,
    }
}

/// Whether the model names a Nikon DSLR.
pub open spec fn dslr_seq(model: Option<Seq<char>>) -> bool {
    match model {
        Some(m) => prefixed(unicode_upper(m), "NIKON D"@),
        None => false,
    }
}

/// Whether the model's ShotInfo carries a time-zone location.
pub open spec fn tz_model(model: Option<Seq<char>>) -> bool {
    match model {
        Some(m) => {
            let u = unicode_upper(m);
            contains(u, "NIKON Z 8"@) || contains(u, "NIKON Z 9"@) || contains(u, "NIKON Z6_3"@)
        },
        None => false,
    }
}

/// ShotInfo: an encrypted one (version 02xx) is kept for later, its version
/// stored when all digits; another is read at once.
pub open spec fn shot_info_step(st: NkState, b: Seq<u8>) -> NkState {
    let version = if b.len() >= 4 {
        utf8_lossy(b.take(4))
    } else {
        Seq::empty()
    };
    if prefixed(version, "02"@) {
        let tags = if all_digit_chars(version) {
            st.tags.insert(0x9380, plain_tag(0x9380, Some("ShotInfoVersion"), ValueView::Ascii(version)))
        } else {
            st.tags
        };
        NkState {
            tags,
            lens_type: st.lens_type,
            serial: st.serial,
            shutter: st.shutter,
            lens_data: st.lens_data,
            color_balance: st.color_balance,
            shot_info: Some(b),
        }
    } else {
        with_tags(st, insert_fields(st.tags, 0x9380, shot_info_basic_fields(b), None, false))
    }
}

/// The fields of the sub-directories held in UNDEFINED values, added under
/// their blocks of keys; LensData and ColorBalance are kept for later.
pub open spec fn nk_sub_bytes(s: NkSrc, st: NkState, tag: u16, b: Seq<u8>) -> NkState {
    let m = st.tags;
    if tag == NIKON_ISO_INFO {
        with_tags(st, insert_fields(m, 0x9000, iso_info_fields(b), Some(NIKON_ISO_INFO), has_hi_iso(m)))
    } else if tag == NIKON_VR_INFO {
        with_tags(st, insert_fields(m, 0x9100, vr_info_fields(b, z_model(s.model)), Some(NIKON_VR_INFO), false))
    } else if tag == NIKON_HDR_INFO {
        with_tags(st, insert_fields(m, 0x9180, hdr_info_fields(b), None, false))
    } else if tag == NIKON_PICTURE_CONTROL_DATA || tag == NIKON_PICTURE_CONTROL_DATA_2 {
        with_tags(
            st,
            insert_fields(m, 0x9200, picture_control_fields(b), Some(NIKON_PICTURE_CONTROL_DATA), false),
        )
    } else if tag == NIKON_DISTORTION_CONTROL {
        with_tags(st, insert_fields(m, 0x9150, distort_info_fields(b), None, false))
    } else if tag == NIKON_AF_TUNE {
        with_tags(st, insert_fields(m, 0x9160, af_tune_fields(b), None, false))
    } else if tag == NIKON_POWER_UP_TIME_2 {
        if b.len() >= 7 {
            with_tags(
                st,
                m.insert(tag, plain_tag(tag, Some("PowerUpTime"), ValueView::Ascii(power_up_text(b, s.endian)))),
            )
        } else {
            st
        }
    } else if tag == NIKON_FLASH_INFO {
        with_tags(st, insert_fields(m, 0x9300, flash_info_fields(b, z_model(s.model)), Some(NIKON_FLASH_INFO), false))
    } else if tag == NIKON_FACE_DETECT {
        with_tags(st, insert_fields(m, 0x9340, face_detect_fields(b, s.outer_endian), None, false))
    } else if tag == NIKON_MULTI_EXPOSURE {
        with_tags(st, insert_fields(m, 0x9350, multi_exposure_fields(b), Some(NIKON_MULTI_EXPOSURE), false))
    } else if tag == NIKON_SHOT_INFO {
        shot_info_step(st, b)
    } else if tag == NIKON_FILE_INFO {
        with_tags(st, insert_fields(m, 0x9390, file_info_fields(b), Some(NIKON_FILE_INFO), false))
    } else if tag == NIKON_RETOUCH_INFO {
        with_tags(st, insert_fields(m, 0x93A0, retouch_info_fields(b), None, false))
    } else if tag == NIKON_LENS_DATA {
        NkState {
            tags: m,
            lens_type: st.lens_type,
            serial: st.serial,
            shutter: st.shutter,
            lens_data: Some(b),
            color_balance: st.color_balance,
            shot_info: st.shot_info,
        }
    } else if tag == NIKON_AF_INFO {
        with_tags(st, insert_fields(m, 0x9500, af_info_fields(b, dslr_seq(s.model)), Some(NIKON_AF_INFO), false))
    } else if tag == NIKON_AF_INFO_2 {
        with_tags(st, insert_fields(m, 0x9600, af_info2_fields(b), Some(NIKON_AF_INFO_2), false))
    } else if tag == NIKON_WORLD_TIME {
        with_tags(
            st,
            insert_fields(m, 0x9700, world_time_fields(b, s.endian, tz_model(s.model)), Some(NIKON_WORLD_TIME), false),
        )
    } else if tag == NIKON_COLOR_BALANCE {
        NkState {
            tags: m,
            lens_type: st.lens_type,
            serial: st.serial,
            shutter: st.shutter,
            lens_data: st.lens_data,
            color_balance: Some(b),
            shot_info: st.shot_info,
        }
    } else if tag == NIKON_COLOR_BALANCE_A {
        with_tags(st, insert_fields(m, 0x9A00, color_balance_fields(b, s.endian, None, None), None, false))
    } else {
        st
    }
}

/// The sub-directories of a stored tag.
pub open spec fn nk_sub(s: NkSrc, st: NkState, tag: u16, v: ValueView) -> NkState {
    match v {
        ValueView::Undefined(b) => nk_sub_bytes(s, st, tag, b),
        ValueView::Short(vals) => if tag == NIKON_CROP_HI_SPEED {
            with_tags(st, insert_fields(st.tags, 0x9900, crop_hi_speed_fields(shorts_le(vals), s.endian), None, false))
        } else {
            st
        },
        _ => st,
    }
}

/// The state after the entry at `p`: its value decoded and its effects
/// taken; tag 0x0002 stored as "ISO" under 0xFFFF when shown; ISOSetting
/// keeping only its second value (or nothing); every other tag stored under
/// its ID and its sub-directory read.
#[verifier::opaque]
pub open spec fn nk_step(s: NkSrc, st: NkState, p: int) -> NkState {
    match nk_value_bytes(s, p) {
        None => st,
        Some(b) => {
            let tag = at_u16(s.data, p, s.endian);
            let typ = at_u16(s.data, p + 2, s.endian);
            let count = at_u32(s.data, p + 4, s.endian);
            match entry_value(tag, typ, count, b, s.endian) {
                None => st,
                Some(v) => {
                    let st1 = nk_effects(s, st, tag, typ, count, b);
                    if tag == NIKON_ISO_SETTING {
                        if iso_shown(v) {
                            with_tags(st1, st1.tags.insert(0xFFFF, plain_tag(0xFFFF, Some("ISO"), v)))
                        } else {
                            st1
                        }
                    } else if tag == NIKON_ISO_SETTING_2 && (v is Short || v is Undefined) {
                        match v {
                            ValueView::Short(vals) => if vals.len() >= 2 && vals[1] != 0 {
                                with_tags(
                                    st1,
                                    st1.tags.insert(
                                        tag,
                                        plain_tag(tag, nikon_tag_name(tag), ValueView::Short(seq![vals[1]])),
                                    ),
                                )
                            } else {
                                st1
                            },
                            _ => st1,
                        }
                    } else {
                        let st2 = with_tags(st1, st1.tags.insert(tag, plain_tag(tag, nikon_tag_name(tag), v)));
                        nk_sub(s, st2, tag, v)
                    }
                },
            }
        },
    }
}

/// The state after the first `k` entries of the directory at `off`.
pub open spec fn nk_scan(s: NkSrc, off: nat, st: NkState, k: nat) -> NkState
    decreases k,
{
    if k == 0 {
        st
    } else {
        nk_step(s, nk_scan(s, off, st, (k - 1) as nat), off + 2 + 12 * (k - 1))
    }
}

/// FirmwareVersion from an encrypted ShotInfo, once decrypted.
pub open spec fn shot_firmware(m: Map<u16, TagView>, b: Seq<u8>, serial: u32, count: u32) -> Map<u16, TagView> {
    let version = if b.len() >= 4 {
        utf8_lossy(b.take(4))
    } else {
        Seq::empty()
    };
    let end = 4 + firmware_len(version);
    if b.len() >= end {
        match firmware_text(nikon_crypt(b, serial, count, 4).subrange(4, end as int)) {
            Some(f) => m.insert(0x9381, plain_tag(0x9381, Some("FirmwareVersion"), ValueView::Ascii(f))),
            None => m,
        }
    } else {
        m
    }
}

/// AutoFocus, from FocusMode: off for a manual mode.
pub open spec fn auto_focus(m: Map<u16, TagView>) -> Map<u16, TagView> {
    if m.contains_key(NIKON_FOCUS_MODE) {
        match m[NIKON_FOCUS_MODE].value {
            ValueView::Ascii(mode) => m.insert(
                0xA000,
                plain_tag(
                    0xA000,
                    Some("AutoFocus"),
                    ValueView::Ascii(if prefixed(mode, "Manual"@) { "Off"@ } else { "On"@ }),
                ),
            ),
            _ => m,
        }
    } else {
        m
    }
}

/// LensID from the seven lens bytes and LensType: the lens's name, or
/// "Unknown (XX XX XX XX XX XX XX XX)".
pub open spec fn lens_id_tag(m: Map<u16, TagView>, id: Option<Seq<u8>>, lens_type: Option<u8>) -> Map<
    u16,
    TagView,
> {
    match (id, lens_type) {
        (Some(b), Some(t)) => {
            let key = hex_list(b.push(t), true, " "@);
            let name = match nikon_lens_name(unicode_upper(key)) {
                Some(n) => n@,
                None => "Unknown ("@ + key + ")"@,
            };
            m.insert(0xA003, plain_tag(0xA003, Some("LensID"), ValueView::Ascii(name)))
        },
        _ => m,
    }
}

/// The tags once the directory is read: ColorBalance, the firmware of an
/// encrypted ShotInfo and LensData decoded with the keys now known, then
/// AutoFocus and LensID.
#[verifier::opaque]
pub open spec fn nk_finish(s: NkSrc, st: NkState) -> Map<u16, TagView> {
    let t1 = match st.color_balance {
        Some(b) => insert_fields(st.tags, 0x9800, color_balance_fields(b, s.endian, st.serial, st.shutter), None, false),
        None => st.tags,
    };
    let t2 = match (st.shot_info, st.serial, st.shutter) {
        (Some(b), Some(se), Some(c)) => shot_firmware(t1, b, se, c),
        _ => t1,
    };
    let (t3, id) = match st.lens_data {
        Some(b) => {
            let r = lens_data(b, st.serial, st.shutter);
            (insert_fields(t2, 0x9400, r.0, Some(NIKON_LENS_DATA), false), r.1)
        },
        None => (t2, None),
    };
    lens_id_tag(auto_focus(t3), id, st.lens_type)
}

/// Whether the data starts with "Nikon" and a NUL (a type 3 maker note).
pub open spec fn nikon_header(d: Seq<u8>) -> bool {
    d.len() >= 6 && d[0] == 0x4e && d[1] == 0x69 && d[2] == 0x6b && d[3] == 0x6f && d[4] == 0x6e
        && d[5] == 0
}

/// Byte order, directory offset and type of a maker note of 18 bytes or
/// more: a type 3 note gives its byte order ("MM" or "II", else the
/// caller's) and the offset of its directory from its TIFF header at 10.
pub open spec fn nikon_layout(d: Seq<u8>, endian: Endianness) -> (Endianness, nat, bool) {
    if nikon_header(d) {
        let e = if d[10] == 0x4d && d[11] == 0x4d {
            Endianness::Big
        } else if d[10] == 0x49 && d[11] == 0x49 {
            Endianness::Little
        } else {
            endian
        };
        (e, 10 + at_u32(d, 14, e) as nat, true)
    } else {
        (endian, 0, false)
    }
}

/// The tags of a Nikon maker note: `None` when the directory's entry count
/// cannot be read (one byte left); no tags for a note under 18 bytes or
/// whose directory lies beyond it. The entries read are those announced,
/// as far as whole entries fit.
pub open spec fn nikon_maker_notes(
    data: Seq<u8>,
    endian: Endianness,
    model: Option<Seq<char>>,
    tiff: Option<Seq<u8>>,
    tiff_offset: nat,
    mn_offset: Option<nat>,
) -> Option<Map<u16, TagView>> {
    if data.len() < 18 {
        Some(Map::empty())
    } else {
        let (e, off, t3) = nikon_layout(data, endian);
        if off >= data.len() {
            Some(Map::empty())
        } else if off + 2 > data.len() {
            None
        } else {
            let s = NkSrc {
                data,
                endian: e,
                outer_endian: endian,
                type3: t3,
                tiff,
                tiff_offset,
                mn_offset,
                model,
            };
            let n = at_u16(data, off as int, e) as nat;
            let fit = ((data.len() - off - 2) as nat) / 12;
            let k = if n < fit {
                n
            } else {
                fit
            };
            Some(nk_finish(s, nk_scan(s, off, nk_start(), k)))
        }
    }
}

// ---------------------------------------------------------------------------
// The parser
// ---------------------------------------------------------------------------

/// The parser's working state.
pub struct NikonScan {
    pub tags: HashMap<u16, MakerNoteTag>,
    pub lens_type: Option<u8>,
    pub serial: Option<u32>,
    pub shutter: Option<u32>,
    pub lens_data: Option<Vec<u8>>,
    pub color_balance: Option<Vec<u8>>,
    pub shot_info: Option<Vec<u8>>,
}

/// The view of optional bytes.
pub open spec fn opt_seq(v: Option<Vec<u8>>) -> Option<Seq<u8>> {
    match v {
        Some(b) => Some(b@),
        None => None,
    }
}

impl View for NikonScan {
    type V = NkState;

    open spec fn view(&self) -> NkState {
        NkState {
            tags: tag_views(self.tags@),
            lens_type: self.lens_type,
            serial: self.serial,
            shutter: self.shutter,
            lens_data: opt_seq(self.lens_data),
            color_balance: opt_seq(self.color_balance),
            shot_info: opt_seq(self.shot_info),
        }
    }
}

proof fn lemma_views_len(m: Map<u16, MakerNoteTag>)
    ensures
        tag_views(m).len() == m.len(),
        tag_views(m).dom() == m.dom(),
{
    assert(tag_views(m).dom() =~= m.dom());
}

/// Adds the fields of a sub-directory to the tags, as `insert_fields` says.
fn insert_pairs(
    tags: &mut HashMap<u16, MakerNoteTag>,
    base: u16,
    pairs: Vec<(&'static str, String)>,
    parent: Option<u16>,
    skip_iso: bool,
)
    ensures
        tag_views(final(tags)@) == insert_fields(
            tag_views(old(tags)@),
            base,
            pairs_view(pairs@),
            parent,
            skip_iso,
        ),
{
    broadcast use vstd::std_specs::hash::group_hash_axioms;

    let ghost pv = pairs_view(pairs@);
    let ghost goal = insert_fields(tag_views(tags@), base, pv, parent, skip_iso);
    assert(pv.skip(0) =~= pv);
    let mut i: usize = 0;
    while i < pairs.len()
        invariant
            i <= pairs@.len(),
            pv == pairs_view(pairs@),
            goal == insert_fields(tag_views(tags@), base, pv.skip(i as int), parent, skip_iso),
        decreases pairs@.len() - i,
    {
        let name = pairs[i].0;
        let val = pairs[i].1.clone();
        let ghost before = tags@;
        proof {
            assert(pv.skip(i as int)[0] == (name, val@));
            assert(pv.skip(i as int).drop_first() =~= pv.skip(i + 1));
            lemma_views_len(before);
        }
        if !(skip_iso && str_eq(name, "ISO")) {
            let n = tags.len();
            let id = ((base as u64 + (n % 65536) as u64) % 65536) as u16;
            assert(id == field_id(base, tag_views(before)));
            let tag = match parent {
                Some(pt) => match get_exiv2_nikon_subfield(pt, name) {
                    Some((g, en)) => MakerNoteTag::with_exiv2(
                        id,
                        Some(name),
                        ExifValue::Ascii(val.clone()),
                        ExifValue::Ascii(val),
                        g,
                        en,
                    ),
                    None => MakerNoteTag::new(id, Some(name), ExifValue::Ascii(val)),
                },
                None => MakerNoteTag::new(id, Some(name), ExifValue::Ascii(val)),
            };
            assert(tag@ == field_tag(id, name, pv[i as int].1, parent));
            tags.insert(id, tag);
            proof {
                assert(tag_views(tags@) =~= tag_views(before).insert(id, tag@));
            }
        }
        i = i + 1;
    }
    proof {
        assert(pv.skip(pairs@.len() as int) =~= Seq::<(&'static str, Seq<char>)>::empty());
    }
}

/// Inserts a tag.
fn put_tag(tags: &mut HashMap<u16, MakerNoteTag>, id: u16, tag: MakerNoteTag)
    ensures
        tag_views(final(tags)@) == tag_views(old(tags)@).insert(id, tag@),
{
    let ghost before = tags@;
    let ghost tv = tag@;
    tags.insert(id, tag);
    proof {
        assert(tag_views(tags@) =~= tag_views(before).insert(id, tv));
    }
}

/// Reads the bytes of the entry at `p`'s value, as `nk_value_bytes` says.
fn nk_value_bytes_exec<'a>(
    data: &'a [u8],
    p: usize,
    endian: Endianness,
    type3: bool,
    tiff: Option<&'a [u8]>,
    tiff_offset: usize,
    mn_offset: Option<usize>,
    Ghost(s): Ghost<NkSrc>,
) -> (r: Option<&'a [u8]>)
    requires
        p + 12 <= data.len(),
        s.data == data@,
        s.endian == endian,
        s.type3 == type3,
        s.tiff == opt_bytes(tiff),
        s.tiff_offset == tiff_offset,
        s.mn_offset == (match mn_offset {
            Some(n) => Some(n as nat),
            None => None,
        }),
    ensures
        match r {
            Some(b) => nk_value_bytes(s, p as int) == Some(b@),
            None => nk_value_bytes(s, p as int) is None,
        },
{
    let typ = read_u16_at(data, p + 2, endian);
    let count = read_u32_at(data, p + 4, endian);
    let unit: u64 = if typ == 1 || typ == 2 || typ == 7 {
        1
    } else if typ == 3 || typ == 8 {
        2
    } else if typ == 4 || typ == 9 {
        4
    } else if typ == 5 || typ == 10 {
        8
    } else {
        0
    };
    let size: u64 = count as u64 * unit;
    if size <= 4 {
        return Some(&data[p + 8..p + 12]);
    }
    let off = read_u32_at(data, p + 8, endian);
    if type3 {
        let a: u128 = 10 + off as u128;
        if a + size as u128 <= data.len() as u128 {
            return Some(&data[a as usize..(a + size as u128) as usize]);
        }
        match (tiff, mn_offset) {
            (Some(t), Some(mn)) => {
                let f: u128 = mn as u128 + 10 + off as u128;
                if f + size as u128 <= t.len() as u128 {
                    Some(&t[f as usize..(f + size as u128) as usize])
                } else {
                    None
                }
            },
            _ => None,
        }
    } else {
        match tiff {
            Some(t) => {
                let f: u128 = tiff_offset as u128 + off as u128;
                if f + size as u128 <= t.len() as u128 {
                    Some(&t[f as usize..(f + size as u128) as usize])
                } else {
                    None
                }
            },
            None => None,
        }
    }
}

fn serial_key_exec(t: &str, model: Option<&str>) -> (r: u32)
    ensures
        r == serial_key(t@, opt_str(model)),
{
    match parse_u32(trim_str(t)) {
        Some(v) => v,
        None => {
            let d50 = match model {
                Some(m) => str_contains(m, "D50"),
                None => false,
            };
            if d50 {
                0x22
            } else {
                0x60
            }
        },
    }
}

/// The view of an optional string slice.
pub open spec fn opt_str(m: Option<&str>) -> Option<Seq<char>> {
    match m {
        Some(t) => Some(t@),
        None => None,
    }
}

/// Takes the effects of an entry, as `nk_effects` says.
fn nk_effects_exec(
    sc: &mut NikonScan,
    tag: u16,
    typ: u16,
    count: u32,
    b: &[u8],
    endian: Endianness,
    model: Option<&str>,
    Ghost(s): Ghost<NkSrc>,
)
    requires
        s.endian == endian,
        s.model == opt_str(model),
    ensures
        final(sc)@ == nk_effects(s, old(sc)@, tag, typ, count, b@),
{
    let ghost st = sc@;
    if typ == 1 && tag == NIKON_LENS_TYPE {
        let bytes = first_bytes_slice(b, count);
        if bytes.len() > 0 {
            sc.lens_type = Some(bytes[0]);
        }
    }
    if typ == 2 && tag == NIKON_SERIAL_NUMBER {
        let bytes = first_bytes_slice(b, count);
        let t = nul_trimmed_string(bytes.as_slice());
        sc.serial = Some(serial_key_exec(t.as_str(), model));
    }
    if typ == 4 && tag == NIKON_SHUTTER_COUNT {
        let longs = read_longs_exec(b, count, endian);
        if longs.len() == 1 && longs[0] != 4294965247 {
            sc.shutter = Some(longs[0]);
        }
    }
    if typ == 3 && tag == NIKON_WB_RB_LEVELS {
        let shorts = read_shorts_exec(b, count, endian);
        if shorts.len() >= 2 {
            put_tag(
                &mut sc.tags,
                0xFE00,
                MakerNoteTag::new(
                    0xFE00,
                    Some("RedBalance"),
                    ExifValue::Ascii(format_ratio6(shorts[0] as u64, 256)),
                ),
            );
            put_tag(
                &mut sc.tags,
                0xFE01,
                MakerNoteTag::new(
                    0xFE01,
                    Some("BlueBalance"),
                    ExifValue::Ascii(format_ratio6(shorts[1] as u64, 256)),
                ),
            );
        }
    }
    if typ == 5 && tag == NIKON_WB_RB_LEVELS {
        let rats = read_rationals_exec(b, count, endian);
        if rats.len() >= 2 {
            let (n0, d0) = rats[0];
            let (n1, d1) = rats[1];
            put_tag(
                &mut sc.tags,
                0xFE00,
                MakerNoteTag::new(
                    0xFE00,
                    Some("RedBalance"),
                    ExifValue::Ascii(
                        format_ratio6(
                            n0 as u64,
                            if d0 != 0 {
                                d0 as u64
                            } else {
                                1
                            },
                        ),
                    ),
                ),
            );
            put_tag(
                &mut sc.tags,
                0xFE01,
                MakerNoteTag::new(
                    0xFE01,
                    Some("BlueBalance"),
                    ExifValue::Ascii(
                        format_ratio6(
                            n1 as u64,
                            if d1 != 0 {
                                d1 as u64
                            } else {
                                1
                            },
                        ),
                    ),
                ),
            );
        }
    }
    proof {
        assert(sc@.tags =~= nk_effects(s, st, tag, typ, count, b@).tags);
    }
}

#[verifier::spinoff_prover]
fn power_up_string(b: &[u8], e: Endianness) -> (r: String)
    requires
        b@.len() >= 7,
    ensures
        r@ == power_up_text(b@, e),
{
    let year = crate::bytes::read_u16(b, e);
    let mut s = String::new();
    push_dec_pad(&mut s, year as u64, 4);
    push_char(&mut s, ':');
    push_dec_pad(&mut s, b[2] as u64, 2);
    push_char(&mut s, ':');
    push_dec_pad(&mut s, b[3] as u64, 2);
    push_char(&mut s, ' ');
    push_dec_pad(&mut s, b[4] as u64, 2);
    push_char(&mut s, ':');
    push_dec_pad(&mut s, b[5] as u64, 2);
    push_char(&mut s, ':');
    push_dec_pad(&mut s, b[6] as u64, 2);
    proof {
        assert(s@ =~= power_up_text(b@, e));
    }
    s
}

fn shorts_le_exec(v: &Vec<u16>) -> (r: Vec<u8>)
    ensures
        r@ == shorts_le(v@),
{
    let mut out: Vec<u8> = Vec::new();
    let mut i: usize = 0;
    while i < v.len()
        invariant
            i <= v@.len(),
            out@ == shorts_le(v@.take(i as int)),
        decreases v.len() - i,
    {
        let x = v[i];
        out.push((x % 256) as u8);
        out.push((x / 256) as u8);
        proof {
            assert(v@.take(i + 1).drop_last() =~= v@.take(i as int));
            assert(out@ =~= shorts_le(v@.take(i + 1)));
        }
        i = i + 1;
    }
    assert(v@.take(i as int) =~= v@);
    out
}

fn shot_info_exec(sc: &mut NikonScan, b: Vec<u8>)
    ensures
        final(sc)@ == shot_info_step(old(sc)@, b@),
{
    let ghost st = sc@;
    let version = if b.len() >= 4 {
        assert(b@.subrange(0, 4) =~= b@.take(4));
        lossy_string(&b.as_slice()[0..4])
    } else {
        String::new()
    };
    if starts_with(version.as_str(), "02") {
        if all_digits_str(version.as_str()) {
            put_tag(
                &mut sc.tags,
                0x9380,
                MakerNoteTag::new(0x9380, Some("ShotInfoVersion"), ExifValue::Ascii(version)),
            );
        }
        sc.shot_info = Some(b);
    } else {
        let f = parse_shot_info_basic(b.as_slice());
        insert_pairs(&mut sc.tags, 0x9380, f, None, false);
    }
}

fn has_hi_iso_exec(tags: &HashMap<u16, MakerNoteTag>) -> (r: bool)
    ensures
        r == has_hi_iso(tag_views(tags@)),
{
    broadcast use vstd::std_specs::hash::group_hash_axioms;

    match tags.get(&0xFFFF) {
        Some(t) => match &t.value {
            ExifValue::Ascii(s) => starts_with(s.as_str(), "Hi "),
            _ => false,
        },
        None => false,
    }
}

/// Reads the sub-directory held in an UNDEFINED value, as `nk_sub_bytes` says.
fn nk_sub_bytes_exec(
    sc: &mut NikonScan,
    tag: u16,
    b: Vec<u8>,
    endian: Endianness,
    outer_endian: Endianness,
    model: Option<&str>,
    Ghost(s): Ghost<NkSrc>,
)
    requires
        s.endian == endian,
        s.outer_endian == outer_endian,
        s.model == opt_str(model),
    ensures
        final(sc)@ == nk_sub_bytes(s, old(sc)@, tag, b@),
{
    let d = b.as_slice();
    if tag == NIKON_ISO_INFO {
        let hi = has_hi_iso_exec(&sc.tags);
        insert_pairs(&mut sc.tags, 0x9000, parse_iso_info(d), Some(NIKON_ISO_INFO), hi);
    } else if tag == NIKON_VR_INFO {
        insert_pairs(&mut sc.tags, 0x9100, parse_vr_info(d, endian, model), Some(NIKON_VR_INFO), false);
    } else if tag == NIKON_HDR_INFO {
        insert_pairs(&mut sc.tags, 0x9180, parse_hdr_info(d), None, false);
    } else if tag == NIKON_PICTURE_CONTROL_DATA || tag == NIKON_PICTURE_CONTROL_DATA_2 {
        insert_pairs(
            &mut sc.tags,
            0x9200,
            parse_picture_control(d),
            Some(NIKON_PICTURE_CONTROL_DATA),
            false,
        );
    } else if tag == NIKON_DISTORTION_CONTROL {
        insert_pairs(&mut sc.tags, 0x9150, parse_distort_info(d), None, false);
    } else if tag == NIKON_AF_TUNE {
        insert_pairs(&mut sc.tags, 0x9160, parse_af_tune(d), None, false);
    } else if tag == NIKON_POWER_UP_TIME_2 {
        if d.len() >= 7 {
            put_tag(
                &mut sc.tags,
                tag,
                MakerNoteTag::new(tag, Some("PowerUpTime"), ExifValue::Ascii(power_up_string(d, endian))),
            );
        }
    } else if tag == NIKON_FLASH_INFO {
        insert_pairs(&mut sc.tags, 0x9300, parse_flash_info(d, model), Some(NIKON_FLASH_INFO), false);
    } else if tag == NIKON_FACE_DETECT {
        insert_pairs(&mut sc.tags, 0x9340, parse_face_detect(d, outer_endian), None, false);
    } else if tag == NIKON_MULTI_EXPOSURE {
        insert_pairs(
            &mut sc.tags,
            0x9350,
            parse_multi_exposure(d),
            Some(NIKON_MULTI_EXPOSURE),
            false,
        );
    } else if tag == NIKON_SHOT_INFO {
        shot_info_exec(sc, b);
    } else if tag == NIKON_FILE_INFO {
        insert_pairs(&mut sc.tags, 0x9390, parse_file_info(d), Some(NIKON_FILE_INFO), false);
    } else if tag == NIKON_RETOUCH_INFO {
        insert_pairs(&mut sc.tags, 0x93A0, parse_retouch_info(d), None, false);
    } else if tag == NIKON_LENS_DATA {
        sc.lens_data = Some(b);
    } else if tag == NIKON_AF_INFO {
        insert_pairs(&mut sc.tags, 0x9500, parse_af_info(d, model), Some(NIKON_AF_INFO), false);
    } else if tag == NIKON_AF_INFO_2 {
        insert_pairs(&mut sc.tags, 0x9600, parse_af_info2(d), Some(NIKON_AF_INFO_2), false);
    } else if tag == NIKON_WORLD_TIME {
        let tz = has_timezone_location_in_shotinfo(model);
        insert_pairs(
            &mut sc.tags,
            0x9700,
            parse_world_time(d, endian, tz),
            Some(NIKON_WORLD_TIME),
            false,
        );
    } else if tag == NIKON_COLOR_BALANCE {
        sc.color_balance = Some(b);
    } else if tag == NIKON_COLOR_BALANCE_A {
        insert_pairs(&mut sc.tags, 0x9A00, parse_color_balance(d, endian, None, None), None, false);
    }
}

/// Reads the sub-directories of a stored tag, as `nk_sub` says.
fn nk_sub_exec(
    sc: &mut NikonScan,
    tag: u16,
    value: &ExifValue,
    endian: Endianness,
    outer_endian: Endianness,
    model: Option<&str>,
    Ghost(s): Ghost<NkSrc>,
)
    requires
        s.endian == endian,
        s.outer_endian == outer_endian,
        s.model == opt_str(model),
    ensures
        final(sc)@ == nk_sub(s, old(sc)@, tag, value@),
{
    match value {
        ExifValue::Undefined(b) => {
            let c = b.clone();
            assert(c@ =~= b@);
            nk_sub_bytes_exec(sc, tag, c, endian, outer_endian, model, Ghost(s));
        },
        ExifValue::Short(vals) => {
            if tag == NIKON_CROP_HI_SPEED {
                let bytes = shorts_le_exec(vals);
                insert_pairs(&mut sc.tags, 0x9900, parse_crop_hi_speed(bytes.as_slice(), endian), None, false);
            }
        },
        _ => {},
    }
}

/// Reads the entry at `p`, as `nk_step` says.
fn nk_step_exec(
    data: &[u8],
    p: usize,
    sc: &mut NikonScan,
    endian: Endianness,
    outer_endian: Endianness,
    type3: bool,
    tiff: Option<&[u8]>,
    tiff_offset: usize,
    mn_offset: Option<usize>,
    model: Option<&str>,
    Ghost(s): Ghost<NkSrc>,
)
    requires
        p + 12 <= data.len(),
        s.data == data@,
        s.endian == endian,
        s.outer_endian == outer_endian,
        s.type3 == type3,
        s.tiff == opt_bytes(tiff),
        s.tiff_offset == tiff_offset,
        s.mn_offset == (match mn_offset {
            Some(n) => Some(n as nat),
            None => None,
        }),
        s.model == opt_str(model),
    ensures
        final(sc)@ == nk_step(s, old(sc)@, p as int),
{
    reveal(nk_step);
    let vb = match nk_value_bytes_exec(data, p, endian, type3, tiff, tiff_offset, mn_offset, Ghost(s)) {
        Some(b) => b,
        None => {
            return;
        },
    };
    let tag = read_u16_at(data, p, endian);
    let typ = read_u16_at(data, p + 2, endian);
    let count = read_u32_at(data, p + 4, endian);
    let value = match entry_value_exec(tag, typ, count, vb, endian) {
        Some(v) => v,
        None => {
            return;
        },
    };
    nk_effects_exec(sc, tag, typ, count, vb, endian, model, Ghost(s));
    if tag == NIKON_ISO_SETTING {
        let shown = match &value {
            ExifValue::Short(v) => v.len() > 0 && v[0] > 0,
            ExifValue::Ascii(t) => t.unicode_len() > 0,
            _ => false,
        };
        if shown {
            put_tag(&mut sc.tags, 0xFFFF, MakerNoteTag::new(0xFFFF, Some("ISO"), value));
        }
        return;
    }
    if tag == NIKON_ISO_SETTING_2 {
        match &value {
            ExifValue::Short(vals) => {
                if vals.len() >= 2 && vals[1] != 0 {
                    let one = vec![vals[1]];
                    assert(one@ =~= seq![vals@[1]]);
                    put_tag(
                        &mut sc.tags,
                        tag,
                        MakerNoteTag::new(tag, get_nikon_tag_name(tag), ExifValue::Short(one)),
                    );
                }
                return;
            },
            ExifValue::Undefined(_) => {
                return;
            },
            _ => {},
        }
    }
    let stored = value.duplicate();
    put_tag(&mut sc.tags, tag, MakerNoteTag::new(tag, get_nikon_tag_name(tag), stored));
    nk_sub_exec(sc, tag, &value, endian, outer_endian, model, Ghost(s));
}

fn shot_firmware_exec(tags: &mut HashMap<u16, MakerNoteTag>, b: Vec<u8>, serial: u32, count: u32)
    ensures
        tag_views(final(tags)@) == shot_firmware(tag_views(old(tags)@), b@, serial, count),
{
    let version = if b.len() >= 4 {
        assert(b@.subrange(0, 4) =~= b@.take(4));
        lossy_string(&b.as_slice()[0..4])
    } else {
        String::new()
    };
    let end = 4 + firmware_len_exec(version.as_str());
    if b.len() >= end {
        let mut d = b.clone();
        assert(d@ =~= b@);
        nikon_decrypt(serial, count, &mut d, 4);
        match firmware_string(&d.as_slice()[4..end]) {
            Some(f) => {
                put_tag(tags, 0x9381, MakerNoteTag::new(0x9381, Some("FirmwareVersion"), ExifValue::Ascii(f)));
            },
            None => {},
        }
    }
}

fn auto_focus_exec(tags: &mut HashMap<u16, MakerNoteTag>)
    ensures
        tag_views(final(tags)@) == auto_focus(tag_views(old(tags)@)),
{
    broadcast use vstd::std_specs::hash::group_hash_axioms;

    let word: Option<&'static str> = match tags.get(&NIKON_FOCUS_MODE) {
        Some(t) => match &t.value {
            ExifValue::Ascii(mode) => Some(
                if starts_with(mode.as_str(), "Manual") {
                    "Off"
                } else {
                    "On"
                },
            ),
            _ => None,
        },
        None => None,
    };
    if let Some(w) = word {
        put_tag(tags, 0xA000, MakerNoteTag::new(0xA000, Some("AutoFocus"), ExifValue::Ascii(owned(w))));
    }
}

fn lens_id_exec(tags: &mut HashMap<u16, MakerNoteTag>, id: Option<[u8; 7]>, lens_type: Option<u8>)
    ensures
        tag_views(final(tags)@) == lens_id_tag(
            tag_views(old(tags)@),
            match id {
                Some(b) => Some(b@),
                None => None,
            },
            lens_type,
        ),
{
    match (id, lens_type) {
        (Some(b), Some(t)) => {
            let all = vec![b[0], b[1], b[2], b[3], b[4], b[5], b[6], t];
            assert(all@ =~= b@.push(t));
            let key = fmt_hex_list(all.as_slice(), true, " ");
            let name = match get_nikon_lens_name(key.as_str()) {
                Some(n) => owned(n),
                None => {
                    let mut u = owned("Unknown (");
                    push_str(&mut u, key.as_str());
                    push_char(&mut u, ')');
                    proof {
                        reveal_strlit(")");
                        assert(u@ =~= "Unknown ("@ + key@ + ")"@);
                    }
                    u
                },
            };
            put_tag(tags, 0xA003, MakerNoteTag::new(0xA003, Some("LensID"), ExifValue::Ascii(name)));
        },
        _ => {},
    }
}

/// Decodes the deferred records and adds the derived tags, as `nk_finish` says.
fn nk_finish_exec(sc: NikonScan, endian: Endianness, Ghost(s): Ghost<NkSrc>) -> (r: HashMap<
    u16,
    MakerNoteTag,
>)
    requires
        s.endian == endian,
    ensures
        tag_views(r@) == nk_finish(s, sc@),
{
    reveal(nk_finish);
    let NikonScan { mut tags, lens_type, serial, shutter, lens_data, color_balance, shot_info } = sc;
    if let Some(b) = color_balance {
        insert_pairs(&mut tags, 0x9800, parse_color_balance(b.as_slice(), endian, serial, shutter), None, false);
    }
    match (shot_info, serial, shutter) {
        (Some(b), Some(se), Some(c)) => {
            shot_firmware_exec(&mut tags, b, se, c);
        },
        _ => {},
    }
    let mut id: Option<[u8; 7]> = None;
    if let Some(b) = lens_data {
        let (f, i) = parse_lens_data(b.as_slice(), serial, shutter);
        insert_pairs(&mut tags, 0x9400, f, Some(NIKON_LENS_DATA), false);
        id = i;
    }
    auto_focus_exec(&mut tags);
    lens_id_exec(&mut tags, id, lens_type);
    tags
}

/// Parses Nikon maker notes. Values stored beyond the note are read from the
/// file's TIFF data (`tiff_data`, whose TIFF header is at `tiff_offset`; the
/// note itself at `makernote_file_offset`). The model selects byte orders and
/// layouts of some records.
pub fn parse_nikon_maker_notes(
    data: &[u8],
    endian: Endianness,
    model: Option<&str>,
    tiff_data: Option<&[u8]>,
    tiff_offset: usize,
    makernote_file_offset: Option<usize>,
) -> (r: Result<HashMap<u16, MakerNoteTag>, ExifError>)
    ensures
        match r {
            Ok(m) => nikon_maker_notes(
                data@,
                endian,
                opt_str(model),
                opt_bytes(tiff_data),
                tiff_offset as nat,
                match makernote_file_offset {
                    Some(n) => Some(n as nat),
                    None => None,
                },
            ) == Some(tag_views(m@)),
            Err(ExifError::Format(msg)) => nikon_maker_notes(
                data@,
                endian,
                opt_str(model),
                opt_bytes(tiff_data),
                tiff_offset as nat,
                match makernote_file_offset {
                    Some(n) => Some(n as nat),
                    None => None,
                },
            ) is None && msg@ == "Failed to read Nikon maker note count"@,
        },
{
    broadcast use vstd::std_specs::hash::group_hash_axioms;

    let tags: HashMap<u16, MakerNoteTag> = HashMap::new();
    proof {
        assert(tag_views(tags@) =~= Map::<u16, TagView>::empty());
    }
    if data.len() < 18 {
        return Ok(tags);
    }
    let header = data[0] == 0x4e && data[1] == 0x69 && data[2] == 0x6b && data[3] == 0x6f && data[4]
        == 0x6e && data[5] == 0;
    let (e, off, type3): (Endianness, u64, bool) = if header {
        let e = if data[10] == 0x4d && data[11] == 0x4d {
            Endianness::Big
        } else if data[10] == 0x49 && data[11] == 0x49 {
            Endianness::Little
        } else {
            endian
        };
        let rel = read_u32_at(data, 14, e);
        (e, 10 + rel as u64, true)
    } else {
        (endian, 0, false)
    };
    if off >= data.len() as u64 {
        return Ok(tags);
    }
    let off = off as usize;
    if off + 1 >= data.len() {
        return Err(ExifError::Format(owned("Failed to read Nikon maker note count")));
    }
    let ghost mn = match makernote_file_offset {
        Some(n) => Some(n as nat),
        None => None,
    };
    let ghost s = NkSrc {
        data: data@,
        endian: e,
        outer_endian: endian,
        type3,
        tiff: opt_bytes(tiff_data),
        tiff_offset: tiff_offset as nat,
        mn_offset: mn,
        model: opt_str(model),
    };
    let n = read_u16_at(data, off, e);
    let fit = (data.len() - off - 2) / 12;
    let k: usize = if (n as usize) < fit {
        n as usize
    } else {
        fit
    };
    let mut sc = NikonScan {
        tags,
        lens_type: None,
        serial: None,
        shutter: None,
        lens_data: None,
        color_balance: None,
        shot_info: None,
    };
    assert(sc@ == nk_start());
    let mut i: usize = 0;
    while i < k
        invariant
            off + 2 <= data.len(),
            fit == (data.len() - off - 2) / 12,
            k <= fit,
            i <= k,
            s.data == data@,
            s.endian == e,
            s.outer_endian == endian,
            s.type3 == type3,
            s.tiff == opt_bytes(tiff_data),
            s.tiff_offset == tiff_offset,
            s.mn_offset == mn,
            mn == (match makernote_file_offset {
                Some(n) => Some(n as nat),
                None => None,
            }),
            s.model == opt_str(model),
            sc@ == nk_scan(s, off as nat, nk_start(), i as nat),
        decreases k - i,
    {
        assert(off + 2 + 12 * i + 12 <= data.len()) by (nonlinear_arith)
            requires
                i < k,
                k <= fit,
                fit == (data.len() - off - 2) / 12,
                off + 2 <= data.len(),
        ;
        nk_step_exec(
            data,
            off + 2 + 12 * i,
            &mut sc,
            e,
            endian,
            type3,
            tiff_data,
            tiff_offset,
            makernote_file_offset,
            model,
            Ghost(s),
        );
        i = i + 1;
    }
    Ok(nk_finish_exec(sc, e, Ghost(s)))
}

} // verus!
