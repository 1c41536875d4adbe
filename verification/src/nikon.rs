//! Nikon maker notes: tag names, value decoders, sub-directory parsers and the
//! shutter-count cipher.
use vstd::prelude::*;
use vstd::string::StrSliceExecFns;
use crate::bytes::{Endianness, read_u16_at, read_u32_at, read_i16, u16_of, u32_of, le16, be16};
use crate::tiff::{at_u16, at_u32, read_shorts, read_shorts_exec};
use crate::text::{
    hex_digit, dec, hex, int_dec, signed_dec, zero_pad, join, views, push_char, push_dec, push_hex, push_zeros, fmt_dec, dec_len, push_dec_pad, push_hex2, push_int, fmt_int, owned, push_str, wrap_dec, join_strings, hex2, hex_list, fmt_hex_list, tenths, tenths_text, push_tenths, round_half_even, round_half_even_exec, thousandths_text, push_thousandths, strip_nuls, trim_end_nuls, str_eq, is_ws, lead_ws, trail_ws, trim, trim_str, starts_with, occurs_at, contains, str_contains, skip_chars, ascii_upper, all_ascii, unicode_upper, to_upper, utf8_lossy, latin, ascii_bytes, lossy_string, utf8_decode, utf8_str, dec_texts, int_texts, join_dec, join_int, trim_zeros, push_frac_digits, ends_with, push_part, str_ends_with, trim_end, trim_end_str, is_digit, all_digit_chars, any_digit_char, all_digits_str, any_digit_str, lex_ge, str_ge, unicode_lower, ascii_lower, to_lower, words_state, ws_words, split_words, split_state, split_pieces, split_at_char,
};

verus! {

pub const NIKON_VERSION: u16 = 0x0001;
pub const NIKON_ISO_SETTING: u16 = 0x0002;
pub const NIKON_COLOR_MODE: u16 = 0x0003;
pub const NIKON_QUALITY: u16 = 0x0004;
pub const NIKON_WHITE_BALANCE: u16 = 0x0005;
pub const NIKON_SHARPNESS: u16 = 0x0006;
pub const NIKON_FOCUS_MODE: u16 = 0x0007;
pub const NIKON_FLASH_SETTING: u16 = 0x0008;
pub const NIKON_FLASH_TYPE: u16 = 0x0009;
pub const NIKON_WHITE_BALANCE_FINE: u16 = 0x000B;
pub const NIKON_WB_RB_LEVELS: u16 = 0x000C;
pub const NIKON_PROGRAM_SHIFT: u16 = 0x000D;
pub const NIKON_EXPOSURE_DIFFERENCE: u16 = 0x000E;
pub const NIKON_ISO_SELECTION: u16 = 0x000F;
pub const NIKON_DATA_DUMP: u16 = 0x0010;
pub const NIKON_PREVIEW_IFD: u16 = 0x0011;
pub const NIKON_FLASH_EXPOSURE_COMP: u16 = 0x0012;
pub const NIKON_ISO_SETTING_2: u16 = 0x0013;
pub const NIKON_COLOR_BALANCE_A: u16 = 0x0014;
pub const NIKON_IMAGE_BOUNDARY: u16 = 0x0016;
pub const NIKON_EXTERNAL_FLASH_EXPOSURE_COMP: u16 = 0x0017;
pub const NIKON_FLASH_EXPOSURE_BRACKET_VALUE: u16 = 0x0018;
pub const NIKON_EXPOSURE_BRACKET_VALUE: u16 = 0x0019;
pub const NIKON_IMAGE_PROCESSING: u16 = 0x001A;
pub const NIKON_CROP_HI_SPEED: u16 = 0x001B;
pub const NIKON_EXPOSURE_TUNING: u16 = 0x001C;
pub const NIKON_SERIAL_NUMBER: u16 = 0x001D;
pub const NIKON_COLOR_SPACE: u16 = 0x001E;
pub const NIKON_VR_INFO: u16 = 0x001F;
pub const NIKON_IMAGE_AUTHENTICATION: u16 = 0x0020;
pub const NIKON_FACE_DETECT: u16 = 0x0021;
pub const NIKON_ACTIVE_D_LIGHTING: u16 = 0x0022;
pub const NIKON_HIGH_ISO_NOISE_REDUCTION: u16 = 0x00B1;
pub const NIKON_PICTURE_CONTROL_DATA: u16 = 0x0023;
pub const NIKON_PICTURE_CONTROL_DATA_2: u16 = 0x00BD; // Coolpix (P6000, P7000, etc.)
pub const NIKON_WORLD_TIME: u16 = 0x0024;
pub const NIKON_ISO_INFO: u16 = 0x0025;
pub const NIKON_VIGNETTE_CONTROL: u16 = 0x002A;
pub const NIKON_DISTORTION_CONTROL: u16 = 0x002B;
pub const NIKON_AUXILIARY_LENS: u16 = 0x0082;
pub const NIKON_LENS_TYPE: u16 = 0x0083;
pub const NIKON_LENS: u16 = 0x0084;
pub const NIKON_MANUAL_FOCUS_DISTANCE: u16 = 0x0085;
pub const NIKON_DIGITAL_ZOOM: u16 = 0x0086;
pub const NIKON_FLASH_MODE: u16 = 0x0087;
pub const NIKON_AF_INFO: u16 = 0x0088;
pub const NIKON_SHOT_INFO: u16 = 0x0091;
pub const NIKON_HUE_ADJUSTMENT: u16 = 0x0092;
pub const NIKON_NEF_COMPRESSION: u16 = 0x0093;
pub const NIKON_SATURATION: u16 = 0x0094;
pub const NIKON_NOISE_REDUCTION: u16 = 0x0095;
pub const NIKON_COLOR_BALANCE: u16 = 0x0097;
pub const NIKON_LENS_DATA: u16 = 0x0098;
pub const NIKON_RAW_IMAGE_CENTER: u16 = 0x0099;
pub const NIKON_FLASH_INFO: u16 = 0x00A8;
pub const NIKON_DATE_STAMP_MODE: u16 = 0x009D;
pub const NIKON_RETOUCH_HISTORY: u16 = 0x009E;
pub const NIKON_SERIAL_NUMBER_2: u16 = 0x00A0;
pub const NIKON_IMAGE_DATA_SIZE: u16 = 0x00A2;
pub const NIKON_IMAGE_COUNT: u16 = 0x00A5;
pub const NIKON_DELETED_IMAGE_COUNT: u16 = 0x00A6;
pub const NIKON_SHUTTER_COUNT: u16 = 0x00A7;
pub const NIKON_IMAGE_OPTIMIZATION: u16 = 0x00A9;
pub const NIKON_SATURATION_2: u16 = 0x00AA;
pub const NIKON_VARI_PROGRAM: u16 = 0x00AB;
pub const NIKON_IMAGE_STABILIZATION: u16 = 0x00AC;
pub const NIKON_AF_RESPONSE: u16 = 0x00AD;
pub const NIKON_SILENT_PHOTOGRAPHY: u16 = 0x00BF;
pub const NIKON_LIGHT_SOURCE: u16 = 0x0090;
pub const NIKON_SHOOTING_MODE: u16 = 0x0089;
pub const NIKON_AUTO_BRACKET_RELEASE: u16 = 0x008A;
pub const NIKON_LENS_F_STOPS: u16 = 0x008B;
pub const NIKON_CONTRAST_CURVE: u16 = 0x008C;
pub const NIKON_COLOR_HUE: u16 = 0x008D;
pub const NIKON_SCENE_MODE: u16 = 0x008F;
pub const NIKON_IMAGE_ADJUSTMENT: u16 = 0x0080;
pub const NIKON_TONE_COMP: u16 = 0x0081;
pub const NIKON_SENSOR_PIXEL_SIZE: u16 = 0x009A;
pub const NIKON_UNKNOWN_TAG_9B: u16 = 0x009B;
pub const NIKON_SCENE_ASSIST: u16 = 0x009C;
pub const NIKON_TONING_EFFECT: u16 = 0x00B3;
pub const NIKON_BAROMETER_INFO: u16 = 0x00C3;
pub const NIKON_PRINT_IM: u16 = 0x0E00;
pub const NIKON_CAPTURE_DATA: u16 = 0x0E01;
pub const NIKON_CAPTURE_VERSION: u16 = 0x0E09;
pub const NIKON_CAPTURE_OFFSETS: u16 = 0x0E0E;
pub const NIKON_SCAN_IFD: u16 = 0x0E10;
pub const NIKON_ICC_PROFILE: u16 = 0x0E1D;
pub const NIKON_CAPTURE_OUTPUT: u16 = 0x0E1E;
pub const NIKON_MULTI_EXPOSURE: u16 = 0x00B0; // Also HDRInfo for some cameras
pub const NIKON_LOCATION_INFO: u16 = 0x00B5;
pub const NIKON_BLACK_LEVEL: u16 = 0x003D;
pub const NIKON_POWER_UP_TIME_2: u16 = 0x00B6;
pub const NIKON_AF_INFO_2: u16 = 0x00B7;
pub const NIKON_FILE_INFO: u16 = 0x00B8;
pub const NIKON_AF_TUNE: u16 = 0x00B9;
pub const NIKON_RETOUCH_INFO: u16 = 0x00BB;
pub const NIKON_PICTURE_CONTROL_VERSION: u16 = 0x00BC;
pub const NIKON_SILENT_PHOTO: u16 = 0x00BD;
pub const NIKON_SHUTTER_MODE: u16 = 0x0034;
pub const NIKON_HDR_INFO: u16 = 0x0035;
pub const NIKON_MECHANICAL_SHUTTER_COUNT: u16 = 0x0037;
pub const NIKON_SENSOR_TYPE: u16 = 0x00A1;
pub const NIKON_AF_POINT_SELECT: u16 = 0x00A3;
pub const NIKON_FLASH_DATA: u16 = 0x00A4;
pub const NIKON_SUBJECT_DIST_RANGE: u16 = 0x00B2;
pub const NIKON_DIGITAL_VARI_PROGRAM: u16 = 0x00B4;
pub const NIKON_GPS_INFO: u16 = 0x00AE;
pub const NIKON_DUST_REFERENCE_DATA: u16 = 0x00AF;
pub const NIKON_NEF_BIT_DEPTH: u16 = 0x0E22;
pub const NIKON_EXTRA_INFO: u16 = 0x00A0;
pub const NIKON_ORIENTATION: u16 = 0x0036;
pub const NIKON_CAPTURE_OFFSET: u16 = 0x0E02;
pub const NIKON_CAPTURE_INFO: u16 = 0x0E03;
pub const NIKON_CAPTURE_EDIT_VERSIONS: u16 = 0x0E04;
pub const NIKON_CAPTURE_NX_VERSION: u16 = 0x0E05;
pub const NIKON_CAPTURE_COLOR: u16 = 0x0E06;
pub const NIKON_CAPTURE_TONE: u16 = 0x0E07;
pub const NIKON_CAPTURE_SHARPENER: u16 = 0x0E08;
pub const NIKON_CAPTURE_NX_COLOR_MODE: u16 = 0x0E0A;
pub const NIKON_CAPTURE_NX_OUTPUT: u16 = 0x0E0B;
pub const NIKON_CAPTURE_NX_TONE_CURVE: u16 = 0x0E0C;
pub const NIKON_CAPTURE_NX_DEE: u16 = 0x0E0D;
pub const NIKON_SCAN_INDEX: u16 = 0x0E11;
pub const NIKON_SCAN_SERIAL_INFO: u16 = 0x0E12;
pub const NIKON_SCAN_PREVIEW: u16 = 0x0E13;
pub const NIKON_SCAN_NEGATIVE_SIZE: u16 = 0x0E14;
pub const NIKON_SCAN_EXPOSURE_INFO: u16 = 0x0E15;
pub const NIKON_AE_BRACKET_COMP: u16 = 0x0026;
pub const NIKON_EXPOSURE_SEQUENCE_NUMBER: u16 = 0x0027;
pub const NIKON_COLOR_BALANCE_A2: u16 = 0x0028;
pub const NIKON_SILHOUETTE: u16 = 0x0029;
pub const NIKON_FOCUS_SHIFT: u16 = 0x002C;
pub const NIKON_POWER_UP_TIME: u16 = 0x002D;
pub const NIKON_AF_INFO_3: u16 = 0x002E;
pub const NIKON_FLASH_INFO_2: u16 = 0x002F;
pub const NIKON_COLOR_TEMP_AUTO: u16 = 0x0035;
pub const NIKON_ACTIVE_D_LIGHTING_2: u16 = 0x0039;
pub const NIKON_NX_TONE_COMP: u16 = 0x0E0F;
pub const NIKON_NX_COLOR_BALANCE: u16 = 0x0E17;
pub const NIKON_NX_NOISE_REDUCTION: u16 = 0x0E18;
pub const NIKON_NX_ACTIVE_D_LIGHTING: u16 = 0x0E19;
pub const NIKON_NX_CAPTURE_LENS: u16 = 0x0E1A;
pub const NIKON_NX_CAPTURE_CAMERA: u16 = 0x0E1B;
pub const NIKON_NX_CAPTURE_SERIAL: u16 = 0x0E1C;
pub const NIKON_SUBJECT_DETECTION: u16 = 0x00C0;
pub const NIKON_FOCUS_PEAKING: u16 = 0x00C1;
pub const NIKON_AF_C_PRIORITY: u16 = 0x00C2;
pub const NIKON_VIEWFINDER_WARNING: u16 = 0x00C4;
pub const NIKON_EYE_DETECTION: u16 = 0x00C5;

/// Name of a Nikon maker-note tag.
pub open spec fn nikon_tag_name(tag_id: u16) -> Option<&'static str> {
    match tag_id {
        0x0001 => Some("MakerNoteVersion"),
        0x0002 => Some("ISO"),
        0x0003 => Some("ColorMode"),
        0x0004 => Some("Quality"),
        0x0005 => Some("WhiteBalance"),
        0x000C => Some("WB_RBLevels"),
        0x0006 => Some("Sharpness"),
        0x0007 => Some("FocusMode"),
        0x0008 => Some("FlashSetting"),
        0x0009 => Some("FlashType"),
        0x001D => Some("SerialNumber"),
        0x001E => Some("ColorSpace"),
        0x001F => Some("VRInfo"),
        0x003D => Some("BlackLevel"),
        0x0022 => Some("ActiveD-Lighting"),
        0x0023 => Some("PictureControlData"),
        0x00BD => Some("PictureControlData"),
        0x002A => Some("VignetteControl"),
        0x002B => Some("DistortionControl"),
        0x00B9 => Some("AFTune"),
        0x00B6 => Some("PowerUpTime"),
        0x0082 => Some("AuxiliaryLens"),
        0x0083 => Some("LensType"),
        0x0084 => Some("Lens"),
        0x0085 => Some("ManualFocusDistance"),
        0x0086 => Some("DigitalZoom"),
        0x0087 => Some("FlashMode"),
        0x0088 => Some("AFInfo"),
        0x0091 => Some("ShotInfo"),
        0x0092 => Some("HueAdjustment"),
        0x0093 => Some("NEFCompression"),
        0x0094 => Some("SaturationAdj"),
        0x0095 => Some("NoiseReduction"),
        0x0097 => Some("ColorBalance"),
        0x0098 => Some("LensData"),
        0x0099 => Some("RawImageCenter"),
        0x009A => Some("SensorPixelSize"),
        0x00A8 => Some("FlashInfo"),
        0x00B1 => Some("HighISONoiseReduction"),
        0x009D => Some("DateStampMode"),
        0x009E => Some("RetouchHistory"),
        0x0090 => Some("LightSource"),
        0x0089 => Some("ShootingMode"),
        0x008A => Some("AutoBracketRelease"),
        0x008B => Some("LensFStops"),
        0x008C => Some("ContrastCurve"),
        0x008D => Some("ColorHue"),
        0x008F => Some("SceneMode"),
        0x0080 => Some("ImageAdjustment"),
        0x0081 => Some("ToneComp"),
        0x00A0 => Some("SerialNumber"),
        0x00A2 => Some("ImageDataSize"),
        0x00A5 => Some("ImageCount"),
        0x00A6 => Some("DeletedImageCount"),
        0x00A7 => Some("ShutterCount"),
        0x00A9 => Some("ImageOptimization"),
        0x00AA => Some("Saturation"),
        0x00AB => Some("VariProgram"),
        0x00AC => Some("ImageStabilization"),
        0x00AD => Some("AFResponse"),
        0x00BF => Some("SilentPhotography"),
        0x000B => Some("WhiteBalanceFineTune"),
        0x000D => Some("ProgramShift"),
        0x000E => Some("ExposureDifference"),
        0x000F => Some("ISOSelection"),
        0x0012 => Some("FlashExposureComp"),
        0x0013 => Some("ISOSetting"),
        0x0014 => Some("NRWData"),
        0x0016 => Some("ImageBoundary"),
        0x0017 => Some("ExternalFlashExposureComp"),
        0x0018 => Some("FlashExposureBracketValue"),
        0x0019 => Some("ExposureBracketValue"),
        0x001B => Some("CropHiSpeed"),
        0x001C => Some("ExposureTuning"),
        0x0020 => Some("ImageAuthentication"),
        0x0021 => Some("FaceDetect"),
        0x0024 => Some("WorldTime"),
        0x0025 => Some("ISOInfo"),
        0x0034 => Some("ShutterMode"),
        0x0035 => Some("HDRInfo"),
        0x0037 => Some("MechanicalShutterCount"),
        0x0E22 => Some("NEFBitDepth"),
        0x001A => Some("ImageProcessing"),
        0x00B0 => Some("MultiExposure"),
        0x00B7 => Some("AFInfo2"),
        0x00B8 => Some("FileInfo"),
        0x002F => Some("FlashInfo"),
        0x009C => Some("SceneAssist"),
        _ => None,
    }
}

/// Name of a Nikon maker-note tag.
pub fn get_nikon_tag_name(tag_id: u16) -> (r: Option<&'static str>)
    ensures
        r == nikon_tag_name(tag_id),
{
    match tag_id {
        0x0001 => Some("MakerNoteVersion"),
        0x0002 => Some("ISO"),
        0x0003 => Some("ColorMode"),
        0x0004 => Some("Quality"),
        0x0005 => Some("WhiteBalance"),
        0x000C => Some("WB_RBLevels"),
        0x0006 => Some("Sharpness"),
        0x0007 => Some("FocusMode"),
        0x0008 => Some("FlashSetting"),
        0x0009 => Some("FlashType"),
        0x001D => Some("SerialNumber"),
        0x001E => Some("ColorSpace"),
        0x001F => Some("VRInfo"),
        0x003D => Some("BlackLevel"),
        0x0022 => Some("ActiveD-Lighting"),
        0x0023 => Some("PictureControlData"),
        0x00BD => Some("PictureControlData"),
        0x002A => Some("VignetteControl"),
        0x002B => Some("DistortionControl"),
        0x00B9 => Some("AFTune"),
        0x00B6 => Some("PowerUpTime"),
        0x0082 => Some("AuxiliaryLens"),
        0x0083 => Some("LensType"),
        0x0084 => Some("Lens"),
        0x0085 => Some("ManualFocusDistance"),
        0x0086 => Some("DigitalZoom"),
        0x0087 => Some("FlashMode"),
        0x0088 => Some("AFInfo"),
        0x0091 => Some("ShotInfo"),
        0x0092 => Some("HueAdjustment"),
        0x0093 => Some("NEFCompression"),
        0x0094 => Some("SaturationAdj"),
        0x0095 => Some("NoiseReduction"),
        0x0097 => Some("ColorBalance"),
        0x0098 => Some("LensData"),
        0x0099 => Some("RawImageCenter"),
        0x009A => Some("SensorPixelSize"),
        0x00A8 => Some("FlashInfo"),
        0x00B1 => Some("HighISONoiseReduction"),
        0x009D => Some("DateStampMode"),
        0x009E => Some("RetouchHistory"),
        0x0090 => Some("LightSource"),
        0x0089 => Some("ShootingMode"),
        0x008A => Some("AutoBracketRelease"),
        0x008B => Some("LensFStops"),
        0x008C => Some("ContrastCurve"),
        0x008D => Some("ColorHue"),
        0x008F => Some("SceneMode"),
        0x0080 => Some("ImageAdjustment"),
        0x0081 => Some("ToneComp"),
        0x00A0 => Some("SerialNumber"),
        0x00A2 => Some("ImageDataSize"),
        0x00A5 => Some("ImageCount"),
        0x00A6 => Some("DeletedImageCount"),
        0x00A7 => Some("ShutterCount"),
        0x00A9 => Some("ImageOptimization"),
        0x00AA => Some("Saturation"),
        0x00AB => Some("VariProgram"),
        0x00AC => Some("ImageStabilization"),
        0x00AD => Some("AFResponse"),
        0x00BF => Some("SilentPhotography"),
        0x000B => Some("WhiteBalanceFineTune"),
        0x000D => Some("ProgramShift"),
        0x000E => Some("ExposureDifference"),
        0x000F => Some("ISOSelection"),
        0x0012 => Some("FlashExposureComp"),
        0x0013 => Some("ISOSetting"),
        0x0014 => Some("NRWData"),
        0x0016 => Some("ImageBoundary"),
        0x0017 => Some("ExternalFlashExposureComp"),
        0x0018 => Some("FlashExposureBracketValue"),
        0x0019 => Some("ExposureBracketValue"),
        0x001B => Some("CropHiSpeed"),
        0x001C => Some("ExposureTuning"),
        0x0020 => Some("ImageAuthentication"),
        0x0021 => Some("FaceDetect"),
        0x0024 => Some("WorldTime"),
        0x0025 => Some("ISOInfo"),
        0x0034 => Some("ShutterMode"),
        0x0035 => Some("HDRInfo"),
        0x0037 => Some("MechanicalShutterCount"),
        0x0E22 => Some("NEFBitDepth"),
        0x001A => Some("ImageProcessing"),
        0x00B0 => Some("MultiExposure"),
        0x00B7 => Some("AFInfo2"),
        0x00B8 => Some("FileInfo"),
        0x002F => Some("FlashInfo"),
        0x009C => Some("SceneAssist"),
        _ => None,
    }
}

/// Nikon lens name for an upper-case composite lens ID.
pub open spec fn nikon_lens_name(k: Seq<char>) -> Option<&'static str> {
    if k == "01 58 50 50 14 14 02 00"@ {
        Some("AF Nikkor 50mm f/1.8")
    } else if k == "01 58 50 50 14 14 05 00"@ {
        Some("AF Nikkor 50mm f/1.8")
    } else if k == "02 42 44 5C 2A 34 02 00"@ {
        Some("AF Zoom-Nikkor 35-70mm f/3.3-4.5")
    } else if k == "03 48 5C 81 30 30 02 00"@ {
        Some("AF Zoom-Nikkor 70-210mm f/4")
    } else if k == "04 48 3C 3C 24 24 03 00"@ {
        Some("AF Nikkor 28mm f/2.8")
    } else if k == "05 54 50 50 0C 0C 04 00"@ {
        Some("AF Nikkor 50mm f/1.4")
    } else if k == "06 54 53 53 24 24 06 00"@ {
        Some("AF Micro-Nikkor 55mm f/2.8")
    } else if k == "09 48 37 37 24 24 04 00"@ {
        Some("AF Nikkor 24mm f/2.8")
    } else if k == "0A 48 8E 8E 24 24 03 00"@ {
        Some("AF Nikkor 300mm f/2.8 IF-ED")
    } else if k == "0B 48 7C 7C 24 24 05 00"@ {
        Some("AF Nikkor 180mm f/2.8 IF-ED")
    } else if k == "0F 58 50 50 14 14 05 00"@ {
        Some("AF Nikkor 50mm f/1.8 N")
    } else if k == "10 48 8E 8E 30 30 08 00"@ {
        Some("AF Nikkor 300mm f/4 IF-ED")
    } else if k == "11 48 44 5C 24 24 08 00"@ {
        Some("AF Zoom-Nikkor 35-70mm f/2.8")
    } else if k == "15 4C 62 62 14 14 0C 00"@ {
        Some("AF Nikkor 85mm f/1.8")
    } else if k == "1A 54 44 44 18 18 11 00"@ {
        Some("AF Nikkor 35mm f/2")
    } else if k == "1C 48 30 30 24 24 12 00"@ {
        Some("AF Nikkor 20mm f/2.8")
    } else if k == "1E 54 56 56 24 24 13 00"@ {
        Some("AF Micro-Nikkor 60mm f/2.8")
    } else if k == "1F 54 6A 6A 24 24 14 00"@ {
        Some("AF Micro-Nikkor 105mm f/2.8")
    } else if k == "22 48 72 72 18 18 16 00"@ {
        Some("AF DC-Nikkor 135mm f/2")
    } else if k == "24 48 60 80 24 24 1A 02"@ {
        Some("AF Zoom-Nikkor 80-200mm f/2.8D ED")
    } else if k == "31 54 56 56 24 24 25 02"@ {
        Some("AF Micro-Nikkor 60mm f/2.8D")
    } else if k == "32 54 6A 6A 24 24 35 02"@ {
        Some("AF Micro-Nikkor 105mm f/2.8D")
    } else if k == "33 48 2D 2D 24 24 31 02"@ {
        Some("AF Nikkor 18mm f/2.8D")
    } else if k == "34 48 29 29 24 24 32 02"@ {
        Some("AF Fisheye Nikkor 16mm f/2.8D")
    } else if k == "36 48 37 37 24 24 34 02"@ {
        Some("AF Nikkor 24mm f/2.8D")
    } else if k == "37 48 30 30 24 24 36 02"@ {
        Some("AF Nikkor 20mm f/2.8D")
    } else if k == "38 4C 62 62 14 14 37 02"@ {
        Some("AF Nikkor 85mm f/1.8D")
    } else if k == "42 54 44 44 18 18 44 02"@ {
        Some("AF Nikkor 35mm f/2D")
    } else if k == "43 54 50 50 0C 0C 46 02"@ {
        Some("AF Nikkor 50mm f/1.4D")
    } else if k == "4A 54 62 62 0C 0C 4D 02"@ {
        Some("AF Nikkor 85mm f/1.4D IF")
    } else if k == "4E 48 72 72 18 18 51 02"@ {
        Some("AF DC-Nikkor 135mm f/2D")
    } else if k == "76 58 50 50 14 14 7A 02"@ {
        Some("AF Nikkor 50mm f/1.8D")
    } else if k == "48 48 8E 8E 24 24 4B 02"@ {
        Some("AF-S Nikkor 300mm f/2.8D IF-ED")
    } else if k == "5D 48 3C 5C 24 24 63 02"@ {
        Some("AF-S Zoom-Nikkor 28-70mm f/2.8D IF-ED")
    } else if k == "5E 48 60 80 24 24 64 02"@ {
        Some("AF-S Zoom-Nikkor 80-200mm f/2.8D IF-ED")
    } else if k == "63 48 2B 44 24 24 68 02"@ {
        Some("AF-S Nikkor 17-35mm f/2.8D IF-ED")
    } else if k == "6A 48 8E 8E 30 30 70 02"@ {
        Some("AF-S Nikkor 300mm f/4D IF-ED")
    } else if k == "6B 48 24 24 24 24 71 02"@ {
        Some("AF Nikkor ED 14mm f/2.8D")
    } else if k == "77 48 5C 80 24 24 7B 0E"@ {
        Some("AF-S VR Zoom-Nikkor 70-200mm f/2.8G IF-ED")
    } else if k == "78 48 5C 80 24 24 7C 0E"@ {
        Some("AF-S VR Zoom-Nikkor 70-200mm f/2.8G IF-ED II")
    } else if k == "79 40 11 11 2C 2C 7D 06"@ {
        Some("AF-S Fisheye Nikkor 8-15mm f/3.5-4.5E ED")
    } else if k == "7A 48 5C 80 24 24 7E 0E"@ {
        Some("AF-S VR Zoom-Nikkor 70-200mm f/2.8E FL ED VR")
    } else if k == "8A 54 6A 6A 24 24 A3 0E"@ {
        Some("AF-S VR Micro-Nikkor 105mm f/2.8G IF-ED")
    } else if k == "8B 40 2D 80 2C 3C A4 0E"@ {
        Some("AF-S DX VR Zoom-Nikkor 18-200mm f/3.5-5.6G IF-ED")
    } else if k == "8C 40 2D 53 2C 3C A5 06"@ {
        Some("AF-S DX Zoom-Nikkor 18-55mm f/3.5-5.6G ED")
    } else if k == "8D 44 5C 8E 34 3C A6 06"@ {
        Some("AF-S VR Zoom-Nikkor 70-300mm f/4.5-5.6G IF-ED")
    } else if k == "8E 3C 2B 5C 24 30 A7 0E"@ {
        Some("AF-S Zoom-Nikkor 17-70mm f/2.8-4G IF-ED")
    } else if k == "8F 40 2D 72 2C 3C A8 0E"@ {
        Some("AF-S DX Zoom-Nikkor 18-135mm f/3.5-5.6G IF-ED")
    } else if k == "90 3B 53 80 30 3C A9 0E"@ {
        Some("AF-S DX VR Zoom-Nikkor 55-200mm f/4-5.6G IF-ED")
    } else if k == "92 48 24 37 24 24 AB 0E"@ {
        Some("AF-S Zoom-Nikkor 14-24mm f/2.8G ED")
    } else if k == "93 48 37 5C 24 24 AC 0E"@ {
        Some("AF-S Zoom-Nikkor 24-70mm f/2.8G ED")
    } else if k == "94 40 2D 53 2C 3C AE 0E"@ {
        Some("AF-S DX Zoom-Nikkor 18-55mm f/3.5-5.6G VR")
    } else if k == "95 00 37 37 2C 2C AF 06"@ {
        Some("PC-E Nikkor 24mm f/3.5D ED")
    } else if k == "96 48 98 98 24 24 B0 0E"@ {
        Some("AF-S VR Nikkor 400mm f/2.8G ED")
    } else if k == "97 3C A0 A0 30 30 B1 0E"@ {
        Some("AF-S VR Nikkor 500mm f/4G ED")
    } else if k == "98 3C A6 A6 30 30 B2 0E"@ {
        Some("AF-S VR Nikkor 600mm f/4G ED")
    } else if k == "99 40 29 62 2C 3C B3 0E"@ {
        Some("AF-S DX VR Zoom-Nikkor 16-85mm f/3.5-5.6G ED")
    } else if k == "9A 40 2D 53 2C 3C B4 0E"@ {
        Some("AF-S DX Zoom-Nikkor 18-55mm f/3.5-5.6G VR II")
    } else if k == "9B 54 4C 4C 24 24 B5 02"@ {
        Some("PC-E Micro Nikkor 45mm f/2.8D ED")
    } else if k == "9C 54 56 56 24 24 B6 06"@ {
        Some("AF-S Micro Nikkor 60mm f/2.8G ED")
    } else if k == "9D 00 62 62 24 24 B7 0E"@ {
        Some("PC-E Micro Nikkor 85mm f/2.8D")
    } else if k == "9E 40 2D 6A 2C 3C B8 0E"@ {
        Some("AF-S DX VR Zoom-Nikkor 18-105mm f/3.5-5.6G ED")
    } else if k == "9F 58 44 44 14 14 B9 06"@ {
        Some("AF-S DX Nikkor 35mm f/1.8G")
    } else if k == "A0 54 50 50 0C 0C BA 06"@ {
        Some("AF-S Nikkor 50mm f/1.4G")
    } else if k == "A0 54 50 50 0C 0C A2 06"@ {
        Some("AF-S Nikkor 50mm f/1.4G")
    } else if k == "A1 40 18 37 2C 34 BB 06"@ {
        Some("AF-S DX Nikkor 10-24mm f/3.5-4.5G ED")
    } else if k == "A2 48 5C 80 24 24 BC 0E"@ {
        Some("AF-S Nikkor 70-200mm f/2.8G ED VR II")
    } else if k == "A3 3C 29 44 30 30 BD 0E"@ {
        Some("AF-S Nikkor 16-35mm f/4G ED VR")
    } else if k == "A4 54 37 37 0C 0C BE 06"@ {
        Some("AF-S Nikkor 24mm f/1.4G ED")
    } else if k == "A5 40 3C 8E 2C 3C BF 0E"@ {
        Some("AF-S Nikkor 28-300mm f/3.5-5.6G ED VR")
    } else if k == "A6 48 8E 8E 24 24 C0 0E"@ {
        Some("AF-S Nikkor 300mm f/2.8G ED VR II")
    } else if k == "A8 48 8E 8E 30 30 C3 4E"@ {
        Some("AF-S Nikkor 300mm f/4E PF ED VR")
    } else if k == "A7 4C 2D 50 24 24 C1 06"@ {
        Some("AF-S DX Nikkor 18-50mm f/2.8G ED")
    } else if k == "A8 48 80 98 30 30 C2 0E"@ {
        Some("AF-S Zoom-Nikkor 200-400mm f/4G IF-ED VR")
    } else if k == "A9 54 80 80 18 18 C3 0E"@ {
        Some("AF-S Nikkor 200mm f/2G ED VR II")
    } else if k == "AA 3C 37 6E 30 30 C4 0E"@ {
        Some("AF-S Nikkor 24-120mm f/4G ED VR")
    } else if k == "AB 3C A0 A0 30 30 C5 0E"@ {
        Some("AF-S Nikkor 500mm f/4G ED VR")
    } else if k == "AC 38 53 8E 34 3C C6 0E"@ {
        Some("AF-S DX Nikkor 55-300mm f/4.5-5.6G ED VR")
    } else if k == "AD 3C 2D 8E 2C 3C C7 0E"@ {
        Some("AF-S DX Nikkor 18-300mm f/3.5-5.6G ED VR")
    } else if k == "AE 54 62 62 0C 0C C8 06"@ {
        Some("AF-S Nikkor 85mm f/1.4G")
    } else if k == "AF 54 44 44 0C 0C C9 06"@ {
        Some("AF-S Nikkor 35mm f/1.4G")
    } else if k == "B0 4C 50 50 14 14 CA 06"@ {
        Some("AF-S Nikkor 50mm f/1.8G")
    } else if k == "B1 48 48 48 24 24 CB 06"@ {
        Some("AF-S DX Micro Nikkor 40mm f/2.8G")
    } else if k == "B2 48 5C 80 30 30 CC 0E"@ {
        Some("AF-S Nikkor 70-200mm f/4G ED VR")
    } else if k == "B3 4C 62 62 14 14 CD 06"@ {
        Some("AF-S Nikkor 85mm f/1.8G")
    } else if k == "B4 40 37 62 2C 34 CE 0E"@ {
        Some("AF-S Nikkor 24-85mm f/3.5-4.5G ED VR")
    } else if k == "B5 4C 3C 3C 14 14 CF 06"@ {
        Some("AF-S Nikkor 28mm f/1.8G")
    } else if k == "B6 3C B0 B0 3C 3C D0 0E"@ {
        Some("AF-S VR Nikkor 800mm f/5.6E FL ED")
    } else if k == "B7 44 60 98 34 3C D1 0E"@ {
        Some("AF-S Nikkor 80-400mm f/4.5-5.6G ED VR")
    } else if k == "B8 40 2D 44 2C 34 D2 0E"@ {
        Some("AF-S DX Nikkor 18-35mm f/3.5-4.5G ED")
    } else if k == "7F 40 2D 5C 2C 34 84 06"@ {
        Some("AF-S DX Zoom-Nikkor 18-70mm f/3.5-4.5G IF-ED")
    } else if k == "7D 48 2B 53 24 24 82 06"@ {
        Some("AF-S DX Zoom-Nikkor 17-55mm f/2.8G IF-ED")
    } else if k == "8B 40 2D 80 2C 3C 8D 0E"@ {
        Some("AF-S DX VR Zoom-Nikkor 18-200mm f/3.5-5.6G IF-ED")
    } else if k == "8B 40 2D 80 2C 3C FD 0E"@ {
        Some("AF-S DX VR Zoom-Nikkor 18-200mm f/3.5-5.6G IF-ED [II]")
    } else if k == "A0 40 2D 74 2C 3C BB 0E"@ {
        Some("AF-S DX Nikkor 18-140mm f/3.5-5.6G ED VR")
    } else if k == "8D 44 5C 8E 34 3C 8F 0E"@ {
        Some("AF-S VR Zoom-Nikkor 70-300mm f/4.5-5.6G IF-ED")
    } else if k == "93 48 37 5C 24 24 95 06"@ {
        Some("AF-S Zoom-Nikkor 24-70mm f/2.8G ED")
    } else if k == "9A 40 2D 53 2C 3C 9C 0E"@ {
        Some("AF-S DX VR Zoom-Nikkor 18-55mm f/3.5-5.6G")
    } else if k == "94 40 2D 53 2C 3C 96 06"@ {
        Some("AF-S DX Zoom-Nikkor 18-55mm f/3.5-5.6G ED II")
    } else if k == "9E 40 2D 6A 2C 3C A0 0E"@ {
        Some("AF-S DX VR Zoom-Nikkor 18-105mm f/3.5-5.6G ED")
    } else if k == "A2 40 2D 53 2C 3C BD 0E"@ {
        Some("AF-S DX Nikkor 18-55mm f/3.5-5.6G VR II")
    } else if k == "B0 4C 50 50 14 14 B2 06"@ {
        Some("AF-S Nikkor 50mm f/1.8G")
    } else if k == "B4 40 37 62 2C 34 B6 0E"@ {
        Some("AF-S Zoom-Nikkor 24-85mm f/3.5-4.5G IF-ED VR")
    } else if k == "69 48 5C 8E 30 3C 6F 06"@ {
        Some("AF Zoom-Nikkor 70-300mm f/4-5.6G")
    } else if k == "9F 58 44 44 14 14 A1 06"@ {
        Some("AF-S DX Nikkor 35mm f/1.8G")
    } else if k == "92 48 24 37 24 24 94 06"@ {
        Some("AF-S Zoom-Nikkor 14-24mm f/2.8G ED")
    } else if k == "A0 40 2D 53 2C 3C CA 8E"@ {
        Some("AF-P DX Nikkor 18-55mm f/3.5-5.6G")
    } else if k == "A5 54 6A 6A 0C 0C D0 46"@ {
        Some("AF-S Nikkor 105mm f/1.4E ED")
    } else if k == "A9 4C 31 31 14 14 C4 06"@ {
        Some("AF-S Nikkor 20mm f/1.8G ED")
    } else if k == "99 40 29 62 2C 3C 9B 0E"@ {
        Some("AF-S DX VR Zoom-Nikkor 16-85mm f/3.5-5.6G ED")
    } else if k == "8F 40 2D 72 2C 3C 91 06"@ {
        Some("AF-S DX Zoom-Nikkor 18-135mm f/3.5-5.6G IF-ED")
    } else if k == "8A 54 6A 6A 24 24 8C 0E"@ {
        Some("AF-S VR Micro-Nikkor 105mm f/2.8G IF-ED")
    } else if k == "7A 3C 1F 37 30 30 7E 06"@ {
        Some("AF-S DX Zoom-Nikkor 12-24mm f/4G IF-ED")
    } else if k == "26 40 2D 50 2C 3C 1C 06"@ {
        Some("Sigma 18-50mm F3.5-5.6 DC")
    } else if k == "26 40 2D 70 2B 3C 1C 06"@ {
        Some("Sigma 18-125mm F3.5-5.6 DC")
    } else if k == "A1 41 19 31 2C 2C 4B 06"@ {
        Some("Sigma 10-20mm F3.5 EX DC HSM")
    } else if k == "91 54 44 44 0C 0C 4B 06"@ {
        Some("Sigma 35mm F1.4 DG HSM | A")
    } else if k == "87 2C 2D 8E 2C 40 4B 0E"@ {
        Some("Sigma 18-300mm F3.5-6.3 DC Macro HSM")
    } else if k == "92 35 2D 88 2C 40 4B 0E"@ {
        Some("Sigma 18-250mm F3.5-6.3 DC Macro OS HSM")
    } else if k == "FA 54 3C 5E 24 24 DF 06"@ {
        Some("Tamron SP AF 28-75mm f/2.8 XR Di LD Aspherical (IF) Macro (A09NII)")
    } else if k == "FE 48 37 5C 24 24 DF 0E"@ {
        Some("Tamron SP 24-70mm f/2.8 Di VC USD (A007)")
    } else if k == "E8 4C 44 44 14 14 DF 0E"@ {
        Some("Tamron SP 35mm f/1.8 Di VC USD (F012)")
    } else if k == "00 40 2D 88 2C 40 62 06"@ {
        Some("Tamron AF 18-250mm f/3.5-6.3 Di II LD Aspherical (IF) Macro (A18)")
    } else if k == "8F 48 2B 50 24 24 4B 0E"@ {
        Some("Sigma 17-50mm F2.8 EX DC OS HSM")
    } else if k == "7A 48 1C 30 24 24 7E 06"@ {
        Some("Tokina AT-X 11-20 F2.8 PRO DX (AF 11-20mm f/2.8)")
    } else if k == "00 00 00 00 00 00 00 01"@ {
        Some("Manual Lens No CPU")
    } else if k == "01 00 00 00 00 00 00 00"@ {
        Some("Nikon Z Lens")
    } else {
        None
    }
}

/// Nikon lens name for an upper-case composite lens ID.
fn lens_name_for_id(k: &str) -> (r: Option<&'static str>)
    ensures
        r == nikon_lens_name(k@),
{
    if str_eq(k, "01 58 50 50 14 14 02 00") {
        Some("AF Nikkor 50mm f/1.8")
    } else if str_eq(k, "01 58 50 50 14 14 05 00") {
        Some("AF Nikkor 50mm f/1.8")
    } else if str_eq(k, "02 42 44 5C 2A 34 02 00") {
        Some("AF Zoom-Nikkor 35-70mm f/3.3-4.5")
    } else if str_eq(k, "03 48 5C 81 30 30 02 00") {
        Some("AF Zoom-Nikkor 70-210mm f/4")
    } else if str_eq(k, "04 48 3C 3C 24 24 03 00") {
        Some("AF Nikkor 28mm f/2.8")
    } else if str_eq(k, "05 54 50 50 0C 0C 04 00") {
        Some("AF Nikkor 50mm f/1.4")
    } else if str_eq(k, "06 54 53 53 24 24 06 00") {
        Some("AF Micro-Nikkor 55mm f/2.8")
    } else if str_eq(k, "09 48 37 37 24 24 04 00") {
        Some("AF Nikkor 24mm f/2.8")
    } else if str_eq(k, "0A 48 8E 8E 24 24 03 00") {
        Some("AF Nikkor 300mm f/2.8 IF-ED")
    } else if str_eq(k, "0B 48 7C 7C 24 24 05 00") {
        Some("AF Nikkor 180mm f/2.8 IF-ED")
    } else if str_eq(k, "0F 58 50 50 14 14 05 00") {
        Some("AF Nikkor 50mm f/1.8 N")
    } else if str_eq(k, "10 48 8E 8E 30 30 08 00") {
        Some("AF Nikkor 300mm f/4 IF-ED")
    } else if str_eq(k, "11 48 44 5C 24 24 08 00") {
        Some("AF Zoom-Nikkor 35-70mm f/2.8")
    } else if str_eq(k, "15 4C 62 62 14 14 0C 00") {
        Some("AF Nikkor 85mm f/1.8")
    } else if str_eq(k, "1A 54 44 44 18 18 11 00") {
        Some("AF Nikkor 35mm f/2")
    } else if str_eq(k, "1C 48 30 30 24 24 12 00") {
        Some("AF Nikkor 20mm f/2.8")
    } else if str_eq(k, "1E 54 56 56 24 24 13 00") {
        Some("AF Micro-Nikkor 60mm f/2.8")
    } else if str_eq(k, "1F 54 6A 6A 24 24 14 00") {
        Some("AF Micro-Nikkor 105mm f/2.8")
    } else if str_eq(k, "22 48 72 72 18 18 16 00") {
        Some("AF DC-Nikkor 135mm f/2")
    } else if str_eq(k, "24 48 60 80 24 24 1A 02") {
        Some("AF Zoom-Nikkor 80-200mm f/2.8D ED")
    } else if str_eq(k, "31 54 56 56 24 24 25 02") {
        Some("AF Micro-Nikkor 60mm f/2.8D")
    } else if str_eq(k, "32 54 6A 6A 24 24 35 02") {
        Some("AF Micro-Nikkor 105mm f/2.8D")
    } else if str_eq(k, "33 48 2D 2D 24 24 31 02") {
        Some("AF Nikkor 18mm f/2.8D")
    } else if str_eq(k, "34 48 29 29 24 24 32 02") {
        Some("AF Fisheye Nikkor 16mm f/2.8D")
    } else if str_eq(k, "36 48 37 37 24 24 34 02") {
        Some("AF Nikkor 24mm f/2.8D")
    } else if str_eq(k, "37 48 30 30 24 24 36 02") {
        Some("AF Nikkor 20mm f/2.8D")
    } else if str_eq(k, "38 4C 62 62 14 14 37 02") {
        Some("AF Nikkor 85mm f/1.8D")
    } else if str_eq(k, "42 54 44 44 18 18 44 02") {
        Some("AF Nikkor 35mm f/2D")
    } else if str_eq(k, "43 54 50 50 0C 0C 46 02") {
        Some("AF Nikkor 50mm f/1.4D")
    } else if str_eq(k, "4A 54 62 62 0C 0C 4D 02") {
        Some("AF Nikkor 85mm f/1.4D IF")
    } else if str_eq(k, "4E 48 72 72 18 18 51 02") {
        Some("AF DC-Nikkor 135mm f/2D")
    } else if str_eq(k, "76 58 50 50 14 14 7A 02") {
        Some("AF Nikkor 50mm f/1.8D")
    } else if str_eq(k, "48 48 8E 8E 24 24 4B 02") {
        Some("AF-S Nikkor 300mm f/2.8D IF-ED")
    } else if str_eq(k, "5D 48 3C 5C 24 24 63 02") {
        Some("AF-S Zoom-Nikkor 28-70mm f/2.8D IF-ED")
    } else if str_eq(k, "5E 48 60 80 24 24 64 02") {
        Some("AF-S Zoom-Nikkor 80-200mm f/2.8D IF-ED")
    } else if str_eq(k, "63 48 2B 44 24 24 68 02") {
        Some("AF-S Nikkor 17-35mm f/2.8D IF-ED")
    } else if str_eq(k, "6A 48 8E 8E 30 30 70 02") {
        Some("AF-S Nikkor 300mm f/4D IF-ED")
    } else if str_eq(k, "6B 48 24 24 24 24 71 02") {
        Some("AF Nikkor ED 14mm f/2.8D")
    } else if str_eq(k, "77 48 5C 80 24 24 7B 0E") {
        Some("AF-S VR Zoom-Nikkor 70-200mm f/2.8G IF-ED")
    } else if str_eq(k, "78 48 5C 80 24 24 7C 0E") {
        Some("AF-S VR Zoom-Nikkor 70-200mm f/2.8G IF-ED II")
    } else if str_eq(k, "79 40 11 11 2C 2C 7D 06") {
        Some("AF-S Fisheye Nikkor 8-15mm f/3.5-4.5E ED")
    } else if str_eq(k, "7A 48 5C 80 24 24 7E 0E") {
        Some("AF-S VR Zoom-Nikkor 70-200mm f/2.8E FL ED VR")
    } else if str_eq(k, "8A 54 6A 6A 24 24 A3 0E") {
        Some("AF-S VR Micro-Nikkor 105mm f/2.8G IF-ED")
    } else if str_eq(k, "8B 40 2D 80 2C 3C A4 0E") {
        Some("AF-S DX VR Zoom-Nikkor 18-200mm f/3.5-5.6G IF-ED")
    } else if str_eq(k, "8C 40 2D 53 2C 3C A5 06") {
        Some("AF-S DX Zoom-Nikkor 18-55mm f/3.5-5.6G ED")
    } else if str_eq(k, "8D 44 5C 8E 34 3C A6 06") {
        Some("AF-S VR Zoom-Nikkor 70-300mm f/4.5-5.6G IF-ED")
    } else if str_eq(k, "8E 3C 2B 5C 24 30 A7 0E") {
        Some("AF-S Zoom-Nikkor 17-70mm f/2.8-4G IF-ED")
    } else if str_eq(k, "8F 40 2D 72 2C 3C A8 0E") {
        Some("AF-S DX Zoom-Nikkor 18-135mm f/3.5-5.6G IF-ED")
    } else if str_eq(k, "90 3B 53 80 30 3C A9 0E") {
        Some("AF-S DX VR Zoom-Nikkor 55-200mm f/4-5.6G IF-ED")
    } else if str_eq(k, "92 48 24 37 24 24 AB 0E") {
        Some("AF-S Zoom-Nikkor 14-24mm f/2.8G ED")
    } else if str_eq(k, "93 48 37 5C 24 24 AC 0E") {
        Some("AF-S Zoom-Nikkor 24-70mm f/2.8G ED")
    } else if str_eq(k, "94 40 2D 53 2C 3C AE 0E") {
        Some("AF-S DX Zoom-Nikkor 18-55mm f/3.5-5.6G VR")
    } else if str_eq(k, "95 00 37 37 2C 2C AF 06") {
        Some("PC-E Nikkor 24mm f/3.5D ED")
    } else if str_eq(k, "96 48 98 98 24 24 B0 0E") {
        Some("AF-S VR Nikkor 400mm f/2.8G ED")
    } else if str_eq(k, "97 3C A0 A0 30 30 B1 0E") {
        Some("AF-S VR Nikkor 500mm f/4G ED")
    } else if str_eq(k, "98 3C A6 A6 30 30 B2 0E") {
        Some("AF-S VR Nikkor 600mm f/4G ED")
    } else if str_eq(k, "99 40 29 62 2C 3C B3 0E") {
        Some("AF-S DX VR Zoom-Nikkor 16-85mm f/3.5-5.6G ED")
    } else if str_eq(k, "9A 40 2D 53 2C 3C B4 0E") {
        Some("AF-S DX Zoom-Nikkor 18-55mm f/3.5-5.6G VR II")
    } else if str_eq(k, "9B 54 4C 4C 24 24 B5 02") {
        Some("PC-E Micro Nikkor 45mm f/2.8D ED")
    } else if str_eq(k, "9C 54 56 56 24 24 B6 06") {
        Some("AF-S Micro Nikkor 60mm f/2.8G ED")
    } else if str_eq(k, "9D 00 62 62 24 24 B7 0E") {
        Some("PC-E Micro Nikkor 85mm f/2.8D")
    } else if str_eq(k, "9E 40 2D 6A 2C 3C B8 0E") {
        Some("AF-S DX VR Zoom-Nikkor 18-105mm f/3.5-5.6G ED")
    } else if str_eq(k, "9F 58 44 44 14 14 B9 06") {
        Some("AF-S DX Nikkor 35mm f/1.8G")
    } else if str_eq(k, "A0 54 50 50 0C 0C BA 06") {
        Some("AF-S Nikkor 50mm f/1.4G")
    } else if str_eq(k, "A0 54 50 50 0C 0C A2 06") {
        Some("AF-S Nikkor 50mm f/1.4G")
    } else if str_eq(k, "A1 40 18 37 2C 34 BB 06") {
        Some("AF-S DX Nikkor 10-24mm f/3.5-4.5G ED")
    } else if str_eq(k, "A2 48 5C 80 24 24 BC 0E") {
        Some("AF-S Nikkor 70-200mm f/2.8G ED VR II")
    } else if str_eq(k, "A3 3C 29 44 30 30 BD 0E") {
        Some("AF-S Nikkor 16-35mm f/4G ED VR")
    } else if str_eq(k, "A4 54 37 37 0C 0C BE 06") {
        Some("AF-S Nikkor 24mm f/1.4G ED")
    } else if str_eq(k, "A5 40 3C 8E 2C 3C BF 0E") {
        Some("AF-S Nikkor 28-300mm f/3.5-5.6G ED VR")
    } else if str_eq(k, "A6 48 8E 8E 24 24 C0 0E") {
        Some("AF-S Nikkor 300mm f/2.8G ED VR II")
    } else if str_eq(k, "A8 48 8E 8E 30 30 C3 4E") {
        Some("AF-S Nikkor 300mm f/4E PF ED VR")
    } else if str_eq(k, "A7 4C 2D 50 24 24 C1 06") {
        Some("AF-S DX Nikkor 18-50mm f/2.8G ED")
    } else if str_eq(k, "A8 48 80 98 30 30 C2 0E") {
        Some("AF-S Zoom-Nikkor 200-400mm f/4G IF-ED VR")
    } else if str_eq(k, "A9 54 80 80 18 18 C3 0E") {
        Some("AF-S Nikkor 200mm f/2G ED VR II")
    } else if str_eq(k, "AA 3C 37 6E 30 30 C4 0E") {
        Some("AF-S Nikkor 24-120mm f/4G ED VR")
    } else if str_eq(k, "AB 3C A0 A0 30 30 C5 0E") {
        Some("AF-S Nikkor 500mm f/4G ED VR")
    } else if str_eq(k, "AC 38 53 8E 34 3C C6 0E") {
        Some("AF-S DX Nikkor 55-300mm f/4.5-5.6G ED VR")
    } else if str_eq(k, "AD 3C 2D 8E 2C 3C C7 0E") {
        Some("AF-S DX Nikkor 18-300mm f/3.5-5.6G ED VR")
    } else if str_eq(k, "AE 54 62 62 0C 0C C8 06") {
        Some("AF-S Nikkor 85mm f/1.4G")
    } else if str_eq(k, "AF 54 44 44 0C 0C C9 06") {
        Some("AF-S Nikkor 35mm f/1.4G")
    } else if str_eq(k, "B0 4C 50 50 14 14 CA 06") {
        Some("AF-S Nikkor 50mm f/1.8G")
    } else if str_eq(k, "B1 48 48 48 24 24 CB 06") {
        Some("AF-S DX Micro Nikkor 40mm f/2.8G")
    } else if str_eq(k, "B2 48 5C 80 30 30 CC 0E") {
        Some("AF-S Nikkor 70-200mm f/4G ED VR")
    } else if str_eq(k, "B3 4C 62 62 14 14 CD 06") {
        Some("AF-S Nikkor 85mm f/1.8G")
    } else if str_eq(k, "B4 40 37 62 2C 34 CE 0E") {
        Some("AF-S Nikkor 24-85mm f/3.5-4.5G ED VR")
    } else if str_eq(k, "B5 4C 3C 3C 14 14 CF 06") {
        Some("AF-S Nikkor 28mm f/1.8G")
    } else if str_eq(k, "B6 3C B0 B0 3C 3C D0 0E") {
        Some("AF-S VR Nikkor 800mm f/5.6E FL ED")
    } else if str_eq(k, "B7 44 60 98 34 3C D1 0E") {
        Some("AF-S Nikkor 80-400mm f/4.5-5.6G ED VR")
    } else if str_eq(k, "B8 40 2D 44 2C 34 D2 0E") {
        Some("AF-S DX Nikkor 18-35mm f/3.5-4.5G ED")
    } else if str_eq(k, "7F 40 2D 5C 2C 34 84 06") {
        Some("AF-S DX Zoom-Nikkor 18-70mm f/3.5-4.5G IF-ED")
    } else if str_eq(k, "7D 48 2B 53 24 24 82 06") {
        Some("AF-S DX Zoom-Nikkor 17-55mm f/2.8G IF-ED")
    } else if str_eq(k, "8B 40 2D 80 2C 3C 8D 0E") {
        Some("AF-S DX VR Zoom-Nikkor 18-200mm f/3.5-5.6G IF-ED")
    } else if str_eq(k, "8B 40 2D 80 2C 3C FD 0E") {
        Some("AF-S DX VR Zoom-Nikkor 18-200mm f/3.5-5.6G IF-ED [II]")
    } else if str_eq(k, "A0 40 2D 74 2C 3C BB 0E") {
        Some("AF-S DX Nikkor 18-140mm f/3.5-5.6G ED VR")
    } else if str_eq(k, "8D 44 5C 8E 34 3C 8F 0E") {
        Some("AF-S VR Zoom-Nikkor 70-300mm f/4.5-5.6G IF-ED")
    } else if str_eq(k, "93 48 37 5C 24 24 95 06") {
        Some("AF-S Zoom-Nikkor 24-70mm f/2.8G ED")
    } else if str_eq(k, "9A 40 2D 53 2C 3C 9C 0E") {
        Some("AF-S DX VR Zoom-Nikkor 18-55mm f/3.5-5.6G")
    } else if str_eq(k, "94 40 2D 53 2C 3C 96 06") {
        Some("AF-S DX Zoom-Nikkor 18-55mm f/3.5-5.6G ED II")
    } else if str_eq(k, "9E 40 2D 6A 2C 3C A0 0E") {
        Some("AF-S DX VR Zoom-Nikkor 18-105mm f/3.5-5.6G ED")
    } else if str_eq(k, "A2 40 2D 53 2C 3C BD 0E") {
        Some("AF-S DX Nikkor 18-55mm f/3.5-5.6G VR II")
    } else if str_eq(k, "B0 4C 50 50 14 14 B2 06") {
        Some("AF-S Nikkor 50mm f/1.8G")
    } else if str_eq(k, "B4 40 37 62 2C 34 B6 0E") {
        Some("AF-S Zoom-Nikkor 24-85mm f/3.5-4.5G IF-ED VR")
    } else if str_eq(k, "69 48 5C 8E 30 3C 6F 06") {
        Some("AF Zoom-Nikkor 70-300mm f/4-5.6G")
    } else if str_eq(k, "9F 58 44 44 14 14 A1 06") {
        Some("AF-S DX Nikkor 35mm f/1.8G")
    } else if str_eq(k, "92 48 24 37 24 24 94 06") {
        Some("AF-S Zoom-Nikkor 14-24mm f/2.8G ED")
    } else if str_eq(k, "A0 40 2D 53 2C 3C CA 8E") {
        Some("AF-P DX Nikkor 18-55mm f/3.5-5.6G")
    } else if str_eq(k, "A5 54 6A 6A 0C 0C D0 46") {
        Some("AF-S Nikkor 105mm f/1.4E ED")
    } else if str_eq(k, "A9 4C 31 31 14 14 C4 06") {
        Some("AF-S Nikkor 20mm f/1.8G ED")
    } else if str_eq(k, "99 40 29 62 2C 3C 9B 0E") {
        Some("AF-S DX VR Zoom-Nikkor 16-85mm f/3.5-5.6G ED")
    } else if str_eq(k, "8F 40 2D 72 2C 3C 91 06") {
        Some("AF-S DX Zoom-Nikkor 18-135mm f/3.5-5.6G IF-ED")
    } else if str_eq(k, "8A 54 6A 6A 24 24 8C 0E") {
        Some("AF-S VR Micro-Nikkor 105mm f/2.8G IF-ED")
    } else if str_eq(k, "7A 3C 1F 37 30 30 7E 06") {
        Some("AF-S DX Zoom-Nikkor 12-24mm f/4G IF-ED")
    } else if str_eq(k, "26 40 2D 50 2C 3C 1C 06") {
        Some("Sigma 18-50mm F3.5-5.6 DC")
    } else if str_eq(k, "26 40 2D 70 2B 3C 1C 06") {
        Some("Sigma 18-125mm F3.5-5.6 DC")
    } else if str_eq(k, "A1 41 19 31 2C 2C 4B 06") {
        Some("Sigma 10-20mm F3.5 EX DC HSM")
    } else if str_eq(k, "91 54 44 44 0C 0C 4B 06") {
        Some("Sigma 35mm F1.4 DG HSM | A")
    } else if str_eq(k, "87 2C 2D 8E 2C 40 4B 0E") {
        Some("Sigma 18-300mm F3.5-6.3 DC Macro HSM")
    } else if str_eq(k, "92 35 2D 88 2C 40 4B 0E") {
        Some("Sigma 18-250mm F3.5-6.3 DC Macro OS HSM")
    } else if str_eq(k, "FA 54 3C 5E 24 24 DF 06") {
        Some("Tamron SP AF 28-75mm f/2.8 XR Di LD Aspherical (IF) Macro (A09NII)")
    } else if str_eq(k, "FE 48 37 5C 24 24 DF 0E") {
        Some("Tamron SP 24-70mm f/2.8 Di VC USD (A007)")
    } else if str_eq(k, "E8 4C 44 44 14 14 DF 0E") {
        Some("Tamron SP 35mm f/1.8 Di VC USD (F012)")
    } else if str_eq(k, "00 40 2D 88 2C 40 62 06") {
        Some("Tamron AF 18-250mm f/3.5-6.3 Di II LD Aspherical (IF) Macro (A18)")
    } else if str_eq(k, "8F 48 2B 50 24 24 4B 0E") {
        Some("Sigma 17-50mm F2.8 EX DC OS HSM")
    } else if str_eq(k, "7A 48 1C 30 24 24 7E 06") {
        Some("Tokina AT-X 11-20 F2.8 PRO DX (AF 11-20mm f/2.8)")
    } else if str_eq(k, "00 00 00 00 00 00 00 01") {
        Some("Manual Lens No CPU")
    } else if str_eq(k, "01 00 00 00 00 00 00 00") {
        Some("Nikon Z Lens")
    } else {
        None
    }
}

/// Image stabilization words as Nikon cameras store them.
pub open spec fn image_stabilization_word(k: Seq<char>) -> &'static str {
    if k == "0"@ || k == "OFF"@ {
        "Off"
    } else if k == "1"@ || k == "ON"@ {
        "On"
    } else if k == "2"@ || k == "ON (2)"@ {
        "On (2)"
    } else if k == "3"@ || k == "ON (3)"@ {
        "On (3)"
    } else if k == "4"@ || k == "ON (4)"@ {
        "On (4)"
    } else if k == "VR-ON"@ {
        "VR-On"
    } else if k == "VR-OFF"@ {
        "VR-Off"
    } else if k == "VR ON"@ {
        "VR On"
    } else if k == "VR OFF"@ {
        "VR Off"
    } else if k == "VR-On"@ {
        "VR-On"
    } else if k == "VR-Off"@ {
        "VR-Off"
    } else {
        "Unknown"
    }
}

/// Image stabilization words as Nikon cameras store them.
fn image_stabilization_word_of(k: &str) -> (r: &'static str)
    ensures
        r == image_stabilization_word(k@),
{
    if str_eq(k, "0") || str_eq(k, "OFF") {
        "Off"
    } else if str_eq(k, "1") || str_eq(k, "ON") {
        "On"
    } else if str_eq(k, "2") || str_eq(k, "ON (2)") {
        "On (2)"
    } else if str_eq(k, "3") || str_eq(k, "ON (3)") {
        "On (3)"
    } else if str_eq(k, "4") || str_eq(k, "ON (4)") {
        "On (4)"
    } else if str_eq(k, "VR-ON") {
        "VR-On"
    } else if str_eq(k, "VR-OFF") {
        "VR-Off"
    } else if str_eq(k, "VR ON") {
        "VR On"
    } else if str_eq(k, "VR OFF") {
        "VR Off"
    } else if str_eq(k, "VR-On") {
        "VR-On"
    } else if str_eq(k, "VR-Off") {
        "VR-Off"
    } else {
        "Unknown"
    }
}

/// Known quality words and how they are printed.
pub open spec fn quality_word(k: Seq<char>) -> Option<&'static str> {
    if k == "RAW"@ {
        Some("RAW")
    } else if k == "FINE"@ {
        Some("Fine")
    } else if k == "NORMAL"@ {
        Some("Normal")
    } else if k == "BASIC"@ {
        Some("Basic")
    } else if k == "RAW+FINE"@ || k == "RAW + FINE"@ {
        Some("RAW + Fine")
    } else if k == "RAW+NORMAL"@ || k == "RAW + NORMAL"@ {
        Some("RAW + Normal")
    } else if k == "RAW+BASIC"@ || k == "RAW + BASIC"@ {
        Some("RAW + Basic")
    } else if k == "NRW"@ {
        Some("NRW")
    } else {
        None
    }
}

/// Known quality words and how they are printed.
fn quality_word_of(k: &str) -> (r: Option<&'static str>)
    ensures
        r == quality_word(k@),
{
    if str_eq(k, "RAW") {
        Some("RAW")
    } else if str_eq(k, "FINE") {
        Some("Fine")
    } else if str_eq(k, "NORMAL") {
        Some("Normal")
    } else if str_eq(k, "BASIC") {
        Some("Basic")
    } else if str_eq(k, "RAW+FINE") || str_eq(k, "RAW + FINE") {
        Some("RAW + Fine")
    } else if str_eq(k, "RAW+NORMAL") || str_eq(k, "RAW + NORMAL") {
        Some("RAW + Normal")
    } else if str_eq(k, "RAW+BASIC") || str_eq(k, "RAW + BASIC") {
        Some("RAW + Basic")
    } else if str_eq(k, "NRW") {
        Some("NRW")
    } else {
        None
    }
}

/// Known focus mode words (already trimmed) and how they are printed.
pub open spec fn focus_mode_word(k: Seq<char>) -> Option<&'static str> {
    if k == "AF-S"@ {
        Some("AF-S")
    } else if k == "AF-C"@ {
        Some("AF-C")
    } else if k == "AF-A"@ {
        Some("AF-A")
    } else if k == "MF"@ || k == "MANUAL"@ || k == "Manual"@ {
        Some("Manual")
    } else {
        None
    }
}

/// Known focus mode words and how they are printed.
fn focus_mode_word_of(k: &str) -> (r: Option<&'static str>)
    ensures
        r == focus_mode_word(k@),
{
    if str_eq(k, "AF-S") {
        Some("AF-S")
    } else if str_eq(k, "AF-C") {
        Some("AF-C")
    } else if str_eq(k, "AF-A") {
        Some("AF-A")
    } else if str_eq(k, "MF") || str_eq(k, "MANUAL") || str_eq(k, "Manual") {
        Some("Manual")
    } else {
        None
    }
}

/// Known flash setting words and how they are printed.
pub open spec fn flash_setting_word(k: Seq<char>) -> Option<&'static str> {
    if k == "NORMAL"@ {
        Some("Normal")
    } else if k == "SLOW"@ {
        Some("Slow")
    } else if k == "REAR"@ {
        Some("Rear")
    } else if k == "REAR SLOW"@ {
        Some("Rear Slow")
    } else if k == "RED-EYE"@ || k == "REDEYE"@ {
        Some("Red-Eye")
    } else if k == "RED-EYE SLOW"@ || k == "REDEYE SLOW"@ {
        Some("Red-Eye Slow")
    } else if k == "SLOW REAR"@ {
        Some("Slow Rear")
    } else if k == ""@ {
        Some("")
    } else {
        None
    }
}

/// Known flash setting words and how they are printed.
fn flash_setting_word_of(k: &str) -> (r: Option<&'static str>)
    ensures
        r == flash_setting_word(k@),
{
    if str_eq(k, "NORMAL") {
        Some("Normal")
    } else if str_eq(k, "SLOW") {
        Some("Slow")
    } else if str_eq(k, "REAR") {
        Some("Rear")
    } else if str_eq(k, "REAR SLOW") {
        Some("Rear Slow")
    } else if str_eq(k, "RED-EYE") || str_eq(k, "REDEYE") {
        Some("Red-Eye")
    } else if str_eq(k, "RED-EYE SLOW") || str_eq(k, "REDEYE SLOW") {
        Some("Red-Eye Slow")
    } else if str_eq(k, "SLOW REAR") {
        Some("Slow Rear")
    } else if str_eq(k, "") {
        Some("")
    } else {
        None
    }
}

/// Known sharpening words and how they are printed.
pub open spec fn sharpening_word(k: Seq<char>) -> Option<&'static str> {
    if k == "AUTO"@ {
        Some("Auto")
    } else if k == "NORMAL"@ {
        Some("Normal")
    } else if k == "LOW"@ || k == "SOFT"@ {
        Some("Soft")
    } else if k == "MED.L"@ || k == "MEDIUM LOW"@ || k == "MEDIUMLOW"@ {
        Some("Medium Low")
    } else if k == "MED.H"@ || k == "MEDIUM HIGH"@ || k == "MEDIUMHIGH"@ {
        Some("Medium High")
    } else if k == "HIGH"@ {
        Some("High")
    } else if k == "HARD"@ {
        Some("Hard")
    } else if k == "NONE"@ {
        Some("None")
    } else {
        None
    }
}

/// Known sharpening words and how they are printed.
fn sharpening_word_of(k: &str) -> (r: Option<&'static str>)
    ensures
        r == sharpening_word(k@),
{
    if str_eq(k, "AUTO") {
        Some("Auto")
    } else if str_eq(k, "NORMAL") {
        Some("Normal")
    } else if str_eq(k, "LOW") || str_eq(k, "SOFT") {
        Some("Soft")
    } else if str_eq(k, "MED.L") || str_eq(k, "MEDIUM LOW") || str_eq(k, "MEDIUMLOW") {
        Some("Medium Low")
    } else if str_eq(k, "MED.H") || str_eq(k, "MEDIUM HIGH") || str_eq(k, "MEDIUMHIGH") {
        Some("Medium High")
    } else if str_eq(k, "HIGH") {
        Some("High")
    } else if str_eq(k, "HARD") {
        Some("Hard")
    } else if str_eq(k, "NONE") {
        Some("None")
    } else {
        None
    }
}

/// Known tone comp words and how they are printed.
pub open spec fn tone_comp_word(k: Seq<char>) -> Option<&'static str> {
    if k == "AUTO"@ {
        Some("Auto")
    } else if k == "NORMAL"@ {
        Some("Normal")
    } else if k == "LOW"@ {
        Some("Low")
    } else if k == "MED.L"@ {
        Some("Med.L")
    } else if k == "MED.H"@ {
        Some("Med.H")
    } else if k == "HIGH"@ {
        Some("High")
    } else if k == "CUSTOM"@ {
        Some("Custom")
    } else if k == "CS"@ {
        Some("Custom")
    } else {
        None
    }
}

/// Known tone comp words and how they are printed.
fn tone_comp_word_of(k: &str) -> (r: Option<&'static str>)
    ensures
        r == tone_comp_word(k@),
{
    if str_eq(k, "AUTO") {
        Some("Auto")
    } else if str_eq(k, "NORMAL") {
        Some("Normal")
    } else if str_eq(k, "LOW") {
        Some("Low")
    } else if str_eq(k, "MED.L") {
        Some("Med.L")
    } else if str_eq(k, "MED.H") {
        Some("Med.H")
    } else if str_eq(k, "HIGH") {
        Some("High")
    } else if str_eq(k, "CUSTOM") {
        Some("Custom")
    } else if str_eq(k, "CS") {
        Some("Custom")
    } else {
        None
    }
}

/// Known iso selection words and how they are printed.
pub open spec fn iso_selection_word(k: Seq<char>) -> Option<&'static str> {
    if k == "AUTO"@ {
        Some("Auto")
    } else if k == "MANUAL"@ || k == "MAN"@ {
        Some("Manual")
    } else {
        None
    }
}

/// Known iso selection words and how they are printed.
fn iso_selection_word_of(k: &str) -> (r: Option<&'static str>)
    ensures
        r == iso_selection_word(k@),
{
    if str_eq(k, "AUTO") {
        Some("Auto")
    } else if str_eq(k, "MANUAL") || str_eq(k, "MAN") {
        Some("Manual")
    } else {
        None
    }
}

/// Known flash type words and how they are printed.
pub open spec fn flash_type_word(k: Seq<char>) -> Option<&'static str> {
    if k == ""@ {
        Some("")
    } else if k == "NEW"@ {
        Some("New")
    } else if k == "NORMAL"@ {
        Some("Built-in")
    } else if k == "EXTERNAL"@ || k == "STROBE"@ {
        Some("External")
    } else if k == "OPTIONAL,AA"@ {
        Some("Optional,Aa")
    } else if k == "NEW_TTL"@ {
        Some("New_TTL")
    } else {
        None
    }
}

/// Known flash type words and how they are printed.
fn flash_type_word_of(k: &str) -> (r: Option<&'static str>)
    ensures
        r == flash_type_word(k@),
{
    if str_eq(k, "") {
        Some("")
    } else if str_eq(k, "NEW") {
        Some("New")
    } else if str_eq(k, "NORMAL") {
        Some("Built-in")
    } else if str_eq(k, "EXTERNAL") || str_eq(k, "STROBE") {
        Some("External")
    } else if str_eq(k, "OPTIONAL,AA") {
        Some("Optional,Aa")
    } else if str_eq(k, "NEW_TTL") {
        Some("New_TTL")
    } else {
        None
    }
}

/// Known color mode words and how they are printed.
pub open spec fn color_mode_word(k: Seq<char>) -> Option<&'static str> {
    if k == "COLOR"@ || k == "COLOUR"@ {
        Some("Color")
    } else if k == "B&W"@ || k == "B & W"@ || k == "BLACK & WHITE"@ {
        Some("Black & White")
    } else {
        None
    }
}

/// Known color mode words and how they are printed.
fn color_mode_word_of(k: &str) -> (r: Option<&'static str>)
    ensures
        r == color_mode_word(k@),
{
    if str_eq(k, "COLOR") || str_eq(k, "COLOUR") {
        Some("Color")
    } else if str_eq(k, "B&W") || str_eq(k, "B & W") || str_eq(k, "BLACK & WHITE") {
        Some("Black & White")
    } else {
        None
    }
}

/// Known noise reduction words and how they are printed.
pub open spec fn noise_reduction_word(k: Seq<char>) -> Option<&'static str> {
    if k == "OFF"@ {
        Some("Off")
    } else if k == "FPNR"@ {
        Some("FPNR")
    } else if k == "ON"@ {
        Some("On")
    } else {
        None
    }
}

/// Known noise reduction words and how they are printed.
fn noise_reduction_word_of(k: &str) -> (r: Option<&'static str>)
    ensures
        r == noise_reduction_word(k@),
{
    if str_eq(k, "OFF") {
        Some("Off")
    } else if str_eq(k, "FPNR") {
        Some("FPNR")
    } else if str_eq(k, "ON") {
        Some("On")
    } else {
        None
    }
}

/// Known image processing words and how they are printed.
pub open spec fn image_processing_word(k: Seq<char>) -> Option<&'static str> {
    if k == "OFF"@ {
        Some("Off")
    } else if k == "ON"@ {
        Some("On")
    } else if k == "MINIMAL"@ {
        Some("Minimal")
    } else if k == "AUTO"@ {
        Some("Auto")
    } else {
        None
    }
}

/// Known image processing words and how they are printed.
fn image_processing_word_of(k: &str) -> (r: Option<&'static str>)
    ensures
        r == image_processing_word(k@),
{
    if str_eq(k, "OFF") {
        Some("Off")
    } else if str_eq(k, "ON") {
        Some("On")
    } else if str_eq(k, "MINIMAL") {
        Some("Minimal")
    } else if str_eq(k, "AUTO") {
        Some("Auto")
    } else {
        None
    }
}

/// Nikon ISOExpansion.
pub open spec fn iso_expansion_name(value: u16) -> &'static str {
    match value {
        0x000 => "Off",
        0x101 => "Hi 0.3",
        0x102 => "Hi 0.5",
        0x103 => "Hi 0.7",
        0x104 => "Hi 1.0",
        0x105 => "Hi 1.3",
        0x106 => "Hi 1.5",
        0x107 => "Hi 1.7",
        0x108 => "Hi 2.0",
        0x109 => "Hi 2.3",
        0x10a => "Hi 2.5",
        0x10b => "Hi 2.7",
        0x10c => "Hi 3.0",
        0x10d => "Hi 3.3",
        0x10e => "Hi 3.5",
        0x201 => "Lo 0.3",
        0x202 => "Lo 0.5",
        0x203 => "Lo 0.7",
        0x204 => "Lo 1.0",
        _ => "Unknown",
    }
}

/// Nikon ISOExpansion.
pub fn decode_iso_expansion_exiftool(value: u16) -> (r: &'static str)
    ensures
        r == iso_expansion_name(value),
{
    match value {
        0x000 => "Off",
        0x101 => "Hi 0.3",
        0x102 => "Hi 0.5",
        0x103 => "Hi 0.7",
        0x104 => "Hi 1.0",
        0x105 => "Hi 1.3",
        0x106 => "Hi 1.5",
        0x107 => "Hi 1.7",
        0x108 => "Hi 2.0",
        0x109 => "Hi 2.3",
        0x10a => "Hi 2.5",
        0x10b => "Hi 2.7",
        0x10c => "Hi 3.0",
        0x10d => "Hi 3.3",
        0x10e => "Hi 3.5",
        0x201 => "Lo 0.3",
        0x202 => "Lo 0.5",
        0x203 => "Lo 0.7",
        0x204 => "Lo 1.0",
        _ => "Unknown",
    }
}

/// Location named for a time-zone offset in minutes.
pub open spec fn timezone_location(tz_minutes: i16) -> Option<&'static str> {
    match tz_minutes {
        600 => Some("(Sydney)"),
        540 => Some("(Tokyo)"),
        480 => Some("(Beijing, Honk Kong, Sinapore)"),
        345 => Some("(Kathmandu)"),
        330 => Some("(New Dehli)"),
        300 => Some("(Islamabad)"),
        270 => Some("(Kabul)"),
        240 => Some("(Abu Dhabi)"),
        210 => Some("(Tehran)"),
        180 => Some("(Moscow, Nairobi)"),
        120 => Some("(Athens, Helsinki)"),
        60 => Some("(Madrid, Paris, Berlin)"),
        0 => Some("(London)"),
        -60 => Some("(Azores)"),
        -120 => Some("(Fernando de Noronha)"),
        -180 => Some("(Buenos Aires, Sao Paulo)"),
        -210 => Some("(Newfoundland)"),
        -240 => Some("(Manaus, Caracas)"),
        -300 => Some("(New York, Toronto, Lima)"),
        -360 => Some("(Chicago, Mexico City)"),
        -420 => Some("(Denver)"),
        -480 => Some("(Los Angeles, Vancouver)"),
        -540 => Some("(Anchorage)"),
        -600 => Some("(Hawaii)"),
        _ => None,
    }
}

/// Location named for a time-zone offset in minutes.
pub fn get_timezone_location(tz_minutes: i16) -> (r: Option<&'static str>)
    ensures
        r == timezone_location(tz_minutes),
{
    match tz_minutes {
        600 => Some("(Sydney)"),
        540 => Some("(Tokyo)"),
        480 => Some("(Beijing, Honk Kong, Sinapore)"),
        345 => Some("(Kathmandu)"),
        330 => Some("(New Dehli)"),
        300 => Some("(Islamabad)"),
        270 => Some("(Kabul)"),
        240 => Some("(Abu Dhabi)"),
        210 => Some("(Tehran)"),
        180 => Some("(Moscow, Nairobi)"),
        120 => Some("(Athens, Helsinki)"),
        60 => Some("(Madrid, Paris, Berlin)"),
        0 => Some("(London)"),
        -60 => Some("(Azores)"),
        -120 => Some("(Fernando de Noronha)"),
        -180 => Some("(Buenos Aires, Sao Paulo)"),
        -210 => Some("(Newfoundland)"),
        -240 => Some("(Manaus, Caracas)"),
        -300 => Some("(New York, Toronto, Lima)"),
        -360 => Some("(Chicago, Mexico City)"),
        -420 => Some("(Denver)"),
        -480 => Some("(Los Angeles, Vancouver)"),
        -540 => Some("(Anchorage)"),
        -600 => Some("(Hawaii)"),
        _ => None,
    }
}

/// Nikon FlashMode names.
pub open spec fn flash_mode_name(value: u8) -> Option<&'static str> {
    match value {
        _ => None,
    }
}

/// Nikon FlashMode names.
fn flash_mode_of(value: u8) -> (r: Option<&'static str>)
    ensures
        r == flash_mode_name(value),
{
    match value {
        _ => None,
    }
}

/// Nikon ToningEffect.
pub open spec fn toning_effect_name(value: u8) -> &'static str {
    match value {
        0x80 => "B&W",
        0x81 => "Sepia",
        0x82 => "Cyanotype",
        0x83 => "Red",
        0x84 => "Yellow",
        0x85 => "Green",
        0x86 => "Blue-green",
        0x87 => "Blue",
        0x88 => "Purple-blue",
        0x89 => "Red-purple",
        0xff => "n/a",
        _ => "Unknown",
    }
}

/// Nikon ToningEffect.
pub fn decode_toning_effect(value: u8) -> (r: &'static str)
    ensures
        r == toning_effect_name(value),
{
    match value {
        0x80 => "B&W",
        0x81 => "Sepia",
        0x82 => "Cyanotype",
        0x83 => "Red",
        0x84 => "Yellow",
        0x85 => "Green",
        0x86 => "Blue-green",
        0x87 => "Blue",
        0x88 => "Purple-blue",
        0x89 => "Red-purple",
        0xff => "n/a",
        _ => "Unknown",
    }
}

/// Nikon FlashControlMode.
pub open spec fn flash_control_mode_name(value: u8) -> &'static str {
    match value {
        0 => "Off",
        1 => "iTTL-BL",
        2 => "iTTL",
        3 => "Auto Aperture",
        4 => "Automatic",
        5 => "GN (distance priority)",
        6 => "Manual",
        7 => "Repeating Flash",
        _ => "Unknown",
    }
}

/// Nikon FlashControlMode.
pub fn decode_flash_control_mode(value: u8) -> (r: &'static str)
    ensures
        r == flash_control_mode_name(value),
{
    match value {
        0 => "Off",
        1 => "iTTL-BL",
        2 => "iTTL",
        3 => "Auto Aperture",
        4 => "Automatic",
        5 => "GN (distance priority)",
        6 => "Manual",
        7 => "Repeating Flash",
        _ => "Unknown",
    }
}

/// Nikon flash unit for a firmware version.
pub open spec fn flash_firmware_model(major: u8, minor: u8) -> Option<&'static str> {
    match (major, minor) {
        (1, 1) => Some("SB-800 or Metz 58 AF-1"),
        (1, 3) => Some("SB-800"),
        (2, 1) => Some("SB-800"),
        (2, 4) => Some("SB-600"),
        (2, 5) => Some("SB-600"),
        (3, 1) => Some("SU-800 Remote Commander"),
        (4, 1) => Some("SB-400"),
        (4, 2) => Some("SB-400"),
        (4, 4) => Some("SB-400"),
        (5, 1) => Some("SB-900"),
        (5, 2) => Some("SB-900"),
        (6, 1) => Some("SB-700"),
        (7, 1) => Some("SB-910"),
        (14, 3) => Some("SB-5000"),
        _ => None,
    }
}

/// Nikon flash unit for a firmware version.
fn flash_firmware_model_of(major: u8, minor: u8) -> (r: Option<&'static str>)
    ensures
        r == flash_firmware_model(major, minor),
{
    match (major, minor) {
        (1, 1) => Some("SB-800 or Metz 58 AF-1"),
        (1, 3) => Some("SB-800"),
        (2, 1) => Some("SB-800"),
        (2, 4) => Some("SB-600"),
        (2, 5) => Some("SB-600"),
        (3, 1) => Some("SU-800 Remote Commander"),
        (4, 1) => Some("SB-400"),
        (4, 2) => Some("SB-400"),
        (4, 4) => Some("SB-400"),
        (5, 1) => Some("SB-900"),
        (5, 2) => Some("SB-900"),
        (6, 1) => Some("SB-700"),
        (7, 1) => Some("SB-910"),
        (14, 3) => Some("SB-5000"),
        _ => None,
    }
}

/// Nikon white balance words and how they are printed.
pub open spec fn white_balance_word(k: Seq<char>) -> Option<&'static str> {
    if k == "AUTO"@ {
        Some("Auto")
    } else if k == "AUTO0"@ {
        Some("Auto0")
    } else if k == "AUTO1"@ {
        Some("Auto1")
    } else if k == "AUTO2"@ {
        Some("Auto2")
    } else if k == "SUNNY"@ {
        Some("Sunny")
    } else if k == "DIRECT SUNLIGHT"@ {
        Some("Direct Sunlight")
    } else if k == "SHADE"@ {
        Some("Shade")
    } else if k == "CLOUDY"@ {
        Some("Cloudy")
    } else if k == "TUNGSTEN"@ || k == "INCANDESCENT"@ {
        Some("Incandescent")
    } else if k == "FLUORESCENT"@ {
        Some("Fluorescent")
    } else if k == "FLASH"@ {
        Some("Flash")
    } else if k == "PRESET"@ {
        Some("Preset")
    } else {
        None
    }
}

/// Nikon white balance words and how they are printed.
fn white_balance_word_of(k: &str) -> (r: Option<&'static str>)
    ensures
        r == white_balance_word(k@),
{
    if str_eq(k, "AUTO") {
        Some("Auto")
    } else if str_eq(k, "AUTO0") {
        Some("Auto0")
    } else if str_eq(k, "AUTO1") {
        Some("Auto1")
    } else if str_eq(k, "AUTO2") {
        Some("Auto2")
    } else if str_eq(k, "SUNNY") {
        Some("Sunny")
    } else if str_eq(k, "DIRECT SUNLIGHT") {
        Some("Direct Sunlight")
    } else if str_eq(k, "SHADE") {
        Some("Shade")
    } else if str_eq(k, "CLOUDY") {
        Some("Cloudy")
    } else if str_eq(k, "TUNGSTEN") || str_eq(k, "INCANDESCENT") {
        Some("Incandescent")
    } else if str_eq(k, "FLUORESCENT") {
        Some("Fluorescent")
    } else if str_eq(k, "FLASH") {
        Some("Flash")
    } else if str_eq(k, "PRESET") {
        Some("Preset")
    } else {
        None
    }
}

/// Nikon light source words and how they are printed.
pub open spec fn light_source_word(k: Seq<char>) -> Option<&'static str> {
    if k == "NATURAL"@ {
        Some("Natural")
    } else if k == "SPEEDLIGHT"@ {
        Some("Speedlight")
    } else if k == "COLORED"@ {
        Some("Colored")
    } else if k == "MIXED"@ {
        Some("Mixed")
    } else {
        None
    }
}

/// Nikon light source words and how they are printed.
fn light_source_word_of(k: &str) -> (r: Option<&'static str>)
    ensures
        r == light_source_word(k@),
{
    if str_eq(k, "NATURAL") {
        Some("Natural")
    } else if str_eq(k, "SPEEDLIGHT") {
        Some("Speedlight")
    } else if str_eq(k, "COLORED") {
        Some("Colored")
    } else if str_eq(k, "MIXED") {
        Some("Mixed")
    } else {
        None
    }
}

/// Nikon auxiliary lens words and how they are printed.
pub open spec fn auxiliary_lens_word(k: Seq<char>) -> Option<&'static str> {
    if k == "OFF"@ {
        Some("Off")
    } else {
        None
    }
}

/// Nikon auxiliary lens words and how they are printed.
fn auxiliary_lens_word_of(k: &str) -> (r: Option<&'static str>)
    ensures
        r == auxiliary_lens_word(k@),
{
    if str_eq(k, "OFF") {
        Some("Off")
    } else {
        None
    }
}

/// Nikon image optimization words and how they are printed.
pub open spec fn image_optimization_word(k: Seq<char>) -> Option<&'static str> {
    if k == "NORMAL"@ {
        Some("Normal")
    } else if k == "VIVID"@ {
        Some("Vivid")
    } else if k == "SHARPER"@ {
        Some("Sharper")
    } else if k == "SOFTER"@ {
        Some("Softer")
    } else if k == "DIRECT PRINT"@ {
        Some("Direct Print")
    } else if k == "PORTRAIT"@ {
        Some("Portrait")
    } else if k == "LANDSCAPE"@ {
        Some("Landscape")
    } else if k == "CUSTOM"@ {
        Some("Custom")
    } else if k == "B & W"@ {
        Some("B & W")
    } else {
        None
    }
}

/// Nikon image optimization words and how they are printed.
fn image_optimization_word_of(k: &str) -> (r: Option<&'static str>)
    ensures
        r == image_optimization_word(k@),
{
    if str_eq(k, "NORMAL") {
        Some("Normal")
    } else if str_eq(k, "VIVID") {
        Some("Vivid")
    } else if str_eq(k, "SHARPER") {
        Some("Sharper")
    } else if str_eq(k, "SOFTER") {
        Some("Softer")
    } else if str_eq(k, "DIRECT PRINT") {
        Some("Direct Print")
    } else if str_eq(k, "PORTRAIT") {
        Some("Portrait")
    } else if str_eq(k, "LANDSCAPE") {
        Some("Landscape")
    } else if str_eq(k, "CUSTOM") {
        Some("Custom")
    } else if str_eq(k, "B & W") {
        Some("B & W")
    } else {
        None
    }
}

/// Nikon vari program words and how they are printed.
pub open spec fn vari_program_word(k: Seq<char>) -> Option<&'static str> {
    if k == "AUTO"@ {
        Some("Auto")
    } else if k == "AUTO(FLASH OFF)"@ {
        Some("Auto(Flash Off)")
    } else if k == "SCENE AUTO"@ {
        Some("Scene Auto")
    } else if k == "SPORT"@ {
        Some("Sport")
    } else if k == "PORTRAIT"@ {
        Some("Portrait")
    } else if k == "LANDSCAPE"@ {
        Some("Landscape")
    } else if k == "CHILD"@ {
        Some("Child")
    } else if k == "NIGHT PORTRAIT"@ {
        Some("Night Portrait")
    } else if k == "PARTY/INDOOR"@ {
        Some("Party/Indoor")
    } else if k == "BEACH/SNOW"@ {
        Some("Beach/Snow")
    } else if k == "SUNSET"@ {
        Some("Sunset")
    } else if k == "DUSK/DAWN"@ {
        Some("Dusk/Dawn")
    } else if k == "PET PORTRAIT"@ {
        Some("Pet Portrait")
    } else if k == "CANDLELIGHT"@ {
        Some("Candlelight")
    } else if k == "BLOSSOM"@ {
        Some("Blossom")
    } else if k == "AUTUMN COLORS"@ {
        Some("Autumn Colors")
    } else if k == "FOOD"@ {
        Some("Food")
    } else if k == "SILHOUETTE"@ {
        Some("Silhouette")
    } else if k == "HIGH KEY"@ {
        Some("High Key")
    } else if k == "LOW KEY"@ {
        Some("Low Key")
    } else if k == ""@ {
        Some("")
    } else {
        None
    }
}

/// Nikon vari program words and how they are printed.
fn vari_program_word_of(k: &str) -> (r: Option<&'static str>)
    ensures
        r == vari_program_word(k@),
{
    if str_eq(k, "AUTO") {
        Some("Auto")
    } else if str_eq(k, "AUTO(FLASH OFF)") {
        Some("Auto(Flash Off)")
    } else if str_eq(k, "SCENE AUTO") {
        Some("Scene Auto")
    } else if str_eq(k, "SPORT") {
        Some("Sport")
    } else if str_eq(k, "PORTRAIT") {
        Some("Portrait")
    } else if str_eq(k, "LANDSCAPE") {
        Some("Landscape")
    } else if str_eq(k, "CHILD") {
        Some("Child")
    } else if str_eq(k, "NIGHT PORTRAIT") {
        Some("Night Portrait")
    } else if str_eq(k, "PARTY/INDOOR") {
        Some("Party/Indoor")
    } else if str_eq(k, "BEACH/SNOW") {
        Some("Beach/Snow")
    } else if str_eq(k, "SUNSET") {
        Some("Sunset")
    } else if str_eq(k, "DUSK/DAWN") {
        Some("Dusk/Dawn")
    } else if str_eq(k, "PET PORTRAIT") {
        Some("Pet Portrait")
    } else if str_eq(k, "CANDLELIGHT") {
        Some("Candlelight")
    } else if str_eq(k, "BLOSSOM") {
        Some("Blossom")
    } else if str_eq(k, "AUTUMN COLORS") {
        Some("Autumn Colors")
    } else if str_eq(k, "FOOD") {
        Some("Food")
    } else if str_eq(k, "SILHOUETTE") {
        Some("Silhouette")
    } else if str_eq(k, "HIGH KEY") {
        Some("High Key")
    } else if str_eq(k, "LOW KEY") {
        Some("Low Key")
    } else if str_eq(k, "") {
        Some("")
    } else {
        None
    }
}

/// Nikon scene mode words and how they are printed.
pub open spec fn scene_mode_word(k: Seq<char>) -> Option<&'static str> {
    if k == "AUTO"@ {
        Some("Auto")
    } else if k == "SCENE AUTO"@ {
        Some("Scene Auto")
    } else if k == "PORTRAIT"@ {
        Some("Portrait")
    } else if k == "LANDSCAPE"@ {
        Some("Landscape")
    } else if k == "SPORT"@ {
        Some("Sport")
    } else if k == "CLOSE UP"@ || k == "CLOSEUP"@ {
        Some("Close Up")
    } else if k == "NIGHT PORTRAIT"@ {
        Some("Night Portrait")
    } else if k == "PARTY/INDOOR"@ {
        Some("Party/Indoor")
    } else if k == "BEACH/SNOW"@ {
        Some("Beach/Snow")
    } else if k == "SUNSET"@ {
        Some("Sunset")
    } else if k == "DUSK/DAWN"@ {
        Some("Dusk/Dawn")
    } else if k == "PET PORTRAIT"@ {
        Some("Pet Portrait")
    } else if k == "CANDLELIGHT"@ {
        Some("Candlelight")
    } else if k == "FOOD"@ {
        Some("Food")
    } else if k == ""@ {
        Some("")
    } else {
        None
    }
}

/// Nikon scene mode words and how they are printed.
fn scene_mode_word_of(k: &str) -> (r: Option<&'static str>)
    ensures
        r == scene_mode_word(k@),
{
    if str_eq(k, "AUTO") {
        Some("Auto")
    } else if str_eq(k, "SCENE AUTO") {
        Some("Scene Auto")
    } else if str_eq(k, "PORTRAIT") {
        Some("Portrait")
    } else if str_eq(k, "LANDSCAPE") {
        Some("Landscape")
    } else if str_eq(k, "SPORT") {
        Some("Sport")
    } else if str_eq(k, "CLOSE UP") || str_eq(k, "CLOSEUP") {
        Some("Close Up")
    } else if str_eq(k, "NIGHT PORTRAIT") {
        Some("Night Portrait")
    } else if str_eq(k, "PARTY/INDOOR") {
        Some("Party/Indoor")
    } else if str_eq(k, "BEACH/SNOW") {
        Some("Beach/Snow")
    } else if str_eq(k, "SUNSET") {
        Some("Sunset")
    } else if str_eq(k, "DUSK/DAWN") {
        Some("Dusk/Dawn")
    } else if str_eq(k, "PET PORTRAIT") {
        Some("Pet Portrait")
    } else if str_eq(k, "CANDLELIGHT") {
        Some("Candlelight")
    } else if str_eq(k, "FOOD") {
        Some("Food")
    } else if str_eq(k, "") {
        Some("")
    } else {
        None
    }
}

/// Nikon af response words and how they are printed.
pub open spec fn af_response_word(k: Seq<char>) -> Option<&'static str> {
    if k == "STANDARD"@ {
        Some("Standard")
    } else if k == "FOCUS"@ {
        Some("Focus")
    } else if k == "LOCK"@ {
        Some("Lock")
    } else if k == "RELEASE"@ {
        Some("Release")
    } else {
        None
    }
}

/// Nikon af response words and how they are printed.
fn af_response_word_of(k: &str) -> (r: Option<&'static str>)
    ensures
        r == af_response_word(k@),
{
    if str_eq(k, "STANDARD") {
        Some("Standard")
    } else if str_eq(k, "FOCUS") {
        Some("Focus")
    } else if str_eq(k, "LOCK") {
        Some("Lock")
    } else if str_eq(k, "RELEASE") {
        Some("Release")
    } else {
        None
    }
}


/// exiv2 group and name of a picture control data field.
pub open spec fn picture_control_data_field(k: Seq<char>) -> Option<(&'static str, &'static str)> {
    if k == "PictureControlVersion"@ {
        Some(("NikonPc", "Version"))
    } else if k == "PictureControlName"@ {
        Some(("NikonPc", "Name"))
    } else if k == "PictureControlBase"@ {
        Some(("NikonPc", "Base"))
    } else if k == "PictureControlAdjust"@ {
        Some(("NikonPc", "Adjust"))
    } else if k == "PictureControlQuickAdjust"@ {
        Some(("NikonPc", "QuickAdjust"))
    } else if k == "Sharpness"@ {
        Some(("NikonPc", "Sharpness"))
    } else if k == "Contrast"@ {
        Some(("NikonPc", "Contrast"))
    } else if k == "Brightness"@ {
        Some(("NikonPc", "Brightness"))
    } else if k == "Saturation"@ {
        Some(("NikonPc", "Saturation"))
    } else if k == "HueAdjustment"@ {
        Some(("NikonPc", "HueAdjustment"))
    } else if k == "FilterEffect"@ {
        Some(("NikonPc", "FilterEffect"))
    } else if k == "ToningEffect"@ {
        Some(("NikonPc", "ToningEffect"))
    } else if k == "ToningSaturation"@ {
        Some(("NikonPc", "ToningSaturation"))
    } else {
        None
    }
}

/// exiv2 group and name of a picture control data field.
fn picture_control_data_field_of(k: &str) -> (r: Option<(&'static str, &'static str)>)
    ensures
        r == picture_control_data_field(k@),
{
    if str_eq(k, "PictureControlVersion") {
        Some(("NikonPc", "Version"))
    } else if str_eq(k, "PictureControlName") {
        Some(("NikonPc", "Name"))
    } else if str_eq(k, "PictureControlBase") {
        Some(("NikonPc", "Base"))
    } else if str_eq(k, "PictureControlAdjust") {
        Some(("NikonPc", "Adjust"))
    } else if str_eq(k, "PictureControlQuickAdjust") {
        Some(("NikonPc", "QuickAdjust"))
    } else if str_eq(k, "Sharpness") {
        Some(("NikonPc", "Sharpness"))
    } else if str_eq(k, "Contrast") {
        Some(("NikonPc", "Contrast"))
    } else if str_eq(k, "Brightness") {
        Some(("NikonPc", "Brightness"))
    } else if str_eq(k, "Saturation") {
        Some(("NikonPc", "Saturation"))
    } else if str_eq(k, "HueAdjustment") {
        Some(("NikonPc", "HueAdjustment"))
    } else if str_eq(k, "FilterEffect") {
        Some(("NikonPc", "FilterEffect"))
    } else if str_eq(k, "ToningEffect") {
        Some(("NikonPc", "ToningEffect"))
    } else if str_eq(k, "ToningSaturation") {
        Some(("NikonPc", "ToningSaturation"))
    } else {
        None
    }
}

/// exiv2 group and name of a lens data field.
pub open spec fn lens_data_field(k: Seq<char>) -> Option<(&'static str, &'static str)> {
    if k == "LensDataVersion"@ {
        Some(("NikonLd3", "Version"))
    } else if k == "LensIDNumber"@ {
        Some(("NikonLd3", "LensIDNumber"))
    } else if k == "LensFStops"@ {
        Some(("NikonLd3", "LensFStops"))
    } else if k == "MinFocalLength"@ {
        Some(("NikonLd3", "MinFocalLength"))
    } else if k == "MaxFocalLength"@ {
        Some(("NikonLd3", "MaxFocalLength"))
    } else if k == "MaxApertureAtMinFocal"@ {
        Some(("NikonLd3", "MaxApertureAtMinFocal"))
    } else if k == "MaxApertureAtMaxFocal"@ {
        Some(("NikonLd3", "MaxApertureAtMaxFocal"))
    } else if k == "MCUVersion"@ {
        Some(("NikonLd3", "MCUVersion"))
    } else if k == "EffectiveMaxAperture"@ {
        Some(("NikonLd3", "EffectiveMaxAperture"))
    } else if k == "FocalLength"@ {
        Some(("NikonLd3", "FocalLength"))
    } else if k == "FocusDistance"@ {
        Some(("NikonLd3", "FocusDistance"))
    } else if k == "AFAperture"@ {
        Some(("NikonLd3", "AFAperture"))
    } else {
        None
    }
}

/// exiv2 group and name of a lens data field.
fn lens_data_field_of(k: &str) -> (r: Option<(&'static str, &'static str)>)
    ensures
        r == lens_data_field(k@),
{
    if str_eq(k, "LensDataVersion") {
        Some(("NikonLd3", "Version"))
    } else if str_eq(k, "LensIDNumber") {
        Some(("NikonLd3", "LensIDNumber"))
    } else if str_eq(k, "LensFStops") {
        Some(("NikonLd3", "LensFStops"))
    } else if str_eq(k, "MinFocalLength") {
        Some(("NikonLd3", "MinFocalLength"))
    } else if str_eq(k, "MaxFocalLength") {
        Some(("NikonLd3", "MaxFocalLength"))
    } else if str_eq(k, "MaxApertureAtMinFocal") {
        Some(("NikonLd3", "MaxApertureAtMinFocal"))
    } else if str_eq(k, "MaxApertureAtMaxFocal") {
        Some(("NikonLd3", "MaxApertureAtMaxFocal"))
    } else if str_eq(k, "MCUVersion") {
        Some(("NikonLd3", "MCUVersion"))
    } else if str_eq(k, "EffectiveMaxAperture") {
        Some(("NikonLd3", "EffectiveMaxAperture"))
    } else if str_eq(k, "FocalLength") {
        Some(("NikonLd3", "FocalLength"))
    } else if str_eq(k, "FocusDistance") {
        Some(("NikonLd3", "FocusDistance"))
    } else if str_eq(k, "AFAperture") {
        Some(("NikonLd3", "AFAperture"))
    } else {
        None
    }
}

/// exiv2 group and name of a vr info field.
pub open spec fn vr_info_field(k: Seq<char>) -> Option<(&'static str, &'static str)> {
    if k == "VRInfoVersion"@ {
        Some(("NikonVr", "Version"))
    } else if k == "VibrationReduction"@ {
        Some(("NikonVr", "VibrationReduction"))
    } else if k == "VRMode"@ {
        Some(("NikonVr", "VRMode"))
    } else {
        None
    }
}

/// exiv2 group and name of a vr info field.
fn vr_info_field_of(k: &str) -> (r: Option<(&'static str, &'static str)>)
    ensures
        r == vr_info_field(k@),
{
    if str_eq(k, "VRInfoVersion") {
        Some(("NikonVr", "Version"))
    } else if str_eq(k, "VibrationReduction") {
        Some(("NikonVr", "VibrationReduction"))
    } else if str_eq(k, "VRMode") {
        Some(("NikonVr", "VRMode"))
    } else {
        None
    }
}

/// exiv2 group and name of a world time field.
pub open spec fn world_time_field(k: Seq<char>) -> Option<(&'static str, &'static str)> {
    if k == "Timezone"@ {
        Some(("NikonWt", "Timezone"))
    } else if k == "DaylightSavings"@ {
        Some(("NikonWt", "DaylightSavings"))
    } else if k == "DateDisplayFormat"@ {
        Some(("NikonWt", "DateDisplayFormat"))
    } else {
        None
    }
}

/// exiv2 group and name of a world time field.
fn world_time_field_of(k: &str) -> (r: Option<(&'static str, &'static str)>)
    ensures
        r == world_time_field(k@),
{
    if str_eq(k, "Timezone") {
        Some(("NikonWt", "Timezone"))
    } else if str_eq(k, "DaylightSavings") {
        Some(("NikonWt", "DaylightSavings"))
    } else if str_eq(k, "DateDisplayFormat") {
        Some(("NikonWt", "DateDisplayFormat"))
    } else {
        None
    }
}

/// exiv2 group and name of a iso info field.
pub open spec fn iso_info_field(k: Seq<char>) -> Option<(&'static str, &'static str)> {
    if k == "ISO"@ {
        Some(("NikonIi", "ISO"))
    } else if k == "ISOExpansion"@ {
        Some(("NikonIi", "ISOExpansion"))
    } else if k == "ISO2"@ {
        Some(("NikonIi", "ISO2"))
    } else if k == "ISOExpansion2"@ {
        Some(("NikonIi", "ISOExpansion2"))
    } else {
        None
    }
}

/// exiv2 group and name of a iso info field.
fn iso_info_field_of(k: &str) -> (r: Option<(&'static str, &'static str)>)
    ensures
        r == iso_info_field(k@),
{
    if str_eq(k, "ISO") {
        Some(("NikonIi", "ISO"))
    } else if str_eq(k, "ISOExpansion") {
        Some(("NikonIi", "ISOExpansion"))
    } else if str_eq(k, "ISO2") {
        Some(("NikonIi", "ISO2"))
    } else if str_eq(k, "ISOExpansion2") {
        Some(("NikonIi", "ISOExpansion2"))
    } else {
        None
    }
}

/// exiv2 group and name of a af info field.
pub open spec fn af_info_field(k: Seq<char>) -> Option<(&'static str, &'static str)> {
    if k == "AFAreaMode"@ {
        Some(("NikonAf", "AFAreaMode"))
    } else if k == "AFPoint"@ {
        Some(("NikonAf", "AFPoint"))
    } else if k == "AFPointsInFocus"@ {
        Some(("NikonAf", "AFPointsInFocus"))
    } else {
        None
    }
}

/// exiv2 group and name of a af info field.
fn af_info_field_of(k: &str) -> (r: Option<(&'static str, &'static str)>)
    ensures
        r == af_info_field(k@),
{
    if str_eq(k, "AFAreaMode") {
        Some(("NikonAf", "AFAreaMode"))
    } else if str_eq(k, "AFPoint") {
        Some(("NikonAf", "AFPoint"))
    } else if str_eq(k, "AFPointsInFocus") {
        Some(("NikonAf", "AFPointsInFocus"))
    } else {
        None
    }
}

/// exiv2 group and name of a af info 2 field.
pub open spec fn af_info_2_field(k: Seq<char>) -> Option<(&'static str, &'static str)> {
    if k == "Version"@ || k == "AFInfo2Version"@ {
        Some(("NikonAf2", "Version"))
    } else if k == "ContrastDetectAF"@ {
        Some(("NikonAf2", "ContrastDetectAF"))
    } else if k == "AFAreaMode"@ {
        Some(("NikonAf2", "AFAreaMode"))
    } else if k == "PhaseDetectAF"@ {
        Some(("NikonAf2", "PhaseDetectAF"))
    } else if k == "PrimaryAFPoint"@ {
        Some(("NikonAf2", "PrimaryAFPoint"))
    } else if k == "AFPointsUsed"@ {
        Some(("NikonAf2", "AFPointsUsed"))
    } else {
        None
    }
}

/// exiv2 group and name of a af info 2 field.
fn af_info_2_field_of(k: &str) -> (r: Option<(&'static str, &'static str)>)
    ensures
        r == af_info_2_field(k@),
{
    if str_eq(k, "Version") || str_eq(k, "AFInfo2Version") {
        Some(("NikonAf2", "Version"))
    } else if str_eq(k, "ContrastDetectAF") {
        Some(("NikonAf2", "ContrastDetectAF"))
    } else if str_eq(k, "AFAreaMode") {
        Some(("NikonAf2", "AFAreaMode"))
    } else if str_eq(k, "PhaseDetectAF") {
        Some(("NikonAf2", "PhaseDetectAF"))
    } else if str_eq(k, "PrimaryAFPoint") {
        Some(("NikonAf2", "PrimaryAFPoint"))
    } else if str_eq(k, "AFPointsUsed") {
        Some(("NikonAf2", "AFPointsUsed"))
    } else {
        None
    }
}

/// exiv2 group and name of a flash info field.
pub open spec fn flash_info_field(k: Seq<char>) -> Option<(&'static str, &'static str)> {
    if k == "FlashInfoVersion"@ {
        Some(("NikonFl3", "Version"))
    } else if k == "FlashSource"@ {
        Some(("NikonFl3", "FlashSource"))
    } else if k == "ExternalFlashFirmware"@ {
        Some(("NikonFl3", "ExternalFlashFirmware"))
    } else if k == "ExternalFlashFlags"@ {
        Some(("NikonFl3", "ExternalFlashFlags"))
    } else if k == "FlashCommanderMode"@ {
        Some(("NikonFl3", "FlashCommanderMode"))
    } else if k == "FlashControlMode"@ {
        Some(("NikonFl3", "FlashControlMode"))
    } else if k == "FlashGNDistance"@ {
        Some(("NikonFl3", "FlashGNDistance"))
    } else if k == "FlashColorFilter"@ {
        Some(("NikonFl3", "FlashColorFilter"))
    } else {
        None
    }
}

/// exiv2 group and name of a flash info field.
fn flash_info_field_of(k: &str) -> (r: Option<(&'static str, &'static str)>)
    ensures
        r == flash_info_field(k@),
{
    if str_eq(k, "FlashInfoVersion") {
        Some(("NikonFl3", "Version"))
    } else if str_eq(k, "FlashSource") {
        Some(("NikonFl3", "FlashSource"))
    } else if str_eq(k, "ExternalFlashFirmware") {
        Some(("NikonFl3", "ExternalFlashFirmware"))
    } else if str_eq(k, "ExternalFlashFlags") {
        Some(("NikonFl3", "ExternalFlashFlags"))
    } else if str_eq(k, "FlashCommanderMode") {
        Some(("NikonFl3", "FlashCommanderMode"))
    } else if str_eq(k, "FlashControlMode") {
        Some(("NikonFl3", "FlashControlMode"))
    } else if str_eq(k, "FlashGNDistance") {
        Some(("NikonFl3", "FlashGNDistance"))
    } else if str_eq(k, "FlashColorFilter") {
        Some(("NikonFl3", "FlashColorFilter"))
    } else {
        None
    }
}

/// exiv2 group and name of a file info field.
pub open spec fn file_info_field(k: Seq<char>) -> Option<(&'static str, &'static str)> {
    if k == "FileInfoVersion"@ {
        Some(("NikonFi", "Version"))
    } else if k == "DirectoryNumber"@ {
        Some(("NikonFi", "DirectoryNumber"))
    } else if k == "FileNumber"@ {
        Some(("NikonFi", "FileNumber"))
    } else {
        None
    }
}

/// exiv2 group and name of a file info field.
fn file_info_field_of(k: &str) -> (r: Option<(&'static str, &'static str)>)
    ensures
        r == file_info_field(k@),
{
    if str_eq(k, "FileInfoVersion") {
        Some(("NikonFi", "Version"))
    } else if str_eq(k, "DirectoryNumber") {
        Some(("NikonFi", "DirectoryNumber"))
    } else if str_eq(k, "FileNumber") {
        Some(("NikonFi", "FileNumber"))
    } else {
        None
    }
}

/// exiv2 group and name of a multi exposure field.
pub open spec fn multi_exposure_field(k: Seq<char>) -> Option<(&'static str, &'static str)> {
    if k == "MultiExposureVersion"@ {
        Some(("NikonMe", "Version"))
    } else if k == "MultiExposureMode"@ {
        Some(("NikonMe", "MultiExposureMode"))
    } else if k == "MultiExposureShots"@ {
        Some(("NikonMe", "MultiExposureShots"))
    } else if k == "MultiExposureAutoGain"@ {
        Some(("NikonMe", "MultiExposureAutoGain"))
    } else {
        None
    }
}

/// exiv2 group and name of a multi exposure field.
fn multi_exposure_field_of(k: &str) -> (r: Option<(&'static str, &'static str)>)
    ensures
        r == multi_exposure_field(k@),
{
    if str_eq(k, "MultiExposureVersion") {
        Some(("NikonMe", "Version"))
    } else if str_eq(k, "MultiExposureMode") {
        Some(("NikonMe", "MultiExposureMode"))
    } else if str_eq(k, "MultiExposureShots") {
        Some(("NikonMe", "MultiExposureShots"))
    } else if str_eq(k, "MultiExposureAutoGain") {
        Some(("NikonMe", "MultiExposureAutoGain"))
    } else {
        None
    }
}



// ---------------------------------------------------------------------------
// Sub-field names for exiv2
// ---------------------------------------------------------------------------

/// exiv2 group and name of a field of a Nikon sub-directory.
pub open spec fn nikon_subfield(parent_tag: u16, field: Seq<char>) -> Option<(&'static str, &'static str)> {
    if parent_tag == NIKON_PICTURE_CONTROL_DATA {
        picture_control_data_field(field)
    } else if parent_tag == NIKON_LENS_DATA {
        lens_data_field(field)
    } else if parent_tag == NIKON_VR_INFO {
        vr_info_field(field)
    } else if parent_tag == NIKON_WORLD_TIME {
        world_time_field(field)
    } else if parent_tag == NIKON_ISO_INFO {
        iso_info_field(field)
    } else if parent_tag == NIKON_AF_INFO {
        af_info_field(field)
    } else if parent_tag == NIKON_AF_INFO_2 {
        af_info_2_field(field)
    } else if parent_tag == NIKON_FLASH_INFO || parent_tag == NIKON_FLASH_INFO_2 {
        flash_info_field(field)
    } else if parent_tag == NIKON_FILE_INFO {
        file_info_field(field)
    } else if parent_tag == NIKON_MULTI_EXPOSURE {
        multi_exposure_field(field)
    } else {
        None
    }
}

/// Maps a field of a Nikon sub-directory to the exiv2 group and tag name.
pub fn get_exiv2_nikon_subfield(parent_tag: u16, field_name: &str) -> (r: Option<
    (&'static str, &'static str),
>)
    ensures
        r == nikon_subfield(parent_tag, field_name@),
{
    if parent_tag == NIKON_PICTURE_CONTROL_DATA {
        picture_control_data_field_of(field_name)
    } else if parent_tag == NIKON_LENS_DATA {
        lens_data_field_of(field_name)
    } else if parent_tag == NIKON_VR_INFO {
        vr_info_field_of(field_name)
    } else if parent_tag == NIKON_WORLD_TIME {
        world_time_field_of(field_name)
    } else if parent_tag == NIKON_ISO_INFO {
        iso_info_field_of(field_name)
    } else if parent_tag == NIKON_AF_INFO {
        af_info_field_of(field_name)
    } else if parent_tag == NIKON_AF_INFO_2 {
        af_info_2_field_of(field_name)
    } else if parent_tag == NIKON_FLASH_INFO || parent_tag == NIKON_FLASH_INFO_2 {
        flash_info_field_of(field_name)
    } else if parent_tag == NIKON_FILE_INFO {
        file_info_field_of(field_name)
    } else if parent_tag == NIKON_MULTI_EXPOSURE {
        multi_exposure_field_of(field_name)
    } else {
        None
    }
}

/// Looks up the name of a lens from its composite ID ("XX XX XX XX XX XX XX XX"),
/// compared in upper case.
pub fn get_nikon_lens_name(lens_id: &str) -> (r: Option<&'static str>)
    ensures
        r == nikon_lens_name(unicode_upper(lens_id@)),
{
    let upper = to_upper(lens_id);
    lens_name_for_id(upper.as_str())
}

// ---------------------------------------------------------------------------
// Keyword values stored as ASCII
// ---------------------------------------------------------------------------

/// A keyword value printed: its known printed form, else the value trimmed.
pub open spec fn keyword_text(v: Seq<char>, found: Option<&'static str>) -> Seq<char> {
    match found {
        Some(s) => s@,
        None => trim(v),
    }
}

/// The value trimmed and in upper case, as keyword tables are keyed.
pub open spec fn keyword_key(v: Seq<char>) -> Seq<char> {
    unicode_upper(trim(v))
}

fn keyword_result(trimmed: &str, found: Option<&'static str>) -> (r: String)
    ensures
        r@ == (match found {
            Some(s) => s@,
            None => trimmed@,
        }),
{
    match found {
        Some(s) => owned(s),
        None => owned(trimmed),
    }
}

/// Decodes ImageStabilization (ExifTool).
pub fn decode_image_stabilization_exiftool(value: &str) -> (r: &'static str)
    ensures
        r == image_stabilization_word(trim(value@)),
{
    image_stabilization_word_of(trim_str(value))
}

/// Decodes ImageStabilization (exiv2), which prints it as ExifTool does.
pub fn decode_image_stabilization_exiv2(value: &str) -> (r: &'static str)
    ensures
        r == image_stabilization_word(trim(value@)),
{
    decode_image_stabilization_exiftool(value)
}

/// Decodes Quality (ExifTool).
pub fn decode_quality_exiftool(value: &str) -> (r: String)
    ensures
        r@ == keyword_text(value@, quality_word(keyword_key(value@))),
{
    let t = trim_str(value);
    let u = to_upper(t);
    keyword_result(t, quality_word_of(u.as_str()))
}

/// Decodes Quality (exiv2), which prints it as ExifTool does.
pub fn decode_quality_exiv2(value: &str) -> (r: String)
    ensures
        r@ == keyword_text(value@, quality_word(keyword_key(value@))),
{
    decode_quality_exiftool(value)
}

/// Decodes FocusMode (ExifTool): compared trimmed, without case change.
pub fn decode_focus_mode_exiftool(value: &str) -> (r: String)
    ensures
        r@ == keyword_text(value@, focus_mode_word(trim(value@))),
{
    let t = trim_str(value);
    keyword_result(t, focus_mode_word_of(t))
}

/// FocusMode as exiv2 prints it: the values as the camera stores them,
/// padded with two spaces, are spelled out; any other value is printed as
/// ExifTool prints it.
pub open spec fn focus_mode_exiv2_text(v: Seq<char>) -> Seq<char> {
    if v == "AF-C  "@ {
        "Continuous autofocus"@
    } else if v == "AF-S  "@ {
        "Single autofocus"@
    } else if v == "AF-A  "@ {
        "Automatic"@
    } else {
        keyword_text(v, focus_mode_word(trim(v)))
    }
}

/// Decodes FocusMode (exiv2).
pub fn decode_focus_mode_exiv2(value: &str) -> (r: String)
    ensures
        r@ == focus_mode_exiv2_text(value@),
{
    if str_eq(value, "AF-C  ") {
        owned("Continuous autofocus")
    } else if str_eq(value, "AF-S  ") {
        owned("Single autofocus")
    } else if str_eq(value, "AF-A  ") {
        owned("Automatic")
    } else {
        decode_focus_mode_exiftool(value)
    }
}

/// Decodes FlashSetting (ExifTool).
pub fn decode_flash_setting_exiftool(value: &str) -> (r: String)
    ensures
        r@ == keyword_text(value@, flash_setting_word(keyword_key(value@))),
{
    let t = trim_str(value);
    let u = to_upper(t);
    keyword_result(t, flash_setting_word_of(u.as_str()))
}

/// Decodes FlashSetting (exiv2), which prints it as ExifTool does.
pub fn decode_flash_setting_exiv2(value: &str) -> (r: String)
    ensures
        r@ == keyword_text(value@, flash_setting_word(keyword_key(value@))),
{
    decode_flash_setting_exiftool(value)
}

/// Decodes Sharpness (ExifTool).
pub fn decode_sharpening_exiftool(value: &str) -> (r: String)
    ensures
        r@ == keyword_text(value@, sharpening_word(keyword_key(value@))),
{
    let t = trim_str(value);
    let u = to_upper(t);
    keyword_result(t, sharpening_word_of(u.as_str()))
}

/// Decodes Sharpness (exiv2), which prints it as ExifTool does.
pub fn decode_sharpening_exiv2(value: &str) -> (r: String)
    ensures
        r@ == keyword_text(value@, sharpening_word(keyword_key(value@))),
{
    decode_sharpening_exiftool(value)
}

/// Decodes ToneComp (ExifTool).
pub fn decode_tone_comp_exiftool(value: &str) -> (r: String)
    ensures
        r@ == keyword_text(value@, tone_comp_word(keyword_key(value@))),
{
    let t = trim_str(value);
    let u = to_upper(t);
    keyword_result(t, tone_comp_word_of(u.as_str()))
}

/// Decodes ToneComp (exiv2), which prints it as ExifTool does.
pub fn decode_tone_comp_exiv2(value: &str) -> (r: String)
    ensures
        r@ == keyword_text(value@, tone_comp_word(keyword_key(value@))),
{
    decode_tone_comp_exiftool(value)
}

/// Decodes ISOSelection (ExifTool).
pub fn decode_iso_selection_exiftool(value: &str) -> (r: String)
    ensures
        r@ == keyword_text(value@, iso_selection_word(keyword_key(value@))),
{
    let t = trim_str(value);
    let u = to_upper(t);
    keyword_result(t, iso_selection_word_of(u.as_str()))
}

/// Decodes ISOSelection (exiv2), which prints it as ExifTool does.
pub fn decode_iso_selection_exiv2(value: &str) -> (r: String)
    ensures
        r@ == keyword_text(value@, iso_selection_word(keyword_key(value@))),
{
    decode_iso_selection_exiftool(value)
}

/// Decodes FlashType (ExifTool).
pub fn decode_flash_type_exiftool(value: &str) -> (r: String)
    ensures
        r@ == keyword_text(value@, flash_type_word(keyword_key(value@))),
{
    let t = trim_str(value);
    let u = to_upper(t);
    keyword_result(t, flash_type_word_of(u.as_str()))
}

/// Decodes FlashType (exiv2), which prints it as ExifTool does.
pub fn decode_flash_type_exiv2(value: &str) -> (r: String)
    ensures
        r@ == keyword_text(value@, flash_type_word(keyword_key(value@))),
{
    decode_flash_type_exiftool(value)
}

/// Decodes ColorMode (ExifTool).
pub fn decode_color_mode_exiftool(value: &str) -> (r: String)
    ensures
        r@ == keyword_text(value@, color_mode_word(keyword_key(value@))),
{
    let t = trim_str(value);
    let u = to_upper(t);
    keyword_result(t, color_mode_word_of(u.as_str()))
}

/// Decodes ColorMode (exiv2), which prints it as ExifTool does.
pub fn decode_color_mode_exiv2(value: &str) -> (r: String)
    ensures
        r@ == keyword_text(value@, color_mode_word(keyword_key(value@))),
{
    decode_color_mode_exiftool(value)
}

/// Decodes NoiseReduction (ExifTool).
pub fn decode_noise_reduction_exiftool(value: &str) -> (r: String)
    ensures
        r@ == keyword_text(value@, noise_reduction_word(keyword_key(value@))),
{
    let t = trim_str(value);
    let u = to_upper(t);
    keyword_result(t, noise_reduction_word_of(u.as_str()))
}

/// Decodes NoiseReduction (exiv2), which prints it as ExifTool does.
pub fn decode_noise_reduction_exiv2(value: &str) -> (r: String)
    ensures
        r@ == keyword_text(value@, noise_reduction_word(keyword_key(value@))),
{
    decode_noise_reduction_exiftool(value)
}

/// Decodes ImageProcessing (ExifTool).
pub fn decode_image_processing_exiftool(value: &str) -> (r: String)
    ensures
        r@ == keyword_text(value@, image_processing_word(keyword_key(value@))),
{
    let t = trim_str(value);
    let u = to_upper(t);
    keyword_result(t, image_processing_word_of(u.as_str()))
}

/// Decodes ImageProcessing (exiv2), which prints it as ExifTool does.
pub fn decode_image_processing_exiv2(value: &str) -> (r: String)
    ensures
        r@ == keyword_text(value@, image_processing_word(keyword_key(value@))),
{
    decode_image_processing_exiftool(value)
}

/// Saturation (a signed short) printed with its sign.
pub fn decode_saturation_exiftool(value: i16) -> (r: String)
    ensures
        r@ == signed_dec(value as int),
{
    let mut s = String::new();
    if value < 0 {
        push_char(&mut s, '-');
        push_dec(&mut s, (-(value as i32)) as u64);
    } else {
        push_char(&mut s, '+');
        push_dec(&mut s, value as u64);
    }
    proof {
        assert(s@ =~= signed_dec(value as int));
    }
    s
}

/// Saturation (exiv2), printed as ExifTool does.
pub fn decode_saturation_exiv2(value: i16) -> (r: String)
    ensures
        r@ == signed_dec(value as int),
{
    decode_saturation_exiftool(value)
}

// ---------------------------------------------------------------------------
// Flash mode and shooting mode
// ---------------------------------------------------------------------------

/// "Unknown (n)".
pub open spec fn unknown_text(n: nat) -> Seq<char> {
    "Unknown ("@ + dec(n) + ")"@
}

/// FlashMode text.
pub open spec fn flash_mode_text(v: u8) -> Seq<char> {
    match flash_mode_name(v) {
        Some(s) => s@,
        None => unknown_text(v as nat),
    }
}

/// Decodes FlashMode (ExifTool).
pub fn decode_flash_mode_exiftool(value: u8) -> (r: String)
    ensures
        r@ == flash_mode_text(value),
{
    match flash_mode_of(value) {
        Some(s) => owned(s),
        None => wrap_dec("Unknown (", value as u64, ")"),
    }
}

/// Decodes FlashMode (exiv2), with the same mapping.
pub fn decode_flash_mode_exiv2(value: u8) -> (r: String)
    ensures
        r@ == flash_mode_text(value),
{
    decode_flash_mode_exiftool(value)
}

/// Whether bit `b` of `v` is set.
pub open spec fn bit16(v: u16, b: u16) -> bool {
    v & (1u16 << b) != 0
}

/// Name of a known ShootingMode bit.
pub open spec fn shooting_bit_name(b: u16) -> Option<&'static str> {
    match b {
        0 => Some("Continuous"),
        1 => Some("Delay"),
        2 => Some("PC Control"),
        3 => Some("Self-timer"),
        4 => Some("Exposure Bracketing"),
        5 => Some("Auto ISO"),
        6 => Some("White-Balance Bracketing"),
        7 => Some("IR Control"),
        8 => Some("D-Lighting Bracketing"),
        11 => Some("Pre-capture"),
        _ => None,
    }
}

fn shooting_bit(b: u16) -> (r: Option<&'static str>)
    ensures
        r == shooting_bit_name(b),
{
    match b {
        0 => Some("Continuous"),
        1 => Some("Delay"),
        2 => Some("PC Control"),
        3 => Some("Self-timer"),
        4 => Some("Exposure Bracketing"),
        5 => Some("Auto ISO"),
        6 => Some("White-Balance Bracketing"),
        7 => Some("IR Control"),
        8 => Some("D-Lighting Bracketing"),
        11 => Some("Pre-capture"),
        _ => None,
    }
}

/// Names of the known bits set among bits `0..n`, lowest first.
pub open spec fn known_bit_parts(v: u16, n: nat) -> Seq<Seq<char>>
    decreases n,
{
    if n == 0 {
        Seq::empty()
    } else {
        let b = (n - 1) as u16;
        let prev = known_bit_parts(v, (n - 1) as nat);
        match shooting_bit_name(b) {
            Some(s) => if bit16(v, b) {
                prev.push(s@)
            } else {
                prev
            },
            None => prev,
        }
    }
}

/// "[b]" for each unknown bit `b` set among bits `0..n`, lowest first.
pub open spec fn unknown_bit_parts(v: u16, n: nat) -> Seq<Seq<char>>
    decreases n,
{
    if n == 0 {
        Seq::empty()
    } else {
        let b = (n - 1) as u16;
        let prev = unknown_bit_parts(v, (n - 1) as nat);
        if shooting_bit_name(b) is None && bit16(v, b) {
            prev.push("["@ + dec(b as nat) + "]"@)
        } else {
            prev
        }
    }
}

/// The ShootingMode bits: known names, then unknown bits as "[n]", joined by ", ".
pub open spec fn shooting_bits_text(v: u16) -> Seq<char> {
    join(known_bit_parts(v, 16) + unknown_bit_parts(v, 16), ", "@)
}

fn decode_shooting_mode_bits(value: u16) -> (r: String)
    ensures
        r@ == shooting_bits_text(value),
{
    let mut modes: Vec<String> = Vec::new();
    let mut b: u16 = 0;
    while b < 16
        invariant
            b <= 16,
            views(modes@) =~= known_bit_parts(value, b as nat),
        decreases 16 - b,
    {
        let ghost before = modes@;
        if let Some(name) = shooting_bit(b) {
            if value & (1u16 << b) != 0 {
                let part = owned(name);
                modes.push(part);
                proof {
                    assert(views(modes@) =~= views(before).push(part@));
                }
            }
        }
        b = b + 1;
    }
    let ghost known = views(modes@);
    let mut b: u16 = 0;
    while b < 16
        invariant
            b <= 16,
            views(modes@) =~= known + unknown_bit_parts(value, b as nat),
        decreases 16 - b,
    {
        let ghost before = modes@;
        if shooting_bit(b).is_none() && value & (1u16 << b) != 0 {
            let part = wrap_dec("[", b as u64, "]");
            modes.push(part);
            proof {
                assert(views(modes@) =~= views(before).push(part@));
            }
        }
        b = b + 1;
    }
    join_strings(&modes, ", ")
}

/// ShootingMode as ExifTool prints it: "Single-Frame" first when none of
/// bits 0, 1, 2, 7 is set.
pub open spec fn shooting_mode_text(v: u16) -> Seq<char> {
    if v & 0x87 == 0 {
        if v == 0 {
            "Single-Frame"@
        } else if shooting_bits_text(v).len() == 0 {
            "Single-Frame"@
        } else {
            "Single-Frame"@ + ", "@ + shooting_bits_text(v)
        }
    } else {
        shooting_bits_text(v)
    }
}

/// Decodes the ShootingMode bitmask (ExifTool).
pub fn decode_shooting_mode_exiftool(value: u16) -> (r: String)
    ensures
        r@ == shooting_mode_text(value),
{
    if value & 0x87 == 0 {
        if value == 0 {
            return owned("Single-Frame");
        }
        let mut result = owned("Single-Frame");
        let bits = decode_shooting_mode_bits(value);
        if bits.as_str().is_empty() == false {
            push_str(&mut result, ", ");
            push_str(&mut result, bits.as_str());
        }
        return result;
    }
    decode_shooting_mode_bits(value)
}

/// Decodes the ShootingMode bitmask (exiv2): every bit, without the single-frame rule.
pub fn decode_shooting_mode_exiv2(value: u16) -> (r: String)
    ensures
        r@ == shooting_bits_text(value),
{
    decode_shooting_mode_bits(value)
}

/// Every known bit name and every "[n]" is a non-empty part.
proof fn lemma_bit_parts_nonempty(v: u16, n: nat)
    requires
        n <= 16,
    ensures
        forall|i: int|
            0 <= i < known_bit_parts(v, n).len() ==> #[trigger] known_bit_parts(v, n)[i].len() > 0,
        forall|i: int|
            0 <= i < unknown_bit_parts(v, n).len() ==> #[trigger] unknown_bit_parts(v, n)[i].len()
                > 0,
    decreases n,
{
    if n > 0 {
        let b = (n - 1) as u16;
        lemma_bit_parts_nonempty(v, (n - 1) as nat);
        let prev = known_bit_parts(v, (n - 1) as nat);
        let uprev = unknown_bit_parts(v, (n - 1) as nat);
        if shooting_bit_name(b) is Some {
            lemma_bit_name_nonempty(b);
        }
        assert forall|i: int| 0 <= i < known_bit_parts(v, n).len() implies #[trigger] known_bit_parts(
            v,
            n,
        )[i].len() > 0 by {
            if i < prev.len() {
                assert(known_bit_parts(v, n)[i] == prev[i]);
            }
        }
        reveal_strlit("[");
        reveal_strlit("]");
        assert forall|i: int| 0 <= i < unknown_bit_parts(v, n).len() implies #[trigger] unknown_bit_parts(
            v,
            n,
        )[i].len() > 0 by {
            if i < uprev.len() {
                assert(unknown_bit_parts(v, n)[i] == uprev[i]);
            }
        }
    }
}

/// The known bit names are not empty.
proof fn lemma_bit_name_nonempty(b: u16)
    requires
        shooting_bit_name(b) is Some,
    ensures
        shooting_bit_name(b)->0@.len() > 0,
{
    reveal_strlit("Continuous");
    reveal_strlit("Delay");
    reveal_strlit("PC Control");
    reveal_strlit("Self-timer");
    reveal_strlit("Exposure Bracketing");
    reveal_strlit("Auto ISO");
    reveal_strlit("White-Balance Bracketing");
    reveal_strlit("IR Control");
    reveal_strlit("D-Lighting Bracketing");
    reveal_strlit("Pre-capture");
}

/// A set bit below `n` gives at least one part.
proof fn lemma_set_bit_gives_part(v: u16, b: u16, n: nat)
    requires
        (b as nat) < n <= 16,
        bit16(v, b),
    ensures
        known_bit_parts(v, n).len() + unknown_bit_parts(v, n).len() > 0,
    decreases n,
{
    if (b as nat) < n - 1 {
        lemma_set_bit_gives_part(v, b, (n - 1) as nat);
    }
}

/// No bit set gives no part.
proof fn lemma_no_bit_no_part(n: nat)
    requires
        n <= 16,
    ensures
        known_bit_parts(0, n).len() == 0,
        unknown_bit_parts(0, n).len() == 0,
    decreases n,
{
    if n > 0 {
        lemma_no_bit_no_part((n - 1) as nat);
        let b = (n - 1) as u16;
        assert(0u16 & (1u16 << b) == 0) by (bit_vector);
    }
}

/// ShootingMode as exiv2 and as ExifTool print it: empty for 0 in exiv2;
/// the same text when bit 0, 1, 2 or 7 is set; otherwise ExifTool's text is
/// exiv2's after "Single-Frame, ".
pub proof fn law_shooting_mode_exiftool_is_exiv2_with_single_frame(v: u16)
    ensures
        v == 0 ==> shooting_bits_text(v) == Seq::<char>::empty(),
        v & 0x87 != 0 ==> shooting_mode_text(v) == shooting_bits_text(v),
        v != 0 && v & 0x87 == 0 ==> shooting_mode_text(v) == "Single-Frame, "@ + shooting_bits_text(v),
{
    if v == 0 {
        lemma_no_bit_no_part(16);
        assert(known_bit_parts(0, 16) + unknown_bit_parts(0, 16) =~= Seq::<Seq<char>>::empty());
    } else {
        assert(v & (1u16 << 0u16) != 0 || v & (1u16 << 1u16) != 0 || v & (1u16 << 2u16) != 0 || v & (1u16
            << 3u16) != 0 || v & (1u16 << 4u16) != 0 || v & (1u16 << 5u16) != 0 || v & (1u16 << 6u16)
            != 0 || v & (1u16 << 7u16) != 0 || v & (1u16 << 8u16) != 0 || v & (1u16 << 9u16) != 0 || v
            & (1u16 << 10u16) != 0 || v & (1u16 << 11u16) != 0 || v & (1u16 << 12u16) != 0 || v & (1u16
            << 13u16) != 0 || v & (1u16 << 14u16) != 0 || v & (1u16 << 15u16) != 0) by (bit_vector)
            requires
                v != 0,
        ;
        assert(exists|b: u16| b < 16 && #[trigger] bit16(v, b)) by {
            if bit16(v, 0) {
            } else if bit16(v, 1) {
            } else if bit16(v, 2) {
            } else if bit16(v, 3) {
            } else if bit16(v, 4) {
            } else if bit16(v, 5) {
            } else if bit16(v, 6) {
            } else if bit16(v, 7) {
            } else if bit16(v, 8) {
            } else if bit16(v, 9) {
            } else if bit16(v, 10) {
            } else if bit16(v, 11) {
            } else if bit16(v, 12) {
            } else if bit16(v, 13) {
            } else if bit16(v, 14) {
            } else {
                assert(bit16(v, 15));
            }
        }
        let b = choose|b: u16| b < 16 && #[trigger] bit16(v, b);
        lemma_set_bit_gives_part(v, b, 16);
        lemma_bit_parts_nonempty(v, 16);
        let k = known_bit_parts(v, 16);
        let u = unknown_bit_parts(v, 16);
        let parts = k + u;
        assert(parts.len() > 0);
        reveal_strlit(", ");
        reveal_strlit("Single-Frame");
        reveal_strlit("Single-Frame, ");
        if parts.len() == 1 {
            if k.len() > 0 {
                assert(parts[0] == k[0]);
            } else {
                assert(parts[0] == u[0]);
            }
            assert(join(parts, ", "@) == parts[0]);
        }
        assert(shooting_bits_text(v).len() > 0);
        assert("Single-Frame"@ + ", "@ =~= "Single-Frame, "@);
    }
}

// ---------------------------------------------------------------------------
// Lens type
// ---------------------------------------------------------------------------

/// Whether `v & mask` is non-zero.
pub open spec fn has8(v: u8, mask: u8) -> bool {
    v & mask != 0
}

/// LensType features in ExifTool's order.
pub open spec fn lens_features_exiftool(v: u8) -> Seq<Seq<char>> {
    let a: Seq<Seq<char>> = if has8(v, 0x10) {
        seq!["1"@]
    } else {
        seq![]
    };
    let b = if has8(v, 0x40) {
        a.push("E"@)
    } else if has8(v, 0x04) {
        a.push("G"@)
    } else if has8(v, 0x02) {
        a.push("D"@)
    } else {
        a
    };
    let c = if has8(v, 0x01) {
        b.push("MF"@)
    } else {
        b
    };
    let d = if has8(v, 0x08) {
        c.push("VR"@)
    } else {
        c
    };
    let e = if has8(v, 0x80) {
        d.push("AF-P"@)
    } else {
        d
    };
    if has8(v, 0x20) {
        e.push("FT-1"@)
    } else {
        e
    }
}

/// LensType as ExifTool prints it.
pub open spec fn lens_type_exiftool_text(v: u8) -> Seq<char> {
    if v == 0 || lens_features_exiftool(v).len() == 0 {
        "AF"@
    } else {
        join(lens_features_exiftool(v), " "@)
    }
}

fn push_feature(v: &mut Vec<String>, s: &str)
    ensures
        views(final(v)@) == views(old(v)@).push(s@),
{
    let ghost before = v@;
    let part = owned(s);
    v.push(part);
    proof {
        assert(views(v@) =~= views(before).push(s@));
    }
}

/// Decodes the LensType bitfield (ExifTool).
pub fn decode_lens_type_exiftool(value: u8) -> (r: String)
    ensures
        r@ == lens_type_exiftool_text(value),
{
    if value == 0 {
        return owned("AF");
    }
    let mut features: Vec<String> = Vec::new();
    proof {
        assert(views(features@) =~= Seq::<Seq<char>>::empty());
    }
    if value & 0x10 != 0 {
        push_feature(&mut features, "1");
    }
    if value & 0x40 != 0 {
        push_feature(&mut features, "E");
    } else if value & 0x04 != 0 {
        push_feature(&mut features, "G");
    } else if value & 0x02 != 0 {
        push_feature(&mut features, "D");
    }
    if value & 0x01 != 0 {
        push_feature(&mut features, "MF");
    }
    if value & 0x08 != 0 {
        push_feature(&mut features, "VR");
    }
    if value & 0x80 != 0 {
        push_feature(&mut features, "AF-P");
    }
    if value & 0x20 != 0 {
        push_feature(&mut features, "FT-1");
    }
    proof {
        assert(views(features@) =~= lens_features_exiftool(value));
    }
    if features.len() == 0 {
        owned("AF")
    } else {
        join_strings(&features, " ")
    }
}

/// LensType features as exiv2 decodes them (bits 0 to 3).
pub open spec fn lens_features_exiv2(v: u8) -> Seq<Seq<char>> {
    let a: Seq<Seq<char>> = if has8(v, 0x01) {
        seq!["MF"@]
    } else {
        seq![]
    };
    let b = if has8(v, 0x02) {
        a.push("D"@)
    } else {
        a
    };
    let c = if has8(v, 0x04) {
        b.push("G"@)
    } else {
        b
    };
    if has8(v, 0x08) {
        c.push("VR"@)
    } else {
        c
    }
}

/// Decodes the LensType bitfield (exiv2); empty when none of bits 0 to 3 is set.
pub fn decode_lens_type_exiv2(value: u8) -> (r: String)
    ensures
        r@ == join(lens_features_exiv2(value), " "@),
{
    let mut features: Vec<String> = Vec::new();
    proof {
        assert(views(features@) =~= Seq::<Seq<char>>::empty());
    }
    if value & 0x01 != 0 {
        push_feature(&mut features, "MF");
    }
    if value & 0x02 != 0 {
        push_feature(&mut features, "D");
    }
    if value & 0x04 != 0 {
        push_feature(&mut features, "G");
    }
    if value & 0x08 != 0 {
        push_feature(&mut features, "VR");
    }
    proof {
        assert(views(features@) =~= lens_features_exiv2(value));
    }
    join_strings(&features, " ")
}

// ---------------------------------------------------------------------------
// Flash firmware
// ---------------------------------------------------------------------------

/// ExternalFlashFirmware: "major.MM (model)".
pub open spec fn flash_firmware_text(major: u8, minor: u8) -> Seq<char> {
    dec(major as nat) + seq!['.'] + zero_pad(dec(minor as nat), 2) + " ("@ + match flash_firmware_model(
        major,
        minor,
    ) {
        Some(m) => m@,
        None => "Unknown model"@,
    } + seq![')']
}

/// Formats ExternalFlashFirmware with the flash unit it belongs to.
pub fn format_flash_firmware(major: u8, minor: u8) -> (r: String)
    ensures
        r@ == flash_firmware_text(major, minor),
{
    let mut s = fmt_dec(major as u64);
    push_char(&mut s, '.');
    push_dec_pad(&mut s, minor as u64, 2);
    push_str(&mut s, " (");
    match flash_firmware_model_of(major, minor) {
        Some(m) => push_str(&mut s, m),
        None => push_str(&mut s, "Unknown model"),
    }
    push_char(&mut s, ')');
    proof {
        assert(s@ =~= flash_firmware_text(major, minor));
    }
    s
}

// ---------------------------------------------------------------------------
// Decryption
// ---------------------------------------------------------------------------

/// First key table, indexed by the low byte of the serial number.
pub const NIKON_XLAT_0: [u8; 256] = [
    0xc1, 0xbf, 0x6d, 0x0d, 0x59, 0xc5, 0x13, 0x9d, 0x83, 0x61, 0x6b, 0x4f, 0xc7, 0x7f, 0x3d, 0x3d,
    0x53, 0x59, 0xe3, 0xc7, 0xe9, 0x2f, 0x95, 0xa7, 0x95, 0x1f, 0xdf, 0x7f, 0x2b, 0x29, 0xc7, 0x0d,
    0xdf, 0x07, 0xef, 0x71, 0x89, 0x3d, 0x13, 0x3d, 0x3b, 0x13, 0xfb, 0x0d, 0x89, 0xc1, 0x65, 0x1f,
    0xb3, 0x0d, 0x6b, 0x29, 0xe3, 0xfb, 0xef, 0xa3, 0x6b, 0x47, 0x7f, 0x95, 0x35, 0xa7, 0x47, 0x4f,
    0xc7, 0xf1, 0x59, 0x95, 0x35, 0x11, 0x29, 0x61, 0xf1, 0x3d, 0xb3, 0x2b, 0x0d, 0x43, 0x89, 0xc1,
    0x9d, 0x9d, 0x89, 0x65, 0xf1, 0xe9, 0xdf, 0xbf, 0x3d, 0x7f, 0x53, 0x97, 0xe5, 0xe9, 0x95, 0x17,
    0x1d, 0x3d, 0x8b, 0xfb, 0xc7, 0xe3, 0x67, 0xa7, 0x07, 0xf1, 0x71, 0xa7, 0x53, 0xb5, 0x29, 0x89,
    0xe5, 0x2b, 0xa7, 0x17, 0x29, 0xe9, 0x4f, 0xc5, 0x65, 0x6d, 0x6b, 0xef, 0x0d, 0x89, 0x49, 0x2f,
    0xb3, 0x43, 0x53, 0x65, 0x1d, 0x49, 0xa3, 0x13, 0x89, 0x59, 0xef, 0x6b, 0xef, 0x65, 0x1d, 0x0b,
    0x59, 0x13, 0xe3, 0x4f, 0x9d, 0xb3, 0x29, 0x43, 0x2b, 0x07, 0x1d, 0x95, 0x59, 0x59, 0x47, 0xfb,
    0xe5, 0xe9, 0x61, 0x47, 0x2f, 0x35, 0x7f, 0x17, 0x7f, 0xef, 0x7f, 0x95, 0x95, 0x71, 0xd3, 0xa3,
    0x0b, 0x71, 0xa3, 0xad, 0x0b, 0x3b, 0xb5, 0xfb, 0xa3, 0xbf, 0x4f, 0x83, 0x1d, 0xad, 0xe9, 0x2f,
    0x71, 0x65, 0xa3, 0xe5, 0x07, 0x35, 0x3d, 0x0d, 0xb5, 0xe9, 0xe5, 0x47, 0x3b, 0x9d, 0xef, 0x35,
    0xa3, 0xbf, 0xb3, 0xdf, 0x53, 0xd3, 0x97, 0x53, 0x49, 0x71, 0x07, 0x35, 0x61, 0x71, 0x2f, 0x43,
    0x2f, 0x11, 0xdf, 0x17, 0x97, 0xfb, 0x95, 0x3b, 0x7f, 0x6b, 0xd3, 0x25, 0xbf, 0xad, 0xc7, 0xc5,
    0xc5, 0xb5, 0x8b, 0xef, 0x2f, 0xd3, 0x07, 0x6b, 0x25, 0x49, 0x95, 0x25, 0x49, 0x6d, 0x71, 0xc7,
];
/// Second key table, indexed by the XOR of the shutter-count bytes.
pub const NIKON_XLAT_1: [u8; 256] = [
    0xa7, 0xbc, 0xc9, 0xad, 0x91, 0xdf, 0x85, 0xe5, 0xd4, 0x78, 0xd5, 0x17, 0x46, 0x7c, 0x29, 0x4c,
    0x4d, 0x03, 0xe9, 0x25, 0x68, 0x11, 0x86, 0xb3, 0xbd, 0xf7, 0x6f, 0x61, 0x22, 0xa2, 0x26, 0x34,
    0x2a, 0xbe, 0x1e, 0x46, 0x14, 0x68, 0x9d, 0x44, 0x18, 0xc2, 0x40, 0xf4, 0x7e, 0x5f, 0x1b, 0xad,
    0x0b, 0x94, 0xb6, 0x67, 0xb4, 0x0b, 0xe1, 0xea, 0x95, 0x9c, 0x66, 0xdc, 0xe7, 0x5d, 0x6c, 0x05,
    0xda, 0xd5, 0xdf, 0x7a, 0xef, 0xf6, 0xdb, 0x1f, 0x82, 0x4c, 0xc0, 0x68, 0x47, 0xa1, 0xbd, 0xee,
    0x39, 0x50, 0x56, 0x4a, 0xdd, 0xdf, 0xa5, 0xf8, 0xc6, 0xda, 0xca, 0x90, 0xca, 0x01, 0x42, 0x9d,
    0x8b, 0x0c, 0x73, 0x43, 0x75, 0x05, 0x94, 0xde, 0x24, 0xb3, 0x80, 0x34, 0xe5, 0x2c, 0xdc, 0x9b,
    0x3f, 0xca, 0x33, 0x45, 0xd0, 0xdb, 0x5f, 0xf5, 0x52, 0xc3, 0x21, 0xda, 0xe2, 0x22, 0x72, 0x6b,
    0x3e, 0xd0, 0x5b, 0xa8, 0x87, 0x8c, 0x06, 0x5d, 0x0f, 0xdd, 0x09, 0x19, 0x93, 0xd0, 0xb9, 0xfc,
    0x8b, 0x0f, 0x84, 0x60, 0x33, 0x1c, 0x9b, 0x45, 0xf1, 0xf0, 0xa3, 0x94, 0x3a, 0x12, 0x77, 0x33,
    0x4d, 0x44, 0x78, 0x28, 0x3c, 0x9e, 0xfd, 0x65, 0x57, 0x16, 0x94, 0x6b, 0xfb, 0x59, 0xd0, 0xc8,
    0x22, 0x36, 0xdb, 0xd2, 0x63, 0x98, 0x43, 0xa1, 0x04, 0x87, 0x86, 0xf7, 0xa6, 0x26, 0xbb, 0xd6,
    0x59, 0x4d, 0xbf, 0x6a, 0x2e, 0xaa, 0x2b, 0xef, 0xe6, 0x78, 0xb6, 0x4e, 0xe0, 0x2f, 0xdc, 0x7c,
    0xbe, 0x57, 0x19, 0x32, 0x7e, 0x2a, 0xd0, 0xb8, 0xba, 0x29, 0x00, 0x3c, 0x52, 0x7d, 0xa8, 0x49,
    0x3b, 0x2d, 0xeb, 0x25, 0x49, 0xfa, 0xa3, 0xaa, 0x39, 0xa7, 0xc5, 0xa7, 0x50, 0x11, 0x36, 0xfb,
    0xc6, 0x67, 0x4a, 0xf5, 0xa5, 0x12, 0x65, 0x7e, 0xb0, 0xdf, 0xaf, 0x4e, 0xb3, 0x61, 0x7f, 0x2f,
];

/// The key byte of a shutter count: XOR of its four bytes.
pub open spec fn count_key(count: u32) -> u8 {
    ((count & 0xff) ^ ((count >> 8) & 0xff) ^ ((count >> 16) & 0xff) ^ ((count >> 24) & 0xff)) as u8
}

/// The key-stream state (cj, ck) after `n` steps, from ci and the initial cj.
pub open spec fn key_state(ci: u8, cj0: u8, n: nat) -> (u8, u8)
    decreases n,
{
    if n == 0 {
        (cj0, 0x60u8)
    } else {
        let (cj, ck) = key_state(ci, cj0, (n - 1) as nat);
        (((cj as int + (ci as int * ck as int) % 256) % 256) as u8, ((ck as int + 1) % 256) as u8)
    }
}

/// The key byte XORed into the `n`-th decrypted byte.
pub open spec fn key_byte(serial: u32, count: u32, n: nat) -> u8 {
    key_state(NIKON_XLAT_0@[(serial & 0xff) as int], NIKON_XLAT_1@[count_key(count) as int], n + 1).0
}

/// The data with every byte from `start` on XORed with the Nikon key stream.
pub open spec fn nikon_crypt(data: Seq<u8>, serial: u32, count: u32, start: nat) -> Seq<u8> {
    if data.len() == 0 || start >= data.len() {
        data
    } else {
        Seq::new(
            data.len(),
            |i: int|
                if i < start {
                    data[i]
                } else {
                    data[i] ^ key_byte(serial, count, (i - start) as nat)
                },
        )
    }
}

/// Decrypts (or encrypts: the cipher is its own inverse) Nikon data in place,
/// from offset `start` on, with the key derived from the serial number and shutter count.
pub fn nikon_decrypt(serial: u32, count: u32, data: &mut Vec<u8>, start: usize)
    ensures
        final(data)@ == nikon_crypt(old(data)@, serial, count, start as nat),
{
    if data.len() == 0 || start >= data.len() {
        return;
    }
    let key = ((count & 0xff) ^ ((count >> 8) & 0xff) ^ ((count >> 16) & 0xff) ^ ((count >> 24)
        & 0xff)) as u8;
    assert(serial & 0xff < 256) by (bit_vector);
    assert(key == count_key(count));
    let ci = NIKON_XLAT_0[(serial & 0xff) as usize];
    let mut cj = NIKON_XLAT_1[key as usize];
    let mut ck: u8 = 0x60;
    let ghost orig = data@;
    let ghost cj0 = cj;
    let n = data.len();
    let mut i: usize = start;
    while i < n
        invariant
            n == data@.len(),
            n == orig.len(),
            start <= i <= n,
            start < n,
            ci == NIKON_XLAT_0@[(serial & 0xff) as int],
            cj0 == NIKON_XLAT_1@[count_key(count) as int],
            (cj, ck) == key_state(ci, cj0, (i - start) as nat),
            forall|j: int| 0 <= j < start ==> data@[j] == orig[j],
            forall|j: int| start <= j < i ==> data@[j] == orig[j] ^ key_byte(serial, count, (j - start) as nat),
            forall|j: int| i <= j < n ==> data@[j] == orig[j],
        decreases n - i,
    {
        assert((ci as u32) * (ck as u32) <= 255 * 255) by (nonlinear_arith)
            requires
                ci <= 255,
                ck <= 255,
        ;
        cj = ((cj as u32 + (ci as u32 * ck as u32) % 256) % 256) as u8;
        ck = ((ck as u32 + 1) % 256) as u8;
        proof {
            assert(key_state(ci, cj0, (i + 1 - start) as nat) == (cj, ck));
        }
        let b = data[i] ^ cj;
        data.set(i, b);
        i = i + 1;
    }
    proof {
        assert(data@ =~= nikon_crypt(orig, serial, count, start as nat));
    }
}

/// Decrypting twice with the same serial number, shutter count and start
/// gives back the original bytes: the cipher is its own inverse.
pub proof fn law_nikon_crypt_involution(data: Seq<u8>, serial: u32, count: u32, start: nat)
    ensures
        nikon_crypt(nikon_crypt(data, serial, count, start), serial, count, start) == data,
{
    let once = nikon_crypt(data, serial, count, start);
    let twice = nikon_crypt(once, serial, count, start);
    if data.len() > 0 && start < data.len() {
        assert forall|i: int| 0 <= i < data.len() implies twice[i] == data[i] by {
            if i >= start {
                let k = key_byte(serial, count, (i - start) as nat);
                let x = data[i];
                assert((x ^ k) ^ k == x) by (bit_vector);
            }
        }
        assert(twice =~= data);
    }
}

/// After `n` steps of the key stream the counter has advanced by `n` from 0x60.
proof fn lemma_key_counter(ci: u8, cj0: u8, n: nat)
    ensures
        key_state(ci, cj0, n).1 as int == (0x60 + n) % 256,
    decreases n,
{
    if n > 0 {
        lemma_key_counter(ci, cj0, (n - 1) as nat);
    }
}

/// Each key byte after the first adds `ci` times the counter to the one before.
proof fn lemma_key_byte_step(serial: u32, count: u32, n: nat)
    ensures
        key_byte(serial, count, n + 1) as int == (key_byte(serial, count, n) as int
            + NIKON_XLAT_0@[(serial & 0xff) as int] as int * ((0x60 + (n + 1)) % 256)) % 256,
{
    let ci = NIKON_XLAT_0@[(serial & 0xff) as int];
    let cj0 = NIKON_XLAT_1@[count_key(count) as int];
    lemma_key_counter(ci, cj0, n + 1);
    let prev = key_state(ci, cj0, n + 1);
    let next = key_state(ci, cj0, n + 2);
    assert(next.0 == (((prev.0 as int + (ci as int * prev.1 as int) % 256) % 256) as u8));
    let a = prev.0 as int;
    let ck = prev.1 as int;
    let x = next.0 as int;
    let c = ci as int;
    let m = (0x60 + (n + 1)) % 256;
    assert(x == (a + c * m) % 256) by (nonlinear_arith)
        requires
            x == (a + (c * ck) % 256) % 256,
            ck == m,
    ;
}

/// The first key byte.
proof fn lemma_key_byte_first(serial: u32, count: u32)
    ensures
        key_byte(serial, count, 0) as int == (NIKON_XLAT_1@[((count & 0xff) ^ ((count >> 8) & 0xff) ^ ((count
            >> 16) & 0xff) ^ ((count >> 24) & 0xff)) as int] as int + NIKON_XLAT_0@[(serial & 0xff) as int]
            as int * 0x60) % 256,
{
    let kx = (count & 0xff) ^ ((count >> 8) & 0xff) ^ ((count >> 16) & 0xff) ^ ((count >> 24) & 0xff);
    assert(kx < 256) by (bit_vector)
        requires
            kx == (count & 0xff) ^ ((count >> 8) & 0xff) ^ ((count >> 16) & 0xff) ^ ((count >> 24) & 0xff),
    ;
    assert(count_key(count) as int == kx as int);
    let ci = NIKON_XLAT_0@[(serial & 0xff) as int];
    let cj0 = NIKON_XLAT_1@[count_key(count) as int];
    assert(key_state(ci, cj0, 0) == (cj0, 0x60u8));
    let first = key_state(ci, cj0, 1);
    assert(first.0 == (((cj0 as int + (ci as int * 0x60) % 256) % 256) as u8));
    let x = first.0 as int;
    let a = cj0 as int;
    let c = ci as int;
    assert(x == (a + c * 0x60) % 256) by (nonlinear_arith)
        requires
            x == (a + (c * 0x60) % 256) % 256,
    ;
}

/// The Nikon key stream, read off what decryption does to the data: bytes
/// before `start` are kept; the key byte XORed into byte `start` is
/// `XLAT_1[k] + ci * 0x60` (mod 256), where `ci = XLAT_0[serial & 0xff]` and `k`
/// is the XOR of the four bytes of the shutter count; each following key
/// byte adds `ci` times a counter that starts at 0x60 and steps by one.
pub proof fn law_nikon_key_stream(data: Seq<u8>, serial: u32, count: u32, start: nat)
    requires
        start < data.len(),
    ensures
        ({
            let c = nikon_crypt(data, serial, count, start);
            let ci = NIKON_XLAT_0@[(serial & 0xff) as int] as int;
            let k = ((count & 0xff) ^ ((count >> 8) & 0xff) ^ ((count >> 16) & 0xff) ^ ((count >> 24)
                & 0xff)) as int;
            &&& c.len() == data.len()
            &&& forall|j: int| 0 <= j < start ==> c[j] == data[j]
            &&& (data[start as int] ^ c[start as int]) as int == (NIKON_XLAT_1@[k] as int + ci * 0x60) % 256
            &&& forall|i: int|
                #![trigger c[i]]
                start < i < data.len() ==> (data[i] ^ c[i]) as int == ((data[i - 1] ^ c[i - 1]) as int + ci
                    * ((0x60 + (i - start)) % 256)) % 256
        }),
{
    let c = nikon_crypt(data, serial, count, start);
    assert forall|i: int| start <= i < data.len() implies (data[i] ^ c[i]) == key_byte(
        serial,
        count,
        (i - start) as nat,
    ) by {
        let x = data[i];
        let kk = key_byte(serial, count, (i - start) as nat);
        assert(x ^ (x ^ kk) == kk) by (bit_vector);
    }
    lemma_key_byte_first(serial, count);
    assert forall|i: int| #![trigger c[i]] start < i < data.len() implies (data[i] ^ c[i]) as int == ((data[i
        - 1] ^ c[i - 1]) as int + NIKON_XLAT_0@[(serial & 0xff) as int] as int * ((0x60 + (i - start)) % 256))
        % 256 by {
        let n = (i - 1 - start) as nat;
        assert(data[i - 1] ^ c[i - 1] == key_byte(serial, count, n));
        assert(data[i] ^ c[i] == key_byte(serial, count, n + 1));
        lemma_key_byte_step(serial, count, n);
    }
}

/// A known vector: serial number 0x1234 and shutter count 5678 decrypt
/// `[0, 1, 2, 3, 4, 5, 6, 7]` from offset 4 to `[0, 1, 2, 3, 177, 189, 152, 96]`.
pub proof fn law_nikon_crypt_known_vector()
    ensures
        nikon_crypt(seq![0u8, 1, 2, 3, 4, 5, 6, 7], 0x1234, 5678, 4) == seq![0u8, 1, 2, 3, 177, 189, 152, 96],
{
    let d = seq![0u8, 1, 2, 3, 4, 5, 6, 7];
    assert(0x1234u32 & 0xff == 0x34) by (bit_vector);
    assert(count_key(5678) == 56) by (bit_vector);
    assert(NIKON_XLAT_0@[0x34] == 0xe3);
    assert(NIKON_XLAT_1@[56] == 0x95);
    assert(key_state(0xe3, 0x95, 0) == (0x95u8, 0x60u8));
    assert(key_state(0xe3, 0x95, 1) == (181u8, 0x61u8));
    assert(key_state(0xe3, 0x95, 2) == (184u8, 0x62u8));
    assert(key_state(0xe3, 0x95, 3) == (158u8, 0x63u8));
    assert(key_state(0xe3, 0x95, 4) == (103u8, 0x64u8));
    let c = nikon_crypt(d, 0x1234, 5678, 4);
    assert(c[4] == 4u8 ^ 181u8);
    assert(c[5] == 5u8 ^ 184u8);
    assert(c[6] == 6u8 ^ 158u8);
    assert(c[7] == 7u8 ^ 103u8);
    assert(4u8 ^ 181u8 == 177u8 && 5u8 ^ 184u8 == 189u8 && 6u8 ^ 158u8 == 152u8 && 7u8 ^ 103u8 == 96u8)
        by (bit_vector);
    assert(c =~= seq![0u8, 1, 2, 3, 177, 189, 152, 96]);
}

// ---------------------------------------------------------------------------
// ShotInfo shutter count
// ---------------------------------------------------------------------------

/// Offset and byte order (little-endian when true) of ShutterCount in a ShotInfo version.
pub open spec fn shot_info_shutter_offset(version: Seq<char>) -> Option<(usize, bool)> {
    if version == "0209"@ {
        Some((0x2c, false))
    } else if version == "0208"@ {
        None
    } else if version == "0213"@ {
        Some((0x2c, false))
    } else if version == "0210"@ {
        Some((0x2c, false))
    } else if version == "0214"@ {
        Some((0x2c, false))
    } else if version == "0218"@ {
        Some((0x2c, false))
    } else if version == "0215"@ {
        Some((0x2c, false))
    } else if version == "0216"@ {
        Some((0x2c, false))
    } else if version == "0212"@ {
        Some((0x2c, false))
    } else if version == "0220"@ {
        Some((0x2c, false))
    } else if version == "0221"@ {
        None
    } else if version == "0222"@ {
        Some((0x5c, false))
    } else if version == "0226"@ {
        None
    } else if version == "0233"@ {
        Some((0x100, true))
    } else if version == "0242"@ {
        None
    } else if version == "0243"@ {
        Some((0x1dc, true))
    } else if version == "0245"@ {
        Some((0x220, true))
    } else {
        None
    }
}

/// Looks up where ShutterCount sits in ShotInfo of a given version. Every D3/D300
/// variant ("0210") shares one offset, whatever the data size.
fn get_shot_info_shutter_offset(version: &str, data_len: usize) -> (r: Option<(usize, bool)>)
    ensures
        r == shot_info_shutter_offset(version@),
{
    if str_eq(version, "0209") {
        Some((0x2c, false))
    } else if str_eq(version, "0208") {
        None
    } else if str_eq(version, "0213") {
        Some((0x2c, false))
    } else if str_eq(version, "0210") {
        if data_len == 5399 || data_len == 5408 || data_len == 5412 || data_len == 5291 || data_len
            == 5303 {
            Some((0x2c, false))
        } else {
            Some((0x2c, false))
        }
    } else if str_eq(version, "0214") {
        Some((0x2c, false))
    } else if str_eq(version, "0218") {
        Some((0x2c, false))
    } else if str_eq(version, "0215") {
        Some((0x2c, false))
    } else if str_eq(version, "0216") {
        Some((0x2c, false))
    } else if str_eq(version, "0212") {
        Some((0x2c, false))
    } else if str_eq(version, "0220") {
        Some((0x2c, false))
    } else if str_eq(version, "0221") {
        None
    } else if str_eq(version, "0222") {
        Some((0x5c, false))
    } else if str_eq(version, "0226") {
        None
    } else if str_eq(version, "0233") {
        Some((0x100, true))
    } else if str_eq(version, "0242") {
        None
    } else if str_eq(version, "0243") {
        Some((0x1dc, true))
    } else if str_eq(version, "0245") {
        Some((0x220, true))
    } else {
        None
    }
}

/// The ShutterCount held in encrypted ShotInfo data.
pub open spec fn shot_info_shutter_count(serial: u32, count: u32, data: Seq<u8>) -> Option<u32> {
    if data.len() < 8 {
        None
    } else {
        match utf8_decode(data.take(4)) {
            None => None,
            Some(version) => match shot_info_shutter_offset(version) {
                None => None,
                Some((offset, little)) => if 4 + offset + 4 > data.len() {
                    None
                } else {
                    let plain = nikon_crypt(data, serial, count, 4);
                    let pos = 4 + offset;
                    Some(
                        u32_of(
                            plain.subrange(pos as int, plain.len() as int),
                            if little {
                                Endianness::Little
                            } else {
                                Endianness::Big
                            },
                        ),
                    )
                },
            },
        }
    }
}

/// Reads the ShutterCount from encrypted ShotInfo data, decrypting it with
/// the serial number and the shutter count tag.
pub fn parse_shot_info_shutter_count(serial: u32, shutter_count: u32, data: &[u8]) -> (r: Option<
    u32,
>)
    ensures
        r == shot_info_shutter_count(serial, shutter_count, data@),
{
    if data.len() < 8 {
        return None;
    }
    let version = match utf8_str(&data[0..4]) {
        Some(v) => v,
        None => {
            assert(data@.subrange(0, 4) =~= data@.take(4));
            return None;
        },
    };
    assert(data@.subrange(0, 4) =~= data@.take(4));
    let (offset, is_little_endian) = match get_shot_info_shutter_offset(version, data.len()) {
        Some(p) => p,
        None => return None,
    };
    if offset > data.len() || 4 + offset + 4 > data.len() {
        return None;
    }
    let mut decrypted = vstd::slice::slice_to_vec(data);
    nikon_decrypt(serial, shutter_count, &mut decrypted, 4);
    let pos = 4 + offset;
    let endian = if is_little_endian {
        Endianness::Little
    } else {
        Endianness::Big
    };
    Some(read_u32_at(decrypted.as_slice(), pos, endian))
}

// ---------------------------------------------------------------------------
// Model checks
// ---------------------------------------------------------------------------

/// Whether a model name is one of the Nikon Z series, as ExifTool tells them apart.
pub open spec fn z_series(u: Seq<char>) -> bool {
    ||| contains(u, "NIKON Z 30"@)
    ||| contains(u, "NIKON Z 5"@)
    ||| contains(u, "NIKON Z 50"@)
    ||| contains(u, "NIKON Z 6"@)
    ||| contains(u, "NIKON Z 7"@)
    ||| contains(u, "NIKON Z 8"@)
    ||| contains(u, "NIKON Z 9"@)
    ||| contains(u, "NIKON Z F"@)
    ||| contains(u, "NIKON Z FC"@)
    ||| contains(u, "NIKON Z5_2"@)
    ||| contains(u, "NIKON Z50_2"@)
    ||| contains(u, "NIKON Z6_2"@)
    ||| contains(u, "NIKON Z6_3"@)
    ||| contains(u, "NIKON Z7_2"@)
}

/// Whether the camera model is a Nikon Z-series camera (compared in upper case).
pub fn is_nikon_z_series(model: Option<&str>) -> (r: bool)
    ensures
        r == (match model {
            Some(m) => z_series(unicode_upper(m@)),
            None => false,
        }),
{
    match model {
        Some(m) => {
            let upper = to_upper(m);
            let u = upper.as_str();
            str_contains(u, "NIKON Z 30") || str_contains(u, "NIKON Z 5") || str_contains(
                u,
                "NIKON Z 50",
            ) || str_contains(u, "NIKON Z 6") || str_contains(u, "NIKON Z 7") || str_contains(
                u,
                "NIKON Z 8",
            ) || str_contains(u, "NIKON Z 9") || str_contains(u, "NIKON Z F") || str_contains(
                u,
                "NIKON Z FC",
            ) || str_contains(u, "NIKON Z5_2") || str_contains(u, "NIKON Z50_2") || str_contains(
                u,
                "NIKON Z6_2",
            ) || str_contains(u, "NIKON Z6_3") || str_contains(u, "NIKON Z7_2")
        },
        None => false,
    }
}

/// Whether ShotInfo of this model carries a time-zone location (Z 8, Z 9, Z6_3).
pub fn has_timezone_location_in_shotinfo(model: Option<&str>) -> (r: bool)
    ensures
        r == (match model {
            Some(m) => {
                let u = unicode_upper(m@);
                contains(u, "NIKON Z 8"@) || contains(u, "NIKON Z 9"@) || contains(u, "NIKON Z6_3"@)
            },
            None => false,
        }),
{
    match model {
        Some(m) => {
            let upper = to_upper(m);
            let u = upper.as_str();
            str_contains(u, "NIKON Z 8") || str_contains(u, "NIKON Z 9") || str_contains(
                u,
                "NIKON Z6_3",
            )
        },
        None => false,
    }
}

// ---------------------------------------------------------------------------
// Small sub-directories
// ---------------------------------------------------------------------------

/// Views of a list of name/value pairs.
pub open spec fn pairs_view(v: Seq<(&'static str, String)>) -> Seq<(&'static str, Seq<char>)> {
    v.map_values(|p: (&'static str, String)| (p.0, p.1@))
}

/// Appends a name/value pair.
pub fn push_pair(v: &mut Vec<(&'static str, String)>, name: &'static str, value: String)
    ensures
        pairs_view(final(v)@) == pairs_view(old(v)@).push((name, value@)),
{
    let ghost before = v@;
    let ghost vv = value@;
    v.push((name, value));
    proof {
        assert(pairs_view(v@) =~= pairs_view(before).push((name, vv)));
    }
}

/// VibrationReduction name.
pub open spec fn vibration_reduction_name(v: u8) -> &'static str {
    match v {
        0 => "n/a",
        1 => "On",
        2 => "Off",
        _ => "Unknown",
    }
}

/// Distinct vibration reduction codes that the table knows read as distinct names.
pub proof fn law_vibration_reduction_names_distinct(a: u8, b: u8)
    requires
        a != b,
        vibration_reduction_name(a) != "Unknown",
        vibration_reduction_name(b) != "Unknown",
    ensures
        vibration_reduction_name(a) != vibration_reduction_name(b),
{
    reveal_strlit("Off");
    reveal_strlit("On");
    reveal_strlit("n/a");
    reveal_strlit("Unknown");
}

/// VRMode name; Z-series cameras number the modes differently.
pub open spec fn vr_mode_name(v: u8, z: bool) -> &'static str {
    if z {
        match v {
            0 => "Off",
            1 => "Normal",
            2 => "Sport",
            _ => "Unknown",
        }
    } else {
        match v {
            0 => "Normal",
            1 => "On (1)",
            2 => "Active",
            3 => "Sport",
            _ => "Unknown",
        }
    }
}

/// The fields of VRInfo.
pub open spec fn vr_info_fields(data: Seq<u8>, z: bool) -> Seq<(&'static str, Seq<char>)> {
    if data.len() < 8 {
        seq![]
    } else {
        seq![
            ("VRInfoVersion", utf8_lossy(data.take(4))),
            ("VibrationReduction", vibration_reduction_name(data[4])@),
            ("VRMode", vr_mode_name(data[6], z)@),
        ]
    }
}

/// Parses VRInfo (tag 0x001F).
pub fn parse_vr_info(data: &[u8], _endian: Endianness, model: Option<&str>) -> (r: Vec<
    (&'static str, String),
>)
    ensures
        pairs_view(r@) == vr_info_fields(
            data@,
            match model {
                Some(m) => z_series(unicode_upper(m@)),
                None => false,
            },
        ),
{
    let mut tags: Vec<(&'static str, String)> = Vec::new();
    if data.len() < 8 {
        assert(pairs_view(tags@) =~= seq![]);
        return tags;
    }
    let version = lossy_string(&data[0..4]);
    assert(data@.subrange(0, 4) =~= data@.take(4));
    push_pair(&mut tags, "VRInfoVersion", version);
    let vr = match data[4] {
        0 => "n/a",
        1 => "On",
        2 => "Off",
        _ => "Unknown",
    };
    push_pair(&mut tags, "VibrationReduction", owned(vr));
    let z = is_nikon_z_series(model);
    let vr_mode = data[6];
    let mode = if z {
        match vr_mode {
            0 => "Off",
            1 => "Normal",
            2 => "Sport",
            _ => "Unknown",
        }
    } else {
        match vr_mode {
            0 => "Normal",
            1 => "On (1)",
            2 => "Active",
            3 => "Sport",
            _ => "Unknown",
        }
    };
    push_pair(&mut tags, "VRMode", owned(mode));
    proof {
        assert(pairs_view(tags@) =~= vr_info_fields(data@, z));
    }
    tags
}

/// AutoDistortionControl name.
pub open spec fn distortion_control_name(v: u8) -> &'static str {
    match v {
        0 => "Off",
        1 => "On",
        2 => "On (underwater)",
        _ => "Unknown",
    }
}

/// Distinct distortion control codes that the table knows read as distinct names.
pub proof fn law_distortion_control_names_distinct(a: u8, b: u8)
    requires
        a != b,
        distortion_control_name(a) != "Unknown",
        distortion_control_name(b) != "Unknown",
    ensures
        distortion_control_name(a) != distortion_control_name(b),
{
    reveal_strlit("Off");
    reveal_strlit("On");
    reveal_strlit("On (underwater)");
    reveal_strlit("Unknown");
}

/// The fields of DistortInfo.
pub open spec fn distort_info_fields(data: Seq<u8>) -> Seq<(&'static str, Seq<char>)> {
    if data.len() < 5 {
        seq![]
    } else {
        seq![
            ("DistortionVersion", utf8_lossy(data.take(4))),
            ("AutoDistortionControl", distortion_control_name(data[4])@),
        ]
    }
}

/// Parses DistortInfo (tag 0x002B).
pub fn parse_distort_info(data: &[u8]) -> (r: Vec<(&'static str, String)>)
    ensures
        pairs_view(r@) == distort_info_fields(data@),
{
    let mut tags: Vec<(&'static str, String)> = Vec::new();
    if data.len() < 5 {
        assert(pairs_view(tags@) =~= seq![]);
        return tags;
    }
    let version = lossy_string(&data[0..4]);
    assert(data@.subrange(0, 4) =~= data@.take(4));
    push_pair(&mut tags, "DistortionVersion", version);
    let adc = match data[4] {
        0 => "Off",
        1 => "On",
        2 => "On (underwater)",
        _ => "Unknown",
    };
    push_pair(&mut tags, "AutoDistortionControl", owned(adc));
    proof {
        assert(pairs_view(tags@) =~= distort_info_fields(data@));
    }
    tags
}

/// AFFineTune name.
pub open spec fn af_fine_tune_name(v: u8) -> &'static str {
    match v {
        0 => "Off",
        1 => "On (1)",
        2 => "On (2)",
        3 => "On (Zoom)",
        _ => "Unknown",
    }
}

/// Distinct af fine tune codes that the table knows read as distinct names.
pub proof fn law_af_fine_tune_names_distinct(a: u8, b: u8)
    requires
        a != b,
        af_fine_tune_name(a) != "Unknown",
        af_fine_tune_name(b) != "Unknown",
    ensures
        af_fine_tune_name(a) != af_fine_tune_name(b),
{
    reveal_strlit("Off");
    reveal_strlit("On (1)");
    reveal_strlit("On (2)");
    reveal_strlit("On (Zoom)");
    reveal_strlit("Unknown");
}

/// A fine-tune adjustment: '+' before positive values.
pub open spec fn adjust_text(b: u8) -> Seq<char> {
    let a = b as i8;
    if a > 0 {
        seq!['+'] + dec(a as nat)
    } else {
        int_dec(a as int)
    }
}

/// The fields of AFTune.
pub open spec fn af_tune_fields(data: Seq<u8>) -> Seq<(&'static str, Seq<char>)> {
    if data.len() == 0 {
        seq![]
    } else {
        let a = seq![("AFFineTune", af_fine_tune_name(data[0])@)];
        let b = if data.len() > 1 {
            a.push(
                (
                    "AFFineTuneIndex",
                    if data[1] == 255 {
                        "n/a"@
                    } else {
                        dec(data[1] as nat)
                    },
                ),
            )
        } else {
            a
        };
        let c = if data.len() > 2 {
            b.push(("AFFineTuneAdj", adjust_text(data[2])))
        } else {
            b
        };
        if data.len() > 3 {
            c.push(("AFFineTuneAdjTele", adjust_text(data[3])))
        } else {
            c
        }
    }
}

fn adjust_string(b: u8) -> (r: String)
    ensures
        r@ == adjust_text(b),
{
    let a = b as i8;
    if a > 0 {
        let mut s = owned("+");
        push_dec(&mut s, a as u64);
        proof {
            reveal_strlit("+");
            assert(s@ =~= adjust_text(b));
        }
        s
    } else {
        fmt_int(a as i64)
    }
}

/// Parses AFTune (tag 0x00B9).
pub fn parse_af_tune(data: &[u8]) -> (r: Vec<(&'static str, String)>)
    ensures
        pairs_view(r@) == af_tune_fields(data@),
{
    let mut tags: Vec<(&'static str, String)> = Vec::new();
    if data.len() == 0 {
        assert(pairs_view(tags@) =~= seq![]);
        return tags;
    }
    let name = match data[0] {
        0 => "Off",
        1 => "On (1)",
        2 => "On (2)",
        3 => "On (Zoom)",
        _ => "Unknown",
    };
    push_pair(&mut tags, "AFFineTune", owned(name));
    if data.len() > 1 {
        let index = data[1];
        let s = if index == 255 {
            owned("n/a")
        } else {
            fmt_dec(index as u64)
        };
        push_pair(&mut tags, "AFFineTuneIndex", s);
    }
    if data.len() > 2 {
        push_pair(&mut tags, "AFFineTuneAdj", adjust_string(data[2]));
    }
    if data.len() > 3 {
        push_pair(&mut tags, "AFFineTuneAdjTele", adjust_string(data[3]));
    }
    proof {
        assert(pairs_view(tags@) =~= af_tune_fields(data@));
    }
    tags
}

/// The fields of FaceDetect.
pub open spec fn face_detect_fields(data: Seq<u8>, e: Endianness) -> Seq<(&'static str, Seq<char>)> {
    let a: Seq<(&'static str, Seq<char>)> = if data.len() >= 6 {
        seq![
            (
                "FaceDetectFrameSize",
                dec(u16_of(data.subrange(2, data.len() as int), e) as nat) + seq![' '] + dec(
                    u16_of(data.subrange(4, data.len() as int), e) as nat,
                ),
            ),
        ]
    } else {
        seq![]
    };
    if data.len() >= 8 {
        a.push(("FacesDetected", dec(u16_of(data.subrange(6, data.len() as int), e) as nat)))
    } else {
        a
    }
}

/// Parses FaceDetect (tag 0x0021).
pub fn parse_face_detect(data: &[u8], endian: Endianness) -> (r: Vec<(&'static str, String)>)
    ensures
        pairs_view(r@) == face_detect_fields(data@, endian),
{
    let mut tags: Vec<(&'static str, String)> = Vec::new();
    proof {
        assert(pairs_view(tags@) =~= seq![]);
    }
    if data.len() >= 6 {
        let width = read_u16_at(data, 2, endian);
        let height = read_u16_at(data, 4, endian);
        let mut s = fmt_dec(width as u64);
        push_char(&mut s, ' ');
        push_dec(&mut s, height as u64);
        proof {
            assert(s@ =~= dec(width as nat) + seq![' '] + dec(height as nat));
        }
        push_pair(&mut tags, "FaceDetectFrameSize", s);
    }
    if data.len() >= 8 {
        let faces = read_u16_at(data, 6, endian);
        push_pair(&mut tags, "FacesDetected", fmt_dec(faces as u64));
    }
    proof {
        assert(pairs_view(tags@) =~= face_detect_fields(data@, endian));
    }
    tags
}

// ---------------------------------------------------------------------------
// World time
// ---------------------------------------------------------------------------

/// A signed integer as "{:03}" prints it: zero-padded to three characters, sign included.
pub open spec fn pad3_signed(n: int) -> Seq<char> {
    if n < 0 {
        seq!['-'] + zero_pad(dec((-n) as nat), 2)
    } else {
        zero_pad(dec(n as nat), 3)
    }
}

/// A time-zone offset in minutes as "+HH:MM" or "-HH:MM" (hours truncated toward zero).
pub open spec fn timezone_text(tz: int) -> Seq<char> {
    if tz >= 0 {
        seq!['+'] + zero_pad(dec((tz / 60) as nat), 2) + seq![':'] + zero_pad(dec((tz % 60) as nat), 2)
    } else {
        pad3_signed(-((-tz) / 60)) + seq![':'] + zero_pad(dec(((-tz) % 60) as nat), 2)
    }
}

/// DateDisplayFormat name.
pub open spec fn date_display_name(v: u8) -> &'static str {
    match v {
        0 => "Y/M/D",
        1 => "M/D/Y",
        2 => "D/M/Y",
        _ => "Unknown",
    }
}

/// Distinct date display codes that the table knows read as distinct names.
pub proof fn law_date_display_names_distinct(a: u8, b: u8)
    requires
        a != b,
        date_display_name(a) != "Unknown",
        date_display_name(b) != "Unknown",
    ensures
        date_display_name(a) != date_display_name(b),
{
    reveal_strlit("D/M/Y");
    reveal_strlit("M/D/Y");
    reveal_strlit("Y/M/D");
    reveal_strlit("Unknown");
}

/// The fields of WorldTime.
pub open spec fn world_time_fields(data: Seq<u8>, e: Endianness, z: bool) -> Seq<
    (&'static str, Seq<char>),
> {
    if data.len() < 4 {
        seq![]
    } else {
        let tz = u16_of(data, e) as i16;
        let tz_text = if z && timezone_location(tz) is Some {
            timezone_text(tz as int) + seq![' '] + timezone_location(tz).unwrap()@
        } else {
            timezone_text(tz as int)
        };
        seq![
            ("TimeZone", tz_text),
            (
                "DaylightSavings",
                if data[2] == 0 {
                    "No"@
                } else {
                    "Yes"@
                },
            ),
            ("DateDisplayFormat", date_display_name(data[3])@),
        ]
    }
}

fn timezone_string(tz: i16) -> (r: String)
    ensures
        r@ == timezone_text(tz as int),
{
    let mut s = String::new();
    if tz >= 0 {
        push_char(&mut s, '+');
        push_dec_pad(&mut s, (tz / 60) as u64, 2);
        push_char(&mut s, ':');
        push_dec_pad(&mut s, (tz % 60) as u64, 2);
    } else {
        let m: i32 = -(tz as i32);
        let hours: i32 = m / 60;
        if hours > 0 {
            push_char(&mut s, '-');
            push_dec_pad(&mut s, hours as u64, 2);
        } else {
            push_dec_pad(&mut s, 0, 3);
        }
        push_char(&mut s, ':');
        push_dec_pad(&mut s, (m % 60) as u64, 2);
    }
    proof {
        assert(s@ =~= timezone_text(tz as int));
    }
    s
}

/// Parses WorldTime (tag 0x0024); Z cameras also name the time zone's location.
pub fn parse_world_time(data: &[u8], endian: Endianness, is_z_camera: bool) -> (r: Vec<
    (&'static str, String),
>)
    ensures
        pairs_view(r@) == world_time_fields(data@, endian, is_z_camera),
{
    let mut tags: Vec<(&'static str, String)> = Vec::new();
    if data.len() < 4 {
        assert(pairs_view(tags@) =~= seq![]);
        return tags;
    }
    let tz_minutes = read_i16(data, endian);
    let mut tz = timezone_string(tz_minutes);
    if is_z_camera {
        if let Some(location) = get_timezone_location(tz_minutes) {
            push_char(&mut tz, ' ');
            push_str(&mut tz, location);
        }
    }
    let ghost tz_text = if is_z_camera && timezone_location(tz_minutes) is Some {
        timezone_text(tz_minutes as int) + seq![' '] + timezone_location(tz_minutes).unwrap()@
    } else {
        timezone_text(tz_minutes as int)
    };
    assert(tz@ =~= tz_text);
    push_pair(&mut tags, "TimeZone", tz);
    let dst = if data[2] == 0 {
        "No"
    } else {
        "Yes"
    };
    push_pair(&mut tags, "DaylightSavings", owned(dst));
    let fmt = match data[3] {
        0 => "Y/M/D",
        1 => "M/D/Y",
        2 => "D/M/Y",
        _ => "Unknown",
    };
    push_pair(&mut tags, "DateDisplayFormat", owned(fmt));
    proof {
        assert(pairs_view(tags@) =~= world_time_fields(data@, endian, is_z_camera));
    }
    tags
}

// ---------------------------------------------------------------------------
// ASCII tag values
// ---------------------------------------------------------------------------

/// A word found in a table, else the trimmed text.
pub open spec fn word_or(t: Seq<char>, found: Option<&'static str>) -> Seq<char> {
    match found {
        Some(w) => w@,
        None => t,
    }
}

/// `t` with a leading `from` replaced by `to`.
pub open spec fn replace_prefix(t: Seq<char>, from: Seq<char>, to: Seq<char>) -> Seq<char> {
    if t.len() >= from.len() && t.take(from.len() as int) == from {
        to + t.skip(from.len() as int)
    } else {
        t
    }
}

/// The text of an ASCII Nikon tag, decoded or tidied for its tag.
pub open spec fn nikon_ascii_text(tag: u16, v: Seq<char>) -> Seq<char> {
    let t = trim(v);
    if tag == NIKON_QUALITY {
        keyword_text(v, quality_word(keyword_key(v)))
    } else if tag == NIKON_WHITE_BALANCE {
        match white_balance_word(t) {
            Some(w) => w@,
            None => replace_prefix(t, "PRESET"@, "Preset"@),
        }
    } else if tag == NIKON_FOCUS_MODE {
        keyword_text(v, focus_mode_word(t))
    } else if tag == NIKON_FLASH_SETTING {
        keyword_text(v, flash_setting_word(keyword_key(v)))
    } else if tag == NIKON_SHARPNESS {
        keyword_text(v, sharpening_word(keyword_key(v)))
    } else if tag == NIKON_TONE_COMP {
        keyword_text(v, tone_comp_word(keyword_key(v)))
    } else if tag == NIKON_COLOR_MODE {
        keyword_text(v, color_mode_word(keyword_key(v)))
    } else if tag == NIKON_FLASH_TYPE {
        keyword_text(v, flash_type_word(keyword_key(v)))
    } else if tag == NIKON_NOISE_REDUCTION {
        keyword_text(v, noise_reduction_word(keyword_key(v)))
    } else if tag == NIKON_IMAGE_PROCESSING {
        keyword_text(v, image_processing_word(keyword_key(v)))
    } else if tag == NIKON_LIGHT_SOURCE {
        if t.len() == 0 {
            t
        } else {
            word_or(t, light_source_word(t))
        }
    } else if tag == NIKON_COLOR_HUE {
        replace_prefix(t, "MODE"@, "Mode"@)
    } else if tag == NIKON_ISO_SELECTION {
        keyword_text(v, iso_selection_word(keyword_key(v)))
    } else if tag == NIKON_IMAGE_STABILIZATION {
        image_stabilization_word(t)@
    } else if tag == NIKON_AUXILIARY_LENS {
        word_or(t, auxiliary_lens_word(t))
    } else if tag == NIKON_IMAGE_OPTIMIZATION {
        word_or(t, image_optimization_word(t))
    } else if tag == NIKON_VARI_PROGRAM {
        word_or(t, vari_program_word(t))
    } else if tag == NIKON_SCENE_MODE {
        word_or(t, scene_mode_word(t))
    } else if tag == NIKON_SERIAL_NUMBER || tag == NIKON_SERIAL_NUMBER_2 {
        replace_prefix(t, "NO= "@, "No= "@)
    } else if tag == NIKON_AF_RESPONSE {
        word_or(t, af_response_word(t))
    } else {
        t
    }
}

fn word_or_exec(t: &str, found: Option<&'static str>) -> (r: String)
    ensures
        r@ == word_or(t@, found),
{
    match found {
        Some(w) => owned(w),
        None => owned(t),
    }
}

fn replace_prefix_exec(t: &str, from: &str, to: &str) -> (r: String)
    ensures
        r@ == replace_prefix(t@, from@, to@),
{
    if starts_with(t, from) {
        let mut s = owned(to);
        let n = from.unicode_len();
        push_str(&mut s, skip_chars(t, n));
        s
    } else {
        owned(t)
    }
}

/// Decodes or tidies the text of an ASCII Nikon tag.
pub fn decode_nikon_ascii_value(tag_id: u16, value: &str) -> (r: String)
    ensures
        r@ == nikon_ascii_text(tag_id, value@),
{
    let t = trim_str(value);
    if tag_id == NIKON_QUALITY {
        decode_quality_exiftool(value)
    } else if tag_id == NIKON_WHITE_BALANCE {
        match white_balance_word_of(t) {
            Some(w) => owned(w),
            None => replace_prefix_exec(t, "PRESET", "Preset"),
        }
    } else if tag_id == NIKON_FOCUS_MODE {
        decode_focus_mode_exiftool(value)
    } else if tag_id == NIKON_FLASH_SETTING {
        decode_flash_setting_exiftool(value)
    } else if tag_id == NIKON_SHARPNESS {
        decode_sharpening_exiftool(value)
    } else if tag_id == NIKON_TONE_COMP {
        decode_tone_comp_exiftool(value)
    } else if tag_id == NIKON_COLOR_MODE {
        decode_color_mode_exiftool(value)
    } else if tag_id == NIKON_FLASH_TYPE {
        decode_flash_type_exiftool(value)
    } else if tag_id == NIKON_NOISE_REDUCTION {
        decode_noise_reduction_exiftool(value)
    } else if tag_id == NIKON_IMAGE_PROCESSING {
        decode_image_processing_exiftool(value)
    } else if tag_id == NIKON_LIGHT_SOURCE {
        if t.unicode_len() == 0 {
            owned(t)
        } else {
            word_or_exec(t, light_source_word_of(t))
        }
    } else if tag_id == NIKON_COLOR_HUE {
        replace_prefix_exec(t, "MODE", "Mode")
    } else if tag_id == NIKON_ISO_SELECTION {
        decode_iso_selection_exiftool(value)
    } else if tag_id == NIKON_IMAGE_STABILIZATION {
        owned(decode_image_stabilization_exiftool(value))
    } else if tag_id == NIKON_AUXILIARY_LENS {
        word_or_exec(t, auxiliary_lens_word_of(t))
    } else if tag_id == NIKON_IMAGE_OPTIMIZATION {
        word_or_exec(t, image_optimization_word_of(t))
    } else if tag_id == NIKON_VARI_PROGRAM {
        word_or_exec(t, vari_program_word_of(t))
    } else if tag_id == NIKON_SCENE_MODE {
        word_or_exec(t, scene_mode_word_of(t))
    } else if tag_id == NIKON_SERIAL_NUMBER || tag_id == NIKON_SERIAL_NUMBER_2 {
        replace_prefix_exec(t, "NO= ", "No= ")
    } else if tag_id == NIKON_AF_RESPONSE {
        word_or_exec(t, af_response_word_of(t))
    } else {
        owned(t)
    }
}

// ---------------------------------------------------------------------------
// Small sub-directories
// ---------------------------------------------------------------------------

/// The four-byte version string that starts most Nikon sub-directories.
pub open spec fn version_text(data: Seq<u8>) -> Seq<char> {
    utf8_lossy(data.take(4))
}

fn version_string(data: &[u8]) -> (r: String)
    requires
        data@.len() >= 4,
    ensures
        r@ == version_text(data@),
{
    let v = lossy_string(&data[0..4]);
    assert(data@.subrange(0, 4) =~= data@.take(4));
    v
}

/// HDR setting name.
pub open spec fn hdr_name(v: u8) -> &'static str {
    match v {
        0 => "Off",
        1 => "On (normal)",
        48 => "Auto",
        _ => "Unknown",
    }
}

/// Distinct hdr codes that the table knows read as distinct names.
pub proof fn law_hdr_names_distinct(a: u8, b: u8)
    requires
        a != b,
        hdr_name(a) != "Unknown",
        hdr_name(b) != "Unknown",
    ensures
        hdr_name(a) != hdr_name(b),
{
    reveal_strlit("Auto");
    reveal_strlit("Off");
    reveal_strlit("On (normal)");
    reveal_strlit("Unknown");
}

/// HDR level name.
pub open spec fn hdr_level_name(v: u8) -> &'static str {
    match v {
        0 => "Auto",
        1 => "1 EV",
        2 => "2 EV",
        3 => "3 EV",
        255 => "n/a",
        _ => "Unknown",
    }
}

/// Distinct hdr level codes that the table knows read as distinct names.
pub proof fn law_hdr_level_names_distinct(a: u8, b: u8)
    requires
        a != b,
        hdr_level_name(a) != "Unknown",
        hdr_level_name(b) != "Unknown",
    ensures
        hdr_level_name(a) != hdr_level_name(b),
{
    reveal_strlit("1 EV");
    reveal_strlit("2 EV");
    reveal_strlit("3 EV");
    reveal_strlit("Auto");
    reveal_strlit("n/a");
    reveal_strlit("Unknown");
}

/// HDR smoothing name.
pub open spec fn hdr_smoothing_name(v: u8) -> &'static str {
    match v {
        0 => "Off",
        1 => "Normal",
        2 => "Low",
        3 => "High",
        48 => "Auto",
        _ => "Unknown",
    }
}

/// Distinct hdr smoothing codes that the table knows read as distinct names.
pub proof fn law_hdr_smoothing_names_distinct(a: u8, b: u8)
    requires
        a != b,
        hdr_smoothing_name(a) != "Unknown",
        hdr_smoothing_name(b) != "Unknown",
    ensures
        hdr_smoothing_name(a) != hdr_smoothing_name(b),
{
    reveal_strlit("Auto");
    reveal_strlit("High");
    reveal_strlit("Low");
    reveal_strlit("Normal");
    reveal_strlit("Off");
    reveal_strlit("Unknown");
}

/// The fields of HDRInfo.
pub open spec fn hdr_info_fields(data: Seq<u8>) -> Seq<(&'static str, Seq<char>)> {
    if data.len() < 4 {
        seq![]
    } else {
        let v = version_text(data);
        let a = seq![("HDRInfoVersion", v)];
        let b = if data.len() > 4 {
            a.push(("HDR", hdr_name(data[4])@))
        } else {
            a
        };
        let c = if data.len() > 5 {
            b.push(("HDRLevel", hdr_level_name(data[5])@))
        } else {
            b
        };
        let d = if data.len() > 6 {
            c.push(("HDRSmoothing", hdr_smoothing_name(data[6])@))
        } else {
            c
        };
        if data.len() > 7 && v != "0100"@ {
            d.push(("HDRLevel2", hdr_level_name(data[7])@))
        } else {
            d
        }
    }
}

fn hdr_level_str(v: u8) -> (r: &'static str)
    ensures
        r == hdr_level_name(v),
{
    match v {
        0 => "Auto",
        1 => "1 EV",
        2 => "2 EV",
        3 => "3 EV",
        255 => "n/a",
        _ => "Unknown",
    }
}

/// Parses HDRInfo (tag 0x0035).
pub fn parse_hdr_info(data: &[u8]) -> (r: Vec<(&'static str, String)>)
    ensures
        pairs_view(r@) == hdr_info_fields(data@),
{
    let mut tags: Vec<(&'static str, String)> = Vec::new();
    if data.len() < 4 {
        assert(pairs_view(tags@) =~= seq![]);
        return tags;
    }
    let version = version_string(data);
    let is_0100 = str_eq(version.as_str(), "0100");
    push_pair(&mut tags, "HDRInfoVersion", version);
    proof {
        assert(pairs_view(tags@) =~= seq![("HDRInfoVersion", version_text(data@))]);
    }
    if data.len() > 4 {
        let h: &str = match data[4] {
            0 => "Off",
            1 => "On (normal)",
            48 => "Auto",
            _ => "Unknown",
        };
        push_pair(&mut tags, "HDR", owned(h));
    }
    if data.len() > 5 {
        push_pair(&mut tags, "HDRLevel", owned(hdr_level_str(data[5])));
    }
    if data.len() > 6 {
        let sm: &str = match data[6] {
            0 => "Off",
            1 => "Normal",
            2 => "Low",
            3 => "High",
            48 => "Auto",
            _ => "Unknown",
        };
        push_pair(&mut tags, "HDRSmoothing", owned(sm));
    }
    if data.len() > 7 && !is_0100 {
        push_pair(&mut tags, "HDRLevel2", owned(hdr_level_str(data[7])));
    }
    proof {
        assert(pairs_view(tags@) =~= hdr_info_fields(data@));
    }
    tags
}

/// MultiExposureMode name.
pub open spec fn multi_exposure_mode_name(v: u32) -> &'static str {
    match v {
        0 => "Off",
        1 => "Multiple Exposure",
        2 => "Image Overlay",
        3 => "HDR",
        _ => "Unknown",
    }
}

/// Distinct multi exposure mode codes that the table knows read as distinct names.
pub proof fn law_multi_exposure_mode_names_distinct(a: u32, b: u32)
    requires
        a != b,
        multi_exposure_mode_name(a) != "Unknown",
        multi_exposure_mode_name(b) != "Unknown",
    ensures
        multi_exposure_mode_name(a) != multi_exposure_mode_name(b),
{
    reveal_strlit("HDR");
    reveal_strlit("Image Overlay");
    reveal_strlit("Multiple Exposure");
    reveal_strlit("Off");
    reveal_strlit("Unknown");
}

/// The fields of MultiExposure; its numbers are big-endian in version 0100
/// and little-endian otherwise.
pub open spec fn multi_exposure_fields(data: Seq<u8>) -> Seq<(&'static str, Seq<char>)> {
    if data.len() < 4 {
        seq![]
    } else {
        let v = version_text(data);
        let e = if v != "0100"@ {
            Endianness::Little
        } else {
            Endianness::Big
        };
        let a = seq![("MultiExposureVersion", v)];
        let b = if data.len() >= 8 {
            a.push(("MultiExposureMode", multi_exposure_mode_name(at_u32(data, 4, e))@))
        } else {
            a
        };
        let c = if data.len() >= 12 {
            b.push(("MultiExposureShots", dec(at_u32(data, 8, e) as nat)))
        } else {
            b
        };
        if data.len() >= 16 {
            c.push(
                (
                    "MultiExposureAutoGain",
                    if at_u32(data, 12, e) == 0 {
                        "Off"@
                    } else {
                        "On"@
                    },
                ),
            )
        } else {
            c
        }
    }
}

/// Parses MultiExposure (tag 0x00B0).
pub fn parse_multi_exposure(data: &[u8]) -> (r: Vec<(&'static str, String)>)
    ensures
        pairs_view(r@) == multi_exposure_fields(data@),
{
    let mut tags: Vec<(&'static str, String)> = Vec::new();
    if data.len() < 4 {
        assert(pairs_view(tags@) =~= seq![]);
        return tags;
    }
    let version = version_string(data);
    let e = if !str_eq(version.as_str(), "0100") {
        Endianness::Little
    } else {
        Endianness::Big
    };
    push_pair(&mut tags, "MultiExposureVersion", version);
    if data.len() >= 8 {
        let mode = read_u32_at(data, 4, e);
        let m: &str = match mode {
            0 => "Off",
            1 => "Multiple Exposure",
            2 => "Image Overlay",
            3 => "HDR",
            _ => "Unknown",
        };
        push_pair(&mut tags, "MultiExposureMode", owned(m));
    }
    if data.len() >= 12 {
        push_pair(&mut tags, "MultiExposureShots", fmt_dec(read_u32_at(data, 8, e) as u64));
    }
    if data.len() >= 16 {
        let g = if read_u32_at(data, 12, e) == 0 {
            "Off"
        } else {
            "On"
        };
        push_pair(&mut tags, "MultiExposureAutoGain", owned(g));
    }
    proof {
        assert(pairs_view(tags@) =~= multi_exposure_fields(data@));
    }
    tags
}

/// Length of the FirmwareVersion that follows a ShotInfo version.
pub open spec fn firmware_len(v: Seq<char>) -> nat {
    if v == "0246"@ || v == "0249"@ || v == "0250"@ || v == "0251"@ || v == "0252"@ || v
        == "0253"@ || v == "0254"@ || v == "0255"@ {
        8
    } else {
        5
    }
}

pub fn firmware_len_exec(v: &str) -> (r: usize)
    ensures
        r == firmware_len(v@),
{
    if str_eq(v, "0246") || str_eq(v, "0249") || str_eq(v, "0250") || str_eq(v, "0251") || str_eq(
        v,
        "0252",
    ) || str_eq(v, "0253") || str_eq(v, "0254") || str_eq(v, "0255") {
        8
    } else {
        5
    }
}

/// The firmware text of ShotInfo: its bytes decoded, trailing NULs and
/// whitespace dropped; `None` when it holds no digit.
pub open spec fn firmware_text(b: Seq<u8>) -> Option<Seq<char>> {
    let f = utf8_lossy(b);
    if any_digit_char(f) {
        Some(trim_end(strip_nuls(f)))
    } else {
        None
    }
}

pub fn firmware_string(b: &[u8]) -> (r: Option<String>)
    ensures
        match r {
            Some(s) => firmware_text(b@) == Some(s@),
            None => firmware_text(b@) is None,
        },
{
    let f = lossy_string(b);
    if any_digit_str(f.as_str()) {
        let t = trim_end_nuls(f.as_str());
        Some(owned(trim_end_str(t.as_str())))
    } else {
        None
    }
}

/// The fields of an unencrypted ShotInfo: its version and firmware.
pub open spec fn shot_info_basic_fields(data: Seq<u8>) -> Seq<(&'static str, Seq<char>)> {
    if data.len() < 4 {
        seq![]
    } else {
        let v = version_text(data);
        if all_digit_chars(v) {
            let a = seq![("ShotInfoVersion", v)];
            let end = 4 + firmware_len(v);
            if data.len() >= end {
                match firmware_text(data.subrange(4, end as int)) {
                    Some(f) => a.push(("FirmwareVersion", f)),
                    None => a,
                }
            } else {
                a
            }
        } else {
            seq![]
        }
    }
}

/// Parses an unencrypted ShotInfo (tag 0x0091).
pub fn parse_shot_info_basic(data: &[u8]) -> (r: Vec<(&'static str, String)>)
    ensures
        pairs_view(r@) == shot_info_basic_fields(data@),
{
    let mut tags: Vec<(&'static str, String)> = Vec::new();
    if data.len() < 4 {
        assert(pairs_view(tags@) =~= seq![]);
        return tags;
    }
    let version = version_string(data);
    if !all_digits_str(version.as_str()) {
        assert(pairs_view(tags@) =~= seq![]);
        return tags;
    }
    let end = 4 + firmware_len_exec(version.as_str());
    push_pair(&mut tags, "ShotInfoVersion", version);
    if data.len() >= end {
        if let Some(f) = firmware_string(&data[4..end]) {
            push_pair(&mut tags, "FirmwareVersion", f);
        }
    }
    proof {
        assert(pairs_view(tags@) =~= shot_info_basic_fields(data@));
    }
    tags
}

/// The fields of FileInfo. Its numbers are read little-endian when only that
/// order gives a directory number from 99 to 999 and a file number up to 9999,
/// big-endian otherwise.
pub open spec fn file_info_fields(data: Seq<u8>) -> Seq<(&'static str, Seq<char>)> {
    if data.len() < 4 {
        seq![]
    } else {
        let v = version_text(data);
        let a = if all_digit_chars(v) {
            seq![("FileInfoVersion", v)]
        } else {
            seq![]
        };
        if data.len() >= 10 {
            let dl = at_u16(data, 6, Endianness::Little);
            let fl = at_u16(data, 8, Endianness::Little);
            let db = at_u16(data, 6, Endianness::Big);
            let fb = at_u16(data, 8, Endianness::Big);
            let is_le = 99 <= dl <= 999 && fl <= 9999;
            let is_be = 99 <= db <= 999 && fb <= 9999;
            let e = if is_le && !is_be {
                Endianness::Little
            } else {
                Endianness::Big
            };
            a.push(("MemoryCardNumber", dec(at_u16(data, 4, e) as nat))).push(
                ("DirectoryNumber", zero_pad(dec(at_u16(data, 6, e) as nat), 3)),
            ).push(("FileNumber", zero_pad(dec(at_u16(data, 8, e) as nat), 4)))
        } else {
            a
        }
    }
}

/// Parses FileInfo (tag 0x00B8).
pub fn parse_file_info(data: &[u8]) -> (r: Vec<(&'static str, String)>)
    ensures
        pairs_view(r@) == file_info_fields(data@),
{
    let mut tags: Vec<(&'static str, String)> = Vec::new();
    if data.len() < 4 {
        assert(pairs_view(tags@) =~= seq![]);
        return tags;
    }
    let version = version_string(data);
    if all_digits_str(version.as_str()) {
        push_pair(&mut tags, "FileInfoVersion", version);
    }
    proof {
        assert(pairs_view(tags@) =~= (if all_digit_chars(version_text(data@)) {
            seq![("FileInfoVersion", version_text(data@))]
        } else {
            seq![]
        }));
    }
    if data.len() >= 10 {
        let dl = read_u16_at(data, 6, Endianness::Little);
        let fl = read_u16_at(data, 8, Endianness::Little);
        let db = read_u16_at(data, 6, Endianness::Big);
        let fb = read_u16_at(data, 8, Endianness::Big);
        let is_le = 99 <= dl && dl <= 999 && fl <= 9999;
        let is_be = 99 <= db && db <= 999 && fb <= 9999;
        let e = if is_le && !is_be {
            Endianness::Little
        } else {
            Endianness::Big
        };
        push_pair(&mut tags, "MemoryCardNumber", fmt_dec(read_u16_at(data, 4, e) as u64));
        let mut d = String::new();
        push_dec_pad(&mut d, read_u16_at(data, 6, e) as u64, 3);
        push_pair(&mut tags, "DirectoryNumber", d);
        let mut f = String::new();
        push_dec_pad(&mut f, read_u16_at(data, 8, e) as u64, 4);
        push_pair(&mut tags, "FileNumber", f);
    }
    proof {
        assert(pairs_view(tags@) =~= file_info_fields(data@));
    }
    tags
}

/// The fields of RetouchInfo.
pub open spec fn retouch_info_fields(data: Seq<u8>) -> Seq<(&'static str, Seq<char>)> {
    if data.len() < 4 {
        seq![]
    } else {
        let v = version_text(data);
        if all_digit_chars(v) {
            let a = seq![("RetouchInfoVersion", v)];
            if lex_ge(v, "0200"@) && data.len() >= 6 && data[5] as i8 == -1 {
                a.push(("RetouchNEFProcessing", "Off"@))
            } else if lex_ge(v, "0200"@) && data.len() >= 6 && data[5] as i8 == 1 {
                a.push(("RetouchNEFProcessing", "On"@))
            } else {
                a
            }
        } else {
            seq![]
        }
    }
}

/// Parses RetouchInfo (tag 0x00BB).
pub fn parse_retouch_info(data: &[u8]) -> (r: Vec<(&'static str, String)>)
    ensures
        pairs_view(r@) == retouch_info_fields(data@),
{
    let mut tags: Vec<(&'static str, String)> = Vec::new();
    if data.len() < 4 {
        assert(pairs_view(tags@) =~= seq![]);
        return tags;
    }
    let version = version_string(data);
    if !all_digits_str(version.as_str()) {
        assert(pairs_view(tags@) =~= seq![]);
        return tags;
    }
    let newer = str_ge(version.as_str(), "0200");
    push_pair(&mut tags, "RetouchInfoVersion", version);
    if newer && data.len() >= 6 {
        let p = data[5] as i8;
        if p == -1 {
            push_pair(&mut tags, "RetouchNEFProcessing", owned("Off"));
        } else if p == 1 {
            push_pair(&mut tags, "RetouchNEFProcessing", owned("On"));
        }
    }
    proof {
        assert(pairs_view(tags@) =~= retouch_info_fields(data@));
    }
    tags
}

/// CropHiSpeed mode name.
pub open spec fn crop_mode_name(v: u16) -> &'static str {
    match v {
        0 => "Off",
        1 => "1.3x Crop",
        2 => "DX Crop",
        3 => "5:4 Crop",
        4 => "3:2 Crop",
        6 => "16:9 Crop",
        8 => "2.7x Crop",
        9 => "DX Movie Crop",
        10 => "1.3x Movie Crop",
        11 => "FX Uncropped",
        12 => "DX Uncropped",
        15 => "1.5x Movie Crop",
        17 => "1:1 Crop",
        _ => "Unknown",
    }
}

/// Distinct crop mode codes that the table knows read as distinct names.
pub proof fn law_crop_mode_names_distinct(a: u16, b: u16)
    requires
        a != b,
        crop_mode_name(a) != "Unknown",
        crop_mode_name(b) != "Unknown",
    ensures
        crop_mode_name(a) != crop_mode_name(b),
{
    reveal_strlit("1.3x Crop");
    reveal_strlit("1.3x Movie Crop");
    reveal_strlit("1.5x Movie Crop");
    reveal_strlit("16:9 Crop");
    reveal_strlit("1:1 Crop");
    reveal_strlit("2.7x Crop");
    reveal_strlit("3:2 Crop");
    reveal_strlit("5:4 Crop");
    reveal_strlit("DX Crop");
    reveal_strlit("DX Movie Crop");
    reveal_strlit("DX Uncropped");
    reveal_strlit("FX Uncropped");
    reveal_strlit("Off");
    reveal_strlit("Unknown");
}

fn crop_mode_str(v: u16) -> (r: &'static str)
    ensures
        r == crop_mode_name(v),
{
    match v {
        0 => "Off",
        1 => "1.3x Crop",
        2 => "DX Crop",
        3 => "5:4 Crop",
        4 => "3:2 Crop",
        6 => "16:9 Crop",
        8 => "2.7x Crop",
        9 => "DX Movie Crop",
        10 => "1.3x Movie Crop",
        11 => "FX Uncropped",
        12 => "DX Uncropped",
        15 => "1.5x Movie Crop",
        17 => "1:1 Crop",
        _ => "Unknown",
    }
}

/// CropHiSpeed: "Mode (WxH cropped to WxH at pixel X,Y)" from seven values.
pub open spec fn crop_text(v: Seq<u16>) -> Seq<char> {
    crop_mode_name(v[0])@ + " ("@ + dec(v[1] as nat) + seq!['x'] + dec(v[2] as nat)
        + " cropped to "@ + dec(v[3] as nat) + seq!['x'] + dec(v[4] as nat) + " at pixel "@ + dec(
        v[5] as nat,
    ) + seq![','] + dec(v[6] as nat) + seq![')']
}

fn crop_string(v: &[u16]) -> (r: String)
    requires
        v@.len() >= 7,
    ensures
        r@ == crop_text(v@),
{
    let mut s = owned(crop_mode_str(v[0]));
    push_str(&mut s, " (");
    push_dec(&mut s, v[1] as u64);
    push_char(&mut s, 'x');
    push_dec(&mut s, v[2] as u64);
    push_str(&mut s, " cropped to ");
    push_dec(&mut s, v[3] as u64);
    push_char(&mut s, 'x');
    push_dec(&mut s, v[4] as u64);
    push_str(&mut s, " at pixel ");
    push_dec(&mut s, v[5] as u64);
    push_char(&mut s, ',');
    push_dec(&mut s, v[6] as u64);
    push_char(&mut s, ')');
    proof {
        assert(s@ =~= crop_text(v@));
    }
    s
}

/// The fields of CropHiSpeed read from bytes.
pub open spec fn crop_hi_speed_fields(data: Seq<u8>, e: Endianness) -> Seq<(&'static str, Seq<char>)> {
    if data.len() < 14 {
        seq![]
    } else {
        seq![("CropHiSpeed", crop_text(read_shorts(data, 7, e)))]
    }
}

/// Parses CropHiSpeed from its bytes.
pub fn parse_crop_hi_speed(data: &[u8], endian: Endianness) -> (r: Vec<(&'static str, String)>)
    ensures
        pairs_view(r@) == crop_hi_speed_fields(data@, endian),
{
    let mut tags: Vec<(&'static str, String)> = Vec::new();
    if data.len() < 14 {
        assert(pairs_view(tags@) =~= seq![]);
        return tags;
    }
    let v = read_shorts_exec(data, 7, endian);
    push_pair(&mut tags, "CropHiSpeed", crop_string(v.as_slice()));
    proof {
        assert(pairs_view(tags@) =~= crop_hi_speed_fields(data@, endian));
    }
    tags
}

// ---------------------------------------------------------------------------
// Picture control
// ---------------------------------------------------------------------------

/// Whether a character is a vowel (Y included), in either case.
pub open spec fn is_vowel(c: char) -> bool {
    c == 'A' || c == 'E' || c == 'I' || c == 'O' || c == 'U' || c == 'Y' || c == 'a' || c == 'e'
        || c == 'i' || c == 'o' || c == 'u' || c == 'y'
}

/// Whether the text holds a vowel.
pub open spec fn has_vowel(s: Seq<char>) -> bool {
    exists|i: int| 0 <= i < s.len() && is_vowel(#[trigger] s[i])
}

/// A segment of a picture-control name: title case when it has a vowel,
/// upper case otherwise.
pub open spec fn pc_segment(seg: Seq<char>) -> Seq<char> {
    if seg.len() == 0 {
        seg
    } else if has_vowel(seg) {
        unicode_upper(seq![seg[0]]) + unicode_lower(seg.drop_first())
    } else {
        unicode_upper(seg)
    }
}

/// A word of a picture-control name, formatted piece by piece between hyphens.
pub open spec fn pc_word(w: Seq<char>) -> Seq<char> {
    join(split_pieces(w, '-').map_values(|p: Seq<char>| pc_segment(p)), "-"@)
}

/// A picture-control name as ExifTool formats it: word by word.
pub open spec fn pc_string(s: Seq<char>) -> Seq<char> {
    join(ws_words(s).map_values(|w: Seq<char>| pc_word(w)), " "@)
}

fn has_vowel_exec(s: &str) -> (r: bool)
    ensures
        r == has_vowel(s@),
{
    let n = s.unicode_len();
    let mut i: usize = 0;
    while i < n
        invariant
            n == s@.len(),
            i <= n,
            forall|k: int| 0 <= k < i ==> !is_vowel(#[trigger] s@[k]),
        decreases n - i,
    {
        let c = s.get_char(i);
        if c == 'A' || c == 'E' || c == 'I' || c == 'O' || c == 'U' || c == 'Y' || c == 'a' || c
            == 'e' || c == 'i' || c == 'o' || c == 'u' || c == 'y' {
            assert(is_vowel(s@[i as int]));
            return true;
        }
        i = i + 1;
    }
    false
}

fn format_segment(seg: &str) -> (r: String)
    ensures
        r@ == pc_segment(seg@),
{
    let n = seg.unicode_len();
    if n == 0 {
        return String::new();
    }
    if has_vowel_exec(seg) {
        let first = seg.substring_char(0, 1);
        let rest = seg.substring_char(1, n);
        assert(first@ =~= seq![seg@[0]]);
        assert(rest@ =~= seg@.drop_first());
        let mut s = to_upper(first);
        let low = to_lower(rest);
        push_str(&mut s, low.as_str());
        s
    } else {
        to_upper(seg)
    }
}

fn format_word(w: &str) -> (r: String)
    ensures
        r@ == pc_word(w@),
{
    let pieces = split_at_char(w, '-');
    let mut segs: Vec<String> = Vec::new();
    let mut i: usize = 0;
    while i < pieces.len()
        invariant
            i <= pieces@.len(),
            views(segs@) =~= views(pieces@).take(i as int).map_values(
                |p: Seq<char>| pc_segment(p),
            ),
        decreases pieces.len() - i,
    {
        let ghost before = segs@;
        let f = format_segment(pieces[i].as_str());
        segs.push(f);
        proof {
            assert(views(segs@) =~= views(before).push(pc_segment(pieces@[i as int]@)));
            assert(views(pieces@).take(i + 1) =~= views(pieces@).take(i as int).push(
                pieces@[i as int]@,
            ));
        }
        i = i + 1;
    }
    proof {
        assert(views(pieces@).take(i as int) =~= views(pieces@));
    }
    join_strings(&segs, "-")
}

/// Formats a picture-control name word by word.
fn format_picture_control_string(s: &str) -> (r: String)
    ensures
        r@ == pc_string(s@),
{
    let words = split_words(s);
    let mut out: Vec<String> = Vec::new();
    let mut i: usize = 0;
    while i < words.len()
        invariant
            i <= words@.len(),
            views(out@) =~= views(words@).take(i as int).map_values(|w: Seq<char>| pc_word(w)),
        decreases words.len() - i,
    {
        let ghost before = out@;
        let f = format_word(words[i].as_str());
        out.push(f);
        proof {
            assert(views(out@) =~= views(before).push(pc_word(words@[i as int]@)));
            assert(views(words@).take(i + 1) =~= views(words@).take(i as int).push(
                words@[i as int]@,
            ));
        }
        i = i + 1;
    }
    proof {
        assert(views(words@).take(i as int) =~= views(words@));
    }
    join_strings(&out, " ")
}

/// A 20-byte name field: decoded leniently, trailing NULs dropped.
pub open spec fn name_field(data: Seq<u8>, off: int) -> Seq<char> {
    strip_nuls(utf8_lossy(data.subrange(off, off + 20)))
}

/// PictureControlName and PictureControlBase, when not empty.
pub open spec fn pc_name_fields(data: Seq<u8>, name_off: int, base_off: int) -> Seq<
    (&'static str, Seq<char>),
> {
    let n = name_field(data, name_off);
    let b = name_field(data, base_off);
    (if n.len() > 0 {
        seq![("PictureControlName", pc_string(n))]
    } else {
        seq![]
    }) + (if b.len() > 0 {
        seq![("PictureControlBase", pc_string(b))]
    } else {
        seq![]
    })
}

fn name_field_exec(data: &[u8], off: usize) -> (r: String)
    requires
        off + 20 <= data.len(),
    ensures
        r@ == name_field(data@, off as int),
{
    let l = lossy_string(&data[off..off + 20]);
    trim_end_nuls(l.as_str())
}

fn parse_picture_control_name_base(
    tags: &mut Vec<(&'static str, String)>,
    data: &[u8],
    name_offset: usize,
    base_offset: usize,
)
    requires
        name_offset + 20 <= data.len(),
        base_offset + 20 <= data.len(),
    ensures
        pairs_view(final(tags)@) == pairs_view(old(tags)@) + pc_name_fields(
            data@,
            name_offset as int,
            base_offset as int,
        ),
{
    let ghost start = pairs_view(tags@);
    let name = name_field_exec(data, name_offset);
    if name.unicode_len() > 0 {
        push_pair(tags, "PictureControlName", format_picture_control_string(name.as_str()));
    }
    let base = name_field_exec(data, base_offset);
    if base.unicode_len() > 0 {
        push_pair(tags, "PictureControlBase", format_picture_control_string(base.as_str()));
    }
    proof {
        assert(pairs_view(tags@) =~= start + pc_name_fields(
            data@,
            name_offset as int,
            base_offset as int,
        ));
    }
}

/// PictureControlAdjust name.
pub open spec fn pc_adjust_name(v: u8) -> &'static str {
    match v {
        0 => "Default Settings",
        1 => "Quick Adjust",
        2 => "Full Control",
        _ => "Unknown",
    }
}

/// Distinct pc adjust codes that the table knows read as distinct names.
pub proof fn law_pc_adjust_names_distinct(a: u8, b: u8)
    requires
        a != b,
        pc_adjust_name(a) != "Unknown",
        pc_adjust_name(b) != "Unknown",
    ensures
        pc_adjust_name(a) != pc_adjust_name(b),
{
    reveal_strlit("Default Settings");
    reveal_strlit("Full Control");
    reveal_strlit("Quick Adjust");
    reveal_strlit("Unknown");
}

fn pc_adjust_str(v: u8) -> (r: &'static str)
    ensures
        r == pc_adjust_name(v),
{
    match v {
        0 => "Default Settings",
        1 => "Quick Adjust",
        2 => "Full Control",
        _ => "Unknown",
    }
}

/// FilterEffect name.
pub open spec fn filter_effect_name(v: u8) -> &'static str {
    match v {
        0x80 => "Off",
        0x81 => "Yellow",
        0x82 => "Orange",
        0x83 => "Red",
        0x84 => "Green",
        0xff => "n/a",
        _ => "Unknown",
    }
}

/// Distinct filter effect codes that the table knows read as distinct names.
pub proof fn law_filter_effect_names_distinct(a: u8, b: u8)
    requires
        a != b,
        filter_effect_name(a) != "Unknown",
        filter_effect_name(b) != "Unknown",
    ensures
        filter_effect_name(a) != filter_effect_name(b),
{
    reveal_strlit("Green");
    reveal_strlit("Off");
    reveal_strlit("Orange");
    reveal_strlit("Red");
    reveal_strlit("Yellow");
    reveal_strlit("n/a");
    reveal_strlit("Unknown");
}

fn filter_effect_str(v: u8) -> (r: &'static str)
    ensures
        r == filter_effect_name(v),
{
    match v {
        0x80 => "Off",
        0x81 => "Yellow",
        0x82 => "Orange",
        0x83 => "Red",
        0x84 => "Green",
        0xff => "n/a",
        _ => "Unknown",
    }
}

/// A picture-control setting stored with 0x80 as zero: n/a, Auto and User for
/// the marker values, "Normal" (or "None") for zero, else the signed number.
pub open spec fn pc_value_text(raw: u8, use_none: bool) -> Seq<char> {
    if raw == 0xff {
        "n/a"@
    } else if raw == 0 {
        "Auto"@
    } else if raw == 1 {
        "User"@
    } else if raw == 0x80 {
        if use_none {
            "None"@
        } else {
            "Normal"@
        }
    } else {
        int_dec(raw - 128)
    }
}

fn pc_value_string(raw: u8, use_none: bool) -> (r: String)
    ensures
        r@ == pc_value_text(raw, use_none),
{
    if raw == 0xff {
        owned("n/a")
    } else if raw == 0 {
        owned("Auto")
    } else if raw == 1 {
        owned("User")
    } else if raw == 0x80 {
        if use_none {
            owned("None")
        } else {
            owned("Normal")
        }
    } else {
        fmt_int(raw as i64 - 128)
    }
}

/// A setting in quarter steps: as `{:+.2}` prints the quarter.
pub open spec fn pc_div_text(raw: u8) -> Seq<char> {
    if raw == 0xff {
        "n/a"@
    } else if raw == 0 {
        "Auto"@
    } else if raw == 1 {
        "User"@
    } else if raw == 0x80 {
        "None"@
    } else {
        let v = raw - 128;
        let a = if v < 0 {
            -v
        } else {
            v
        };
        (if v < 0 {
            seq!['-']
        } else {
            seq!['+']
        }) + dec((a / 4) as nat) + seq!['.'] + zero_pad(dec(((a % 4) * 25) as nat), 2)
    }
}

fn pc_div_string(raw: u8) -> (r: String)
    ensures
        r@ == pc_div_text(raw),
{
    if raw == 0xff {
        owned("n/a")
    } else if raw == 0 {
        owned("Auto")
    } else if raw == 1 {
        owned("User")
    } else if raw == 0x80 {
        owned("None")
    } else {
        let v: i64 = raw as i64 - 128;
        let a: i64 = if v < 0 {
            -v
        } else {
            v
        };
        let mut s = String::new();
        push_char(&mut s, if v < 0 {
            '-'
        } else {
            '+'
        });
        push_dec(&mut s, (a / 4) as u64);
        push_char(&mut s, '.');
        push_dec_pad(&mut s, ((a % 4) * 25) as u64, 2);
        proof {
            assert(s@ =~= pc_div_text(raw));
        }
        s
    }
}

/// Appends `name` with the picture-control setting at `offset`, when the data reaches it.
fn parse_pc_value(
    tags: &mut Vec<(&'static str, String)>,
    data: &[u8],
    offset: usize,
    name: &'static str,
    use_none: bool,
)
    ensures
        pairs_view(final(tags)@) == pairs_view(old(tags)@) + (if offset < data.len() {
            seq![(name, pc_value_text(data[offset as int], use_none))]
        } else {
            seq![]
        }),
{
    if offset < data.len() {
        push_pair(tags, name, pc_value_string(data[offset], use_none));
    } else {
        assert(pairs_view(tags@) =~= pairs_view(tags@) + seq![]);
    }
}

/// Appends `name` with the quarter-step setting at `offset`, when the data reaches it.
fn parse_pc_value_div(tags: &mut Vec<(&'static str, String)>, data: &[u8], offset: usize, name: &'static str)
    ensures
        pairs_view(final(tags)@) == pairs_view(old(tags)@) + (if offset < data.len() {
            seq![(name, pc_div_text(data[offset as int]))]
        } else {
            seq![]
        }),
{
    if offset < data.len() {
        push_pair(tags, name, pc_div_string(data[offset]));
    } else {
        assert(pairs_view(tags@) =~= pairs_view(tags@) + seq![]);
    }
}

/// A D300-style setting: "Normal" for zero, else the signed number.
pub open spec fn signed_or(raw: u8, zero: Seq<char>) -> Seq<char> {
    if raw == 0x80 {
        zero
    } else {
        int_dec(raw - 128)
    }
}

fn signed_or_string(raw: u8, zero: &str) -> (r: String)
    ensures
        r@ == signed_or(raw, zero@),
{
    if raw == 0x80 {
        owned(zero)
    } else {
        fmt_int(raw as i64 - 128)
    }
}

/// The first settings of a version-0100 PictureControlData.
pub open spec fn pc_v1_head(data: Seq<u8>) -> Seq<(&'static str, Seq<char>)> {
    let q = data[0x31];
    let br = data[0x34];
    seq![
        ("PictureControlAdjust", pc_adjust_name(data[0x30])@),
        (
            "PictureControlQuickAdjust",
            if q == 0xff {
                "n/a"@
            } else {
                signed_or(q, "Normal"@)
            },
        ),
        ("Sharpness", signed_or(data[0x32], "Normal"@)),
        ("Contrast", signed_or(data[0x33], "Normal"@)),
        (
            "Brightness",
            if br == 0xff {
                "n/a"@
            } else {
                signed_or(br, "Normal"@)
            },
        ),
    ]
}

/// Saturation of a version-0100 PictureControlData, absent when n/a.
pub open spec fn pc_v1_saturation(data: Seq<u8>) -> Seq<(&'static str, Seq<char>)> {
    let sat = data[0x35];
    if sat != 0xff {
        seq![("Saturation", signed_or(sat, "Normal"@))]
    } else {
        seq![]
    }
}

/// The last settings of a version-0100 PictureControlData.
pub open spec fn pc_v1_tail(data: Seq<u8>) -> Seq<(&'static str, Seq<char>)> {
    let hue = data[0x36];
    let ts = data[0x39];
    seq![
        (
            "HueAdjustment",
            if hue != 0xff {
                signed_or(hue, "None"@)
            } else {
                "n/a"@
            },
        ),
        ("FilterEffect", filter_effect_name(data[0x37])@),
        ("ToningEffect", toning_effect_name(data[0x38])@),
        (
            "ToningSaturation",
            if ts != 0xff {
                int_dec(ts - 128)
            } else {
                "n/a"@
            },
        ),
    ]
}

/// The fields of a version-0100 PictureControlData.
pub open spec fn pc_v1_fields(data: Seq<u8>) -> Seq<(&'static str, Seq<char>)> {
    pc_name_fields(data, 4, 24) + pc_v1_head(data) + pc_v1_saturation(data) + pc_v1_tail(data)
}

/// The fields of a version-02xx PictureControlData.
pub open spec fn pc_v2_fields(data: Seq<u8>) -> Seq<(&'static str, Seq<char>)> {
    pc_name_fields(data, 4, 24) + seq![
        ("PictureControlAdjust", pc_adjust_name(data[48])@),
        ("PictureControlQuickAdjust", pc_value_text(data[49], false)),
        ("Sharpness", pc_div_text(data[51])),
        ("Clarity", pc_div_text(data[53])),
        ("Contrast", pc_value_text(data[55], false)),
        ("Brightness", pc_value_text(data[57], false)),
        ("Saturation", pc_value_text(data[59], false)),
        ("Hue", pc_value_text(data[61], true)),
        ("FilterEffect", filter_effect_name(data[63])@),
        ("ToningEffect", toning_effect_name(data[64])@),
        ("ToningSaturation", pc_value_text(data[65], true)),
    ]
}

/// The fields of a version-03xx PictureControlData.
pub open spec fn pc_v3_fields(data: Seq<u8>) -> Seq<(&'static str, Seq<char>)> {
    pc_name_fields(data, 8, 28) + seq![
        ("PictureControlAdjust", pc_adjust_name(data[54])@),
        ("PictureControlQuickAdjust", pc_value_text(data[55], false)),
        ("Sharpness", pc_div_text(data[57])),
        ("MidRangeSharpness", pc_div_text(data[59])),
        ("Clarity", pc_div_text(data[61])),
        ("Contrast", pc_value_text(data[63], false)),
        ("Brightness", pc_value_text(data[65], false)),
        ("Saturation", pc_value_text(data[67], false)),
        ("Hue", pc_value_text(data[69], true)),
        ("FilterEffect", filter_effect_name(data[71])@),
        ("ToningEffect", toning_effect_name(data[73])@),
    ]
}

/// Whether a version string starts with `p`.
pub open spec fn version_starts(v: Seq<char>, p: Seq<char>) -> bool {
    v.len() >= p.len() && v.take(p.len() as int) == p
}

/// The fields of PictureControlData, by structure version.
pub open spec fn picture_control_fields(data: Seq<u8>) -> Seq<(&'static str, Seq<char>)> {
    if data.len() < 4 {
        seq![]
    } else {
        let v = version_text(data);
        seq![("PictureControlVersion", v)] + if v == "0100"@ && data.len() >= 58 {
            pc_v1_fields(data)
        } else if version_starts(v, "02"@) && data.len() >= 68 {
            pc_v2_fields(data)
        } else if version_starts(v, "03"@) && data.len() >= 74 {
            pc_v3_fields(data)
        } else {
            seq![]
        }
    }
}

fn push_pc_v1_head(tags: &mut Vec<(&'static str, String)>, data: &[u8])
    requires
        data.len() >= 58,
    ensures
        pairs_view(final(tags)@) == pairs_view(old(tags)@) + pc_v1_head(data@),
{
    let ghost start = pairs_view(tags@);
    push_pair(tags, "PictureControlAdjust", owned(pc_adjust_str(data[0x30])));
    let q = data[0x31];
    push_pair(
        tags,
        "PictureControlQuickAdjust",
        if q == 0xff {
            owned("n/a")
        } else {
            signed_or_string(q, "Normal")
        },
    );
    push_pair(tags, "Sharpness", signed_or_string(data[0x32], "Normal"));
    push_pair(tags, "Contrast", signed_or_string(data[0x33], "Normal"));
    let br = data[0x34];
    push_pair(
        tags,
        "Brightness",
        if br == 0xff {
            owned("n/a")
        } else {
            signed_or_string(br, "Normal")
        },
    );
    proof {
        assert(pairs_view(tags@) =~= start + pc_v1_head(data@));
    }
}

fn push_pc_v1_tail(tags: &mut Vec<(&'static str, String)>, data: &[u8])
    requires
        data.len() >= 58,
    ensures
        pairs_view(final(tags)@) == pairs_view(old(tags)@) + pc_v1_saturation(data@) + pc_v1_tail(
            data@,
        ),
{
    let ghost start = pairs_view(tags@);
    let sat = data[0x35];
    if sat != 0xff {
        push_pair(tags, "Saturation", signed_or_string(sat, "Normal"));
    }
    let ghost mid = pairs_view(tags@);
    assert(mid =~= start + pc_v1_saturation(data@));
    let hue = data[0x36];
    push_pair(
        tags,
        "HueAdjustment",
        if hue != 0xff {
            signed_or_string(hue, "None")
        } else {
            owned("n/a")
        },
    );
    push_pair(tags, "FilterEffect", owned(filter_effect_str(data[0x37])));
    push_pair(tags, "ToningEffect", owned(decode_toning_effect(data[0x38])));
    let ts = data[0x39];
    push_pair(
        tags,
        "ToningSaturation",
        if ts != 0xff {
            fmt_int(ts as i64 - 128)
        } else {
            owned("n/a")
        },
    );
    proof {
        assert(pairs_view(tags@) =~= mid + pc_v1_tail(data@));
    }
}

fn parse_pc_v1(tags: &mut Vec<(&'static str, String)>, data: &[u8])
    requires
        data.len() >= 58,
    ensures
        pairs_view(final(tags)@) == pairs_view(old(tags)@) + pc_v1_fields(data@),
{
    let ghost start = pairs_view(tags@);
    parse_picture_control_name_base(tags, data, 4, 24);
    push_pc_v1_head(tags, data);
    push_pc_v1_tail(tags, data);
    proof {
        assert(pairs_view(tags@) =~= start + pc_v1_fields(data@));
    }
}

fn parse_pc_v2(tags: &mut Vec<(&'static str, String)>, data: &[u8])
    requires
        data.len() >= 68,
    ensures
        pairs_view(final(tags)@) == pairs_view(old(tags)@) + pc_v2_fields(data@),
{
    let ghost start = pairs_view(tags@);
    parse_picture_control_name_base(tags, data, 4, 24);
    push_pair(tags, "PictureControlAdjust", owned(pc_adjust_str(data[48])));
    parse_pc_value(tags, data, 49, "PictureControlQuickAdjust", false);
    parse_pc_value_div(tags, data, 51, "Sharpness");
    parse_pc_value_div(tags, data, 53, "Clarity");
    parse_pc_value(tags, data, 55, "Contrast", false);
    parse_pc_value(tags, data, 57, "Brightness", false);
    parse_pc_value(tags, data, 59, "Saturation", false);
    parse_pc_value(tags, data, 61, "Hue", true);
    push_pair(tags, "FilterEffect", owned(filter_effect_str(data[63])));
    push_pair(tags, "ToningEffect", owned(decode_toning_effect(data[64])));
    parse_pc_value(tags, data, 65, "ToningSaturation", true);
    proof {
        assert(pairs_view(tags@) =~= start + pc_v2_fields(data@));
    }
}

fn parse_pc_v3(tags: &mut Vec<(&'static str, String)>, data: &[u8])
    requires
        data.len() >= 74,
    ensures
        pairs_view(final(tags)@) == pairs_view(old(tags)@) + pc_v3_fields(data@),
{
    let ghost start = pairs_view(tags@);
    parse_picture_control_name_base(tags, data, 8, 28);
    push_pair(tags, "PictureControlAdjust", owned(pc_adjust_str(data[54])));
    parse_pc_value(tags, data, 55, "PictureControlQuickAdjust", false);
    parse_pc_value_div(tags, data, 57, "Sharpness");
    parse_pc_value_div(tags, data, 59, "MidRangeSharpness");
    parse_pc_value_div(tags, data, 61, "Clarity");
    parse_pc_value(tags, data, 63, "Contrast", false);
    parse_pc_value(tags, data, 65, "Brightness", false);
    parse_pc_value(tags, data, 67, "Saturation", false);
    parse_pc_value(tags, data, 69, "Hue", true);
    push_pair(tags, "FilterEffect", owned(filter_effect_str(data[71])));
    push_pair(tags, "ToningEffect", owned(decode_toning_effect(data[73])));
    proof {
        assert(pairs_view(tags@) =~= start + pc_v3_fields(data@));
    }
}

/// Parses PictureControlData (tags 0x0023 and 0x00BD), by structure version.
pub fn parse_picture_control(data: &[u8]) -> (r: Vec<(&'static str, String)>)
    ensures
        pairs_view(r@) == picture_control_fields(data@),
{
    let mut tags: Vec<(&'static str, String)> = Vec::new();
    if data.len() < 4 {
        assert(pairs_view(tags@) =~= seq![]);
        return tags;
    }
    let version = version_string(data);
    let is_v1 = str_eq(version.as_str(), "0100");
    let is_v2 = starts_with(version.as_str(), "02");
    let is_v3 = starts_with(version.as_str(), "03");
    proof {
        reveal_strlit("02");
        reveal_strlit("03");
    }
    push_pair(&mut tags, "PictureControlVersion", version);
    let ghost head = pairs_view(tags@);
    assert(head =~= seq![("PictureControlVersion", version_text(data@))]);
    if is_v1 && data.len() >= 58 {
        parse_pc_v1(&mut tags, data);
    } else if is_v2 && data.len() >= 68 {
        parse_pc_v2(&mut tags, data);
    } else if is_v3 && data.len() >= 74 {
        parse_pc_v3(&mut tags, data);
    } else {
        assert(pairs_view(tags@) =~= head + seq![]);
    }
    tags
}

} // verus!
