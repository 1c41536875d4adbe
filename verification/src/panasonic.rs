//! Panasonic maker notes: tag names, value decoders and the IFD parser.
use vstd::prelude::*;
use vstd::string::StrSliceExecFns;
use crate::types::{tag_views, plain_tag, ExifValue, ValueView, MakerNoteTag, TagView, ExifError};
use crate::bytes::{Endianness, read_u16_at, read_u32_at};
use crate::tiff::{at_u16, at_u32, until_nul, until_nul_exec, read_shorts, read_sshorts, read_longs, read_slongs, read_rationals, read_srationals, read_shorts_exec, read_sshorts_exec, read_longs_exec, read_slongs_exec, read_rationals_exec, read_srationals_exec};
use crate::text::{
    hex_digit, dec, hex, int_dec, signed_dec, zero_pad, join, views, push_char, push_dec, push_hex, push_zeros, fmt_dec, dec_len, push_dec_pad, push_hex2, push_int, fmt_int, owned, push_str, wrap_dec, join_strings, hex2, hex_list, fmt_hex_list, tenths, tenths_text, push_tenths, round_half_even, round_half_even_exec, thousandths_text, push_thousandths, strip_nuls, trim_end_nuls, str_eq, is_ws, lead_ws, trail_ws, trim, trim_str, starts_with, occurs_at, contains, str_contains, skip_chars, ascii_upper, all_ascii, unicode_upper, to_upper, utf8_lossy, latin, ascii_bytes, lossy_string, utf8_decode, utf8_str, dec_texts, int_texts, join_dec, join_int, trim_zeros, push_frac_digits, ends_with, push_part, str_ends_with,
};
use std::collections::HashMap;
use crate::ratio::{trimmed_decimal, format_trimmed_decimal, shortest_text, format_shortest};

verus! {

pub const EXIV2_GROUP_PANASONIC: &'static str = "Panasonic";
pub const EXIV2_GROUP_PANASONIC_RAW: &'static str = "PanasonicRaw";
pub const PANA_IMAGE_QUALITY: u16 = 0x0001;
pub const PANA_FIRMWARE_VERSION: u16 = 0x0002;
pub const PANA_WHITE_BALANCE: u16 = 0x0003;
pub const PANA_FOCUS_MODE: u16 = 0x0007;
pub const PANA_AF_AREA_MODE: u16 = 0x000F;
pub const PANA_IMAGE_STABILIZATION: u16 = 0x001A;
pub const PANA_MACRO_MODE: u16 = 0x001C;
pub const PANA_SHOOTING_MODE: u16 = 0x001F;
pub const PANA_AUDIO: u16 = 0x0020;
pub const PANA_FLASH_BIAS: u16 = 0x0024;
pub const PANA_INTERNAL_SERIAL_NUMBER: u16 = 0x0025;
pub const PANA_EXIF_VERSION: u16 = 0x0026;
pub const PANA_COLOR_EFFECT: u16 = 0x0028;
pub const PANA_TIME_SINCE_POWER_ON: u16 = 0x0029;
pub const PANA_BURST_MODE: u16 = 0x002A;
pub const PANA_SEQUENCE_NUMBER: u16 = 0x002B;
pub const PANA_CONTRAST_MODE: u16 = 0x002C;
pub const PANA_NOISE_REDUCTION: u16 = 0x002D;
pub const PANA_SELF_TIMER: u16 = 0x002E;
pub const PANA_ROTATION: u16 = 0x0030;
pub const PANA_AF_ASSIST_LAMP: u16 = 0x0031;
pub const PANA_COLOR_MODE: u16 = 0x0032;
pub const PANA_BABY_AGE: u16 = 0x0033;
pub const PANA_OPTICAL_ZOOM_MODE: u16 = 0x0034;
pub const PANA_CONVERSION_LENS: u16 = 0x0035;
pub const PANA_TRAVEL_DAY: u16 = 0x0036;
pub const PANA_CONTRAST: u16 = 0x0039;
pub const PANA_WORLD_TIME_LOCATION: u16 = 0x003A;
pub const PANA_TEXT_STAMP: u16 = 0x003B;
pub const PANA_PROGRAM_ISO: u16 = 0x003C;
pub const PANA_ADVANCED_SCENE_MODE: u16 = 0x003D;
pub const PANA_TEXT_STAMP_2: u16 = 0x003E;
pub const PANA_FACE_DETECTED: u16 = 0x003F;
pub const PANA_IMAGE_WIDTH: u16 = 0x004B;
pub const PANA_IMAGE_HEIGHT: u16 = 0x004C;
pub const PANA_LENS_TYPE: u16 = 0x0051;
pub const PANA_LENS_SERIAL_NUMBER: u16 = 0x0052;
pub const PANA_ACCESSORY_TYPE: u16 = 0x0053;
pub const PANA_ACCESSORY_SERIAL_NUMBER: u16 = 0x0054;
pub const PANA_SHADING_COMPENSATION: u16 = 0x008A;
pub const PANA_WB_SHIFT_INTELLIGENT_AUTO: u16 = 0x008B;
pub const PANA_ACCELEROMETER_Z: u16 = 0x008C;
pub const PANA_ACCELEROMETER_X: u16 = 0x008D;
pub const PANA_ACCELEROMETER_Y: u16 = 0x008E;
pub const PANA_CAMERA_ORIENTATION: u16 = 0x008F;
pub const PANA_ROLL_ANGLE: u16 = 0x0090;
pub const PANA_PITCH_ANGLE: u16 = 0x0091;
pub const PANA_BATTERY_LEVEL: u16 = 0x0038;
pub const PANA_CITY: u16 = 0x006D;
pub const PANA_LANDMARK: u16 = 0x006F;
pub const PANA_INTELLIGENT_RESOLUTION: u16 = 0x0070;
pub const PANA_CLEAR_RETOUCH: u16 = 0x007C;
pub const PANA_PHOTO_STYLE: u16 = 0x0089;
pub const PANA_HDR_SHOT: u16 = 0x0093;
pub const PANA_SHUTTER_TYPE: u16 = 0x009F;
pub const PANA_FLASH_CURTAIN: u16 = 0x0048;
pub const PANA_TOUCH_AE: u16 = 0x00AE;
pub const PANA_SATURATION: u16 = 0x0040;
pub const PANA_SHARPNESS: u16 = 0x0041;
pub const PANA_FILM_MODE: u16 = 0x0042;
pub const PANA_JPEG_QUALITY: u16 = 0x0043;
pub const PANA_COLOR_TEMP_KELVIN: u16 = 0x0044;
pub const PANA_BRACKET_SETTINGS: u16 = 0x0045;
pub const PANA_WB_SHIFT_AB: u16 = 0x0046;
pub const PANA_WB_SHIFT_GM: u16 = 0x0047;
pub const PANA_LONG_EXPOSURE_NR: u16 = 0x0049;
pub const PANA_AF_POINT_POSITION: u16 = 0x004D;
pub const PANA_FACE_DETECT_INFO: u16 = 0x004E;
pub const PANA_WHITE_BALANCE_BIAS: u16 = 0x0023;
pub const PANA_WB_RED_LEVEL: u16 = 0x8004;
pub const PANA_WB_GREEN_LEVEL: u16 = 0x8005;
pub const PANA_WB_BLUE_LEVEL: u16 = 0x8006;
pub const PANA_SCENE_MODE: u16 = 0x8001;
pub const PANA_VIDEO_FRAME_RATE: u16 = 0x0027;
pub const PANA_MAKERNOTE_VERSION: u16 = 0x8000;
pub const PANA_HIGHLIGHT_WARNING: u16 = 0x8002;
pub const PANA_DARK_FOCUS_ENVIRONMENT: u16 = 0x8003;
pub const PANA_TEXT_STAMP_3: u16 = 0x8008;
pub const PANA_TEXT_STAMP_4: u16 = 0x8009;
pub const PANA_BABY_AGE_2: u16 = 0x8010;
pub const PANA_LENS_FIRMWARE_VERSION: u16 = 0x0060;
pub const PANA_TITLE: u16 = 0x0065;
pub const PANA_BABY_NAME: u16 = 0x0066;
pub const PANA_LOCATION: u16 = 0x0067;
pub const PANA_MERGED_IMAGES: u16 = 0x0076;
pub const PANA_BURST_SPEED: u16 = 0x0077;
pub const PANA_INTELLIGENT_D_RANGE: u16 = 0x0079;
pub const PANA_INTERNAL_ND_FILTER: u16 = 0x009D;

/// Name of a Panasonic maker-note tag.
pub open spec fn panasonic_tag_name(tag_id: u16) -> Option<&'static str> {
    match tag_id {
        0x0001 => Some("ImageQuality"),
        0x0002 => Some("FirmwareVersion"),
        0x0003 => Some("WhiteBalance"),
        0x0007 => Some("FocusMode"),
        0x000F => Some("AFAreaMode"),
        0x001A => Some("ImageStabilization"),
        0x001C => Some("MacroMode"),
        0x001F => Some("ShootingMode"),
        0x0020 => Some("Audio"),
        0x0024 => Some("FlashBias"),
        0x0025 => Some("InternalSerialNumber"),
        0x0026 => Some("PanasonicExifVersion"),
        0x0028 => Some("ColorEffect"),
        0x0029 => Some("TimeSincePowerOn"),
        0x002A => Some("BurstMode"),
        0x002B => Some("SequenceNumber"),
        0x002C => Some("ContrastMode"),
        0x002D => Some("NoiseReduction"),
        0x002E => Some("SelfTimer"),
        0x0030 => Some("Rotation"),
        0x0031 => Some("AFAssistLamp"),
        0x0032 => Some("ColorMode"),
        0x0033 => Some("BabyAge"),
        0x0034 => Some("OpticalZoomMode"),
        0x0035 => Some("ConversionLens"),
        0x0036 => Some("TravelDay"),
        0x0039 => Some("Contrast"),
        0x003A => Some("WorldTimeLocation"),
        0x003B => Some("TextStamp"),
        0x003C => Some("ProgramISO"),
        0x003D => Some("AdvancedSceneType"),
        0x003E => Some("TextStamp2"),
        0x003F => Some("FacesDetected"),
        0x004B => Some("PanasonicImageWidth"),
        0x004C => Some("PanasonicImageHeight"),
        0x0051 => Some("LensType"),
        0x0052 => Some("LensSerialNumber"),
        0x0053 => Some("AccessoryType"),
        0x0054 => Some("AccessorySerialNumber"),
        0x008A => Some("ShadingCompensation"),
        0x008B => Some("WBShiftIntelligentAuto"),
        0x008C => Some("AccelerometerZ"),
        0x008D => Some("AccelerometerX"),
        0x008E => Some("AccelerometerY"),
        0x008F => Some("CameraOrientation"),
        0x0090 => Some("RollAngle"),
        0x0091 => Some("PitchAngle"),
        0x0038 => Some("BatteryLevel"),
        0x006D => Some("City"),
        0x006F => Some("Landmark"),
        0x0070 => Some("IntelligentResolution"),
        0x007C => Some("ClearRetouch"),
        0x0089 => Some("PhotoStyle"),
        0x0093 => Some("HDRShot"),
        0x009F => Some("ShutterType"),
        0x0048 => Some("FlashCurtain"),
        0x00AE => Some("TouchAE"),
        0x0040 => Some("Saturation"),
        0x0041 => Some("Sharpness"),
        0x0042 => Some("FilmMode"),
        0x0043 => Some("JPEGQuality"),
        0x0044 => Some("ColorTempKelvin"),
        0x0045 => Some("BracketSettings"),
        0x0046 => Some("WBShiftAB"),
        0x0047 => Some("WBShiftGM"),
        0x0049 => Some("LongExposureNoiseReduction"),
        0x004D => Some("AFPointPosition"),
        0x004E => Some("FaceDetInfo"),
        0x0023 => Some("WhiteBalanceBias"),
        0x8004 => Some("WBRedLevel"),
        0x8005 => Some("WBGreenLevel"),
        0x8006 => Some("WBBlueLevel"),
        0x8001 => Some("SceneMode"),
        0x0027 => Some("VideoFrameRate"),
        0x8000 => Some("MakerNoteVersion"),
        0x8002 => Some("HighlightWarning"),
        0x8003 => Some("DarkFocusEnvironment"),
        0x8008 => Some("TextStamp"),
        0x8009 => Some("TextStamp"),
        0x8010 => Some("BabyAge"),
        0x0060 => Some("LensFirmwareVersion"),
        0x0065 => Some("Title"),
        0x0066 => Some("BabyName"),
        0x0067 => Some("Location"),
        0x0076 => Some("MergedImages"),
        0x0077 => Some("BurstSpeed"),
        0x0079 => Some("IntelligentD-Range"),
        0x009D => Some("InternalNDFilter"),
        _ => None,
    }
}

/// Name of a Panasonic maker-note tag.
pub fn get_panasonic_tag_name(tag_id: u16) -> (r: Option<&'static str>)
    ensures
        r == panasonic_tag_name(tag_id),
{
    match tag_id {
        0x0001 => Some("ImageQuality"),
        0x0002 => Some("FirmwareVersion"),
        0x0003 => Some("WhiteBalance"),
        0x0007 => Some("FocusMode"),
        0x000F => Some("AFAreaMode"),
        0x001A => Some("ImageStabilization"),
        0x001C => Some("MacroMode"),
        0x001F => Some("ShootingMode"),
        0x0020 => Some("Audio"),
        0x0024 => Some("FlashBias"),
        0x0025 => Some("InternalSerialNumber"),
        0x0026 => Some("PanasonicExifVersion"),
        0x0028 => Some("ColorEffect"),
        0x0029 => Some("TimeSincePowerOn"),
        0x002A => Some("BurstMode"),
        0x002B => Some("SequenceNumber"),
        0x002C => Some("ContrastMode"),
        0x002D => Some("NoiseReduction"),
        0x002E => Some("SelfTimer"),
        0x0030 => Some("Rotation"),
        0x0031 => Some("AFAssistLamp"),
        0x0032 => Some("ColorMode"),
        0x0033 => Some("BabyAge"),
        0x0034 => Some("OpticalZoomMode"),
        0x0035 => Some("ConversionLens"),
        0x0036 => Some("TravelDay"),
        0x0039 => Some("Contrast"),
        0x003A => Some("WorldTimeLocation"),
        0x003B => Some("TextStamp"),
        0x003C => Some("ProgramISO"),
        0x003D => Some("AdvancedSceneType"),
        0x003E => Some("TextStamp2"),
        0x003F => Some("FacesDetected"),
        0x004B => Some("PanasonicImageWidth"),
        0x004C => Some("PanasonicImageHeight"),
        0x0051 => Some("LensType"),
        0x0052 => Some("LensSerialNumber"),
        0x0053 => Some("AccessoryType"),
        0x0054 => Some("AccessorySerialNumber"),
        0x008A => Some("ShadingCompensation"),
        0x008B => Some("WBShiftIntelligentAuto"),
        0x008C => Some("AccelerometerZ"),
        0x008D => Some("AccelerometerX"),
        0x008E => Some("AccelerometerY"),
        0x008F => Some("CameraOrientation"),
        0x0090 => Some("RollAngle"),
        0x0091 => Some("PitchAngle"),
        0x0038 => Some("BatteryLevel"),
        0x006D => Some("City"),
        0x006F => Some("Landmark"),
        0x0070 => Some("IntelligentResolution"),
        0x007C => Some("ClearRetouch"),
        0x0089 => Some("PhotoStyle"),
        0x0093 => Some("HDRShot"),
        0x009F => Some("ShutterType"),
        0x0048 => Some("FlashCurtain"),
        0x00AE => Some("TouchAE"),
        0x0040 => Some("Saturation"),
        0x0041 => Some("Sharpness"),
        0x0042 => Some("FilmMode"),
        0x0043 => Some("JPEGQuality"),
        0x0044 => Some("ColorTempKelvin"),
        0x0045 => Some("BracketSettings"),
        0x0046 => Some("WBShiftAB"),
        0x0047 => Some("WBShiftGM"),
        0x0049 => Some("LongExposureNoiseReduction"),
        0x004D => Some("AFPointPosition"),
        0x004E => Some("FaceDetInfo"),
        0x0023 => Some("WhiteBalanceBias"),
        0x8004 => Some("WBRedLevel"),
        0x8005 => Some("WBGreenLevel"),
        0x8006 => Some("WBBlueLevel"),
        0x8001 => Some("SceneMode"),
        0x0027 => Some("VideoFrameRate"),
        0x8000 => Some("MakerNoteVersion"),
        0x8002 => Some("HighlightWarning"),
        0x8003 => Some("DarkFocusEnvironment"),
        0x8008 => Some("TextStamp"),
        0x8009 => Some("TextStamp"),
        0x8010 => Some("BabyAge"),
        0x0060 => Some("LensFirmwareVersion"),
        0x0065 => Some("Title"),
        0x0066 => Some("BabyName"),
        0x0067 => Some("Location"),
        0x0076 => Some("MergedImages"),
        0x0077 => Some("BurstSpeed"),
        0x0079 => Some("IntelligentD-Range"),
        0x009D => Some("InternalNDFilter"),
        _ => None,
    }
}

/// Panasonic image quality as ExifTool prints it ("Unknown" for other values).
pub open spec fn image_quality_exiftool(value: u16) -> &'static str {
    match value {
        1 => "TIFF",
        2 => "High",
        3 => "Standard",
        6 => "Very High",
        7 => "RAW",
        9 => "Motion Picture",
        11 => "Full HD Movie",
        12 => "4K Movie",
        _ => "Unknown",
    }
}

/// Panasonic image quality as ExifTool prints it ("Unknown" for other values).
fn decode_image_quality_exiftool(value: u16) -> (r: &'static str)
    ensures
        r == image_quality_exiftool(value),
{
    match value {
        1 => "TIFF",
        2 => "High",
        3 => "Standard",
        6 => "Very High",
        7 => "RAW",
        9 => "Motion Picture",
        11 => "Full HD Movie",
        12 => "4K Movie",
        _ => "Unknown",
    }
}

/// Panasonic white balance as ExifTool prints it ("Unknown" for other values).
pub open spec fn white_balance_exiftool(value: u16) -> &'static str {
    match value {
        1 => "Auto",
        2 => "Daylight",
        3 => "Cloudy",
        4 => "Incandescent",
        5 => "Manual",
        8 => "Flash",
        10 => "Black & White",
        11 => "Manual 2",
        12 => "Shade",
        13 => "Kelvin",
        14 => "Manual 3",
        15 => "Manual 4",
        19 => "Auto (cool)",
        _ => "Unknown",
    }
}

/// Panasonic white balance as ExifTool prints it ("Unknown" for other values).
fn decode_white_balance_exiftool(value: u16) -> (r: &'static str)
    ensures
        r == white_balance_exiftool(value),
{
    match value {
        1 => "Auto",
        2 => "Daylight",
        3 => "Cloudy",
        4 => "Incandescent",
        5 => "Manual",
        8 => "Flash",
        10 => "Black & White",
        11 => "Manual 2",
        12 => "Shade",
        13 => "Kelvin",
        14 => "Manual 3",
        15 => "Manual 4",
        19 => "Auto (cool)",
        _ => "Unknown",
    }
}

/// Panasonic panasonic focus mode as ExifTool prints it ("Unknown" for other values).
pub open spec fn panasonic_focus_mode_exiftool(value: u16) -> &'static str {
    match value {
        1 => "Auto",
        2 => "Manual",
        4 => "Auto, Focus button",
        5 => "Auto, Continuous",
        6 => "AF-S",
        7 => "AF-C",
        8 => "AF-F",
        _ => "Unknown",
    }
}

/// Panasonic panasonic focus mode as ExifTool prints it ("Unknown" for other values).
fn decode_panasonic_focus_mode_exiftool(value: u16) -> (r: &'static str)
    ensures
        r == panasonic_focus_mode_exiftool(value),
{
    match value {
        1 => "Auto",
        2 => "Manual",
        4 => "Auto, Focus button",
        5 => "Auto, Continuous",
        6 => "AF-S",
        7 => "AF-C",
        8 => "AF-F",
        _ => "Unknown",
    }
}

/// Panasonic panasonic af area mode as ExifTool prints it ("Unknown" for other values).
pub open spec fn panasonic_af_area_mode_exiftool(value: u16) -> &'static str {
    match value {
        0 => "Face Detect",
        1 => "Spot Mode",
        2 => "Multi-area",
        3 => "1-area",
        4 => "Tracking",
        16 => "23-area",
        17 => "49-area",
        18 => "Custom Multi",
        _ => "Unknown",
    }
}

/// Panasonic panasonic af area mode as ExifTool prints it ("Unknown" for other values).
fn decode_panasonic_af_area_mode_exiftool(value: u16) -> (r: &'static str)
    ensures
        r == panasonic_af_area_mode_exiftool(value),
{
    match value {
        0 => "Face Detect",
        1 => "Spot Mode",
        2 => "Multi-area",
        3 => "1-area",
        4 => "Tracking",
        16 => "23-area",
        17 => "49-area",
        18 => "Custom Multi",
        _ => "Unknown",
    }
}

/// Panasonic image stabilization as ExifTool prints it ("Unknown" for other values).
pub open spec fn image_stabilization_exiftool(value: u16) -> &'static str {
    match value {
        2 => "On, Optical",
        3 => "Off",
        4 => "On, Mode 2",
        5 => "On, Optical Panning",
        6 => "On, Body-only",
        7 => "On, Body-only Panning",
        9 => "Dual IS",
        10 => "Dual IS Panning",
        11 => "Dual2 IS",
        12 => "Dual2 IS Panning",
        _ => "Unknown",
    }
}

/// Panasonic image stabilization as ExifTool prints it ("Unknown" for other values).
fn decode_image_stabilization_exiftool(value: u16) -> (r: &'static str)
    ensures
        r == image_stabilization_exiftool(value),
{
    match value {
        2 => "On, Optical",
        3 => "Off",
        4 => "On, Mode 2",
        5 => "On, Optical Panning",
        6 => "On, Body-only",
        7 => "On, Body-only Panning",
        9 => "Dual IS",
        10 => "Dual IS Panning",
        11 => "Dual2 IS",
        12 => "Dual2 IS Panning",
        _ => "Unknown",
    }
}

/// Panasonic macro mode as ExifTool prints it ("Unknown" for other values).
pub open spec fn macro_mode_exiftool(value: u16) -> &'static str {
    match value {
        1 => "On",
        2 => "Off",
        257 => "Tele-macro",
        513 => "Macro Zoom",
        _ => "Unknown",
    }
}

/// Panasonic macro mode as ExifTool prints it ("Unknown" for other values).
fn decode_macro_mode_exiftool(value: u16) -> (r: &'static str)
    ensures
        r == macro_mode_exiftool(value),
{
    match value {
        1 => "On",
        2 => "Off",
        257 => "Tele-macro",
        513 => "Macro Zoom",
        _ => "Unknown",
    }
}

/// Panasonic shooting mode as ExifTool prints it ("Unknown" for other values).
pub open spec fn shooting_mode_exiftool(value: u16) -> &'static str {
    match value {
        1 => "Normal",
        2 => "Portrait",
        3 => "Scenery",
        4 => "Sports",
        5 => "Night Portrait",
        6 => "Program",
        7 => "Aperture Priority",
        8 => "Shutter Priority",
        9 => "Macro",
        10 => "Spot",
        11 => "Manual",
        12 => "Movie Preview",
        13 => "Panning",
        14 => "Simple",
        15 => "Color Effects",
        16 => "Self Portrait",
        17 => "Economy",
        18 => "Fireworks",
        19 => "Party",
        20 => "Snow",
        21 => "Night Scenery",
        22 => "Food",
        23 => "Baby",
        24 => "Soft Skin",
        25 => "Candlelight",
        26 => "Starry Night",
        27 => "High Sensitivity",
        28 => "Panorama Assist",
        29 => "Underwater",
        30 => "Beach",
        31 => "Aerial Photo",
        32 => "Sunset",
        33 => "Pet",
        34 => "Intelligent ISO",
        35 => "Clipboard",
        36 => "High Speed Continuous Shooting",
        37 => "Intelligent Auto",
        39 => "Multi-aspect",
        41 => "Transform",
        42 => "Flash Burst",
        43 => "Pin Hole",
        44 => "Film Grain",
        45 => "My Color",
        46 => "Photo Frame",
        48 => "Movie",
        51 => "HDR",
        52 => "Peripheral Defocus",
        55 => "Handheld Night Shot",
        57 => "3D",
        59 => "Creative Control",
        60 => "Intelligent Auto Plus",
        62 => "Panorama",
        63 => "Glass Through",
        64 => "HDR",
        66 => "Digital Filter",
        67 => "Clear Portrait",
        68 => "Silky Skin",
        69 => "Backlit Softness",
        70 => "Clear in Backlight",
        71 => "Relaxing Tone",
        72 => "Sweet Child's Face",
        73 => "Distinct Scenery",
        74 => "Bright Blue Sky",
        75 => "Romantic Sunset Glow",
        76 => "Vivid Sunset Glow",
        77 => "Glistening Water",
        78 => "Clear Nightscape",
        79 => "Cool Night Sky",
        80 => "Warm Glowing Nightscape",
        81 => "Artistic Nightscape",
        82 => "Glittering Illuminations",
        83 => "Clear Night Portrait",
        84 => "Soft Image of a Flower",
        85 => "Appetizing Food",
        86 => "Cute Dessert",
        _ => "Unknown",
    }
}

/// Panasonic shooting mode as ExifTool prints it ("Unknown" for other values).
fn decode_shooting_mode_exiftool(value: u16) -> (r: &'static str)
    ensures
        r == shooting_mode_exiftool(value),
{
    match value {
        1 => "Normal",
        2 => "Portrait",
        3 => "Scenery",
        4 => "Sports",
        5 => "Night Portrait",
        6 => "Program",
        7 => "Aperture Priority",
        8 => "Shutter Priority",
        9 => "Macro",
        10 => "Spot",
        11 => "Manual",
        12 => "Movie Preview",
        13 => "Panning",
        14 => "Simple",
        15 => "Color Effects",
        16 => "Self Portrait",
        17 => "Economy",
        18 => "Fireworks",
        19 => "Party",
        20 => "Snow",
        21 => "Night Scenery",
        22 => "Food",
        23 => "Baby",
        24 => "Soft Skin",
        25 => "Candlelight",
        26 => "Starry Night",
        27 => "High Sensitivity",
        28 => "Panorama Assist",
        29 => "Underwater",
        30 => "Beach",
        31 => "Aerial Photo",
        32 => "Sunset",
        33 => "Pet",
        34 => "Intelligent ISO",
        35 => "Clipboard",
        36 => "High Speed Continuous Shooting",
        37 => "Intelligent Auto",
        39 => "Multi-aspect",
        41 => "Transform",
        42 => "Flash Burst",
        43 => "Pin Hole",
        44 => "Film Grain",
        45 => "My Color",
        46 => "Photo Frame",
        48 => "Movie",
        51 => "HDR",
        52 => "Peripheral Defocus",
        55 => "Handheld Night Shot",
        57 => "3D",
        59 => "Creative Control",
        60 => "Intelligent Auto Plus",
        62 => "Panorama",
        63 => "Glass Through",
        64 => "HDR",
        66 => "Digital Filter",
        67 => "Clear Portrait",
        68 => "Silky Skin",
        69 => "Backlit Softness",
        70 => "Clear in Backlight",
        71 => "Relaxing Tone",
        72 => "Sweet Child's Face",
        73 => "Distinct Scenery",
        74 => "Bright Blue Sky",
        75 => "Romantic Sunset Glow",
        76 => "Vivid Sunset Glow",
        77 => "Glistening Water",
        78 => "Clear Nightscape",
        79 => "Cool Night Sky",
        80 => "Warm Glowing Nightscape",
        81 => "Artistic Nightscape",
        82 => "Glittering Illuminations",
        83 => "Clear Night Portrait",
        84 => "Soft Image of a Flower",
        85 => "Appetizing Food",
        86 => "Cute Dessert",
        _ => "Unknown",
    }
}

/// Panasonic photo style as ExifTool prints it ("Unknown" for other values).
pub open spec fn photo_style_exiftool(value: u16) -> &'static str {
    match value {
        0 => "Auto",
        1 => "Standard or Custom",
        2 => "Vivid",
        3 => "Natural",
        4 => "Monochrome",
        5 => "Scenery",
        6 => "Portrait",
        8 => "Cinelike D",
        9 => "Cinelike V",
        11 => "L.Monochrome",
        12 => "Like709",
        15 => "L.Monochrome D",
        17 => "V-Log",
        18 => "Cinelike D2",
        _ => "Unknown",
    }
}

/// Panasonic photo style as ExifTool prints it ("Unknown" for other values).
fn decode_photo_style_exiftool(value: u16) -> (r: &'static str)
    ensures
        r == photo_style_exiftool(value),
{
    match value {
        0 => "Auto",
        1 => "Standard or Custom",
        2 => "Vivid",
        3 => "Natural",
        4 => "Monochrome",
        5 => "Scenery",
        6 => "Portrait",
        8 => "Cinelike D",
        9 => "Cinelike V",
        11 => "L.Monochrome",
        12 => "Like709",
        15 => "L.Monochrome D",
        17 => "V-Log",
        18 => "Cinelike D2",
        _ => "Unknown",
    }
}

/// Panasonic shutter type as ExifTool prints it ("Unknown" for other values).
pub open spec fn shutter_type_exiftool(value: u16) -> &'static str {
    match value {
        0 => "Mechanical",
        1 => "Electronic",
        2 => "Hybrid",
        _ => "Unknown",
    }
}

/// Panasonic shutter type as ExifTool prints it ("Unknown" for other values).
fn decode_shutter_type_exiftool(value: u16) -> (r: &'static str)
    ensures
        r == shutter_type_exiftool(value),
{
    match value {
        0 => "Mechanical",
        1 => "Electronic",
        2 => "Hybrid",
        _ => "Unknown",
    }
}

/// Panasonic contrast mode as ExifTool prints it ("Unknown" for other values).
pub open spec fn contrast_mode_exiftool(value: u16) -> &'static str {
    match value {
        0 => "Normal",
        1 => "Low",
        2 => "High",
        5 => "Normal 2",
        6 => "Medium Low",
        7 => "Medium High",
        13 => "High Dynamic",
        24 => "Dynamic Range (film-like)",
        46 => "Match Filter Effects Toy",
        55 => "Match Photo Style L. Monochrome",
        256 => "Low",
        272 => "Standard",
        288 => "High",
        _ => "Unknown",
    }
}

/// Panasonic contrast mode as ExifTool prints it ("Unknown" for other values).
fn decode_contrast_mode_exiftool(value: u16) -> (r: &'static str)
    ensures
        r == contrast_mode_exiftool(value),
{
    match value {
        0 => "Normal",
        1 => "Low",
        2 => "High",
        5 => "Normal 2",
        6 => "Medium Low",
        7 => "Medium High",
        13 => "High Dynamic",
        24 => "Dynamic Range (film-like)",
        46 => "Match Filter Effects Toy",
        55 => "Match Photo Style L. Monochrome",
        256 => "Low",
        272 => "Standard",
        288 => "High",
        _ => "Unknown",
    }
}

/// Panasonic contrast mode gf as ExifTool prints it ("Unknown" for other values).
pub open spec fn contrast_mode_gf_exiftool(value: u16) -> &'static str {
    match value {
        0 => "-2",
        1 => "-1",
        2 => "Normal",
        3 => "+1",
        4 => "+2",
        5 => "Normal 2",
        7 => "Nature (Color Film)",
        9 => "Expressive",
        12 => "Smooth (Color Film) or Pure (My Color)",
        17 => "Dynamic (B&W Film)",
        22 => "Smooth (B&W Film)",
        25 => "High Dynamic",
        26 => "Retro",
        27 => "Dynamic (Color Film)",
        28 => "Low Key",
        29 => "Toy Effect",
        32 => "Vibrant (Color Film) or Expressive (My Color)",
        33 => "Elegant (My Color)",
        37 => "Nostalgic (Color Film)",
        41 => "Dynamic Art (My Color)",
        42 => "Retro (My Color)",
        45 => "Cinema",
        47 => "Dynamic Mono",
        50 => "Impressive Art",
        51 => "Cross Process",
        100 => "High Dynamic 2",
        101 => "Retro 2",
        _ => "Unknown",
    }
}

/// Panasonic contrast mode gf as ExifTool prints it ("Unknown" for other values).
fn decode_contrast_mode_gf_exiftool(value: u16) -> (r: &'static str)
    ensures
        r == contrast_mode_gf_exiftool(value),
{
    match value {
        0 => "-2",
        1 => "-1",
        2 => "Normal",
        3 => "+1",
        4 => "+2",
        5 => "Normal 2",
        7 => "Nature (Color Film)",
        9 => "Expressive",
        12 => "Smooth (Color Film) or Pure (My Color)",
        17 => "Dynamic (B&W Film)",
        22 => "Smooth (B&W Film)",
        25 => "High Dynamic",
        26 => "Retro",
        27 => "Dynamic (Color Film)",
        28 => "Low Key",
        29 => "Toy Effect",
        32 => "Vibrant (Color Film) or Expressive (My Color)",
        33 => "Elegant (My Color)",
        37 => "Nostalgic (Color Film)",
        41 => "Dynamic Art (My Color)",
        42 => "Retro (My Color)",
        45 => "Cinema",
        47 => "Dynamic Mono",
        50 => "Impressive Art",
        51 => "Cross Process",
        100 => "High Dynamic 2",
        101 => "Retro 2",
        _ => "Unknown",
    }
}

/// Panasonic burst mode as ExifTool prints it ("Unknown" for other values).
pub open spec fn burst_mode_exiftool(value: u16) -> &'static str {
    match value {
        0 => "Off",
        1 => "On",
        2 => "Auto Exposure Bracketing (AEB)",
        3 => "Focus Bracketing",
        4 => "Unlimited",
        8 => "White Balance Bracketing",
        17 => "On (with flash)",
        18 => "Aperture Bracketing",
        _ => "Unknown",
    }
}

/// Panasonic burst mode as ExifTool prints it ("Unknown" for other values).
fn decode_burst_mode_exiftool(value: u16) -> (r: &'static str)
    ensures
        r == burst_mode_exiftool(value),
{
    match value {
        0 => "Off",
        1 => "On",
        2 => "Auto Exposure Bracketing (AEB)",
        3 => "Focus Bracketing",
        4 => "Unlimited",
        8 => "White Balance Bracketing",
        17 => "On (with flash)",
        18 => "Aperture Bracketing",
        _ => "Unknown",
    }
}

/// Panasonic intelligent resolution as ExifTool prints it ("Unknown" for other values).
pub open spec fn intelligent_resolution_exiftool(value: u16) -> &'static str {
    match value {
        0 => "Off",
        1 => "Low",
        2 => "Standard",
        3 => "High",
        4 => "Extended",
        _ => "Unknown",
    }
}

/// Panasonic intelligent resolution as ExifTool prints it ("Unknown" for other values).
fn decode_intelligent_resolution_exiftool(value: u16) -> (r: &'static str)
    ensures
        r == intelligent_resolution_exiftool(value),
{
    match value {
        0 => "Off",
        1 => "Low",
        2 => "Standard",
        3 => "High",
        4 => "Extended",
        _ => "Unknown",
    }
}

/// Panasonic clear retouch as ExifTool prints it ("Unknown" for other values).
pub open spec fn clear_retouch_exiftool(value: u16) -> &'static str {
    match value {
        0 => "Off",
        1 => "On",
        _ => "Unknown",
    }
}

/// Panasonic clear retouch as ExifTool prints it ("Unknown" for other values).
fn decode_clear_retouch_exiftool(value: u16) -> (r: &'static str)
    ensures
        r == clear_retouch_exiftool(value),
{
    match value {
        0 => "Off",
        1 => "On",
        _ => "Unknown",
    }
}

/// Panasonic touch ae as ExifTool prints it ("Unknown" for other values).
pub open spec fn touch_ae_exiftool(value: u16) -> &'static str {
    match value {
        0 => "Off",
        1 => "On",
        _ => "Unknown",
    }
}

/// Panasonic touch ae as ExifTool prints it ("Unknown" for other values).
fn decode_touch_ae_exiftool(value: u16) -> (r: &'static str)
    ensures
        r == touch_ae_exiftool(value),
{
    match value {
        0 => "Off",
        1 => "On",
        _ => "Unknown",
    }
}

/// Panasonic flash curtain as ExifTool prints it ("Unknown" for other values).
pub open spec fn flash_curtain_exiftool(value: u16) -> &'static str {
    match value {
        0 => "n/a",
        1 => "1st",
        2 => "2nd",
        _ => "Unknown",
    }
}

/// Panasonic flash curtain as ExifTool prints it ("Unknown" for other values).
fn decode_flash_curtain_exiftool(value: u16) -> (r: &'static str)
    ensures
        r == flash_curtain_exiftool(value),
{
    match value {
        0 => "n/a",
        1 => "1st",
        2 => "2nd",
        _ => "Unknown",
    }
}

/// Panasonic hdr shot as ExifTool prints it ("Unknown" for other values).
pub open spec fn hdr_shot_exiftool(value: u16) -> &'static str {
    match value {
        0 => "No",
        1 => "Yes",
        _ => "Unknown",
    }
}

/// Panasonic hdr shot as ExifTool prints it ("Unknown" for other values).
fn decode_hdr_shot_exiftool(value: u16) -> (r: &'static str)
    ensures
        r == hdr_shot_exiftool(value),
{
    match value {
        0 => "No",
        1 => "Yes",
        _ => "Unknown",
    }
}

/// Panasonic shading compensation as ExifTool prints it ("Unknown" for other values).
pub open spec fn shading_compensation_exiftool(value: u16) -> &'static str {
    match value {
        0 => "Off",
        1 => "On",
        _ => "Unknown",
    }
}

/// Panasonic shading compensation as ExifTool prints it ("Unknown" for other values).
fn decode_shading_compensation_exiftool(value: u16) -> (r: &'static str)
    ensures
        r == shading_compensation_exiftool(value),
{
    match value {
        0 => "Off",
        1 => "On",
        _ => "Unknown",
    }
}

/// Panasonic audio as ExifTool prints it ("Unknown" for other values).
pub open spec fn audio_exiftool(value: u16) -> &'static str {
    match value {
        1 => "Yes",
        2 => "No",
        3 => "Stereo",
        _ => "Unknown",
    }
}

/// Panasonic audio as ExifTool prints it ("Unknown" for other values).
fn decode_audio_exiftool(value: u16) -> (r: &'static str)
    ensures
        r == audio_exiftool(value),
{
    match value {
        1 => "Yes",
        2 => "No",
        3 => "Stereo",
        _ => "Unknown",
    }
}

/// Panasonic color effect as ExifTool prints it ("Unknown" for other values).
pub open spec fn color_effect_exiftool(value: u16) -> &'static str {
    match value {
        1 => "Off",
        2 => "Warm",
        3 => "Cool",
        4 => "Black & White",
        5 => "Sepia",
        6 => "Happy",
        8 => "Vivid",
        _ => "Unknown",
    }
}

/// Panasonic color effect as ExifTool prints it ("Unknown" for other values).
fn decode_color_effect_exiftool(value: u16) -> (r: &'static str)
    ensures
        r == color_effect_exiftool(value),
{
    match value {
        1 => "Off",
        2 => "Warm",
        3 => "Cool",
        4 => "Black & White",
        5 => "Sepia",
        6 => "Happy",
        8 => "Vivid",
        _ => "Unknown",
    }
}

/// Panasonic noise reduction as ExifTool prints it ("Unknown" for other values).
pub open spec fn noise_reduction_exiftool(value: u16) -> &'static str {
    match value {
        0 => "Standard",
        1 => "Low (-1)",
        2 => "High (+1)",
        3 => "Lowest (-2)",
        4 => "Highest (+2)",
        5 => "+5",
        6 => "+6",
        65531 => "-5",
        65532 => "-4",
        65533 => "-3",
        65534 => "-2",
        65535 => "-1",
        _ => "Unknown",
    }
}

/// Panasonic noise reduction as ExifTool prints it ("Unknown" for other values).
fn decode_noise_reduction_exiftool(value: u16) -> (r: &'static str)
    ensures
        r == noise_reduction_exiftool(value),
{
    match value {
        0 => "Standard",
        1 => "Low (-1)",
        2 => "High (+1)",
        3 => "Lowest (-2)",
        4 => "Highest (+2)",
        5 => "+5",
        6 => "+6",
        65531 => "-5",
        65532 => "-4",
        65533 => "-3",
        65534 => "-2",
        65535 => "-1",
        _ => "Unknown",
    }
}

/// Panasonic self timer as ExifTool prints it ("Unknown" for other values).
pub open spec fn self_timer_exiftool(value: u16) -> &'static str {
    match value {
        0 => "Off (0)",
        1 => "Off",
        2 => "10 s",
        3 => "2 s",
        4 => "10 s / 3 pictures",
        258 => "2 s after shutter pressed",
        266 => "10 s after shutter pressed",
        778 => "3 photos after 10 s",
        _ => "Unknown",
    }
}

/// Panasonic self timer as ExifTool prints it ("Unknown" for other values).
fn decode_self_timer_exiftool(value: u16) -> (r: &'static str)
    ensures
        r == self_timer_exiftool(value),
{
    match value {
        0 => "Off (0)",
        1 => "Off",
        2 => "10 s",
        3 => "2 s",
        4 => "10 s / 3 pictures",
        258 => "2 s after shutter pressed",
        266 => "10 s after shutter pressed",
        778 => "3 photos after 10 s",
        _ => "Unknown",
    }
}

/// Panasonic rotation as ExifTool prints it ("Unknown" for other values).
pub open spec fn rotation_exiftool(value: u16) -> &'static str {
    match value {
        1 => "Horizontal (normal)",
        3 => "Rotate 180",
        6 => "Rotate 90 CW",
        8 => "Rotate 270 CW",
        _ => "Unknown",
    }
}

/// Panasonic rotation as ExifTool prints it ("Unknown" for other values).
fn decode_rotation_exiftool(value: u16) -> (r: &'static str)
    ensures
        r == rotation_exiftool(value),
{
    match value {
        1 => "Horizontal (normal)",
        3 => "Rotate 180",
        6 => "Rotate 90 CW",
        8 => "Rotate 270 CW",
        _ => "Unknown",
    }
}

/// Panasonic af assist lamp as ExifTool prints it ("Unknown" for other values).
pub open spec fn af_assist_lamp_exiftool(value: u16) -> &'static str {
    match value {
        1 => "Fired",
        2 => "Enabled but Not Used",
        3 => "Disabled but Required",
        4 => "Disabled and Not Required",
        _ => "Unknown",
    }
}

/// Panasonic af assist lamp as ExifTool prints it ("Unknown" for other values).
fn decode_af_assist_lamp_exiftool(value: u16) -> (r: &'static str)
    ensures
        r == af_assist_lamp_exiftool(value),
{
    match value {
        1 => "Fired",
        2 => "Enabled but Not Used",
        3 => "Disabled but Required",
        4 => "Disabled and Not Required",
        _ => "Unknown",
    }
}

/// Panasonic color mode as ExifTool prints it ("Unknown" for other values).
pub open spec fn color_mode_exiftool(value: u16) -> &'static str {
    match value {
        0 => "Normal",
        1 => "Natural",
        2 => "Vivid",
        _ => "Unknown",
    }
}

/// Panasonic color mode as ExifTool prints it ("Unknown" for other values).
fn decode_color_mode_exiftool(value: u16) -> (r: &'static str)
    ensures
        r == color_mode_exiftool(value),
{
    match value {
        0 => "Normal",
        1 => "Natural",
        2 => "Vivid",
        _ => "Unknown",
    }
}

/// Panasonic optical zoom mode as ExifTool prints it ("Unknown" for other values).
pub open spec fn optical_zoom_mode_exiftool(value: u16) -> &'static str {
    match value {
        1 => "Standard",
        2 => "Extended",
        _ => "Unknown",
    }
}

/// Panasonic optical zoom mode as ExifTool prints it ("Unknown" for other values).
fn decode_optical_zoom_mode_exiftool(value: u16) -> (r: &'static str)
    ensures
        r == optical_zoom_mode_exiftool(value),
{
    match value {
        1 => "Standard",
        2 => "Extended",
        _ => "Unknown",
    }
}

/// Panasonic conversion lens as ExifTool prints it ("Unknown" for other values).
pub open spec fn conversion_lens_exiftool(value: u16) -> &'static str {
    match value {
        1 => "Off",
        2 => "Wide",
        3 => "Telephoto",
        4 => "Macro",
        _ => "Unknown",
    }
}

/// Panasonic conversion lens as ExifTool prints it ("Unknown" for other values).
fn decode_conversion_lens_exiftool(value: u16) -> (r: &'static str)
    ensures
        r == conversion_lens_exiftool(value),
{
    match value {
        1 => "Off",
        2 => "Wide",
        3 => "Telephoto",
        4 => "Macro",
        _ => "Unknown",
    }
}

/// Panasonic battery level as ExifTool prints it ("Unknown" for other values).
pub open spec fn battery_level_exiftool(value: u16) -> &'static str {
    match value {
        1 => "Full",
        2 => "Medium",
        3 => "Low",
        4 => "Near Empty",
        7 => "Near Full",
        8 => "Medium Low",
        256 => "n/a",
        _ => "Unknown",
    }
}

/// Panasonic battery level as ExifTool prints it ("Unknown" for other values).
fn decode_battery_level_exiftool(value: u16) -> (r: &'static str)
    ensures
        r == battery_level_exiftool(value),
{
    match value {
        1 => "Full",
        2 => "Medium",
        3 => "Low",
        4 => "Near Empty",
        7 => "Near Full",
        8 => "Medium Low",
        256 => "n/a",
        _ => "Unknown",
    }
}

/// Panasonic world time location as ExifTool prints it ("Unknown" for other values).
pub open spec fn world_time_location_exiftool(value: u16) -> &'static str {
    match value {
        1 => "Home",
        2 => "Destination",
        _ => "Unknown",
    }
}

/// Panasonic world time location as ExifTool prints it ("Unknown" for other values).
fn decode_world_time_location_exiftool(value: u16) -> (r: &'static str)
    ensures
        r == world_time_location_exiftool(value),
{
    match value {
        1 => "Home",
        2 => "Destination",
        _ => "Unknown",
    }
}

/// Panasonic text stamp as ExifTool prints it ("Unknown" for other values).
pub open spec fn text_stamp_exiftool(value: u16) -> &'static str {
    match value {
        1 => "Off",
        2 => "On",
        _ => "Unknown",
    }
}

/// Panasonic text stamp as ExifTool prints it ("Unknown" for other values).
fn decode_text_stamp_exiftool(value: u16) -> (r: &'static str)
    ensures
        r == text_stamp_exiftool(value),
{
    match value {
        1 => "Off",
        2 => "On",
        _ => "Unknown",
    }
}

/// Panasonic camera orientation as ExifTool prints it ("Unknown" for other values).
pub open spec fn camera_orientation_exiftool(value: u8) -> &'static str {
    match value {
        0 => "Normal",
        1 => "Rotate CW",
        2 => "Rotate 180",
        3 => "Rotate CCW",
        4 => "Tilt Upwards",
        5 => "Tilt Downwards",
        _ => "Unknown",
    }
}

/// Panasonic camera orientation as ExifTool prints it ("Unknown" for other values).
fn decode_camera_orientation_exiftool(value: u8) -> (r: &'static str)
    ensures
        r == camera_orientation_exiftool(value),
{
    match value {
        0 => "Normal",
        1 => "Rotate CW",
        2 => "Rotate 180",
        3 => "Rotate CCW",
        4 => "Tilt Upwards",
        5 => "Tilt Downwards",
        _ => "Unknown",
    }
}

/// Panasonic film mode as ExifTool prints it ("Unknown" for other values).
pub open spec fn film_mode_exiftool(value: u16) -> &'static str {
    match value {
        0 => "n/a",
        1 => "Standard (color)",
        2 => "Dynamic (color)",
        3 => "Nature (color)",
        4 => "Smooth (color)",
        5 => "Standard (B&W)",
        6 => "Dynamic (B&W)",
        7 => "Smooth (B&W)",
        10 => "Nostalgic",
        11 => "Vibrant",
        _ => "Unknown",
    }
}

/// Panasonic film mode as ExifTool prints it ("Unknown" for other values).
fn decode_film_mode_exiftool(value: u16) -> (r: &'static str)
    ensures
        r == film_mode_exiftool(value),
{
    match value {
        0 => "n/a",
        1 => "Standard (color)",
        2 => "Dynamic (color)",
        3 => "Nature (color)",
        4 => "Smooth (color)",
        5 => "Standard (B&W)",
        6 => "Dynamic (B&W)",
        7 => "Smooth (B&W)",
        10 => "Nostalgic",
        11 => "Vibrant",
        _ => "Unknown",
    }
}

/// Panasonic jpeg quality as ExifTool prints it ("Unknown" for other values).
pub open spec fn jpeg_quality_exiftool(value: u16) -> &'static str {
    match value {
        0 => "n/a (Movie)",
        2 => "High",
        3 => "Standard",
        6 => "Very High",
        255 => "n/a (RAW only)",
        _ => "Unknown",
    }
}

/// Panasonic jpeg quality as ExifTool prints it ("Unknown" for other values).
fn decode_jpeg_quality_exiftool(value: u16) -> (r: &'static str)
    ensures
        r == jpeg_quality_exiftool(value),
{
    match value {
        0 => "n/a (Movie)",
        2 => "High",
        3 => "Standard",
        6 => "Very High",
        255 => "n/a (RAW only)",
        _ => "Unknown",
    }
}

/// Panasonic bracket settings as ExifTool prints it ("Unknown" for other values).
pub open spec fn bracket_settings_exiftool(value: u16) -> &'static str {
    match value {
        0 => "No Bracket",
        1 => "3 Images, Sequence 0/-/+",
        2 => "3 Images, Sequence -/0/+",
        3 => "5 Images, Sequence 0/-/+",
        4 => "5 Images, Sequence -/0/+",
        5 => "7 Images, Sequence 0/-/+",
        6 => "7 Images, Sequence -/0/+",
        _ => "Unknown",
    }
}

/// Panasonic bracket settings as ExifTool prints it ("Unknown" for other values).
fn decode_bracket_settings_exiftool(value: u16) -> (r: &'static str)
    ensures
        r == bracket_settings_exiftool(value),
{
    match value {
        0 => "No Bracket",
        1 => "3 Images, Sequence 0/-/+",
        2 => "3 Images, Sequence -/0/+",
        3 => "5 Images, Sequence 0/-/+",
        4 => "5 Images, Sequence -/0/+",
        5 => "7 Images, Sequence 0/-/+",
        6 => "7 Images, Sequence -/0/+",
        _ => "Unknown",
    }
}

/// Panasonic long exposure nr as ExifTool prints it ("Unknown" for other values).
pub open spec fn long_exposure_nr_exiftool(value: u16) -> &'static str {
    match value {
        1 => "Off",
        2 => "On",
        _ => "Unknown",
    }
}

/// Panasonic long exposure nr as ExifTool prints it ("Unknown" for other values).
fn decode_long_exposure_nr_exiftool(value: u16) -> (r: &'static str)
    ensures
        r == long_exposure_nr_exiftool(value),
{
    match value {
        1 => "Off",
        2 => "On",
        _ => "Unknown",
    }
}

/// Panasonic highlight warning as ExifTool prints it ("Unknown" for other values).
pub open spec fn highlight_warning_exiftool(value: u16) -> &'static str {
    match value {
        0 => "Disabled",
        1 => "No",
        2 => "Yes",
        _ => "Unknown",
    }
}

/// Panasonic highlight warning as ExifTool prints it ("Unknown" for other values).
fn decode_highlight_warning_exiftool(value: u16) -> (r: &'static str)
    ensures
        r == highlight_warning_exiftool(value),
{
    match value {
        0 => "Disabled",
        1 => "No",
        2 => "Yes",
        _ => "Unknown",
    }
}

/// Panasonic dark focus environment as ExifTool prints it ("Unknown" for other values).
pub open spec fn dark_focus_environment_exiftool(value: u16) -> &'static str {
    match value {
        1 => "No",
        2 => "Yes",
        _ => "Unknown",
    }
}

/// Panasonic dark focus environment as ExifTool prints it ("Unknown" for other values).
fn decode_dark_focus_environment_exiftool(value: u16) -> (r: &'static str)
    ensures
        r == dark_focus_environment_exiftool(value),
{
    match value {
        1 => "No",
        2 => "Yes",
        _ => "Unknown",
    }
}

/// Panasonic scene mode as ExifTool prints it ("Unknown" for other values).
pub open spec fn scene_mode_exiftool(value: u16) -> &'static str {
    match value {
        0 => "Off",
        1 => "Normal",
        2 => "Portrait",
        3 => "Scenery",
        4 => "Sports",
        5 => "Night Portrait",
        6 => "Program",
        7 => "Aperture Priority",
        8 => "Shutter Priority",
        9 => "Macro",
        10 => "Spot",
        11 => "Manual",
        12 => "Movie Preview",
        13 => "Panning",
        14 => "Simple",
        15 => "Color Effects",
        16 => "Self Portrait",
        17 => "Economy",
        18 => "Fireworks",
        19 => "Party",
        20 => "Snow",
        21 => "Night Scenery",
        22 => "Food",
        23 => "Baby",
        24 => "Soft Skin",
        25 => "Candlelight",
        26 => "Starry Night",
        27 => "High Sensitivity",
        28 => "Panorama Assist",
        29 => "Underwater",
        30 => "Beach",
        31 => "Aerial Photo",
        32 => "Sunset",
        33 => "Pet",
        34 => "Intelligent ISO",
        35 => "Clipboard",
        36 => "High Speed Continuous Shooting",
        37 => "Intelligent Auto",
        39 => "Multi-aspect",
        41 => "Transform",
        42 => "Flash Burst",
        43 => "Pin Hole",
        44 => "Film Grain",
        45 => "My Color",
        46 => "Photo Frame",
        48 => "Movie",
        51 => "HDR",
        52 => "Peripheral Defocus",
        55 => "Handheld Night Shot",
        57 => "3D",
        59 => "Creative Control",
        60 => "Intelligent Auto Plus",
        62 => "Panorama",
        63 => "Glass Through",
        64 => "HDR",
        66 => "Digital Filter",
        67 => "Clear Portrait",
        68 => "Silky Skin",
        69 => "Backlit Softness",
        70 => "Clear in Backlight",
        71 => "Relaxing Tone",
        72 => "Sweet Child's Face",
        73 => "Distinct Scenery",
        74 => "Bright Blue Sky",
        75 => "Romantic Sunset Glow",
        76 => "Vivid Sunset Glow",
        77 => "Glistening Water",
        78 => "Clear Nightscape",
        79 => "Cool Night Sky",
        _ => "Unknown",
    }
}

/// Panasonic scene mode as ExifTool prints it ("Unknown" for other values).
fn decode_scene_mode_exiftool(value: u16) -> (r: &'static str)
    ensures
        r == scene_mode_exiftool(value),
{
    match value {
        0 => "Off",
        1 => "Normal",
        2 => "Portrait",
        3 => "Scenery",
        4 => "Sports",
        5 => "Night Portrait",
        6 => "Program",
        7 => "Aperture Priority",
        8 => "Shutter Priority",
        9 => "Macro",
        10 => "Spot",
        11 => "Manual",
        12 => "Movie Preview",
        13 => "Panning",
        14 => "Simple",
        15 => "Color Effects",
        16 => "Self Portrait",
        17 => "Economy",
        18 => "Fireworks",
        19 => "Party",
        20 => "Snow",
        21 => "Night Scenery",
        22 => "Food",
        23 => "Baby",
        24 => "Soft Skin",
        25 => "Candlelight",
        26 => "Starry Night",
        27 => "High Sensitivity",
        28 => "Panorama Assist",
        29 => "Underwater",
        30 => "Beach",
        31 => "Aerial Photo",
        32 => "Sunset",
        33 => "Pet",
        34 => "Intelligent ISO",
        35 => "Clipboard",
        36 => "High Speed Continuous Shooting",
        37 => "Intelligent Auto",
        39 => "Multi-aspect",
        41 => "Transform",
        42 => "Flash Burst",
        43 => "Pin Hole",
        44 => "Film Grain",
        45 => "My Color",
        46 => "Photo Frame",
        48 => "Movie",
        51 => "HDR",
        52 => "Peripheral Defocus",
        55 => "Handheld Night Shot",
        57 => "3D",
        59 => "Creative Control",
        60 => "Intelligent Auto Plus",
        62 => "Panorama",
        63 => "Glass Through",
        64 => "HDR",
        66 => "Digital Filter",
        67 => "Clear Portrait",
        68 => "Silky Skin",
        69 => "Backlit Softness",
        70 => "Clear in Backlight",
        71 => "Relaxing Tone",
        72 => "Sweet Child's Face",
        73 => "Distinct Scenery",
        74 => "Bright Blue Sky",
        75 => "Romantic Sunset Glow",
        76 => "Vivid Sunset Glow",
        77 => "Glistening Water",
        78 => "Clear Nightscape",
        79 => "Cool Night Sky",
        _ => "Unknown",
    }
}

/// Panasonic intelligent d range as ExifTool prints it ("Unknown" for other values).
pub open spec fn intelligent_d_range_exiftool(value: u16) -> &'static str {
    match value {
        0 => "Off",
        1 => "Low",
        2 => "Standard",
        3 => "High",
        _ => "Unknown",
    }
}

/// Panasonic intelligent d range as ExifTool prints it ("Unknown" for other values).
fn decode_intelligent_d_range_exiftool(value: u16) -> (r: &'static str)
    ensures
        r == intelligent_d_range_exiftool(value),
{
    match value {
        0 => "Off",
        1 => "Low",
        2 => "Standard",
        3 => "High",
        _ => "Unknown",
    }
}

/// Panasonic AFAreaMode from its two bytes.
pub open spec fn af_area_mode_pair(byte0: u8, byte1: u8) -> &'static str {
    match (byte0, byte1) {
        (0, 1) => "9-area",
        (0, 16) => "3-area (high speed)",
        (0, 23) => "23-area",
        (0, 49) => "49-area",
        (0, 225) => "225-area",
        (1, 0) => "Spot Focusing",
        (1, 1) => "5-area",
        (16, 0) => "1-area",
        (16, 16) => "1-area (high speed)",
        (16, 32) => "1-area +",
        (17, 0) => "Full Area",
        (32, 0) => "Tracking",
        (32, 1) => "3-area (left)",
        (32, 2) => "3-area (center)",
        (32, 3) => "3-area (right)",
        (32, 16) => "Zone",
        (32, 18) => "Zone (horizontal/vertical)",
        (64, 0) => "Face Detect",
        (64, 1) => "Face Detect + 3-area (left)",
        (64, 2) => "Face Detect + 3-area (center)",
        (64, 3) => "Face Detect + 3-area (right)",
        (64, 4) => "Face Detect + 1-area",
        (128, 0) => "Pinpoint focus",
        (240, 0) => "Tracking",
        _ => "Unknown",
    }
}

/// Panasonic AFAreaMode from its two bytes.
pub fn decode_af_area_mode_pair(byte0: u8, byte1: u8) -> (r: &'static str)
    ensures
        r == af_area_mode_pair(byte0, byte1),
{
    match (byte0, byte1) {
        (0, 1) => "9-area",
        (0, 16) => "3-area (high speed)",
        (0, 23) => "23-area",
        (0, 49) => "49-area",
        (0, 225) => "225-area",
        (1, 0) => "Spot Focusing",
        (1, 1) => "5-area",
        (16, 0) => "1-area",
        (16, 16) => "1-area (high speed)",
        (16, 32) => "1-area +",
        (17, 0) => "Full Area",
        (32, 0) => "Tracking",
        (32, 1) => "3-area (left)",
        (32, 2) => "3-area (center)",
        (32, 3) => "3-area (right)",
        (32, 16) => "Zone",
        (32, 18) => "Zone (horizontal/vertical)",
        (64, 0) => "Face Detect",
        (64, 1) => "Face Detect + 3-area (left)",
        (64, 2) => "Face Detect + 3-area (center)",
        (64, 3) => "Face Detect + 3-area (right)",
        (64, 4) => "Face Detect + 1-area",
        (128, 0) => "Pinpoint focus",
        (240, 0) => "Tracking",
        _ => "Unknown",
    }
}

/// The SceneMode number whose decoded name is `k`.
pub open spec fn scene_mode_number(k: Seq<char>) -> Option<u16> {
    if k == "Off"@ {
        Some(0)
    } else if k == "Normal"@ {
        Some(1)
    } else if k == "Portrait"@ {
        Some(2)
    } else if k == "Scenery"@ {
        Some(3)
    } else if k == "Sports"@ {
        Some(4)
    } else if k == "Night Portrait"@ {
        Some(5)
    } else if k == "Program"@ {
        Some(6)
    } else if k == "Aperture Priority"@ {
        Some(7)
    } else if k == "Shutter Priority"@ {
        Some(8)
    } else if k == "Macro"@ {
        Some(9)
    } else if k == "Spot"@ {
        Some(10)
    } else if k == "Manual"@ {
        Some(11)
    } else if k == "Movie Preview"@ {
        Some(12)
    } else if k == "Panning"@ {
        Some(13)
    } else if k == "Simple"@ {
        Some(14)
    } else if k == "Color Effects"@ {
        Some(15)
    } else if k == "Self Portrait"@ {
        Some(16)
    } else if k == "Economy"@ {
        Some(17)
    } else if k == "Fireworks"@ {
        Some(18)
    } else if k == "Party"@ {
        Some(19)
    } else if k == "Snow"@ {
        Some(20)
    } else if k == "Night Scenery"@ {
        Some(21)
    } else if k == "Food"@ {
        Some(22)
    } else if k == "Baby"@ {
        Some(23)
    } else if k == "Soft Skin"@ {
        Some(24)
    } else if k == "Candlelight"@ {
        Some(25)
    } else if k == "Starry Night"@ {
        Some(26)
    } else if k == "High Sensitivity"@ {
        Some(27)
    } else if k == "Panorama Assist"@ {
        Some(28)
    } else if k == "Underwater"@ {
        Some(29)
    } else if k == "Beach"@ {
        Some(30)
    } else if k == "Aerial Photo"@ {
        Some(31)
    } else if k == "Sunset"@ {
        Some(32)
    } else if k == "Pet"@ {
        Some(33)
    } else if k == "Intelligent ISO"@ {
        Some(34)
    } else if k == "Clipboard"@ {
        Some(35)
    } else if k == "High Speed Continuous Shooting"@ {
        Some(36)
    } else if k == "Intelligent Auto"@ {
        Some(37)
    } else if k == "Multi-aspect"@ {
        Some(39)
    } else if k == "Transform"@ {
        Some(41)
    } else if k == "Flash Burst"@ {
        Some(42)
    } else if k == "Pin Hole"@ {
        Some(43)
    } else if k == "Film Grain"@ {
        Some(44)
    } else if k == "My Color"@ {
        Some(45)
    } else if k == "Photo Frame"@ {
        Some(46)
    } else if k == "HDR"@ {
        Some(51)
    } else if k == "Handheld Night Shot"@ {
        Some(55)
    } else if k == "3D"@ {
        Some(57)
    } else if k == "Creative Control"@ {
        Some(59)
    } else if k == "Intelligent Auto Plus"@ {
        Some(60)
    } else if k == "Panorama"@ {
        Some(62)
    } else if k == "Glass Through"@ {
        Some(63)
    } else if k == "Photo Style"@ {
        Some(90)
    } else {
        None
    }
}

/// The SceneMode number whose decoded name is `k`.
fn scene_mode_from_name(k: &str) -> (r: Option<u16>)
    ensures
        r == scene_mode_number(k@),
{
    if str_eq(k, "Off") {
        Some(0)
    } else if str_eq(k, "Normal") {
        Some(1)
    } else if str_eq(k, "Portrait") {
        Some(2)
    } else if str_eq(k, "Scenery") {
        Some(3)
    } else if str_eq(k, "Sports") {
        Some(4)
    } else if str_eq(k, "Night Portrait") {
        Some(5)
    } else if str_eq(k, "Program") {
        Some(6)
    } else if str_eq(k, "Aperture Priority") {
        Some(7)
    } else if str_eq(k, "Shutter Priority") {
        Some(8)
    } else if str_eq(k, "Macro") {
        Some(9)
    } else if str_eq(k, "Spot") {
        Some(10)
    } else if str_eq(k, "Manual") {
        Some(11)
    } else if str_eq(k, "Movie Preview") {
        Some(12)
    } else if str_eq(k, "Panning") {
        Some(13)
    } else if str_eq(k, "Simple") {
        Some(14)
    } else if str_eq(k, "Color Effects") {
        Some(15)
    } else if str_eq(k, "Self Portrait") {
        Some(16)
    } else if str_eq(k, "Economy") {
        Some(17)
    } else if str_eq(k, "Fireworks") {
        Some(18)
    } else if str_eq(k, "Party") {
        Some(19)
    } else if str_eq(k, "Snow") {
        Some(20)
    } else if str_eq(k, "Night Scenery") {
        Some(21)
    } else if str_eq(k, "Food") {
        Some(22)
    } else if str_eq(k, "Baby") {
        Some(23)
    } else if str_eq(k, "Soft Skin") {
        Some(24)
    } else if str_eq(k, "Candlelight") {
        Some(25)
    } else if str_eq(k, "Starry Night") {
        Some(26)
    } else if str_eq(k, "High Sensitivity") {
        Some(27)
    } else if str_eq(k, "Panorama Assist") {
        Some(28)
    } else if str_eq(k, "Underwater") {
        Some(29)
    } else if str_eq(k, "Beach") {
        Some(30)
    } else if str_eq(k, "Aerial Photo") {
        Some(31)
    } else if str_eq(k, "Sunset") {
        Some(32)
    } else if str_eq(k, "Pet") {
        Some(33)
    } else if str_eq(k, "Intelligent ISO") {
        Some(34)
    } else if str_eq(k, "Clipboard") {
        Some(35)
    } else if str_eq(k, "High Speed Continuous Shooting") {
        Some(36)
    } else if str_eq(k, "Intelligent Auto") {
        Some(37)
    } else if str_eq(k, "Multi-aspect") {
        Some(39)
    } else if str_eq(k, "Transform") {
        Some(41)
    } else if str_eq(k, "Flash Burst") {
        Some(42)
    } else if str_eq(k, "Pin Hole") {
        Some(43)
    } else if str_eq(k, "Film Grain") {
        Some(44)
    } else if str_eq(k, "My Color") {
        Some(45)
    } else if str_eq(k, "Photo Frame") {
        Some(46)
    } else if str_eq(k, "HDR") {
        Some(51)
    } else if str_eq(k, "Handheld Night Shot") {
        Some(55)
    } else if str_eq(k, "3D") {
        Some(57)
    } else if str_eq(k, "Creative Control") {
        Some(59)
    } else if str_eq(k, "Intelligent Auto Plus") {
        Some(60)
    } else if str_eq(k, "Panorama") {
        Some(62)
    } else if str_eq(k, "Glass Through") {
        Some(63)
    } else if str_eq(k, "Photo Style") {
        Some(90)
    } else {
        None
    }
}

/// AdvancedSceneMode named by a (SceneMode, AdvancedSceneType) pair.
pub open spec fn advanced_scene_pair(scene_mode: u16, adv_type: u16) -> Option<&'static str> {
    match (scene_mode, adv_type) {
        (0, 1) => Some("Off"),
        (2, 2) => Some("Outdoor Portrait"),
        (2, 3) => Some("Indoor Portrait"),
        (2, 4) => Some("Creative Portrait"),
        (3, 2) => Some("Nature"),
        (3, 3) => Some("Architecture"),
        (3, 4) => Some("Creative Scenery"),
        (4, 2) => Some("Outdoor Sports"),
        (4, 3) => Some("Indoor Sports"),
        (4, 4) => Some("Creative Sports"),
        (9, 2) => Some("Flower"),
        (9, 3) => Some("Objects"),
        (9, 4) => Some("Creative Macro"),
        (18, 1) => Some("High Sensitivity"),
        (20, 1) => Some("Fireworks"),
        (21, 2) => Some("Illuminations"),
        (21, 4) => Some("Creative Night Scenery"),
        (26, 1) => Some("High-speed Burst (shot 1)"),
        (27, 1) => Some("High-speed Burst (shot 2)"),
        (29, 1) => Some("Snow"),
        (30, 1) => Some("Starry Sky"),
        (31, 1) => Some("Beach"),
        (36, 1) => Some("High-speed Burst (shot 3)"),
        (39, 1) => Some("Aerial Photo / Underwater / Multi-aspect"),
        (45, 2) => Some("Cinema"),
        (45, 7) => Some("Expressive"),
        (45, 8) => Some("Retro"),
        (45, 9) => Some("Pure"),
        (45, 10) => Some("Elegant"),
        (45, 12) => Some("Monochrome"),
        (45, 13) => Some("Dynamic Art"),
        (45, 14) => Some("Silhouette"),
        (51, 2) => Some("HDR Art"),
        (51, 3) => Some("HDR B&W"),
        (59, 1) => Some("Expressive"),
        (59, 2) => Some("Retro"),
        (59, 3) => Some("High Key"),
        (59, 4) => Some("Sepia"),
        (59, 5) => Some("High Dynamic"),
        (59, 6) => Some("Miniature"),
        (59, 9) => Some("Low Key"),
        (59, 10) => Some("Toy Effect"),
        (59, 11) => Some("Dynamic Monochrome"),
        (59, 12) => Some("Soft"),
        (66, 1) => Some("Impressive Art"),
        (66, 2) => Some("Cross Process"),
        (66, 3) => Some("Color Select"),
        (66, 4) => Some("Star"),
        (90, 3) => Some("Old Days"),
        (90, 4) => Some("Sunshine"),
        (90, 5) => Some("Bleach Bypass"),
        (90, 6) => Some("Toy Pop"),
        (90, 7) => Some("Fantasy"),
        (90, 8) => Some("Monochrome"),
        (90, 9) => Some("Rough Monochrome"),
        (90, 10) => Some("Silky Monochrome"),
        (92, 1) => Some("Handheld Night Shot"),
        _ => None,
    }
}

/// AdvancedSceneMode named by a (SceneMode, AdvancedSceneType) pair.
fn advanced_scene_pair_name(scene_mode: u16, adv_type: u16) -> (r: Option<&'static str>)
    ensures
        r == advanced_scene_pair(scene_mode, adv_type),
{
    match (scene_mode, adv_type) {
        (0, 1) => Some("Off"),
        (2, 2) => Some("Outdoor Portrait"),
        (2, 3) => Some("Indoor Portrait"),
        (2, 4) => Some("Creative Portrait"),
        (3, 2) => Some("Nature"),
        (3, 3) => Some("Architecture"),
        (3, 4) => Some("Creative Scenery"),
        (4, 2) => Some("Outdoor Sports"),
        (4, 3) => Some("Indoor Sports"),
        (4, 4) => Some("Creative Sports"),
        (9, 2) => Some("Flower"),
        (9, 3) => Some("Objects"),
        (9, 4) => Some("Creative Macro"),
        (18, 1) => Some("High Sensitivity"),
        (20, 1) => Some("Fireworks"),
        (21, 2) => Some("Illuminations"),
        (21, 4) => Some("Creative Night Scenery"),
        (26, 1) => Some("High-speed Burst (shot 1)"),
        (27, 1) => Some("High-speed Burst (shot 2)"),
        (29, 1) => Some("Snow"),
        (30, 1) => Some("Starry Sky"),
        (31, 1) => Some("Beach"),
        (36, 1) => Some("High-speed Burst (shot 3)"),
        (39, 1) => Some("Aerial Photo / Underwater / Multi-aspect"),
        (45, 2) => Some("Cinema"),
        (45, 7) => Some("Expressive"),
        (45, 8) => Some("Retro"),
        (45, 9) => Some("Pure"),
        (45, 10) => Some("Elegant"),
        (45, 12) => Some("Monochrome"),
        (45, 13) => Some("Dynamic Art"),
        (45, 14) => Some("Silhouette"),
        (51, 2) => Some("HDR Art"),
        (51, 3) => Some("HDR B&W"),
        (59, 1) => Some("Expressive"),
        (59, 2) => Some("Retro"),
        (59, 3) => Some("High Key"),
        (59, 4) => Some("Sepia"),
        (59, 5) => Some("High Dynamic"),
        (59, 6) => Some("Miniature"),
        (59, 9) => Some("Low Key"),
        (59, 10) => Some("Toy Effect"),
        (59, 11) => Some("Dynamic Monochrome"),
        (59, 12) => Some("Soft"),
        (66, 1) => Some("Impressive Art"),
        (66, 2) => Some("Cross Process"),
        (66, 3) => Some("Color Select"),
        (66, 4) => Some("Star"),
        (90, 3) => Some("Old Days"),
        (90, 4) => Some("Sunshine"),
        (90, 5) => Some("Bleach Bypass"),
        (90, 6) => Some("Toy Pop"),
        (90, 7) => Some("Fantasy"),
        (90, 8) => Some("Monochrome"),
        (90, 9) => Some("Rough Monochrome"),
        (90, 10) => Some("Silky Monochrome"),
        (92, 1) => Some("Handheld Night Shot"),
        _ => None,
    }
}



// ---------------------------------------------------------------------------
// Model-dependent and composite values
// ---------------------------------------------------------------------------

/// FocusMode as ExifTool prints it.
pub fn decode_focus_mode_exiftool(value: u16) -> (r: &'static str)
    ensures
        r == panasonic_focus_mode_exiftool(value),
{
    decode_panasonic_focus_mode_exiftool(value)
}

/// AFAreaMode (single value) as ExifTool prints it.
pub fn decode_af_area_mode_exiftool(value: u16) -> (r: &'static str)
    ensures
        r == panasonic_af_area_mode_exiftool(value),
{
    decode_panasonic_af_area_mode_exiftool(value)
}

/// Whether ContrastMode is shown as the raw number for this (upper-cased) model.
pub open spec fn contrast_raw_model(u: Seq<char>) -> bool {
    ||| u == "DMC-G1"@
    ||| u == "DMC-L1"@
    ||| u == "DMC-L10"@
    ||| u == "DMC-LC80"@
    ||| u == "DMC-FX10"@
    ||| u == "DMC-TZ10"@
    ||| u == "DMC-ZS7"@
    ||| (u.len() >= 3 && u.take(3) == "DC-"@)
}

/// Whether the (upper-cased) model uses the GF contrast names.
pub open spec fn contrast_gf_model(u: Seq<char>) -> bool {
    (u.len() >= 6 && u.take(6) == "DMC-GF"@) || u == "DMC-G2"@
}

/// ContrastMode as ExifTool prints it for the model: the raw number for some
/// models, the GF names for the GF series and the G2, the usual names otherwise.
pub open spec fn contrast_mode_text(value: u16, model: Option<Seq<char>>) -> Seq<char> {
    let u = unicode_upper(
        match model {
            Some(m) => m,
            None => Seq::empty(),
        },
    );
    if contrast_raw_model(u) {
        dec(value as nat)
    } else if contrast_gf_model(u) {
        contrast_mode_gf_exiftool(value)@
    } else {
        contrast_mode_exiftool(value)@
    }
}

/// Decodes ContrastMode with the model-specific names.
pub fn decode_contrast_mode_with_model(value: u16, model: Option<&str>) -> (r: String)
    ensures
        r@ == contrast_mode_text(
            value,
            match model {
                Some(m) => Some(m@),
                None => None,
            },
        ),
{
    let model_str: &str = match model {
        Some(m) => m,
        None => "",
    };
    proof {
        reveal_strlit("");
        reveal_strlit("DC-");
        reveal_strlit("DMC-GF");
    }
    let upper = to_upper(model_str);
    let u = upper.as_str();
    let is_raw = str_eq(u, "DMC-G1") || str_eq(u, "DMC-L1") || str_eq(u, "DMC-L10") || str_eq(
        u,
        "DMC-LC80",
    ) || str_eq(u, "DMC-FX10") || str_eq(u, "DMC-TZ10") || str_eq(u, "DMC-ZS7") || starts_with(
        u,
        "DC-",
    );
    let is_gf = starts_with(u, "DMC-GF") || str_eq(u, "DMC-G2");
    let ghost mv = match model {
        Some(m) => m@,
        None => Seq::empty(),
    };
    assert(model_str@ == mv);
    assert(u@ == unicode_upper(mv));
    assert(is_raw == contrast_raw_model(u@));
    assert(is_gf == contrast_gf_model(u@));
    if is_raw {
        fmt_dec(value as u64)
    } else if is_gf {
        owned(decode_contrast_mode_gf_exiftool(value))
    } else {
        owned(decode_contrast_mode_exiftool(value))
    }
}

/// AdvancedSceneMode from SceneMode and AdvancedSceneType.
pub open spec fn advanced_scene_text(scene_mode: u16, adv_type: u16) -> Seq<char> {
    match advanced_scene_pair(scene_mode, adv_type) {
        Some(n) => n@,
        None => {
            let name = scene_mode_exiftool(scene_mode)@;
            let known = name != "Unknown"@ && name != "Off"@;
            if known && adv_type == 1 {
                name
            } else if known && adv_type == 5 {
                name + " (intelligent auto)"@
            } else if known && adv_type == 7 {
                name + " (intelligent auto plus)"@
            } else {
                "Unknown ("@ + dec(scene_mode as nat) + seq![' '] + dec(adv_type as nat) + ")"@
            }
        },
    }
}

fn compute_advanced_scene_mode(scene_mode: u16, adv_type: u16) -> (r: String)
    ensures
        r@ == advanced_scene_text(scene_mode, adv_type),
{
    if let Some(n) = advanced_scene_pair_name(scene_mode, adv_type) {
        return owned(n);
    }
    let scene_name = decode_scene_mode_exiftool(scene_mode);
    if !str_eq(scene_name, "Unknown") && !str_eq(scene_name, "Off") {
        if adv_type == 1 {
            return owned(scene_name);
        } else if adv_type == 5 {
            let mut s = owned(scene_name);
            push_str(&mut s, " (intelligent auto)");
            return s;
        } else if adv_type == 7 {
            let mut s = owned(scene_name);
            push_str(&mut s, " (intelligent auto plus)");
            return s;
        }
    }
    let mut s = owned("Unknown (");
    push_dec(&mut s, scene_mode as u64);
    push_char(&mut s, ' ');
    push_dec(&mut s, adv_type as u64);
    push_str(&mut s, ")");
    proof {
        assert(s@ =~= advanced_scene_text(scene_mode, adv_type));
    }
    s
}

// ---------------------------------------------------------------------------
// Signed settings
// ---------------------------------------------------------------------------

/// "+n" for positive numbers, the number otherwise.
pub open spec fn plus_dec(n: int) -> Seq<char> {
    if n > 0 {
        seq!['+'] + dec(n as nat)
    } else {
        int_dec(n)
    }
}

fn plus_dec_exec(n: i64) -> (r: String)
    ensures
        r@ == plus_dec(n as int),
{
    if n > 0 {
        let mut s = owned("+");
        push_dec(&mut s, n as u64);
        proof {
            reveal_strlit("+");
            assert(s@ =~= plus_dec(n as int));
        }
        s
    } else {
        fmt_int(n)
    }
}

/// WhiteBalanceBias: thirds of a step, whole ones as integers and others to two decimals.
pub open spec fn thirds_text(n: int) -> Seq<char> {
    if n % 3 == 0 {
        plus_dec(n / 3)
    } else {
        let a = if n < 0 {
            -n
        } else {
            n
        };
        (if n > 0 {
            seq!['+']
        } else {
            seq!['-']
        }) + dec((a / 3) as nat) + seq!['.'] + (if a % 3 == 1 {
            "33"@
        } else {
            "67"@
        })
    }
}

fn thirds_string(n: i64) -> (r: String)
    requires
        -100_000 <= n <= 100_000,
    ensures
        r@ == thirds_text(n as int),
{
    if n % 3 == 0 {
        return plus_dec_exec(n / 3);
    }
    let a: i64 = if n < 0 {
        -n
    } else {
        n
    };
    let mut s = String::new();
    push_char(&mut s, if n > 0 {
        '+'
    } else {
        '-'
    });
    push_dec(&mut s, (a / 3) as u64);
    push_char(&mut s, '.');
    push_str(&mut s, if a % 3 == 1 {
        "33"
    } else {
        "67"
    });
    proof {
        assert(s@ =~= thirds_text(n as int));
    }
    s
}

/// An angle in tenths of a degree: whole degrees as integers, others to one decimal.
pub open spec fn tenths_angle_text(n: int) -> Seq<char> {
    if n % 10 == 0 {
        int_dec(n / 10)
    } else {
        let a = if n < 0 {
            -n
        } else {
            n
        };
        (if n < 0 {
            seq!['-']
        } else {
            seq![]
        }) + dec((a / 10) as nat) + seq!['.'] + dec((a % 10) as nat)
    }
}

fn tenths_angle_string(n: i64) -> (r: String)
    requires
        -100_000 <= n <= 100_000,
    ensures
        r@ == tenths_angle_text(n as int),
{
    if n % 10 == 0 {
        return fmt_int(n / 10);
    }
    let a: i64 = if n < 0 {
        -n
    } else {
        n
    };
    let mut s = String::new();
    if n < 0 {
        push_char(&mut s, '-');
    }
    push_dec(&mut s, (a / 10) as u64);
    push_char(&mut s, '.');
    push_dec(&mut s, (a % 10) as u64);
    proof {
        assert(s@ =~= tenths_angle_text(n as int));
    }
    s
}

/// FlashBias: thirds of a step, "+n"/"n" for whole steps, else "n/3".
pub open spec fn flash_bias_text(n: int) -> Seq<char> {
    if n == 0 {
        "0"@
    } else if n % 3 == 0 {
        plus_dec(n / 3)
    } else {
        plus_dec(n) + "/3"@
    }
}

fn flash_bias_string(n: i64) -> (r: String)
    requires
        -100_000 <= n <= 100_000,
    ensures
        r@ == flash_bias_text(n as int),
{
    if n == 0 {
        owned("0")
    } else if n % 3 == 0 {
        plus_dec_exec(n / 3)
    } else {
        let mut s = plus_dec_exec(n);
        push_str(&mut s, "/3");
        s
    }
}

/// The text of a single SHORT of a Panasonic tag, when the tag has one.
pub open spec fn short_text(tag: u16, v: u16, model: Option<Seq<char>>) -> Option<Seq<char>> {
    if tag == PANA_IMAGE_QUALITY {
        Some(image_quality_exiftool(v)@)
    } else if tag == PANA_WHITE_BALANCE {
        Some(white_balance_exiftool(v)@)
    } else if tag == PANA_FOCUS_MODE {
        Some(panasonic_focus_mode_exiftool(v)@)
    } else if tag == PANA_AF_AREA_MODE {
        Some(panasonic_af_area_mode_exiftool(v)@)
    } else if tag == PANA_IMAGE_STABILIZATION {
        Some(image_stabilization_exiftool(v)@)
    } else if tag == PANA_MACRO_MODE {
        Some(macro_mode_exiftool(v)@)
    } else if tag == PANA_SHOOTING_MODE {
        Some(shooting_mode_exiftool(v)@)
    } else if tag == PANA_PHOTO_STYLE {
        Some(photo_style_exiftool(v)@)
    } else if tag == PANA_SHUTTER_TYPE {
        Some(shutter_type_exiftool(v)@)
    } else if tag == PANA_CONTRAST_MODE {
        Some(if contrast_mode_text(v, model) == "Unknown"@ { "Unknown (0x"@ + hex(v as nat, false) + ")"@ } else { contrast_mode_text(v, model) })
    } else if tag == PANA_BURST_MODE {
        Some(burst_mode_exiftool(v)@)
    } else if tag == PANA_INTELLIGENT_RESOLUTION {
        Some(intelligent_resolution_exiftool(v)@)
    } else if tag == PANA_CLEAR_RETOUCH {
        Some(clear_retouch_exiftool(v)@)
    } else if tag == PANA_TOUCH_AE {
        Some(touch_ae_exiftool(v)@)
    } else if tag == PANA_FLASH_CURTAIN {
        Some(flash_curtain_exiftool(v)@)
    } else if tag == PANA_HDR_SHOT {
        Some(hdr_shot_exiftool(v)@)
    } else if tag == PANA_AUDIO {
        Some(audio_exiftool(v)@)
    } else if tag == PANA_COLOR_EFFECT {
        Some(color_effect_exiftool(v)@)
    } else if tag == PANA_NOISE_REDUCTION {
        Some(noise_reduction_exiftool(v)@)
    } else if tag == PANA_SELF_TIMER {
        Some(self_timer_exiftool(v)@)
    } else if tag == PANA_ROTATION {
        Some(rotation_exiftool(v)@)
    } else if tag == PANA_AF_ASSIST_LAMP {
        Some(af_assist_lamp_exiftool(v)@)
    } else if tag == PANA_COLOR_MODE {
        Some(color_mode_exiftool(v)@)
    } else if tag == PANA_OPTICAL_ZOOM_MODE {
        Some(optical_zoom_mode_exiftool(v)@)
    } else if tag == PANA_CONVERSION_LENS {
        Some(conversion_lens_exiftool(v)@)
    } else if tag == PANA_BATTERY_LEVEL {
        Some(battery_level_exiftool(v)@)
    } else if tag == PANA_WORLD_TIME_LOCATION {
        Some(world_time_location_exiftool(v)@)
    } else if tag == PANA_TEXT_STAMP || tag == PANA_TEXT_STAMP_2 {
        Some(text_stamp_exiftool(v)@)
    } else if tag == PANA_SHADING_COMPENSATION {
        Some(shading_compensation_exiftool(v)@)
    } else if tag == PANA_PROGRAM_ISO {
        if v == 65534 { Some("Intelligent ISO"@) } else if v == 65535 { Some("n/a"@) } else { None }
    } else if tag == PANA_TRAVEL_DAY {
        if v == 65535 { Some("n/a"@) } else { None }
    } else if tag == PANA_FILM_MODE {
        Some(film_mode_exiftool(v)@)
    } else if tag == PANA_JPEG_QUALITY {
        Some(jpeg_quality_exiftool(v)@)
    } else if tag == PANA_BRACKET_SETTINGS {
        Some(bracket_settings_exiftool(v)@)
    } else if tag == PANA_LONG_EXPOSURE_NR {
        Some(long_exposure_nr_exiftool(v)@)
    } else if tag == PANA_SCENE_MODE {
        Some(scene_mode_exiftool(v)@)
    } else if tag == PANA_VIDEO_FRAME_RATE {
        if v == 0 { Some("n/a"@) } else { None }
    } else if tag == PANA_HIGHLIGHT_WARNING {
        Some(highlight_warning_exiftool(v)@)
    } else if tag == PANA_DARK_FOCUS_ENVIRONMENT {
        Some(dark_focus_environment_exiftool(v)@)
    } else if tag == PANA_INTELLIGENT_D_RANGE {
        Some(intelligent_d_range_exiftool(v)@)
    } else if tag == PANA_BURST_SPEED {
        None
    } else if tag == PANA_FACE_DETECTED {
        None
    } else if tag == PANA_TEXT_STAMP_3 || tag == PANA_TEXT_STAMP_4 {
        Some(text_stamp_exiftool(v)@)
    } else if tag == PANA_SATURATION || tag == PANA_SHARPNESS || tag == PANA_CONTRAST {
        if v as i16 == 0 { Some("Normal"@) } else { Some(plus_dec(v as i16 as int)) }
    } else if tag == PANA_WB_SHIFT_AB || tag == PANA_WB_SHIFT_GM {
        Some(int_dec(v as i16 as int))
    } else if tag == PANA_WHITE_BALANCE_BIAS {
        Some(thirds_text(v as i16 as int))
    } else if tag == PANA_FLASH_BIAS {
        Some(flash_bias_text(v as i16 as int))
    } else if tag == PANA_ACCELEROMETER_X || tag == PANA_ACCELEROMETER_Y || tag == PANA_ACCELEROMETER_Z {
        Some(int_dec(v as i16 as int))
    } else if tag == PANA_ROLL_ANGLE {
        Some(tenths_angle_text(v as i16 as int))
    } else if tag == PANA_PITCH_ANGLE {
        Some(tenths_angle_text(-(v as i16 as int)))
    } else if tag == PANA_WB_RED_LEVEL || tag == PANA_WB_GREEN_LEVEL || tag == PANA_WB_BLUE_LEVEL {
        Some(dec((v / 4) as nat))
    } else if tag == PANA_LANDMARK {
        if v == 0 { Some(Seq::empty()) } else { None }
    } else {
        None
    }
}

fn short_text_exec(tag: u16, v: u16, model: Option<&str>) -> (r: Option<String>)
    ensures
        match r {
            Some(t) => short_text(tag, v, opt_str(model)) == Some(t@),
            None => short_text(tag, v, opt_str(model)) is None,
        },
{
    if tag == PANA_IMAGE_QUALITY {
        Some(owned(decode_image_quality_exiftool(v)))
    } else if tag == PANA_WHITE_BALANCE {
        Some(owned(decode_white_balance_exiftool(v)))
    } else if tag == PANA_FOCUS_MODE {
        Some(owned(decode_focus_mode_exiftool(v)))
    } else if tag == PANA_AF_AREA_MODE {
        Some(owned(decode_af_area_mode_exiftool(v)))
    } else if tag == PANA_IMAGE_STABILIZATION {
        Some(owned(decode_image_stabilization_exiftool(v)))
    } else if tag == PANA_MACRO_MODE {
        Some(owned(decode_macro_mode_exiftool(v)))
    } else if tag == PANA_SHOOTING_MODE {
        Some(owned(decode_shooting_mode_exiftool(v)))
    } else if tag == PANA_PHOTO_STYLE {
        Some(owned(decode_photo_style_exiftool(v)))
    } else if tag == PANA_SHUTTER_TYPE {
        Some(owned(decode_shutter_type_exiftool(v)))
    } else if tag == PANA_CONTRAST_MODE {
        {
            let decoded = decode_contrast_mode_with_model(v, model);
            if str_eq(decoded.as_str(), "Unknown") {
                let mut s = owned("Unknown (0x");
                push_hex(&mut s, v as u64, false);
                push_str(&mut s, ")");
                Some(s)
            } else {
                Some(decoded)
            }
        }
    } else if tag == PANA_BURST_MODE {
        Some(owned(decode_burst_mode_exiftool(v)))
    } else if tag == PANA_INTELLIGENT_RESOLUTION {
        Some(owned(decode_intelligent_resolution_exiftool(v)))
    } else if tag == PANA_CLEAR_RETOUCH {
        Some(owned(decode_clear_retouch_exiftool(v)))
    } else if tag == PANA_TOUCH_AE {
        Some(owned(decode_touch_ae_exiftool(v)))
    } else if tag == PANA_FLASH_CURTAIN {
        Some(owned(decode_flash_curtain_exiftool(v)))
    } else if tag == PANA_HDR_SHOT {
        Some(owned(decode_hdr_shot_exiftool(v)))
    } else if tag == PANA_AUDIO {
        Some(owned(decode_audio_exiftool(v)))
    } else if tag == PANA_COLOR_EFFECT {
        Some(owned(decode_color_effect_exiftool(v)))
    } else if tag == PANA_NOISE_REDUCTION {
        Some(owned(decode_noise_reduction_exiftool(v)))
    } else if tag == PANA_SELF_TIMER {
        Some(owned(decode_self_timer_exiftool(v)))
    } else if tag == PANA_ROTATION {
        Some(owned(decode_rotation_exiftool(v)))
    } else if tag == PANA_AF_ASSIST_LAMP {
        Some(owned(decode_af_assist_lamp_exiftool(v)))
    } else if tag == PANA_COLOR_MODE {
        Some(owned(decode_color_mode_exiftool(v)))
    } else if tag == PANA_OPTICAL_ZOOM_MODE {
        Some(owned(decode_optical_zoom_mode_exiftool(v)))
    } else if tag == PANA_CONVERSION_LENS {
        Some(owned(decode_conversion_lens_exiftool(v)))
    } else if tag == PANA_BATTERY_LEVEL {
        Some(owned(decode_battery_level_exiftool(v)))
    } else if tag == PANA_WORLD_TIME_LOCATION {
        Some(owned(decode_world_time_location_exiftool(v)))
    } else if tag == PANA_TEXT_STAMP || tag == PANA_TEXT_STAMP_2 {
        Some(owned(decode_text_stamp_exiftool(v)))
    } else if tag == PANA_SHADING_COMPENSATION {
        Some(owned(decode_shading_compensation_exiftool(v)))
    } else if tag == PANA_PROGRAM_ISO {
        if v == 65534 { Some(owned("Intelligent ISO")) } else if v == 65535 { Some(owned("n/a")) } else { None }
    } else if tag == PANA_TRAVEL_DAY {
        if v == 65535 { Some(owned("n/a")) } else { None }
    } else if tag == PANA_FILM_MODE {
        Some(owned(decode_film_mode_exiftool(v)))
    } else if tag == PANA_JPEG_QUALITY {
        Some(owned(decode_jpeg_quality_exiftool(v)))
    } else if tag == PANA_BRACKET_SETTINGS {
        Some(owned(decode_bracket_settings_exiftool(v)))
    } else if tag == PANA_LONG_EXPOSURE_NR {
        Some(owned(decode_long_exposure_nr_exiftool(v)))
    } else if tag == PANA_SCENE_MODE {
        Some(owned(decode_scene_mode_exiftool(v)))
    } else if tag == PANA_VIDEO_FRAME_RATE {
        if v == 0 { Some(owned("n/a")) } else { None }
    } else if tag == PANA_HIGHLIGHT_WARNING {
        Some(owned(decode_highlight_warning_exiftool(v)))
    } else if tag == PANA_DARK_FOCUS_ENVIRONMENT {
        Some(owned(decode_dark_focus_environment_exiftool(v)))
    } else if tag == PANA_INTELLIGENT_D_RANGE {
        Some(owned(decode_intelligent_d_range_exiftool(v)))
    } else if tag == PANA_BURST_SPEED {
        None
    } else if tag == PANA_FACE_DETECTED {
        None
    } else if tag == PANA_TEXT_STAMP_3 || tag == PANA_TEXT_STAMP_4 {
        Some(owned(decode_text_stamp_exiftool(v)))
    } else if tag == PANA_SATURATION || tag == PANA_SHARPNESS || tag == PANA_CONTRAST {
        if v as i16 == 0 { Some(owned("Normal")) } else { Some(plus_dec_exec(v as i16 as i64)) }
    } else if tag == PANA_WB_SHIFT_AB || tag == PANA_WB_SHIFT_GM {
        Some(fmt_int(v as i16 as i64))
    } else if tag == PANA_WHITE_BALANCE_BIAS {
        Some(thirds_string(v as i16 as i64))
    } else if tag == PANA_FLASH_BIAS {
        Some(flash_bias_string(v as i16 as i64))
    } else if tag == PANA_ACCELEROMETER_X || tag == PANA_ACCELEROMETER_Y || tag == PANA_ACCELEROMETER_Z {
        Some(fmt_int(v as i16 as i64))
    } else if tag == PANA_ROLL_ANGLE {
        Some(tenths_angle_string(v as i16 as i64))
    } else if tag == PANA_PITCH_ANGLE {
        Some(tenths_angle_string(-(v as i16 as i64)))
    } else if tag == PANA_WB_RED_LEVEL || tag == PANA_WB_GREEN_LEVEL || tag == PANA_WB_BLUE_LEVEL {
        Some(fmt_dec((v / 4) as u64))
    } else if tag == PANA_LANDMARK {
        if v == 0 { Some(String::new()) } else { None }
    } else {
        None
    }
}


// ---------------------------------------------------------------------------
// Text fields
// ---------------------------------------------------------------------------

/// The view of an optional string.
pub open spec fn opt_str(m: Option<&str>) -> Option<Seq<char>> {
    match m {
        Some(s) => Some(s@),
        None => None,
    }
}

/// A text field that is empty when it holds no valid text: the bytes before
/// the first NUL, decoded as UTF-8.
pub open spec fn c_string_text(b: Seq<u8>) -> Seq<char> {
    let t = until_nul(b);
    if t.len() == 0 {
        Seq::empty()
    } else {
        match utf8_decode(t) {
            Some(s) => s,
            None => Seq::empty(),
        }
    }
}

fn c_string_exec(b: &[u8]) -> (r: String)
    ensures
        r@ == c_string_text(b@),
{
    let t = until_nul_exec(b);
    if t.len() == 0 {
        return String::new();
    }
    match utf8_str(t.as_slice()) {
        Some(s) => owned(s),
        None => String::new(),
    }
}

/// The digits of a number field: without its leading '+' when it has one.
pub open spec fn field_digits(b: Seq<u8>) -> Seq<u8> {
    if b.len() > 0 && b[0] == 0x2b {
        b.skip(1)
    } else {
        b
    }
}

/// Whether every byte is an ASCII digit.
pub open spec fn all_digits(d: Seq<u8>) -> bool {
    forall|i: int| 0 <= i < d.len() ==> 0x30 <= #[trigger] d[i] <= 0x39
}

/// The value of ASCII digits, with an optional leading '+', as `str::parse` reads
/// an unsigned number; `None` when there is no digit or another character.
pub open spec fn parse_field(b: Seq<u8>) -> Option<nat> {
    let d = field_digits(b);
    if d.len() > 0 && all_digits(d) {
        Some(digits_value(d))
    } else {
        None
    }
}

/// Ten to the power `n`.
pub open spec fn ten_pow(n: nat) -> nat
    decreases n,
{
    if n == 0 {
        1
    } else {
        10 * ten_pow((n - 1) as nat)
    }
}

/// The number written by ASCII digits.
pub open spec fn digits_value(d: Seq<u8>) -> nat
    decreases d.len(),
{
    if d.len() == 0 {
        0
    } else {
        digits_value(d.drop_last()) * 10 + (d.last() - 0x30) as nat
    }
}

fn parse_field_exec(b: &[u8]) -> (r: Option<u32>)
    requires
        b@.len() <= 4,
    ensures
        match r {
            Some(n) => parse_field(b@) == Some(n as nat) && n < 10000,
            None => parse_field(b@) is None,
        },
{
    let start: usize = if b.len() > 0 && b[0] == 0x2b {
        1
    } else {
        0
    };
    let ghost d = field_digits(b@);
    if start >= b.len() {
        assert(d.len() == 0);
        return None;
    }
    let mut n: u32 = 0;
    let mut i: usize = start;
    while i < b.len()
        invariant
            start <= i <= b@.len(),
            b@.len() <= 4,
            d == b@.skip(start as int),
            d == field_digits(b@),
            forall|j: int| 0 <= j < i - start ==> 0x30 <= #[trigger] d[j] <= 0x39,
            n == digits_value(d.take(i - start)),
            n < ten_pow((i - start) as nat),
        decreases b.len() - i,
    {
        if b[i] < 0x30 || b[i] > 0x39 {
            assert(d[i - start] == b@[i as int]);
            assert(!all_digits(d));
            return None;
        }
        proof {
            assert(d.take(i + 1 - start).drop_last() =~= d.take(i - start));
            assert(d.take(i + 1 - start).last() == b@[i as int]);
            assert(i - start <= 3);
            assert(ten_pow((i - start) as nat) <= 1000) by {
                reveal_with_fuel(ten_pow, 4);
            }
        }
        n = n * 10 + (b[i] - 0x30) as u32;
        i = i + 1;
    }
    proof {
        assert(d.take(i - start) =~= d);
        assert(all_digits(d));
        assert(ten_pow((i - start) as nat) <= 10000) by {
            reveal_with_fuel(ten_pow, 5);
        }
    }
    Some(n)
}



/// InternalSerialNumber: "(XYZ) yyyy:mm:dd no. nnnn" when its fields read as
/// numbers, else the text; the bytes themselves when they are not UTF-8.
pub open spec fn serial_value(b: Seq<u8>) -> ValueView {
    let sb = until_nul(b);
    match utf8_decode(sb) {
        None => ValueView::Undefined(b),
        Some(s) => if sb.len() >= 13 {
            match (
                parse_field(sb.subrange(3, 5)),
                parse_field(sb.subrange(5, 7)),
                parse_field(sb.subrange(7, 9)),
                parse_field(sb.subrange(9, 13)),
                utf8_decode(sb.take(3)),
            ) {
                (Some(yr), Some(mon), Some(day), Some(num), Some(f)) => {
                    let year: nat = if yr < 70 {
                        2000 + yr
                    } else {
                        1900 + yr
                    };
                    ValueView::Ascii(
                        seq!['('] + f + ") "@ + zero_pad(dec(year), 4) + seq![':'] + zero_pad(
                            dec(mon),
                            2,
                        ) + seq![':'] + zero_pad(dec(day), 2) + " no. "@ + zero_pad(dec(num), 4),
                    )
                },
                _ => ValueView::Ascii(s),
            }
        } else {
            ValueView::Ascii(s)
        },
    }
}

fn serial_value_exec(b: &[u8]) -> (r: ExifValue)
    ensures
        r@ == serial_value(b@),
{
    let sb = until_nul_exec(b);
    let s = match utf8_str(sb.as_slice()) {
        Some(s) => s,
        None => {
            let c = vstd::slice::slice_to_vec(b);
            return ExifValue::Undefined(c);
        },
    };
    if sb.len() < 13 {
        return ExifValue::Ascii(owned(s));
    }
    let yr = parse_field_exec(&sb.as_slice()[3..5]);
    let mon = parse_field_exec(&sb.as_slice()[5..7]);
    let day = parse_field_exec(&sb.as_slice()[7..9]);
    let num = parse_field_exec(&sb.as_slice()[9..13]);
    let f = utf8_str(&sb.as_slice()[0..3]);
    proof {
        assert(sb@.subrange(0, 3) =~= sb@.take(3));
    }
    match (yr, mon, day, num, f) {
        (Some(yr), Some(mon), Some(day), Some(num), Some(f)) => {
            let year: u32 = if yr < 70 {
                2000 + yr
            } else {
                1900 + yr
            };
            let mut t = owned("(");
            push_str(&mut t, f);
            push_str(&mut t, ") ");
            push_dec_pad(&mut t, year as u64, 4);
            push_char(&mut t, ':');
            push_dec_pad(&mut t, mon as u64, 2);
            push_char(&mut t, ':');
            push_dec_pad(&mut t, day as u64, 2);
            push_str(&mut t, " no. ");
            push_dec_pad(&mut t, num as u64, 4);
            proof {
                reveal_strlit("(");
                assert(t@ =~= match serial_value(b@) {
                    ValueView::Ascii(x) => x,
                    _ => Seq::empty(),
                });
            }
            ExifValue::Ascii(t)
        },
        _ => ExifValue::Ascii(owned(s)),
    }
}

// ---------------------------------------------------------------------------
// Directory entries
// ---------------------------------------------------------------------------

/// What a Panasonic maker note is read from.
pub struct PanaSrc {
    /// The maker note.
    pub data: Seq<u8>,
    /// Byte order.
    pub endian: Endianness,
    /// The camera model, for ContrastMode.
    pub model: Option<Seq<char>>,
    /// The enclosing TIFF data, when known.
    pub tiff: Option<Seq<u8>>,
    /// Offset of the TIFF header in `tiff`.
    pub tiff_offset: nat,
}

/// `n` bytes at `off` in `src`, when they fit.
pub open spec fn bytes_at(src: Seq<u8>, off: int, n: int) -> Option<Seq<u8>> {
    if off + n <= src.len() {
        Some(src.subrange(off, off + n))
    } else {
        None
    }
}

/// Out-of-line bytes that count from the TIFF header when the TIFF data is
/// known, else from the start of the note.
pub open spec fn tiff_or_note(s: PanaSrc, vo: u32, n: int) -> Option<Seq<u8>> {
    match s.tiff {
        Some(t) => bytes_at(t, s.tiff_offset + vo, n),
        None => bytes_at(s.data, vo as int, n),
    }
}

/// Whether the note starts with "Panasonic" and a NUL.
pub open spec fn panasonic_header(d: Seq<u8>) -> bool {
    d.len() >= 10 && d[0] == 0x50 && d[1] == 0x61 && d[2] == 0x6e && d[3] == 0x61 && d[4] == 0x73
        && d[5] == 0x6f && d[6] == 0x6e && d[7] == 0x69 && d[8] == 0x63 && d[9] == 0
}

/// Where the directory starts: after the 12-byte header when there is one.
pub open spec fn pana_start(d: Seq<u8>) -> nat {
    if panasonic_header(d) {
        12
    } else {
        0
    }
}

/// BYTE values.
pub open spec fn pana_byte(s: PanaSrc, tag: u16, count: u32, vo: u32, raw: Seq<u8>) -> Option<ValueView> {
    let bytes = if count <= 4 {
        Some(raw.take(count as int))
    } else {
        bytes_at(s.data, vo as int, count as int)
    };
    match bytes {
        None => None,
        Some(b) => Some(
            if count == 1 && b.len() > 0 {
                if tag == PANA_CAMERA_ORIENTATION {
                    ValueView::Ascii(camera_orientation_exiftool(b[0])@)
                } else if tag == PANA_INTELLIGENT_RESOLUTION {
                    ValueView::Ascii(intelligent_resolution_exiftool(b[0] as u16)@)
                } else {
                    ValueView::Byte(b)
                }
            } else if count == 2 && b.len() >= 2 {
                if tag == PANA_AF_AREA_MODE {
                    ValueView::Ascii(af_area_mode_pair(b[0], b[1])@)
                } else {
                    ValueView::Byte(b)
                }
            } else if tag == PANA_CITY || tag == PANA_LANDMARK {
                ValueView::Ascii(c_string_text(b))
            } else {
                ValueView::Byte(b)
            },
        ),
    }
}

/// ASCII values: decoded leniently, trailing NULs dropped; an unset BabyAge is "(not set)".
pub open spec fn pana_ascii(s: PanaSrc, tag: u16, count: u32, vo: u32, raw: Seq<u8>) -> Option<ValueView> {
    let bytes = if count <= 4 {
        Some(raw.take(count as int))
    } else {
        tiff_or_note(s, vo, count as int)
    };
    match bytes {
        None => None,
        Some(b) => {
            let t = strip_nuls(utf8_lossy(b));
            Some(
                ValueView::Ascii(
                    if (tag == PANA_BABY_AGE || tag == PANA_BABY_AGE_2) && (t
                        == "9999:99:99 00:00:00"@ || t.len() == 0) {
                        "(not set)"@
                    } else {
                        t
                    },
                ),
            )
        },
    }
}

/// SHORT values: one or two are held in the entry, more at their offset; a
/// single value is decoded when the tag has a decoding.
pub open spec fn pana_short(s: PanaSrc, tag: u16, count: u32, vo: u32, raw: Seq<u8>) -> Option<ValueView> {
    let vals = if count == 1 || count == 2 {
        Some(read_shorts(raw, count, s.endian))
    } else {
        match bytes_at(s.data, vo as int, count * 2) {
            Some(b) => Some(read_shorts(b, count, s.endian)),
            None => None,
        }
    };
    match vals {
        None => None,
        Some(v) => Some(
            if v.len() == 1 {
                match short_text(tag, v[0], s.model) {
                    Some(t) => ValueView::Ascii(t),
                    None => ValueView::Short(v),
                }
            } else {
                ValueView::Short(v)
            },
        ),
    }
}

/// TimeSincePowerOn from centiseconds: "[D days ]HH:MM:SS.ss". The seconds
/// split off days, hours and minutes in doubles come out exact: a quotient
/// that is whole comes from a whole number of seconds, exact in a double,
/// and any other lies at least 1/8640000 from the nearest integer.
pub open spec fn power_on_text(c: u32) -> Seq<char> {
    let days = c / 8640000;
    let h = (c % 8640000) / 360000;
    let m = (c % 360000) / 6000;
    let cs = c % 6000;
    (if days > 0 {
        dec(days as nat) + " days "@
    } else {
        seq![]
    }) + zero_pad(dec(h as nat), 2) + seq![':'] + zero_pad(dec(m as nat), 2) + seq![':'] + zero_pad(
        dec((cs / 100) as nat),
        2,
    ) + seq!['.'] + zero_pad(dec((cs % 100) as nat), 2)
}

fn power_on_string(c: u32) -> (r: String)
    ensures
        r@ == power_on_text(c),
{
    let days = c / 8640000;
    let mut s = String::new();
    if days > 0 {
        push_dec(&mut s, days as u64);
        push_str(&mut s, " days ");
    }
    push_dec_pad(&mut s, ((c % 8640000) / 360000) as u64, 2);
    push_char(&mut s, ':');
    push_dec_pad(&mut s, ((c % 360000) / 6000) as u64, 2);
    push_char(&mut s, ':');
    push_dec_pad(&mut s, ((c % 6000) / 100) as u64, 2);
    push_char(&mut s, '.');
    push_dec_pad(&mut s, (c % 100) as u64, 2);
    proof {
        reveal_strlit(" days ");
        assert((c % 6000) % 100 == c % 100) by (nonlinear_arith);
        assert(s@ =~= power_on_text(c));
    }
    s
}

/// LONG values; TimeSincePowerOn as text.
pub open spec fn pana_long(s: PanaSrc, tag: u16, count: u32, vo: u32) -> Option<ValueView> {
    if count == 1 {
        if tag == PANA_TIME_SINCE_POWER_ON {
            Some(ValueView::Ascii(power_on_text(vo)))
        } else if tag == PANA_LANDMARK && vo == 0 {
            Some(ValueView::Ascii(Seq::empty()))
        } else {
            Some(ValueView::Long(seq![vo]))
        }
    } else {
        match bytes_at(s.data, vo as int, count * 4) {
            Some(b) => Some(ValueView::Long(read_longs(b, count, s.endian))),
            None => None,
        }
    }
}

/// An AFPointPosition coordinate: the quotient (0 for a zero denominator) to
/// two decimals, trailing zeros dropped.
pub open spec fn af_coordinate(r: (u32, u32)) -> Seq<char> {
    if r.1 != 0 {
        trimmed_decimal(r.0 as nat, r.1 as nat, 2)
    } else {
        trimmed_decimal(0, 1, 2)
    }
}

fn af_coordinate_string(r: (u32, u32)) -> (s: String)
    ensures
        s@ == af_coordinate(r),
{
    if r.1 != 0 {
        format_trimmed_decimal(r.0, r.1, 2)
    } else {
        format_trimmed_decimal(0, 1, 2)
    }
}

/// RATIONAL values; AFPointPosition's markers for no point and n/a are named,
/// other positions given as "X Y"; InternalNDFilter as its shortest decimal.
pub open spec fn pana_rational(s: PanaSrc, tag: u16, count: u32, vo: u32) -> Option<ValueView> {
    match tiff_or_note(s, vo, count * 8) {
        None => None,
        Some(b) => Some(rational_tag_value(tag, read_rationals(b, count, s.endian))),
    }
}

/// The value of RATIONALs read for a tag.
pub open spec fn rational_tag_value(tag: u16, v: Seq<(u32, u32)>) -> ValueView {
    if tag == PANA_AF_POINT_POSITION && v.len() == 2 && v[0].0 == 0xFFFF_FFFF && v[0].1 == 256 && v[1].0
        == 0xFFFF_FFFF && v[1].1 == 256 {
        ValueView::Ascii("none"@)
    } else if tag == PANA_AF_POINT_POSITION && v.len() == 2 && v[0].0 == 0xFFFF_FFFF && v[0].1 == 1024 {
        ValueView::Ascii("n/a"@)
    } else if tag == PANA_AF_POINT_POSITION && v.len() == 2 {
        ValueView::Ascii(af_coordinate(v[0]) + seq![' '] + af_coordinate(v[1]))
    } else if tag == PANA_INTERNAL_ND_FILTER && v.len() == 1 && v[0].1 != 0 {
        ValueView::Ascii(shortest_text(v[0].0 as nat, v[0].1 as nat))
    } else {
        ValueView::Rational(v)
    }
}

fn rational_tag_value_exec(tag: u16, v: Vec<(u32, u32)>) -> (r: ExifValue)
    ensures
        r@ == rational_tag_value(tag, v@),
{
    if tag == PANA_AF_POINT_POSITION && v.len() == 2 && v[0].0 == 0xFFFF_FFFF && v[0].1 == 256 && v[1].0
        == 0xFFFF_FFFF && v[1].1 == 256 {
        ExifValue::Ascii(owned("none"))
    } else if tag == PANA_AF_POINT_POSITION && v.len() == 2 && v[0].0 == 0xFFFF_FFFF && v[0].1 == 1024 {
        ExifValue::Ascii(owned("n/a"))
    } else if tag == PANA_AF_POINT_POSITION && v.len() == 2 {
        let mut t = af_coordinate_string(v[0]);
        push_char(&mut t, ' ');
        let y = af_coordinate_string(v[1]);
        push_str(&mut t, y.as_str());
        assert(t@ =~= af_coordinate(v@[0]) + seq![' '] + af_coordinate(v@[1]));
        ExifValue::Ascii(t)
    } else if tag == PANA_INTERNAL_ND_FILTER && v.len() == 1 && v[0].1 != 0 {
        ExifValue::Ascii(format_shortest(v[0].0, v[0].1))
    } else {
        ExifValue::Rational(v)
    }
}

/// Four bytes as "a.b.c.d".
pub open spec fn dotted_version(b: Seq<u8>) -> Seq<char> {
    dec(b[0] as nat) + seq!['.'] + dec(b[1] as nat) + seq!['.'] + dec(b[2] as nat) + seq!['.']
        + dec(b[3] as nat)
}

/// UNDEFINED values: versions as text, text fields and InternalSerialNumber decoded.
pub open spec fn pana_undefined(s: PanaSrc, tag: u16, count: u32, vo: u32, raw: Seq<u8>) -> Option<ValueView> {
    if count <= 4 {
        Some(
            if (tag == PANA_FIRMWARE_VERSION || tag == PANA_LENS_FIRMWARE_VERSION) && count == 4 {
                ValueView::Ascii(dotted_version(raw))
            } else if (tag == PANA_MAKERNOTE_VERSION || tag == PANA_EXIF_VERSION) && count == 4 {
                match utf8_decode(raw) {
                    Some(t) => ValueView::Ascii(t),
                    None => ValueView::Undefined(raw),
                }
            } else {
                ValueView::Undefined(raw.take(count as int))
            },
        )
    } else {
        match tiff_or_note(s, vo, count as int) {
            None => None,
            Some(b) => Some(
                if tag == PANA_LANDMARK || tag == PANA_CITY || tag == PANA_TITLE || tag
                    == PANA_BABY_NAME || tag == PANA_LOCATION {
                    ValueView::Ascii(c_string_text(b))
                } else if tag == PANA_INTERNAL_SERIAL_NUMBER {
                    serial_value(b)
                } else {
                    ValueView::Undefined(b)
                },
            ),
        }
    }
}

/// The value of the entry at `p`; `None` when it is skipped.
pub open spec fn pana_value(s: PanaSrc, p: int) -> Option<(u16, ValueView)> {
    let e = s.endian;
    let tag = at_u16(s.data, p, e);
    let typ = at_u16(s.data, p + 2, e);
    let count = at_u32(s.data, p + 4, e);
    let vo = at_u32(s.data, p + 8, e);
    let raw = s.data.subrange(p + 8, p + 12);
    let v = if typ == 1 {
        pana_byte(s, tag, count, vo, raw)
    } else if typ == 2 {
        pana_ascii(s, tag, count, vo, raw)
    } else if typ == 3 {
        pana_short(s, tag, count, vo, raw)
    } else if typ == 4 {
        pana_long(s, tag, count, vo)
    } else if typ == 5 {
        pana_rational(s, tag, count, vo)
    } else if typ == 6 {
        if count <= 4 {
            Some(ValueView::SByte(raw.take(count as int).map_values(|x: u8| x as i8)))
        } else {
            match bytes_at(s.data, vo as int, count as int) {
                Some(b) => Some(ValueView::SByte(b.map_values(|x: u8| x as i8))),
                None => None,
            }
        }
    } else if typ == 7 {
        pana_undefined(s, tag, count, vo, raw)
    } else if typ == 8 {
        if count == 1 || count == 2 {
            Some(ValueView::SShort(read_sshorts(raw, count, e)))
        } else {
            match bytes_at(s.data, vo as int, count * 2) {
                Some(b) => Some(ValueView::SShort(read_sshorts(b, count, e))),
                None => None,
            }
        }
    } else if typ == 9 {
        if count == 1 {
            Some(ValueView::SLong(seq![vo as i32]))
        } else {
            match bytes_at(s.data, vo as int, count * 4) {
                Some(b) => Some(ValueView::SLong(read_slongs(b, count, e))),
                None => None,
            }
        }
    } else if typ == 10 {
        match bytes_at(s.data, vo as int, count * 8) {
            Some(b) => Some(ValueView::SRational(read_srationals(b, count, e))),
            None => None,
        }
    } else {
        None
    };
    match v {
        Some(x) => Some((tag, x)),
        None => None,
    }
}

/// The stored tag: named tags also carry the exiv2 group and name.
pub open spec fn pana_tag(tag: u16, v: ValueView) -> TagView {
    match panasonic_tag_name(tag) {
        Some(n) => TagView {
            tag_id: tag,
            tag_name: Some(n),
            value: v,
            exiv2_value: Some(v),
            exiv2_group: Some(EXIV2_GROUP_PANASONIC),
            exiv2_name: Some(n),
        },
        None => plain_tag(tag, None, v),
    }
}

/// Number of entries read: those announced, as far as whole entries fit.
pub open spec fn pana_count(d: Seq<u8>, e: Endianness) -> nat {
    let st = pana_start(d);
    let n = at_u16(d, st as int, e);
    let fit = (d.len() - st - 2) / 12;
    if (n as int) < fit {
        n as nat
    } else {
        fit as nat
    }
}

/// The tags after the first `k` entries.
pub open spec fn pana_scan(s: PanaSrc, k: nat) -> Map<u16, TagView>
    decreases k,
{
    if k == 0 {
        Map::empty()
    } else {
        let m = pana_scan(s, (k - 1) as nat);
        match pana_value(s, pana_start(s.data) + 2 + 12 * (k - 1)) {
            Some((tag, v)) => m.insert(tag, pana_tag(tag, v)),
            None => m,
        }
    }
}

/// The SceneMode number held by a SceneMode tag's value.
pub open spec fn scene_mode_of(v: ValueView) -> Option<u16> {
    match v {
        ValueView::Short(s) => if s.len() > 0 {
            Some(s[0])
        } else {
            None
        },
        ValueView::Ascii(t) => scene_mode_number(t),
        _ => None,
    }
}

/// The AdvancedSceneType held by its tag's value.
pub open spec fn first_short_view(v: ValueView) -> Option<u16> {
    match v {
        ValueView::Short(s) => if s.len() > 0 {
            Some(s[0])
        } else {
            None
        },
        _ => None,
    }
}

/// The tags with AdvancedSceneMode computed from SceneMode and AdvancedSceneType.
pub open spec fn pana_finish(m: Map<u16, TagView>) -> Map<u16, TagView> {
    if m.contains_key(PANA_SCENE_MODE) && m.contains_key(PANA_ADVANCED_SCENE_MODE) {
        match (scene_mode_of(m[PANA_SCENE_MODE].value), first_short_view(
            m[PANA_ADVANCED_SCENE_MODE].value,
        )) {
            (Some(a), Some(b)) => {
                let v = ValueView::Ascii(advanced_scene_text(a, b));
                m.insert(
                    PANA_ADVANCED_SCENE_MODE,
                    TagView {
                        tag_id: PANA_ADVANCED_SCENE_MODE,
                        tag_name: Some("AdvancedSceneMode"),
                        value: v,
                        exiv2_value: Some(v),
                        exiv2_group: Some(EXIV2_GROUP_PANASONIC),
                        exiv2_name: Some("AdvancedSceneMode"),
                    },
                )
            },
            _ => m,
        }
    } else {
        m
    }
}

/// The tags of a Panasonic maker note.
pub open spec fn panasonic_maker_notes(s: PanaSrc) -> Map<u16, TagView> {
    if s.data.len() < 14 {
        Map::empty()
    } else {
        pana_finish(pana_scan(s, pana_count(s.data, s.endian)))
    }
}


/// The source described by the parser's arguments.
pub open spec fn pana_src_of(
    data: Seq<u8>,
    endian: Endianness,
    model: Option<&str>,
    tiff_data: Option<&[u8]>,
    tiff_offset: usize,
) -> PanaSrc {
    PanaSrc {
        data,
        endian,
        model: opt_str(model),
        tiff: match tiff_data {
            Some(t) => Some(t@),
            None => None,
        },
        tiff_offset: tiff_offset as nat,
    }
}

fn bytes_at_exec(src: &[u8], off: u128, n: u128) -> (r: Option<&[u8]>)
    requires
        off < 0x1_0000_0000_0000_0000_0000,
        n < 0x1_0000_0000_0000_0000_0000,
    ensures
        match r {
            Some(b) => bytes_at(src@, off as int, n as int) == Some(b@),
            None => bytes_at(src@, off as int, n as int) is None,
        },
{
    if off + n <= src.len() as u128 {
        let o = off as usize;
        let e = (off + n) as usize;
        Some(&src[o..e])
    } else {
        None
    }
}

fn tiff_or_note_exec<'a>(
    data: &'a [u8],
    tiff_data: Option<&'a [u8]>,
    tiff_offset: usize,
    vo: u32,
    n: u128,
    Ghost(s): Ghost<PanaSrc>,
) -> (r: Option<&'a [u8]>)
    requires
        n < 0x1_0000_0000_0000,
        s.data == data@,
        s.tiff == (match tiff_data {
            Some(t) => Some(t@),
            None => None,
        }),
        s.tiff_offset == tiff_offset,
    ensures
        match r {
            Some(b) => tiff_or_note(s, vo, n as int) == Some(b@),
            None => tiff_or_note(s, vo, n as int) is None,
        },
{
    match tiff_data {
        Some(t) => bytes_at_exec(t, tiff_offset as u128 + vo as u128, n),
        None => bytes_at_exec(data, vo as u128, n),
    }
}

fn take_bytes(b: &[u8], n: u32) -> (r: Vec<u8>)
    requires
        n <= b@.len(),
    ensures
        r@ == b@.take(n as int),
{
    let mut v: Vec<u8> = Vec::new();
    let mut i: usize = 0;
    while i < n as usize
        invariant
            n <= b@.len(),
            i <= n,
            v@ =~= b@.take(i as int),
        decreases n - i,
    {
        v.push(b[i]);
        i = i + 1;
        proof {
            assert(b@.take(i as int) =~= b@.take(i - 1).push(b@[i - 1]));
        }
    }
    v
}

fn pana_byte_exec(
    data: &[u8],
    tag: u16,
    count: u32,
    vo: u32,
    raw: &[u8],
    Ghost(s): Ghost<PanaSrc>,
) -> (r: Option<ExifValue>)
    requires
        s.data == data@,
        raw@.len() == 4,
    ensures
        match r {
            Some(v) => pana_byte(s, tag, count, vo, raw@) == Some(v@),
            None => pana_byte(s, tag, count, vo, raw@) is None,
        },
{
    let bytes: Vec<u8> = if count <= 4 {
        take_bytes(raw, count)
    } else {
        match bytes_at_exec(data, vo as u128, count as u128) {
            Some(b) => vstd::slice::slice_to_vec(b),
            None => {
                return None;
            },
        }
    };
    if count == 1 && bytes.len() > 0 {
        if tag == PANA_CAMERA_ORIENTATION {
            Some(ExifValue::Ascii(owned(decode_camera_orientation_exiftool(bytes[0]))))
        } else if tag == PANA_INTELLIGENT_RESOLUTION {
            Some(ExifValue::Ascii(owned(decode_intelligent_resolution_exiftool(bytes[0] as u16))))
        } else {
            Some(ExifValue::Byte(bytes))
        }
    } else if count == 2 && bytes.len() >= 2 {
        if tag == PANA_AF_AREA_MODE {
            Some(ExifValue::Ascii(owned(decode_af_area_mode_pair(bytes[0], bytes[1]))))
        } else {
            Some(ExifValue::Byte(bytes))
        }
    } else if tag == PANA_CITY || tag == PANA_LANDMARK {
        Some(ExifValue::Ascii(c_string_exec(bytes.as_slice())))
    } else {
        Some(ExifValue::Byte(bytes))
    }
}

fn pana_ascii_exec(
    data: &[u8],
    tiff_data: Option<&[u8]>,
    tiff_offset: usize,
    tag: u16,
    count: u32,
    vo: u32,
    raw: &[u8],
    Ghost(s): Ghost<PanaSrc>,
) -> (r: Option<ExifValue>)
    requires
        s.data == data@,
        s.tiff == (match tiff_data {
            Some(t) => Some(t@),
            None => None,
        }),
        s.tiff_offset == tiff_offset,
        raw@.len() == 4,
    ensures
        match r {
            Some(v) => pana_ascii(s, tag, count, vo, raw@) == Some(v@),
            None => pana_ascii(s, tag, count, vo, raw@) is None,
        },
{
    let bytes: Vec<u8> = if count <= 4 {
        take_bytes(raw, count)
    } else {
        match tiff_or_note_exec(data, tiff_data, tiff_offset, vo, count as u128, Ghost(s)) {
            Some(b) => vstd::slice::slice_to_vec(b),
            None => {
                return None;
            },
        }
    };
    let lossy = lossy_string(bytes.as_slice());
    let t = trim_end_nuls(lossy.as_str());
    if (tag == PANA_BABY_AGE || tag == PANA_BABY_AGE_2) && (str_eq(t.as_str(), "9999:99:99 00:00:00")
        || t.unicode_len() == 0) {
        Some(ExifValue::Ascii(owned("(not set)")))
    } else {
        Some(ExifValue::Ascii(t))
    }
}

fn pana_short_exec(
    data: &[u8],
    endian: Endianness,
    model: Option<&str>,
    tag: u16,
    count: u32,
    vo: u32,
    raw: &[u8],
    Ghost(s): Ghost<PanaSrc>,
) -> (r: Option<ExifValue>)
    requires
        s.data == data@,
        s.endian == endian,
        s.model == opt_str(model),
        raw@.len() == 4,
    ensures
        match r {
            Some(v) => pana_short(s, tag, count, vo, raw@) == Some(v@),
            None => pana_short(s, tag, count, vo, raw@) is None,
        },
{
    let values: Vec<u16> = if count == 1 || count == 2 {
        read_shorts_exec(raw, count, endian)
    } else {
        match bytes_at_exec(data, vo as u128, count as u128 * 2) {
            Some(b) => read_shorts_exec(b, count, endian),
            None => {
                return None;
            },
        }
    };
    if values.len() == 1 {
        match short_text_exec(tag, values[0], model) {
            Some(t) => Some(ExifValue::Ascii(t)),
            None => Some(ExifValue::Short(values)),
        }
    } else {
        Some(ExifValue::Short(values))
    }
}

fn pana_undefined_exec(
    data: &[u8],
    tiff_data: Option<&[u8]>,
    tiff_offset: usize,
    tag: u16,
    count: u32,
    vo: u32,
    raw: &[u8],
    Ghost(s): Ghost<PanaSrc>,
) -> (r: Option<ExifValue>)
    requires
        s.data == data@,
        s.tiff == (match tiff_data {
            Some(t) => Some(t@),
            None => None,
        }),
        s.tiff_offset == tiff_offset,
        raw@.len() == 4,
    ensures
        match r {
            Some(v) => pana_undefined(s, tag, count, vo, raw@) == Some(v@),
            None => pana_undefined(s, tag, count, vo, raw@) is None,
        },
{
    if count <= 4 {
        if (tag == PANA_FIRMWARE_VERSION || tag == PANA_LENS_FIRMWARE_VERSION) && count == 4 {
            let mut t = fmt_dec(raw[0] as u64);
            push_char(&mut t, '.');
            push_dec(&mut t, raw[1] as u64);
            push_char(&mut t, '.');
            push_dec(&mut t, raw[2] as u64);
            push_char(&mut t, '.');
            push_dec(&mut t, raw[3] as u64);
            proof {
                assert(t@ =~= dotted_version(raw@));
            }
            Some(ExifValue::Ascii(t))
        } else if (tag == PANA_MAKERNOTE_VERSION || tag == PANA_EXIF_VERSION) && count == 4 {
            match utf8_str(raw) {
                Some(t) => Some(ExifValue::Ascii(owned(t))),
                None => Some(ExifValue::Undefined(vstd::slice::slice_to_vec(raw))),
            }
        } else {
            Some(ExifValue::Undefined(take_bytes(raw, count)))
        }
    } else {
        let b = match tiff_or_note_exec(data, tiff_data, tiff_offset, vo, count as u128, Ghost(s)) {
            Some(b) => b,
            None => {
                return None;
            },
        };
        if tag == PANA_LANDMARK || tag == PANA_CITY || tag == PANA_TITLE || tag == PANA_BABY_NAME
            || tag == PANA_LOCATION {
            Some(ExifValue::Ascii(c_string_exec(b)))
        } else if tag == PANA_INTERNAL_SERIAL_NUMBER {
            Some(serial_value_exec(b))
        } else {
            Some(ExifValue::Undefined(vstd::slice::slice_to_vec(b)))
        }
    }
}

fn signed_bytes_vec(b: &[u8]) -> (r: Vec<i8>)
    ensures
        r@ == b@.map_values(|x: u8| x as i8),
{
    let mut v: Vec<i8> = Vec::new();
    let mut i: usize = 0;
    while i < b.len()
        invariant
            i <= b@.len(),
            v@ =~= b@.take(i as int).map_values(|x: u8| x as i8),
        decreases b.len() - i,
    {
        v.push(b[i] as i8);
        i = i + 1;
        proof {
            assert(b@.take(i as int) =~= b@.take(i - 1).push(b@[i - 1]));
        }
    }
    proof {
        assert(b@.take(i as int) =~= b@);
    }
    v
}

fn pana_value_exec(
    data: &[u8],
    p: usize,
    endian: Endianness,
    model: Option<&str>,
    tiff_data: Option<&[u8]>,
    tiff_offset: usize,
) -> (r: Option<(u16, ExifValue)>)
    requires
        p + 12 <= data.len(),
    ensures
        match r {
            Some((t, v)) => pana_value(
                pana_src_of(data@, endian, model, tiff_data, tiff_offset),
                p as int,
            ) == Some((t, v@)),
            None => pana_value(
                pana_src_of(data@, endian, model, tiff_data, tiff_offset),
                p as int,
            ) is None,
        },
{
    let ghost s = pana_src_of(data@, endian, model, tiff_data, tiff_offset);
    let tag = read_u16_at(data, p, endian);
    let typ = read_u16_at(data, p + 2, endian);
    let count = read_u32_at(data, p + 4, endian);
    let vo = read_u32_at(data, p + 8, endian);
    let raw = &data[p + 8..p + 12];
    let v: Option<ExifValue> = if typ == 1 {
        pana_byte_exec(data, tag, count, vo, raw, Ghost(s))
    } else if typ == 2 {
        pana_ascii_exec(data, tiff_data, tiff_offset, tag, count, vo, raw, Ghost(s))
    } else if typ == 3 {
        pana_short_exec(data, endian, model, tag, count, vo, raw, Ghost(s))
    } else if typ == 4 {
        if count == 1 {
            if tag == PANA_TIME_SINCE_POWER_ON {
                Some(ExifValue::Ascii(power_on_string(vo)))
            } else if tag == PANA_LANDMARK && vo == 0 {
                Some(ExifValue::Ascii(String::new()))
            } else {
                let mut l: Vec<u32> = Vec::new();
                l.push(vo);
                Some(ExifValue::Long(l))
            }
        } else {
            match bytes_at_exec(data, vo as u128, count as u128 * 4) {
                Some(b) => Some(ExifValue::Long(read_longs_exec(b, count, endian))),
                None => None,
            }
        }
    } else if typ == 5 {
        match tiff_or_note_exec(data, tiff_data, tiff_offset, vo, count as u128 * 8, Ghost(s)) {
            None => None,
            Some(b) => Some(rational_tag_value_exec(tag, read_rationals_exec(b, count, endian))),
        }
    } else if typ == 6 {
        if count <= 4 {
            let b = take_bytes(raw, count);
            Some(ExifValue::SByte(signed_bytes_vec(b.as_slice())))
        } else {
            match bytes_at_exec(data, vo as u128, count as u128) {
                Some(b) => Some(ExifValue::SByte(signed_bytes_vec(b))),
                None => None,
            }
        }
    } else if typ == 7 {
        pana_undefined_exec(data, tiff_data, tiff_offset, tag, count, vo, raw, Ghost(s))
    } else if typ == 8 {
        if count == 1 || count == 2 {
            Some(ExifValue::SShort(read_sshorts_exec(raw, count, endian)))
        } else {
            match bytes_at_exec(data, vo as u128, count as u128 * 2) {
                Some(b) => Some(ExifValue::SShort(read_sshorts_exec(b, count, endian))),
                None => None,
            }
        }
    } else if typ == 9 {
        if count == 1 {
            let mut l: Vec<i32> = Vec::new();
            l.push(vo as i32);
            Some(ExifValue::SLong(l))
        } else {
            match bytes_at_exec(data, vo as u128, count as u128 * 4) {
                Some(b) => Some(ExifValue::SLong(read_slongs_exec(b, count, endian))),
                None => None,
            }
        }
    } else if typ == 10 {
        match bytes_at_exec(data, vo as u128, count as u128 * 8) {
            Some(b) => Some(ExifValue::SRational(read_srationals_exec(b, count, endian))),
            None => None,
        }
    } else {
        None
    };
    match v {
        Some(x) => Some((tag, x)),
        None => None,
    }
}

/// Parses a Panasonic maker note: an optional "Panasonic" header, then a
/// directory whose out-of-line values mostly count from the note's start
/// (RATIONAL, longer ASCII and UNDEFINED values from the TIFF header when the
/// TIFF data is given). Tags are keyed by ID; AdvancedSceneMode is then
/// computed from SceneMode and AdvancedSceneType.
pub fn parse_panasonic_maker_notes(
    data: &[u8],
    endian: Endianness,
    model: Option<&str>,
    tiff_data: Option<&[u8]>,
    tiff_offset: usize,
) -> (r: Result<HashMap<u16, MakerNoteTag>, ExifError>)
    ensures
        match r {
            Ok(m) => tag_views(m@) == panasonic_maker_notes(
                pana_src_of(data@, endian, model, tiff_data, tiff_offset),
            ),
            Err(_) => false,
        },
{
    broadcast use vstd::std_specs::hash::group_hash_axioms;

    let ghost s = pana_src_of(data@, endian, model, tiff_data, tiff_offset);
    let mut tags: HashMap<u16, MakerNoteTag> = HashMap::new();
    proof {
        assert(tag_views(tags@) =~= Map::<u16, TagView>::empty());
    }
    if data.len() < 14 {
        return Ok(tags);
    }
    let ifd_start: usize = if data[0] == 0x50 && data[1] == 0x61 && data[2] == 0x6e && data[3]
        == 0x61 && data[4] == 0x73 && data[5] == 0x6f && data[6] == 0x6e && data[7] == 0x69
        && data[8] == 0x63 && data[9] == 0 {
        12
    } else {
        0
    };
    let num_entries = read_u16_at(data, ifd_start, endian);
    let fit = (data.len() - ifd_start - 2) / 12;
    let n: usize = if (num_entries as usize) < fit {
        num_entries as usize
    } else {
        fit
    };
    assert(n == pana_count(data@, endian));
    let mut k: usize = 0;
    while k < n
        invariant
            s == pana_src_of(data@, endian, model, tiff_data, tiff_offset),
            data.len() >= 14,
            ifd_start == pana_start(data@),
            fit == (data.len() - ifd_start - 2) / 12,
            n <= fit,
            k <= n,
            tag_views(tags@) == pana_scan(s, k as nat),
        decreases n - k,
    {
        let p = ifd_start + 2 + 12 * k;
        match pana_value_exec(data, p, endian, model, tiff_data, tiff_offset) {
            Some((tag_id, value)) => {
                let tag_name = get_panasonic_tag_name(tag_id);
                let tag = match tag_name {
                    Some(name) => MakerNoteTag::with_exiv2(
                        tag_id,
                        tag_name,
                        value.duplicate(),
                        value,
                        EXIV2_GROUP_PANASONIC,
                        name,
                    ),
                    None => MakerNoteTag::new(tag_id, tag_name, value),
                };
                let ghost before = tags@;
                tags.insert(tag_id, tag);
                proof {
                    assert(tag_views(tags@) =~= tag_views(before).insert(tag_id, tag@));
                }
            },
            None => {},
        }
        k = k + 1;
    }
    let ghost scanned = tag_views(tags@);
    let scene = match tags.get(&PANA_SCENE_MODE) {
        Some(t) => match &t.value {
            ExifValue::Short(v) => if v.len() > 0 {
                Some(v[0])
            } else {
                None
            },
            ExifValue::Ascii(x) => scene_mode_from_name(x.as_str()),
            _ => None,
        },
        None => None,
    };
    let adv = match tags.get(&PANA_ADVANCED_SCENE_MODE) {
        Some(t) => match &t.value {
            ExifValue::Short(v) => if v.len() > 0 {
                Some(v[0])
            } else {
                None
            },
            _ => None,
        },
        None => None,
    };
    if let (Some(a), Some(b)) = (scene, adv) {
        let value = ExifValue::Ascii(compute_advanced_scene_mode(a, b));
        let tag = MakerNoteTag::with_exiv2(
            PANA_ADVANCED_SCENE_MODE,
            Some("AdvancedSceneMode"),
            value.duplicate(),
            value,
            EXIV2_GROUP_PANASONIC,
            "AdvancedSceneMode",
        );
        let ghost before = tags@;
        tags.insert(PANA_ADVANCED_SCENE_MODE, tag);
        proof {
            assert(tag_views(tags@) =~= tag_views(before).insert(PANA_ADVANCED_SCENE_MODE, tag@));
        }
    }
    proof {
        assert(tag_views(tags@) =~= pana_finish(scanned));
    }
    Ok(tags)
}

/// Two different AFAreaMode byte pairs that are known name two different
/// modes, but for Tracking, which two pairs (32, 0) and (240, 0) name.
pub proof fn law_af_area_mode_pairs_distinct(a0: u8, a1: u8, b0: u8, b1: u8)
    requires
        a0 != b0 || a1 != b1,
        af_area_mode_pair(a0, a1) != "Unknown",
        af_area_mode_pair(b0, b1) != "Unknown",
    ensures
        af_area_mode_pair(a0, a1) != af_area_mode_pair(b0, b1) || (a1 == 0 && b1 == 0 && (a0 == 32 || a0
            == 240) && (b0 == 32 || b0 == 240)),
{
    reveal_strlit("1-area");
    reveal_strlit("1-area (high speed)");
    reveal_strlit("1-area +");
    reveal_strlit("225-area");
    reveal_strlit("23-area");
    reveal_strlit("3-area (center)");
    reveal_strlit("3-area (high speed)");
    reveal_strlit("3-area (left)");
    reveal_strlit("3-area (right)");
    reveal_strlit("49-area");
    reveal_strlit("5-area");
    reveal_strlit("9-area");
    reveal_strlit("Face Detect");
    reveal_strlit("Face Detect + 1-area");
    reveal_strlit("Face Detect + 3-area (center)");
    reveal_strlit("Face Detect + 3-area (left)");
    reveal_strlit("Face Detect + 3-area (right)");
    reveal_strlit("Full Area");
    reveal_strlit("Pinpoint focus");
    reveal_strlit("Spot Focusing");
    reveal_strlit("Tracking");
    reveal_strlit("Unknown");
    reveal_strlit("Zone");
    reveal_strlit("Zone (horizontal/vertical)");
}

/// How AFAreaMode names relate: face detection adds "Face Detect + " to the
/// area it is combined with, and the 1-area variants extend "1-area".
pub proof fn law_af_area_mode_pair_relations(k: u8)
    ensures
        1 <= k <= 3 ==> af_area_mode_pair(64, k)@ == "Face Detect + "@ + af_area_mode_pair(32, k)@,
        af_area_mode_pair(64, 4)@ == "Face Detect + "@ + af_area_mode_pair(16, 0)@,
        af_area_mode_pair(16, 16)@ == af_area_mode_pair(16, 0)@ + " (high speed)"@,
        af_area_mode_pair(16, 32)@ == af_area_mode_pair(16, 0)@ + " +"@,
        af_area_mode_pair(64, 0)@ == "Face Detect"@,
{
    reveal_strlit("1-area");
    reveal_strlit("1-area (high speed)");
    reveal_strlit("1-area +");
    reveal_strlit("225-area");
    reveal_strlit("23-area");
    reveal_strlit("3-area (center)");
    reveal_strlit("3-area (high speed)");
    reveal_strlit("3-area (left)");
    reveal_strlit("3-area (right)");
    reveal_strlit("49-area");
    reveal_strlit("5-area");
    reveal_strlit("9-area");
    reveal_strlit("Face Detect");
    reveal_strlit("Face Detect + 1-area");
    reveal_strlit("Face Detect + 3-area (center)");
    reveal_strlit("Face Detect + 3-area (left)");
    reveal_strlit("Face Detect + 3-area (right)");
    reveal_strlit("Full Area");
    reveal_strlit("Pinpoint focus");
    reveal_strlit("Spot Focusing");
    reveal_strlit("Tracking");
    reveal_strlit("Unknown");
    reveal_strlit("Zone");
    reveal_strlit("Zone (horizontal/vertical)");
    reveal_strlit("Face Detect + ");
    reveal_strlit(" (high speed)");
    reveal_strlit(" +");
    assert("Face Detect + "@ + "3-area (left)"@ =~= "Face Detect + 3-area (left)"@);
    assert("Face Detect + "@ + "3-area (center)"@ =~= "Face Detect + 3-area (center)"@);
    assert("Face Detect + "@ + "3-area (right)"@ =~= "Face Detect + 3-area (right)"@);
    assert("Face Detect + "@ + "1-area"@ =~= "Face Detect + 1-area"@);
    assert("1-area"@ + " (high speed)"@ =~= "1-area (high speed)"@);
    assert("1-area"@ + " +"@ =~= "1-area +"@);
}

} // verus!
