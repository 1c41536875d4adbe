//! Olympus maker notes: tag names, value decoders and the IFD parser.
use vstd::prelude::*;
use vstd::string::StrSliceExecFns;
use crate::types::{tag_views, plain_tag, ExifValue, ValueView, MakerNoteTag, TagView, ExifError};
use crate::bytes::{Endianness, read_u16_at, read_u32_at, u16_of, u32_of};
use crate::tiff::{at_u16, at_u32, until_nul, lemma_until_nul, first_bytes, read_shorts, read_sshorts, read_longs, read_slongs, read_rationals, read_srationals, read_shorts_exec, read_sshorts_exec, read_longs_exec, read_slongs_exec, read_rationals_exec, read_srationals_exec};
use std::collections::HashMap;
use crate::ratio::{trimmed_decimal, format_trimmed_decimal, hundredfold_floor, hundredfold_floor_exec, below_half_hundredth, below_half_hundredth_exec};
use crate::text::{
    hex_digit, dec, hex, int_dec, signed_dec, zero_pad, join, views, push_char, push_dec, push_hex, push_zeros, fmt_dec, dec_len, push_dec_pad, push_hex2, push_int, fmt_int, owned, push_str, wrap_dec, join_strings, hex2, hex_list, fmt_hex_list, tenths, tenths_text, push_tenths, round_half_even, round_half_even_exec, thousandths_text, push_thousandths, strip_nuls, trim_end_nuls, str_eq, is_ws, lead_ws, trail_ws, trim, trim_str, starts_with, occurs_at, contains, str_contains, skip_chars, ascii_upper, all_ascii, unicode_upper, to_upper, utf8_lossy, latin, ascii_bytes, lossy_string, utf8_decode, utf8_str, dec_texts, int_texts, join_dec, join_int, trim_zeros, push_frac_digits, ends_with, push_part, str_ends_with,
};

verus! {

pub const EXIV2_GROUP_OLYMPUS: &'static str = "Olympus";
pub const EXIV2_GROUP_OLYMPUS2: &'static str = "Olympus2";
pub const EXIV2_GROUP_OLYMPUS_CS: &'static str = "OlympusCs";
pub const EXIV2_GROUP_OLYMPUS_EQ: &'static str = "OlympusEq";
pub const EXIV2_GROUP_OLYMPUS_RD: &'static str = "OlympusRd";
pub const EXIV2_GROUP_OLYMPUS_RD2: &'static str = "OlympusRd2";
pub const EXIV2_GROUP_OLYMPUS_IP: &'static str = "OlympusIp";
pub const EXIV2_GROUP_OLYMPUS_FI: &'static str = "OlympusFi";
pub const EXIV2_GROUP_OLYMPUS_RI: &'static str = "OlympusRi";
pub const OLYMPUS_THUMBNAIL_IMAGE: u16 = 0x0100;
pub const OLYMPUS_SPECIAL_MODE: u16 = 0x0200;
pub const OLYMPUS_JPEG_QUALITY: u16 = 0x0201;
pub const OLYMPUS_MACRO: u16 = 0x0202;
pub const OLYMPUS_BW_MODE: u16 = 0x0203;
pub const OLYMPUS_DIGITAL_ZOOM: u16 = 0x0204;
pub const OLYMPUS_FOCAL_PLANE_DIAGONAL: u16 = 0x0205;
pub const OLYMPUS_LENS_DISTORTION_PARAMS: u16 = 0x0206;
pub const OLYMPUS_CAMERA_TYPE: u16 = 0x0207;
pub const OLYMPUS_TEXT_INFO: u16 = 0x0208;
pub const OLYMPUS_CAMERA_ID: u16 = 0x0209;
pub const OLYMPUS_EPSON_IMAGE_WIDTH: u16 = 0x020B;
pub const OLYMPUS_EPSON_IMAGE_HEIGHT: u16 = 0x020C;
pub const OLYMPUS_EPSON_SOFTWARE: u16 = 0x020D;
pub const OLYMPUS_PREVIEW_IMAGE: u16 = 0x0280;
pub const OLYMPUS_PRE_CAPTURE_FRAMES: u16 = 0x0300;
pub const OLYMPUS_WHITE_BOARD: u16 = 0x0301;
pub const OLYMPUS_ONE_TOUCH_WB: u16 = 0x0302;
pub const OLYMPUS_WHITE_BALANCE_BRACKET: u16 = 0x0303;
pub const OLYMPUS_WHITE_BALANCE_BIAS: u16 = 0x0304;
pub const OLYMPUS_SCENE_MODE: u16 = 0x0403;
pub const OLYMPUS_SERIAL_NUMBER: u16 = 0x0404;
pub const OLYMPUS_FIRMWARE: u16 = 0x0405;
pub const OLYMPUS_DATA_DUMP: u16 = 0x0E00;
pub const OLYMPUS_RED_BALANCE: u16 = 0x1017;
pub const OLYMPUS_BLUE_BALANCE: u16 = 0x1018;
pub const OLYMPUS_EQUIPMENT_IFD: u16 = 0x2010;
pub const OLYMPUS_CAMERA_SETTINGS_IFD: u16 = 0x2020;
pub const OLYMPUS_RAW_DEVELOPMENT_IFD: u16 = 0x2030;
pub const OLYMPUS_RAW_DEVELOPMENT2_IFD: u16 = 0x2031;
pub const OLYMPUS_IMAGE_PROCESSING_IFD: u16 = 0x2040;
pub const OLYMPUS_FOCUS_INFO_IFD: u16 = 0x2050;
pub const OLYMPUS_RAW_INFO_IFD: u16 = 0x3000;
pub const EQUIP_VERSION: u16 = 0x0000;
pub const EQUIP_CAMERA_TYPE: u16 = 0x0100;
pub const EQUIP_SERIAL_NUMBER: u16 = 0x0101;
pub const EQUIP_INTERNAL_SERIAL_NUMBER: u16 = 0x0102;
pub const EQUIP_FOCAL_PLANE_DIAGONAL: u16 = 0x0103;
pub const EQUIP_BODY_FIRMWARE_VERSION: u16 = 0x0104;
pub const EQUIP_LENS_TYPE: u16 = 0x0201;
pub const EQUIP_LENS_SERIAL_NUMBER: u16 = 0x0202;
pub const EQUIP_LENS_MODEL: u16 = 0x0203;
pub const EQUIP_LENS_FIRMWARE_VERSION: u16 = 0x0204;
pub const EQUIP_MAX_APERTURE_AT_MIN_FOCAL: u16 = 0x0205;
pub const EQUIP_MAX_APERTURE_AT_MAX_FOCAL: u16 = 0x0206;
pub const EQUIP_MIN_FOCAL_LENGTH: u16 = 0x0207;
pub const EQUIP_MAX_FOCAL_LENGTH: u16 = 0x0208;
pub const EQUIP_MAX_APERTURE: u16 = 0x020A;
pub const EQUIP_LENS_PROPERTIES: u16 = 0x020B;
pub const EQUIP_EXTENDER: u16 = 0x0301;
pub const EQUIP_EXTENDER_SERIAL_NUMBER: u16 = 0x0302;
pub const EQUIP_EXTENDER_MODEL: u16 = 0x0303;
pub const EQUIP_EXTENDER_FIRMWARE_VERSION: u16 = 0x0304;
pub const EQUIP_FLASH_TYPE: u16 = 0x1000;
pub const EQUIP_FLASH_MODEL: u16 = 0x1001;
pub const EQUIP_FLASH_FIRMWARE_VERSION: u16 = 0x1002;
pub const EQUIP_FLASH_SERIAL_NUMBER: u16 = 0x1003;
pub const CS_VERSION: u16 = 0x0000;
pub const CS_PREVIEW_IMAGE_VALID: u16 = 0x0100;
pub const CS_PREVIEW_IMAGE_START: u16 = 0x0101;
pub const CS_PREVIEW_IMAGE_LENGTH: u16 = 0x0102;
pub const CS_EXPOSURE_MODE: u16 = 0x0200;
pub const CS_AE_LOCK: u16 = 0x0201;
pub const CS_METERING_MODE: u16 = 0x0202;
pub const CS_EXPOSURE_SHIFT: u16 = 0x0203;
pub const CS_MACRO_MODE: u16 = 0x0300;
pub const CS_FOCUS_MODE: u16 = 0x0301;
pub const CS_FOCUS_PROCESS: u16 = 0x0302;
pub const CS_AF_SEARCH: u16 = 0x0303;
pub const CS_AF_AREAS: u16 = 0x0304;
pub const CS_AF_POINT_SELECTED: u16 = 0x0305;
pub const CS_AF_FINE_TUNE: u16 = 0x0306;
pub const CS_FLASH_MODE: u16 = 0x0400;
pub const CS_FLASH_EXPOSURE_COMP: u16 = 0x0401;
pub const CS_FLASH_REMOTE_CONTROL: u16 = 0x0403;
pub const CS_FLASH_CONTROL_MODE: u16 = 0x0404;
pub const CS_WHITE_BALANCE: u16 = 0x0500;
pub const CS_WHITE_BALANCE_TEMPERATURE: u16 = 0x0501;
pub const CS_WHITE_BALANCE_BRACKET: u16 = 0x0502;
pub const CS_CUSTOM_SATURATION: u16 = 0x0503;
pub const CS_MODIFIED_SATURATION: u16 = 0x0504;
pub const CS_CONTRAST_SETTING: u16 = 0x0505;
pub const CS_SHARPNESS_SETTING: u16 = 0x0506;
pub const CS_COLOR_SPACE: u16 = 0x0507;
pub const CS_SCENE_MODE: u16 = 0x0509;
pub const CS_NOISE_REDUCTION: u16 = 0x050A;
pub const CS_DISTORTION_CORRECTION: u16 = 0x050B;
pub const CS_SHADING_COMPENSATION: u16 = 0x050C;
pub const CS_COMPRESSION_FACTOR: u16 = 0x050D;
pub const CS_GRADATION: u16 = 0x050F;
pub const CS_PICTURE_MODE: u16 = 0x0520;
pub const CS_PICTURE_MODE_SATURATION: u16 = 0x0521;
pub const CS_PICTURE_MODE_CONTRAST: u16 = 0x0523;
pub const CS_PICTURE_MODE_SHARPNESS: u16 = 0x0524;
pub const CS_PICTURE_MODE_BW_FILTER: u16 = 0x0525;
pub const CS_PICTURE_MODE_TONE: u16 = 0x0526;
pub const CS_NOISE_FILTER: u16 = 0x0527;
pub const CS_PICTURE_MODE_HUE: u16 = 0x0522;
pub const CS_ART_FILTER: u16 = 0x0529;
pub const CS_MAGIC_FILTER: u16 = 0x052C;
pub const CS_DRIVE_MODE: u16 = 0x0600;
pub const CS_PANORAMA_MODE: u16 = 0x0601;
pub const CS_IMAGE_QUALITY2: u16 = 0x0603;
pub const CS_IMAGE_STABILIZATION: u16 = 0x0604;
pub const RD_VERSION: u16 = 0x0000;
pub const RD_EXPOSURE_BIAS_VALUE: u16 = 0x0100;
pub const RD_WHITE_BALANCE_VALUE: u16 = 0x0101;
pub const RD_WB_FINE_ADJUSTMENT: u16 = 0x0102;
pub const RD_GRAY_POINT: u16 = 0x0103;
pub const RD_SATURATION_EMPHASIS: u16 = 0x0104;
pub const RD_MEMORY_COLOR_EMPHASIS: u16 = 0x0105;
pub const RD_CONTRAST_VALUE: u16 = 0x0106;
pub const RD_SHARPNESS_VALUE: u16 = 0x0107;
pub const RD_COLOR_SPACE: u16 = 0x0108;
pub const RD_ENGINE: u16 = 0x0109;
pub const RD_NOISE_REDUCTION: u16 = 0x010A;
pub const RD_EDIT_STATUS: u16 = 0x010B;
pub const RD_SETTINGS: u16 = 0x010C;
pub const IP_VERSION: u16 = 0x0000;
pub const IP_WB_RB_LEVELS: u16 = 0x0100;
pub const IP_WB_RB_LEVELS_3000K: u16 = 0x0102;
pub const IP_WB_RB_LEVELS_3300K: u16 = 0x0103;
pub const IP_WB_RB_LEVELS_3600K: u16 = 0x0104;
pub const IP_WB_RB_LEVELS_3900K: u16 = 0x0105;
pub const IP_WB_RB_LEVELS_4000K: u16 = 0x0106;
pub const IP_WB_RB_LEVELS_4300K: u16 = 0x0107;
pub const IP_WB_RB_LEVELS_4500K: u16 = 0x0108;
pub const IP_WB_RB_LEVELS_4800K: u16 = 0x0109;
pub const IP_WB_RB_LEVELS_5300K: u16 = 0x010A;
pub const IP_WB_RB_LEVELS_6000K: u16 = 0x010B;
pub const IP_WB_RB_LEVELS_6600K: u16 = 0x010C;
pub const IP_WB_RB_LEVELS_7500K: u16 = 0x010D;
pub const IP_COLOR_MATRIX: u16 = 0x0200;
pub const IP_BLACK_LEVEL: u16 = 0x0600;
pub const IP_GAIN_BASE: u16 = 0x0610;
pub const IP_VALID_BITS: u16 = 0x0611;
pub const IP_CROP_LEFT: u16 = 0x0612;
pub const IP_CROP_TOP: u16 = 0x0613;
pub const IP_CROP_WIDTH: u16 = 0x0614;
pub const IP_CROP_HEIGHT: u16 = 0x0615;
pub const IP_NOISE_REDUCTION2: u16 = 0x1010;
pub const IP_DISTORTION_CORRECTION2: u16 = 0x1011;
pub const IP_SHADING_COMPENSATION2: u16 = 0x1012;
pub const IP_MULTIPLE_EXPOSURE_MODE: u16 = 0x101C;
pub const IP_ASPECT_RATIO: u16 = 0x1112;
pub const IP_FACES_DETECTED: u16 = 0x1200;
pub const IP_FACE_DETECT_AREA: u16 = 0x1201;
pub const FI_VERSION: u16 = 0x0000;
pub const FI_AUTO_FOCUS: u16 = 0x0209;
pub const FI_SCENE_DETECT: u16 = 0x0210;
pub const FI_ZOOM_STEP_COUNT: u16 = 0x0300;
pub const FI_FOCUS_STEP_COUNT: u16 = 0x0301;
pub const FI_FOCUS_STEP_INFINITY: u16 = 0x0303;
pub const FI_FOCUS_STEP_NEAR: u16 = 0x0304;
pub const FI_FOCUS_DISTANCE: u16 = 0x0305;
pub const FI_AF_POINT: u16 = 0x0308;
pub const FI_EXTERNAL_FLASH: u16 = 0x1201;
pub const FI_EXTERNAL_FLASH_GUIDE_NUMBER: u16 = 0x1203;
pub const FI_EXTERNAL_FLASH_BOUNCE: u16 = 0x1204;
pub const FI_EXTERNAL_FLASH_ZOOM: u16 = 0x1205;
pub const FI_INTERNAL_FLASH: u16 = 0x1208;
pub const FI_MANUAL_FLASH: u16 = 0x1209;
pub const FI_MACRO_LED: u16 = 0x120A;
pub const FI_SENSOR_TEMPERATURE: u16 = 0x1500;
pub const FI_IMAGE_STABILIZATION: u16 = 0x1600;

/// Name of a tag of the Olympus main IFD.
pub open spec fn main_tag_name(tag_id: u16) -> Option<&'static str> {
    match tag_id {
        0x0100 => Some("ThumbnailImage"),
        0x0200 => Some("SpecialMode"),
        0x0201 => Some("JpegQuality"),
        0x0202 => Some("Macro"),
        0x0203 => Some("BWMode"),
        0x0204 => Some("DigitalZoom"),
        0x0205 => Some("FocalPlaneDiagonal"),
        0x0207 => Some("CameraType"),
        0x0209 => Some("CameraID"),
        0x0280 => Some("PreviewImage"),
        0x0403 => Some("SceneMode"),
        0x0404 => Some("SerialNumber"),
        0x0405 => Some("Firmware"),
        0x1017 => Some("RedBalance"),
        0x1018 => Some("BlueBalance"),
        0x2010 => Some("EquipmentIFD"),
        0x2020 => Some("CameraSettingsIFD"),
        0x2030 => Some("RawDevelopmentIFD"),
        0x2031 => Some("RawDevelopment2IFD"),
        0x2040 => Some("ImageProcessingIFD"),
        0x2050 => Some("FocusInfoIFD"),
        0x3000 => Some("RawInfoIFD"),
        _ => None,
    }
}

/// Name of a tag of the Olympus main IFD.
fn get_main_tag_name(tag_id: u16) -> (r: Option<&'static str>)
    ensures
        r == main_tag_name(tag_id),
{
    match tag_id {
        0x0100 => Some("ThumbnailImage"),
        0x0200 => Some("SpecialMode"),
        0x0201 => Some("JpegQuality"),
        0x0202 => Some("Macro"),
        0x0203 => Some("BWMode"),
        0x0204 => Some("DigitalZoom"),
        0x0205 => Some("FocalPlaneDiagonal"),
        0x0207 => Some("CameraType"),
        0x0209 => Some("CameraID"),
        0x0280 => Some("PreviewImage"),
        0x0403 => Some("SceneMode"),
        0x0404 => Some("SerialNumber"),
        0x0405 => Some("Firmware"),
        0x1017 => Some("RedBalance"),
        0x1018 => Some("BlueBalance"),
        0x2010 => Some("EquipmentIFD"),
        0x2020 => Some("CameraSettingsIFD"),
        0x2030 => Some("RawDevelopmentIFD"),
        0x2031 => Some("RawDevelopment2IFD"),
        0x2040 => Some("ImageProcessingIFD"),
        0x2050 => Some("FocusInfoIFD"),
        0x3000 => Some("RawInfoIFD"),
        _ => None,
    }
}

/// Name of a tag of the Olympus Equipment IFD.
pub open spec fn equipment_tag_name(tag_id: u16) -> Option<&'static str> {
    match tag_id {
        0x0000 => Some("EquipmentVersion"),
        0x0100 => Some("CameraType2"),
        0x0101 => Some("SerialNumber"),
        0x0102 => Some("InternalSerialNumber"),
        0x0103 => Some("FocalPlaneDiagonal"),
        0x0104 => Some("BodyFirmwareVersion"),
        0x0201 => Some("LensType"),
        0x0202 => Some("LensSerialNumber"),
        0x0203 => Some("LensModel"),
        0x0204 => Some("LensFirmwareVersion"),
        0x0205 => Some("MaxApertureAtMinFocal"),
        0x0206 => Some("MaxApertureAtMaxFocal"),
        0x0207 => Some("MinFocalLength"),
        0x0208 => Some("MaxFocalLength"),
        0x020A => Some("MaxAperture"),
        0x020B => Some("LensProperties"),
        0x0301 => Some("Extender"),
        0x0302 => Some("ExtenderSerialNumber"),
        0x0303 => Some("ExtenderModel"),
        0x0304 => Some("ExtenderFirmwareVersion"),
        0x1000 => Some("FlashType"),
        0x1001 => Some("FlashModel"),
        0x1002 => Some("FlashFirmwareVersion"),
        0x1003 => Some("FlashSerialNumber"),
        _ => None,
    }
}

/// Name of a tag of the Olympus Equipment IFD.
fn get_equipment_tag_name(tag_id: u16) -> (r: Option<&'static str>)
    ensures
        r == equipment_tag_name(tag_id),
{
    match tag_id {
        0x0000 => Some("EquipmentVersion"),
        0x0100 => Some("CameraType2"),
        0x0101 => Some("SerialNumber"),
        0x0102 => Some("InternalSerialNumber"),
        0x0103 => Some("FocalPlaneDiagonal"),
        0x0104 => Some("BodyFirmwareVersion"),
        0x0201 => Some("LensType"),
        0x0202 => Some("LensSerialNumber"),
        0x0203 => Some("LensModel"),
        0x0204 => Some("LensFirmwareVersion"),
        0x0205 => Some("MaxApertureAtMinFocal"),
        0x0206 => Some("MaxApertureAtMaxFocal"),
        0x0207 => Some("MinFocalLength"),
        0x0208 => Some("MaxFocalLength"),
        0x020A => Some("MaxAperture"),
        0x020B => Some("LensProperties"),
        0x0301 => Some("Extender"),
        0x0302 => Some("ExtenderSerialNumber"),
        0x0303 => Some("ExtenderModel"),
        0x0304 => Some("ExtenderFirmwareVersion"),
        0x1000 => Some("FlashType"),
        0x1001 => Some("FlashModel"),
        0x1002 => Some("FlashFirmwareVersion"),
        0x1003 => Some("FlashSerialNumber"),
        _ => None,
    }
}

/// Name of a tag of the Olympus CameraSettings IFD.
pub open spec fn camera_settings_tag_name(tag_id: u16) -> Option<&'static str> {
    match tag_id {
        0x0000 => Some("CameraSettingsVersion"),
        0x0100 => Some("PreviewImageValid"),
        0x0101 => Some("PreviewImageStart"),
        0x0102 => Some("PreviewImageLength"),
        0x0200 => Some("ExposureMode"),
        0x0201 => Some("AELock"),
        0x0202 => Some("MeteringMode"),
        0x0203 => Some("ExposureShift"),
        0x0300 => Some("MacroMode"),
        0x0301 => Some("FocusMode"),
        0x0302 => Some("FocusProcess"),
        0x0303 => Some("AFSearch"),
        0x0304 => Some("AFAreas"),
        0x0305 => Some("AFPointSelected"),
        0x0306 => Some("AFFineTune"),
        0x0400 => Some("FlashMode"),
        0x0401 => Some("FlashExposureComp"),
        0x0403 => Some("FlashRemoteControl"),
        0x0404 => Some("FlashControlMode"),
        0x0500 => Some("WhiteBalance2"),
        0x0501 => Some("WhiteBalanceTemperature"),
        0x0502 => Some("WhiteBalanceBracket"),
        0x0503 => Some("CustomSaturation"),
        0x0504 => Some("ModifiedSaturation"),
        0x0505 => Some("ContrastSetting"),
        0x0506 => Some("SharpnessSetting"),
        0x0507 => Some("ColorSpace"),
        0x0509 => Some("SceneMode"),
        0x050A => Some("NoiseReduction"),
        0x050B => Some("DistortionCorrection"),
        0x050C => Some("ShadingCompensation"),
        0x050F => Some("Gradation"),
        0x0520 => Some("PictureMode"),
        0x0521 => Some("PictureModeSaturation"),
        0x0522 => Some("PictureModeHue"),
        0x0523 => Some("PictureModeContrast"),
        0x0524 => Some("PictureModeSharpness"),
        0x0525 => Some("PictureModeBWFilter"),
        0x0526 => Some("PictureModeTone"),
        0x0527 => Some("NoiseFilter"),
        0x0529 => Some("ArtFilter"),
        0x052C => Some("MagicFilter"),
        0x0600 => Some("DriveMode"),
        0x0601 => Some("PanoramaMode"),
        0x0603 => Some("ImageQuality2"),
        0x0604 => Some("ImageStabilization"),
        _ => None,
    }
}

/// Name of a tag of the Olympus CameraSettings IFD.
fn get_camera_settings_tag_name(tag_id: u16) -> (r: Option<&'static str>)
    ensures
        r == camera_settings_tag_name(tag_id),
{
    match tag_id {
        0x0000 => Some("CameraSettingsVersion"),
        0x0100 => Some("PreviewImageValid"),
        0x0101 => Some("PreviewImageStart"),
        0x0102 => Some("PreviewImageLength"),
        0x0200 => Some("ExposureMode"),
        0x0201 => Some("AELock"),
        0x0202 => Some("MeteringMode"),
        0x0203 => Some("ExposureShift"),
        0x0300 => Some("MacroMode"),
        0x0301 => Some("FocusMode"),
        0x0302 => Some("FocusProcess"),
        0x0303 => Some("AFSearch"),
        0x0304 => Some("AFAreas"),
        0x0305 => Some("AFPointSelected"),
        0x0306 => Some("AFFineTune"),
        0x0400 => Some("FlashMode"),
        0x0401 => Some("FlashExposureComp"),
        0x0403 => Some("FlashRemoteControl"),
        0x0404 => Some("FlashControlMode"),
        0x0500 => Some("WhiteBalance2"),
        0x0501 => Some("WhiteBalanceTemperature"),
        0x0502 => Some("WhiteBalanceBracket"),
        0x0503 => Some("CustomSaturation"),
        0x0504 => Some("ModifiedSaturation"),
        0x0505 => Some("ContrastSetting"),
        0x0506 => Some("SharpnessSetting"),
        0x0507 => Some("ColorSpace"),
        0x0509 => Some("SceneMode"),
        0x050A => Some("NoiseReduction"),
        0x050B => Some("DistortionCorrection"),
        0x050C => Some("ShadingCompensation"),
        0x050F => Some("Gradation"),
        0x0520 => Some("PictureMode"),
        0x0521 => Some("PictureModeSaturation"),
        0x0522 => Some("PictureModeHue"),
        0x0523 => Some("PictureModeContrast"),
        0x0524 => Some("PictureModeSharpness"),
        0x0525 => Some("PictureModeBWFilter"),
        0x0526 => Some("PictureModeTone"),
        0x0527 => Some("NoiseFilter"),
        0x0529 => Some("ArtFilter"),
        0x052C => Some("MagicFilter"),
        0x0600 => Some("DriveMode"),
        0x0601 => Some("PanoramaMode"),
        0x0603 => Some("ImageQuality2"),
        0x0604 => Some("ImageStabilization"),
        _ => None,
    }
}

/// Name of a tag of the Olympus RawDevelopment IFD.
pub open spec fn raw_development_tag_name(tag_id: u16) -> Option<&'static str> {
    match tag_id {
        0x0000 => Some("RawDevVersion"),
        0x0100 => Some("RawDevExposureBiasValue"),
        0x0101 => Some("RawDevWhiteBalanceValue"),
        0x0102 => Some("RawDevWBFineAdjustment"),
        0x0103 => Some("RawDevGrayPoint"),
        0x0104 => Some("RawDevSaturationEmphasis"),
        0x0105 => Some("RawDevMemoryColorEmphasis"),
        0x0106 => Some("RawDevContrastValue"),
        0x0107 => Some("RawDevSharpnessValue"),
        0x0108 => Some("RawDevColorSpace"),
        0x0109 => Some("RawDevEngine"),
        0x010A => Some("RawDevNoiseReduction"),
        0x010B => Some("RawDevEditStatus"),
        0x010C => Some("RawDevSettings"),
        _ => None,
    }
}

/// Name of a tag of the Olympus RawDevelopment IFD.
fn get_raw_development_tag_name(tag_id: u16) -> (r: Option<&'static str>)
    ensures
        r == raw_development_tag_name(tag_id),
{
    match tag_id {
        0x0000 => Some("RawDevVersion"),
        0x0100 => Some("RawDevExposureBiasValue"),
        0x0101 => Some("RawDevWhiteBalanceValue"),
        0x0102 => Some("RawDevWBFineAdjustment"),
        0x0103 => Some("RawDevGrayPoint"),
        0x0104 => Some("RawDevSaturationEmphasis"),
        0x0105 => Some("RawDevMemoryColorEmphasis"),
        0x0106 => Some("RawDevContrastValue"),
        0x0107 => Some("RawDevSharpnessValue"),
        0x0108 => Some("RawDevColorSpace"),
        0x0109 => Some("RawDevEngine"),
        0x010A => Some("RawDevNoiseReduction"),
        0x010B => Some("RawDevEditStatus"),
        0x010C => Some("RawDevSettings"),
        _ => None,
    }
}

/// Name of a tag of the Olympus ImageProcessing IFD.
pub open spec fn image_processing_tag_name(tag_id: u16) -> Option<&'static str> {
    match tag_id {
        0x0000 => Some("ImageProcessingVersion"),
        0x0100 => Some("WB_RBLevels"),
        0x0102 => Some("WB_RBLevels3000K"),
        0x0103 => Some("WB_RBLevels3300K"),
        0x0104 => Some("WB_RBLevels3600K"),
        0x0105 => Some("WB_RBLevels3900K"),
        0x0106 => Some("WB_RBLevels4000K"),
        0x0107 => Some("WB_RBLevels4300K"),
        0x0108 => Some("WB_RBLevels4500K"),
        0x0109 => Some("WB_RBLevels4800K"),
        0x010A => Some("WB_RBLevels5300K"),
        0x010B => Some("WB_RBLevels6000K"),
        0x010C => Some("WB_RBLevels6600K"),
        0x010D => Some("WB_RBLevels7500K"),
        0x0200 => Some("ColorMatrix"),
        0x0600 => Some("BlackLevel2"),
        0x0610 => Some("GainBase"),
        0x0611 => Some("ValidBits"),
        0x0612 => Some("CropLeft"),
        0x0613 => Some("CropTop"),
        0x0614 => Some("CropWidth"),
        0x0615 => Some("CropHeight"),
        0x1010 => Some("NoiseReduction2"),
        0x1011 => Some("DistortionCorrection2"),
        0x1012 => Some("ShadingCompensation2"),
        0x101C => Some("MultipleExposureMode"),
        0x1112 => Some("AspectRatio"),
        0x1200 => Some("FacesDetected"),
        0x1201 => Some("FaceDetectArea"),
        _ => None,
    }
}

/// Name of a tag of the Olympus ImageProcessing IFD.
fn get_image_processing_tag_name(tag_id: u16) -> (r: Option<&'static str>)
    ensures
        r == image_processing_tag_name(tag_id),
{
    match tag_id {
        0x0000 => Some("ImageProcessingVersion"),
        0x0100 => Some("WB_RBLevels"),
        0x0102 => Some("WB_RBLevels3000K"),
        0x0103 => Some("WB_RBLevels3300K"),
        0x0104 => Some("WB_RBLevels3600K"),
        0x0105 => Some("WB_RBLevels3900K"),
        0x0106 => Some("WB_RBLevels4000K"),
        0x0107 => Some("WB_RBLevels4300K"),
        0x0108 => Some("WB_RBLevels4500K"),
        0x0109 => Some("WB_RBLevels4800K"),
        0x010A => Some("WB_RBLevels5300K"),
        0x010B => Some("WB_RBLevels6000K"),
        0x010C => Some("WB_RBLevels6600K"),
        0x010D => Some("WB_RBLevels7500K"),
        0x0200 => Some("ColorMatrix"),
        0x0600 => Some("BlackLevel2"),
        0x0610 => Some("GainBase"),
        0x0611 => Some("ValidBits"),
        0x0612 => Some("CropLeft"),
        0x0613 => Some("CropTop"),
        0x0614 => Some("CropWidth"),
        0x0615 => Some("CropHeight"),
        0x1010 => Some("NoiseReduction2"),
        0x1011 => Some("DistortionCorrection2"),
        0x1012 => Some("ShadingCompensation2"),
        0x101C => Some("MultipleExposureMode"),
        0x1112 => Some("AspectRatio"),
        0x1200 => Some("FacesDetected"),
        0x1201 => Some("FaceDetectArea"),
        _ => None,
    }
}

/// Name of a tag of the Olympus FocusInfo IFD.
pub open spec fn focus_info_tag_name(tag_id: u16) -> Option<&'static str> {
    match tag_id {
        0x0000 => Some("FocusInfoVersion"),
        0x0209 => Some("AutoFocus"),
        0x0210 => Some("SceneDetect"),
        0x0300 => Some("ZoomStepCount"),
        0x0301 => Some("FocusStepCount"),
        0x0303 => Some("FocusStepInfinity"),
        0x0304 => Some("FocusStepNear"),
        0x0305 => Some("FocusDistance"),
        0x0308 => Some("AFPoint"),
        0x1201 => Some("ExternalFlash"),
        0x1203 => Some("ExternalFlashGuideNumber"),
        0x1204 => Some("ExternalFlashBounce"),
        0x1205 => Some("ExternalFlashZoom"),
        0x1208 => Some("InternalFlash"),
        0x1209 => Some("ManualFlash"),
        0x120A => Some("MacroLED"),
        0x1500 => Some("SensorTemperature"),
        0x1600 => Some("ImageStabilization"),
        _ => None,
    }
}

/// Name of a tag of the Olympus FocusInfo IFD.
fn get_focus_info_tag_name(tag_id: u16) -> (r: Option<&'static str>)
    ensures
        r == focus_info_tag_name(tag_id),
{
    match tag_id {
        0x0000 => Some("FocusInfoVersion"),
        0x0209 => Some("AutoFocus"),
        0x0210 => Some("SceneDetect"),
        0x0300 => Some("ZoomStepCount"),
        0x0301 => Some("FocusStepCount"),
        0x0303 => Some("FocusStepInfinity"),
        0x0304 => Some("FocusStepNear"),
        0x0305 => Some("FocusDistance"),
        0x0308 => Some("AFPoint"),
        0x1201 => Some("ExternalFlash"),
        0x1203 => Some("ExternalFlashGuideNumber"),
        0x1204 => Some("ExternalFlashBounce"),
        0x1205 => Some("ExternalFlashZoom"),
        0x1208 => Some("InternalFlash"),
        0x1209 => Some("ManualFlash"),
        0x120A => Some("MacroLED"),
        0x1500 => Some("SensorTemperature"),
        0x1600 => Some("ImageStabilization"),
        _ => None,
    }
}

/// Olympus exposure mode as ExifTool prints it ("Unknown" for other values).
pub open spec fn exposure_mode_exiftool(value: u16) -> &'static str {
    match value {
        1 => "Manual",
        2 => "Program",
        3 => "Aperture-priority AE",
        4 => "Shutter speed priority AE",
        5 => "Program-shift",
        _ => "Unknown",
    }
}

/// Olympus exposure mode as ExifTool prints it ("Unknown" for other values).
fn decode_exposure_mode_exiftool(value: u16) -> (r: &'static str)
    ensures
        r == exposure_mode_exiftool(value),
{
    match value {
        1 => "Manual",
        2 => "Program",
        3 => "Aperture-priority AE",
        4 => "Shutter speed priority AE",
        5 => "Program-shift",
        _ => "Unknown",
    }
}

/// Olympus metering mode as ExifTool prints it ("Unknown" for other values).
pub open spec fn metering_mode_exiftool(value: u16) -> &'static str {
    match value {
        2 => "Center-weighted average",
        3 => "Spot",
        5 => "ESP",
        261 => "Pattern+AF",
        515 => "Spot+Highlight control",
        1027 => "Spot+Shadow control",
        _ => "Unknown",
    }
}

/// Olympus metering mode as ExifTool prints it ("Unknown" for other values).
fn decode_metering_mode_exiftool(value: u16) -> (r: &'static str)
    ensures
        r == metering_mode_exiftool(value),
{
    match value {
        2 => "Center-weighted average",
        3 => "Spot",
        5 => "ESP",
        261 => "Pattern+AF",
        515 => "Spot+Highlight control",
        1027 => "Spot+Shadow control",
        _ => "Unknown",
    }
}

/// Olympus macro mode as ExifTool prints it ("Unknown" for other values).
pub open spec fn macro_mode_exiftool(value: u16) -> &'static str {
    match value {
        0 => "Off",
        1 => "On",
        2 => "Super Macro",
        _ => "Unknown",
    }
}

/// Olympus macro mode as ExifTool prints it ("Unknown" for other values).
fn decode_macro_mode_exiftool(value: u16) -> (r: &'static str)
    ensures
        r == macro_mode_exiftool(value),
{
    match value {
        0 => "Off",
        1 => "On",
        2 => "Super Macro",
        _ => "Unknown",
    }
}

/// Olympus focus mode as ExifTool prints it ("Unknown" for other values).
pub open spec fn focus_mode_exiftool(value: u16) -> &'static str {
    match value {
        0 => "Single AF",
        1 => "Sequential shooting AF",
        2 => "Continuous AF",
        3 => "Multi AF",
        4 => "Face Detect",
        10 => "MF",
        _ => "Unknown",
    }
}

/// Olympus focus mode as ExifTool prints it ("Unknown" for other values).
fn decode_focus_mode_exiftool(value: u16) -> (r: &'static str)
    ensures
        r == focus_mode_exiftool(value),
{
    match value {
        0 => "Single AF",
        1 => "Sequential shooting AF",
        2 => "Continuous AF",
        3 => "Multi AF",
        4 => "Face Detect",
        10 => "MF",
        _ => "Unknown",
    }
}

/// Olympus focus process as ExifTool prints it ("Unknown" for other values).
pub open spec fn focus_process_exiftool(value: u16) -> &'static str {
    match value {
        0 => "AF Not Used",
        1 => "AF Used",
        _ => "Unknown",
    }
}

/// Olympus focus process as ExifTool prints it ("Unknown" for other values).
fn decode_focus_process_exiftool(value: u16) -> (r: &'static str)
    ensures
        r == focus_process_exiftool(value),
{
    match value {
        0 => "AF Not Used",
        1 => "AF Used",
        _ => "Unknown",
    }
}

/// Olympus af search as ExifTool prints it ("Unknown" for other values).
pub open spec fn af_search_exiftool(value: u16) -> &'static str {
    match value {
        0 => "Not Ready",
        1 => "Ready",
        _ => "Unknown",
    }
}

/// Olympus af search as ExifTool prints it ("Unknown" for other values).
fn decode_af_search_exiftool(value: u16) -> (r: &'static str)
    ensures
        r == af_search_exiftool(value),
{
    match value {
        0 => "Not Ready",
        1 => "Ready",
        _ => "Unknown",
    }
}

/// Olympus white balance as ExifTool prints it ("Unknown" for other values).
pub open spec fn white_balance_exiftool(value: u16) -> &'static str {
    match value {
        0 => "Auto",
        1 => "Auto (Keep Warm Color Off)",
        16 => "7500K (Fine Weather with Shade)",
        17 => "6000K (Cloudy)",
        18 => "5300K (Fine Weather)",
        20 => "3000K (Tungsten light)",
        21 => "3600K (Tungsten light-like)",
        22 => "Auto Setup",
        23 => "5500K (Flash)",
        33 => "6600K (Daylight fluorescent)",
        34 => "4500K (Neutral white fluorescent)",
        35 => "4000K (Cool white fluorescent)",
        36 => "White Fluorescent",
        48 => "3600K (Tungsten light-like)",
        67 => "Underwater",
        256 => "One Touch WB 1",
        257 => "One Touch WB 2",
        258 => "One Touch WB 3",
        259 => "One Touch WB 4",
        512 => "Custom WB 1",
        513 => "Custom WB 2",
        514 => "Custom WB 3",
        515 => "Custom WB 4",
        _ => "Unknown",
    }
}

/// Olympus white balance as ExifTool prints it ("Unknown" for other values).
fn decode_white_balance_exiftool(value: u16) -> (r: &'static str)
    ensures
        r == white_balance_exiftool(value),
{
    match value {
        0 => "Auto",
        1 => "Auto (Keep Warm Color Off)",
        16 => "7500K (Fine Weather with Shade)",
        17 => "6000K (Cloudy)",
        18 => "5300K (Fine Weather)",
        20 => "3000K (Tungsten light)",
        21 => "3600K (Tungsten light-like)",
        22 => "Auto Setup",
        23 => "5500K (Flash)",
        33 => "6600K (Daylight fluorescent)",
        34 => "4500K (Neutral white fluorescent)",
        35 => "4000K (Cool white fluorescent)",
        36 => "White Fluorescent",
        48 => "3600K (Tungsten light-like)",
        67 => "Underwater",
        256 => "One Touch WB 1",
        257 => "One Touch WB 2",
        258 => "One Touch WB 3",
        259 => "One Touch WB 4",
        512 => "Custom WB 1",
        513 => "Custom WB 2",
        514 => "Custom WB 3",
        515 => "Custom WB 4",
        _ => "Unknown",
    }
}

/// Olympus color space as ExifTool prints it ("Unknown" for other values).
pub open spec fn color_space_exiftool(value: u16) -> &'static str {
    match value {
        0 => "sRGB",
        1 => "Adobe RGB",
        2 => "Pro Photo RGB",
        _ => "Unknown",
    }
}

/// Olympus color space as ExifTool prints it ("Unknown" for other values).
fn decode_color_space_exiftool(value: u16) -> (r: &'static str)
    ensures
        r == color_space_exiftool(value),
{
    match value {
        0 => "sRGB",
        1 => "Adobe RGB",
        2 => "Pro Photo RGB",
        _ => "Unknown",
    }
}

/// Olympus distortion correction as ExifTool prints it ("Unknown" for other values).
pub open spec fn distortion_correction_exiftool(value: u16) -> &'static str {
    match value {
        0 => "Off",
        1 => "On",
        _ => "Unknown",
    }
}

/// Olympus distortion correction as ExifTool prints it ("Unknown" for other values).
fn decode_distortion_correction_exiftool(value: u16) -> (r: &'static str)
    ensures
        r == distortion_correction_exiftool(value),
{
    match value {
        0 => "Off",
        1 => "On",
        _ => "Unknown",
    }
}

/// Olympus shading compensation as ExifTool prints it ("Unknown" for other values).
pub open spec fn shading_compensation_exiftool(value: u16) -> &'static str {
    match value {
        0 => "Off",
        1 => "On",
        _ => "Unknown",
    }
}

/// Olympus shading compensation as ExifTool prints it ("Unknown" for other values).
fn decode_shading_compensation_exiftool(value: u16) -> (r: &'static str)
    ensures
        r == shading_compensation_exiftool(value),
{
    match value {
        0 => "Off",
        1 => "On",
        _ => "Unknown",
    }
}

/// Olympus ae lock as ExifTool prints it ("Unknown" for other values).
pub open spec fn ae_lock_exiftool(value: u16) -> &'static str {
    match value {
        0 => "Off",
        1 => "On",
        _ => "Unknown",
    }
}

/// Olympus ae lock as ExifTool prints it ("Unknown" for other values).
fn decode_ae_lock_exiftool(value: u16) -> (r: &'static str)
    ensures
        r == ae_lock_exiftool(value),
{
    match value {
        0 => "Off",
        1 => "On",
        _ => "Unknown",
    }
}

/// Olympus flash remote control as ExifTool prints it ("Unknown" for other values).
pub open spec fn flash_remote_control_exiftool(value: u16) -> &'static str {
    match value {
        0x0 => "Off",
        0x1 => "Channel 1, Low",
        0x2 => "Channel 2, Low",
        0x3 => "Channel 3, Low",
        0x4 => "Channel 4, Low",
        0x9 => "Channel 1, Mid",
        0xa => "Channel 2, Mid",
        0xb => "Channel 3, Mid",
        0xc => "Channel 4, Mid",
        0x11 => "Channel 1, High",
        0x12 => "Channel 2, High",
        0x13 => "Channel 3, High",
        0x14 => "Channel 4, High",
        _ => "Unknown",
    }
}

/// Olympus flash remote control as ExifTool prints it ("Unknown" for other values).
fn decode_flash_remote_control_exiftool(value: u16) -> (r: &'static str)
    ensures
        r == flash_remote_control_exiftool(value),
{
    match value {
        0x0 => "Off",
        0x1 => "Channel 1, Low",
        0x2 => "Channel 2, Low",
        0x3 => "Channel 3, Low",
        0x4 => "Channel 4, Low",
        0x9 => "Channel 1, Mid",
        0xa => "Channel 2, Mid",
        0xb => "Channel 3, Mid",
        0xc => "Channel 4, Mid",
        0x11 => "Channel 1, High",
        0x12 => "Channel 2, High",
        0x13 => "Channel 3, High",
        0x14 => "Channel 4, High",
        _ => "Unknown",
    }
}

/// Olympus flash control mode as ExifTool prints it ("Unknown" for other values).
pub open spec fn flash_control_mode_exiftool(value: u16) -> &'static str {
    match value {
        0 => "Off",
        3 => "TTL",
        4 => "Auto",
        5 => "Manual",
        _ => "Unknown",
    }
}

/// Olympus flash control mode as ExifTool prints it ("Unknown" for other values).
fn decode_flash_control_mode_exiftool(value: u16) -> (r: &'static str)
    ensures
        r == flash_control_mode_exiftool(value),
{
    match value {
        0 => "Off",
        3 => "TTL",
        4 => "Auto",
        5 => "Manual",
        _ => "Unknown",
    }
}

/// Olympus modified saturation as ExifTool prints it ("Unknown" for other values).
pub open spec fn modified_saturation_exiftool(value: u16) -> &'static str {
    match value {
        0 => "Off",
        1 => "CM1 (Red Enhance)",
        2 => "CM2 (Green Enhance)",
        3 => "CM3 (Blue Enhance)",
        4 => "CM4 (Skin Tones)",
        _ => "Unknown",
    }
}

/// Olympus modified saturation as ExifTool prints it ("Unknown" for other values).
fn decode_modified_saturation_exiftool(value: u16) -> (r: &'static str)
    ensures
        r == modified_saturation_exiftool(value),
{
    match value {
        0 => "Off",
        1 => "CM1 (Red Enhance)",
        2 => "CM2 (Green Enhance)",
        3 => "CM3 (Blue Enhance)",
        4 => "CM4 (Skin Tones)",
        _ => "Unknown",
    }
}

/// Olympus art filter as ExifTool prints it ("Unknown" for other values).
pub open spec fn art_filter_exiftool(value: u16) -> &'static str {
    match value {
        0 => "Off",
        1 => "Soft Focus",
        2 => "Pop Art",
        3 => "Pale & Light Color",
        4 => "Light Tone",
        5 => "Pin Hole",
        6 => "Grainy Film",
        9 => "Diorama",
        10 => "Cross Process",
        12 => "Fish Eye",
        13 => "Drawing",
        14 => "Gentle Sepia",
        15 => "Pale & Light Color II",
        16 => "Pop Art II",
        17 => "Pin Hole II",
        18 => "Pin Hole III",
        19 => "Grainy Film II",
        20 => "Dramatic Tone",
        21 => "Punk",
        22 => "Soft Focus 2",
        23 => "Sparkle",
        24 => "Watercolor",
        25 => "Key Line",
        26 => "Key Line II",
        27 => "Miniature",
        28 => "Reflection",
        29 => "Fragmented",
        31 => "Cross Process II",
        32 => "Dramatic Tone II",
        33 => "Watercolor I",
        34 => "Watercolor II",
        35 => "Diorama II",
        36 => "Vintage",
        37 => "Vintage II",
        38 => "Vintage III",
        39 => "Partial Color",
        40 => "Partial Color II",
        41 => "Partial Color III",
        _ => "Unknown",
    }
}

/// Olympus art filter as ExifTool prints it ("Unknown" for other values).
fn decode_art_filter_exiftool(value: u16) -> (r: &'static str)
    ensures
        r == art_filter_exiftool(value),
{
    match value {
        0 => "Off",
        1 => "Soft Focus",
        2 => "Pop Art",
        3 => "Pale & Light Color",
        4 => "Light Tone",
        5 => "Pin Hole",
        6 => "Grainy Film",
        9 => "Diorama",
        10 => "Cross Process",
        12 => "Fish Eye",
        13 => "Drawing",
        14 => "Gentle Sepia",
        15 => "Pale & Light Color II",
        16 => "Pop Art II",
        17 => "Pin Hole II",
        18 => "Pin Hole III",
        19 => "Grainy Film II",
        20 => "Dramatic Tone",
        21 => "Punk",
        22 => "Soft Focus 2",
        23 => "Sparkle",
        24 => "Watercolor",
        25 => "Key Line",
        26 => "Key Line II",
        27 => "Miniature",
        28 => "Reflection",
        29 => "Fragmented",
        31 => "Cross Process II",
        32 => "Dramatic Tone II",
        33 => "Watercolor I",
        34 => "Watercolor II",
        35 => "Diorama II",
        36 => "Vintage",
        37 => "Vintage II",
        38 => "Vintage III",
        39 => "Partial Color",
        40 => "Partial Color II",
        41 => "Partial Color III",
        _ => "Unknown",
    }
}

/// Olympus image quality2 as ExifTool prints it ("Unknown" for other values).
pub open spec fn image_quality2_exiftool(value: u16) -> &'static str {
    match value {
        1 => "SQ",
        2 => "HQ",
        3 => "SHQ",
        4 => "RAW",
        5 => "SQ (5)",
        _ => "Unknown",
    }
}

/// Olympus image quality2 as ExifTool prints it ("Unknown" for other values).
fn decode_image_quality2_exiftool(value: u16) -> (r: &'static str)
    ensures
        r == image_quality2_exiftool(value),
{
    match value {
        1 => "SQ",
        2 => "HQ",
        3 => "SHQ",
        4 => "RAW",
        5 => "SQ (5)",
        _ => "Unknown",
    }
}

/// Olympus image stabilization as ExifTool prints it ("Unknown" for other values).
pub open spec fn image_stabilization_exiftool(value: u32) -> &'static str {
    match value {
        0 => "Off",
        1 => "On, S-IS1 (All Direction Shake IS)",
        2 => "On, S-IS2 (Vertical Shake IS)",
        3 => "On, S-IS3 (Horizontal Shake IS)",
        4 => "On, S-IS Auto",
        _ => "Unknown",
    }
}

/// Olympus image stabilization as ExifTool prints it ("Unknown" for other values).
fn decode_image_stabilization_exiftool(value: u32) -> (r: &'static str)
    ensures
        r == image_stabilization_exiftool(value),
{
    match value {
        0 => "Off",
        1 => "On, S-IS1 (All Direction Shake IS)",
        2 => "On, S-IS2 (Vertical Shake IS)",
        3 => "On, S-IS3 (Horizontal Shake IS)",
        4 => "On, S-IS Auto",
        _ => "Unknown",
    }
}

/// Olympus multiple exposure mode as ExifTool prints it ("Unknown" for other values).
pub open spec fn multiple_exposure_mode_exiftool(value: u16) -> &'static str {
    match value {
        0 => "Off",
        2 => "On (2 frames)",
        3 => "On (3 frames)",
        _ => "Unknown",
    }
}

/// Olympus multiple exposure mode as ExifTool prints it ("Unknown" for other values).
fn decode_multiple_exposure_mode_exiftool(value: u16) -> (r: &'static str)
    ensures
        r == multiple_exposure_mode_exiftool(value),
{
    match value {
        0 => "Off",
        2 => "On (2 frames)",
        3 => "On (3 frames)",
        _ => "Unknown",
    }
}

/// Olympus aspect ratio as ExifTool prints it ("Unknown" for other values).
pub open spec fn aspect_ratio_exiftool(value: u16) -> &'static str {
    match value {
        1 => "4:3",
        2 => "3:2",
        3 => "16:9",
        4 => "6:6",
        5 => "5:4",
        6 => "7:6",
        7 => "6:5",
        8 => "7:5",
        9 => "3:4",
        _ => "Unknown",
    }
}

/// Olympus aspect ratio as ExifTool prints it ("Unknown" for other values).
fn decode_aspect_ratio_exiftool(value: u16) -> (r: &'static str)
    ensures
        r == aspect_ratio_exiftool(value),
{
    match value {
        1 => "4:3",
        2 => "3:2",
        3 => "16:9",
        4 => "6:6",
        5 => "5:4",
        6 => "7:6",
        7 => "6:5",
        8 => "7:5",
        9 => "3:4",
        _ => "Unknown",
    }
}

/// Olympus picture mode tone as ExifTool prints it ("Unknown" for other values).
pub open spec fn picture_mode_tone_exiftool(value: u16) -> &'static str {
    match value {
        0 => "n/a",
        1 => "Neutral",
        2 => "Sepia",
        3 => "Blue",
        4 => "Purple",
        5 => "Green",
        _ => "Unknown",
    }
}

/// Olympus picture mode tone as ExifTool prints it ("Unknown" for other values).
fn decode_picture_mode_tone_exiftool(value: u16) -> (r: &'static str)
    ensures
        r == picture_mode_tone_exiftool(value),
{
    match value {
        0 => "n/a",
        1 => "Neutral",
        2 => "Sepia",
        3 => "Blue",
        4 => "Purple",
        5 => "Green",
        _ => "Unknown",
    }
}

/// Olympus af point as ExifTool prints it ("Unknown" for other values).
pub open spec fn af_point_exiftool(value: u16) -> &'static str {
    match value {
        0 => "Left (or n/a)",
        1 => "Center (horizontal)",
        2 => "Right",
        3 => "Center (vertical)",
        255 => "None",
        _ => "Unknown",
    }
}

/// Olympus af point as ExifTool prints it ("Unknown" for other values).
fn decode_af_point_exiftool(value: u16) -> (r: &'static str)
    ensures
        r == af_point_exiftool(value),
{
    match value {
        0 => "Left (or n/a)",
        1 => "Center (horizontal)",
        2 => "Right",
        3 => "Center (vertical)",
        255 => "None",
        _ => "Unknown",
    }
}

/// Olympus raw dev color space as ExifTool prints it ("Unknown" for other values).
pub open spec fn raw_dev_color_space_exiftool(value: u16) -> &'static str {
    match value {
        0 => "sRGB",
        1 => "Adobe RGB",
        2 => "Pro Photo RGB",
        _ => "Unknown",
    }
}

/// Olympus raw dev color space as ExifTool prints it ("Unknown" for other values).
fn decode_raw_dev_color_space_exiftool(value: u16) -> (r: &'static str)
    ensures
        r == raw_dev_color_space_exiftool(value),
{
    match value {
        0 => "sRGB",
        1 => "Adobe RGB",
        2 => "Pro Photo RGB",
        _ => "Unknown",
    }
}

/// Olympus raw dev engine as ExifTool prints it ("Unknown" for other values).
pub open spec fn raw_dev_engine_exiftool(value: u16) -> &'static str {
    match value {
        0 => "High Speed",
        1 => "High Function",
        2 => "Advanced High Speed",
        3 => "Advanced High Function",
        _ => "Unknown",
    }
}

/// Olympus raw dev engine as ExifTool prints it ("Unknown" for other values).
fn decode_raw_dev_engine_exiftool(value: u16) -> (r: &'static str)
    ensures
        r == raw_dev_engine_exiftool(value),
{
    match value {
        0 => "High Speed",
        1 => "High Function",
        2 => "Advanced High Speed",
        3 => "Advanced High Function",
        _ => "Unknown",
    }
}

/// Olympus raw dev noise reduction as ExifTool prints it ("Unknown" for other values).
pub open spec fn raw_dev_noise_reduction_exiftool(value: u16) -> &'static str {
    match value {
        0 => "(none)",
        1 => "Noise Reduction",
        2 => "Noise Filter",
        3 => "Noise Reduction, Noise Filter",
        4 => "Noise Filter (ISO Boost)",
        _ => "Unknown",
    }
}

/// Olympus raw dev noise reduction as ExifTool prints it ("Unknown" for other values).
fn decode_raw_dev_noise_reduction_exiftool(value: u16) -> (r: &'static str)
    ensures
        r == raw_dev_noise_reduction_exiftool(value),
{
    match value {
        0 => "(none)",
        1 => "Noise Reduction",
        2 => "Noise Filter",
        3 => "Noise Reduction, Noise Filter",
        4 => "Noise Filter (ISO Boost)",
        _ => "Unknown",
    }
}

/// Olympus raw dev edit status as ExifTool prints it ("Unknown" for other values).
pub open spec fn raw_dev_edit_status_exiftool(value: u16) -> &'static str {
    match value {
        0 => "Original",
        1 => "Edited (Landscape)",
        6 => "Edited (Portrait)",
        8 => "Edited (Portrait)",
        _ => "Unknown",
    }
}

/// Olympus raw dev edit status as ExifTool prints it ("Unknown" for other values).
fn decode_raw_dev_edit_status_exiftool(value: u16) -> (r: &'static str)
    ensures
        r == raw_dev_edit_status_exiftool(value),
{
    match value {
        0 => "Original",
        1 => "Edited (Landscape)",
        6 => "Edited (Portrait)",
        8 => "Edited (Portrait)",
        _ => "Unknown",
    }
}

/// Olympus panorama mode as ExifTool prints it ("Unknown" for other values).
pub open spec fn panorama_mode_exiftool(value: u16) -> &'static str {
    match value {
        0 => "Off",
        1 => "On",
        _ => "Unknown",
    }
}

/// Olympus panorama mode as ExifTool prints it ("Unknown" for other values).
fn decode_panorama_mode_exiftool(value: u16) -> (r: &'static str)
    ensures
        r == panorama_mode_exiftool(value),
{
    match value {
        0 => "Off",
        1 => "On",
        _ => "Unknown",
    }
}

/// Olympus bw mode as ExifTool prints it ("Unknown" for other values).
pub open spec fn bw_mode_exiftool(value: u16) -> &'static str {
    match value {
        0 => "Off",
        1 => "On",
        _ => "Unknown",
    }
}

/// Olympus bw mode as ExifTool prints it ("Unknown" for other values).
fn decode_bw_mode_exiftool(value: u16) -> (r: &'static str)
    ensures
        r == bw_mode_exiftool(value),
{
    match value {
        0 => "Off",
        1 => "On",
        _ => "Unknown",
    }
}

/// Olympus af fine tune as ExifTool prints it ("Unknown" for other values).
pub open spec fn af_fine_tune_exiftool(value: u16) -> &'static str {
    match value {
        0 => "Off",
        1 => "On",
        _ => "Unknown",
    }
}

/// Olympus af fine tune as ExifTool prints it ("Unknown" for other values).
fn decode_af_fine_tune_exiftool(value: u16) -> (r: &'static str)
    ensures
        r == af_fine_tune_exiftool(value),
{
    match value {
        0 => "Off",
        1 => "On",
        _ => "Unknown",
    }
}

/// Olympus internal flash as ExifTool prints it ("Unknown" for other values).
pub open spec fn internal_flash_exiftool(value: u16) -> &'static str {
    match value {
        0 => "Off",
        1 => "On",
        _ => "Unknown",
    }
}

/// Olympus internal flash as ExifTool prints it ("Unknown" for other values).
fn decode_internal_flash_exiftool(value: u16) -> (r: &'static str)
    ensures
        r == internal_flash_exiftool(value),
{
    match value {
        0 => "Off",
        1 => "On",
        _ => "Unknown",
    }
}

/// Olympus macro led as ExifTool prints it ("Unknown" for other values).
pub open spec fn macro_led_exiftool(value: u16) -> &'static str {
    match value {
        0 => "Off",
        1 => "On",
        _ => "Unknown",
    }
}

/// Olympus macro led as ExifTool prints it ("Unknown" for other values).
fn decode_macro_led_exiftool(value: u16) -> (r: &'static str)
    ensures
        r == macro_led_exiftool(value),
{
    match value {
        0 => "Off",
        1 => "On",
        _ => "Unknown",
    }
}

/// Olympus external flash as ExifTool prints it ("Unknown" for other values).
pub open spec fn external_flash_exiftool(value: u16) -> &'static str {
    match value {
        0 => "Off",
        1 => "On",
        _ => "Unknown",
    }
}

/// Olympus external flash as ExifTool prints it ("Unknown" for other values).
fn decode_external_flash_exiftool(value: u16) -> (r: &'static str)
    ensures
        r == external_flash_exiftool(value),
{
    match value {
        0 => "Off",
        1 => "On",
        _ => "Unknown",
    }
}

/// Olympus flash type as ExifTool prints it ("Unknown" for other values).
pub open spec fn flash_type_exiftool(value: u16) -> &'static str {
    match value {
        0 => "None",
        2 => "Simple E-System",
        3 => "E-System",
        _ => "Unknown",
    }
}

/// Olympus flash type as ExifTool prints it ("Unknown" for other values).
fn decode_flash_type_exiftool(value: u16) -> (r: &'static str)
    ensures
        r == flash_type_exiftool(value),
{
    match value {
        0 => "None",
        2 => "Simple E-System",
        3 => "E-System",
        _ => "Unknown",
    }
}

/// Olympus CameraSettings SceneMode as ExifTool prints it.
pub open spec fn scene_mode_exiftool(value: u16) -> &'static str {
    match value {
        0 => "Standard",
        6 => "Auto",
        7 => "Sport",
        8 => "Portrait",
        9 => "Landscape+Portrait",
        10 => "Landscape",
        11 => "Night Scene",
        12 => "Self Portrait",
        13 => "Panorama",
        14 => "2 in 1",
        15 => "Movie",
        16 => "Landscape+Portrait",
        17 => "Night+Portrait",
        18 => "Indoor",
        19 => "Fireworks",
        20 => "Sunset",
        21 => "Beauty Skin",
        22 => "Macro",
        23 => "Super Macro",
        24 => "Food",
        25 => "Documents",
        26 => "Museum",
        27 => "Shoot & Select",
        28 => "Beach & Snow",
        29 => "Self Portrait+Timer",
        30 => "Candle",
        31 => "Available Light",
        32 => "Behind Glass",
        33 => "My Mode",
        34 => "Pet",
        35 => "Underwater Wide1",
        36 => "Underwater Macro",
        37 => "Shoot & Select1",
        38 => "Shoot & Select2",
        39 => "High Key",
        40 => "Digital Image Stabilization",
        41 => "Auction",
        42 => "Beach",
        43 => "Snow",
        44 => "Underwater Wide2",
        45 => "Low Key",
        46 => "Children",
        47 => "Vivid",
        48 => "Nature Macro",
        49 => "Underwater Snapshot",
        50 => "Shooting Guide",
        54 => "Face Portrait",
        57 => "Bulb",
        59 => "Smile Shot",
        60 => "Quick Shutter",
        63 => "Slow Shutter",
        64 => "Bird Watching",
        65 => "Multiple Exposure",
        66 => "e-Portrait",
        67 => "Soft Background Shot",
        142 => "Hand-held Starlight",
        154 => "HDR",
        197 => "Panning",
        203 => "Light Trails",
        204 => "Backlight HDR",
        205 => "Silent",
        206 => "Multi Focus Shot",
        _ => "Unknown",
    }
}

/// Olympus CameraSettings SceneMode as ExifTool prints it.
pub fn decode_scene_mode_exiftool(value: u16) -> (r: &'static str)
    ensures
        r == scene_mode_exiftool(value),
{
    match value {
        0 => "Standard",
        6 => "Auto",
        7 => "Sport",
        8 => "Portrait",
        9 => "Landscape+Portrait",
        10 => "Landscape",
        11 => "Night Scene",
        12 => "Self Portrait",
        13 => "Panorama",
        14 => "2 in 1",
        15 => "Movie",
        16 => "Landscape+Portrait",
        17 => "Night+Portrait",
        18 => "Indoor",
        19 => "Fireworks",
        20 => "Sunset",
        21 => "Beauty Skin",
        22 => "Macro",
        23 => "Super Macro",
        24 => "Food",
        25 => "Documents",
        26 => "Museum",
        27 => "Shoot & Select",
        28 => "Beach & Snow",
        29 => "Self Portrait+Timer",
        30 => "Candle",
        31 => "Available Light",
        32 => "Behind Glass",
        33 => "My Mode",
        34 => "Pet",
        35 => "Underwater Wide1",
        36 => "Underwater Macro",
        37 => "Shoot & Select1",
        38 => "Shoot & Select2",
        39 => "High Key",
        40 => "Digital Image Stabilization",
        41 => "Auction",
        42 => "Beach",
        43 => "Snow",
        44 => "Underwater Wide2",
        45 => "Low Key",
        46 => "Children",
        47 => "Vivid",
        48 => "Nature Macro",
        49 => "Underwater Snapshot",
        50 => "Shooting Guide",
        54 => "Face Portrait",
        57 => "Bulb",
        59 => "Smile Shot",
        60 => "Quick Shutter",
        63 => "Slow Shutter",
        64 => "Bird Watching",
        65 => "Multiple Exposure",
        66 => "e-Portrait",
        67 => "Soft Background Shot",
        142 => "Hand-held Starlight",
        154 => "HDR",
        197 => "Panning",
        203 => "Light Trails",
        204 => "Backlight HDR",
        205 => "Silent",
        206 => "Multi Focus Shot",
        _ => "Unknown",
    }
}

/// Olympus CameraSettings SceneMode as exiv2 prints it.
pub open spec fn scene_mode_exiv2(value: u16) -> &'static str {
    match value {
        0 => "Standard",
        6 => "Auto",
        7 => "Sport",
        8 => "Portrait",
        9 => "Landscape+Portrait",
        10 => "Landscape",
        11 => "Night Scene",
        12 => "Self Portrait",
        13 => "Panorama",
        14 => "2 in 1",
        15 => "Movie",
        16 => "Landscape+Portrait",
        17 => "Night+Portrait",
        18 => "Indoor",
        19 => "Fireworks",
        20 => "Sunset",
        22 => "Macro",
        23 => "Super Macro",
        24 => "Food",
        25 => "Documents",
        26 => "Museum",
        27 => "Shoot & Select",
        28 => "Beach & Snow",
        29 => "Self Protrait+Timer",
        30 => "Candle",
        31 => "Available Light",
        32 => "Behind Glass",
        33 => "My Mode",
        34 => "Pet",
        35 => "Underwater Wide1",
        36 => "Underwater Macro",
        37 => "Shoot & Select1",
        38 => "Shoot & Select2",
        39 => "High Key",
        40 => "Digital Image Stabilization",
        41 => "Auction",
        42 => "Beach",
        43 => "Snow",
        44 => "Underwater Wide2",
        45 => "Low Key",
        46 => "Children",
        47 => "Vivid",
        48 => "Nature Macro",
        49 => "Underwater Snapshot",
        50 => "Shooting Guide",
        _ => "Unknown",
    }
}

/// Olympus CameraSettings SceneMode as exiv2 prints it.
pub fn decode_scene_mode_exiv2(value: u16) -> (r: &'static str)
    ensures
        r == scene_mode_exiv2(value),
{
    match value {
        0 => "Standard",
        6 => "Auto",
        7 => "Sport",
        8 => "Portrait",
        9 => "Landscape+Portrait",
        10 => "Landscape",
        11 => "Night Scene",
        12 => "Self Portrait",
        13 => "Panorama",
        14 => "2 in 1",
        15 => "Movie",
        16 => "Landscape+Portrait",
        17 => "Night+Portrait",
        18 => "Indoor",
        19 => "Fireworks",
        20 => "Sunset",
        22 => "Macro",
        23 => "Super Macro",
        24 => "Food",
        25 => "Documents",
        26 => "Museum",
        27 => "Shoot & Select",
        28 => "Beach & Snow",
        29 => "Self Protrait+Timer",
        30 => "Candle",
        31 => "Available Light",
        32 => "Behind Glass",
        33 => "My Mode",
        34 => "Pet",
        35 => "Underwater Wide1",
        36 => "Underwater Macro",
        37 => "Shoot & Select1",
        38 => "Shoot & Select2",
        39 => "High Key",
        40 => "Digital Image Stabilization",
        41 => "Auction",
        42 => "Beach",
        43 => "Snow",
        44 => "Underwater Wide2",
        45 => "Low Key",
        46 => "Children",
        47 => "Vivid",
        48 => "Nature Macro",
        49 => "Underwater Snapshot",
        50 => "Shooting Guide",
        _ => "Unknown",
    }
}

/// Olympus main-IFD SceneMode as ExifTool prints it.
pub open spec fn main_scene_mode_exiftool(value: u16) -> &'static str {
    match value {
        0 => "Normal",
        1 => "Standard",
        2 => "Auto",
        3 => "Intelligent Auto",
        4 => "Portrait",
        5 => "Landscape+Portrait",
        6 => "Landscape",
        7 => "Night Scene",
        8 => "Night+Portrait",
        9 => "Sport",
        10 => "Self Portrait",
        11 => "Indoor",
        12 => "Beach & Snow",
        13 => "Beach",
        14 => "Snow",
        15 => "Self Portrait+Self Timer",
        16 => "Sunset",
        17 => "Cuisine",
        18 => "Documents",
        19 => "Candle",
        20 => "Fireworks",
        21 => "Available Light",
        22 => "Vivid",
        23 => "Underwater Wide1",
        24 => "Underwater Macro",
        25 => "Museum",
        26 => "Behind Glass",
        27 => "Auction",
        28 => "Shoot & Select1",
        29 => "Shoot & Select2",
        30 => "Underwater Wide2",
        31 => "Smile Shot",
        32 => "Quick Shutter",
        43 => "Hand-held Starlight",
        100 => "Panorama",
        203 => "HDR",
        _ => "Unknown",
    }
}

/// Olympus main-IFD SceneMode as ExifTool prints it.
pub fn decode_main_scene_mode_exiftool(value: u16) -> (r: &'static str)
    ensures
        r == main_scene_mode_exiftool(value),
{
    match value {
        0 => "Normal",
        1 => "Standard",
        2 => "Auto",
        3 => "Intelligent Auto",
        4 => "Portrait",
        5 => "Landscape+Portrait",
        6 => "Landscape",
        7 => "Night Scene",
        8 => "Night+Portrait",
        9 => "Sport",
        10 => "Self Portrait",
        11 => "Indoor",
        12 => "Beach & Snow",
        13 => "Beach",
        14 => "Snow",
        15 => "Self Portrait+Self Timer",
        16 => "Sunset",
        17 => "Cuisine",
        18 => "Documents",
        19 => "Candle",
        20 => "Fireworks",
        21 => "Available Light",
        22 => "Vivid",
        23 => "Underwater Wide1",
        24 => "Underwater Macro",
        25 => "Museum",
        26 => "Behind Glass",
        27 => "Auction",
        28 => "Shoot & Select1",
        29 => "Shoot & Select2",
        30 => "Underwater Wide2",
        31 => "Smile Shot",
        32 => "Quick Shutter",
        43 => "Hand-held Starlight",
        100 => "Panorama",
        203 => "HDR",
        _ => "Unknown",
    }
}

/// Olympus FlashModel.
pub open spec fn flash_model_name(value: u16) -> &'static str {
    match value {
        0 => "None",
        1 => "FL-20",
        2 => "FL-50",
        3 => "RF-11",
        4 => "TF-22",
        5 => "FL-36",
        6 => "FL-50R",
        7 => "FL-36R",
        9 => "FL-14",
        11 => "FL-600R",
        13 => "FL-LM3",
        15 => "FL-900R",
        _ => "Unknown",
    }
}

/// Olympus FlashModel.
fn decode_flash_model(value: u16) -> (r: &'static str)
    ensures
        r == flash_model_name(value),
{
    match value {
        0 => "None",
        1 => "FL-20",
        2 => "FL-50",
        3 => "RF-11",
        4 => "TF-22",
        5 => "FL-36",
        6 => "FL-50R",
        7 => "FL-36R",
        9 => "FL-14",
        11 => "FL-600R",
        13 => "FL-LM3",
        15 => "FL-900R",
        _ => "Unknown",
    }
}

/// Olympus PictureMode.
pub open spec fn picture_mode_name(value: u16) -> &'static str {
    match value {
        1 => "Vivid",
        2 => "Natural",
        3 => "Muted",
        4 => "Portrait",
        5 => "i-Enhance",
        6 => "e-Portrait",
        7 => "Color Creator",
        8 => "Underwater",
        9 => "Color Profile 1",
        10 => "Color Profile 2",
        11 => "Color Profile 3",
        12 => "Monochrome Profile 1",
        13 => "Monochrome Profile 2",
        14 => "Monochrome Profile 3",
        17 => "Art Mode",
        18 => "Monochrome Profile 4",
        256 => "Monotone",
        512 => "Sepia",
        _ => "Unknown",
    }
}

/// Olympus PictureMode.
fn decode_picture_mode(value: u16) -> (r: &'static str)
    ensures
        r == picture_mode_name(value),
{
    match value {
        1 => "Vivid",
        2 => "Natural",
        3 => "Muted",
        4 => "Portrait",
        5 => "i-Enhance",
        6 => "e-Portrait",
        7 => "Color Creator",
        8 => "Underwater",
        9 => "Color Profile 1",
        10 => "Color Profile 2",
        11 => "Color Profile 3",
        12 => "Monochrome Profile 1",
        13 => "Monochrome Profile 2",
        14 => "Monochrome Profile 3",
        17 => "Art Mode",
        18 => "Monochrome Profile 4",
        256 => "Monotone",
        512 => "Sepia",
        _ => "Unknown",
    }
}

/// Olympus lens name from make, model and subtype bytes.
pub open spec fn olympus_lens_name(make: u8, model: u8, subtype: u8) -> Option<&'static str> {
    match (make, model, subtype) {
        (0, 0, 0) => Some("None"),
        (0, 0x01, 0x00) => Some("Olympus Zuiko Digital ED 50mm F2.0 Macro"),
        (0, 0x01, 0x01) => Some("Olympus Zuiko Digital 40-150mm F3.5-4.5"),
        (0, 0x02, 0x00) => Some("Olympus Zuiko Digital ED 150mm F2.0"),
        (0, 0x03, 0x00) => Some("Olympus Zuiko Digital ED 300mm F2.8"),
        (0, 0x05, 0x00) => Some("Olympus Zuiko Digital 14-54mm F2.8-3.5"),
        (0, 0x05, 0x01) => Some("Olympus Zuiko Digital Pro ED 90-250mm F2.8"),
        (0, 0x06, 0x00) => Some("Olympus Zuiko Digital ED 50-200mm F2.8-3.5"),
        (0, 0x06, 0x01) => Some("Olympus Zuiko Digital ED 8mm F3.5 Fisheye"),
        (0, 0x07, 0x00) => Some("Olympus Zuiko Digital 11-22mm F2.8-3.5"),
        (0, 0x07, 0x01) => Some("Olympus Zuiko Digital 18-180mm F3.5-6.3"),
        (0, 0x08, 0x01) => Some("Olympus Zuiko Digital 70-300mm F4.0-5.6"),
        (0, 0x10, 0x01) => Some("Kenko Tokina Reflex 300mm F6.3 MF Macro"),
        (0, 0x15, 0x00) => Some("Olympus Zuiko Digital ED 7-14mm F4.0"),
        (0, 0x17, 0x00) => Some("Olympus Zuiko Digital Pro ED 35-100mm F2.0"),
        (0, 0x18, 0x00) => Some("Olympus Zuiko Digital 14-45mm F3.5-5.6"),
        (0, 0x20, 0x00) => Some("Olympus Zuiko Digital 35mm F3.5 Macro"),
        (0, 0x22, 0x00) => Some("Olympus Zuiko Digital 17.5-45mm F3.5-5.6"),
        (0, 0x23, 0x00) => Some("Olympus Zuiko Digital ED 14-42mm F3.5-5.6"),
        (0, 0x24, 0x00) => Some("Olympus Zuiko Digital ED 40-150mm F4.0-5.6"),
        (0, 0x30, 0x00) => Some("Olympus Zuiko Digital ED 50-200mm F2.8-3.5 SWD"),
        (0, 0x31, 0x00) => Some("Olympus Zuiko Digital ED 12-60mm F2.8-4.0 SWD"),
        (0, 0x32, 0x00) => Some("Olympus Zuiko Digital ED 14-35mm F2.0 SWD"),
        (0, 0x33, 0x00) => Some("Olympus Zuiko Digital 25mm F2.8"),
        (0, 0x34, 0x00) => Some("Olympus Zuiko Digital ED 9-18mm F4.0-5.6"),
        (0, 0x35, 0x00) => Some("Olympus Zuiko Digital 14-54mm F2.8-3.5 II"),
        (0, 0x01, 0x10) => Some("Olympus M.Zuiko Digital ED 14-42mm F3.5-5.6"),
        (0, 0x02, 0x10) => Some("Olympus M.Zuiko Digital 17mm F2.8 Pancake"),
        (0, 0x03, 0x10) => Some("Olympus M.Zuiko Digital ED 14-150mm F4.0-5.6 [II]"),
        (0, 0x04, 0x10) => Some("Olympus M.Zuiko Digital ED 9-18mm F4.0-5.6"),
        (0, 0x05, 0x10) => Some("Olympus M.Zuiko Digital ED 14-42mm F3.5-5.6 L"),
        (0, 0x06, 0x10) => Some("Olympus M.Zuiko Digital ED 40-150mm F4.0-5.6"),
        (0, 0x07, 0x10) => Some("Olympus M.Zuiko Digital ED 12mm F2.0"),
        (0, 0x08, 0x10) => Some("Olympus M.Zuiko Digital ED 75-300mm F4.8-6.7"),
        (0, 0x09, 0x10) => Some("Olympus M.Zuiko Digital 14-42mm F3.5-5.6 II"),
        (0, 0x10, 0x10) => Some("Olympus M.Zuiko Digital ED 12-50mm F3.5-6.3 EZ"),
        (0, 0x11, 0x10) => Some("Olympus M.Zuiko Digital 45mm F1.8"),
        (0, 0x12, 0x10) => Some("Olympus M.Zuiko Digital ED 60mm F2.8 Macro"),
        (0, 0x13, 0x10) => Some("Olympus M.Zuiko Digital 14-42mm F3.5-5.6 II R"),
        (0, 0x14, 0x10) => Some("Olympus M.Zuiko Digital ED 40-150mm F4.0-5.6 R"),
        (0, 0x15, 0x10) => Some("Olympus M.Zuiko Digital ED 75mm F1.8"),
        (0, 0x16, 0x10) => Some("Olympus M.Zuiko Digital 17mm F1.8"),
        (0, 0x18, 0x10) => Some("Olympus M.Zuiko Digital ED 75-300mm F4.8-6.7 II"),
        (0, 0x19, 0x10) => Some("Olympus M.Zuiko Digital ED 12-40mm F2.8 Pro"),
        (0, 0x20, 0x10) => Some("Olympus M.Zuiko Digital ED 40-150mm F2.8 Pro"),
        (0, 0x21, 0x10) => Some("Olympus M.Zuiko Digital ED 14-42mm F3.5-5.6 EZ"),
        (0, 0x22, 0x10) => Some("Olympus M.Zuiko Digital 25mm F1.8"),
        (0, 0x23, 0x10) => Some("Olympus M.Zuiko Digital ED 7-14mm F2.8 Pro"),
        (0, 0x24, 0x10) => Some("Olympus M.Zuiko Digital ED 300mm F4.0 IS Pro"),
        (0, 0x25, 0x10) => Some("Olympus M.Zuiko Digital ED 8mm F1.8 Fisheye Pro"),
        (0, 0x26, 0x10) => Some("Olympus M.Zuiko Digital ED 12-100mm F4.0 IS Pro"),
        (0, 0x27, 0x10) => Some("Olympus M.Zuiko Digital ED 30mm F3.5 Macro"),
        (0, 0x28, 0x10) => Some("Olympus M.Zuiko Digital ED 25mm F1.2 Pro"),
        (0, 0x29, 0x10) => Some("Olympus M.Zuiko Digital ED 17mm F1.2 Pro"),
        (0, 0x30, 0x10) => Some("Olympus M.Zuiko Digital ED 45mm F1.2 Pro"),
        (0, 0x32, 0x10) => Some("Olympus M.Zuiko Digital ED 12-200mm F3.5-6.3"),
        (0, 0x33, 0x10) => Some("Olympus M.Zuiko Digital 150-400mm F4.5 TC1.25x IS Pro"),
        (0, 0x34, 0x10) => Some("Olympus M.Zuiko Digital ED 12-45mm F4.0 Pro"),
        (0, 0x35, 0x10) => Some("Olympus M.Zuiko 100-400mm F5.0-6.3"),
        (0, 0x36, 0x10) => Some("Olympus M.Zuiko Digital ED 8-25mm F4 Pro"),
        (0, 0x37, 0x10) => Some("Olympus M.Zuiko Digital ED 40-150mm F4.0 Pro"),
        (0, 0x38, 0x10) => Some("Olympus M.Zuiko Digital ED 20mm F1.4 Pro"),
        (0, 0x39, 0x10) => Some("Olympus M.Zuiko Digital ED 90mm F3.5 Macro IS Pro"),
        (0, 0x40, 0x10) => Some("Olympus M.Zuiko Digital ED 150-600mm F5.0-6.3"),
        (0, 0x41, 0x10) => Some("OM System M.Zuiko Digital ED 50-200mm F2.8 IS Pro"),
        (1, 0x01, 0x00) => Some("Sigma 18-50mm F3.5-5.6 DC"),
        (1, 0x02, 0x00) => Some("Sigma 55-200mm F4.0-5.6 DC"),
        (1, 0x03, 0x00) => Some("Sigma 18-125mm F3.5-5.6 DC"),
        (1, 0x04, 0x00) => Some("Sigma 18-125mm F3.5-5.6 DC"),
        (1, 0x05, 0x00) => Some("Sigma 30mm F1.4 EX DC HSM"),
        (1, 0x06, 0x00) => Some("Sigma APO 50-500mm F4.0-6.3 EX DG HSM"),
        (1, 0x07, 0x00) => Some("Sigma Macro 105mm F2.8 EX DG"),
        (1, 0x08, 0x00) => Some("Sigma APO Macro 150mm F2.8 EX DG HSM"),
        (1, 0x01, 0x10) => Some("Sigma 30mm F2.8 EX DN"),
        (1, 0x02, 0x10) => Some("Sigma 19mm F2.8 EX DN"),
        (1, 0x03, 0x10) => Some("Sigma 30mm F2.8 DN | A"),
        (1, 0x04, 0x10) => Some("Sigma 19mm F2.8 DN | A"),
        (1, 0x05, 0x10) => Some("Sigma 60mm F2.8 DN | A"),
        (1, 0x06, 0x10) => Some("Sigma 30mm F1.4 DC DN | C"),
        (1, 0x07, 0x10) => Some("Sigma 16mm F1.4 DC DN | C (017)"),
        _ => None,
    }
}

/// Olympus lens name from make, model and subtype bytes.
fn olympus_lens_lookup(make: u8, model: u8, subtype: u8) -> (r: Option<&'static str>)
    ensures
        r == olympus_lens_name(make, model, subtype),
{
    match (make, model, subtype) {
        (0, 0, 0) => Some("None"),
        (0, 0x01, 0x00) => Some("Olympus Zuiko Digital ED 50mm F2.0 Macro"),
        (0, 0x01, 0x01) => Some("Olympus Zuiko Digital 40-150mm F3.5-4.5"),
        (0, 0x02, 0x00) => Some("Olympus Zuiko Digital ED 150mm F2.0"),
        (0, 0x03, 0x00) => Some("Olympus Zuiko Digital ED 300mm F2.8"),
        (0, 0x05, 0x00) => Some("Olympus Zuiko Digital 14-54mm F2.8-3.5"),
        (0, 0x05, 0x01) => Some("Olympus Zuiko Digital Pro ED 90-250mm F2.8"),
        (0, 0x06, 0x00) => Some("Olympus Zuiko Digital ED 50-200mm F2.8-3.5"),
        (0, 0x06, 0x01) => Some("Olympus Zuiko Digital ED 8mm F3.5 Fisheye"),
        (0, 0x07, 0x00) => Some("Olympus Zuiko Digital 11-22mm F2.8-3.5"),
        (0, 0x07, 0x01) => Some("Olympus Zuiko Digital 18-180mm F3.5-6.3"),
        (0, 0x08, 0x01) => Some("Olympus Zuiko Digital 70-300mm F4.0-5.6"),
        (0, 0x10, 0x01) => Some("Kenko Tokina Reflex 300mm F6.3 MF Macro"),
        (0, 0x15, 0x00) => Some("Olympus Zuiko Digital ED 7-14mm F4.0"),
        (0, 0x17, 0x00) => Some("Olympus Zuiko Digital Pro ED 35-100mm F2.0"),
        (0, 0x18, 0x00) => Some("Olympus Zuiko Digital 14-45mm F3.5-5.6"),
        (0, 0x20, 0x00) => Some("Olympus Zuiko Digital 35mm F3.5 Macro"),
        (0, 0x22, 0x00) => Some("Olympus Zuiko Digital 17.5-45mm F3.5-5.6"),
        (0, 0x23, 0x00) => Some("Olympus Zuiko Digital ED 14-42mm F3.5-5.6"),
        (0, 0x24, 0x00) => Some("Olympus Zuiko Digital ED 40-150mm F4.0-5.6"),
        (0, 0x30, 0x00) => Some("Olympus Zuiko Digital ED 50-200mm F2.8-3.5 SWD"),
        (0, 0x31, 0x00) => Some("Olympus Zuiko Digital ED 12-60mm F2.8-4.0 SWD"),
        (0, 0x32, 0x00) => Some("Olympus Zuiko Digital ED 14-35mm F2.0 SWD"),
        (0, 0x33, 0x00) => Some("Olympus Zuiko Digital 25mm F2.8"),
        (0, 0x34, 0x00) => Some("Olympus Zuiko Digital ED 9-18mm F4.0-5.6"),
        (0, 0x35, 0x00) => Some("Olympus Zuiko Digital 14-54mm F2.8-3.5 II"),
        (0, 0x01, 0x10) => Some("Olympus M.Zuiko Digital ED 14-42mm F3.5-5.6"),
        (0, 0x02, 0x10) => Some("Olympus M.Zuiko Digital 17mm F2.8 Pancake"),
        (0, 0x03, 0x10) => Some("Olympus M.Zuiko Digital ED 14-150mm F4.0-5.6 [II]"),
        (0, 0x04, 0x10) => Some("Olympus M.Zuiko Digital ED 9-18mm F4.0-5.6"),
        (0, 0x05, 0x10) => Some("Olympus M.Zuiko Digital ED 14-42mm F3.5-5.6 L"),
        (0, 0x06, 0x10) => Some("Olympus M.Zuiko Digital ED 40-150mm F4.0-5.6"),
        (0, 0x07, 0x10) => Some("Olympus M.Zuiko Digital ED 12mm F2.0"),
        (0, 0x08, 0x10) => Some("Olympus M.Zuiko Digital ED 75-300mm F4.8-6.7"),
        (0, 0x09, 0x10) => Some("Olympus M.Zuiko Digital 14-42mm F3.5-5.6 II"),
        (0, 0x10, 0x10) => Some("Olympus M.Zuiko Digital ED 12-50mm F3.5-6.3 EZ"),
        (0, 0x11, 0x10) => Some("Olympus M.Zuiko Digital 45mm F1.8"),
        (0, 0x12, 0x10) => Some("Olympus M.Zuiko Digital ED 60mm F2.8 Macro"),
        (0, 0x13, 0x10) => Some("Olympus M.Zuiko Digital 14-42mm F3.5-5.6 II R"),
        (0, 0x14, 0x10) => Some("Olympus M.Zuiko Digital ED 40-150mm F4.0-5.6 R"),
        (0, 0x15, 0x10) => Some("Olympus M.Zuiko Digital ED 75mm F1.8"),
        (0, 0x16, 0x10) => Some("Olympus M.Zuiko Digital 17mm F1.8"),
        (0, 0x18, 0x10) => Some("Olympus M.Zuiko Digital ED 75-300mm F4.8-6.7 II"),
        (0, 0x19, 0x10) => Some("Olympus M.Zuiko Digital ED 12-40mm F2.8 Pro"),
        (0, 0x20, 0x10) => Some("Olympus M.Zuiko Digital ED 40-150mm F2.8 Pro"),
        (0, 0x21, 0x10) => Some("Olympus M.Zuiko Digital ED 14-42mm F3.5-5.6 EZ"),
        (0, 0x22, 0x10) => Some("Olympus M.Zuiko Digital 25mm F1.8"),
        (0, 0x23, 0x10) => Some("Olympus M.Zuiko Digital ED 7-14mm F2.8 Pro"),
        (0, 0x24, 0x10) => Some("Olympus M.Zuiko Digital ED 300mm F4.0 IS Pro"),
        (0, 0x25, 0x10) => Some("Olympus M.Zuiko Digital ED 8mm F1.8 Fisheye Pro"),
        (0, 0x26, 0x10) => Some("Olympus M.Zuiko Digital ED 12-100mm F4.0 IS Pro"),
        (0, 0x27, 0x10) => Some("Olympus M.Zuiko Digital ED 30mm F3.5 Macro"),
        (0, 0x28, 0x10) => Some("Olympus M.Zuiko Digital ED 25mm F1.2 Pro"),
        (0, 0x29, 0x10) => Some("Olympus M.Zuiko Digital ED 17mm F1.2 Pro"),
        (0, 0x30, 0x10) => Some("Olympus M.Zuiko Digital ED 45mm F1.2 Pro"),
        (0, 0x32, 0x10) => Some("Olympus M.Zuiko Digital ED 12-200mm F3.5-6.3"),
        (0, 0x33, 0x10) => Some("Olympus M.Zuiko Digital 150-400mm F4.5 TC1.25x IS Pro"),
        (0, 0x34, 0x10) => Some("Olympus M.Zuiko Digital ED 12-45mm F4.0 Pro"),
        (0, 0x35, 0x10) => Some("Olympus M.Zuiko 100-400mm F5.0-6.3"),
        (0, 0x36, 0x10) => Some("Olympus M.Zuiko Digital ED 8-25mm F4 Pro"),
        (0, 0x37, 0x10) => Some("Olympus M.Zuiko Digital ED 40-150mm F4.0 Pro"),
        (0, 0x38, 0x10) => Some("Olympus M.Zuiko Digital ED 20mm F1.4 Pro"),
        (0, 0x39, 0x10) => Some("Olympus M.Zuiko Digital ED 90mm F3.5 Macro IS Pro"),
        (0, 0x40, 0x10) => Some("Olympus M.Zuiko Digital ED 150-600mm F5.0-6.3"),
        (0, 0x41, 0x10) => Some("OM System M.Zuiko Digital ED 50-200mm F2.8 IS Pro"),
        (1, 0x01, 0x00) => Some("Sigma 18-50mm F3.5-5.6 DC"),
        (1, 0x02, 0x00) => Some("Sigma 55-200mm F4.0-5.6 DC"),
        (1, 0x03, 0x00) => Some("Sigma 18-125mm F3.5-5.6 DC"),
        (1, 0x04, 0x00) => Some("Sigma 18-125mm F3.5-5.6 DC"),
        (1, 0x05, 0x00) => Some("Sigma 30mm F1.4 EX DC HSM"),
        (1, 0x06, 0x00) => Some("Sigma APO 50-500mm F4.0-6.3 EX DG HSM"),
        (1, 0x07, 0x00) => Some("Sigma Macro 105mm F2.8 EX DG"),
        (1, 0x08, 0x00) => Some("Sigma APO Macro 150mm F2.8 EX DG HSM"),
        (1, 0x01, 0x10) => Some("Sigma 30mm F2.8 EX DN"),
        (1, 0x02, 0x10) => Some("Sigma 19mm F2.8 EX DN"),
        (1, 0x03, 0x10) => Some("Sigma 30mm F2.8 DN | A"),
        (1, 0x04, 0x10) => Some("Sigma 19mm F2.8 DN | A"),
        (1, 0x05, 0x10) => Some("Sigma 60mm F2.8 DN | A"),
        (1, 0x06, 0x10) => Some("Sigma 30mm F1.4 DC DN | C"),
        (1, 0x07, 0x10) => Some("Sigma 16mm F1.4 DC DN | C (017)"),
        _ => None,
    }
}

/// Olympus camera model from its CameraType code.
pub open spec fn camera_type_name(k: Seq<char>) -> Option<&'static str> {
    if k == "D4028"@ {
        Some("X-2,C-50Z")
    } else if k == "D4029"@ {
        Some("E-20,E-20N,E-20P")
    } else if k == "D4034"@ {
        Some("C720UZ")
    } else if k == "D4040"@ {
        Some("E-1")
    } else if k == "D4041"@ {
        Some("E-300")
    } else if k == "D4083"@ {
        Some("C2Z,D520Z,C220Z")
    } else if k == "D4106"@ {
        Some("u20D,S400D,u400D")
    } else if k == "D4120"@ {
        Some("X-1")
    } else if k == "D4122"@ {
        Some("u10D,S300D,u300D")
    } else if k == "D4125"@ {
        Some("AZ-1")
    } else if k == "D4141"@ {
        Some("C150,D390")
    } else if k == "D4193"@ {
        Some("C-5000Z")
    } else if k == "D4194"@ {
        Some("X-3,C-60Z")
    } else if k == "D4199"@ {
        Some("u30D,S410D,u410D")
    } else if k == "D4205"@ {
        Some("X450,D535Z,C370Z")
    } else if k == "D4210"@ {
        Some("C160,D395")
    } else if k == "D4211"@ {
        Some("C725UZ")
    } else if k == "D4213"@ {
        Some("FerrariMODEL2003")
    } else if k == "D4216"@ {
        Some("u15D")
    } else if k == "D4217"@ {
        Some("u25D")
    } else if k == "D4220"@ {
        Some("u-miniD,Stylus V")
    } else if k == "D4221"@ {
        Some("u40D,S500,uD500")
    } else if k == "D4231"@ {
        Some("FerrariMODEL2004")
    } else if k == "D4240"@ {
        Some("X500,D590Z,C470Z")
    } else if k == "D4244"@ {
        Some("uD800,S800")
    } else if k == "D4256"@ {
        Some("u720SW,S720SW")
    } else if k == "D4261"@ {
        Some("X600,D630,FE5500")
    } else if k == "D4262"@ {
        Some("uD600,S600")
    } else if k == "D4301"@ {
        Some("u810/S810")
    } else if k == "D4302"@ {
        Some("u710,S710")
    } else if k == "D4303"@ {
        Some("u700,S700")
    } else if k == "D4304"@ {
        Some("FE100,X710")
    } else if k == "D4305"@ {
        Some("FE110,X705")
    } else if k == "D4310"@ {
        Some("FE-130,X-720")
    } else if k == "D4311"@ {
        Some("FE-140,X-725")
    } else if k == "D4312"@ {
        Some("FE150,X730")
    } else if k == "D4313"@ {
        Some("FE160,X735")
    } else if k == "D4314"@ {
        Some("u740,S740")
    } else if k == "D4315"@ {
        Some("u750,S750")
    } else if k == "D4316"@ {
        Some("u730/S730")
    } else if k == "D4317"@ {
        Some("FE115,X715")
    } else if k == "D4321"@ {
        Some("SP550UZ")
    } else if k == "D4322"@ {
        Some("SP510UZ")
    } else if k == "D4324"@ {
        Some("FE170,X760")
    } else if k == "D4326"@ {
        Some("FE200")
    } else if k == "D4327"@ {
        Some("FE190/X750")
    } else if k == "D4328"@ {
        Some("u760,S760")
    } else if k == "D4330"@ {
        Some("FE180/X745")
    } else if k == "D4331"@ {
        Some("u1000/S1000")
    } else if k == "D4332"@ {
        Some("u770SW,S770SW")
    } else if k == "D4333"@ {
        Some("FE240/X795")
    } else if k == "D4334"@ {
        Some("FE210,X775")
    } else if k == "D4336"@ {
        Some("FE230/X790")
    } else if k == "D4337"@ {
        Some("FE220,X785")
    } else if k == "D4338"@ {
        Some("u725SW,S725SW")
    } else if k == "D4339"@ {
        Some("FE250/X800")
    } else if k == "D4341"@ {
        Some("u780,S780")
    } else if k == "D4343"@ {
        Some("u790SW,S790SW")
    } else if k == "D4344"@ {
        Some("u1020,S1020")
    } else if k == "D4346"@ {
        Some("FE15,X10")
    } else if k == "D4348"@ {
        Some("FE280,X820,C520")
    } else if k == "D4349"@ {
        Some("FE300,X830")
    } else if k == "D4350"@ {
        Some("u820,S820")
    } else if k == "D4351"@ {
        Some("u1200,S1200")
    } else if k == "D4352"@ {
        Some("FE270,X815,C510")
    } else if k == "D4353"@ {
        Some("u795SW,S795SW")
    } else if k == "D4354"@ {
        Some("u1030SW,S1030SW")
    } else if k == "D4355"@ {
        Some("SP560UZ")
    } else if k == "D4356"@ {
        Some("u1010,S1010")
    } else if k == "D4357"@ {
        Some("u830,S830")
    } else if k == "D4359"@ {
        Some("u840,S840")
    } else if k == "D4360"@ {
        Some("FE350WIDE,X865")
    } else if k == "D4361"@ {
        Some("u850SW,S850SW")
    } else if k == "D4362"@ {
        Some("FE340,X855,C560")
    } else if k == "D4363"@ {
        Some("FE320,X835,C540")
    } else if k == "D4364"@ {
        Some("SP570UZ")
    } else if k == "D4366"@ {
        Some("FE330,X845,C550")
    } else if k == "D4368"@ {
        Some("FE310,X840,C530")
    } else if k == "D4370"@ {
        Some("u1050SW,S1050SW")
    } else if k == "D4371"@ {
        Some("u1060,S1060")
    } else if k == "D4372"@ {
        Some("FE370,X880,C575")
    } else if k == "D4374"@ {
        Some("SP565UZ")
    } else if k == "D4377"@ {
        Some("u1040,S1040")
    } else if k == "D4378"@ {
        Some("FE360,X875,C570")
    } else if k == "D4379"@ {
        Some("FE20,X15,C25")
    } else if k == "D4380"@ {
        Some("uT6000,ST6000")
    } else if k == "D4381"@ {
        Some("uT8000,ST8000")
    } else if k == "D4382"@ {
        Some("u9000,S9000")
    } else if k == "D4384"@ {
        Some("SP590UZ")
    } else if k == "D4385"@ {
        Some("FE3010,X895")
    } else if k == "D4386"@ {
        Some("FE3000,X890")
    } else if k == "D4387"@ {
        Some("FE35,X30")
    } else if k == "D4388"@ {
        Some("u550WP,S550WP")
    } else if k == "D4390"@ {
        Some("FE5000,X905")
    } else if k == "D4391"@ {
        Some("u5000")
    } else if k == "D4392"@ {
        Some("u7000,S7000")
    } else if k == "D4396"@ {
        Some("FE5010,X915")
    } else if k == "D4397"@ {
        Some("FE25,X20")
    } else if k == "D4398"@ {
        Some("FE45,X40")
    } else if k == "D4401"@ {
        Some("XZ-1")
    } else if k == "D4402"@ {
        Some("uT6010,ST6010")
    } else if k == "D4406"@ {
        Some("u7010,S7010 / u7020,S7020")
    } else if k == "D4407"@ {
        Some("FE4010,X930")
    } else if k == "D4408"@ {
        Some("X560WP")
    } else if k == "D4409"@ {
        Some("FE26,X21")
    } else if k == "D4410"@ {
        Some("FE4000,X920,X925")
    } else if k == "D4411"@ {
        Some("FE46,X41,X42")
    } else if k == "D4412"@ {
        Some("FE5020,X935")
    } else if k == "D4413"@ {
        Some("uTough-3000")
    } else if k == "D4414"@ {
        Some("StylusTough-6020")
    } else if k == "D4415"@ {
        Some("StylusTough-8010")
    } else if k == "D4417"@ {
        Some("u5010,S5010")
    } else if k == "D4418"@ {
        Some("u7040,S7040")
    } else if k == "D4419"@ {
        Some("u9010,S9010")
    } else if k == "D4423"@ {
        Some("FE4040")
    } else if k == "D4424"@ {
        Some("FE47,X43")
    } else if k == "D4426"@ {
        Some("FE4030,X950")
    } else if k == "D4428"@ {
        Some("FE5030,X965,X960")
    } else if k == "D4430"@ {
        Some("u7030,S7030")
    } else if k == "D4432"@ {
        Some("SP600UZ")
    } else if k == "D4434"@ {
        Some("SP800UZ")
    } else if k == "D4439"@ {
        Some("FE4020,X940")
    } else if k == "D4442"@ {
        Some("FE5035")
    } else if k == "D4448"@ {
        Some("FE4050,X970")
    } else if k == "D4450"@ {
        Some("FE5050,X985")
    } else if k == "D4454"@ {
        Some("u-7050")
    } else if k == "D4464"@ {
        Some("T10,X27")
    } else if k == "D4470"@ {
        Some("FE5040,X980")
    } else if k == "D4472"@ {
        Some("TG-310")
    } else if k == "D4474"@ {
        Some("TG-610")
    } else if k == "D4476"@ {
        Some("TG-810")
    } else if k == "D4478"@ {
        Some("VG145,VG140,D715")
    } else if k == "D4479"@ {
        Some("VG130,D710")
    } else if k == "D4480"@ {
        Some("VG120,D705")
    } else if k == "D4482"@ {
        Some("VR310,D720")
    } else if k == "D4484"@ {
        Some("VR320,D725")
    } else if k == "D4486"@ {
        Some("VR330,D730")
    } else if k == "D4488"@ {
        Some("VG110,D700")
    } else if k == "D4490"@ {
        Some("SP-610UZ")
    } else if k == "D4492"@ {
        Some("SZ-10")
    } else if k == "D4494"@ {
        Some("SZ-20")
    } else if k == "D4496"@ {
        Some("SZ-30MR")
    } else if k == "D4498"@ {
        Some("SP-810UZ")
    } else if k == "D4500"@ {
        Some("SZ-11")
    } else if k == "D4504"@ {
        Some("TG-615")
    } else if k == "D4508"@ {
        Some("TG-620")
    } else if k == "D4510"@ {
        Some("TG-820")
    } else if k == "D4512"@ {
        Some("TG-1")
    } else if k == "D4516"@ {
        Some("SH-21")
    } else if k == "D4519"@ {
        Some("SZ-14")
    } else if k == "D4520"@ {
        Some("SZ-31MR")
    } else if k == "D4521"@ {
        Some("SH-25MR")
    } else if k == "D4523"@ {
        Some("SP-720UZ")
    } else if k == "D4529"@ {
        Some("VG170")
    } else if k == "D4530"@ {
        Some("VH210")
    } else if k == "D4531"@ {
        Some("XZ-2")
    } else if k == "D4535"@ {
        Some("SP-620UZ")
    } else if k == "D4536"@ {
        Some("TG-320")
    } else if k == "D4537"@ {
        Some("VR340,D750")
    } else if k == "D4538"@ {
        Some("VG160,X990,D745")
    } else if k == "D4541"@ {
        Some("SZ-12")
    } else if k == "D4545"@ {
        Some("VH410")
    } else if k == "D4546"@ {
        Some("XZ-10")
    } else if k == "D4547"@ {
        Some("TG-2")
    } else if k == "D4548"@ {
        Some("TG-830")
    } else if k == "D4549"@ {
        Some("TG-630")
    } else if k == "D4550"@ {
        Some("SH-50")
    } else if k == "D4553"@ {
        Some("SZ-16,DZ-105")
    } else if k == "D4562"@ {
        Some("SP-820UZ")
    } else if k == "D4566"@ {
        Some("SZ-15")
    } else if k == "D4572"@ {
        Some("STYLUS1")
    } else if k == "D4574"@ {
        Some("TG-3")
    } else if k == "D4575"@ {
        Some("TG-850")
    } else if k == "D4579"@ {
        Some("SP-100EE")
    } else if k == "D4580"@ {
        Some("SH-60")
    } else if k == "D4581"@ {
        Some("SH-1")
    } else if k == "D4582"@ {
        Some("TG-835")
    } else if k == "D4585"@ {
        Some("SH-2 / SH-3")
    } else if k == "D4586"@ {
        Some("TG-4")
    } else if k == "D4587"@ {
        Some("TG-860")
    } else if k == "D4590"@ {
        Some("TG-TRACKER")
    } else if k == "D4591"@ {
        Some("TG-870")
    } else if k == "D4593"@ {
        Some("TG-5")
    } else if k == "D4603"@ {
        Some("TG-6")
    } else if k == "D4605"@ {
        Some("TG-7")
    } else if k == "D4809"@ {
        Some("C2500L")
    } else if k == "D4842"@ {
        Some("E-10")
    } else if k == "D4856"@ {
        Some("C-1")
    } else if k == "D4857"@ {
        Some("C-1Z,D-150Z")
    } else if k == "DCHC"@ {
        Some("D500L")
    } else if k == "DCHT"@ {
        Some("D600L / D620L")
    } else if k == "K0055"@ {
        Some("AIR-A01")
    } else if k == "S0003"@ {
        Some("E-330")
    } else if k == "S0004"@ {
        Some("E-500")
    } else if k == "S0009"@ {
        Some("E-400")
    } else if k == "S0010"@ {
        Some("E-510")
    } else if k == "S0011"@ {
        Some("E-3")
    } else if k == "S0013"@ {
        Some("E-410")
    } else if k == "S0016"@ {
        Some("E-420")
    } else if k == "S0017"@ {
        Some("E-30")
    } else if k == "S0018"@ {
        Some("E-520")
    } else if k == "S0019"@ {
        Some("E-P1")
    } else if k == "S0023"@ {
        Some("E-620")
    } else if k == "S0026"@ {
        Some("E-P2")
    } else if k == "S0027"@ {
        Some("E-PL1")
    } else if k == "S0029"@ {
        Some("E-450")
    } else if k == "S0030"@ {
        Some("E-600")
    } else if k == "S0032"@ {
        Some("E-P3")
    } else if k == "S0033"@ {
        Some("E-5")
    } else if k == "S0034"@ {
        Some("E-PL2")
    } else if k == "S0036"@ {
        Some("E-M5")
    } else if k == "S0038"@ {
        Some("E-PL3")
    } else if k == "S0039"@ {
        Some("E-PM1")
    } else if k == "S0040"@ {
        Some("E-PL1s")
    } else if k == "S0042"@ {
        Some("E-PL5")
    } else if k == "S0043"@ {
        Some("E-PM2")
    } else if k == "S0044"@ {
        Some("E-P5")
    } else if k == "S0045"@ {
        Some("E-PL6")
    } else if k == "S0046"@ {
        Some("E-PL7")
    } else if k == "S0047"@ {
        Some("E-M1")
    } else if k == "S0051"@ {
        Some("E-M10")
    } else if k == "S0052"@ {
        Some("E-M5MarkII")
    } else if k == "S0059"@ {
        Some("E-M10MarkII")
    } else if k == "S0061"@ {
        Some("PEN-F")
    } else if k == "S0065"@ {
        Some("E-PL8")
    } else if k == "S0067"@ {
        Some("E-M1MarkII")
    } else if k == "S0068"@ {
        Some("E-M10MarkIII")
    } else if k == "S0076"@ {
        Some("E-PL9")
    } else if k == "S0080"@ {
        Some("E-M1X")
    } else if k == "S0085"@ {
        Some("E-PL10")
    } else if k == "S0088"@ {
        Some("E-M10MarkIV")
    } else if k == "S0089"@ {
        Some("E-M5MarkIII")
    } else if k == "S0092"@ {
        Some("E-M1MarkIII")
    } else if k == "S0093"@ {
        Some("E-P7")
    } else if k == "S0094"@ {
        Some("E-M10MarkIIIS")
    } else if k == "S0095"@ {
        Some("OM-1")
    } else if k == "S0101"@ {
        Some("OM-5")
    } else if k == "S0121"@ {
        Some("OM-1MarkII")
    } else if k == "S0123"@ {
        Some("OM-3")
    } else if k == "S0130"@ {
        Some("OM-5MarkII")
    } else if k == "SR45"@ {
        Some("D220")
    } else if k == "SR55"@ {
        Some("D320L")
    } else if k == "SR83"@ {
        Some("D340L")
    } else if k == "SR85"@ {
        Some("C830L,D340R")
    } else if k == "SR852"@ {
        Some("C860L,D360L")
    } else if k == "SR872"@ {
        Some("C900Z,D400Z")
    } else if k == "SR874"@ {
        Some("C960Z,D460Z")
    } else if k == "SR951"@ {
        Some("C2000Z")
    } else if k == "SR952"@ {
        Some("C21")
    } else if k == "SR953"@ {
        Some("C21T.commu")
    } else if k == "SR954"@ {
        Some("C2020Z")
    } else if k == "SR955"@ {
        Some("C990Z,D490Z")
    } else if k == "SR956"@ {
        Some("C211Z")
    } else if k == "SR959"@ {
        Some("C990ZS,D490Z")
    } else if k == "SR95A"@ {
        Some("C2100UZ")
    } else if k == "SR971"@ {
        Some("C100,D370")
    } else if k == "SR973"@ {
        Some("C2,D230")
    } else if k == "SX151"@ {
        Some("E100RS")
    } else if k == "SX351"@ {
        Some("C3000Z / C3030Z")
    } else if k == "SX354"@ {
        Some("C3040Z")
    } else if k == "SX355"@ {
        Some("C2040Z")
    } else if k == "SX357"@ {
        Some("C700UZ")
    } else if k == "SX358"@ {
        Some("C200Z,D510Z")
    } else if k == "SX374"@ {
        Some("C3100Z,C3020Z")
    } else if k == "SX552"@ {
        Some("C4040Z")
    } else if k == "SX553"@ {
        Some("C40Z,D40Z")
    } else if k == "SX556"@ {
        Some("C730UZ")
    } else if k == "SX558"@ {
        Some("C5050Z")
    } else if k == "SX571"@ {
        Some("C120,D380")
    } else if k == "SX574"@ {
        Some("C300Z,D550Z")
    } else if k == "SX575"@ {
        Some("C4100Z,C4000Z")
    } else if k == "SX751"@ {
        Some("X200,D560Z,C350Z")
    } else if k == "SX752"@ {
        Some("X300,D565Z,C450Z")
    } else if k == "SX753"@ {
        Some("C750UZ")
    } else if k == "SX754"@ {
        Some("C740UZ")
    } else if k == "SX755"@ {
        Some("C755UZ")
    } else if k == "SX756"@ {
        Some("C5060WZ")
    } else if k == "SX757"@ {
        Some("C8080WZ")
    } else if k == "SX758"@ {
        Some("X350,D575Z,C360Z")
    } else if k == "SX759"@ {
        Some("X400,D580Z,C460Z")
    } else if k == "SX75A"@ {
        Some("AZ-2ZOOM")
    } else if k == "SX75B"@ {
        Some("D595Z,C500Z")
    } else if k == "SX75C"@ {
        Some("X550,D545Z,C480Z")
    } else if k == "SX75D"@ {
        Some("IR-300")
    } else if k == "SX75F"@ {
        Some("C55Z,C5500Z")
    } else if k == "SX75G"@ {
        Some("C170,D425")
    } else if k == "SX75J"@ {
        Some("C180,D435")
    } else if k == "SX771"@ {
        Some("C760UZ")
    } else if k == "SX772"@ {
        Some("C770UZ")
    } else if k == "SX773"@ {
        Some("C745UZ")
    } else if k == "SX774"@ {
        Some("X250,D560Z,C350Z")
    } else if k == "SX775"@ {
        Some("X100,D540Z,C310Z")
    } else if k == "SX776"@ {
        Some("C460ZdelSol")
    } else if k == "SX777"@ {
        Some("C765UZ")
    } else if k == "SX77A"@ {
        Some("D555Z,C315Z")
    } else if k == "SX851"@ {
        Some("C7070WZ")
    } else if k == "SX852"@ {
        Some("C70Z,C7000Z")
    } else if k == "SX853"@ {
        Some("SP500UZ")
    } else if k == "SX854"@ {
        Some("SP310")
    } else if k == "SX855"@ {
        Some("SP350")
    } else if k == "SX873"@ {
        Some("SP320")
    } else if k == "SX875"@ {
        Some("FE180/X745")
    } else if k == "SX876"@ {
        Some("FE190/X750")
    } else {
        None
    }
}

/// Olympus camera model from its CameraType code.
fn decode_camera_type(k: &str) -> (r: Option<&'static str>)
    ensures
        r == camera_type_name(k@),
{
    if str_eq(k, "D4028") {
        Some("X-2,C-50Z")
    } else if str_eq(k, "D4029") {
        Some("E-20,E-20N,E-20P")
    } else if str_eq(k, "D4034") {
        Some("C720UZ")
    } else if str_eq(k, "D4040") {
        Some("E-1")
    } else if str_eq(k, "D4041") {
        Some("E-300")
    } else if str_eq(k, "D4083") {
        Some("C2Z,D520Z,C220Z")
    } else if str_eq(k, "D4106") {
        Some("u20D,S400D,u400D")
    } else if str_eq(k, "D4120") {
        Some("X-1")
    } else if str_eq(k, "D4122") {
        Some("u10D,S300D,u300D")
    } else if str_eq(k, "D4125") {
        Some("AZ-1")
    } else if str_eq(k, "D4141") {
        Some("C150,D390")
    } else if str_eq(k, "D4193") {
        Some("C-5000Z")
    } else if str_eq(k, "D4194") {
        Some("X-3,C-60Z")
    } else if str_eq(k, "D4199") {
        Some("u30D,S410D,u410D")
    } else if str_eq(k, "D4205") {
        Some("X450,D535Z,C370Z")
    } else if str_eq(k, "D4210") {
        Some("C160,D395")
    } else if str_eq(k, "D4211") {
        Some("C725UZ")
    } else if str_eq(k, "D4213") {
        Some("FerrariMODEL2003")
    } else if str_eq(k, "D4216") {
        Some("u15D")
    } else if str_eq(k, "D4217") {
        Some("u25D")
    } else if str_eq(k, "D4220") {
        Some("u-miniD,Stylus V")
    } else if str_eq(k, "D4221") {
        Some("u40D,S500,uD500")
    } else if str_eq(k, "D4231") {
        Some("FerrariMODEL2004")
    } else if str_eq(k, "D4240") {
        Some("X500,D590Z,C470Z")
    } else if str_eq(k, "D4244") {
        Some("uD800,S800")
    } else if str_eq(k, "D4256") {
        Some("u720SW,S720SW")
    } else if str_eq(k, "D4261") {
        Some("X600,D630,FE5500")
    } else if str_eq(k, "D4262") {
        Some("uD600,S600")
    } else if str_eq(k, "D4301") {
        Some("u810/S810")
    } else if str_eq(k, "D4302") {
        Some("u710,S710")
    } else if str_eq(k, "D4303") {
        Some("u700,S700")
    } else if str_eq(k, "D4304") {
        Some("FE100,X710")
    } else if str_eq(k, "D4305") {
        Some("FE110,X705")
    } else if str_eq(k, "D4310") {
        Some("FE-130,X-720")
    } else if str_eq(k, "D4311") {
        Some("FE-140,X-725")
    } else if str_eq(k, "D4312") {
        Some("FE150,X730")
    } else if str_eq(k, "D4313") {
        Some("FE160,X735")
    } else if str_eq(k, "D4314") {
        Some("u740,S740")
    } else if str_eq(k, "D4315") {
        Some("u750,S750")
    } else if str_eq(k, "D4316") {
        Some("u730/S730")
    } else if str_eq(k, "D4317") {
        Some("FE115,X715")
    } else if str_eq(k, "D4321") {
        Some("SP550UZ")
    } else if str_eq(k, "D4322") {
        Some("SP510UZ")
    } else if str_eq(k, "D4324") {
        Some("FE170,X760")
    } else if str_eq(k, "D4326") {
        Some("FE200")
    } else if str_eq(k, "D4327") {
        Some("FE190/X750")
    } else if str_eq(k, "D4328") {
        Some("u760,S760")
    } else if str_eq(k, "D4330") {
        Some("FE180/X745")
    } else if str_eq(k, "D4331") {
        Some("u1000/S1000")
    } else if str_eq(k, "D4332") {
        Some("u770SW,S770SW")
    } else if str_eq(k, "D4333") {
        Some("FE240/X795")
    } else if str_eq(k, "D4334") {
        Some("FE210,X775")
    } else if str_eq(k, "D4336") {
        Some("FE230/X790")
    } else if str_eq(k, "D4337") {
        Some("FE220,X785")
    } else if str_eq(k, "D4338") {
        Some("u725SW,S725SW")
    } else if str_eq(k, "D4339") {
        Some("FE250/X800")
    } else if str_eq(k, "D4341") {
        Some("u780,S780")
    } else if str_eq(k, "D4343") {
        Some("u790SW,S790SW")
    } else if str_eq(k, "D4344") {
        Some("u1020,S1020")
    } else if str_eq(k, "D4346") {
        Some("FE15,X10")
    } else if str_eq(k, "D4348") {
        Some("FE280,X820,C520")
    } else if str_eq(k, "D4349") {
        Some("FE300,X830")
    } else if str_eq(k, "D4350") {
        Some("u820,S820")
    } else if str_eq(k, "D4351") {
        Some("u1200,S1200")
    } else if str_eq(k, "D4352") {
        Some("FE270,X815,C510")
    } else if str_eq(k, "D4353") {
        Some("u795SW,S795SW")
    } else if str_eq(k, "D4354") {
        Some("u1030SW,S1030SW")
    } else if str_eq(k, "D4355") {
        Some("SP560UZ")
    } else if str_eq(k, "D4356") {
        Some("u1010,S1010")
    } else if str_eq(k, "D4357") {
        Some("u830,S830")
    } else if str_eq(k, "D4359") {
        Some("u840,S840")
    } else if str_eq(k, "D4360") {
        Some("FE350WIDE,X865")
    } else if str_eq(k, "D4361") {
        Some("u850SW,S850SW")
    } else if str_eq(k, "D4362") {
        Some("FE340,X855,C560")
    } else if str_eq(k, "D4363") {
        Some("FE320,X835,C540")
    } else if str_eq(k, "D4364") {
        Some("SP570UZ")
    } else if str_eq(k, "D4366") {
        Some("FE330,X845,C550")
    } else if str_eq(k, "D4368") {
        Some("FE310,X840,C530")
    } else if str_eq(k, "D4370") {
        Some("u1050SW,S1050SW")
    } else if str_eq(k, "D4371") {
        Some("u1060,S1060")
    } else if str_eq(k, "D4372") {
        Some("FE370,X880,C575")
    } else if str_eq(k, "D4374") {
        Some("SP565UZ")
    } else if str_eq(k, "D4377") {
        Some("u1040,S1040")
    } else if str_eq(k, "D4378") {
        Some("FE360,X875,C570")
    } else if str_eq(k, "D4379") {
        Some("FE20,X15,C25")
    } else if str_eq(k, "D4380") {
        Some("uT6000,ST6000")
    } else if str_eq(k, "D4381") {
        Some("uT8000,ST8000")
    } else if str_eq(k, "D4382") {
        Some("u9000,S9000")
    } else if str_eq(k, "D4384") {
        Some("SP590UZ")
    } else if str_eq(k, "D4385") {
        Some("FE3010,X895")
    } else if str_eq(k, "D4386") {
        Some("FE3000,X890")
    } else if str_eq(k, "D4387") {
        Some("FE35,X30")
    } else if str_eq(k, "D4388") {
        Some("u550WP,S550WP")
    } else if str_eq(k, "D4390") {
        Some("FE5000,X905")
    } else if str_eq(k, "D4391") {
        Some("u5000")
    } else if str_eq(k, "D4392") {
        Some("u7000,S7000")
    } else if str_eq(k, "D4396") {
        Some("FE5010,X915")
    } else if str_eq(k, "D4397") {
        Some("FE25,X20")
    } else if str_eq(k, "D4398") {
        Some("FE45,X40")
    } else if str_eq(k, "D4401") {
        Some("XZ-1")
    } else if str_eq(k, "D4402") {
        Some("uT6010,ST6010")
    } else if str_eq(k, "D4406") {
        Some("u7010,S7010 / u7020,S7020")
    } else if str_eq(k, "D4407") {
        Some("FE4010,X930")
    } else if str_eq(k, "D4408") {
        Some("X560WP")
    } else if str_eq(k, "D4409") {
        Some("FE26,X21")
    } else if str_eq(k, "D4410") {
        Some("FE4000,X920,X925")
    } else if str_eq(k, "D4411") {
        Some("FE46,X41,X42")
    } else if str_eq(k, "D4412") {
        Some("FE5020,X935")
    } else if str_eq(k, "D4413") {
        Some("uTough-3000")
    } else if str_eq(k, "D4414") {
        Some("StylusTough-6020")
    } else if str_eq(k, "D4415") {
        Some("StylusTough-8010")
    } else if str_eq(k, "D4417") {
        Some("u5010,S5010")
    } else if str_eq(k, "D4418") {
        Some("u7040,S7040")
    } else if str_eq(k, "D4419") {
        Some("u9010,S9010")
    } else if str_eq(k, "D4423") {
        Some("FE4040")
    } else if str_eq(k, "D4424") {
        Some("FE47,X43")
    } else if str_eq(k, "D4426") {
        Some("FE4030,X950")
    } else if str_eq(k, "D4428") {
        Some("FE5030,X965,X960")
    } else if str_eq(k, "D4430") {
        Some("u7030,S7030")
    } else if str_eq(k, "D4432") {
        Some("SP600UZ")
    } else if str_eq(k, "D4434") {
        Some("SP800UZ")
    } else if str_eq(k, "D4439") {
        Some("FE4020,X940")
    } else if str_eq(k, "D4442") {
        Some("FE5035")
    } else if str_eq(k, "D4448") {
        Some("FE4050,X970")
    } else if str_eq(k, "D4450") {
        Some("FE5050,X985")
    } else if str_eq(k, "D4454") {
        Some("u-7050")
    } else if str_eq(k, "D4464") {
        Some("T10,X27")
    } else if str_eq(k, "D4470") {
        Some("FE5040,X980")
    } else if str_eq(k, "D4472") {
        Some("TG-310")
    } else if str_eq(k, "D4474") {
        Some("TG-610")
    } else if str_eq(k, "D4476") {
        Some("TG-810")
    } else if str_eq(k, "D4478") {
        Some("VG145,VG140,D715")
    } else if str_eq(k, "D4479") {
        Some("VG130,D710")
    } else if str_eq(k, "D4480") {
        Some("VG120,D705")
    } else if str_eq(k, "D4482") {
        Some("VR310,D720")
    } else if str_eq(k, "D4484") {
        Some("VR320,D725")
    } else if str_eq(k, "D4486") {
        Some("VR330,D730")
    } else if str_eq(k, "D4488") {
        Some("VG110,D700")
    } else if str_eq(k, "D4490") {
        Some("SP-610UZ")
    } else if str_eq(k, "D4492") {
        Some("SZ-10")
    } else if str_eq(k, "D4494") {
        Some("SZ-20")
    } else if str_eq(k, "D4496") {
        Some("SZ-30MR")
    } else if str_eq(k, "D4498") {
        Some("SP-810UZ")
    } else if str_eq(k, "D4500") {
        Some("SZ-11")
    } else if str_eq(k, "D4504") {
        Some("TG-615")
    } else if str_eq(k, "D4508") {
        Some("TG-620")
    } else if str_eq(k, "D4510") {
        Some("TG-820")
    } else if str_eq(k, "D4512") {
        Some("TG-1")
    } else if str_eq(k, "D4516") {
        Some("SH-21")
    } else if str_eq(k, "D4519") {
        Some("SZ-14")
    } else if str_eq(k, "D4520") {
        Some("SZ-31MR")
    } else if str_eq(k, "D4521") {
        Some("SH-25MR")
    } else if str_eq(k, "D4523") {
        Some("SP-720UZ")
    } else if str_eq(k, "D4529") {
        Some("VG170")
    } else if str_eq(k, "D4530") {
        Some("VH210")
    } else if str_eq(k, "D4531") {
        Some("XZ-2")
    } else if str_eq(k, "D4535") {
        Some("SP-620UZ")
    } else if str_eq(k, "D4536") {
        Some("TG-320")
    } else if str_eq(k, "D4537") {
        Some("VR340,D750")
    } else if str_eq(k, "D4538") {
        Some("VG160,X990,D745")
    } else if str_eq(k, "D4541") {
        Some("SZ-12")
    } else if str_eq(k, "D4545") {
        Some("VH410")
    } else if str_eq(k, "D4546") {
        Some("XZ-10")
    } else if str_eq(k, "D4547") {
        Some("TG-2")
    } else if str_eq(k, "D4548") {
        Some("TG-830")
    } else if str_eq(k, "D4549") {
        Some("TG-630")
    } else if str_eq(k, "D4550") {
        Some("SH-50")
    } else if str_eq(k, "D4553") {
        Some("SZ-16,DZ-105")
    } else if str_eq(k, "D4562") {
        Some("SP-820UZ")
    } else if str_eq(k, "D4566") {
        Some("SZ-15")
    } else if str_eq(k, "D4572") {
        Some("STYLUS1")
    } else if str_eq(k, "D4574") {
        Some("TG-3")
    } else if str_eq(k, "D4575") {
        Some("TG-850")
    } else if str_eq(k, "D4579") {
        Some("SP-100EE")
    } else if str_eq(k, "D4580") {
        Some("SH-60")
    } else if str_eq(k, "D4581") {
        Some("SH-1")
    } else if str_eq(k, "D4582") {
        Some("TG-835")
    } else if str_eq(k, "D4585") {
        Some("SH-2 / SH-3")
    } else if str_eq(k, "D4586") {
        Some("TG-4")
    } else if str_eq(k, "D4587") {
        Some("TG-860")
    } else if str_eq(k, "D4590") {
        Some("TG-TRACKER")
    } else if str_eq(k, "D4591") {
        Some("TG-870")
    } else if str_eq(k, "D4593") {
        Some("TG-5")
    } else if str_eq(k, "D4603") {
        Some("TG-6")
    } else if str_eq(k, "D4605") {
        Some("TG-7")
    } else if str_eq(k, "D4809") {
        Some("C2500L")
    } else if str_eq(k, "D4842") {
        Some("E-10")
    } else if str_eq(k, "D4856") {
        Some("C-1")
    } else if str_eq(k, "D4857") {
        Some("C-1Z,D-150Z")
    } else if str_eq(k, "DCHC") {
        Some("D500L")
    } else if str_eq(k, "DCHT") {
        Some("D600L / D620L")
    } else if str_eq(k, "K0055") {
        Some("AIR-A01")
    } else if str_eq(k, "S0003") {
        Some("E-330")
    } else if str_eq(k, "S0004") {
        Some("E-500")
    } else if str_eq(k, "S0009") {
        Some("E-400")
    } else if str_eq(k, "S0010") {
        Some("E-510")
    } else if str_eq(k, "S0011") {
        Some("E-3")
    } else if str_eq(k, "S0013") {
        Some("E-410")
    } else if str_eq(k, "S0016") {
        Some("E-420")
    } else if str_eq(k, "S0017") {
        Some("E-30")
    } else if str_eq(k, "S0018") {
        Some("E-520")
    } else if str_eq(k, "S0019") {
        Some("E-P1")
    } else if str_eq(k, "S0023") {
        Some("E-620")
    } else if str_eq(k, "S0026") {
        Some("E-P2")
    } else if str_eq(k, "S0027") {
        Some("E-PL1")
    } else if str_eq(k, "S0029") {
        Some("E-450")
    } else if str_eq(k, "S0030") {
        Some("E-600")
    } else if str_eq(k, "S0032") {
        Some("E-P3")
    } else if str_eq(k, "S0033") {
        Some("E-5")
    } else if str_eq(k, "S0034") {
        Some("E-PL2")
    } else if str_eq(k, "S0036") {
        Some("E-M5")
    } else if str_eq(k, "S0038") {
        Some("E-PL3")
    } else if str_eq(k, "S0039") {
        Some("E-PM1")
    } else if str_eq(k, "S0040") {
        Some("E-PL1s")
    } else if str_eq(k, "S0042") {
        Some("E-PL5")
    } else if str_eq(k, "S0043") {
        Some("E-PM2")
    } else if str_eq(k, "S0044") {
        Some("E-P5")
    } else if str_eq(k, "S0045") {
        Some("E-PL6")
    } else if str_eq(k, "S0046") {
        Some("E-PL7")
    } else if str_eq(k, "S0047") {
        Some("E-M1")
    } else if str_eq(k, "S0051") {
        Some("E-M10")
    } else if str_eq(k, "S0052") {
        Some("E-M5MarkII")
    } else if str_eq(k, "S0059") {
        Some("E-M10MarkII")
    } else if str_eq(k, "S0061") {
        Some("PEN-F")
    } else if str_eq(k, "S0065") {
        Some("E-PL8")
    } else if str_eq(k, "S0067") {
        Some("E-M1MarkII")
    } else if str_eq(k, "S0068") {
        Some("E-M10MarkIII")
    } else if str_eq(k, "S0076") {
        Some("E-PL9")
    } else if str_eq(k, "S0080") {
        Some("E-M1X")
    } else if str_eq(k, "S0085") {
        Some("E-PL10")
    } else if str_eq(k, "S0088") {
        Some("E-M10MarkIV")
    } else if str_eq(k, "S0089") {
        Some("E-M5MarkIII")
    } else if str_eq(k, "S0092") {
        Some("E-M1MarkIII")
    } else if str_eq(k, "S0093") {
        Some("E-P7")
    } else if str_eq(k, "S0094") {
        Some("E-M10MarkIIIS")
    } else if str_eq(k, "S0095") {
        Some("OM-1")
    } else if str_eq(k, "S0101") {
        Some("OM-5")
    } else if str_eq(k, "S0121") {
        Some("OM-1MarkII")
    } else if str_eq(k, "S0123") {
        Some("OM-3")
    } else if str_eq(k, "S0130") {
        Some("OM-5MarkII")
    } else if str_eq(k, "SR45") {
        Some("D220")
    } else if str_eq(k, "SR55") {
        Some("D320L")
    } else if str_eq(k, "SR83") {
        Some("D340L")
    } else if str_eq(k, "SR85") {
        Some("C830L,D340R")
    } else if str_eq(k, "SR852") {
        Some("C860L,D360L")
    } else if str_eq(k, "SR872") {
        Some("C900Z,D400Z")
    } else if str_eq(k, "SR874") {
        Some("C960Z,D460Z")
    } else if str_eq(k, "SR951") {
        Some("C2000Z")
    } else if str_eq(k, "SR952") {
        Some("C21")
    } else if str_eq(k, "SR953") {
        Some("C21T.commu")
    } else if str_eq(k, "SR954") {
        Some("C2020Z")
    } else if str_eq(k, "SR955") {
        Some("C990Z,D490Z")
    } else if str_eq(k, "SR956") {
        Some("C211Z")
    } else if str_eq(k, "SR959") {
        Some("C990ZS,D490Z")
    } else if str_eq(k, "SR95A") {
        Some("C2100UZ")
    } else if str_eq(k, "SR971") {
        Some("C100,D370")
    } else if str_eq(k, "SR973") {
        Some("C2,D230")
    } else if str_eq(k, "SX151") {
        Some("E100RS")
    } else if str_eq(k, "SX351") {
        Some("C3000Z / C3030Z")
    } else if str_eq(k, "SX354") {
        Some("C3040Z")
    } else if str_eq(k, "SX355") {
        Some("C2040Z")
    } else if str_eq(k, "SX357") {
        Some("C700UZ")
    } else if str_eq(k, "SX358") {
        Some("C200Z,D510Z")
    } else if str_eq(k, "SX374") {
        Some("C3100Z,C3020Z")
    } else if str_eq(k, "SX552") {
        Some("C4040Z")
    } else if str_eq(k, "SX553") {
        Some("C40Z,D40Z")
    } else if str_eq(k, "SX556") {
        Some("C730UZ")
    } else if str_eq(k, "SX558") {
        Some("C5050Z")
    } else if str_eq(k, "SX571") {
        Some("C120,D380")
    } else if str_eq(k, "SX574") {
        Some("C300Z,D550Z")
    } else if str_eq(k, "SX575") {
        Some("C4100Z,C4000Z")
    } else if str_eq(k, "SX751") {
        Some("X200,D560Z,C350Z")
    } else if str_eq(k, "SX752") {
        Some("X300,D565Z,C450Z")
    } else if str_eq(k, "SX753") {
        Some("C750UZ")
    } else if str_eq(k, "SX754") {
        Some("C740UZ")
    } else if str_eq(k, "SX755") {
        Some("C755UZ")
    } else if str_eq(k, "SX756") {
        Some("C5060WZ")
    } else if str_eq(k, "SX757") {
        Some("C8080WZ")
    } else if str_eq(k, "SX758") {
        Some("X350,D575Z,C360Z")
    } else if str_eq(k, "SX759") {
        Some("X400,D580Z,C460Z")
    } else if str_eq(k, "SX75A") {
        Some("AZ-2ZOOM")
    } else if str_eq(k, "SX75B") {
        Some("D595Z,C500Z")
    } else if str_eq(k, "SX75C") {
        Some("X550,D545Z,C480Z")
    } else if str_eq(k, "SX75D") {
        Some("IR-300")
    } else if str_eq(k, "SX75F") {
        Some("C55Z,C5500Z")
    } else if str_eq(k, "SX75G") {
        Some("C170,D425")
    } else if str_eq(k, "SX75J") {
        Some("C180,D435")
    } else if str_eq(k, "SX771") {
        Some("C760UZ")
    } else if str_eq(k, "SX772") {
        Some("C770UZ")
    } else if str_eq(k, "SX773") {
        Some("C745UZ")
    } else if str_eq(k, "SX774") {
        Some("X250,D560Z,C350Z")
    } else if str_eq(k, "SX775") {
        Some("X100,D540Z,C310Z")
    } else if str_eq(k, "SX776") {
        Some("C460ZdelSol")
    } else if str_eq(k, "SX777") {
        Some("C765UZ")
    } else if str_eq(k, "SX77A") {
        Some("D555Z,C315Z")
    } else if str_eq(k, "SX851") {
        Some("C7070WZ")
    } else if str_eq(k, "SX852") {
        Some("C70Z,C7000Z")
    } else if str_eq(k, "SX853") {
        Some("SP500UZ")
    } else if str_eq(k, "SX854") {
        Some("SP310")
    } else if str_eq(k, "SX855") {
        Some("SP350")
    } else if str_eq(k, "SX873") {
        Some("SP320")
    } else if str_eq(k, "SX875") {
        Some("FE180/X745")
    } else if str_eq(k, "SX876") {
        Some("FE190/X750")
    } else {
        None
    }
}


/// Appends `name` when `set`.
fn push_bit(parts: &mut Vec<String>, set: bool, name: &str)
    ensures
        views(final(parts)@) == views(old(parts)@) + bit_part(set, name@),
{
    if set {
        push_part(parts, name);
    } else {
        assert(views(parts@) =~= views(parts@) + bit_part(set, name@));
    }
}

/// Names of the FocusMode bits that are set.
pub open spec fn focus_mode_bits(value: u16) -> Seq<Seq<char>> {
    bit_part(value & 0x0001 != 0, "S-AF"@)
        + bit_part(value & 0x0004 != 0, "C-AF"@)
        + bit_part(value & 0x0010 != 0, "MF"@)
        + bit_part(value & 0x0020 != 0, "Face Detect"@)
        + bit_part(value & 0x0040 != 0, "Imager AF"@)
        + bit_part(value & 0x0080 != 0, "Live View Magnification Frame"@)
        + bit_part(value & 0x0100 != 0, "AF sensor"@)
        + bit_part(value & 0x0200 != 0, "Starry Sky AF"@)
}

fn focus_mode_bit_parts(value: u16) -> (r: Vec<String>)
    ensures
        views(r@) == focus_mode_bits(value),
{
    let mut parts: Vec<String> = Vec::new();
    push_bit(&mut parts, value & 0x0001 != 0, "S-AF");
    assert(views(parts@) =~= bit_part(value & 0x0001 != 0, "S-AF"@));
    push_bit(&mut parts, value & 0x0004 != 0, "C-AF");
    push_bit(&mut parts, value & 0x0010 != 0, "MF");
    push_bit(&mut parts, value & 0x0020 != 0, "Face Detect");
    push_bit(&mut parts, value & 0x0040 != 0, "Imager AF");
    push_bit(&mut parts, value & 0x0080 != 0, "Live View Magnification Frame");
    push_bit(&mut parts, value & 0x0100 != 0, "AF sensor");
    push_bit(&mut parts, value & 0x0200 != 0, "Starry Sky AF");
    parts
}

/// Names of the FlashMode bits that are set.
pub open spec fn flash_mode_bits(value: u16) -> Seq<Seq<char>> {
    bit_part(value & 0x01 != 0, "On"@)
        + bit_part(value & 0x02 != 0, "Fill-in"@)
        + bit_part(value & 0x04 != 0, "Red-eye"@)
        + bit_part(value & 0x08 != 0, "Slow-sync"@)
        + bit_part(value & 0x10 != 0, "Forced On"@)
        + bit_part(value & 0x20 != 0, "2nd Curtain"@)
}

fn flash_mode_bit_parts(value: u16) -> (r: Vec<String>)
    ensures
        views(r@) == flash_mode_bits(value),
{
    let mut parts: Vec<String> = Vec::new();
    push_bit(&mut parts, value & 0x01 != 0, "On");
    assert(views(parts@) =~= bit_part(value & 0x01 != 0, "On"@));
    push_bit(&mut parts, value & 0x02 != 0, "Fill-in");
    push_bit(&mut parts, value & 0x04 != 0, "Red-eye");
    push_bit(&mut parts, value & 0x08 != 0, "Slow-sync");
    push_bit(&mut parts, value & 0x10 != 0, "Forced On");
    push_bit(&mut parts, value & 0x20 != 0, "2nd Curtain");
    parts
}

/// Names of the NoiseReduction bits that are set.
pub open spec fn noise_reduction_bits(value: u16) -> Seq<Seq<char>> {
    bit_part(value & 0x01 != 0, "Noise Reduction"@)
        + bit_part(value & 0x02 != 0, "Noise Filter"@)
        + bit_part(value & 0x04 != 0, "Noise Filter (ISO Boost)"@)
        + bit_part(value & 0x08 != 0, "Auto"@)
}

fn noise_reduction_bit_parts(value: u16) -> (r: Vec<String>)
    ensures
        views(r@) == noise_reduction_bits(value),
{
    let mut parts: Vec<String> = Vec::new();
    push_bit(&mut parts, value & 0x01 != 0, "Noise Reduction");
    assert(views(parts@) =~= bit_part(value & 0x01 != 0, "Noise Reduction"@));
    push_bit(&mut parts, value & 0x02 != 0, "Noise Filter");
    push_bit(&mut parts, value & 0x04 != 0, "Noise Filter (ISO Boost)");
    push_bit(&mut parts, value & 0x08 != 0, "Auto");
    parts
}

/// Names of the NoiseReduction2 bits that are set.
pub open spec fn noise_reduction2_bits(value: u16) -> Seq<Seq<char>> {
    bit_part(value & 0x01 != 0, "Noise Reduction"@)
        + bit_part(value & 0x02 != 0, "Noise Filter"@)
        + bit_part(value & 0x04 != 0, "Noise Filter (ISO Boost)"@)
}

fn noise_reduction2_bit_parts(value: u16) -> (r: Vec<String>)
    ensures
        views(r@) == noise_reduction2_bits(value),
{
    let mut parts: Vec<String> = Vec::new();
    push_bit(&mut parts, value & 0x01 != 0, "Noise Reduction");
    assert(views(parts@) =~= bit_part(value & 0x01 != 0, "Noise Reduction"@));
    push_bit(&mut parts, value & 0x02 != 0, "Noise Filter");
    push_bit(&mut parts, value & 0x04 != 0, "Noise Filter (ISO Boost)");
    parts
}

/// Bracketing kinds named by the DriveMode mode bits.
pub open spec fn bracket_bits(bits: u16) -> Seq<Seq<char>> {
    bit_part(bits & 0x01 != 0, "AE"@)
        + bit_part(bits & 0x02 != 0, "WB"@)
        + bit_part(bits & 0x04 != 0, "FL"@)
        + bit_part(bits & 0x08 != 0, "MF"@)
        + bit_part(bits & 0x10 != 0, "ISO"@)
        + bit_part(bits & 0x20 != 0, "AE Auto"@)
        + bit_part(bits & 0x40 != 0, "Focus"@)
}

fn bracket_bit_parts(bits: u16) -> (r: Vec<String>)
    ensures
        views(r@) == bracket_bits(bits),
{
    let mut parts: Vec<String> = Vec::new();
    push_bit(&mut parts, bits & 0x01 != 0, "AE");
    assert(views(parts@) =~= bit_part(bits & 0x01 != 0, "AE"@));
    push_bit(&mut parts, bits & 0x02 != 0, "WB");
    push_bit(&mut parts, bits & 0x04 != 0, "FL");
    push_bit(&mut parts, bits & 0x08 != 0, "MF");
    push_bit(&mut parts, bits & 0x10 != 0, "ISO");
    push_bit(&mut parts, bits & 0x20 != 0, "AE Auto");
    push_bit(&mut parts, bits & 0x40 != 0, "Focus");
    parts
}

// ---------------------------------------------------------------------------
// Directory kinds
// ---------------------------------------------------------------------------

/// The Olympus directories: the main maker-note IFD and its sub-IFDs.
#[derive(Debug, Clone, Copy, PartialEq, Eq, Structural)]
pub enum OlympusIfdType {
    Main,
    Equipment,
    CameraSettings,
    RawDevelopment,
    ImageProcessing,
    FocusInfo,
}

/// Name of a tag in the given directory.
pub open spec fn olympus_tag_name(tag_id: u16, ifd_type: OlympusIfdType) -> Option<&'static str> {
    match ifd_type {
        OlympusIfdType::Main => main_tag_name(tag_id),
        OlympusIfdType::Equipment => equipment_tag_name(tag_id),
        OlympusIfdType::CameraSettings => camera_settings_tag_name(tag_id),
        OlympusIfdType::RawDevelopment => raw_development_tag_name(tag_id),
        OlympusIfdType::ImageProcessing => image_processing_tag_name(tag_id),
        OlympusIfdType::FocusInfo => focus_info_tag_name(tag_id),
    }
}

/// Gets the name of an Olympus maker-note tag in the given directory.
pub fn get_olympus_tag_name(tag_id: u16, ifd_type: OlympusIfdType) -> (r: Option<&'static str>)
    ensures
        r == olympus_tag_name(tag_id, ifd_type),
{
    match ifd_type {
        OlympusIfdType::Main => get_main_tag_name(tag_id),
        OlympusIfdType::Equipment => get_equipment_tag_name(tag_id),
        OlympusIfdType::CameraSettings => get_camera_settings_tag_name(tag_id),
        OlympusIfdType::RawDevelopment => get_raw_development_tag_name(tag_id),
        OlympusIfdType::ImageProcessing => get_image_processing_tag_name(tag_id),
        OlympusIfdType::FocusInfo => get_focus_info_tag_name(tag_id),
    }
}

/// The exiv2 group of a directory (the main IFD is reported as "Olympus2").
pub open spec fn exiv2_group_for_ifd(ifd_type: OlympusIfdType) -> &'static str {
    match ifd_type {
        OlympusIfdType::Main => EXIV2_GROUP_OLYMPUS2,
        OlympusIfdType::Equipment => EXIV2_GROUP_OLYMPUS_EQ,
        OlympusIfdType::CameraSettings => EXIV2_GROUP_OLYMPUS_CS,
        OlympusIfdType::RawDevelopment => EXIV2_GROUP_OLYMPUS_RD,
        OlympusIfdType::ImageProcessing => EXIV2_GROUP_OLYMPUS_IP,
        OlympusIfdType::FocusInfo => EXIV2_GROUP_OLYMPUS_FI,
    }
}

/// Gets the exiv2 group name of a directory.
pub fn get_exiv2_group_for_ifd(ifd_type: OlympusIfdType) -> (r: &'static str)
    ensures
        r == exiv2_group_for_ifd(ifd_type),
{
    match ifd_type {
        OlympusIfdType::Main => EXIV2_GROUP_OLYMPUS2,
        OlympusIfdType::Equipment => EXIV2_GROUP_OLYMPUS_EQ,
        OlympusIfdType::CameraSettings => EXIV2_GROUP_OLYMPUS_CS,
        OlympusIfdType::RawDevelopment => EXIV2_GROUP_OLYMPUS_RD,
        OlympusIfdType::ImageProcessing => EXIV2_GROUP_OLYMPUS_IP,
        OlympusIfdType::FocusInfo => EXIV2_GROUP_OLYMPUS_FI,
    }
}

// ---------------------------------------------------------------------------
// Bit masks
// ---------------------------------------------------------------------------

/// The name when its bit is set, nothing otherwise.
pub open spec fn bit_part(set: bool, name: Seq<char>) -> Seq<Seq<char>> {
    if set {
        seq![name]
    } else {
        seq![]
    }
}

/// "Unknown (n)".
pub open spec fn unknown_num(n: nat) -> Seq<char> {
    "Unknown ("@ + dec(n) + ")"@
}

fn unknown_num_exec(n: u64) -> (r: String)
    ensures
        r@ == unknown_num(n as nat),
{
    wrap_dec("Unknown (", n, ")")
}

/// A bit-mask value as its set bits' names joined by ", ", "(none)" or `zero`
/// for zero, and "Unknown (n)" when no named bit is set.
pub open spec fn bits_text(value: u16, parts: Seq<Seq<char>>, zero: Seq<char>) -> Seq<char> {
    if value == 0 {
        zero
    } else if parts.len() == 0 {
        unknown_num(value as nat)
    } else {
        join(parts, ", "@)
    }
}

fn bits_text_exec(value: u16, parts: Vec<String>, zero: &str) -> (r: String)
    ensures
        r@ == bits_text(value, views(parts@), zero@),
{
    if value == 0 {
        owned(zero)
    } else if parts.len() == 0 {
        unknown_num_exec(value as u64)
    } else {
        join_strings(&parts, ", ")
    }
}

/// FocusMode's second value as ExifTool prints it.
pub open spec fn focus_mode_bitmask_text(value: u16) -> Seq<char> {
    bits_text(value, focus_mode_bits(value), "(none)"@)
}

fn decode_focus_mode_bitmask(value: u16) -> (r: String)
    ensures
        r@ == focus_mode_bitmask_text(value),
{
    bits_text_exec(value, focus_mode_bit_parts(value), "(none)")
}

/// FlashMode as ExifTool prints it.
pub open spec fn flash_mode_text(value: u16) -> Seq<char> {
    bits_text(value, flash_mode_bits(value), "Off"@)
}

/// Decodes the FlashMode bit mask (ExifTool and exiv2 print it alike).
pub fn decode_flash_mode_exiftool(value: u16) -> (r: String)
    ensures
        r@ == flash_mode_text(value),
{
    bits_text_exec(value, flash_mode_bit_parts(value), "Off")
}

/// NoiseReduction as ExifTool prints it.
pub open spec fn noise_reduction_text(value: u16) -> Seq<char> {
    bits_text(value, noise_reduction_bits(value), "(none)"@)
}

/// Decodes the NoiseReduction bit mask (ExifTool and exiv2 print it alike).
pub fn decode_noise_reduction_exiftool(value: u16) -> (r: String)
    ensures
        r@ == noise_reduction_text(value),
{
    bits_text_exec(value, noise_reduction_bit_parts(value), "(none)")
}

/// NoiseReduction2 as ExifTool prints it.
pub open spec fn noise_reduction2_text(value: u16) -> Seq<char> {
    bits_text(value, noise_reduction2_bits(value), "(none)"@)
}

/// Decodes the NoiseReduction2 bit mask.
pub fn decode_noise_reduction2_exiftool(value: u16) -> (r: String)
    ensures
        r@ == noise_reduction2_text(value),
{
    bits_text_exec(value, noise_reduction2_bit_parts(value), "(none)")
}

// ---------------------------------------------------------------------------
// Special mode
// ---------------------------------------------------------------------------

/// Shooting mode of SpecialMode.
pub open spec fn special_mode_name(v: u32) -> Option<&'static str> {
    match v {
        0 => Some("Normal"),
        1 => Some("Unknown (1)"),
        2 => Some("Fast"),
        3 => Some("Panorama"),
        _ => None,
    }
}

/// Panorama direction of SpecialMode.
pub open spec fn panorama_direction_name(v: u32) -> Option<&'static str> {
    match v {
        0 => Some("(none)"),
        1 => Some("Left to Right"),
        2 => Some("Right to Left"),
        3 => Some("Bottom to Top"),
        4 => Some("Top to Bottom"),
        _ => None,
    }
}

/// Numbers in decimal as `{:?}` prints a slice: "[a, b]".
pub open spec fn debug_list(v: Seq<u32>) -> Seq<char> {
    seq!['['] + join(dec_texts(v.map_values(|x: u32| x as u64)), ", "@) + seq![']']
}

/// SpecialMode as ExifTool prints it.
pub open spec fn special_mode_text(v: Seq<u32>) -> Seq<char> {
    if v.len() < 3 {
        debug_list(v)
    } else {
        match special_mode_name(v[0]) {
            None => "Unknown ("@ + dec(v[0] as nat) + "), Sequence: "@ + dec(v[1] as nat)
                + ", Panorama: Unknown ("@ + dec(v[2] as nat) + ")"@,
            Some(mode) => match panorama_direction_name(v[2]) {
                None => mode@ + ", Sequence: "@ + dec(v[1] as nat) + ", Panorama: Unknown ("@
                    + dec(v[2] as nat) + ")"@,
                Some(p) => mode@ + ", Sequence: "@ + dec(v[1] as nat) + ", Panorama: "@ + p@,
            },
        }
    }
}

fn widen_u32s(v: &[u32]) -> (r: Vec<u64>)
    ensures
        r@ == v@.map_values(|x: u32| x as u64),
{
    let mut out: Vec<u64> = Vec::new();
    let mut i: usize = 0;
    while i < v.len()
        invariant
            i <= v@.len(),
            out@ =~= v@.take(i as int).map_values(|x: u32| x as u64),
        decreases v.len() - i,
    {
        out.push(v[i] as u64);
        i = i + 1;
        proof {
            assert(v@.take(i as int) =~= v@.take(i - 1).push(v@[i - 1]));
        }
    }
    proof {
        assert(v@.take(i as int) =~= v@);
    }
    out
}

/// Decodes SpecialMode: shooting mode, sequence number and panorama direction.
pub fn decode_special_mode(values: &[u32]) -> (r: String)
    ensures
        r@ == special_mode_text(values@),
{
    if values.len() < 3 {
        let wide = widen_u32s(values);
        let mut s = owned("[");
        let inner = join_dec(wide.as_slice(), ", ");
        push_str(&mut s, inner.as_str());
        push_str(&mut s, "]");
        proof {
            reveal_strlit("[");
            reveal_strlit("]");
            assert(s@ =~= special_mode_text(values@));
        }
        return s;
    }
    let mode: &str = match values[0] {
        0 => "Normal",
        1 => "Unknown (1)",
        2 => "Fast",
        3 => "Panorama",
        _ => {
            let mut s = owned("Unknown (");
            push_dec(&mut s, values[0] as u64);
            push_str(&mut s, "), Sequence: ");
            push_dec(&mut s, values[1] as u64);
            push_str(&mut s, ", Panorama: Unknown (");
            push_dec(&mut s, values[2] as u64);
            push_str(&mut s, ")");
            proof {
                assert(s@ =~= special_mode_text(values@));
            }
            return s;
        },
    };
    let mut s = owned(mode);
    push_str(&mut s, ", Sequence: ");
    push_dec(&mut s, values[1] as u64);
    let pano: &str = match values[2] {
        0 => "(none)",
        1 => "Left to Right",
        2 => "Right to Left",
        3 => "Bottom to Top",
        4 => "Top to Bottom",
        _ => {
            push_str(&mut s, ", Panorama: Unknown (");
            push_dec(&mut s, values[2] as u64);
            push_str(&mut s, ")");
            proof {
                assert(s@ =~= special_mode_text(values@));
            }
            return s;
        },
    };
    push_str(&mut s, ", Panorama: ");
    push_str(&mut s, pano);
    proof {
        assert(s@ =~= special_mode_text(values@));
    }
    s
}

/// SpecialMode texts of distinct known shooting modes differ, whatever the
/// sequence numbers and panorama directions; an ordinary shot reads "Normal".
pub proof fn law_special_mode_modes_distinct(m1: u32, m2: u32, s1: u32, s2: u32, d1: u32, d2: u32)
    requires
        m1 <= 3,
        m2 <= 3,
        m1 != m2,
    ensures
        special_mode_text(seq![m1, s1, d1]) != special_mode_text(seq![m2, s2, d2]),
        ({
            let t = special_mode_text(seq![0, s1, d1]);
            let p = "Normal, Sequence: "@ + dec(s1 as nat);
            t.len() >= p.len() && t.take(p.len() as int) == p
        }),
{
    reveal_strlit("Normal");
    reveal_strlit("Unknown (1)");
    reveal_strlit("Fast");
    reveal_strlit("Panorama");
    reveal_strlit(", Sequence: ");
    reveal_strlit("Normal, Sequence: ");
    let v1 = seq![m1, s1, d1];
    let v2 = seq![m2, s2, d2];
    assert(v1[0] == m1 && v1[1] == s1 && v1[2] == d1);
    assert(v2[0] == m2 && v2[1] == s2 && v2[2] == d2);
    let n1 = special_mode_name(m1).unwrap()@;
    let n2 = special_mode_name(m2).unwrap()@;
    let t1 = special_mode_text(v1);
    let t2 = special_mode_text(v2);
    assert(t1[0] == n1[0]);
    assert(t2[0] == n2[0]);
    assert(n1[0] != n2[0]);
    let v0 = seq![0u32, s1, d1];
    assert(v0[0] == 0 && v0[1] == s1 && v0[2] == d1);
    let p: Seq<char> = "Normal, Sequence: "@ + dec(s1 as nat);
    let t0 = special_mode_text(v0);
    assert(p =~= "Normal"@ + ", Sequence: "@ + dec(s1 as nat));
    assert(t0.take(p.len() as int) =~= p);
}

/// A SpecialMode of a known shooting mode shows the panorama direction last:
/// direction 0 means no panorama and reads "(none)", the directions 1 to 4
/// read as their names, and any other direction is shown as "Unknown (n)".
/// With mode and sequence fixed, distinct directions give distinct texts.
pub proof fn law_special_mode_panorama(m: u32, s: u32, d1: u32, d2: u32)
    requires
        m <= 3,
    ensures
        ends_with(special_mode_text(seq![m, s, 0]), ", Panorama: (none)"@),
        ends_with(special_mode_text(seq![m, s, 1]), ", Panorama: Left to Right"@),
        ends_with(special_mode_text(seq![m, s, 2]), ", Panorama: Right to Left"@),
        ends_with(special_mode_text(seq![m, s, 3]), ", Panorama: Bottom to Top"@),
        ends_with(special_mode_text(seq![m, s, 4]), ", Panorama: Top to Bottom"@),
        d1 > 4 ==> ends_with(
            special_mode_text(seq![m, s, d1]),
            ", Panorama: Unknown ("@ + dec(d1 as nat) + ")"@,
        ),
        d1 <= 4 && d2 <= 4 && d1 != d2 ==> special_mode_text(seq![m, s, d1]) != special_mode_text(
            seq![m, s, d2],
        ),
{
    reveal_strlit(", Panorama: ");
    reveal_strlit("(none)");
    reveal_strlit("Left to Right");
    reveal_strlit("Right to Left");
    reveal_strlit("Bottom to Top");
    reveal_strlit("Top to Bottom");
    reveal_strlit(", Panorama: (none)");
    reveal_strlit(", Panorama: Left to Right");
    reveal_strlit(", Panorama: Right to Left");
    reveal_strlit(", Panorama: Bottom to Top");
    reveal_strlit(", Panorama: Top to Bottom");
    reveal_strlit(", Panorama: Unknown (");
    let mode: &'static str = special_mode_name(m).unwrap();
    let head: Seq<char> = mode@ + ", Sequence: "@ + dec(s as nat) + ", Panorama: "@;
    assert forall|d: u32| d <= 4 implies special_mode_text(seq![m, s, d]) == head
        + panorama_direction_name(d).unwrap()@ by {
        assert(seq![m, s, d][0] == m && seq![m, s, d][2] == d && seq![m, s, d][1] == s);
    }
    assert forall|d: u32, tail: Seq<char>|
        #![trigger ends_with(head + panorama_direction_name(d).unwrap()@, ", Panorama: "@ + tail)]
        d <= 4 && tail == panorama_direction_name(d).unwrap()@ implies ends_with(
        head + panorama_direction_name(d).unwrap()@,
        ", Panorama: "@ + tail,
    ) by {
        let t = head + tail;
        assert(t.skip(t.len() - (", Panorama: "@ + tail).len()) =~= ", Panorama: "@ + tail);
    }
    assert(", Panorama: (none)"@ =~= ", Panorama: "@ + "(none)"@);
    assert(", Panorama: Left to Right"@ =~= ", Panorama: "@ + "Left to Right"@);
    assert(", Panorama: Right to Left"@ =~= ", Panorama: "@ + "Right to Left"@);
    assert(", Panorama: Bottom to Top"@ =~= ", Panorama: "@ + "Bottom to Top"@);
    assert(", Panorama: Top to Bottom"@ =~= ", Panorama: "@ + "Top to Bottom"@);
    assert(ends_with(head + panorama_direction_name(0).unwrap()@, ", Panorama: "@ + "(none)"@));
    assert(ends_with(head + panorama_direction_name(1).unwrap()@, ", Panorama: "@ + "Left to Right"@));
    assert(ends_with(head + panorama_direction_name(2).unwrap()@, ", Panorama: "@ + "Right to Left"@));
    assert(ends_with(head + panorama_direction_name(3).unwrap()@, ", Panorama: "@ + "Bottom to Top"@));
    assert(ends_with(head + panorama_direction_name(4).unwrap()@, ", Panorama: "@ + "Top to Bottom"@));
    if d1 > 4 {
        let v = seq![m, s, d1];
        assert(v[0] == m && v[1] == s && v[2] == d1);
        let tail: Seq<char> = ", Panorama: Unknown ("@ + dec(d1 as nat) + ")"@;
        let t = special_mode_text(v);
        assert(t =~= mode@ + ", Sequence: "@ + dec(s as nat) + tail);
        assert(t.skip(t.len() - tail.len()) =~= tail);
    }
    if d1 <= 4 && d2 <= 4 && d1 != d2 {
        let p1 = panorama_direction_name(d1).unwrap()@;
        let p2 = panorama_direction_name(d2).unwrap()@;
        assert(special_mode_text(seq![m, s, d1]) == head + p1);
        assert(special_mode_text(seq![m, s, d2]) == head + p2);
        assert(p1[0] != p2[0]);
        if head + p1 == head + p2 {
            assert((head + p1).skip(head.len() as int) =~= p1);
            assert((head + p2).skip(head.len() as int) =~= p2);
        }
    }
}

// ---------------------------------------------------------------------------
// Equipment values
// ---------------------------------------------------------------------------

/// Extender name from its make and model.
pub open spec fn extender_name(make: u16, model: u16) -> Option<&'static str> {
    match (make, model) {
        (0, 0) => Some("None"),
        (1, 0x10) => Some("Olympus Zuiko Digital EC-14 1.4x Teleconverter"),
        (1, 0x20) => Some("Olympus EX-25 Extension Tube"),
        (1, 0x30) => Some("Olympus Zuiko Digital EC-20 2x Teleconverter"),
        _ => None,
    }
}

/// Extender as ExifTool prints it: its name, or "make model" with the model in hex.
pub open spec fn extender_text(make: u16, model: u16) -> Seq<char> {
    match extender_name(make, model) {
        Some(n) => n@,
        None => dec(make as nat) + seq![' '] + zero_pad(hex(model as nat, false), 2),
    }
}

fn decode_extender(make: u16, model: u16) -> (r: ExifValue)
    ensures
        r@ == ValueView::Ascii(extender_text(make, model)),
{
    let name: &str = match (make, model) {
        (0, 0) => "None",
        (1, 0x10) => "Olympus Zuiko Digital EC-14 1.4x Teleconverter",
        (1, 0x20) => "Olympus EX-25 Extension Tube",
        (1, 0x30) => "Olympus Zuiko Digital EC-20 2x Teleconverter",
        _ => {
            let mut s = fmt_dec(make as u64);
            push_char(&mut s, ' ');
            let mut h = String::new();
            push_hex(&mut h, model as u64, false);
            let hl = h.unicode_len();
            if hl < 2 {
                push_zeros(&mut s, 2 - hl);
            }
            push_str(&mut s, h.as_str());
            proof {
                assert(s@ =~= extender_text(make, model));
            }
            return ExifValue::Ascii(s);
        },
    };
    ExifValue::Ascii(owned(name))
}

/// Olympus lens name from the LensType bytes (make, model and subtype in bytes 1 to 3).
pub open spec fn lens_name_of(bytes: Seq<u8>) -> Option<&'static str> {
    if bytes.len() < 4 {
        None
    } else {
        olympus_lens_name(bytes[1], bytes[2], bytes[3])
    }
}

/// Looks up the lens named by the LensType bytes.
pub fn get_olympus_lens_name(bytes: &[u8]) -> (r: Option<&'static str>)
    ensures
        r == lens_name_of(bytes@),
{
    if bytes.len() < 4 {
        return None;
    }
    olympus_lens_lookup(bytes[1], bytes[2], bytes[3])
}

/// A firmware version as ExifTool prints it: hexadecimal, with a '.' before
/// the last three digits when there are at least four.
pub open spec fn firmware_version_text(val: u32) -> Seq<char> {
    let h = hex(val as nat, false);
    if h.len() >= 4 {
        h.take(h.len() - 3) + seq!['.'] + h.skip(h.len() - 3)
    } else {
        h
    }
}

fn format_firmware_version(val: u32) -> (r: String)
    ensures
        r@ == firmware_version_text(val),
{
    let mut h = String::new();
    push_hex(&mut h, val as u64, false);
    let n = h.unicode_len();
    if n >= 4 {
        let mut s = owned(h.as_str().substring_char(0, n - 3));
        push_char(&mut s, '.');
        push_str(&mut s, h.as_str().substring_char(n - 3, n));
        proof {
            assert(s@ =~= firmware_version_text(val));
        }
        s
    } else {
        h
    }
}

// ---------------------------------------------------------------------------
// Camera settings values
// ---------------------------------------------------------------------------

/// Gradation type of its first three values.
pub open spec fn gradation_name(a: i16, b: i16, c: i16) -> Option<&'static str> {
    match (a, b, c) {
        (0, 0, 0) => Some("n/a"),
        (-1, -1, 1) => Some("Low Key"),
        (0, -1, 1) => Some("Normal"),
        (1, -1, 1) => Some("High Key"),
        _ => None,
    }
}

/// Signed values in decimal, joined by spaces.
pub open spec fn i16_list(v: Seq<i16>) -> Seq<char> {
    join(int_texts(v.map_values(|x: i16| x as i64)), " "@)
}

fn i16_list_exec(v: &[i16]) -> (r: String)
    ensures
        r@ == i16_list(v@),
{
    let mut w: Vec<i64> = Vec::new();
    let mut i: usize = 0;
    while i < v.len()
        invariant
            i <= v@.len(),
            w@ =~= v@.take(i as int).map_values(|x: i16| x as i64),
        decreases v.len() - i,
    {
        w.push(v[i] as i64);
        i = i + 1;
        proof {
            assert(v@.take(i as int) =~= v@.take(i - 1).push(v@[i - 1]));
        }
    }
    proof {
        assert(v@.take(i as int) =~= v@);
    }
    join_int(w.as_slice(), " ")
}

/// The values of an SHORT array taken as signed.
pub open spec fn as_signed(v: Seq<u16>) -> Seq<i16> {
    v.map_values(|x: u16| x as i16)
}

fn as_signed_exec(v: &[u16]) -> (r: Vec<i16>)
    ensures
        r@ == as_signed(v@),
{
    let mut w: Vec<i16> = Vec::new();
    let mut i: usize = 0;
    while i < v.len()
        invariant
            i <= v@.len(),
            w@ =~= v@.take(i as int).map_values(|x: u16| x as i16),
        decreases v.len() - i,
    {
        w.push(v[i] as i16);
        i = i + 1;
        proof {
            assert(v@.take(i as int) =~= v@.take(i - 1).push(v@[i - 1]));
        }
    }
    proof {
        assert(v@.take(i as int) =~= v@);
    }
    w
}

/// Gradation as ExifTool prints it.
pub open spec fn gradation_text(v: Seq<i16>) -> Seq<char> {
    if v.len() < 3 {
        i16_list(v)
    } else {
        match gradation_name(v[0], v[1], v[2]) {
            None => i16_list(v),
            Some(g) => if v.len() >= 4 {
                if v[3] == 0 {
                    g@ + "; "@ + "User-Selected"@
                } else if v[3] == 1 {
                    g@ + "; "@ + "Auto-Override"@
                } else {
                    g@ + "; "@ + int_dec(v[3] as int)
                }
            } else {
                g@
            },
        }
    }
}

fn decode_gradation(vals: &[i16]) -> (r: String)
    ensures
        r@ == gradation_text(vals@),
{
    if vals.len() < 3 {
        return i16_list_exec(vals);
    }
    let g: &str = match (vals[0], vals[1], vals[2]) {
        (0, 0, 0) => "n/a",
        (-1, -1, 1) => "Low Key",
        (0, -1, 1) => "Normal",
        (1, -1, 1) => "High Key",
        _ => {
            return i16_list_exec(vals);
        },
    };
    if vals.len() >= 4 {
        let mut s = owned(g);
        push_str(&mut s, "; ");
        if vals[3] == 0 {
            push_str(&mut s, "User-Selected");
        } else if vals[3] == 1 {
            push_str(&mut s, "Auto-Override");
        } else {
            push_int(&mut s, vals[3] as i64);
        }
        proof {
            assert(s@ =~= gradation_text(vals@));
        }
        s
    } else {
        owned(g)
    }
}

/// NoiseFilter name of its (setting, min, max) values.
pub open spec fn noise_filter_name(v: Seq<i16>) -> Option<&'static str> {
    if v.len() < 3 {
        None
    } else {
        match (v[0], v[1], v[2]) {
            (0, 0, 0) => Some("n/a"),
            (-2, -2, 1) => Some("Off"),
            (-1, -2, 1) => Some("Low"),
            (0, -2, 1) => Some("Standard"),
            (1, -2, 1) => Some("High"),
            _ => None,
        }
    }
}

fn decode_noise_filter(vals: &[i16]) -> (r: Option<&'static str>)
    ensures
        r == noise_filter_name(vals@),
{
    if vals.len() < 3 {
        return None;
    }
    match (vals[0], vals[1], vals[2]) {
        (0, 0, 0) => Some("n/a"),
        (-2, -2, 1) => Some("Off"),
        (-1, -2, 1) => Some("Low"),
        (0, -2, 1) => Some("Standard"),
        (1, -2, 1) => Some("High"),
        _ => None,
    }
}

/// A setting with its range: "v (min a, max b)" for three or more values,
/// the values joined by spaces otherwise.
pub open spec fn min_max_text(v: Seq<i16>) -> Seq<char> {
    if v.len() >= 3 {
        int_dec(v[0] as int) + " (min "@ + int_dec(v[1] as int) + ", max "@ + int_dec(v[2] as int)
            + ")"@
    } else {
        i16_list(v)
    }
}

fn format_min_max_array(values: &[i16]) -> (r: String)
    ensures
        r@ == min_max_text(values@),
{
    if values.len() >= 3 {
        let mut s = fmt_int(values[0] as i64);
        push_str(&mut s, " (min ");
        push_int(&mut s, values[1] as i64);
        push_str(&mut s, ", max ");
        push_int(&mut s, values[2] as i64);
        push_str(&mut s, ")");
        proof {
            assert(s@ =~= min_max_text(values@));
        }
        s
    } else {
        i16_list_exec(values)
    }
}

fn format_min_max_array_u16(values: &[u16]) -> (r: String)
    ensures
        r@ == min_max_text(as_signed(values@)),
{
    let signed = as_signed_exec(values);
    format_min_max_array(signed.as_slice())
}

/// CustomSaturation of the E-1: "CSa (min CS0, max CSc)", counted from the minimum.
pub open spec fn custom_saturation_e1_text(v: Seq<i16>) -> Seq<char> {
    if v.len() >= 3 {
        "CS"@ + int_dec(v[0] - v[1]) + " (min CS0, max CS"@ + int_dec(v[2] - v[1]) + ")"@
    } else {
        i16_list(v)
    }
}

fn format_custom_saturation_e1(values: &[i16]) -> (r: String)
    ensures
        r@ == custom_saturation_e1_text(values@),
{
    if values.len() >= 3 {
        let a: i64 = values[0] as i64 - values[1] as i64;
        let c: i64 = values[2] as i64 - values[1] as i64;
        let mut s = owned("CS");
        push_int(&mut s, a);
        push_str(&mut s, " (min CS0, max CS");
        push_int(&mut s, c);
        push_str(&mut s, ")");
        proof {
            assert(s@ =~= custom_saturation_e1_text(values@));
        }
        s
    } else {
        i16_list_exec(values)
    }
}

/// Shooting mode named by DriveMode's sixth value.
pub open spec fn drive_shooting_mode_name(v: u16) -> Option<&'static str> {
    match v {
        0x01 => Some("Single Shot"),
        0x02 => Some("Sequential L"),
        0x03 => Some("Sequential H"),
        0x07 => Some("Sequential"),
        0x11 => Some("Single Shot"),
        0x12 => Some("Sequential L"),
        0x13 => Some("Sequential H"),
        0x14 => Some("Self-Timer 12 sec"),
        0x15 => Some("Self-Timer 2 sec"),
        0x16 => Some("Custom Self-Timer"),
        0x17 => Some("Sequential"),
        0x21 => Some("Single Shot"),
        0x22 => Some("Sequential L"),
        0x23 => Some("Sequential H"),
        0x24 => Some("Self-Timer 2 sec"),
        0x25 => Some("Self-Timer 12 sec"),
        0x26 => Some("Custom Self-Timer"),
        0x27 => Some("Sequential"),
        0x28 => Some("Sequential SH1"),
        0x29 => Some("Sequential SH2"),
        0x30 => Some("HighRes Shot"),
        0x41 => Some("ProCap H"),
        0x42 => Some("ProCap L"),
        0x43 => Some("ProCap"),
        0x48 => Some("ProCap SH1"),
        0x49 => Some("ProCap SH2"),
        _ => None,
    }
}

/// Distinct drive shooting mode codes that the table knows read as distinct names,
/// but for the codes that share one name.
pub proof fn law_drive_shooting_mode_names_distinct(a: u16, b: u16)
    requires
        a != b,
        drive_shooting_mode_name(a) is Some,
        drive_shooting_mode_name(b) is Some,
    ensures
        drive_shooting_mode_name(a) != drive_shooting_mode_name(b) || ((a == 0x01 || a == 0x11 || a == 0x21) && (b == 0x01 || b == 0x11 || b == 0x21)) || ((a == 0x02 || a == 0x12 || a == 0x22) && (b == 0x02 || b == 0x12 || b == 0x22)) || ((a == 0x03 || a == 0x13 || a == 0x23) && (b == 0x03 || b == 0x13 || b == 0x23)) || ((a == 0x07 || a == 0x17 || a == 0x27) && (b == 0x07 || b == 0x17 || b == 0x27)) || ((a == 0x14 || a == 0x25) && (b == 0x14 || b == 0x25)) || ((a == 0x15 || a == 0x24) && (b == 0x15 || b == 0x24)) || ((a == 0x16 || a == 0x26) && (b == 0x16 || b == 0x26)),
{
    reveal_strlit("Custom Self-Timer");
    reveal_strlit("HighRes Shot");
    reveal_strlit("ProCap");
    reveal_strlit("ProCap H");
    reveal_strlit("ProCap L");
    reveal_strlit("ProCap SH1");
    reveal_strlit("ProCap SH2");
    reveal_strlit("Self-Timer 12 sec");
    reveal_strlit("Self-Timer 2 sec");
    reveal_strlit("Sequential");
    reveal_strlit("Sequential H");
    reveal_strlit("Sequential L");
    reveal_strlit("Sequential SH1");
    reveal_strlit("Sequential SH2");
    reveal_strlit("Single Shot");
}

/// Basic drive mode name.
pub open spec fn drive_basic_mode_name(v: u16) -> Option<&'static str> {
    match v {
        0 => Some("Single Shot"),
        1 => Some("Continuous Shooting"),
        2 => Some("Exposure Bracketing"),
        3 => Some("White Balance Bracketing"),
        4 => Some("Exposure+WB Bracketing"),
        5 => Some("Bracketing"),
        _ => None,
    }
}

/// Distinct drive basic mode codes that the table knows read as distinct names.
pub proof fn law_drive_basic_mode_names_distinct(a: u16, b: u16)
    requires
        a != b,
        drive_basic_mode_name(a) is Some,
        drive_basic_mode_name(b) is Some,
    ensures
        drive_basic_mode_name(a) != drive_basic_mode_name(b),
{
    reveal_strlit("Bracketing");
    reveal_strlit("Continuous Shooting");
    reveal_strlit("Exposure Bracketing");
    reveal_strlit("Exposure+WB Bracketing");
    reveal_strlit("Single Shot");
    reveal_strlit("White Balance Bracketing");
}

/// ", Shot n" when a shot number is given.
pub open spec fn shot_suffix(v: Seq<u16>) -> Seq<char> {
    if v.len() > 1 && v[1] > 0 {
        ", Shot "@ + dec(v[1] as nat)
    } else {
        seq![]
    }
}

/// The shutter named by DriveMode's fifth value.
pub open spec fn shutter_suffix(v: Seq<u16>) -> Seq<char> {
    if v.len() >= 5 && v[4] == 0 {
        "; Mechanical shutter"@
    } else if v.len() >= 5 && v[4] == 2 {
        "; Anti-shock"@
    } else {
        seq![]
    }
}

/// DriveMode as ExifTool prints it.
pub open spec fn drive_mode_text(v: Seq<u16>) -> Seq<char> {
    if v.len() == 0 {
        seq![]
    } else if v.len() >= 6 && v[5] != 0 {
        match drive_shooting_mode_name(v[5]) {
            None => unknown_num(v[5] as nat),
            Some(m) => m@ + shot_suffix(v) + shutter_suffix(v),
        }
    } else if v[0] == 5 && v.len() >= 3 {
        let kinds = bracket_bits(v[2]);
        (if kinds.len() == 0 {
            "Bracketing"@
        } else {
            join(kinds, "+"@) + " Bracketing"@
        }) + shot_suffix(v) + shutter_suffix(v)
    } else {
        match drive_basic_mode_name(v[0]) {
            None => unknown_num(v[0] as nat),
            Some(m) => m@ + shot_suffix(v) + shutter_suffix(v),
        }
    }
}

fn shot_suffix_exec(v: &[u16]) -> (r: String)
    ensures
        r@ == shot_suffix(v@),
{
    if v.len() > 1 && v[1] > 0 {
        let mut s = owned(", Shot ");
        push_dec(&mut s, v[1] as u64);
        s
    } else {
        String::new()
    }
}

fn shutter_suffix_exec(v: &[u16]) -> (r: &'static str)
    ensures
        r@ == shutter_suffix(v@),
{
    if v.len() >= 5 && v[4] == 0 {
        "; Mechanical shutter"
    } else if v.len() >= 5 && v[4] == 2 {
        "; Anti-shock"
    } else {
        proof {
            reveal_strlit("");
        }
        ""
    }
}

fn decode_drive_mode(values: &[u16]) -> (r: String)
    ensures
        r@ == drive_mode_text(values@),
{
    if values.len() == 0 {
        return String::new();
    }
    let shot = shot_suffix_exec(values);
    let shutter = shutter_suffix_exec(values);
    if values.len() >= 6 && values[5] != 0 {
        let m: &str = match values[5] {
            0x01 => "Single Shot",
            0x02 => "Sequential L",
            0x03 => "Sequential H",
            0x07 => "Sequential",
            0x11 => "Single Shot",
            0x12 => "Sequential L",
            0x13 => "Sequential H",
            0x14 => "Self-Timer 12 sec",
            0x15 => "Self-Timer 2 sec",
            0x16 => "Custom Self-Timer",
            0x17 => "Sequential",
            0x21 => "Single Shot",
            0x22 => "Sequential L",
            0x23 => "Sequential H",
            0x24 => "Self-Timer 2 sec",
            0x25 => "Self-Timer 12 sec",
            0x26 => "Custom Self-Timer",
            0x27 => "Sequential",
            0x28 => "Sequential SH1",
            0x29 => "Sequential SH2",
            0x30 => "HighRes Shot",
            0x41 => "ProCap H",
            0x42 => "ProCap L",
            0x43 => "ProCap",
            0x48 => "ProCap SH1",
            0x49 => "ProCap SH2",
            _ => {
                return unknown_num_exec(values[5] as u64);
            },
        };
        let mut s = owned(m);
        push_str(&mut s, shot.as_str());
        push_str(&mut s, shutter);
        proof {
            assert(s@ =~= drive_mode_text(values@));
        }
        return s;
    }
    if values[0] == 5 && values.len() >= 3 {
        let kinds = bracket_bit_parts(values[2]);
        let mut s = if kinds.len() == 0 {
            owned("Bracketing")
        } else {
            let mut t = join_strings(&kinds, "+");
            push_str(&mut t, " Bracketing");
            t
        };
        push_str(&mut s, shot.as_str());
        push_str(&mut s, shutter);
        proof {
            assert(s@ =~= drive_mode_text(values@));
        }
        return s;
    }
    let m: &str = match values[0] {
        0 => "Single Shot",
        1 => "Continuous Shooting",
        2 => "Exposure Bracketing",
        3 => "White Balance Bracketing",
        4 => "Exposure+WB Bracketing",
        5 => "Bracketing",
        _ => {
            return unknown_num_exec(values[0] as u64);
        },
    };
    let mut s = owned(m);
    push_str(&mut s, shot.as_str());
    push_str(&mut s, shutter);
    proof {
        assert(s@ =~= drive_mode_text(values@));
    }
    s
}

/// PictureMode with its optional second value.
pub open spec fn picture_mode_array_text(v: Seq<u16>) -> Seq<char> {
    if v.len() == 0 {
        seq![]
    } else if picture_mode_name(v[0])@ == "Unknown"@ {
        unknown_num(v[0] as nat)
    } else if v.len() >= 2 && v[1] != 0 {
        picture_mode_name(v[0])@ + "; "@ + dec(v[1] as nat)
    } else {
        picture_mode_name(v[0])@
    }
}

fn decode_picture_mode_array(values: &[u16]) -> (r: String)
    ensures
        r@ == picture_mode_array_text(values@),
{
    if values.len() == 0 {
        return String::new();
    }
    let mode = decode_picture_mode(values[0]);
    if str_eq(mode, "Unknown") {
        return unknown_num_exec(values[0] as u64);
    }
    if values.len() >= 2 && values[1] != 0 {
        let mut s = owned(mode);
        push_str(&mut s, "; ");
        push_dec(&mut s, values[1] as u64);
        s
    } else {
        owned(mode)
    }
}

/// A decoded first value followed by the others, all joined by "; ".
pub open spec fn first_and_rest(first: Seq<char>, v: Seq<u16>) -> Seq<char> {
    if v.len() <= 1 {
        first
    } else {
        first + "; "@ + join(dec_texts(v.skip(1).map_values(|x: u16| x as u64)), "; "@)
    }
}

fn first_and_rest_exec(first: &str, v: &[u16]) -> (r: String)
    requires
        v@.len() >= 1,
    ensures
        r@ == first_and_rest(first@, v@),
{
    if v.len() <= 1 {
        return owned(first);
    }
    let mut w: Vec<u64> = Vec::new();
    let mut i: usize = 1;
    while i < v.len()
        invariant
            1 <= i <= v@.len(),
            w@ =~= v@.subrange(1, i as int).map_values(|x: u16| x as u64),
        decreases v.len() - i,
    {
        w.push(v[i] as u64);
        i = i + 1;
        proof {
            assert(v@.subrange(1, i as int) =~= v@.subrange(1, i - 1).push(v@[i - 1]));
        }
    }
    proof {
        assert(v@.subrange(1, i as int) =~= v@.skip(1));
    }
    let mut s = owned(first);
    push_str(&mut s, "; ");
    let rest = join_dec(w.as_slice(), "; ");
    push_str(&mut s, rest.as_str());
    s
}

// ---------------------------------------------------------------------------
// Focus info values
// ---------------------------------------------------------------------------

/// FocusInfo ImageStabilization as ExifTool prints it.
pub open spec fn fi_image_stabilization_text(data: Seq<u8>) -> Seq<char> {
    if data.len() < 4 {
        "Unknown"@
    } else if data[0] == 0 && data[1] == 0 && data[2] == 0 && data[3] == 0 {
        "Off"@
    } else if data.len() > 44 {
        if data[44] & 0x01 != 0 {
            "On, Mode 1"@
        } else {
            "On, Mode 2"@
        }
    } else {
        "On"@
    }
}

/// Decodes FocusInfo ImageStabilization: "Off" when the first four bytes are
/// zero, otherwise "On" with the mode from bit 0 of byte 44.
pub fn decode_fi_image_stabilization(data: &[u8]) -> (r: String)
    ensures
        r@ == fi_image_stabilization_text(data@),
{
    if data.len() < 4 {
        return owned("Unknown");
    }
    if data[0] == 0 && data[1] == 0 && data[2] == 0 && data[3] == 0 {
        return owned("Off");
    }
    if data.len() > 44 {
        let mode = if data[44] & 0x01 != 0 {
            "Mode 1"
        } else {
            "Mode 2"
        };
        let mut s = owned("On, ");
        push_str(&mut s, mode);
        proof {
            reveal_strlit("On, ");
            reveal_strlit("Mode 1");
            reveal_strlit("Mode 2");
            reveal_strlit("On, Mode 1");
            reveal_strlit("On, Mode 2");
            assert(s@ =~= fi_image_stabilization_text(data@));
        }
        s
    } else {
        owned("On")
    }
}

/// AF point of the E-3, E-5 and E-30 (lower five bits).
pub open spec fn af_point_11_name(p: u16) -> Option<&'static str> {
    match p {
        0x00 => Some("(none)"),
        0x01 => Some("Top-left (horizontal)"),
        0x02 => Some("Top-center (horizontal)"),
        0x03 => Some("Top-right (horizontal)"),
        0x04 => Some("Left (horizontal)"),
        0x05 => Some("Mid-left (horizontal)"),
        0x06 => Some("Center (horizontal)"),
        0x07 => Some("Mid-right (horizontal)"),
        0x08 => Some("Right (horizontal)"),
        0x09 => Some("Bottom-left (horizontal)"),
        0x0a => Some("Bottom-center (horizontal)"),
        0x0b => Some("Bottom-right (horizontal)"),
        0x0c => Some("Top-left (vertical)"),
        0x0d => Some("Top-center (vertical)"),
        0x0e => Some("Top-right (vertical)"),
        0x0f => Some("Left (vertical)"),
        0x10 => Some("Mid-left (vertical)"),
        0x11 => Some("Center (vertical)"),
        0x12 => Some("Mid-right (vertical)"),
        0x13 => Some("Right (vertical)"),
        0x14 => Some("Bottom-left (vertical)"),
        0x15 => Some("Bottom-center (vertical)"),
        0x16 => Some("Bottom-right (vertical)"),
        0x1f => Some("n/a"),
        _ => None,
    }
}

/// Target mode of the E-3, E-5 and E-30 (upper bits).
pub open spec fn af_mode_11_name(m: u16) -> Option<&'static str> {
    match m {
        0x00 => Some("Single Target"),
        0x40 => Some("All Target"),
        0x80 => Some("Dynamic Single Target"),
        0xe0 => Some("n/a"),
        _ => None,
    }
}

/// "Unknown (0xh)" with `h` in lower-case hexadecimal.
pub open spec fn unknown_hex(n: nat) -> Seq<char> {
    "Unknown (0x"@ + hex(n, false) + ")"@
}

fn unknown_hex_exec(n: u64) -> (r: String)
    ensures
        r@ == unknown_hex(n as nat),
{
    let mut s = owned("Unknown (0x");
    push_hex(&mut s, n, false);
    push_str(&mut s, ")");
    s
}

/// AFPoint of the E-3, E-5 and E-30.
pub open spec fn af_point_11_text(value: u16) -> Seq<char> {
    let p = value & 0x1f;
    let m = value & 0xffe0;
    match af_point_11_name(p) {
        None => unknown_hex(value as nat),
        Some(ps) => match af_mode_11_name(m) {
            None => ps@ + "; "@ + unknown_hex(m as nat),
            Some(ms) => ps@ + "; "@ + ms@,
        },
    }
}

fn decode_af_point_e3_e5_e30(value: u16) -> (r: String)
    ensures
        r@ == af_point_11_text(value),
{
    let point = value & 0x1f;
    let mode = value & 0xffe0;
    let ps: &str = match point {
        0x00 => "(none)",
        0x01 => "Top-left (horizontal)",
        0x02 => "Top-center (horizontal)",
        0x03 => "Top-right (horizontal)",
        0x04 => "Left (horizontal)",
        0x05 => "Mid-left (horizontal)",
        0x06 => "Center (horizontal)",
        0x07 => "Mid-right (horizontal)",
        0x08 => "Right (horizontal)",
        0x09 => "Bottom-left (horizontal)",
        0x0a => "Bottom-center (horizontal)",
        0x0b => "Bottom-right (horizontal)",
        0x0c => "Top-left (vertical)",
        0x0d => "Top-center (vertical)",
        0x0e => "Top-right (vertical)",
        0x0f => "Left (vertical)",
        0x10 => "Mid-left (vertical)",
        0x11 => "Center (vertical)",
        0x12 => "Mid-right (vertical)",
        0x13 => "Right (vertical)",
        0x14 => "Bottom-left (vertical)",
        0x15 => "Bottom-center (vertical)",
        0x16 => "Bottom-right (vertical)",
        0x1f => "n/a",
        _ => {
            return unknown_hex_exec(value as u64);
        },
    };
    let mut s = owned(ps);
    push_str(&mut s, "; ");
    match mode {
        0x00 => push_str(&mut s, "Single Target"),
        0x40 => push_str(&mut s, "All Target"),
        0x80 => push_str(&mut s, "Dynamic Single Target"),
        0xe0 => push_str(&mut s, "n/a"),
        _ => {
            let u = unknown_hex_exec(mode as u64);
            push_str(&mut s, u.as_str());
        },
    }
    proof {
        assert(s@ =~= af_point_11_text(value));
    }
    s
}

/// AF point of the E-520, E-600 and E-620 (lower five bits).
pub open spec fn af_point_7_name(p: u16) -> Option<&'static str> {
    match p {
        0x00 => Some("(none)"),
        0x02 => Some("Top-center (horizontal)"),
        0x04 => Some("Right (horizontal)"),
        0x05 => Some("Mid-right (horizontal)"),
        0x06 => Some("Center (horizontal)"),
        0x07 => Some("Mid-left (horizontal)"),
        0x08 => Some("Left (horizontal)"),
        0x0a => Some("Bottom-center (horizontal)"),
        0x0c => Some("Top-center (vertical)"),
        0x0f => Some("Right (vertical)"),
        0x10 => Some("Mid-right (vertical)"),
        0x11 => Some("Center (vertical)"),
        0x12 => Some("Mid-left (vertical)"),
        0x13 => Some("Left (vertical)"),
        0x15 => Some("Bottom-center (vertical)"),
        _ => None,
    }
}

/// AFPoint of the E-520, E-600 and E-620.
pub open spec fn af_point_7_text(value: u16) -> Seq<char> {
    let p = value & 0x1f;
    let m = value & 0xffe0;
    let ps = match af_point_7_name(p) {
        Some(n) => n@,
        None => unknown_hex(value as nat),
    };
    if m == 0 {
        ps + "; "@ + "Single Target"@
    } else if m == 0x40 {
        ps + "; "@ + "All Target"@
    } else {
        ps + "; "@ + unknown_hex(m as nat)
    }
}

fn decode_af_point_7point(value: u16) -> (r: String)
    ensures
        r@ == af_point_7_text(value),
{
    let point = value & 0x1f;
    let mode = value & 0xffe0;
    let mut s = match point {
        0x00 => owned("(none)"),
        0x02 => owned("Top-center (horizontal)"),
        0x04 => owned("Right (horizontal)"),
        0x05 => owned("Mid-right (horizontal)"),
        0x06 => owned("Center (horizontal)"),
        0x07 => owned("Mid-left (horizontal)"),
        0x08 => owned("Left (horizontal)"),
        0x0a => owned("Bottom-center (horizontal)"),
        0x0c => owned("Top-center (vertical)"),
        0x0f => owned("Right (vertical)"),
        0x10 => owned("Mid-right (vertical)"),
        0x11 => owned("Center (vertical)"),
        0x12 => owned("Mid-left (vertical)"),
        0x13 => owned("Left (vertical)"),
        0x15 => owned("Bottom-center (vertical)"),
        _ => unknown_hex_exec(value as u64),
    };
    push_str(&mut s, "; ");
    if mode == 0 {
        push_str(&mut s, "Single Target");
    } else if mode == 0x40 {
        push_str(&mut s, "All Target");
    } else {
        let u = unknown_hex_exec(mode as u64);
        push_str(&mut s, u.as_str());
    }
    proof {
        assert(s@ =~= af_point_7_text(value));
    }
    s
}

/// AFPoint as ExifTool prints it for the given camera model.
pub open spec fn af_point_by_model_text(value: u16, model: Option<Seq<char>>) -> Seq<char> {
    let raw = af_point_exiftool(value)@;
    let basic = if raw == "Unknown"@ {
        unknown_num(value as nat)
    } else {
        raw
    };
    match model {
        Some(m) => if m.len() >= 3 && (m.take(3) == "E-M"@ || m.take(3) == "OM-"@) {
            dec(value as nat)
        } else if m == "E-3"@ || m == "E-5"@ || m == "E-30"@ {
            af_point_11_text(value)
        } else if m == "E-520"@ || m == "E-600"@ || m == "E-620"@ {
            af_point_7_text(value)
        } else {
            basic
        },
        None => basic,
    }
}

/// Decodes AFPoint for the camera model: E-M and OM models show the raw
/// value, the E-3/E-5/E-30 and E-520/E-600/E-620 their own point layouts,
/// other models the basic four points.
pub fn decode_af_point_by_model(value: u16, model: Option<&str>) -> (r: String)
    ensures
        r@ == af_point_by_model_text(
            value,
            match model {
                Some(m) => Some(m@),
                None => None,
            },
        ),
{
    proof {
        reveal_strlit("E-M");
        reveal_strlit("OM-");
    }
    if let Some(m) = model {
        if starts_with(m, "E-M") || starts_with(m, "OM-") {
            return fmt_dec(value as u64);
        }
        if str_eq(m, "E-3") || str_eq(m, "E-5") || str_eq(m, "E-30") {
            return decode_af_point_e3_e5_e30(value);
        }
        if str_eq(m, "E-520") || str_eq(m, "E-600") || str_eq(m, "E-620") {
            return decode_af_point_7point(value);
        }
    }
    let decoded = decode_af_point_exiftool(value);
    if str_eq(decoded, "Unknown") {
        unknown_num_exec(value as u64)
    } else {
        owned(decoded)
    }
}

/// ManualFlash as ExifTool prints it.
pub open spec fn manual_flash_text(v: Seq<u16>) -> Seq<char> {
    if v.len() == 0 || v[0] == 0 {
        "Off"@
    } else if v.len() < 2 {
        "On"@
    } else if v[1] == 1 {
        "On ("@ + "Full"@ + " strength)"@
    } else {
        "On ("@ + "1/"@ + dec(v[1] as nat) + " strength)"@
    }
}

fn decode_manual_flash(vals: &[u16]) -> (r: String)
    ensures
        r@ == manual_flash_text(vals@),
{
    if vals.len() == 0 || vals[0] == 0 {
        return owned("Off");
    }
    if vals.len() < 2 {
        return owned("On");
    }
    let mut s = owned("On (");
    if vals[1] == 1 {
        push_str(&mut s, "Full");
    } else {
        push_str(&mut s, "1/");
        push_dec(&mut s, vals[1] as u64);
    }
    push_str(&mut s, " strength)");
    s
}

// ---------------------------------------------------------------------------
// Directory entries
// ---------------------------------------------------------------------------

/// Size in bytes of one value of a TIFF type; zero for types the parser does not know.
pub open spec fn type_size(typ: u16) -> nat {
    if typ == 1 || typ == 2 || typ == 6 || typ == 7 {
        1
    } else if typ == 3 || typ == 8 {
        2
    } else if typ == 4 || typ == 9 || typ == 11 || typ == 13 {
        4
    } else if typ == 5 || typ == 10 || typ == 12 {
        8
    } else {
        0
    }
}

/// What an Olympus directory is read from.
pub struct OlySrc {
    /// The bytes holding the directory.
    pub data: Seq<u8>,
    /// Offset in `data` that value offsets count from.
    pub base: nat,
    /// Byte order.
    pub endian: Endianness,
    /// Where out-of-line values are read instead, in the old format (the TIFF data).
    pub alt: Option<Seq<u8>>,
    /// Offset in `alt` that value offsets count from.
    pub alt_base: nat,
    /// What PreviewImageStart is shifted by.
    pub adjust: nat,
}



/// The bytes holding the value of the entry at `p`: the four bytes of the
/// entry itself when the value fits there, else those its offset points at.
pub open spec fn oly_value_bytes(s: OlySrc, p: int) -> Option<Seq<u8>> {
    let typ = at_u16(s.data, p + 2, s.endian);
    let count = at_u32(s.data, p + 4, s.endian);
    let total = count * type_size(typ);
    if total <= 4 {
        Some(s.data.subrange(p + 8, p + 12))
    } else {
        let raw = at_u32(s.data, p + 8, s.endian);
        let src = match s.alt {
            Some(a) => a,
            None => s.data,
        };
        let off = raw + match s.alt {
            Some(a) => s.alt_base,
            None => s.base,
        };
        if off + total > src.len() {
            None
        } else {
            Some(src.subrange(off, off + total))
        }
    }
}


/// NUL-terminated text, each byte taken as a character.
pub open spec fn c_text(b: Seq<u8>) -> Seq<char> {
    latin(until_nul(b))
}


/// The characters of a NUL-terminated byte string.
pub fn c_text_exec(b: &[u8]) -> (r: String)
    ensures
        r@ == c_text(b@),
{
    let mut s = String::new();
    let mut i: usize = 0;
    while i < b.len() && b[i] != 0
        invariant
            i <= b@.len(),
            forall|j: int| 0 <= j < i ==> b@[j] != 0,
            s@ == latin(b@.take(i as int)),
        decreases b.len() - i,
    {
        push_char(&mut s, b[i] as char);
        i = i + 1;
        proof {
            assert(latin(b@.take(i as int)) =~= latin(b@.take(i - 1)).push(b@[i - 1] as char));
        }
    }
    proof {
        lemma_until_nul(b@, i as int);
    }
    s
}

/// The tag and value of the entry at `p`; `None` when it cannot be read.
pub open spec fn oly_entry(s: OlySrc, p: int) -> Option<(u16, ValueView)> {
    if p + 12 > s.data.len() {
        None
    } else {
        let tag = at_u16(s.data, p, s.endian);
        let typ = at_u16(s.data, p + 2, s.endian);
        let count = at_u32(s.data, p + 4, s.endian);
        if type_size(typ) == 0 {
            None
        } else {
            match oly_value_bytes(s, p) {
                None => None,
                Some(b) => {
                    let e = s.endian;
                    if typ == 1 {
                        Some((tag, ValueView::Byte(first_bytes(b, count))))
                    } else if typ == 2 {
                        Some((tag, ValueView::Ascii(c_text(first_bytes(b, count)))))
                    } else if typ == 3 {
                        Some((tag, ValueView::Short(read_shorts(b, count, e))))
                    } else if typ == 4 {
                        Some((tag, ValueView::Long(read_longs(b, count, e))))
                    } else if typ == 5 {
                        Some((tag, ValueView::Rational(read_rationals(b, count, e))))
                    } else if typ == 6 {
                        Some(
                            (
                                tag,
                                ValueView::SByte(first_bytes(b, count).map_values(|x: u8| x as i8)),
                            ),
                        )
                    } else if typ == 7 {
                        Some((tag, ValueView::Undefined(first_bytes(b, count))))
                    } else if typ == 8 {
                        Some((tag, ValueView::SShort(read_sshorts(b, count, e))))
                    } else if typ == 9 {
                        Some((tag, ValueView::SLong(read_slongs(b, count, e))))
                    } else if typ == 10 {
                        Some((tag, ValueView::SRational(read_srationals(b, count, e))))
                    } else if typ == 13 {
                        Some((tag, ValueView::Long(ifd_pointer_values(s, p, count))))
                    } else {
                        None
                    }
                },
            }
        }
    }
}

/// The values of an IFD-pointer entry: the entry's own four bytes for a
/// single value, else `count` values at its offset in the directory data
/// (none when they do not fit).
pub open spec fn ifd_pointer_values(s: OlySrc, p: int, count: u32) -> Seq<u32> {
    if count == 1 {
        seq![at_u32(s.data, p + 8, s.endian)]
    } else {
        let off = at_u32(s.data, p + 8, s.endian) + s.base;
        if off + count * 4 <= s.data.len() {
            read_longs(s.data.subrange(off, s.data.len() as int), count, s.endian)
        } else {
            Seq::empty()
        }
    }
}

/// The view of an optional byte source.
pub open spec fn opt_bytes(v: Option<&[u8]>) -> Option<Seq<u8>> {
    match v {
        Some(b) => Some(b@),
        None => None,
    }
}

pub fn first_bytes_slice(b: &[u8], count: u32) -> (r: Vec<u8>)
    ensures
        r@ == first_bytes(b@, count),
{
    let n: usize = if (count as u64) < b.len() as u64 {
        count as usize
    } else {
        b.len()
    };
    let mut v: Vec<u8> = Vec::new();
    let mut i: usize = 0;
    while i < n
        invariant
            n <= b@.len(),
            i <= n,
            v@ =~= b@.take(i as int),
        decreases n - i,
    {
        v.push(b[i]);
        i = i + 1;
        proof {
            assert(b@.take(i as int) =~= b@.take(i - 1).push(b@[i - 1]));
        }
    }
    proof {
        if (count as int) >= b@.len() {
            assert(b@.take(n as int) =~= b@);
        }
    }
    v
}

fn signed_bytes(b: &[u8]) -> (r: Vec<i8>)
    ensures
        r@ == b@.map_values(|x: u8| x as i8),
{
    let mut v: Vec<i8> = Vec::new();
    let mut i: usize = 0;
    while i < b.len()
        invariant
            i <= b@.len(),
            v@ =~= b@.take(i as int).map_values(|x: u8| x as i8),
        decreases b.len() - i,
    {
        v.push(b[i] as i8);
        i = i + 1;
        proof {
            assert(b@.take(i as int) =~= b@.take(i - 1).push(b@[i - 1]));
        }
    }
    proof {
        assert(b@.take(i as int) =~= b@);
    }
    v
}

fn entry_value_bytes<'a>(
    data: &'a [u8],
    p: usize,
    base_offset: usize,
    endian: Endianness,
    value_data: Option<&'a [u8]>,
    value_base_offset: usize,
    Ghost(s): Ghost<OlySrc>,
) -> (r: Option<&'a [u8]>)
    requires
        p + 12 <= data.len(),
        s.data == data@,
        s.base == base_offset,
        s.endian == endian,
        s.alt == opt_bytes(value_data),
        s.alt_base == value_base_offset,
    ensures
        match r {
            Some(b) => oly_value_bytes(s, p as int) == Some(b@),
            None => oly_value_bytes(s, p as int) is None,
        },
{
    let typ = read_u16_at(data, p + 2, endian);
    let count = read_u32_at(data, p + 4, endian);
    let size: u64 = if typ == 1 || typ == 2 || typ == 6 || typ == 7 {
        1
    } else if typ == 3 || typ == 8 {
        2
    } else if typ == 4 || typ == 9 || typ == 11 || typ == 13 {
        4
    } else if typ == 5 || typ == 10 || typ == 12 {
        8
    } else {
        0
    };
    let total: u64 = count as u64 * size;
    if total <= 4 {
        return Some(&data[p + 8..p + 12]);
    }
    let raw = read_u32_at(data, p + 8, endian);
    let (src, sb) = match value_data {
        Some(vd) => (vd, value_base_offset),
        None => (data, base_offset),
    };
    let off: u128 = raw as u128 + sb as u128;
    if off + total as u128 > src.len() as u128 {
        return None;
    }
    let o = off as usize;
    let t = total as usize;
    Some(&src[o..o + t])
}

/// Reads one directory entry: its tag and its value, decoded by its type.
fn parse_ifd_entry(
    data: &[u8],
    entry_offset: usize,
    base_offset: usize,
    endian: Endianness,
    value_data: Option<&[u8]>,
    value_base_offset: usize,
    Ghost(s): Ghost<OlySrc>,
) -> (r: Option<(u16, ExifValue)>)
    requires
        s.data == data@,
        s.base == base_offset,
        s.endian == endian,
        s.alt == opt_bytes(value_data),
        s.alt_base == value_base_offset,
    ensures
        match r {
            Some((t, v)) => oly_entry(s, entry_offset as int) == Some((t, v@)),
            None => oly_entry(s, entry_offset as int) is None,
        },
{
    if entry_offset as u128 + 12 > data.len() as u128 {
        return None;
    }
    let tag_id = read_u16_at(data, entry_offset, endian);
    let tag_type = read_u16_at(data, entry_offset + 2, endian);
    let count = read_u32_at(data, entry_offset + 4, endian);
    if !(tag_type == 1 || tag_type == 2 || tag_type == 6 || tag_type == 7 || tag_type == 3
        || tag_type == 8 || tag_type == 4 || tag_type == 9 || tag_type == 11 || tag_type == 13
        || tag_type == 5 || tag_type == 10 || tag_type == 12) {
        return None;
    }
    let value_bytes = match entry_value_bytes(
        data,
        entry_offset,
        base_offset,
        endian,
        value_data,
        value_base_offset,
        Ghost(s),
    ) {
        Some(b) => b,
        None => {
            return None;
        },
    };
    let value = if tag_type == 1 {
        ExifValue::Byte(first_bytes_slice(value_bytes, count))
    } else if tag_type == 2 {
        let b = first_bytes_slice(value_bytes, count);
        ExifValue::Ascii(c_text_exec(b.as_slice()))
    } else if tag_type == 3 {
        ExifValue::Short(read_shorts_exec(value_bytes, count, endian))
    } else if tag_type == 4 {
        ExifValue::Long(read_longs_exec(value_bytes, count, endian))
    } else if tag_type == 5 {
        ExifValue::Rational(read_rationals_exec(value_bytes, count, endian))
    } else if tag_type == 6 {
        let b = first_bytes_slice(value_bytes, count);
        ExifValue::SByte(signed_bytes(b.as_slice()))
    } else if tag_type == 7 {
        ExifValue::Undefined(first_bytes_slice(value_bytes, count))
    } else if tag_type == 8 {
        ExifValue::SShort(read_sshorts_exec(value_bytes, count, endian))
    } else if tag_type == 9 {
        ExifValue::SLong(read_slongs_exec(value_bytes, count, endian))
    } else if tag_type == 10 {
        ExifValue::SRational(read_srationals_exec(value_bytes, count, endian))
    } else if tag_type == 13 {
        let mut values: Vec<u32> = Vec::new();
        if count == 1 {
            values.push(read_u32_at(data, entry_offset + 8, endian));
        } else {
            let off: u128 = read_u32_at(data, entry_offset + 8, endian) as u128
                + base_offset as u128;
            if off + 4 * count as u128 <= data.len() as u128 {
                let o = off as usize;
                values = read_longs_exec(&data[o..data.len()], count, endian);
            }
        }
        proof {
            assert(values@ =~= ifd_pointer_values(s, entry_offset as int, count));
        }
        ExifValue::Long(values)
    } else {
        return None;
    };
    Some((tag_id, value))
}

// ---------------------------------------------------------------------------
// Value shapes
// ---------------------------------------------------------------------------

/// The first SHORT of a SHORT value.
pub open spec fn first_short_of(v: ValueView) -> Option<u16> {
    match v {
        ValueView::Short(s) => if s.len() > 0 {
            Some(s[0])
        } else {
            None
        },
        _ => None,
    }
}

/// The first LONG of a LONG value.
pub open spec fn first_long_of(v: ValueView) -> Option<u32> {
    match v {
        ValueView::Long(s) => if s.len() > 0 {
            Some(s[0])
        } else {
            None
        },
        _ => None,
    }
}

/// The SHORT or SSHORT values, taken as signed.
pub open spec fn signed_shorts_of(v: ValueView) -> Option<Seq<i16>> {
    match v {
        ValueView::SShort(s) => Some(s),
        ValueView::Short(s) => Some(as_signed(s)),
        _ => None,
    }
}

fn first_short(v: &ExifValue) -> (r: Option<u16>)
    ensures
        r == first_short_of(v@),
{
    match v {
        ExifValue::Short(s) => if s.len() > 0 {
            Some(s[0])
        } else {
            None
        },
        _ => None,
    }
}

fn first_long(v: &ExifValue) -> (r: Option<u32>)
    ensures
        r == first_long_of(v@),
{
    match v {
        ExifValue::Long(s) => if s.len() > 0 {
            Some(s[0])
        } else {
            None
        },
        _ => None,
    }
}

fn signed_shorts(v: &ExifValue) -> (r: Option<Vec<i16>>)
    ensures
        match r {
            Some(s) => signed_shorts_of(v@) == Some(s@),
            None => signed_shorts_of(v@) is None,
        },
{
    match v {
        ExifValue::SShort(s) => {
            let c = s.clone();
            assert(c@ =~= s@);
            Some(c)
        },
        ExifValue::Short(s) => Some(as_signed_exec(s.as_slice())),
        _ => None,
    }
}

/// An Undefined value holding a NUL-terminated version string, as text.
pub open spec fn undef_text(v: ValueView) -> ValueView {
    match v {
        ValueView::Undefined(b) => ValueView::Ascii(c_text(b)),
        _ => v,
    }
}

fn undef_text_exec(v: ExifValue) -> (r: ExifValue)
    ensures
        r@ == undef_text(v@),
{
    match v {
        ExifValue::Undefined(b) => ExifValue::Ascii(c_text_exec(b.as_slice())),
        other => other,
    }
}

/// A value of signed settings with their ranges, as text.
pub open spec fn min_max_value(v: ValueView) -> ValueView {
    match signed_shorts_of(v) {
        Some(s) => ValueView::Ascii(min_max_text(s)),
        None => v,
    }
}

fn min_max_value_exec(v: ExifValue) -> (r: ExifValue)
    ensures
        r@ == min_max_value(v@),
{
    match v {
        ExifValue::SShort(s) => ExifValue::Ascii(format_min_max_array(s.as_slice())),
        ExifValue::Short(s) => ExifValue::Ascii(format_min_max_array_u16(s.as_slice())),
        other => other,
    }
}

/// The view of an optional model name.
pub open spec fn model_view(m: Option<String>) -> Option<Seq<char>> {
    match m {
        Some(s) => Some(s@),
        None => None,
    }
}

// ---------------------------------------------------------------------------
// Number formats
// ---------------------------------------------------------------------------

/// k/256 in decimal, as `{}` prints the floating-point quotient (which is exact):
/// the integer part, then the fraction's digits without trailing zeros.
pub open spec fn balance_text(k: u16) -> Seq<char> {
    if k % 256 == 0 {
        dec((k / 256) as nat)
    } else {
        dec((k / 256) as nat) + seq!['.'] + trim_zeros(
            zero_pad(dec(((k % 256) * 390625) as nat), 8),
        )
    }
}

fn balance_string(k: u16) -> (r: String)
    ensures
        r@ == balance_text(k),
{
    let mut s = fmt_dec((k / 256) as u64);
    if k % 256 != 0 {
        push_char(&mut s, '.');
        push_frac_digits(&mut s, (k % 256) as u64 * 390625, 8);
    }
    proof {
        assert(s@ =~= balance_text(k));
    }
    s
}

/// A distance in millimetres in metres to three decimals with trailing zeros
/// (and a bare '.') dropped, as `{:.3}` of the quotient prints it; "inf" for 0
/// and for the all-ones marker.
pub open spec fn focus_distance_text(num: u32) -> Seq<char> {
    if num == 0xFFFF_FFFF || num == 0 {
        "inf"@
    } else if num % 1000 == 0 {
        dec((num / 1000) as nat) + " m"@
    } else {
        dec((num / 1000) as nat) + seq!['.'] + trim_zeros(zero_pad(dec((num % 1000) as nat), 3))
            + " m"@
    }
}

fn focus_distance_string(num: u32) -> (r: String)
    ensures
        r@ == focus_distance_text(num),
{
    if num == 0xFFFF_FFFF || num == 0 {
        return owned("inf");
    }
    let mut s = fmt_dec((num / 1000) as u64);
    if num % 1000 != 0 {
        push_char(&mut s, '.');
        push_frac_digits(&mut s, (num % 1000) as u64, 3);
    }
    push_str(&mut s, " m");
    proof {
        assert(s@ =~= focus_distance_text(num));
    }
    s
}

/// 84 - 3 raw / 26 in tenths, rounded to the nearest (never a tie).
pub open spec fn temperature_tenths(raw: i16) -> int {
    let n = 10920 - 15 * raw;
    if n >= 0 {
        (2 * n + 13) / 26
    } else {
        -((2 * (-n) + 13) / 26)
    }
}

/// A number of tenths as `{:.1}` prints it.
pub open spec fn tenths_signed_text(t: int) -> Seq<char> {
    if t < 0 {
        seq!['-'] + dec(((-t) / 10) as nat) + seq!['.'] + dec(((-t) % 10) as nat)
    } else {
        dec((t / 10) as nat) + seq!['.'] + dec((t % 10) as nat)
    }
}

fn tenths_signed_string(t: i64) -> (r: String)
    requires
        -1_000_000 <= t <= 1_000_000,
    ensures
        r@ == tenths_signed_text(t as int),
{
    let mut s = String::new();
    let a: u64 = if t < 0 {
        push_char(&mut s, '-');
        (-t) as u64
    } else {
        t as u64
    };
    push_dec(&mut s, a / 10);
    push_char(&mut s, '.');
    push_dec(&mut s, a % 10);
    proof {
        assert(s@ =~= tenths_signed_text(t as int));
    }
    s
}

/// Values joined by spaces with a trailing " 0 0" removed.
pub open spec fn strip_zero_pair(t: Seq<char>) -> Seq<char> {
    if ends_with(t, " 0 0"@) {
        t.take(t.len() - 4)
    } else {
        t
    }
}

/// SensorTemperature as ExifTool prints it: one value is converted with the
/// formula unless the camera is the E-1 or E-M5, several are listed.
pub open spec fn sensor_temperature_value(v: ValueView, model: Option<Seq<char>>) -> ValueView {
    let raw_model = model == Some("E-1"@) || model == Some("E-M5"@);
    match signed_shorts_of(v) {
        Some(s) => if s.len() == 1 && !raw_model {
            ValueView::Ascii(tenths_signed_text(temperature_tenths(s[0])) + " C"@)
        } else if s.len() == 1 {
            ValueView::Ascii(int_dec(s[0] as int) + " C"@)
        } else {
            ValueView::Ascii(strip_zero_pair(i16_list(s)) + " C"@)
        },
        None => v,
    }
}

fn is_model(model: &Option<String>, name: &str) -> (r: bool)
    ensures
        r == (model_view(*model) == Some(name@)),
{
    match model {
        Some(m) => str_eq(m.as_str(), name),
        None => false,
    }
}

fn sensor_temperature_exec(v: ExifValue, model: &Option<String>) -> (r: ExifValue)
    ensures
        r@ == sensor_temperature_value(v@, model_view(*model)),
{
    let raw_model = is_model(model, "E-1") || is_model(model, "E-M5");
    match signed_shorts(&v) {
        Some(s) => if s.len() == 1 && !raw_model {
            let raw: i64 = s[0] as i64;
            let n: i64 = 10920 - 15 * raw;
            let t: i64 = if n >= 0 {
                (2 * n + 13) / 26
            } else {
                -((2 * (-n) + 13) / 26)
            };
            let mut out = tenths_signed_string(t);
            push_str(&mut out, " C");
            ExifValue::Ascii(out)
        } else if s.len() == 1 {
            let mut out = fmt_int(s[0] as i64);
            push_str(&mut out, " C");
            ExifValue::Ascii(out)
        } else {
            let joined = i16_list_exec(s.as_slice());
            let mut out = if str_ends_with(joined.as_str(), " 0 0") {
                proof {
                    reveal_strlit(" 0 0");
                }
                let n = joined.unicode_len();
                owned(joined.as_str().substring_char(0, n - 4))
            } else {
                joined
            };
            push_str(&mut out, " C");
            ExifValue::Ascii(out)
        },
        None => v,
    }
}

/// The AF area of one AFAreas value: "(x1,y1)-(x2,y2)", named for the three known areas.
pub open spec fn af_area_text(v: u32) -> Seq<char> {
    let coords = "("@ + dec(((v >> 24) & 0xff) as nat) + ","@ + dec(((v >> 16) & 0xff) as nat)
        + ")-("@ + dec(((v >> 8) & 0xff) as nat) + ","@ + dec((v & 0xff) as nat) + ")"@;
    if v == 0x36794285 {
        "Left "@ + coords
    } else if v == 0x79798585 {
        "Center "@ + coords
    } else if v == 0xBD79C985 {
        "Right "@ + coords
    } else {
        coords
    }
}

/// The areas of the non-zero AFAreas values.
pub open spec fn af_area_parts(v: Seq<u32>) -> Seq<Seq<char>>
    decreases v.len(),
{
    if v.len() == 0 {
        Seq::empty()
    } else if v.last() == 0 {
        af_area_parts(v.drop_last())
    } else {
        af_area_parts(v.drop_last()).push(af_area_text(v.last()))
    }
}

/// AFAreas as ExifTool prints it: "none" when every value is zero.
pub open spec fn af_areas_text(v: Seq<u32>) -> Seq<char> {
    if af_area_parts(v).len() == 0 {
        "none"@
    } else {
        join(af_area_parts(v), ", "@)
    }
}

fn af_area_string(v: u32) -> (r: String)
    ensures
        r@ == af_area_text(v),
{
    let mut s = if v == 0x36794285 {
        owned("Left ")
    } else if v == 0x79798585 {
        owned("Center ")
    } else if v == 0xBD79C985 {
        owned("Right ")
    } else {
        String::new()
    };
    let ghost prefix = s@;
    push_str(&mut s, "(");
    push_dec(&mut s, ((v >> 24) & 0xff) as u64);
    push_str(&mut s, ",");
    push_dec(&mut s, ((v >> 16) & 0xff) as u64);
    push_str(&mut s, ")-(");
    push_dec(&mut s, ((v >> 8) & 0xff) as u64);
    push_str(&mut s, ",");
    push_dec(&mut s, (v & 0xff) as u64);
    push_str(&mut s, ")");
    proof {
        assert(s@ =~= af_area_text(v));
    }
    s
}

fn af_areas_string(v: &[u32]) -> (r: String)
    ensures
        r@ == af_areas_text(v@),
{
    let mut parts: Vec<String> = Vec::new();
    let mut i: usize = 0;
    while i < v.len()
        invariant
            i <= v@.len(),
            views(parts@) == af_area_parts(v@.take(i as int)),
        decreases v.len() - i,
    {
        proof {
            assert(v@.take(i + 1).drop_last() =~= v@.take(i as int));
        }
        if v[i] != 0 {
            let ghost before = parts@;
            let t = af_area_string(v[i]);
            parts.push(t);
            proof {
                assert(views(parts@) =~= views(before).push(af_area_text(v@[i as int])));
            }
        }
        i = i + 1;
    }
    proof {
        assert(v@.take(i as int) =~= v@);
    }
    if parts.len() == 0 {
        owned("none")
    } else {
        join_strings(&parts, ", ")
    }
}

/// AspectRatio from its two bytes.
pub open spec fn aspect_text(a: u8, b: u8) -> Seq<char> {
    if a == 1 && b == 4 {
        "1:1"@
    } else {
        let name = aspect_name(a);
        if name@.len() == 0 {
            dec(a as nat) + seq![' '] + dec(b as nat)
        } else if b == 1 && a != 1 {
            name@ + " (RAW)"@
        } else {
            name@
        }
    }
}

/// Aspect names of the first AspectRatio byte ("" for others).
pub open spec fn aspect_name(a: u8) -> &'static str {
    match a {
        1 => "4:3",
        2 => "3:2",
        3 => "16:9",
        4 => "6:6",
        5 => "5:4",
        6 => "7:6",
        7 => "6:5",
        8 => "7:5",
        9 => "3:4",
        _ => "",
    }
}

fn aspect_string(a: u8, b: u8) -> (r: String)
    ensures
        r@ == aspect_text(a, b),
{
    if a == 1 && b == 4 {
        return owned("1:1");
    }
    let name: &str = match a {
        1 => "4:3",
        2 => "3:2",
        3 => "16:9",
        4 => "6:6",
        5 => "5:4",
        6 => "7:6",
        7 => "6:5",
        8 => "7:5",
        9 => "3:4",
        _ => "",
    };
    proof {
        reveal_strlit("");
        reveal_strlit("4:3");
        reveal_strlit("3:2");
        reveal_strlit("16:9");
        reveal_strlit("6:6");
        reveal_strlit("5:4");
        reveal_strlit("7:6");
        reveal_strlit("6:5");
        reveal_strlit("7:5");
        reveal_strlit("3:4");
    }
    if name.unicode_len() == 0 {
        let mut s = fmt_dec(a as u64);
        push_char(&mut s, ' ');
        push_dec(&mut s, b as u64);
        proof {
            assert(s@ =~= aspect_text(a, b));
        }
        s
    } else if b == 1 && a != 1 {
        let mut s = owned(name);
        push_str(&mut s, " (RAW)");
        s
    } else {
        owned(name)
    }
}

/// Whether the model is the E-1 (alone or as a word of the name).
pub open spec fn is_e1(model: Option<Seq<char>>) -> bool {
    match model {
        Some(m) => m == "E-1"@ || ("E-1 "@.len() <= m.len() && m.take(4) == "E-1 "@) || ends_with(
            m,
            " E-1"@,
        ) || contains(m, " E-1 "@),
        None => false,
    }
}

fn is_e1_exec(model: &Option<String>) -> (r: bool)
    ensures
        r == is_e1(model_view(*model)),
{
    proof {
        reveal_strlit("E-1 ");
    }
    match model {
        Some(m) => {
            let s = m.as_str();
            str_eq(s, "E-1") || starts_with(s, "E-1 ") || str_ends_with(s, " E-1") || str_contains(
                s,
                " E-1 ",
            )
        },
        None => false,
    }
}

// ---------------------------------------------------------------------------
// Per-tag helpers
// ---------------------------------------------------------------------------

/// CameraType with its code replaced by the model name when the code is known.
pub open spec fn camera_type_value(v: ValueView) -> ValueView {
    match v {
        ValueView::Ascii(s) => match camera_type_name(trim(s)) {
            Some(d) => ValueView::Ascii(d@),
            None => v,
        },
        _ => v,
    }
}

/// The camera model after a CameraType tag: the decoded name, or (when
/// `keep_raw`) the trimmed code when it is not known.
pub open spec fn camera_type_model(
    v: ValueView,
    model: Option<Seq<char>>,
    keep_raw: bool,
) -> Option<Seq<char>> {
    match v {
        ValueView::Ascii(s) => match camera_type_name(trim(s)) {
            Some(d) => Some(d@),
            None => if keep_raw {
                Some(trim(s))
            } else {
                model
            },
        },
        _ => model,
    }
}

/// The camera model after a main-IFD tag.
pub open spec fn main_model(tag: u16, v: ValueView, model: Option<Seq<char>>) -> Option<
    Seq<char>,
> {
    if tag == OLYMPUS_CAMERA_TYPE {
        camera_type_model(v, model, false)
    } else {
        model
    }
}

/// The camera model after an Equipment tag.
pub open spec fn equip_model(tag: u16, v: ValueView, model: Option<Seq<char>>) -> Option<
    Seq<char>,
> {
    if tag == EQUIP_CAMERA_TYPE {
        camera_type_model(v, model, true)
    } else {
        model
    }
}

fn camera_type_exec(value: ExifValue, model: &mut Option<String>, keep_raw: bool) -> (r: ExifValue)
    ensures
        r@ == camera_type_value(value@),
        model_view(*final(model)) == camera_type_model(value@, model_view(*old(model)), keep_raw),
{
    match value {
        ExifValue::Ascii(s) => {
            let trimmed = trim_str(s.as_str());
            match decode_camera_type(trimmed) {
                Some(d) => {
                    *model = Some(owned(d));
                    ExifValue::Ascii(owned(d))
                },
                None => {
                    if keep_raw {
                        *model = Some(owned(trimmed));
                    }
                    ExifValue::Ascii(s)
                },
            }
        },
        other => other,
    }
}

/// Whether every byte is zero.
pub open spec fn all_zero_u8(b: Seq<u8>) -> bool {
    forall|i: int| 0 <= i < b.len() ==> b[i] == 0
}

/// Whether every SHORT is zero.
pub open spec fn all_zero_u16(b: Seq<u16>) -> bool {
    forall|i: int| 0 <= i < b.len() ==> b[i] == 0
}

fn all_zero_bytes(b: &[u8]) -> (r: bool)
    ensures
        r == all_zero_u8(b@),
{
    let mut i: usize = 0;
    while i < b.len()
        invariant
            i <= b@.len(),
            forall|j: int| 0 <= j < i ==> b@[j] == 0,
        decreases b.len() - i,
    {
        if b[i] != 0 {
            return false;
        }
        i = i + 1;
    }
    true
}

fn all_zero_shorts(b: &[u16]) -> (r: bool)
    ensures
        r == all_zero_u16(b@),
{
    let mut i: usize = 0;
    while i < b.len()
        invariant
            i <= b@.len(),
            forall|j: int| 0 <= j < i ==> b@[j] == 0,
        decreases b.len() - i,
    {
        if b[i] != 0 {
            return false;
        }
        i = i + 1;
    }
    true
}

/// Extender: "None" for six or more zero values, else its name from make and model.
pub open spec fn extender_value(v: ValueView) -> ValueView {
    match v {
        ValueView::Byte(b) => if b.len() >= 6 && all_zero_u8(b) {
            ValueView::Ascii("None"@)
        } else if b.len() >= 3 {
            ValueView::Ascii(extender_text(b[0] as u16, b[2] as u16))
        } else {
            v
        },
        ValueView::Short(s) => if s.len() >= 6 && all_zero_u16(s) {
            ValueView::Ascii("None"@)
        } else if s.len() >= 3 {
            ValueView::Ascii(extender_text(s[0], s[2]))
        } else {
            v
        },
        _ => v,
    }
}

fn extender_value_exec(value: ExifValue) -> (r: ExifValue)
    ensures
        r@ == extender_value(value@),
{
    match value {
        ExifValue::Byte(b) => if b.len() >= 6 && all_zero_bytes(b.as_slice()) {
            ExifValue::Ascii(owned("None"))
        } else if b.len() >= 3 {
            decode_extender(b[0] as u16, b[2] as u16)
        } else {
            ExifValue::Byte(b)
        },
        ExifValue::Short(s) => if s.len() >= 6 && all_zero_shorts(s.as_slice()) {
            ExifValue::Ascii(owned("None"))
        } else if s.len() >= 3 {
            decode_extender(s[0], s[2])
        } else {
            ExifValue::Short(s)
        },
        other => other,
    }
}

/// LensType with the lens name when its bytes name one.
pub open spec fn lens_type_value(v: ValueView) -> ValueView {
    match v {
        ValueView::Byte(b) => if b.len() >= 4 {
            match lens_name_of(b) {
                Some(n) => ValueView::Ascii(n@),
                None => v,
            }
        } else {
            v
        },
        ValueView::Short(s) => if s.len() >= 4 {
            match lens_name_of(s.map_values(|x: u16| x as u8)) {
                Some(n) => ValueView::Ascii(n@),
                None => v,
            }
        } else {
            v
        },
        _ => v,
    }
}

fn low_bytes(v: &[u16]) -> (r: Vec<u8>)
    ensures
        r@ == v@.map_values(|x: u16| x as u8),
{
    let mut w: Vec<u8> = Vec::new();
    let mut i: usize = 0;
    while i < v.len()
        invariant
            i <= v@.len(),
            w@ =~= v@.take(i as int).map_values(|x: u16| x as u8),
        decreases v.len() - i,
    {
        w.push(v[i] as u8);
        i = i + 1;
        proof {
            assert(v@.take(i as int) =~= v@.take(i - 1).push(v@[i - 1]));
        }
    }
    proof {
        assert(v@.take(i as int) =~= v@);
    }
    w
}

fn lens_type_value_exec(value: ExifValue) -> (r: ExifValue)
    ensures
        r@ == lens_type_value(value@),
{
    match value {
        ExifValue::Byte(b) => if b.len() >= 4 {
            match get_olympus_lens_name(b.as_slice()) {
                Some(n) => ExifValue::Ascii(owned(n)),
                None => ExifValue::Byte(b),
            }
        } else {
            ExifValue::Byte(b)
        },
        ExifValue::Short(s) => if s.len() >= 4 {
            let bytes = low_bytes(s.as_slice());
            match get_olympus_lens_name(bytes.as_slice()) {
                Some(n) => ExifValue::Ascii(owned(n)),
                None => ExifValue::Short(s),
            }
        } else {
            ExifValue::Short(s)
        },
        other => other,
    }
}

/// FocusMode: the first value decoded, then the second as a bit mask.
pub open spec fn focus_mode_value(v: ValueView) -> ValueView {
    match v {
        ValueView::Short(s) => if s.len() > 1 {
            ValueView::Ascii(focus_mode_exiftool(s[0])@ + "; "@ + focus_mode_bitmask_text(s[1]))
        } else if s.len() == 1 {
            ValueView::Ascii(focus_mode_exiftool(s[0])@)
        } else {
            v
        },
        _ => v,
    }
}

fn focus_mode_value_exec(value: ExifValue) -> (r: ExifValue)
    ensures
        r@ == focus_mode_value(value@),
{
    match value {
        ExifValue::Short(s) => if s.len() > 1 {
            let mut t = owned(decode_focus_mode_exiftool(s[0]));
            push_str(&mut t, "; ");
            let bits = decode_focus_mode_bitmask(s[1]);
            push_str(&mut t, bits.as_str());
            ExifValue::Ascii(t)
        } else if s.len() == 1 {
            ExifValue::Ascii(owned(decode_focus_mode_exiftool(s[0])))
        } else {
            ExifValue::Short(s)
        },
        other => other,
    }
}

/// A decoded first value followed by the second as a number.
pub open spec fn name_and_number(v: ValueView, name: Seq<char>) -> ValueView {
    match v {
        ValueView::Short(s) => if s.len() > 1 {
            ValueView::Ascii(name + "; "@ + dec(s[1] as nat))
        } else if s.len() == 1 {
            ValueView::Ascii(name)
        } else {
            v
        },
        _ => v,
    }
}

/// FocusProcess: the first value decoded, then the second as a number.
pub open spec fn focus_process_value(v: ValueView) -> ValueView {
    match first_short_of(v) {
        Some(x) => name_and_number(v, focus_process_exiftool(x)@),
        None => v,
    }
}

fn name_and_number_exec(value: ExifValue, name: &str) -> (r: ExifValue)
    ensures
        r@ == name_and_number(value@, name@),
{
    match value {
        ExifValue::Short(s) => if s.len() > 1 {
            let mut t = owned(name);
            push_str(&mut t, "; ");
            push_dec(&mut t, s[1] as u64);
            ExifValue::Ascii(t)
        } else if s.len() == 1 {
            ExifValue::Ascii(owned(name))
        } else {
            ExifValue::Short(s)
        },
        other => other,
    }
}

fn focus_process_value_exec(value: ExifValue) -> (r: ExifValue)
    ensures
        r@ == focus_process_value(value@),
{
    match first_short(&value) {
        Some(x) => name_and_number_exec(value, decode_focus_process_exiftool(x)),
        None => value,
    }
}

/// MultipleExposureMode: the first value decoded, then the second as a number.
pub open spec fn multiple_exposure_value(v: ValueView) -> ValueView {
    match first_short_of(v) {
        Some(x) => name_and_number(v, multiple_exposure_mode_exiftool(x)@),
        None => v,
    }
}

fn multiple_exposure_value_exec(value: ExifValue) -> (r: ExifValue)
    ensures
        r@ == multiple_exposure_value(value@),
{
    match first_short(&value) {
        Some(x) => name_and_number_exec(value, decode_multiple_exposure_mode_exiftool(x)),
        None => value,
    }
}

/// PictureModeBWFilter name.
pub open spec fn bw_filter_name(v: i16) -> Option<&'static str> {
    match v {
        0 => Some("n/a"),
        1 => Some("Neutral"),
        2 => Some("Yellow"),
        3 => Some("Orange"),
        4 => Some("Red"),
        5 => Some("Green"),
        _ => None,
    }
}

fn bw_filter(v: i16) -> (r: Option<&'static str>)
    ensures
        r == bw_filter_name(v),
{
    match v {
        0 => Some("n/a"),
        1 => Some("Neutral"),
        2 => Some("Yellow"),
        3 => Some("Orange"),
        4 => Some("Red"),
        5 => Some("Green"),
        _ => None,
    }
}

/// FocalPlaneDiagonal: the first rational to three decimals (trailing zeros
/// dropped) with " mm"; kept as read for a zero denominator.
pub open spec fn diagonal_value(v: ValueView) -> ValueView {
    match v {
        ValueView::Rational(r) => if r.len() > 0 && r[0].1 != 0 {
            ValueView::Ascii(trimmed_decimal(r[0].0 as nat, r[0].1 as nat, 3) + " mm"@)
        } else {
            v
        },
        _ => v,
    }
}

fn diagonal_value_exec(value: ExifValue) -> (r: ExifValue)
    ensures
        r@ == diagonal_value(value@),
{
    match value {
        ExifValue::Rational(r) => if r.len() > 0 && r[0].1 != 0 {
            let mut s = format_trimmed_decimal(r[0].0, r[0].1, 3);
            push_str(&mut s, " mm");
            proof {
                reveal_strlit(" mm");
            }
            ExifValue::Ascii(s)
        } else {
            ExifValue::Rational(r)
        },
        other => other,
    }
}

/// Value of a main-IFD tag once decoded.
pub open spec fn main_value(tag: u16, v: ValueView) -> ValueView {
    if tag == OLYMPUS_FOCAL_PLANE_DIAGONAL {
        diagonal_value(v)
    } else if tag == OLYMPUS_CAMERA_ID {
        match v {
            ValueView::Undefined(b) => ValueView::Ascii(trim(c_text(b))),
            _ => v,
        }
    } else if tag == OLYMPUS_SPECIAL_MODE {
        match v {
            ValueView::Long(l) => ValueView::Ascii(special_mode_text(l)),
            _ => v,
        }
    } else if tag == OLYMPUS_MACRO {
        match first_short_of(v) {
            Some(x) => ValueView::Ascii(macro_mode_exiftool(x)@),
            None => v,
        }
    } else if tag == OLYMPUS_BW_MODE {
        match first_short_of(v) {
            Some(x) => ValueView::Ascii(bw_mode_exiftool(x)@),
            None => v,
        }
    } else if tag == OLYMPUS_CAMERA_TYPE {
        camera_type_value(v)
    } else if tag == OLYMPUS_RED_BALANCE || tag == OLYMPUS_BLUE_BALANCE {
        match first_short_of(v) {
            Some(x) => ValueView::Ascii(balance_text(x)),
            None => v,
        }
    } else if tag == OLYMPUS_SCENE_MODE {
        match first_short_of(v) {
            Some(x) => ValueView::Ascii(main_scene_mode_exiftool(x)@),
            None => v,
        }
    } else {
        v
    }
}

fn decode_main(tag: u16, value: ExifValue, model: &mut Option<String>) -> (r: ExifValue)
    ensures
        r@ == main_value(tag, value@),
        model_view(*final(model)) == main_model(tag, value@, model_view(*old(model))),
{
    if tag == OLYMPUS_FOCAL_PLANE_DIAGONAL {
        diagonal_value_exec(value)
    } else if tag == OLYMPUS_CAMERA_ID {
        match value {
            ExifValue::Undefined(b) => {
                let t = c_text_exec(b.as_slice());
                ExifValue::Ascii(owned(trim_str(t.as_str())))
            },
            other => other,
        }
    } else if tag == OLYMPUS_SPECIAL_MODE {
        match value {
            ExifValue::Long(l) => ExifValue::Ascii(decode_special_mode(l.as_slice())),
            other => other,
        }
    } else if tag == OLYMPUS_MACRO {
        match first_short(&value) {
            Some(x) => ExifValue::Ascii(owned(decode_macro_mode_exiftool(x))),
            None => value,
        }
    } else if tag == OLYMPUS_BW_MODE {
        match first_short(&value) {
            Some(x) => ExifValue::Ascii(owned(decode_bw_mode_exiftool(x))),
            None => value,
        }
    } else if tag == OLYMPUS_CAMERA_TYPE {
        camera_type_exec(value, model, false)
    } else if tag == OLYMPUS_RED_BALANCE || tag == OLYMPUS_BLUE_BALANCE {
        match first_short(&value) {
            Some(x) => ExifValue::Ascii(balance_string(x)),
            None => value,
        }
    } else if tag == OLYMPUS_SCENE_MODE {
        match first_short(&value) {
            Some(x) => ExifValue::Ascii(owned(decode_main_scene_mode_exiftool(x))),
            None => value,
        }
    } else {
        value
    }
}

/// Value of an Equipment tag once decoded (a non-zero MaxAperture is left as read).
pub open spec fn equip_value(tag: u16, v: ValueView) -> ValueView {
    if tag == EQUIP_FOCAL_PLANE_DIAGONAL {
        diagonal_value(v)
    } else if tag == EQUIP_VERSION {
        undef_text(v)
    } else if tag == EQUIP_EXTENDER {
        extender_value(v)
    } else if tag == EQUIP_FLASH_TYPE {
        match first_short_of(v) {
            Some(x) => ValueView::Ascii(flash_type_exiftool(x)@),
            None => v,
        }
    } else if tag == EQUIP_FLASH_MODEL {
        match first_short_of(v) {
            Some(x) => ValueView::Ascii(flash_model_name(x)@),
            None => v,
        }
    } else if tag == EQUIP_FLASH_FIRMWARE_VERSION || tag == EQUIP_LENS_FIRMWARE_VERSION || tag == EQUIP_BODY_FIRMWARE_VERSION {
        match first_long_of(v) {
            Some(x) => ValueView::Ascii(firmware_version_text(x)),
            None => v,
        }
    } else if tag == EQUIP_MAX_APERTURE || tag == EQUIP_MAX_APERTURE_AT_MIN_FOCAL || tag == EQUIP_MAX_APERTURE_AT_MAX_FOCAL {
        match v {
            ValueView::Short(s) => if s.len() > 0 && s[0] != 0 {
                v
            } else {
                ValueView::Ascii("0"@)
            },
            _ => v,
        }
    } else if tag == EQUIP_LENS_PROPERTIES {
        match first_short_of(v) {
            Some(x) => ValueView::Ascii("0x"@ + hex(x as nat, false)),
            None => v,
        }
    } else if tag == EQUIP_LENS_TYPE {
        lens_type_value(v)
    } else if tag == EQUIP_CAMERA_TYPE {
        camera_type_value(v)
    } else {
        v
    }
}

fn decode_equipment(tag: u16, value: ExifValue, model: &mut Option<String>) -> (r: ExifValue)
    ensures
        r@ == equip_value(tag, value@),
        model_view(*final(model)) == equip_model(tag, value@, model_view(*old(model))),
{
    if tag == EQUIP_FOCAL_PLANE_DIAGONAL {
        diagonal_value_exec(value)
    } else if tag == EQUIP_VERSION {
        undef_text_exec(value)
    } else if tag == EQUIP_EXTENDER {
        extender_value_exec(value)
    } else if tag == EQUIP_FLASH_TYPE {
        match first_short(&value) {
            Some(x) => ExifValue::Ascii(owned(decode_flash_type_exiftool(x))),
            None => value,
        }
    } else if tag == EQUIP_FLASH_MODEL {
        match first_short(&value) {
            Some(x) => ExifValue::Ascii(owned(decode_flash_model(x))),
            None => value,
        }
    } else if tag == EQUIP_FLASH_FIRMWARE_VERSION || tag == EQUIP_LENS_FIRMWARE_VERSION || tag == EQUIP_BODY_FIRMWARE_VERSION {
        match first_long(&value) {
            Some(x) => ExifValue::Ascii(format_firmware_version(x)),
            None => value,
        }
    } else if tag == EQUIP_MAX_APERTURE || tag == EQUIP_MAX_APERTURE_AT_MIN_FOCAL || tag == EQUIP_MAX_APERTURE_AT_MAX_FOCAL {
        match value {
            ExifValue::Short(s) => if s.len() > 0 && s[0] != 0 {
                ExifValue::Short(s)
            } else {
                ExifValue::Ascii(owned("0"))
            },
            other => other,
        }
    } else if tag == EQUIP_LENS_PROPERTIES {
        match first_short(&value) {
            Some(x) => {
                let mut s = owned("0x");
                push_hex(&mut s, x as u64, false);
                ExifValue::Ascii(s)
            },
            None => value,
        }
    } else if tag == EQUIP_LENS_TYPE {
        lens_type_value_exec(value)
    } else if tag == EQUIP_CAMERA_TYPE {
        camera_type_exec(value, model, true)
    } else {
        value
    }
}

/// How many of the rationals have a zero denominator (are undefined).
pub open spec fn undefined_count(r: Seq<(i32, i32)>) -> nat
    decreases r.len(),
{
    if r.len() == 0 {
        0
    } else {
        undefined_count(r.drop_last()) + if r.last().1 == 0 {
            1nat
        } else {
            0nat
        }
    }
}

/// AFPointSelected (five signed rationals, the last four two points' x and y
/// as fractions): "n/a" when five are undefined or both points sit within
/// 0.005 of the origin, else "(X1%,Y1%) (X2%,Y2%)" with each fraction a
/// percentage rounded down as [`hundredfold_floor`] computes it.
pub open spec fn af_point_selected_value(v: ValueView) -> ValueView {
    match v {
        ValueView::SRational(r) => if undefined_count(r) >= 5 {
            ValueView::Ascii("n/a"@)
        } else if r.len() >= 5 {
            if below_half_hundredth(r[1].0, r[1].1) && below_half_hundredth(r[2].0, r[2].1)
                && below_half_hundredth(r[3].0, r[3].1) && below_half_hundredth(r[4].0, r[4].1) {
                ValueView::Ascii("n/a"@)
            } else {
                ValueView::Ascii(
                    seq!['('] + int_dec(hundredfold_floor(r[1].0, r[1].1) as int) + "%,"@ + int_dec(
                        hundredfold_floor(r[2].0, r[2].1) as int,
                    ) + "%) ("@ + int_dec(hundredfold_floor(r[3].0, r[3].1) as int) + "%,"@ + int_dec(
                        hundredfold_floor(r[4].0, r[4].1) as int,
                    ) + "%)"@,
                )
            }
        } else {
            v
        },
        _ => v,
    }
}

fn undefined_count_exec(r: &Vec<(i32, i32)>) -> (k: usize)
    ensures
        k == undefined_count(r@),
{
    let mut k: usize = 0;
    let mut i: usize = 0;
    while i < r.len()
        invariant
            i <= r@.len(),
            k == undefined_count(r@.take(i as int)),
            k <= i,
        decreases r.len() - i,
    {
        proof {
            assert(r@.take(i + 1).drop_last() =~= r@.take(i as int));
        }
        if r[i].1 == 0 {
            k = k + 1;
        }
        i = i + 1;
    }
    assert(r@.take(i as int) =~= r@);
    k
}

fn af_point_selected_exec(value: ExifValue) -> (r: ExifValue)
    ensures
        r@ == af_point_selected_value(value@),
{
    match value {
        ExifValue::SRational(r) => {
            if undefined_count_exec(&r) >= 5 {
                ExifValue::Ascii(owned("n/a"))
            } else if r.len() >= 5 {
                if below_half_hundredth_exec(r[1].0, r[1].1) && below_half_hundredth_exec(r[2].0, r[2].1)
                    && below_half_hundredth_exec(r[3].0, r[3].1) && below_half_hundredth_exec(
                    r[4].0,
                    r[4].1,
                ) {
                    ExifValue::Ascii(owned("n/a"))
                } else {
                    let mut s = String::new();
                    push_char(&mut s, '(');
                    push_int(&mut s, hundredfold_floor_exec(r[1].0, r[1].1) as i64);
                    push_str(&mut s, "%,");
                    push_int(&mut s, hundredfold_floor_exec(r[2].0, r[2].1) as i64);
                    push_str(&mut s, "%) (");
                    push_int(&mut s, hundredfold_floor_exec(r[3].0, r[3].1) as i64);
                    push_str(&mut s, "%,");
                    push_int(&mut s, hundredfold_floor_exec(r[4].0, r[4].1) as i64);
                    push_str(&mut s, "%)");
                    proof {
                        reveal_strlit("%,");
                        reveal_strlit("%) (");
                        reveal_strlit("%)");
                        assert(s@ =~= af_point_selected_value(ValueView::SRational(r@))->Ascii_0);
                    }
                    ExifValue::Ascii(s)
                }
            } else {
                ExifValue::SRational(r)
            }
        },
        other => other,
    }
}

/// Value of a CameraSettings tag once decoded.
pub open spec fn cs_value(tag: u16, v: ValueView, model: Option<Seq<char>>, adjust: nat) -> ValueView {
    if tag == CS_AF_POINT_SELECTED {
        af_point_selected_value(v)
    } else if tag == CS_VERSION {
        undef_text(v)
    } else if tag == CS_EXPOSURE_MODE {
        match first_short_of(v) {
            Some(x) => ValueView::Ascii(exposure_mode_exiftool(x)@),
            None => v,
        }
    } else if tag == CS_METERING_MODE {
        match first_short_of(v) {
            Some(x) => ValueView::Ascii(metering_mode_exiftool(x)@),
            None => v,
        }
    } else if tag == CS_MACRO_MODE {
        match first_short_of(v) {
            Some(x) => ValueView::Ascii(macro_mode_exiftool(x)@),
            None => v,
        }
    } else if tag == CS_FOCUS_MODE {
        focus_mode_value(v)
    } else if tag == CS_FOCUS_PROCESS {
        focus_process_value(v)
    } else if tag == CS_AF_SEARCH {
        match first_short_of(v) {
            Some(x) => ValueView::Ascii(af_search_exiftool(x)@),
            None => v,
        }
    } else if tag == CS_AF_AREAS {
        match v {
            ValueView::Long(l) => ValueView::Ascii(af_areas_text(l)),
            _ => v,
        }
    } else if tag == CS_FLASH_MODE {
        match first_short_of(v) {
            Some(x) => ValueView::Ascii(flash_mode_text(x)),
            None => v,
        }
    } else if tag == CS_WHITE_BALANCE {
        match first_short_of(v) {
            Some(x) => ValueView::Ascii(white_balance_exiftool(x)@),
            None => v,
        }
    } else if tag == CS_WHITE_BALANCE_TEMPERATURE {
        match first_short_of(v) {
            Some(x) => if x == 0 {
                ValueView::Ascii("Auto"@)
            } else {
                v
            },
            None => v,
        }
    } else if tag == CS_COLOR_SPACE {
        match first_short_of(v) {
            Some(x) => ValueView::Ascii(color_space_exiftool(x)@),
            None => v,
        }
    } else if tag == CS_CUSTOM_SATURATION {
        match signed_shorts_of(v) {
            Some(s) => ValueView::Ascii(
                if is_e1(model) {
                    custom_saturation_e1_text(s)
                } else {
                    min_max_text(s)
                },
            ),
            None => v,
        }
    } else if tag == CS_CONTRAST_SETTING || tag == CS_SHARPNESS_SETTING || tag == CS_PICTURE_MODE_SATURATION || tag == CS_PICTURE_MODE_CONTRAST || tag == CS_PICTURE_MODE_SHARPNESS {
        min_max_value(v)
    } else if tag == CS_NOISE_FILTER {
        match signed_shorts_of(v) {
            Some(s) => match noise_filter_name(s) {
                Some(n) => ValueView::Ascii(n@),
                None => v,
            },
            None => v,
        }
    } else if tag == CS_PICTURE_MODE_BW_FILTER {
        match signed_shorts_of(v) {
            Some(s) => if s.len() > 0 && bw_filter_name(s[0]) is Some {
                ValueView::Ascii(bw_filter_name(s[0])->0@)
            } else {
                v
            },
            None => v,
        }
    } else if tag == CS_PICTURE_MODE_TONE {
        match v {
            ValueView::SShort(s) => if s.len() > 0 {
                ValueView::Ascii(picture_mode_tone_exiftool(s[0] as u16)@)
            } else {
                v
            },
            ValueView::Short(s) => if s.len() > 0 {
                ValueView::Ascii(picture_mode_tone_exiftool(s[0])@)
            } else {
                v
            },
            _ => v,
        }
    } else if tag == CS_SCENE_MODE {
        match first_short_of(v) {
            Some(x) => ValueView::Ascii(scene_mode_exiftool(x)@),
            None => v,
        }
    } else if tag == CS_NOISE_REDUCTION {
        match first_short_of(v) {
            Some(x) => ValueView::Ascii(noise_reduction_text(x)),
            None => v,
        }
    } else if tag == CS_AE_LOCK {
        match first_short_of(v) {
            Some(x) => ValueView::Ascii(ae_lock_exiftool(x)@),
            None => v,
        }
    } else if tag == CS_GRADATION {
        match signed_shorts_of(v) {
            Some(s) => ValueView::Ascii(gradation_text(s)),
            None => v,
        }
    } else if tag == CS_FLASH_REMOTE_CONTROL {
        match first_short_of(v) {
            Some(x) => ValueView::Ascii(flash_remote_control_exiftool(x)@),
            None => v,
        }
    } else if tag == CS_FLASH_CONTROL_MODE {
        match v {
            ValueView::Short(s) => if s.len() > 0 {
                ValueView::Ascii(first_and_rest(flash_control_mode_exiftool(s[0])@, s))
            } else {
                v
            },
            _ => v,
        }
    } else if tag == CS_MODIFIED_SATURATION {
        match first_short_of(v) {
            Some(x) => ValueView::Ascii(modified_saturation_exiftool(x)@),
            None => v,
        }
    } else if tag == CS_PANORAMA_MODE {
        match first_short_of(v) {
            Some(x) => ValueView::Ascii(panorama_mode_exiftool(x)@),
            None => v,
        }
    } else if tag == CS_IMAGE_QUALITY2 {
        match first_short_of(v) {
            Some(x) => ValueView::Ascii(image_quality2_exiftool(x)@),
            None => v,
        }
    } else if tag == CS_IMAGE_STABILIZATION {
        match v {
            ValueView::Long(l) => if l.len() > 0 {
                ValueView::Ascii(image_stabilization_exiftool(l[0])@)
            } else {
                v
            },
            ValueView::Short(s) => if s.len() > 0 {
                ValueView::Ascii(image_stabilization_exiftool(s[0] as u32)@)
            } else {
                v
            },
            _ => v,
        }
    } else if tag == CS_DISTORTION_CORRECTION {
        match first_short_of(v) {
            Some(x) => ValueView::Ascii(distortion_correction_exiftool(x)@),
            None => v,
        }
    } else if tag == CS_SHADING_COMPENSATION {
        match first_short_of(v) {
            Some(x) => ValueView::Ascii(shading_compensation_exiftool(x)@),
            None => v,
        }
    } else if tag == CS_AF_FINE_TUNE {
        match v {
            ValueView::Short(s) => if s.len() > 0 {
                ValueView::Ascii(af_fine_tune_exiftool(s[0])@)
            } else {
                v
            },
            ValueView::Byte(b) => if b.len() > 0 {
                ValueView::Ascii(af_fine_tune_exiftool(b[0] as u16)@)
            } else {
                v
            },
            _ => v,
        }
    } else if tag == CS_DRIVE_MODE {
        match v {
            ValueView::Short(s) => if s.len() > 0 {
                ValueView::Ascii(drive_mode_text(s))
            } else {
                v
            },
            _ => v,
        }
    } else if tag == CS_PICTURE_MODE {
        match v {
            ValueView::Short(s) => if s.len() > 0 {
                ValueView::Ascii(picture_mode_array_text(s))
            } else {
                v
            },
            _ => v,
        }
    } else if tag == CS_ART_FILTER || tag == CS_MAGIC_FILTER {
        match v {
            ValueView::Short(s) => if s.len() > 0 {
                ValueView::Ascii(first_and_rest(art_filter_exiftool(s[0])@, s))
            } else {
                v
            },
            _ => v,
        }
    } else if tag == CS_PREVIEW_IMAGE_VALID {
        match v {
            ValueView::Long(l) => if l.len() > 0 {
                ValueView::Ascii(if l[0] == 0 { "No"@ } else { "Yes"@ })
            } else {
                v
            },
            ValueView::Short(s) => if s.len() > 0 {
                ValueView::Ascii(if s[0] == 0 { "No"@ } else { "Yes"@ })
            } else {
                v
            },
            _ => v,
        }
    } else if tag == CS_PREVIEW_IMAGE_START {
        match first_long_of(v) {
            Some(x) => ValueView::Long(seq![((x + adjust) % 0x1_0000_0000) as u32]),
            None => v,
        }
    } else {
        v
    }
}

fn decode_camera_settings(tag: u16, value: ExifValue, model: &Option<String>, adjust: usize) -> (r: ExifValue)
    ensures
        r@ == cs_value(tag, value@, model_view(*model), adjust as nat),
{
    if tag == CS_AF_POINT_SELECTED {
        af_point_selected_exec(value)
    } else if tag == CS_VERSION {
        undef_text_exec(value)
    } else if tag == CS_EXPOSURE_MODE {
        match first_short(&value) {
            Some(x) => ExifValue::Ascii(owned(decode_exposure_mode_exiftool(x))),
            None => value,
        }
    } else if tag == CS_METERING_MODE {
        match first_short(&value) {
            Some(x) => ExifValue::Ascii(owned(decode_metering_mode_exiftool(x))),
            None => value,
        }
    } else if tag == CS_MACRO_MODE {
        match first_short(&value) {
            Some(x) => ExifValue::Ascii(owned(decode_macro_mode_exiftool(x))),
            None => value,
        }
    } else if tag == CS_FOCUS_MODE {
        focus_mode_value_exec(value)
    } else if tag == CS_FOCUS_PROCESS {
        focus_process_value_exec(value)
    } else if tag == CS_AF_SEARCH {
        match first_short(&value) {
            Some(x) => ExifValue::Ascii(owned(decode_af_search_exiftool(x))),
            None => value,
        }
    } else if tag == CS_AF_AREAS {
        match value {
            ExifValue::Long(l) => ExifValue::Ascii(af_areas_string(l.as_slice())),
            other => other,
        }
    } else if tag == CS_FLASH_MODE {
        match first_short(&value) {
            Some(x) => ExifValue::Ascii(decode_flash_mode_exiftool(x)),
            None => value,
        }
    } else if tag == CS_WHITE_BALANCE {
        match first_short(&value) {
            Some(x) => ExifValue::Ascii(owned(decode_white_balance_exiftool(x))),
            None => value,
        }
    } else if tag == CS_WHITE_BALANCE_TEMPERATURE {
        match first_short(&value) {
            Some(x) => if x == 0 {
                ExifValue::Ascii(owned("Auto"))
            } else {
                value
            },
            None => value,
        }
    } else if tag == CS_COLOR_SPACE {
        match first_short(&value) {
            Some(x) => ExifValue::Ascii(owned(decode_color_space_exiftool(x))),
            None => value,
        }
    } else if tag == CS_CUSTOM_SATURATION {
        match signed_shorts(&value) {
            Some(s) => ExifValue::Ascii(
                if is_e1_exec(model) {
                    format_custom_saturation_e1(s.as_slice())
                } else {
                    format_min_max_array(s.as_slice())
                },
            ),
            None => value,
        }
    } else if tag == CS_CONTRAST_SETTING || tag == CS_SHARPNESS_SETTING || tag == CS_PICTURE_MODE_SATURATION || tag == CS_PICTURE_MODE_CONTRAST || tag == CS_PICTURE_MODE_SHARPNESS {
        min_max_value_exec(value)
    } else if tag == CS_NOISE_FILTER {
        match signed_shorts(&value) {
            Some(s) => match decode_noise_filter(s.as_slice()) {
                Some(n) => ExifValue::Ascii(owned(n)),
                None => value,
            },
            None => value,
        }
    } else if tag == CS_PICTURE_MODE_BW_FILTER {
        match signed_shorts(&value) {
            Some(s) => if s.len() > 0 {
                match bw_filter(s[0]) {
                    Some(n) => ExifValue::Ascii(owned(n)),
                    None => value,
                }
            } else {
                value
            },
            None => value,
        }
    } else if tag == CS_PICTURE_MODE_TONE {
        match value {
            ExifValue::SShort(s) => if s.len() > 0 {
                ExifValue::Ascii(owned(decode_picture_mode_tone_exiftool(s[0] as u16)))
            } else {
                ExifValue::SShort(s)
            },
            ExifValue::Short(s) => if s.len() > 0 {
                ExifValue::Ascii(owned(decode_picture_mode_tone_exiftool(s[0])))
            } else {
                ExifValue::Short(s)
            },
            other => other,
        }
    } else if tag == CS_SCENE_MODE {
        match first_short(&value) {
            Some(x) => ExifValue::Ascii(owned(decode_scene_mode_exiftool(x))),
            None => value,
        }
    } else if tag == CS_NOISE_REDUCTION {
        match first_short(&value) {
            Some(x) => ExifValue::Ascii(decode_noise_reduction_exiftool(x)),
            None => value,
        }
    } else if tag == CS_AE_LOCK {
        match first_short(&value) {
            Some(x) => ExifValue::Ascii(owned(decode_ae_lock_exiftool(x))),
            None => value,
        }
    } else if tag == CS_GRADATION {
        match signed_shorts(&value) {
            Some(s) => ExifValue::Ascii(decode_gradation(s.as_slice())),
            None => value,
        }
    } else if tag == CS_FLASH_REMOTE_CONTROL {
        match first_short(&value) {
            Some(x) => ExifValue::Ascii(owned(decode_flash_remote_control_exiftool(x))),
            None => value,
        }
    } else if tag == CS_FLASH_CONTROL_MODE {
        match value {
            ExifValue::Short(s) => if s.len() > 0 {
                ExifValue::Ascii(
                    first_and_rest_exec(decode_flash_control_mode_exiftool(s[0]), s.as_slice()),
                )
            } else {
                ExifValue::Short(s)
            },
            other => other,
        }
    } else if tag == CS_MODIFIED_SATURATION {
        match first_short(&value) {
            Some(x) => ExifValue::Ascii(owned(decode_modified_saturation_exiftool(x))),
            None => value,
        }
    } else if tag == CS_PANORAMA_MODE {
        match first_short(&value) {
            Some(x) => ExifValue::Ascii(owned(decode_panorama_mode_exiftool(x))),
            None => value,
        }
    } else if tag == CS_IMAGE_QUALITY2 {
        match first_short(&value) {
            Some(x) => ExifValue::Ascii(owned(decode_image_quality2_exiftool(x))),
            None => value,
        }
    } else if tag == CS_IMAGE_STABILIZATION {
        match value {
            ExifValue::Long(l) => if l.len() > 0 {
                ExifValue::Ascii(owned(decode_image_stabilization_exiftool(l[0])))
            } else {
                ExifValue::Long(l)
            },
            ExifValue::Short(s) => if s.len() > 0 {
                ExifValue::Ascii(owned(decode_image_stabilization_exiftool(s[0] as u32)))
            } else {
                ExifValue::Short(s)
            },
            other => other,
        }
    } else if tag == CS_DISTORTION_CORRECTION {
        match first_short(&value) {
            Some(x) => ExifValue::Ascii(owned(decode_distortion_correction_exiftool(x))),
            None => value,
        }
    } else if tag == CS_SHADING_COMPENSATION {
        match first_short(&value) {
            Some(x) => ExifValue::Ascii(owned(decode_shading_compensation_exiftool(x))),
            None => value,
        }
    } else if tag == CS_AF_FINE_TUNE {
        match value {
            ExifValue::Short(s) => if s.len() > 0 {
                ExifValue::Ascii(owned(decode_af_fine_tune_exiftool(s[0])))
            } else {
                ExifValue::Short(s)
            },
            ExifValue::Byte(b) => if b.len() > 0 {
                ExifValue::Ascii(owned(decode_af_fine_tune_exiftool(b[0] as u16)))
            } else {
                ExifValue::Byte(b)
            },
            other => other,
        }
    } else if tag == CS_DRIVE_MODE {
        match value {
            ExifValue::Short(s) => if s.len() > 0 {
                ExifValue::Ascii(decode_drive_mode(s.as_slice()))
            } else {
                ExifValue::Short(s)
            },
            other => other,
        }
    } else if tag == CS_PICTURE_MODE {
        match value {
            ExifValue::Short(s) => if s.len() > 0 {
                ExifValue::Ascii(decode_picture_mode_array(s.as_slice()))
            } else {
                ExifValue::Short(s)
            },
            other => other,
        }
    } else if tag == CS_ART_FILTER || tag == CS_MAGIC_FILTER {
        match value {
            ExifValue::Short(s) => if s.len() > 0 {
                ExifValue::Ascii(first_and_rest_exec(decode_art_filter_exiftool(s[0]), s.as_slice()))
            } else {
                ExifValue::Short(s)
            },
            other => other,
        }
    } else if tag == CS_PREVIEW_IMAGE_VALID {
        match value {
            ExifValue::Long(l) => if l.len() > 0 {
                ExifValue::Ascii(owned(if l[0] == 0 { "No" } else { "Yes" }))
            } else {
                ExifValue::Long(l)
            },
            ExifValue::Short(s) => if s.len() > 0 {
                ExifValue::Ascii(owned(if s[0] == 0 { "No" } else { "Yes" }))
            } else {
                ExifValue::Short(s)
            },
            other => other,
        }
    } else if tag == CS_PREVIEW_IMAGE_START {
        match first_long(&value) {
            Some(x) => {
                let sum: u128 = x as u128 + adjust as u128;
                let mut l: Vec<u32> = Vec::new();
                l.push((sum % 0x1_0000_0000) as u32);
                ExifValue::Long(l)
            },
            None => value,
        }
    } else {
        value
    }
}

/// Value of a RawDevelopment tag once decoded.
pub open spec fn rd_value(tag: u16, v: ValueView) -> ValueView {
    if tag == RD_VERSION {
        undef_text(v)
    } else if tag == RD_COLOR_SPACE {
        match first_short_of(v) {
            Some(x) => ValueView::Ascii(raw_dev_color_space_exiftool(x)@),
            None => v,
        }
    } else if tag == RD_ENGINE {
        match first_short_of(v) {
            Some(x) => ValueView::Ascii(raw_dev_engine_exiftool(x)@),
            None => v,
        }
    } else if tag == RD_NOISE_REDUCTION {
        match first_short_of(v) {
            Some(x) => ValueView::Ascii(raw_dev_noise_reduction_exiftool(x)@),
            None => v,
        }
    } else if tag == RD_EDIT_STATUS {
        match first_short_of(v) {
            Some(x) => ValueView::Ascii(raw_dev_edit_status_exiftool(x)@),
            None => v,
        }
    } else if tag == RD_SETTINGS {
        match v {
            ValueView::Short(s) => if s.len() > 0 && s[0] == 0 {
                ValueView::Ascii("(none)"@)
            } else {
                v
            },
            ValueView::Long(l) => if l.len() > 0 && l[0] == 0 {
                ValueView::Ascii("(none)"@)
            } else {
                v
            },
            _ => v,
        }
    } else {
        v
    }
}

fn decode_raw_development(tag: u16, value: ExifValue) -> (r: ExifValue)
    ensures
        r@ == rd_value(tag, value@),
{
    if tag == RD_VERSION {
        undef_text_exec(value)
    } else if tag == RD_COLOR_SPACE {
        match first_short(&value) {
            Some(x) => ExifValue::Ascii(owned(decode_raw_dev_color_space_exiftool(x))),
            None => value,
        }
    } else if tag == RD_ENGINE {
        match first_short(&value) {
            Some(x) => ExifValue::Ascii(owned(decode_raw_dev_engine_exiftool(x))),
            None => value,
        }
    } else if tag == RD_NOISE_REDUCTION {
        match first_short(&value) {
            Some(x) => ExifValue::Ascii(owned(decode_raw_dev_noise_reduction_exiftool(x))),
            None => value,
        }
    } else if tag == RD_EDIT_STATUS {
        match first_short(&value) {
            Some(x) => ExifValue::Ascii(owned(decode_raw_dev_edit_status_exiftool(x))),
            None => value,
        }
    } else if tag == RD_SETTINGS {
        match value {
            ExifValue::Short(s) => if s.len() > 0 && s[0] == 0 {
                ExifValue::Ascii(owned("(none)"))
            } else {
                ExifValue::Short(s)
            },
            ExifValue::Long(l) => if l.len() > 0 && l[0] == 0 {
                ExifValue::Ascii(owned("(none)"))
            } else {
                ExifValue::Long(l)
            },
            other => other,
        }
    } else {
        value
    }
}

/// Value of an ImageProcessing tag once decoded.
pub open spec fn ip_value(tag: u16, v: ValueView) -> ValueView {
    if tag == IP_VERSION {
        undef_text(v)
    } else if tag == IP_MULTIPLE_EXPOSURE_MODE {
        multiple_exposure_value(v)
    } else if tag == IP_ASPECT_RATIO {
        match v {
            ValueView::Byte(b) => if b.len() >= 2 {
                ValueView::Ascii(aspect_text(b[0], b[1]))
            } else if b.len() == 1 {
                ValueView::Ascii(aspect_ratio_exiftool(b[0] as u16)@)
            } else {
                v
            },
            _ => v,
        }
    } else if tag == IP_DISTORTION_CORRECTION2 {
        match first_short_of(v) {
            Some(x) => ValueView::Ascii(distortion_correction_exiftool(x)@),
            None => v,
        }
    } else if tag == IP_SHADING_COMPENSATION2 {
        match first_short_of(v) {
            Some(x) => ValueView::Ascii(shading_compensation_exiftool(x)@),
            None => v,
        }
    } else if tag == IP_NOISE_REDUCTION2 {
        match first_short_of(v) {
            Some(x) => ValueView::Ascii(noise_reduction2_text(x)),
            None => v,
        }
    } else if tag == IP_COLOR_MATRIX {
        match signed_shorts_of(v) {
            Some(s) => ValueView::Ascii(i16_list(s)),
            None => v,
        }
    } else {
        v
    }
}

fn decode_image_processing(tag: u16, value: ExifValue) -> (r: ExifValue)
    ensures
        r@ == ip_value(tag, value@),
{
    if tag == IP_VERSION {
        undef_text_exec(value)
    } else if tag == IP_MULTIPLE_EXPOSURE_MODE {
        multiple_exposure_value_exec(value)
    } else if tag == IP_ASPECT_RATIO {
        match value {
            ExifValue::Byte(b) => if b.len() >= 2 {
                ExifValue::Ascii(aspect_string(b[0], b[1]))
            } else if b.len() == 1 {
                ExifValue::Ascii(owned(decode_aspect_ratio_exiftool(b[0] as u16)))
            } else {
                ExifValue::Byte(b)
            },
            other => other,
        }
    } else if tag == IP_DISTORTION_CORRECTION2 {
        match first_short(&value) {
            Some(x) => ExifValue::Ascii(owned(decode_distortion_correction_exiftool(x))),
            None => value,
        }
    } else if tag == IP_SHADING_COMPENSATION2 {
        match first_short(&value) {
            Some(x) => ExifValue::Ascii(owned(decode_shading_compensation_exiftool(x))),
            None => value,
        }
    } else if tag == IP_NOISE_REDUCTION2 {
        match first_short(&value) {
            Some(x) => ExifValue::Ascii(decode_noise_reduction2_exiftool(x)),
            None => value,
        }
    } else if tag == IP_COLOR_MATRIX {
        match signed_shorts(&value) {
            Some(s) => ExifValue::Ascii(i16_list_exec(s.as_slice())),
            None => value,
        }
    } else {
        value
    }
}

/// Value of a FocusInfo tag once decoded.
pub open spec fn fi_value(tag: u16, v: ValueView, model: Option<Seq<char>>) -> ValueView {
    if tag == FI_VERSION {
        undef_text(v)
    } else if tag == FI_FOCUS_DISTANCE {
        match v {
            ValueView::Rational(r) => if r.len() > 0 {
                ValueView::Ascii(focus_distance_text(r[0].0))
            } else {
                v
            },
            ValueView::Long(l) => if l.len() > 0 {
                ValueView::Ascii(focus_distance_text(l[0]))
            } else {
                v
            },
            _ => v,
        }
    } else if tag == FI_INTERNAL_FLASH {
        match first_short_of(v) {
            Some(x) => ValueView::Ascii(internal_flash_exiftool(x)@),
            None => v,
        }
    } else if tag == FI_MACRO_LED {
        match first_short_of(v) {
            Some(x) => ValueView::Ascii(macro_led_exiftool(x)@),
            None => v,
        }
    } else if tag == FI_AF_POINT {
        match first_short_of(v) {
            Some(x) => ValueView::Ascii(af_point_by_model_text(x, model)),
            None => v,
        }
    } else if tag == FI_EXTERNAL_FLASH {
        match first_short_of(v) {
            Some(x) => ValueView::Ascii(external_flash_exiftool(x)@),
            None => v,
        }
    } else if tag == FI_EXTERNAL_FLASH_BOUNCE {
        match first_short_of(v) {
            Some(x) => if x == 0 {
                ValueView::Ascii("Bounce or Off"@)
            } else if x == 1 {
                ValueView::Ascii("Direct"@)
            } else {
                v
            },
            None => v,
        }
    } else if tag == FI_MANUAL_FLASH {
        match v {
            ValueView::Short(s) => ValueView::Ascii(manual_flash_text(s)),
            _ => v,
        }
    } else if tag == FI_SENSOR_TEMPERATURE {
        sensor_temperature_value(v, model)
    } else if tag == FI_IMAGE_STABILIZATION {
        match v {
            ValueView::Undefined(b) => ValueView::Ascii(fi_image_stabilization_text(b)),
            _ => v,
        }
    } else {
        v
    }
}

fn decode_focus_info(tag: u16, value: ExifValue, model: &Option<String>) -> (r: ExifValue)
    ensures
        r@ == fi_value(tag, value@, model_view(*model)),
{
    if tag == FI_VERSION {
        undef_text_exec(value)
    } else if tag == FI_FOCUS_DISTANCE {
        match value {
            ExifValue::Rational(r) => if r.len() > 0 {
                ExifValue::Ascii(focus_distance_string(r[0].0))
            } else {
                ExifValue::Rational(r)
            },
            ExifValue::Long(l) => if l.len() > 0 {
                ExifValue::Ascii(focus_distance_string(l[0]))
            } else {
                ExifValue::Long(l)
            },
            other => other,
        }
    } else if tag == FI_INTERNAL_FLASH {
        match first_short(&value) {
            Some(x) => ExifValue::Ascii(owned(decode_internal_flash_exiftool(x))),
            None => value,
        }
    } else if tag == FI_MACRO_LED {
        match first_short(&value) {
            Some(x) => ExifValue::Ascii(owned(decode_macro_led_exiftool(x))),
            None => value,
        }
    } else if tag == FI_AF_POINT {
        match first_short(&value) {
            Some(x) => {
                let m: Option<&str> = match model {
                    Some(name) => Some(name.as_str()),
                    None => None,
                };
                ExifValue::Ascii(decode_af_point_by_model(x, m))
            },
            None => value,
        }
    } else if tag == FI_EXTERNAL_FLASH {
        match first_short(&value) {
            Some(x) => ExifValue::Ascii(owned(decode_external_flash_exiftool(x))),
            None => value,
        }
    } else if tag == FI_EXTERNAL_FLASH_BOUNCE {
        match first_short(&value) {
            Some(x) => if x == 0 {
                ExifValue::Ascii(owned("Bounce or Off"))
            } else if x == 1 {
                ExifValue::Ascii(owned("Direct"))
            } else {
                value
            },
            None => value,
        }
    } else if tag == FI_MANUAL_FLASH {
        match value {
            ExifValue::Short(s) => ExifValue::Ascii(decode_manual_flash(s.as_slice())),
            other => other,
        }
    } else if tag == FI_SENSOR_TEMPERATURE {
        sensor_temperature_exec(value, model)
    } else if tag == FI_IMAGE_STABILIZATION {
        match value {
            ExifValue::Undefined(b) => ExifValue::Ascii(decode_fi_image_stabilization(b.as_slice())),
            other => other,
        }
    } else {
        value
    }
}

// ---------------------------------------------------------------------------
// Reading a directory
// ---------------------------------------------------------------------------

/// The parser's state: the tags read so far, by storage ID, and the camera
/// model learnt from CameraType.
pub struct OlyState {
    pub tags: Map<u16, TagView>,
    pub model: Option<Seq<char>>,
}

/// Rank of a directory: the main IFD leads to the others, which lead nowhere.
pub open spec fn ifd_rank(t: OlympusIfdType) -> nat {
    if t == OlympusIfdType::Main {
        1
    } else {
        0
    }
}

/// The key a tag is stored under: its ID, offset by its sub-directory's tag
/// (with 16-bit wrap-around) outside the main IFD.
pub open spec fn storage_id(t: OlympusIfdType, tag: u16) -> u16 {
    let off: int = match t {
        OlympusIfdType::Main => 0,
        OlympusIfdType::Equipment => 0x2010,
        OlympusIfdType::CameraSettings => 0x2020,
        OlympusIfdType::RawDevelopment => 0x2030,
        OlympusIfdType::ImageProcessing => 0x2040,
        OlympusIfdType::FocusInfo => 0x2050,
    };
    ((tag + off) % 0x10000) as u16
}

/// A tag's value once decoded for its directory.
pub open spec fn oly_value(
    t: OlympusIfdType,
    tag: u16,
    v: ValueView,
    model: Option<Seq<char>>,
    adjust: nat,
) -> ValueView {
    match t {
        OlympusIfdType::Main => main_value(tag, v),
        OlympusIfdType::Equipment => equip_value(tag, v),
        OlympusIfdType::CameraSettings => cs_value(tag, v, model, adjust),
        OlympusIfdType::RawDevelopment => rd_value(tag, v),
        OlympusIfdType::ImageProcessing => ip_value(tag, v),
        OlympusIfdType::FocusInfo => fi_value(tag, v, model),
    }
}

/// The camera model after a tag.
pub open spec fn oly_model(t: OlympusIfdType, tag: u16, v: ValueView, model: Option<Seq<char>>) -> Option<
    Seq<char>,
> {
    match t {
        OlympusIfdType::Main => main_model(tag, v, model),
        OlympusIfdType::Equipment => equip_model(tag, v, model),
        _ => model,
    }
}

/// The stored tag: named tags also carry the exiv2 group and name.
pub open spec fn oly_tag(t: OlympusIfdType, tag: u16, v: ValueView) -> TagView {
    match olympus_tag_name(tag, t) {
        Some(n) => TagView {
            tag_id: tag,
            tag_name: Some(n),
            value: v,
            exiv2_value: Some(v),
            exiv2_group: Some(exiv2_group_for_ifd(t)),
            exiv2_name: Some(n),
        },
        None => plain_tag(tag, None, v),
    }
}

/// Number of entries read from the directory at `off`: none when it is cut
/// short or announces more than 500, else those announced as far as whole
/// entries fit.
pub open spec fn oly_count(s: OlySrc, off: nat) -> nat {
    if off + 2 > s.data.len() {
        0
    } else {
        let n = at_u16(s.data, off as int, s.endian);
        if n > 500 || off + 2 + n * 12 > s.data.len() + 4 {
            0
        } else {
            let fit = (s.data.len() - (off + 2)) / 12;
            if (n as int) < fit {
                n as nat
            } else {
                fit as nat
            }
        }
    }
}

/// The sub-directory a main-IFD tag points to.
pub open spec fn sub_ifd_type(tag: u16) -> Option<OlympusIfdType> {
    if tag == OLYMPUS_EQUIPMENT_IFD {
        Some(OlympusIfdType::Equipment)
    } else if tag == OLYMPUS_CAMERA_SETTINGS_IFD {
        Some(OlympusIfdType::CameraSettings)
    } else if tag == OLYMPUS_RAW_DEVELOPMENT_IFD || tag == OLYMPUS_RAW_DEVELOPMENT2_IFD {
        Some(OlympusIfdType::RawDevelopment)
    } else if tag == OLYMPUS_IMAGE_PROCESSING_IFD {
        Some(OlympusIfdType::ImageProcessing)
    } else if tag == OLYMPUS_FOCUS_INFO_IFD {
        Some(OlympusIfdType::FocusInfo)
    } else {
        None
    }
}

/// Whether the sub-directory may also be embedded in the tag's value.
pub open spec fn may_embed(tag: u16) -> bool {
    tag == OLYMPUS_EQUIPMENT_IFD || tag == OLYMPUS_CAMERA_SETTINGS_IFD || tag
        == OLYMPUS_FOCUS_INFO_IFD
}

/// An embedded directory: read from the value's own bytes.
pub open spec fn embedded_src(s: OlySrc, b: Seq<u8>) -> OlySrc {
    OlySrc { data: b, base: 0, endian: s.endian, alt: s.alt, alt_base: s.alt_base, adjust: s.adjust }
}

/// The state after the first `k` entries of the directory at `off`.
pub open spec fn oly_scan(s: OlySrc, off: nat, t: OlympusIfdType, st: OlyState, k: nat) -> OlyState
    decreases ifd_rank(t), k, 1nat,
{
    if k == 0 {
        st
    } else {
        oly_step(s, off, t, oly_scan(s, off, t, st, (k - 1) as nat), (k - 1) as nat)
    }
}

/// The state after entry `k`: the tag is decoded and stored (thumbnails and a
/// CameraSettings SceneMode that the main IFD already gave are skipped), and
/// a main-IFD pointer to a sub-directory is followed at once.
pub open spec fn oly_step(s: OlySrc, off: nat, t: OlympusIfdType, st: OlyState, k: nat) -> OlyState
    decreases ifd_rank(t), k, 0nat,
{
    match oly_entry(s, (off + 2 + 12 * k) as int) {
        None => st,
        Some((tag, v)) => if (t == OlympusIfdType::Main && (tag == OLYMPUS_THUMBNAIL_IMAGE || tag
            == OLYMPUS_PREVIEW_IMAGE)) || (t == OlympusIfdType::CameraSettings && tag
            == CS_SCENE_MODE && st.tags.contains_key(OLYMPUS_SCENE_MODE)) {
            st
        } else {
            let v2 = oly_value(t, tag, v, st.model, s.adjust);
            let st2 = OlyState {
                tags: st.tags.insert(storage_id(t, tag), oly_tag(t, tag, v2)),
                model: oly_model(t, tag, v, st.model),
            };
            if t == OlympusIfdType::Main {
                match sub_ifd_type(tag) {
                    None => st2,
                    Some(sub) => match v2 {
                        ValueView::Long(l) => if l.len() > 0 {
                            let o = (l[0] + s.base) as nat;
                            oly_scan(s, o, sub, st2, oly_count(s, o))
                        } else {
                            st2
                        },
                        ValueView::Undefined(b) => if may_embed(tag) && b.len() > 2 {
                            let es = embedded_src(s, b);
                            oly_scan(es, 0, sub, st2, oly_count(es, 0))
                        } else {
                            st2
                        },
                        _ => st2,
                    },
                }
            } else {
                st2
            }
        },
    }
}

/// The state once the whole directory at `off` is read.
pub open spec fn oly_ifd(s: OlySrc, off: nat, t: OlympusIfdType, st: OlyState) -> OlyState {
    oly_scan(s, off, t, st, oly_count(s, off))
}

/// Whether the tags and model held match a parser state.
pub open spec fn oly_holds(tags: Map<u16, MakerNoteTag>, model: Option<String>, st: OlyState) -> bool {
    &&& tag_views(tags) == st.tags
    &&& model_view(model) == st.model
}

/// The source described by the parser's arguments.
pub open spec fn src_of(
    data: Seq<u8>,
    base: usize,
    endian: Endianness,
    value_data: Option<&[u8]>,
    value_base_offset: usize,
    adjust: usize,
) -> OlySrc {
    OlySrc {
        data,
        base: base as nat,
        endian,
        alt: opt_bytes(value_data),
        alt_base: value_base_offset as nat,
        adjust: adjust as nat,
    }
}

fn storage_id_exec(t: OlympusIfdType, tag: u16) -> (r: u16)
    ensures
        r == storage_id(t, tag),
{
    let off: u32 = match t {
        OlympusIfdType::Main => 0,
        OlympusIfdType::Equipment => 0x2010,
        OlympusIfdType::CameraSettings => 0x2020,
        OlympusIfdType::RawDevelopment => 0x2030,
        OlympusIfdType::ImageProcessing => 0x2040,
        OlympusIfdType::FocusInfo => 0x2050,
    };
    ((tag as u32 + off) % 0x10000) as u16
}

fn sub_ifd_type_exec(tag: u16) -> (r: Option<OlympusIfdType>)
    ensures
        r == sub_ifd_type(tag),
{
    if tag == OLYMPUS_EQUIPMENT_IFD {
        Some(OlympusIfdType::Equipment)
    } else if tag == OLYMPUS_CAMERA_SETTINGS_IFD {
        Some(OlympusIfdType::CameraSettings)
    } else if tag == OLYMPUS_RAW_DEVELOPMENT_IFD || tag == OLYMPUS_RAW_DEVELOPMENT2_IFD {
        Some(OlympusIfdType::RawDevelopment)
    } else if tag == OLYMPUS_IMAGE_PROCESSING_IFD {
        Some(OlympusIfdType::ImageProcessing)
    } else if tag == OLYMPUS_FOCUS_INFO_IFD {
        Some(OlympusIfdType::FocusInfo)
    } else {
        None
    }
}

fn decode_for_ifd(
    t: OlympusIfdType,
    tag: u16,
    value: ExifValue,
    camera_model: &mut Option<String>,
    adjust: usize,
) -> (r: ExifValue)
    ensures
        r@ == oly_value(t, tag, value@, model_view(*old(camera_model)), adjust as nat),
        model_view(*final(camera_model)) == oly_model(
            t,
            tag,
            value@,
            model_view(*old(camera_model)),
        ),
{
    match t {
        OlympusIfdType::Main => decode_main(tag, value, camera_model),
        OlympusIfdType::Equipment => decode_equipment(tag, value, camera_model),
        OlympusIfdType::CameraSettings => decode_camera_settings(tag, value, camera_model, adjust),
        OlympusIfdType::RawDevelopment => decode_raw_development(tag, value),
        OlympusIfdType::ImageProcessing => decode_image_processing(tag, value),
        OlympusIfdType::FocusInfo => decode_focus_info(tag, value, camera_model),
    }
}

/// Reads entry `k` of the directory at `ifd_offset` into the tags.
fn olympus_entry_step(
    data: &[u8],
    ifd_offset: usize,
    base_offset: usize,
    endian: Endianness,
    ifd_type: OlympusIfdType,
    tags: &mut HashMap<u16, MakerNoteTag>,
    value_data: Option<&[u8]>,
    value_base_offset: usize,
    camera_model: &mut Option<String>,
    preview_offset_adjust: usize,
    k: usize,
    Ghost(st): Ghost<OlyState>,
)
    requires
        ifd_offset + 2 <= data.len(),
        k < (data.len() - (ifd_offset + 2)) / 12,
        oly_holds(old(tags)@, *old(camera_model), st),
    ensures
        oly_holds(
            final(tags)@,
            *final(camera_model),
            oly_step(
                src_of(
                    data@,
                    base_offset,
                    endian,
                    value_data,
                    value_base_offset,
                    preview_offset_adjust,
                ),
                ifd_offset as nat,
                ifd_type,
                st,
                k as nat,
            ),
        ),
    decreases ifd_rank(ifd_type), 0nat,
{
    broadcast use vstd::std_specs::hash::group_hash_axioms;

    let ghost s = src_of(data@, base_offset, endian, value_data, value_base_offset, preview_offset_adjust);
    let p = ifd_offset + 2 + 12 * k;
    let (tag_id, value) = match parse_ifd_entry(
        data,
        p,
        base_offset,
        endian,
        value_data,
        value_base_offset,
        Ghost(s),
    ) {
        Some(e) => e,
        None => {
            return;
        },
    };
    if ifd_type == OlympusIfdType::Main && (tag_id == OLYMPUS_THUMBNAIL_IMAGE || tag_id
        == OLYMPUS_PREVIEW_IMAGE) {
        return;
    }
    if ifd_type == OlympusIfdType::CameraSettings && tag_id == CS_SCENE_MODE && tags.contains_key(
        &OLYMPUS_SCENE_MODE,
    ) {
        return;
    }
    let tag_name = get_olympus_tag_name(tag_id, ifd_type);
    let sid = storage_id_exec(ifd_type, tag_id);
    let value = decode_for_ifd(ifd_type, tag_id, value, camera_model, preview_offset_adjust);
    let mut sub_long: Option<u32> = None;
    let mut sub_bytes: Option<Vec<u8>> = None;
    match &value {
        ExifValue::Long(l) => {
            if l.len() > 0 {
                sub_long = Some(l[0]);
            }
        },
        ExifValue::Undefined(b) => {
            if b.len() > 2 {
                let c = b.clone();
                assert(c@ =~= b@);
                sub_bytes = Some(c);
            }
        },
        _ => {},
    }
    let ghost v2 = value@;
    let tag = match tag_name {
        Some(name) => MakerNoteTag::with_exiv2(
            tag_id,
            tag_name,
            value.duplicate(),
            value,
            get_exiv2_group_for_ifd(ifd_type),
            name,
        ),
        None => MakerNoteTag::new(tag_id, tag_name, value),
    };
    let ghost before = tags@;
    tags.insert(sid, tag);
    proof {
        assert(tag_views(tags@) =~= tag_views(before).insert(sid, tag@));
    }
    if ifd_type != OlympusIfdType::Main {
        return;
    }
    let sub_t = match sub_ifd_type_exec(tag_id) {
        Some(t) => t,
        None => {
            return;
        },
    };
    match sub_long {
        Some(o) => {
            let off: u128 = o as u128 + base_offset as u128;
            if off < data.len() as u128 {
                parse_olympus_ifd(
                    data,
                    off as usize,
                    base_offset,
                    endian,
                    sub_t,
                    tags,
                    value_data,
                    value_base_offset,
                    camera_model,
                    preview_offset_adjust,
                );
            }
        },
        None => {
            if let Some(b) = sub_bytes {
                if tag_id == OLYMPUS_EQUIPMENT_IFD || tag_id == OLYMPUS_CAMERA_SETTINGS_IFD || tag_id
                    == OLYMPUS_FOCUS_INFO_IFD {
                    parse_embedded_sub_ifd(
                        b.as_slice(),
                        endian,
                        sub_t,
                        tags,
                        camera_model,
                        preview_offset_adjust,
                        value_data,
                        value_base_offset,
                    );
                }
            }
        },
    }
}

/// Reads a sub-directory embedded in a value: its entries and offsets count
/// from the value's first byte; out-of-line values of the old format are still
/// read from the TIFF data.
fn parse_embedded_sub_ifd(
    sub_data: &[u8],
    endian: Endianness,
    ifd_type: OlympusIfdType,
    tags: &mut HashMap<u16, MakerNoteTag>,
    camera_model: &mut Option<String>,
    preview_offset_adjust: usize,
    value_data: Option<&[u8]>,
    value_base_offset: usize,
)
    requires
        ifd_type != OlympusIfdType::Main,
    ensures
        ({
            let st0 = OlyState {
                tags: tag_views(old(tags)@),
                model: model_view(*old(camera_model)),
            };
            oly_holds(
                final(tags)@,
                *final(camera_model),
                oly_ifd(
                    src_of(sub_data@, 0, endian, value_data, value_base_offset, preview_offset_adjust),
                    0,
                    ifd_type,
                    st0,
                ),
            )
        }),
    decreases ifd_rank(ifd_type), 2nat,
{
    parse_olympus_ifd(
        sub_data,
        0,
        0,
        endian,
        ifd_type,
        tags,
        value_data,
        value_base_offset,
        camera_model,
        preview_offset_adjust,
    );
}

/// Reads the directory at `ifd_offset` of `data`, storing each tag under its
/// storage ID and following the main IFD's pointers to sub-directories.
fn parse_olympus_ifd(
    data: &[u8],
    ifd_offset: usize,
    base_offset: usize,
    endian: Endianness,
    ifd_type: OlympusIfdType,
    tags: &mut HashMap<u16, MakerNoteTag>,
    value_data: Option<&[u8]>,
    value_base_offset: usize,
    camera_model: &mut Option<String>,
    preview_offset_adjust: usize,
)
    ensures
        ({
            let st0 = OlyState {
                tags: tag_views(old(tags)@),
                model: model_view(*old(camera_model)),
            };
            oly_holds(
                final(tags)@,
                *final(camera_model),
                oly_ifd(
                    src_of(
                        data@,
                        base_offset,
                        endian,
                        value_data,
                        value_base_offset,
                        preview_offset_adjust,
                    ),
                    ifd_offset as nat,
                    ifd_type,
                    st0,
                ),
            )
        }),
    decreases ifd_rank(ifd_type), 1nat,
{
    let ghost s = src_of(data@, base_offset, endian, value_data, value_base_offset, preview_offset_adjust);
    let ghost st0 = OlyState { tags: tag_views(tags@), model: model_view(*camera_model) };
    if ifd_offset as u128 + 2 > data.len() as u128 {
        return;
    }
    let num_entries = read_u16_at(data, ifd_offset, endian);
    if num_entries > 500 || ifd_offset as u128 + 2 + 12 * num_entries as u128 > data.len() as u128
        + 4 {
        return;
    }
    let available = data.len() - (ifd_offset + 2);
    let max_entries = available / 12;
    let actual: usize = if (num_entries as usize) < max_entries {
        num_entries as usize
    } else {
        max_entries
    };
    assert(actual == oly_count(s, ifd_offset as nat));
    let mut i: usize = 0;
    while i < actual
        invariant
            s == src_of(data@, base_offset, endian, value_data, value_base_offset, preview_offset_adjust),
            ifd_offset + 2 <= data.len(),
            available == data.len() - (ifd_offset + 2),
            actual <= available / 12,
            actual == oly_count(s, ifd_offset as nat),
            i <= actual,
            oly_holds(tags@, *camera_model, oly_scan(s, ifd_offset as nat, ifd_type, st0, i as nat)),
        decreases actual - i,
    {
        olympus_entry_step(
            data,
            ifd_offset,
            base_offset,
            endian,
            ifd_type,
            tags,
            value_data,
            value_base_offset,
            camera_model,
            preview_offset_adjust,
            i,
            Ghost(oly_scan(s, ifd_offset as nat, ifd_type, st0, i as nat)),
        );
        i = i + 1;
    }
}

// ---------------------------------------------------------------------------
// Maker note
// ---------------------------------------------------------------------------

/// Whether `d` starts with "OM SYSTEM" and a NUL.
pub open spec fn om_system_header(d: Seq<u8>) -> bool {
    d.len() >= 10 && d[0] == 0x4f && d[1] == 0x4d && d[2] == 0x20 && d[3] == 0x53 && d[4] == 0x59
        && d[5] == 0x53 && d[6] == 0x54 && d[7] == 0x45 && d[8] == 0x4d && d[9] == 0
}

/// Whether `d` starts with "OLYMPUS" and a NUL.
pub open spec fn olympus_header(d: Seq<u8>) -> bool {
    d.len() >= 8 && d[0] == 0x4f && d[1] == 0x4c && d[2] == 0x59 && d[3] == 0x4d && d[4] == 0x50
        && d[5] == 0x55 && d[6] == 0x53 && d[7] == 0
}

/// Whether `d` starts with "OLYMP" and a NUL (the old format).
pub open spec fn olymp_header(d: Seq<u8>) -> bool {
    d.len() >= 6 && d[0] == 0x4f && d[1] == 0x4c && d[2] == 0x59 && d[3] == 0x4d && d[4] == 0x50
        && d[5] == 0
}

/// The byte order named by "II" or "MM" at `pos`.
pub open spec fn order_mark(d: Seq<u8>, pos: int) -> Option<Endianness> {
    if d[pos] == 0x49 && d[pos + 1] == 0x49 {
        Some(Endianness::Little)
    } else if d[pos] == 0x4d && d[pos + 1] == 0x4d {
        Some(Endianness::Big)
    } else {
        None
    }
}

/// Byte order, offset of the main IFD and whether the note is in the old
/// format, from the note's header; `None` when the note is not read.
pub open spec fn olympus_layout(d: Seq<u8>, tiff_endian: Endianness) -> Option<
    (Endianness, nat, bool),
> {
    if d.len() < 8 {
        None
    } else if om_system_header(d) {
        if d.len() < 18 {
            None
        } else {
            match order_mark(d, 12) {
                Some(e) => Some((e, 16, false)),
                None => None,
            }
        }
    } else if olympus_header(d) {
        if d.len() < 14 {
            None
        } else {
            match order_mark(d, 8) {
                Some(e) => Some((e, 12, false)),
                None => None,
            }
        }
    } else if olymp_header(d) {
        Some((tiff_endian, 8, true))
    } else {
        None
    }
}

/// The tags of an Olympus maker note. Old-format notes read out-of-line values
/// from the TIFF data; new-format notes shift PreviewImageStart from the note
/// to the TIFF header.
pub open spec fn olympus_maker_notes(
    d: Seq<u8>,
    tiff_endian: Endianness,
    tiff: Option<Seq<u8>>,
    tiff_offset: nat,
    note_offset: Option<nat>,
) -> Map<u16, TagView> {
    match olympus_layout(d, tiff_endian) {
        None => Map::empty(),
        Some((e, off, old_format)) => {
            let adjust: nat = if old_format {
                0
            } else {
                match note_offset {
                    Some(n) => if n > tiff_offset {
                        (n - tiff_offset) as nat
                    } else {
                        0
                    },
                    None => 0,
                }
            };
            let s = OlySrc {
                data: d,
                base: 0,
                endian: e,
                alt: if old_format {
                    tiff
                } else {
                    None
                },
                alt_base: if old_format {
                    tiff_offset
                } else {
                    0
                },
                adjust,
            };
            oly_ifd(s, off, OlympusIfdType::Main, OlyState { tags: Map::empty(), model: None }).tags
        },
    }
}

fn order_mark_exec(d: &[u8], pos: usize) -> (r: Option<Endianness>)
    requires
        pos + 2 <= d.len(),
    ensures
        r == order_mark(d@, pos as int),
{
    if d[pos] == 0x49 && d[pos + 1] == 0x49 {
        Some(Endianness::Little)
    } else if d[pos] == 0x4d && d[pos + 1] == 0x4d {
        Some(Endianness::Big)
    } else {
        None
    }
}

/// Parses an Olympus maker note: the new ("OLYMPUS"), OM Digital ("OM SYSTEM")
/// and old ("OLYMP") formats, with the Equipment, CameraSettings,
/// RawDevelopment, ImageProcessing and FocusInfo sub-directories. Tags are keyed
/// by storage ID. A non-zero MaxAperture is left as read (its text is a
/// floating-point power of two).
pub fn parse_olympus_maker_notes(
    data: &[u8],
    tiff_endian: Endianness,
    tiff_data: Option<&[u8]>,
    tiff_offset: usize,
    makernote_file_offset: Option<usize>,
) -> (r: Result<HashMap<u16, MakerNoteTag>, ExifError>)
    ensures
        match r {
            Ok(m) => tag_views(m@) == olympus_maker_notes(
                data@,
                tiff_endian,
                opt_bytes(tiff_data),
                tiff_offset as nat,
                match makernote_file_offset {
                    Some(n) => Some(n as nat),
                    None => None,
                },
            ),
            Err(_) => false,
        },
{
    broadcast use vstd::std_specs::hash::group_hash_axioms;

    let mut tags: HashMap<u16, MakerNoteTag> = HashMap::new();
    proof {
        assert(tag_views(tags@) =~= Map::<u16, TagView>::empty());
    }
    if data.len() < 8 {
        return Ok(tags);
    }
    let is_om = data.len() >= 10 && data[0] == 0x4f && data[1] == 0x4d && data[2] == 0x20 && data[3]
        == 0x53 && data[4] == 0x59 && data[5] == 0x53 && data[6] == 0x54 && data[7] == 0x45
        && data[8] == 0x4d && data[9] == 0;
    let is_olympus = data[0] == 0x4f && data[1] == 0x4c && data[2] == 0x59 && data[3] == 0x4d
        && data[4] == 0x50 && data[5] == 0x55 && data[6] == 0x53 && data[7] == 0;
    let is_olymp = data[0] == 0x4f && data[1] == 0x4c && data[2] == 0x59 && data[3] == 0x4d
        && data[4] == 0x50 && data[5] == 0;
    let (mn_endian, ifd_offset, is_old_format): (Endianness, usize, bool) = if is_om {
        if data.len() < 18 {
            return Ok(tags);
        }
        match order_mark_exec(data, 12) {
            Some(e) => (e, 16, false),
            None => {
                return Ok(tags);
            },
        }
    } else if is_olympus {
        if data.len() < 14 {
            return Ok(tags);
        }
        match order_mark_exec(data, 8) {
            Some(e) => (e, 12, false),
            None => {
                return Ok(tags);
            },
        }
    } else if is_olymp {
        (tiff_endian, 8, true)
    } else {
        return Ok(tags);
    };
    let value_data = if is_old_format {
        tiff_data
    } else {
        None
    };
    let value_base_offset = if is_old_format {
        tiff_offset
    } else {
        0
    };
    let preview_offset_adjust: usize = if is_old_format {
        0
    } else {
        match makernote_file_offset {
            Some(n) => if n > tiff_offset {
                n - tiff_offset
            } else {
                0
            },
            None => 0,
        }
    };
    let mut camera_model: Option<String> = None;
    parse_olympus_ifd(
        data,
        ifd_offset,
        0,
        mn_endian,
        OlympusIfdType::Main,
        &mut tags,
        value_data,
        value_base_offset,
        &mut camera_model,
        preview_offset_adjust,
    );
    Ok(tags)
}

} // verus!
