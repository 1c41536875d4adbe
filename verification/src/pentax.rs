//! Pentax maker notes: tag names, value decoders and the maker-note directory.
use vstd::prelude::*;
use crate::bytes::{be32, read_u16, read_u32, read_u32_at, read_u16_at, u16_of, u32_of, Endianness};
use crate::types::{tag_views, plain_tag, ExifError, ExifValue, MakerNoteTag, TagView, ValueView};
use std::collections::HashMap;
use crate::tiff::{first_bytes, items_read, read_shorts, read_longs, read_rationals, read_shorts_exec, read_longs_exec, read_rationals_exec};
use crate::text::{
    dec, fmt_dec, fmt_hex_list, hex_list, join, join_strings, owned, push_char, push_dec,
    push_dec_pad, push_str, push_tenths, push_thousandths, round_half_even, round_half_even_exec,
    strip_nuls, tenths, tenths_text, thousandths_text, trim_end_nuls, lossy_string, utf8_lossy, views,
    zero_pad,
};

verus! {

pub const PENTAX_VERSION: u16 = 0x0000;
pub const PENTAX_MODE: u16 = 0x0001;
pub const PENTAX_PREVIEW_RESOLUTION: u16 = 0x0002;
pub const PENTAX_PREVIEW_LENGTH: u16 = 0x0003;
pub const PENTAX_PREVIEW_OFFSET: u16 = 0x0004;
pub const PENTAX_MODEL_ID: u16 = 0x0005;
pub const PENTAX_DATE: u16 = 0x0006;
pub const PENTAX_TIME: u16 = 0x0007;
pub const PENTAX_QUALITY: u16 = 0x0008;
pub const PENTAX_IMAGE_SIZE: u16 = 0x0009;
pub const PENTAX_FLASH_MODE: u16 = 0x000B;
pub const PENTAX_FOCUS_MODE: u16 = 0x000D;
pub const PENTAX_AF_POINT_SELECTED: u16 = 0x000E;
pub const PENTAX_AF_POINTS_IN_FOCUS: u16 = 0x000F;
pub const PENTAX_FOCUS_POSITION: u16 = 0x0010;
pub const PENTAX_EXPOSURE_TIME: u16 = 0x0012;
pub const PENTAX_F_NUMBER: u16 = 0x0013;
pub const PENTAX_ISO: u16 = 0x0014;
pub const PENTAX_LIGHT_READING: u16 = 0x0015;
pub const PENTAX_EXPOSURE_COMPENSATION: u16 = 0x0016;
pub const PENTAX_METERING_MODE: u16 = 0x0017;
pub const PENTAX_AUTO_BRACKETING: u16 = 0x0018;
pub const PENTAX_WHITE_BALANCE: u16 = 0x0019;
pub const PENTAX_WHITE_BALANCE_MODE: u16 = 0x001A;
pub const PENTAX_BLUE_BALANCE: u16 = 0x001B;
pub const PENTAX_RED_BALANCE: u16 = 0x001C;
pub const PENTAX_FOCAL_LENGTH: u16 = 0x001D;
pub const PENTAX_DIGITAL_ZOOM: u16 = 0x001E;
pub const PENTAX_SATURATION: u16 = 0x001F;
pub const PENTAX_CONTRAST: u16 = 0x0020;
pub const PENTAX_SHARPNESS: u16 = 0x0021;
pub const PENTAX_WORLD_TIME_LOCATION: u16 = 0x0022;
pub const PENTAX_HOMETOWN_CITY: u16 = 0x0023;
pub const PENTAX_DESTINATION_CITY: u16 = 0x0024;
pub const PENTAX_HOMETOWN_DST: u16 = 0x0025;
pub const PENTAX_DESTINATION_DST: u16 = 0x0026;
pub const PENTAX_DSP_FIRMWARE_VERSION: u16 = 0x0027;
pub const PENTAX_CPU_FIRMWARE_VERSION: u16 = 0x0028;
pub const PENTAX_FRAME_NUMBER: u16 = 0x0029;
pub const PENTAX_EFFECTIVE_LV: u16 = 0x002D;
pub const PENTAX_IMAGE_EDITING: u16 = 0x0032;
pub const PENTAX_PICTURE_MODE: u16 = 0x0033;
pub const PENTAX_DRIVE_MODE: u16 = 0x0034;
pub const PENTAX_SENSOR_SIZE: u16 = 0x0035;
pub const PENTAX_COLOR_SPACE: u16 = 0x0037;
pub const PENTAX_IMAGE_AREA_OFFSET: u16 = 0x0038;
pub const PENTAX_RAW_IMAGE_SIZE: u16 = 0x0039;
pub const PENTAX_AF_POINTS_USED: u16 = 0x003C;
pub const PENTAX_LENS_TYPE: u16 = 0x003F;
pub const PENTAX_SENSITIVITY_ADJUST: u16 = 0x0040;
pub const PENTAX_IMAGE_PROCESSING: u16 = 0x0041;
pub const PENTAX_PREVIEW_IMAGE_BORDERS: u16 = 0x0042;
pub const PENTAX_LENS_DATA: u16 = 0x0043;
pub const PENTAX_SENSITIVITY_STEPS: u16 = 0x0044;
pub const PENTAX_CAMERAS_ORIENTATION: u16 = 0x0047;
pub const PENTAX_NR_LEVEL: u16 = 0x0048;
pub const PENTAX_NOISE_REDUCTION: u16 = 0x0049;
pub const PENTAX_DATA_DUMP: u16 = 0x0050;
pub const PENTAX_SHAKE_REDUCTION_INFO: u16 = 0x005C;
pub const PENTAX_SHUTTER_COUNT: u16 = 0x005D;
pub const PENTAX_BLACK_POINT: u16 = 0x0200;
pub const PENTAX_WHITE_POINT: u16 = 0x0201;
pub const PENTAX_COLOR_MATRIX_A: u16 = 0x0203;
pub const PENTAX_COLOR_MATRIX_B: u16 = 0x0204;
pub const PENTAX_AE_INFO: u16 = 0x0206;
pub const PENTAX_AF_INFO: u16 = 0x0207;
pub const PENTAX_FLASH_INFO: u16 = 0x0208;
pub const PENTAX_LENS_INFO: u16 = 0x0215;
pub const PENTAX_CAMERA_INFO: u16 = 0x0216;
pub const PENTAX_BATTERY_INFO: u16 = 0x0217;
pub const PENTAX_SHOT_INFO: u16 = 0x021F;
pub const PENTAX_HOMTOWN_CITY_CODE: u16 = 0x0227;
pub const PENTAX_DESTINATION_CITY_CODE: u16 = 0x0228;
pub const PENTAX_SERIAL_NUMBER: u16 = 0x0229;
pub const PENTAX_PIXEL_SHIFT_INFO: u16 = 0x022A;
pub const PENTAX_AF_POINT_INFO: u16 = 0x022B;
pub const PENTAX_HDR_INFO: u16 = 0x022E;
pub const PENTAX_TEMPERATURE_INFO: u16 = 0x0230;
pub const PENTAX_SERIAL_NUMBER_2: u16 = 0x0231;

/// Name of a Pentax maker-note tag.
pub open spec fn pentax_tag_name(tag_id: u16) -> Option<&'static str> {
    match tag_id {
        0x0000 => Some("PentaxVersion"),
        0x0001 => Some("PentaxMode"),
        0x0002 => Some("PreviewResolution"),
        0x0003 => Some("PreviewLength"),
        0x0004 => Some("PreviewOffset"),
        0x0005 => Some("PentaxModelID"),
        0x0006 => Some("Date"),
        0x0007 => Some("Time"),
        0x0008 => Some("Quality"),
        0x0009 => Some("PentaxImageSize"),
        0x000B => Some("FlashMode"),
        0x000D => Some("FocusMode"),
        0x000E => Some("AFPointSelected"),
        0x000F => Some("AFPointsInFocus"),
        0x0010 => Some("FocusPosition"),
        0x0012 => Some("ExposureTime"),
        0x0013 => Some("FNumber"),
        0x0014 => Some("ISO"),
        0x0015 => Some("LightReading"),
        0x0016 => Some("ExposureCompensation"),
        0x0017 => Some("MeteringMode"),
        0x0018 => Some("AutoBracketing"),
        0x0019 => Some("WhiteBalance"),
        0x001A => Some("WhiteBalanceMode"),
        0x001B => Some("BlueBalance"),
        0x001C => Some("RedBalance"),
        0x001D => Some("FocalLength"),
        0x001E => Some("DigitalZoom"),
        0x001F => Some("Saturation"),
        0x0020 => Some("Contrast"),
        0x0021 => Some("Sharpness"),
        0x0022 => Some("WorldTimeLocation"),
        0x0023 => Some("HometownCity"),
        0x0024 => Some("DestinationCity"),
        0x0025 => Some("HometownDST"),
        0x0026 => Some("DestinationDST"),
        0x0027 => Some("DSPFirmwareVersion"),
        0x0028 => Some("CPUFirmwareVersion"),
        0x0029 => Some("FrameNumber"),
        0x002D => Some("EffectiveLV"),
        0x0032 => Some("ImageEditing"),
        0x0033 => Some("PictureMode"),
        0x0034 => Some("DriveMode"),
        0x0035 => Some("SensorSize"),
        0x0037 => Some("ColorSpace"),
        0x0038 => Some("ImageAreaOffset"),
        0x0039 => Some("RawImageSize"),
        0x003C => Some("AFPointsUsed"),
        0x003F => Some("LensType"),
        0x0040 => Some("SensitivityAdjust"),
        0x0041 => Some("ImageProcessing"),
        0x0042 => Some("PreviewImageBorders"),
        0x0043 => Some("LensData"),
        0x0044 => Some("SensitivitySteps"),
        0x0047 => Some("CameraOrientation"),
        0x0048 => Some("NoiseReductionLevel"),
        0x0049 => Some("NoiseReduction"),
        0x0050 => Some("DataDump"),
        0x005C => Some("ShakeReductionInfo"),
        0x005D => Some("ShutterCount"),
        0x0200 => Some("BlackPoint"),
        0x0201 => Some("WhitePoint"),
        0x0203 => Some("ColorMatrixA"),
        0x0204 => Some("ColorMatrixB"),
        0x0206 => Some("AEInfo"),
        0x0207 => Some("AFInfo"),
        0x0208 => Some("FlashInfo"),
        0x0215 => Some("LensInfo"),
        0x0216 => Some("CameraInfo"),
        0x0217 => Some("BatteryInfo"),
        0x021F => Some("ShotInfo"),
        0x0227 => Some("HometownCityCode"),
        0x0228 => Some("DestinationCityCode"),
        0x0229 => Some("SerialNumber"),
        0x022A => Some("PixelShiftInfo"),
        0x022B => Some("AFPointInfo"),
        0x022E => Some("HDRInfo"),
        0x0230 => Some("TemperatureInfo"),
        0x0231 => Some("SerialNumber2"),
        _ => None,
    }
}

/// Name of a Pentax maker-note tag.
pub fn get_pentax_tag_name(tag_id: u16) -> (r: Option<&'static str>)
    ensures
        r == pentax_tag_name(tag_id),
{
    match tag_id {
        0x0000 => Some("PentaxVersion"),
        0x0001 => Some("PentaxMode"),
        0x0002 => Some("PreviewResolution"),
        0x0003 => Some("PreviewLength"),
        0x0004 => Some("PreviewOffset"),
        0x0005 => Some("PentaxModelID"),
        0x0006 => Some("Date"),
        0x0007 => Some("Time"),
        0x0008 => Some("Quality"),
        0x0009 => Some("PentaxImageSize"),
        0x000B => Some("FlashMode"),
        0x000D => Some("FocusMode"),
        0x000E => Some("AFPointSelected"),
        0x000F => Some("AFPointsInFocus"),
        0x0010 => Some("FocusPosition"),
        0x0012 => Some("ExposureTime"),
        0x0013 => Some("FNumber"),
        0x0014 => Some("ISO"),
        0x0015 => Some("LightReading"),
        0x0016 => Some("ExposureCompensation"),
        0x0017 => Some("MeteringMode"),
        0x0018 => Some("AutoBracketing"),
        0x0019 => Some("WhiteBalance"),
        0x001A => Some("WhiteBalanceMode"),
        0x001B => Some("BlueBalance"),
        0x001C => Some("RedBalance"),
        0x001D => Some("FocalLength"),
        0x001E => Some("DigitalZoom"),
        0x001F => Some("Saturation"),
        0x0020 => Some("Contrast"),
        0x0021 => Some("Sharpness"),
        0x0022 => Some("WorldTimeLocation"),
        0x0023 => Some("HometownCity"),
        0x0024 => Some("DestinationCity"),
        0x0025 => Some("HometownDST"),
        0x0026 => Some("DestinationDST"),
        0x0027 => Some("DSPFirmwareVersion"),
        0x0028 => Some("CPUFirmwareVersion"),
        0x0029 => Some("FrameNumber"),
        0x002D => Some("EffectiveLV"),
        0x0032 => Some("ImageEditing"),
        0x0033 => Some("PictureMode"),
        0x0034 => Some("DriveMode"),
        0x0035 => Some("SensorSize"),
        0x0037 => Some("ColorSpace"),
        0x0038 => Some("ImageAreaOffset"),
        0x0039 => Some("RawImageSize"),
        0x003C => Some("AFPointsUsed"),
        0x003F => Some("LensType"),
        0x0040 => Some("SensitivityAdjust"),
        0x0041 => Some("ImageProcessing"),
        0x0042 => Some("PreviewImageBorders"),
        0x0043 => Some("LensData"),
        0x0044 => Some("SensitivitySteps"),
        0x0047 => Some("CameraOrientation"),
        0x0048 => Some("NoiseReductionLevel"),
        0x0049 => Some("NoiseReduction"),
        0x0050 => Some("DataDump"),
        0x005C => Some("ShakeReductionInfo"),
        0x005D => Some("ShutterCount"),
        0x0200 => Some("BlackPoint"),
        0x0201 => Some("WhitePoint"),
        0x0203 => Some("ColorMatrixA"),
        0x0204 => Some("ColorMatrixB"),
        0x0206 => Some("AEInfo"),
        0x0207 => Some("AFInfo"),
        0x0208 => Some("FlashInfo"),
        0x0215 => Some("LensInfo"),
        0x0216 => Some("CameraInfo"),
        0x0217 => Some("BatteryInfo"),
        0x021F => Some("ShotInfo"),
        0x0227 => Some("HometownCityCode"),
        0x0228 => Some("DestinationCityCode"),
        0x0229 => Some("SerialNumber"),
        0x022A => Some("PixelShiftInfo"),
        0x022B => Some("AFPointInfo"),
        0x022E => Some("HDRInfo"),
        0x0230 => Some("TemperatureInfo"),
        0x0231 => Some("SerialNumber2"),
        _ => None,
    }
}

/// Name of a Pentax camera model from its model ID.
pub open spec fn pentax_model_name(model_id: u32) -> Option<&'static str> {
    match model_id {
        0x0000d => Some("Optio 330/430"),
        0x12926 => Some("Optio 230"),
        0x12958 => Some("Optio 330GS"),
        0x12962 => Some("Optio 450/550"),
        0x1296c => Some("Optio S"),
        0x12971 => Some("Optio S V1.01"),
        0x12994 => Some("*ist D"),
        0x129b2 => Some("Optio 33L"),
        0x129bc => Some("Optio 33LF"),
        0x129c6 => Some("Optio 33WR/43WR/555"),
        0x129d5 => Some("Optio S4"),
        0x12a02 => Some("Optio MX"),
        0x12a0c => Some("Optio S40"),
        0x12a16 => Some("Optio S4i"),
        0x12a34 => Some("Optio 30"),
        0x12a52 => Some("Optio S30"),
        0x12a66 => Some("Optio 750Z"),
        0x12a70 => Some("Optio SV"),
        0x12a75 => Some("Optio SVi"),
        0x12a7a => Some("Optio X"),
        0x12a8e => Some("Optio S5i"),
        0x12a98 => Some("Optio S50"),
        0x12aa2 => Some("*ist DS"),
        0x12ab6 => Some("Optio MX4"),
        0x12ac0 => Some("Optio S5n"),
        0x12aca => Some("Optio WP"),
        0x12afc => Some("Optio S55"),
        0x12b10 => Some("Optio S5z"),
        0x12b1a => Some("*ist DL"),
        0x12b24 => Some("Optio S60"),
        0x12b2e => Some("Optio S45"),
        0x12b38 => Some("Optio S6"),
        0x12b4c => Some("Optio WPi"),
        0x12b56 => Some("BenQ DC X600"),
        0x12b60 => Some("*ist DS2"),
        0x12b62 => Some("Samsung GX-1S"),
        0x12b6a => Some("Optio A10"),
        0x12b7e => Some("*ist DL2"),
        0x12b80 => Some("Samsung GX-1L"),
        0x12b9c => Some("K100D"),
        0x12b9d => Some("K110D"),
        0x12ba2 => Some("K100D Super"),
        0x12bb0 => Some("Optio T10/T20"),
        0x12be2 => Some("Optio W10"),
        0x12bf6 => Some("Optio M10"),
        0x12c1e => Some("K10D"),
        0x12c20 => Some("Samsung GX10"),
        0x12c28 => Some("Optio S7"),
        0x12c2d => Some("Optio L20"),
        0x12c32 => Some("Optio M20"),
        0x12c3c => Some("Optio W20"),
        0x12c46 => Some("Optio A20"),
        0x12c78 => Some("Optio E30"),
        0x12c7d => Some("Optio E35"),
        0x12c82 => Some("Optio T30"),
        0x12c8c => Some("Optio M30"),
        0x12c91 => Some("Optio L30"),
        0x12c96 => Some("Optio W30"),
        0x12ca0 => Some("Optio A30"),
        0x12cb4 => Some("Optio E40"),
        0x12cbe => Some("Optio M40"),
        0x12cc3 => Some("Optio L40"),
        0x12cc5 => Some("Optio L36"),
        0x12cc8 => Some("Optio Z10"),
        0x12cd2 => Some("K20D"),
        0x12cd4 => Some("Samsung GX20"),
        0x12cdc => Some("Optio S10"),
        0x12ce6 => Some("Optio A40"),
        0x12cf0 => Some("Optio V10"),
        0x12cfa => Some("K200D"),
        0x12d04 => Some("Optio S12"),
        0x12d0e => Some("Optio E50"),
        0x12d18 => Some("Optio M50"),
        0x12d22 => Some("Optio L50"),
        0x12d2c => Some("Optio V20"),
        0x12d40 => Some("Optio W60"),
        0x12d4a => Some("Optio M60"),
        0x12d68 => Some("Optio E60/M90"),
        0x12d72 => Some("K2000"),
        0x12d73 => Some("K-m"),
        0x12d86 => Some("Optio P70"),
        0x12d90 => Some("Optio L70"),
        0x12d9a => Some("Optio E70"),
        0x12dae => Some("X70"),
        0x12db8 => Some("K-7"),
        0x12dcc => Some("Optio W80"),
        0x12dea => Some("Optio P80"),
        0x12df4 => Some("Optio WS80"),
        0x12dfe => Some("K-x"),
        0x12e08 => Some("645D"),
        0x12e12 => Some("Optio E80"),
        0x12e30 => Some("Optio W90"),
        0x12e3a => Some("Optio I-10"),
        0x12e44 => Some("Optio H90"),
        0x12e4e => Some("Optio E90"),
        0x12e58 => Some("X90"),
        0x12e6c => Some("K-r"),
        0x12e76 => Some("K-5"),
        0x12e8a => Some("Optio RS1000/RS1500"),
        0x12e94 => Some("Optio RZ10"),
        0x12e9e => Some("Optio LS1000"),
        0x12ebc => Some("Optio WG-1 GPS"),
        0x12ed0 => Some("Optio S1"),
        0x12ee4 => Some("Q"),
        0x12ef8 => Some("K-01"),
        0x12f0c => Some("Optio RZ18"),
        0x12f16 => Some("Optio VS20"),
        0x12f2a => Some("Optio WG-2 GPS"),
        0x12f48 => Some("Optio LS465"),
        0x12f52 => Some("K-30"),
        0x12f5c => Some("X-5"),
        0x12f66 => Some("Q10"),
        0x12f70 => Some("K-5 II"),
        0x12f71 => Some("K-5 II s"),
        0x12f7a => Some("Q7"),
        0x12f84 => Some("MX-1"),
        0x12f8e => Some("WG-3 GPS"),
        0x12f98 => Some("WG-3"),
        0x12fa2 => Some("WG-10"),
        0x12fb6 => Some("K-50"),
        0x12fc0 => Some("K-3"),
        0x12fca => Some("K-500"),
        0x12fe8 => Some("WG-4"),
        0x12fde => Some("WG-4 GPS"),
        0x13006 => Some("WG-20"),
        0x13010 => Some("645Z"),
        0x1301a => Some("K-S1"),
        0x13024 => Some("K-S2"),
        0x1302e => Some("Q-S1"),
        0x13056 => Some("WG-30"),
        0x1307e => Some("WG-30W"),
        0x13088 => Some("WG-5 GPS"),
        0x13092 => Some("K-1"),
        0x1309c => Some("K-3 II"),
        0x131f0 => Some("WG-M2"),
        0x1320e => Some("GR III"),
        0x13222 => Some("K-70"),
        0x1322c => Some("KP"),
        0x13240 => Some("K-1 Mark II"),
        0x13254 => Some("K-3 Mark III"),
        0x13290 => Some("WG-70"),
        0x1329a => Some("GR IIIx"),
        0x132b8 => Some("KF"),
        0x132d6 => Some("K-3 Mark III Monochrome"),
        0x132e0 => Some("GR IV"),
        _ => None,
    }
}

/// Name of a Pentax camera model from its model ID.
pub fn get_pentax_model_name(model_id: u32) -> (r: Option<&'static str>)
    ensures
        r == pentax_model_name(model_id),
{
    match model_id {
        0x0000d => Some("Optio 330/430"),
        0x12926 => Some("Optio 230"),
        0x12958 => Some("Optio 330GS"),
        0x12962 => Some("Optio 450/550"),
        0x1296c => Some("Optio S"),
        0x12971 => Some("Optio S V1.01"),
        0x12994 => Some("*ist D"),
        0x129b2 => Some("Optio 33L"),
        0x129bc => Some("Optio 33LF"),
        0x129c6 => Some("Optio 33WR/43WR/555"),
        0x129d5 => Some("Optio S4"),
        0x12a02 => Some("Optio MX"),
        0x12a0c => Some("Optio S40"),
        0x12a16 => Some("Optio S4i"),
        0x12a34 => Some("Optio 30"),
        0x12a52 => Some("Optio S30"),
        0x12a66 => Some("Optio 750Z"),
        0x12a70 => Some("Optio SV"),
        0x12a75 => Some("Optio SVi"),
        0x12a7a => Some("Optio X"),
        0x12a8e => Some("Optio S5i"),
        0x12a98 => Some("Optio S50"),
        0x12aa2 => Some("*ist DS"),
        0x12ab6 => Some("Optio MX4"),
        0x12ac0 => Some("Optio S5n"),
        0x12aca => Some("Optio WP"),
        0x12afc => Some("Optio S55"),
        0x12b10 => Some("Optio S5z"),
        0x12b1a => Some("*ist DL"),
        0x12b24 => Some("Optio S60"),
        0x12b2e => Some("Optio S45"),
        0x12b38 => Some("Optio S6"),
        0x12b4c => Some("Optio WPi"),
        0x12b56 => Some("BenQ DC X600"),
        0x12b60 => Some("*ist DS2"),
        0x12b62 => Some("Samsung GX-1S"),
        0x12b6a => Some("Optio A10"),
        0x12b7e => Some("*ist DL2"),
        0x12b80 => Some("Samsung GX-1L"),
        0x12b9c => Some("K100D"),
        0x12b9d => Some("K110D"),
        0x12ba2 => Some("K100D Super"),
        0x12bb0 => Some("Optio T10/T20"),
        0x12be2 => Some("Optio W10"),
        0x12bf6 => Some("Optio M10"),
        0x12c1e => Some("K10D"),
        0x12c20 => Some("Samsung GX10"),
        0x12c28 => Some("Optio S7"),
        0x12c2d => Some("Optio L20"),
        0x12c32 => Some("Optio M20"),
        0x12c3c => Some("Optio W20"),
        0x12c46 => Some("Optio A20"),
        0x12c78 => Some("Optio E30"),
        0x12c7d => Some("Optio E35"),
        0x12c82 => Some("Optio T30"),
        0x12c8c => Some("Optio M30"),
        0x12c91 => Some("Optio L30"),
        0x12c96 => Some("Optio W30"),
        0x12ca0 => Some("Optio A30"),
        0x12cb4 => Some("Optio E40"),
        0x12cbe => Some("Optio M40"),
        0x12cc3 => Some("Optio L40"),
        0x12cc5 => Some("Optio L36"),
        0x12cc8 => Some("Optio Z10"),
        0x12cd2 => Some("K20D"),
        0x12cd4 => Some("Samsung GX20"),
        0x12cdc => Some("Optio S10"),
        0x12ce6 => Some("Optio A40"),
        0x12cf0 => Some("Optio V10"),
        0x12cfa => Some("K200D"),
        0x12d04 => Some("Optio S12"),
        0x12d0e => Some("Optio E50"),
        0x12d18 => Some("Optio M50"),
        0x12d22 => Some("Optio L50"),
        0x12d2c => Some("Optio V20"),
        0x12d40 => Some("Optio W60"),
        0x12d4a => Some("Optio M60"),
        0x12d68 => Some("Optio E60/M90"),
        0x12d72 => Some("K2000"),
        0x12d73 => Some("K-m"),
        0x12d86 => Some("Optio P70"),
        0x12d90 => Some("Optio L70"),
        0x12d9a => Some("Optio E70"),
        0x12dae => Some("X70"),
        0x12db8 => Some("K-7"),
        0x12dcc => Some("Optio W80"),
        0x12dea => Some("Optio P80"),
        0x12df4 => Some("Optio WS80"),
        0x12dfe => Some("K-x"),
        0x12e08 => Some("645D"),
        0x12e12 => Some("Optio E80"),
        0x12e30 => Some("Optio W90"),
        0x12e3a => Some("Optio I-10"),
        0x12e44 => Some("Optio H90"),
        0x12e4e => Some("Optio E90"),
        0x12e58 => Some("X90"),
        0x12e6c => Some("K-r"),
        0x12e76 => Some("K-5"),
        0x12e8a => Some("Optio RS1000/RS1500"),
        0x12e94 => Some("Optio RZ10"),
        0x12e9e => Some("Optio LS1000"),
        0x12ebc => Some("Optio WG-1 GPS"),
        0x12ed0 => Some("Optio S1"),
        0x12ee4 => Some("Q"),
        0x12ef8 => Some("K-01"),
        0x12f0c => Some("Optio RZ18"),
        0x12f16 => Some("Optio VS20"),
        0x12f2a => Some("Optio WG-2 GPS"),
        0x12f48 => Some("Optio LS465"),
        0x12f52 => Some("K-30"),
        0x12f5c => Some("X-5"),
        0x12f66 => Some("Q10"),
        0x12f70 => Some("K-5 II"),
        0x12f71 => Some("K-5 II s"),
        0x12f7a => Some("Q7"),
        0x12f84 => Some("MX-1"),
        0x12f8e => Some("WG-3 GPS"),
        0x12f98 => Some("WG-3"),
        0x12fa2 => Some("WG-10"),
        0x12fb6 => Some("K-50"),
        0x12fc0 => Some("K-3"),
        0x12fca => Some("K-500"),
        0x12fe8 => Some("WG-4"),
        0x12fde => Some("WG-4 GPS"),
        0x13006 => Some("WG-20"),
        0x13010 => Some("645Z"),
        0x1301a => Some("K-S1"),
        0x13024 => Some("K-S2"),
        0x1302e => Some("Q-S1"),
        0x13056 => Some("WG-30"),
        0x1307e => Some("WG-30W"),
        0x13088 => Some("WG-5 GPS"),
        0x13092 => Some("K-1"),
        0x1309c => Some("K-3 II"),
        0x131f0 => Some("WG-M2"),
        0x1320e => Some("GR III"),
        0x13222 => Some("K-70"),
        0x1322c => Some("KP"),
        0x13240 => Some("K-1 Mark II"),
        0x13254 => Some("K-3 Mark III"),
        0x13290 => Some("WG-70"),
        0x1329a => Some("GR IIIx"),
        0x132b8 => Some("KF"),
        0x132d6 => Some("K-3 Mark III Monochrome"),
        0x132e0 => Some("GR IV"),
        _ => None,
    }
}

/// Name of a Pentax lens from its series and model numbers.
pub open spec fn pentax_lens_name(series: u8, model: u8) -> Option<&'static str> {
    match (series, model) {
        (0, 0) => Some("M-42 or No Lens"),
        (1, 0) => Some("K or M Lens"),
        (2, 0) => Some("A Series Lens"),
        (3, 0) => Some("Sigma"),
        (3, 17) => Some("smc PENTAX-FA SOFT 85mm F2.8"),
        (3, 18) => Some("smc PENTAX-F 1.7X AF ADAPTER"),
        (3, 19) => Some("smc PENTAX-F 24-50mm F4"),
        (3, 20) => Some("smc PENTAX-F 35-80mm F4-5.6"),
        (3, 21) => Some("smc PENTAX-F 80-200mm F4.7-5.6"),
        (3, 22) => Some("smc PENTAX-F FISH-EYE 17-28mm F3.5-4.5"),
        (3, 23) => Some("smc PENTAX-F 100-300mm F4.5-5.6 or Sigma Lens"),
        (3, 24) => Some("smc PENTAX-F 35-135mm F3.5-4.5"),
        (3, 25) => Some("smc PENTAX-F 35-105mm F4-5.6 or Sigma or Tokina Lens"),
        (3, 26) => Some("smc PENTAX-F* 250-600mm F5.6 ED[IF]"),
        (3, 27) => Some("smc PENTAX-F 28-80mm F3.5-4.5 or Tokina Lens"),
        (3, 28) => Some("smc PENTAX-F 35-70mm F3.5-4.5 or Tokina Lens"),
        (3, 29) => Some("PENTAX-F 28-80mm F3.5-4.5 or Sigma or Tokina Lens"),
        (3, 30) => Some("PENTAX-F 70-200mm F4-5.6"),
        (3, 31) => Some("smc PENTAX-F 70-210mm F4-5.6 or Tokina or Takumar Lens"),
        (3, 32) => Some("smc PENTAX-F 50mm F1.4"),
        (3, 33) => Some("smc PENTAX-F 50mm F1.7"),
        (3, 34) => Some("smc PENTAX-F 135mm F2.8 [IF]"),
        (3, 35) => Some("smc PENTAX-F 28mm F2.8"),
        (3, 36) => Some("Sigma 20mm F1.8 EX DG Aspherical RF"),
        (3, 38) => Some("smc PENTAX-F* 300mm F4.5 ED[IF]"),
        (3, 39) => Some("smc PENTAX-F* 600mm F4 ED[IF]"),
        (3, 40) => Some("smc PENTAX-F Macro 100mm F2.8"),
        (3, 41) => Some("smc PENTAX-F Macro 50mm F2.8 or Sigma Lens"),
        (3, 50) => Some("smc PENTAX-FA 28-70mm F4 AL"),
        (3, 51) => Some("Sigma 28mm F1.8 EX DG Aspherical Macro"),
        (3, 52) => Some("smc PENTAX-FA 28-200mm F3.8-5.6 AL[IF] or Tamron Lens"),
        (3, 53) => Some("smc PENTAX-FA 28-80mm F3.5-5.6 AL"),
        (3, 247) => Some("smc PENTAX-DA FISH-EYE 10-17mm F3.5-4.5 ED[IF]"),
        (3, 248) => Some("smc PENTAX-DA 12-24mm F4 ED AL[IF]"),
        (3, 250) => Some("smc PENTAX-DA 50-200mm F4-5.6 ED"),
        (3, 251) => Some("smc PENTAX-DA 40mm F2.8 Limited"),
        (3, 252) => Some("smc PENTAX-DA 18-55mm F3.5-5.6 AL"),
        (3, 253) => Some("smc PENTAX-DA 14mm F2.8 ED[IF]"),
        (3, 254) => Some("smc PENTAX-DA 16-45mm F4 ED AL"),
        (3, 255) => Some("Sigma Lens (3 255)"),
        (4, 1) => Some("smc PENTAX-FA SOFT 28mm F2.8"),
        (4, 2) => Some("smc PENTAX-FA 80-320mm F4.5-5.6"),
        (4, 3) => Some("smc PENTAX-FA 43mm F1.9 Limited"),
        (4, 6) => Some("smc PENTAX-FA 35-80mm F4-5.6"),
        (4, 12) => Some("smc PENTAX-FA 50mm F1.4"),
        (4, 15) => Some("smc PENTAX-FA 28-105mm F4-5.6 [IF]"),
        (4, 23) => Some("smc PENTAX-FA 20-35mm F4 AL"),
        (4, 24) => Some("smc PENTAX-FA 77mm F1.8 Limited"),
        (4, 28) => Some("smc PENTAX-FA 35mm F2 AL"),
        (4, 34) => Some("smc PENTAX-FA 24-90mm F3.5-4.5 AL[IF]"),
        (4, 35) => Some("smc PENTAX-FA 100-300mm F4.7-5.8"),
        (4, 38) => Some("smc PENTAX-FA 28-105mm F3.2-4.5 AL[IF]"),
        (4, 39) => Some("smc PENTAX-FA 31mm F1.8 AL Limited"),
        (4, 43) => Some("smc PENTAX-FA 28-90mm F3.5-5.6"),
        (4, 44) => Some("smc PENTAX-FA J 75-300mm F4.5-5.8 AL"),
        (4, 46) => Some("smc PENTAX-FA J 28-80mm F3.5-5.6 AL"),
        (4, 47) => Some("smc PENTAX-FA J 18-35mm F4-5.6 AL"),
        (4, 51) => Some("smc PENTAX-D FA 50mm F2.8 Macro"),
        (4, 52) => Some("smc PENTAX-D FA 100mm F2.8 Macro"),
        (4, 214) => Some("smc PENTAX-DA 35mm F2.4 AL"),
        (4, 229) => Some("smc PENTAX-DA 18-55mm F3.5-5.6 AL II"),
        (4, 230) => Some("Tamron SP AF 17-50mm F2.8 XR Di II"),
        (4, 231) => Some("smc PENTAX-DA 18-250mm F3.5-6.3 ED AL [IF]"),
        (4, 243) => Some("smc PENTAX-DA 70mm F2.4 Limited"),
        (4, 244) => Some("smc PENTAX-DA 21mm F3.2 AL Limited"),
        (4, 247) => Some("smc PENTAX-DA FISH-EYE 10-17mm F3.5-4.5 ED[IF]"),
        (4, 248) => Some("smc PENTAX-DA 12-24mm F4 ED AL [IF]"),
        (4, 250) => Some("smc PENTAX-DA 50-200mm F4-5.6 ED"),
        (4, 251) => Some("smc PENTAX-DA 40mm F2.8 Limited"),
        (4, 252) => Some("smc PENTAX-DA 18-55mm F3.5-5.6 AL"),
        (4, 253) => Some("smc PENTAX-DA 14mm F2.8 ED[IF]"),
        (4, 254) => Some("smc PENTAX-DA 16-45mm F4 ED AL"),
        (5, 1) => Some("smc PENTAX-FA* 24mm F2 AL[IF]"),
        (5, 2) => Some("smc PENTAX-FA 28mm F2.8 AL"),
        (5, 3) => Some("smc PENTAX-FA 50mm F1.7"),
        (5, 4) => Some("smc PENTAX-FA 50mm F1.4"),
        (5, 5) => Some("smc PENTAX-FA* 600mm F4 ED[IF]"),
        (5, 6) => Some("smc PENTAX-FA* 300mm F4.5 ED[IF]"),
        (5, 7) => Some("smc PENTAX-FA 135mm F2.8 [IF]"),
        (5, 8) => Some("smc PENTAX-FA Macro 50mm F2.8"),
        (5, 9) => Some("smc PENTAX-FA Macro 100mm F2.8"),
        (5, 10) => Some("smc PENTAX-FA* 85mm F1.4 [IF]"),
        (5, 11) => Some("smc PENTAX-FA* 200mm F2.8 ED[IF]"),
        (5, 12) => Some("smc PENTAX-FA 28-80mm F3.5-4.7"),
        (5, 13) => Some("smc PENTAX-FA 70-200mm F4-5.6"),
        (5, 14) => Some("smc PENTAX-FA* 250-600mm F5.6 ED[IF]"),
        (5, 15) => Some("smc PENTAX-FA 28-105mm F4-5.6"),
        (5, 16) => Some("smc PENTAX-FA 100-300mm F4.5-5.6"),
        (6, 1) => Some("smc PENTAX-FA* 85mm F1.4 [IF]"),
        (6, 2) => Some("smc PENTAX-FA* 200mm F2.8 ED[IF]"),
        (6, 3) => Some("smc PENTAX-FA* 300mm F2.8 ED[IF]"),
        (6, 4) => Some("smc PENTAX-FA* 28-70mm F2.8 AL"),
        (6, 5) => Some("smc PENTAX-FA* 80-200mm F2.8 ED[IF]"),
        (6, 9) => Some("smc PENTAX-FA 20mm F2.8"),
        (6, 10) => Some("smc PENTAX-FA* 400mm F5.6 ED[IF]"),
        (6, 14) => Some("smc PENTAX-FA* Macro 200mm F4 ED[IF]"),
        (7, 0) => Some("smc PENTAX-DA 21mm F3.2 AL Limited"),
        (7, 58) => Some("smc PENTAX-D FA Macro 100mm F2.8 WR"),
        (7, 201) => Some("smc Pentax-DA L 50-200mm F4-5.6 ED WR"),
        (7, 202) => Some("smc PENTAX-DA L 18-55mm F3.5-5.6 AL WR"),
        (7, 203) => Some("HD PENTAX-DA 55-300mm F4-5.8 ED WR"),
        (7, 204) => Some("HD PENTAX-DA 15mm F4 ED AL Limited"),
        (7, 205) => Some("HD PENTAX-DA 35mm F2.8 Macro Limited"),
        (7, 206) => Some("HD PENTAX-DA 70mm F2.4 Limited"),
        (7, 207) => Some("HD PENTAX-DA 21mm F3.2 ED AL Limited"),
        (7, 208) => Some("HD PENTAX-DA 40mm F2.8 Limited"),
        (7, 212) => Some("smc PENTAX-DA 50mm F1.8"),
        (7, 213) => Some("smc PENTAX-DA 40mm F2.8 XS"),
        (7, 214) => Some("smc PENTAX-DA 35mm F2.4 AL"),
        (7, 216) => Some("smc PENTAX-DA L 55-300mm F4-5.8 ED"),
        (7, 217) => Some("smc PENTAX-DA 50-200mm F4-5.6 ED WR"),
        (7, 218) => Some("smc PENTAX-DA 18-55mm F3.5-5.6 AL WR"),
        (7, 221) => Some("smc PENTAX-DA L 50-200mm F4-5.6 ED"),
        (7, 222) => Some("smc PENTAX-DA L 18-55mm F3.5-5.6"),
        (7, 223) => Some("Samsung/Schneider D-XENON 18-55mm F3.5-5.6 II"),
        (7, 224) => Some("smc PENTAX-DA 15mm F4 ED AL Limited"),
        (7, 229) => Some("smc PENTAX-DA 18-55mm F3.5-5.6 AL II"),
        (7, 230) => Some("Tamron AF 17-50mm F2.8 XR Di-II LD (Model A16)"),
        (7, 231) => Some("smc PENTAX-DA 18-250mm F3.5-6.3 ED AL [IF]"),
        (7, 233) => Some("smc PENTAX-DA 35mm F2.8 Macro Limited"),
        (7, 234) => Some("smc PENTAX-DA* 300mm F4 ED [IF] SDM (SDM unused)"),
        (7, 235) => Some("smc PENTAX-DA* 200mm F2.8 ED [IF] SDM (SDM unused)"),
        (7, 236) => Some("smc PENTAX-DA 55-300mm F4-5.8 ED"),
        (7, 238) => Some("Tamron AF 18-250mm F3.5-6.3 Di II LD Aspherical [IF] Macro"),
        (7, 241) => Some("smc PENTAX-DA* 50-135mm F2.8 ED [IF] SDM (SDM unused)"),
        (7, 242) => Some("smc PENTAX-DA* 16-50mm F2.8 ED AL [IF] SDM (SDM unused)"),
        (7, 243) => Some("smc PENTAX-DA 70mm F2.4 Limited"),
        (7, 244) => Some("smc PENTAX-DA 21mm F3.2 AL Limited"),
        (8, 0) => Some("Sigma 50-150mm F2.8 II APO EX DC HSM"),
        (8, 3) => Some("Sigma 18-125mm F3.8-5.6 DC HSM"),
        (8, 4) => Some("Sigma 50mm F1.4 EX DG HSM"),
        (8, 59) => Some("HD PENTAX-D FA 150-450mm F4.5-5.6 ED DC AW"),
        (8, 60) => Some("HD PENTAX-D FA* 70-200mm F2.8 ED DC AW"),
        (8, 61) => Some("HD PENTAX-D FA 28-105mm F3.5-5.6 ED DC WR"),
        (8, 62) => Some("HD PENTAX-D FA 24-70mm F2.8 ED SDM WR"),
        (8, 63) => Some("HD PENTAX-D FA 15-30mm F2.8 ED SDM WR"),
        (8, 64) => Some("HD PENTAX-D FA* 50mm F1.4 SDM AW"),
        (8, 65) => Some("HD PENTAX-D FA 70-210mm F4 ED SDM WR"),
        (8, 195) => Some("HD PENTAX DA* 16-50mm F2.8 ED PLM AW"),
        (8, 196) => Some("HD PENTAX-DA* 11-18mm F2.8 ED DC AW"),
        (8, 197) => Some("HD PENTAX-DA 55-300mm F4.5-6.3 ED PLM WR RE"),
        (8, 198) => Some("smc PENTAX-DA L 18-50mm F4-5.6 DC WR RE"),
        (8, 199) => Some("HD PENTAX-DA 18-50mm F4-5.6 DC WR RE"),
        (8, 200) => Some("HD PENTAX-DA 16-85mm F3.5-5.6 ED DC WR"),
        (8, 209) => Some("HD PENTAX-DA 20-40mm F2.8-4 ED Limited DC WR"),
        (8, 210) => Some("smc PENTAX-DA 18-270mm F3.5-6.3 ED SDM"),
        (8, 211) => Some("HD PENTAX-DA 560mm F5.6 ED AW"),
        (8, 215) => Some("smc PENTAX-DA 18-135mm F3.5-5.6 ED AL [IF] DC WR"),
        (8, 226) => Some("smc PENTAX-DA* 55mm F1.4 SDM"),
        (8, 227) => Some("smc PENTAX-DA* 60-250mm F4 [IF] SDM"),
        (8, 232) => Some("smc PENTAX-DA 17-70mm F4 AL [IF] SDM"),
        (8, 234) => Some("smc PENTAX-DA* 300mm F4 ED [IF] SDM"),
        (8, 235) => Some("smc PENTAX-DA* 200mm F2.8 ED [IF] SDM"),
        (8, 241) => Some("smc PENTAX-DA* 50-135mm F2.8 ED [IF] SDM"),
        (8, 242) => Some("smc PENTAX-DA* 16-50mm F2.8 ED AL [IF] SDM"),
        (8, 255) => Some("Sigma Lens (8 255)"),
        (9, 3) => Some("HD PENTAX-FA 43mm F1.9 Limited"),
        (9, 24) => Some("HD PENTAX-FA 77mm F1.8 Limited"),
        (9, 39) => Some("HD PENTAX-FA 31mm F1.8 AL Limited"),
        (9, 247) => Some("HD PENTAX-DA FISH-EYE 10-17mm F3.5-4.5 ED [IF]"),
        (21, 1) => Some("01 Standard Prime 8.5mm F1.9"),
        (21, 2) => Some("02 Standard Zoom 5-15mm F2.8-4.5"),
        (21, 6) => Some("06 Telephoto Zoom 15-45mm F2.8"),
        (22, 3) => Some("03 Fish-eye 3.2mm F5.6"),
        (22, 4) => Some("04 Toy Lens Wide 6.3mm F7.1"),
        (22, 5) => Some("05 Toy Lens Telephoto 18mm F8"),
        (31, 1) => Some("18.3mm F2.8"),
        (31, 4) => Some("26.1mm F2.8"),
        (31, 5) => Some("26.1mm F2.8 GT-2 TC"),
        (31, 8) => Some("18.3mm F2.8"),
        _ => None,
    }
}

/// Name of a Pentax lens from its series and model numbers.
pub fn get_pentax_lens_name(series: u8, model: u8) -> (r: Option<&'static str>)
    ensures
        r == pentax_lens_name(series, model),
{
    match (series, model) {
        (0, 0) => Some("M-42 or No Lens"),
        (1, 0) => Some("K or M Lens"),
        (2, 0) => Some("A Series Lens"),
        (3, 0) => Some("Sigma"),
        (3, 17) => Some("smc PENTAX-FA SOFT 85mm F2.8"),
        (3, 18) => Some("smc PENTAX-F 1.7X AF ADAPTER"),
        (3, 19) => Some("smc PENTAX-F 24-50mm F4"),
        (3, 20) => Some("smc PENTAX-F 35-80mm F4-5.6"),
        (3, 21) => Some("smc PENTAX-F 80-200mm F4.7-5.6"),
        (3, 22) => Some("smc PENTAX-F FISH-EYE 17-28mm F3.5-4.5"),
        (3, 23) => Some("smc PENTAX-F 100-300mm F4.5-5.6 or Sigma Lens"),
        (3, 24) => Some("smc PENTAX-F 35-135mm F3.5-4.5"),
        (3, 25) => Some("smc PENTAX-F 35-105mm F4-5.6 or Sigma or Tokina Lens"),
        (3, 26) => Some("smc PENTAX-F* 250-600mm F5.6 ED[IF]"),
        (3, 27) => Some("smc PENTAX-F 28-80mm F3.5-4.5 or Tokina Lens"),
        (3, 28) => Some("smc PENTAX-F 35-70mm F3.5-4.5 or Tokina Lens"),
        (3, 29) => Some("PENTAX-F 28-80mm F3.5-4.5 or Sigma or Tokina Lens"),
        (3, 30) => Some("PENTAX-F 70-200mm F4-5.6"),
        (3, 31) => Some("smc PENTAX-F 70-210mm F4-5.6 or Tokina or Takumar Lens"),
        (3, 32) => Some("smc PENTAX-F 50mm F1.4"),
        (3, 33) => Some("smc PENTAX-F 50mm F1.7"),
        (3, 34) => Some("smc PENTAX-F 135mm F2.8 [IF]"),
        (3, 35) => Some("smc PENTAX-F 28mm F2.8"),
        (3, 36) => Some("Sigma 20mm F1.8 EX DG Aspherical RF"),
        (3, 38) => Some("smc PENTAX-F* 300mm F4.5 ED[IF]"),
        (3, 39) => Some("smc PENTAX-F* 600mm F4 ED[IF]"),
        (3, 40) => Some("smc PENTAX-F Macro 100mm F2.8"),
        (3, 41) => Some("smc PENTAX-F Macro 50mm F2.8 or Sigma Lens"),
        (3, 50) => Some("smc PENTAX-FA 28-70mm F4 AL"),
        (3, 51) => Some("Sigma 28mm F1.8 EX DG Aspherical Macro"),
        (3, 52) => Some("smc PENTAX-FA 28-200mm F3.8-5.6 AL[IF] or Tamron Lens"),
        (3, 53) => Some("smc PENTAX-FA 28-80mm F3.5-5.6 AL"),
        (3, 247) => Some("smc PENTAX-DA FISH-EYE 10-17mm F3.5-4.5 ED[IF]"),
        (3, 248) => Some("smc PENTAX-DA 12-24mm F4 ED AL[IF]"),
        (3, 250) => Some("smc PENTAX-DA 50-200mm F4-5.6 ED"),
        (3, 251) => Some("smc PENTAX-DA 40mm F2.8 Limited"),
        (3, 252) => Some("smc PENTAX-DA 18-55mm F3.5-5.6 AL"),
        (3, 253) => Some("smc PENTAX-DA 14mm F2.8 ED[IF]"),
        (3, 254) => Some("smc PENTAX-DA 16-45mm F4 ED AL"),
        (3, 255) => Some("Sigma Lens (3 255)"),
        (4, 1) => Some("smc PENTAX-FA SOFT 28mm F2.8"),
        (4, 2) => Some("smc PENTAX-FA 80-320mm F4.5-5.6"),
        (4, 3) => Some("smc PENTAX-FA 43mm F1.9 Limited"),
        (4, 6) => Some("smc PENTAX-FA 35-80mm F4-5.6"),
        (4, 12) => Some("smc PENTAX-FA 50mm F1.4"),
        (4, 15) => Some("smc PENTAX-FA 28-105mm F4-5.6 [IF]"),
        (4, 23) => Some("smc PENTAX-FA 20-35mm F4 AL"),
        (4, 24) => Some("smc PENTAX-FA 77mm F1.8 Limited"),
        (4, 28) => Some("smc PENTAX-FA 35mm F2 AL"),
        (4, 34) => Some("smc PENTAX-FA 24-90mm F3.5-4.5 AL[IF]"),
        (4, 35) => Some("smc PENTAX-FA 100-300mm F4.7-5.8"),
        (4, 38) => Some("smc PENTAX-FA 28-105mm F3.2-4.5 AL[IF]"),
        (4, 39) => Some("smc PENTAX-FA 31mm F1.8 AL Limited"),
        (4, 43) => Some("smc PENTAX-FA 28-90mm F3.5-5.6"),
        (4, 44) => Some("smc PENTAX-FA J 75-300mm F4.5-5.8 AL"),
        (4, 46) => Some("smc PENTAX-FA J 28-80mm F3.5-5.6 AL"),
        (4, 47) => Some("smc PENTAX-FA J 18-35mm F4-5.6 AL"),
        (4, 51) => Some("smc PENTAX-D FA 50mm F2.8 Macro"),
        (4, 52) => Some("smc PENTAX-D FA 100mm F2.8 Macro"),
        (4, 214) => Some("smc PENTAX-DA 35mm F2.4 AL"),
        (4, 229) => Some("smc PENTAX-DA 18-55mm F3.5-5.6 AL II"),
        (4, 230) => Some("Tamron SP AF 17-50mm F2.8 XR Di II"),
        (4, 231) => Some("smc PENTAX-DA 18-250mm F3.5-6.3 ED AL [IF]"),
        (4, 243) => Some("smc PENTAX-DA 70mm F2.4 Limited"),
        (4, 244) => Some("smc PENTAX-DA 21mm F3.2 AL Limited"),
        (4, 247) => Some("smc PENTAX-DA FISH-EYE 10-17mm F3.5-4.5 ED[IF]"),
        (4, 248) => Some("smc PENTAX-DA 12-24mm F4 ED AL [IF]"),
        (4, 250) => Some("smc PENTAX-DA 50-200mm F4-5.6 ED"),
        (4, 251) => Some("smc PENTAX-DA 40mm F2.8 Limited"),
        (4, 252) => Some("smc PENTAX-DA 18-55mm F3.5-5.6 AL"),
        (4, 253) => Some("smc PENTAX-DA 14mm F2.8 ED[IF]"),
        (4, 254) => Some("smc PENTAX-DA 16-45mm F4 ED AL"),
        (5, 1) => Some("smc PENTAX-FA* 24mm F2 AL[IF]"),
        (5, 2) => Some("smc PENTAX-FA 28mm F2.8 AL"),
        (5, 3) => Some("smc PENTAX-FA 50mm F1.7"),
        (5, 4) => Some("smc PENTAX-FA 50mm F1.4"),
        (5, 5) => Some("smc PENTAX-FA* 600mm F4 ED[IF]"),
        (5, 6) => Some("smc PENTAX-FA* 300mm F4.5 ED[IF]"),
        (5, 7) => Some("smc PENTAX-FA 135mm F2.8 [IF]"),
        (5, 8) => Some("smc PENTAX-FA Macro 50mm F2.8"),
        (5, 9) => Some("smc PENTAX-FA Macro 100mm F2.8"),
        (5, 10) => Some("smc PENTAX-FA* 85mm F1.4 [IF]"),
        (5, 11) => Some("smc PENTAX-FA* 200mm F2.8 ED[IF]"),
        (5, 12) => Some("smc PENTAX-FA 28-80mm F3.5-4.7"),
        (5, 13) => Some("smc PENTAX-FA 70-200mm F4-5.6"),
        (5, 14) => Some("smc PENTAX-FA* 250-600mm F5.6 ED[IF]"),
        (5, 15) => Some("smc PENTAX-FA 28-105mm F4-5.6"),
        (5, 16) => Some("smc PENTAX-FA 100-300mm F4.5-5.6"),
        (6, 1) => Some("smc PENTAX-FA* 85mm F1.4 [IF]"),
        (6, 2) => Some("smc PENTAX-FA* 200mm F2.8 ED[IF]"),
        (6, 3) => Some("smc PENTAX-FA* 300mm F2.8 ED[IF]"),
        (6, 4) => Some("smc PENTAX-FA* 28-70mm F2.8 AL"),
        (6, 5) => Some("smc PENTAX-FA* 80-200mm F2.8 ED[IF]"),
        (6, 9) => Some("smc PENTAX-FA 20mm F2.8"),
        (6, 10) => Some("smc PENTAX-FA* 400mm F5.6 ED[IF]"),
        (6, 14) => Some("smc PENTAX-FA* Macro 200mm F4 ED[IF]"),
        (7, 0) => Some("smc PENTAX-DA 21mm F3.2 AL Limited"),
        (7, 58) => Some("smc PENTAX-D FA Macro 100mm F2.8 WR"),
        (7, 201) => Some("smc Pentax-DA L 50-200mm F4-5.6 ED WR"),
        (7, 202) => Some("smc PENTAX-DA L 18-55mm F3.5-5.6 AL WR"),
        (7, 203) => Some("HD PENTAX-DA 55-300mm F4-5.8 ED WR"),
        (7, 204) => Some("HD PENTAX-DA 15mm F4 ED AL Limited"),
        (7, 205) => Some("HD PENTAX-DA 35mm F2.8 Macro Limited"),
        (7, 206) => Some("HD PENTAX-DA 70mm F2.4 Limited"),
        (7, 207) => Some("HD PENTAX-DA 21mm F3.2 ED AL Limited"),
        (7, 208) => Some("HD PENTAX-DA 40mm F2.8 Limited"),
        (7, 212) => Some("smc PENTAX-DA 50mm F1.8"),
        (7, 213) => Some("smc PENTAX-DA 40mm F2.8 XS"),
        (7, 214) => Some("smc PENTAX-DA 35mm F2.4 AL"),
        (7, 216) => Some("smc PENTAX-DA L 55-300mm F4-5.8 ED"),
        (7, 217) => Some("smc PENTAX-DA 50-200mm F4-5.6 ED WR"),
        (7, 218) => Some("smc PENTAX-DA 18-55mm F3.5-5.6 AL WR"),
        (7, 221) => Some("smc PENTAX-DA L 50-200mm F4-5.6 ED"),
        (7, 222) => Some("smc PENTAX-DA L 18-55mm F3.5-5.6"),
        (7, 223) => Some("Samsung/Schneider D-XENON 18-55mm F3.5-5.6 II"),
        (7, 224) => Some("smc PENTAX-DA 15mm F4 ED AL Limited"),
        (7, 229) => Some("smc PENTAX-DA 18-55mm F3.5-5.6 AL II"),
        (7, 230) => Some("Tamron AF 17-50mm F2.8 XR Di-II LD (Model A16)"),
        (7, 231) => Some("smc PENTAX-DA 18-250mm F3.5-6.3 ED AL [IF]"),
        (7, 233) => Some("smc PENTAX-DA 35mm F2.8 Macro Limited"),
        (7, 234) => Some("smc PENTAX-DA* 300mm F4 ED [IF] SDM (SDM unused)"),
        (7, 235) => Some("smc PENTAX-DA* 200mm F2.8 ED [IF] SDM (SDM unused)"),
        (7, 236) => Some("smc PENTAX-DA 55-300mm F4-5.8 ED"),
        (7, 238) => Some("Tamron AF 18-250mm F3.5-6.3 Di II LD Aspherical [IF] Macro"),
        (7, 241) => Some("smc PENTAX-DA* 50-135mm F2.8 ED [IF] SDM (SDM unused)"),
        (7, 242) => Some("smc PENTAX-DA* 16-50mm F2.8 ED AL [IF] SDM (SDM unused)"),
        (7, 243) => Some("smc PENTAX-DA 70mm F2.4 Limited"),
        (7, 244) => Some("smc PENTAX-DA 21mm F3.2 AL Limited"),
        (8, 0) => Some("Sigma 50-150mm F2.8 II APO EX DC HSM"),
        (8, 3) => Some("Sigma 18-125mm F3.8-5.6 DC HSM"),
        (8, 4) => Some("Sigma 50mm F1.4 EX DG HSM"),
        (8, 59) => Some("HD PENTAX-D FA 150-450mm F4.5-5.6 ED DC AW"),
        (8, 60) => Some("HD PENTAX-D FA* 70-200mm F2.8 ED DC AW"),
        (8, 61) => Some("HD PENTAX-D FA 28-105mm F3.5-5.6 ED DC WR"),
        (8, 62) => Some("HD PENTAX-D FA 24-70mm F2.8 ED SDM WR"),
        (8, 63) => Some("HD PENTAX-D FA 15-30mm F2.8 ED SDM WR"),
        (8, 64) => Some("HD PENTAX-D FA* 50mm F1.4 SDM AW"),
        (8, 65) => Some("HD PENTAX-D FA 70-210mm F4 ED SDM WR"),
        (8, 195) => Some("HD PENTAX DA* 16-50mm F2.8 ED PLM AW"),
        (8, 196) => Some("HD PENTAX-DA* 11-18mm F2.8 ED DC AW"),
        (8, 197) => Some("HD PENTAX-DA 55-300mm F4.5-6.3 ED PLM WR RE"),
        (8, 198) => Some("smc PENTAX-DA L 18-50mm F4-5.6 DC WR RE"),
        (8, 199) => Some("HD PENTAX-DA 18-50mm F4-5.6 DC WR RE"),
        (8, 200) => Some("HD PENTAX-DA 16-85mm F3.5-5.6 ED DC WR"),
        (8, 209) => Some("HD PENTAX-DA 20-40mm F2.8-4 ED Limited DC WR"),
        (8, 210) => Some("smc PENTAX-DA 18-270mm F3.5-6.3 ED SDM"),
        (8, 211) => Some("HD PENTAX-DA 560mm F5.6 ED AW"),
        (8, 215) => Some("smc PENTAX-DA 18-135mm F3.5-5.6 ED AL [IF] DC WR"),
        (8, 226) => Some("smc PENTAX-DA* 55mm F1.4 SDM"),
        (8, 227) => Some("smc PENTAX-DA* 60-250mm F4 [IF] SDM"),
        (8, 232) => Some("smc PENTAX-DA 17-70mm F4 AL [IF] SDM"),
        (8, 234) => Some("smc PENTAX-DA* 300mm F4 ED [IF] SDM"),
        (8, 235) => Some("smc PENTAX-DA* 200mm F2.8 ED [IF] SDM"),
        (8, 241) => Some("smc PENTAX-DA* 50-135mm F2.8 ED [IF] SDM"),
        (8, 242) => Some("smc PENTAX-DA* 16-50mm F2.8 ED AL [IF] SDM"),
        (8, 255) => Some("Sigma Lens (8 255)"),
        (9, 3) => Some("HD PENTAX-FA 43mm F1.9 Limited"),
        (9, 24) => Some("HD PENTAX-FA 77mm F1.8 Limited"),
        (9, 39) => Some("HD PENTAX-FA 31mm F1.8 AL Limited"),
        (9, 247) => Some("HD PENTAX-DA FISH-EYE 10-17mm F3.5-4.5 ED [IF]"),
        (21, 1) => Some("01 Standard Prime 8.5mm F1.9"),
        (21, 2) => Some("02 Standard Zoom 5-15mm F2.8-4.5"),
        (21, 6) => Some("06 Telephoto Zoom 15-45mm F2.8"),
        (22, 3) => Some("03 Fish-eye 3.2mm F5.6"),
        (22, 4) => Some("04 Toy Lens Wide 6.3mm F7.1"),
        (22, 5) => Some("05 Toy Lens Telephoto 18mm F8"),
        (31, 1) => Some("18.3mm F2.8"),
        (31, 4) => Some("26.1mm F2.8"),
        (31, 5) => Some("26.1mm F2.8 GT-2 TC"),
        (31, 8) => Some("18.3mm F2.8"),
        _ => None,
    }
}

/// Name of a city from its Pentax city code.
pub open spec fn city_name(value: u32) -> Option<&'static str> {
    match value {
        0 => Some("Pago Pago"),
        1 => Some("Honolulu"),
        2 => Some("Anchorage"),
        3 => Some("Vancouver"),
        4 => Some("San Francisco"),
        5 => Some("Los Angeles"),
        6 => Some("Calgary"),
        7 => Some("Denver"),
        8 => Some("Mexico City"),
        9 => Some("Chicago"),
        10 => Some("Miami"),
        11 => Some("Toronto"),
        12 => Some("New York"),
        13 => Some("Santiago"),
        14 => Some("Caracus"),
        15 => Some("Halifax"),
        16 => Some("Buenos Aires"),
        17 => Some("Sao Paulo"),
        18 => Some("Rio de Janeiro"),
        19 => Some("Madrid"),
        20 => Some("London"),
        21 => Some("Paris"),
        22 => Some("Milan"),
        23 => Some("Rome"),
        24 => Some("Berlin"),
        25 => Some("Johannesburg"),
        26 => Some("Istanbul"),
        27 => Some("Cairo"),
        28 => Some("Jerusalem"),
        29 => Some("Moscow"),
        30 => Some("Jeddah"),
        31 => Some("Tehran"),
        32 => Some("Dubai"),
        33 => Some("Karachi"),
        34 => Some("Kabul"),
        35 => Some("Male"),
        36 => Some("Delhi"),
        37 => Some("Colombo"),
        38 => Some("Kathmandu"),
        39 => Some("Dacca"),
        40 => Some("Yangon"),
        41 => Some("Bangkok"),
        42 => Some("Kuala Lumpur"),
        43 => Some("Vientiane"),
        44 => Some("Singapore"),
        45 => Some("Phnom Penh"),
        46 => Some("Ho Chi Minh"),
        47 => Some("Jakarta"),
        48 => Some("Hong Kong"),
        49 => Some("Perth"),
        50 => Some("Beijing"),
        51 => Some("Shanghai"),
        52 => Some("Manila"),
        53 => Some("Taipei"),
        54 => Some("Seoul"),
        55 => Some("Adelaide"),
        56 => Some("Tokyo"),
        57 => Some("Guam"),
        58 => Some("Sydney"),
        59 => Some("Noumea"),
        60 => Some("Wellington"),
        61 => Some("Auckland"),
        62 => Some("Lima"),
        63 => Some("Dakar"),
        64 => Some("Algiers"),
        65 => Some("Helsinki"),
        66 => Some("Athens"),
        67 => Some("Nairobi"),
        68 => Some("Amsterdam"),
        69 => Some("Stockholm"),
        70 => Some("Lisbon"),
        71 => Some("Copenhagen"),
        72 => Some("Warsaw"),
        73 => Some("Prague"),
        74 => Some("Budapest"),
        _ => None,
    }
}

/// Name of a city from its Pentax city code.
pub fn decode_city(value: u32) -> (r: Option<&'static str>)
    ensures
        r == city_name(value),
{
    match value {
        0 => Some("Pago Pago"),
        1 => Some("Honolulu"),
        2 => Some("Anchorage"),
        3 => Some("Vancouver"),
        4 => Some("San Francisco"),
        5 => Some("Los Angeles"),
        6 => Some("Calgary"),
        7 => Some("Denver"),
        8 => Some("Mexico City"),
        9 => Some("Chicago"),
        10 => Some("Miami"),
        11 => Some("Toronto"),
        12 => Some("New York"),
        13 => Some("Santiago"),
        14 => Some("Caracus"),
        15 => Some("Halifax"),
        16 => Some("Buenos Aires"),
        17 => Some("Sao Paulo"),
        18 => Some("Rio de Janeiro"),
        19 => Some("Madrid"),
        20 => Some("London"),
        21 => Some("Paris"),
        22 => Some("Milan"),
        23 => Some("Rome"),
        24 => Some("Berlin"),
        25 => Some("Johannesburg"),
        26 => Some("Istanbul"),
        27 => Some("Cairo"),
        28 => Some("Jerusalem"),
        29 => Some("Moscow"),
        30 => Some("Jeddah"),
        31 => Some("Tehran"),
        32 => Some("Dubai"),
        33 => Some("Karachi"),
        34 => Some("Kabul"),
        35 => Some("Male"),
        36 => Some("Delhi"),
        37 => Some("Colombo"),
        38 => Some("Kathmandu"),
        39 => Some("Dacca"),
        40 => Some("Yangon"),
        41 => Some("Bangkok"),
        42 => Some("Kuala Lumpur"),
        43 => Some("Vientiane"),
        44 => Some("Singapore"),
        45 => Some("Phnom Penh"),
        46 => Some("Ho Chi Minh"),
        47 => Some("Jakarta"),
        48 => Some("Hong Kong"),
        49 => Some("Perth"),
        50 => Some("Beijing"),
        51 => Some("Shanghai"),
        52 => Some("Manila"),
        53 => Some("Taipei"),
        54 => Some("Seoul"),
        55 => Some("Adelaide"),
        56 => Some("Tokyo"),
        57 => Some("Guam"),
        58 => Some("Sydney"),
        59 => Some("Noumea"),
        60 => Some("Wellington"),
        61 => Some("Auckland"),
        62 => Some("Lima"),
        63 => Some("Dakar"),
        64 => Some("Algiers"),
        65 => Some("Helsinki"),
        66 => Some("Athens"),
        67 => Some("Nairobi"),
        68 => Some("Amsterdam"),
        69 => Some("Stockholm"),
        70 => Some("Lisbon"),
        71 => Some("Copenhagen"),
        72 => Some("Warsaw"),
        73 => Some("Prague"),
        74 => Some("Budapest"),
        _ => None,
    }
}

/// Pentax WhiteBalanceMode.
pub open spec fn white_balance_mode_name(value: u16) -> Option<&'static str> {
    match value {
        1 => Some("Auto (Daylight)"),
        2 => Some("Auto (Shade)"),
        3 => Some("Auto (Flash)"),
        4 => Some("Auto (Tungsten)"),
        6 => Some("Auto (Daylight Fluorescent)"),
        7 => Some("Auto (Day White Fluorescent)"),
        8 => Some("Auto (White Fluorescent)"),
        10 => Some("Auto (Cloudy)"),
        0xfffe => Some("Unknown"),
        0xffff => Some("User-Selected"),
        _ => None,
    }
}

/// Pentax WhiteBalanceMode.
pub fn decode_white_balance_mode(value: u16) -> (r: Option<&'static str>)
    ensures
        r == white_balance_mode_name(value),
{
    match value {
        1 => Some("Auto (Daylight)"),
        2 => Some("Auto (Shade)"),
        3 => Some("Auto (Flash)"),
        4 => Some("Auto (Tungsten)"),
        6 => Some("Auto (Daylight Fluorescent)"),
        7 => Some("Auto (Day White Fluorescent)"),
        8 => Some("Auto (White Fluorescent)"),
        10 => Some("Auto (Cloudy)"),
        0xfffe => Some("Unknown"),
        0xffff => Some("User-Selected"),
        _ => None,
    }
}

/// Pentax WorldTimeLocation.
pub open spec fn world_time_location_name(value: u16) -> &'static str {
    match value {
        0 => "Hometown",
        1 => "Destination",
        _ => "Unknown",
    }
}

/// Pentax WorldTimeLocation.
pub fn decode_world_time_location(value: u16) -> (r: &'static str)
    ensures
        r == world_time_location_name(value),
{
    match value {
        0 => "Hometown",
        1 => "Destination",
        _ => "Unknown",
    }
}

/// Pentax daylight saving time flag.
pub open spec fn dst_name(value: u16) -> &'static str {
    match value {
        0 => "No",
        1 => "Yes",
        _ => "Unknown",
    }
}

/// Pentax daylight saving time flag.
pub fn decode_dst(value: u16) -> (r: &'static str)
    ensures
        r == dst_name(value),
{
    match value {
        0 => "No",
        1 => "Yes",
        _ => "Unknown",
    }
}

/// Pentax quality as ExifTool prints it ("Unknown" for other values).
pub open spec fn pentax_quality_exiftool(value: u16) -> &'static str {
    match value {
        0 => "Good",
        1 => "Better",
        2 => "Best",
        3 => "TIFF",
        4 => "RAW",
        5 => "Premium",
        7 => "RAW (pixel shift enabled)",
        8 => "Dynamic Pixel Shift",
        9 => "Monochrome",
        65535 => "n/a",
        _ => "Unknown",
    }
}

/// Pentax quality as ExifTool prints it ("Unknown" for other values).
pub fn decode_pentax_quality_exiftool(value: u16) -> (r: &'static str)
    ensures
        r == pentax_quality_exiftool(value),
{
    match value {
        0 => "Good",
        1 => "Better",
        2 => "Best",
        3 => "TIFF",
        4 => "RAW",
        5 => "Premium",
        7 => "RAW (pixel shift enabled)",
        8 => "Dynamic Pixel Shift",
        9 => "Monochrome",
        65535 => "n/a",
        _ => "Unknown",
    }
}

/// Pentax focus mode as ExifTool prints it ("Unknown" for other values).
pub open spec fn pentax_focus_mode_exiftool(value: u16) -> &'static str {
    match value {
        0x00 => "Normal",
        0x01 => "Macro",
        0x02 => "Infinity",
        0x03 => "Manual",
        0x04 => "Super Macro",
        0x05 => "Pan Focus",
        0x06 => "Auto-area",
        0x07 => "Zone Select",
        0x08 => "Select",
        0x09 => "Pinpoint",
        0x0a => "Tracking",
        0x0b => "Continuous",
        0x0c => "Snap",
        0x10 => "AF-S (Focus-priority)",
        0x11 => "AF-C (Focus-priority)",
        0x12 => "AF-A (Focus-priority)",
        0x20 => "Contrast-detect (Focus-priority)",
        0x21 => "Tracking Contrast-detect (Focus-priority)",
        0x110 => "AF-S (Release-priority)",
        0x111 => "AF-C (Release-priority)",
        0x112 => "AF-A (Release-priority)",
        0x120 => "Contrast-detect (Release-priority)",
        _ => "Unknown",
    }
}

/// Pentax focus mode as ExifTool prints it ("Unknown" for other values).
pub fn decode_pentax_focus_mode_exiftool(value: u16) -> (r: &'static str)
    ensures
        r == pentax_focus_mode_exiftool(value),
{
    match value {
        0x00 => "Normal",
        0x01 => "Macro",
        0x02 => "Infinity",
        0x03 => "Manual",
        0x04 => "Super Macro",
        0x05 => "Pan Focus",
        0x06 => "Auto-area",
        0x07 => "Zone Select",
        0x08 => "Select",
        0x09 => "Pinpoint",
        0x0a => "Tracking",
        0x0b => "Continuous",
        0x0c => "Snap",
        0x10 => "AF-S (Focus-priority)",
        0x11 => "AF-C (Focus-priority)",
        0x12 => "AF-A (Focus-priority)",
        0x20 => "Contrast-detect (Focus-priority)",
        0x21 => "Tracking Contrast-detect (Focus-priority)",
        0x110 => "AF-S (Release-priority)",
        0x111 => "AF-C (Release-priority)",
        0x112 => "AF-A (Release-priority)",
        0x120 => "Contrast-detect (Release-priority)",
        _ => "Unknown",
    }
}

/// Pentax metering mode as ExifTool prints it ("Unknown" for other values).
pub open spec fn pentax_metering_mode_exiftool(value: u16) -> &'static str {
    match value {
        0 => "Multi-segment",
        1 => "Center-weighted average",
        2 => "Spot",
        6 => "Highlight",
        _ => "Unknown",
    }
}

/// Pentax metering mode as ExifTool prints it ("Unknown" for other values).
pub fn decode_pentax_metering_mode_exiftool(value: u16) -> (r: &'static str)
    ensures
        r == pentax_metering_mode_exiftool(value),
{
    match value {
        0 => "Multi-segment",
        1 => "Center-weighted average",
        2 => "Spot",
        6 => "Highlight",
        _ => "Unknown",
    }
}

/// Pentax white balance as ExifTool prints it ("Unknown" for other values).
pub open spec fn pentax_white_balance_exiftool(value: u16) -> &'static str {
    match value {
        0 => "Auto",
        1 => "Daylight",
        2 => "Shade",
        3 => "Fluorescent",
        4 => "Tungsten",
        5 => "Manual",
        6 => "Daylight Fluorescent",
        7 => "Day White Fluorescent",
        8 => "White Fluorescent",
        9 => "Flash",
        10 => "Cloudy",
        11 => "Warm White Fluorescent",
        14 => "Multi Auto",
        15 => "Color Temperature Enhancement",
        17 => "Kelvin",
        65534 => "Unknown",
        65535 => "User-Selected",
        _ => "Unknown",
    }
}

/// Pentax white balance as ExifTool prints it ("Unknown" for other values).
pub fn decode_pentax_white_balance_exiftool(value: u16) -> (r: &'static str)
    ensures
        r == pentax_white_balance_exiftool(value),
{
    match value {
        0 => "Auto",
        1 => "Daylight",
        2 => "Shade",
        3 => "Fluorescent",
        4 => "Tungsten",
        5 => "Manual",
        6 => "Daylight Fluorescent",
        7 => "Day White Fluorescent",
        8 => "White Fluorescent",
        9 => "Flash",
        10 => "Cloudy",
        11 => "Warm White Fluorescent",
        14 => "Multi Auto",
        15 => "Color Temperature Enhancement",
        17 => "Kelvin",
        65534 => "Unknown",
        65535 => "User-Selected",
        _ => "Unknown",
    }
}

/// Pentax flash mode as ExifTool prints it ("Unknown" for other values).
pub open spec fn pentax_flash_mode_exiftool(value: u16) -> &'static str {
    match value {
        0x0000 => "Auto, Did not fire",
        0x0001 => "Off, Did not fire",
        0x0002 => "On, Did not fire",
        0x0003 => "Auto, Did not fire, Red-eye reduction",
        0x0005 => "On, Did not fire, Wireless (Master)",
        0x0100 => "Auto, Fired",
        0x0102 => "On, Fired",
        0x0103 => "Auto, Fired, Red-eye reduction",
        0x0104 => "On, Red-eye reduction",
        0x0105 => "On, Wireless (Master)",
        0x0106 => "On, Wireless (Control)",
        0x0108 => "On, Soft",
        0x0109 => "On, Slow-sync",
        0x010a => "On, Slow-sync, Red-eye reduction",
        0x010b => "On, Trailing-curtain Sync",
        _ => "Unknown",
    }
}

/// Pentax flash mode as ExifTool prints it ("Unknown" for other values).
pub fn decode_pentax_flash_mode_exiftool(value: u16) -> (r: &'static str)
    ensures
        r == pentax_flash_mode_exiftool(value),
{
    match value {
        0x0000 => "Auto, Did not fire",
        0x0001 => "Off, Did not fire",
        0x0002 => "On, Did not fire",
        0x0003 => "Auto, Did not fire, Red-eye reduction",
        0x0005 => "On, Did not fire, Wireless (Master)",
        0x0100 => "Auto, Fired",
        0x0102 => "On, Fired",
        0x0103 => "Auto, Fired, Red-eye reduction",
        0x0104 => "On, Red-eye reduction",
        0x0105 => "On, Wireless (Master)",
        0x0106 => "On, Wireless (Control)",
        0x0108 => "On, Soft",
        0x0109 => "On, Slow-sync",
        0x010a => "On, Slow-sync, Red-eye reduction",
        0x010b => "On, Trailing-curtain Sync",
        _ => "Unknown",
    }
}

/// Pentax saturation as ExifTool prints it ("Unknown" for other values).
pub open spec fn pentax_saturation_exiftool(value: u16) -> &'static str {
    match value {
        0 => "-2 (low)",
        1 => "0 (normal)",
        2 => "+2 (high)",
        3 => "-1 (medium low)",
        4 => "+1 (medium high)",
        5 => "-3 (very low)",
        6 => "+3 (very high)",
        7 => "-4 (minimum)",
        8 => "+4 (maximum)",
        65535 => "None",
        _ => "Unknown",
    }
}

/// Pentax saturation as ExifTool prints it ("Unknown" for other values).
pub fn decode_pentax_saturation_exiftool(value: u16) -> (r: &'static str)
    ensures
        r == pentax_saturation_exiftool(value),
{
    match value {
        0 => "-2 (low)",
        1 => "0 (normal)",
        2 => "+2 (high)",
        3 => "-1 (medium low)",
        4 => "+1 (medium high)",
        5 => "-3 (very low)",
        6 => "+3 (very high)",
        7 => "-4 (minimum)",
        8 => "+4 (maximum)",
        65535 => "None",
        _ => "Unknown",
    }
}

/// Pentax contrast as ExifTool prints it ("Unknown" for other values).
pub open spec fn pentax_contrast_exiftool(value: u16) -> &'static str {
    match value {
        0 => "-2 (low)",
        1 => "0 (normal)",
        2 => "+2 (high)",
        3 => "-1 (medium low)",
        4 => "+1 (medium high)",
        5 => "-3 (very low)",
        6 => "+3 (very high)",
        7 => "-4 (minimum)",
        8 => "+4 (maximum)",
        65535 => "n/a",
        _ => "Unknown",
    }
}

/// Pentax contrast as ExifTool prints it ("Unknown" for other values).
pub fn decode_pentax_contrast_exiftool(value: u16) -> (r: &'static str)
    ensures
        r == pentax_contrast_exiftool(value),
{
    match value {
        0 => "-2 (low)",
        1 => "0 (normal)",
        2 => "+2 (high)",
        3 => "-1 (medium low)",
        4 => "+1 (medium high)",
        5 => "-3 (very low)",
        6 => "+3 (very high)",
        7 => "-4 (minimum)",
        8 => "+4 (maximum)",
        65535 => "n/a",
        _ => "Unknown",
    }
}

/// Pentax sharpness as ExifTool prints it ("Unknown" for other values).
pub open spec fn pentax_sharpness_exiftool(value: u16) -> &'static str {
    match value {
        0 => "-2 (soft)",
        1 => "0 (normal)",
        2 => "+2 (hard)",
        3 => "-1 (medium soft)",
        4 => "+1 (medium hard)",
        5 => "-3 (very soft)",
        6 => "+3 (very hard)",
        7 => "-4 (minimum)",
        8 => "+4 (maximum)",
        _ => "Unknown",
    }
}

/// Pentax sharpness as ExifTool prints it ("Unknown" for other values).
pub fn decode_pentax_sharpness_exiftool(value: u16) -> (r: &'static str)
    ensures
        r == pentax_sharpness_exiftool(value),
{
    match value {
        0 => "-2 (soft)",
        1 => "0 (normal)",
        2 => "+2 (hard)",
        3 => "-1 (medium soft)",
        4 => "+1 (medium hard)",
        5 => "-3 (very soft)",
        6 => "+3 (very hard)",
        7 => "-4 (minimum)",
        8 => "+4 (maximum)",
        _ => "Unknown",
    }
}

/// Pentax drive mode as ExifTool prints it ("Unknown" for other values).
pub open spec fn pentax_drive_mode_exiftool(value: u16) -> &'static str {
    match value {
        0 => "Single-frame",
        1 => "Continuous",
        2 => "Continuous (Lo)",
        3 => "Burst",
        4 => "Continuous (Medium)",
        5 => "Continuous (Low)",
        255 => "Video",
        _ => "Unknown",
    }
}

/// Pentax drive mode as ExifTool prints it ("Unknown" for other values).
pub fn decode_pentax_drive_mode_exiftool(value: u16) -> (r: &'static str)
    ensures
        r == pentax_drive_mode_exiftool(value),
{
    match value {
        0 => "Single-frame",
        1 => "Continuous",
        2 => "Continuous (Lo)",
        3 => "Burst",
        4 => "Continuous (Medium)",
        5 => "Continuous (Low)",
        255 => "Video",
        _ => "Unknown",
    }
}

/// Pentax color space as ExifTool prints it ("Unknown" for other values).
pub open spec fn pentax_color_space_exiftool(value: u16) -> &'static str {
    match value {
        0 => "sRGB",
        1 => "Adobe RGB",
        _ => "Unknown",
    }
}

/// Pentax color space as ExifTool prints it ("Unknown" for other values).
pub fn decode_pentax_color_space_exiftool(value: u16) -> (r: &'static str)
    ensures
        r == pentax_color_space_exiftool(value),
{
    match value {
        0 => "sRGB",
        1 => "Adobe RGB",
        _ => "Unknown",
    }
}

/// Pentax PictureMode name for its first two bytes.
pub open spec fn picture_mode_pair_name(a: u8, b: u8) -> Option<&'static str> {
    match (a, b) {
        (0, 0) => Some("Program"),
        (0, 1) => Some("Hi-speed Program"),
        (0, 2) => Some("DOF Program"),
        (0, 3) => Some("MTF Program"),
        (0, 4) => Some("Standard"),
        (0, 5) => Some("Portrait"),
        (0, 6) => Some("Landscape"),
        (0, 7) => Some("Macro"),
        (0, 8) => Some("Sport"),
        (0, 9) => Some("Night Scene Portrait"),
        (0, 10) => Some("No Flash"),
        (0, 11) => Some("Night Scene"),
        (0, 12) => Some("Surf & Snow"),
        (0, 13) => Some("Text"),
        (0, 14) => Some("Sunset"),
        (0, 15) => Some("Kids"),
        (0, 16) => Some("Pet"),
        (0, 17) => Some("Candlelight"),
        (0, 18) => Some("Museum"),
        (0, 19) => Some("Food"),
        (0, 20) => Some("Stage Lighting"),
        (0, 21) => Some("Night Snap"),
        (0, 23) => Some("Blue Sky"),
        (0, 24) => Some("Sunset"),
        (0, 26) => Some("Night Scene HDR"),
        (0, 27) => Some("HDR"),
        (0, 28) => Some("Quick Macro"),
        (0, 29) => Some("Forest"),
        (0, 30) => Some("Backlight Silhouette"),
        (0, 31) => Some("Max. Aperture Priority"),
        (0, 32) => Some("DOF"),
        (1, 4) => Some("Auto PICT (Standard)"),
        (1, 5) => Some("Auto PICT (Portrait)"),
        (1, 6) => Some("Auto PICT (Landscape)"),
        (1, 7) => Some("Auto PICT (Macro)"),
        (1, 8) => Some("Auto PICT (Sport)"),
        (2, 0) => Some("Program (HyP)"),
        (2, 1) => Some("Hi-speed Program (HyP)"),
        (2, 2) => Some("DOF Program (HyP)"),
        (2, 3) => Some("MTF Program (HyP)"),
        (2, 22) => Some("Shallow DOF (HyP)"),
        (3, 0) => Some("Green Mode"),
        (4, 0) => Some("Shutter Speed Priority"),
        (5, 0) => Some("Aperture Priority"),
        (6, 0) => Some("Program Tv Shift"),
        (7, 0) => Some("Program Av Shift"),
        (8, 0) => Some("Manual"),
        (9, 0) => Some("Bulb"),
        (10, 0) => Some("Aperture Priority, Off-Auto-Aperture"),
        (11, 0) => Some("Manual, Off-Auto-Aperture"),
        (12, 0) => Some("Bulb, Off-Auto-Aperture"),
        (13, 0) => Some("Shutter & Aperture Priority AE"),
        (14, 0) => Some("Shutter Priority AE"),
        (15, 0) => Some("Sensitivity Priority AE"),
        (16, 0) => Some("Flash X-Sync Speed AE"),
        (17, 0) => Some("Flash X-Sync Speed"),
        (18, 0) => Some("Auto Program (Normal)"),
        (18, 1) => Some("Auto Program (Hi-speed)"),
        (18, 2) => Some("Auto Program (DOF)"),
        (18, 3) => Some("Auto Program (MTF)"),
        (18, 22) => Some("Auto Program (Shallow DOF)"),
        (19, 0) => Some("Astrotracer"),
        (20, 22) => Some("Blur Control"),
        (24, 0) => Some("Aperture Priority (Adv.Hyp)"),
        (25, 0) => Some("Manual Exposure (Adv.Hyp)"),
        (26, 0) => Some("Shutter and Aperture Priority (TAv)"),
        (249, 0) => Some("Movie (TAv)"),
        (250, 0) => Some("Movie (TAv, Auto Aperture)"),
        (251, 0) => Some("Movie (Manual)"),
        (252, 0) => Some("Movie (Manual, Auto Aperture)"),
        (253, 0) => Some("Movie (Av)"),
        (254, 0) => Some("Movie (Av, Auto Aperture)"),
        (255, 0) => Some("Movie (P, Auto Aperture)"),
        (255, 4) => Some("Video (4)"),
        _ => None,
    }
}

/// Pentax PictureMode name for its first two bytes.
fn picture_mode_pair(a: u8, b: u8) -> (r: Option<&'static str>)
    ensures
        r == picture_mode_pair_name(a, b),
{
    match (a, b) {
        (0, 0) => Some("Program"),
        (0, 1) => Some("Hi-speed Program"),
        (0, 2) => Some("DOF Program"),
        (0, 3) => Some("MTF Program"),
        (0, 4) => Some("Standard"),
        (0, 5) => Some("Portrait"),
        (0, 6) => Some("Landscape"),
        (0, 7) => Some("Macro"),
        (0, 8) => Some("Sport"),
        (0, 9) => Some("Night Scene Portrait"),
        (0, 10) => Some("No Flash"),
        (0, 11) => Some("Night Scene"),
        (0, 12) => Some("Surf & Snow"),
        (0, 13) => Some("Text"),
        (0, 14) => Some("Sunset"),
        (0, 15) => Some("Kids"),
        (0, 16) => Some("Pet"),
        (0, 17) => Some("Candlelight"),
        (0, 18) => Some("Museum"),
        (0, 19) => Some("Food"),
        (0, 20) => Some("Stage Lighting"),
        (0, 21) => Some("Night Snap"),
        (0, 23) => Some("Blue Sky"),
        (0, 24) => Some("Sunset"),
        (0, 26) => Some("Night Scene HDR"),
        (0, 27) => Some("HDR"),
        (0, 28) => Some("Quick Macro"),
        (0, 29) => Some("Forest"),
        (0, 30) => Some("Backlight Silhouette"),
        (0, 31) => Some("Max. Aperture Priority"),
        (0, 32) => Some("DOF"),
        (1, 4) => Some("Auto PICT (Standard)"),
        (1, 5) => Some("Auto PICT (Portrait)"),
        (1, 6) => Some("Auto PICT (Landscape)"),
        (1, 7) => Some("Auto PICT (Macro)"),
        (1, 8) => Some("Auto PICT (Sport)"),
        (2, 0) => Some("Program (HyP)"),
        (2, 1) => Some("Hi-speed Program (HyP)"),
        (2, 2) => Some("DOF Program (HyP)"),
        (2, 3) => Some("MTF Program (HyP)"),
        (2, 22) => Some("Shallow DOF (HyP)"),
        (3, 0) => Some("Green Mode"),
        (4, 0) => Some("Shutter Speed Priority"),
        (5, 0) => Some("Aperture Priority"),
        (6, 0) => Some("Program Tv Shift"),
        (7, 0) => Some("Program Av Shift"),
        (8, 0) => Some("Manual"),
        (9, 0) => Some("Bulb"),
        (10, 0) => Some("Aperture Priority, Off-Auto-Aperture"),
        (11, 0) => Some("Manual, Off-Auto-Aperture"),
        (12, 0) => Some("Bulb, Off-Auto-Aperture"),
        (13, 0) => Some("Shutter & Aperture Priority AE"),
        (14, 0) => Some("Shutter Priority AE"),
        (15, 0) => Some("Sensitivity Priority AE"),
        (16, 0) => Some("Flash X-Sync Speed AE"),
        (17, 0) => Some("Flash X-Sync Speed"),
        (18, 0) => Some("Auto Program (Normal)"),
        (18, 1) => Some("Auto Program (Hi-speed)"),
        (18, 2) => Some("Auto Program (DOF)"),
        (18, 3) => Some("Auto Program (MTF)"),
        (18, 22) => Some("Auto Program (Shallow DOF)"),
        (19, 0) => Some("Astrotracer"),
        (20, 22) => Some("Blur Control"),
        (24, 0) => Some("Aperture Priority (Adv.Hyp)"),
        (25, 0) => Some("Manual Exposure (Adv.Hyp)"),
        (26, 0) => Some("Shutter and Aperture Priority (TAv)"),
        (249, 0) => Some("Movie (TAv)"),
        (250, 0) => Some("Movie (TAv, Auto Aperture)"),
        (251, 0) => Some("Movie (Manual)"),
        (252, 0) => Some("Movie (Manual, Auto Aperture)"),
        (253, 0) => Some("Movie (Av)"),
        (254, 0) => Some("Movie (Av, Auto Aperture)"),
        (255, 0) => Some("Movie (P, Auto Aperture)"),
        (255, 4) => Some("Video (4)"),
        _ => None,
    }
}

/// Pentax AFPointSelected point name.
pub open spec fn af_point_selected_name(value: u16) -> Option<&'static str> {
    match value {
        0 => Some("None"),
        1 => Some("Upper-left"),
        2 => Some("Top"),
        3 => Some("Upper-right"),
        4 => Some("Left"),
        5 => Some("Mid-left"),
        6 => Some("Center"),
        7 => Some("Mid-right"),
        8 => Some("Right"),
        9 => Some("Lower-left"),
        10 => Some("Bottom"),
        11 => Some("Lower-right"),
        0xfffa => Some("Auto 2"),
        0xfffb => Some("AF Select"),
        0xfffc => Some("Face Detect AF"),
        0xfffd => Some("Automatic Tracking AF"),
        0xfffe => Some("Fixed Center"),
        0xffff => Some("Auto"),
        _ => None,
    }
}

/// Pentax AFPointSelected point name.
fn af_point_selected(value: u16) -> (r: Option<&'static str>)
    ensures
        r == af_point_selected_name(value),
{
    match value {
        0 => Some("None"),
        1 => Some("Upper-left"),
        2 => Some("Top"),
        3 => Some("Upper-right"),
        4 => Some("Left"),
        5 => Some("Mid-left"),
        6 => Some("Center"),
        7 => Some("Mid-right"),
        8 => Some("Right"),
        9 => Some("Lower-left"),
        10 => Some("Bottom"),
        11 => Some("Lower-right"),
        0xfffa => Some("Auto 2"),
        0xfffb => Some("AF Select"),
        0xfffc => Some("Face Detect AF"),
        0xfffd => Some("Automatic Tracking AF"),
        0xfffe => Some("Fixed Center"),
        0xffff => Some("Auto"),
        _ => None,
    }
}

/// Pentax image size for a pair of ImageSize values.
pub open spec fn image_size_pair_name(a: u16, b: u16) -> Option<&'static str> {
    match (a, b) {
        (0, 0) => Some("2304x1728"),
        (4, 0) => Some("1600x1200"),
        (5, 0) => Some("2048x1536"),
        (8, 0) => Some("2560x1920"),
        (32, 2) => Some("960x640"),
        (33, 2) => Some("1152x768"),
        (34, 2) => Some("1536x1024"),
        (35, 1) => Some("2400x1600"),
        (36, 0) => Some("3008x2008 or 3040x2024"),
        (37, 0) => Some("3008x2000"),
        _ => None,
    }
}

/// Pentax image size for a pair of ImageSize values.
fn image_size_pair(a: u16, b: u16) -> (r: Option<&'static str>)
    ensures
        r == image_size_pair_name(a, b),
{
    match (a, b) {
        (0, 0) => Some("2304x1728"),
        (4, 0) => Some("1600x1200"),
        (5, 0) => Some("2048x1536"),
        (8, 0) => Some("2560x1920"),
        (32, 2) => Some("960x640"),
        (33, 2) => Some("1152x768"),
        (34, 2) => Some("1536x1024"),
        (35, 1) => Some("2400x1600"),
        (36, 0) => Some("3008x2008 or 3040x2024"),
        (37, 0) => Some("3008x2000"),
        _ => None,
    }
}

/// Pentax image size for a single ImageSize value.
pub open spec fn image_size_single_name(v: u16) -> Option<&'static str> {
    match v {
        0 => Some("640x480"),
        1 => Some("Full"),
        2 => Some("1024x768"),
        3 => Some("1280x960"),
        4 => Some("1600x1200"),
        5 => Some("2048x1536"),
        8 => Some("2560x1920 or 2304x1728"),
        9 => Some("3072x2304"),
        10 => Some("3264x2448"),
        19 => Some("320x240"),
        20 => Some("2288x1712"),
        21 => Some("2592x1944"),
        22 => Some("2304x1728 or 2592x1944"),
        23 => Some("3056x2296"),
        25 => Some("2816x2212 or 2816x2112"),
        27 => Some("3648x2736"),
        29 => Some("4000x3000"),
        30 => Some("4288x3216"),
        31 => Some("4608x3456"),
        129 => Some("1920x1080"),
        135 => Some("4608x2592"),
        257 => Some("3216x3216"),
        _ => None,
    }
}

/// Distinct image size single codes that the table knows read as distinct names.
pub proof fn law_image_size_single_names_distinct(a: u16, b: u16)
    requires
        a != b,
        image_size_single_name(a) is Some,
        image_size_single_name(b) is Some,
    ensures
        image_size_single_name(a) != image_size_single_name(b),
{
    reveal_strlit("1024x768");
    reveal_strlit("1280x960");
    reveal_strlit("1600x1200");
    reveal_strlit("1920x1080");
    reveal_strlit("2048x1536");
    reveal_strlit("2288x1712");
    reveal_strlit("2304x1728 or 2592x1944");
    reveal_strlit("2560x1920 or 2304x1728");
    reveal_strlit("2592x1944");
    reveal_strlit("2816x2212 or 2816x2112");
    reveal_strlit("3056x2296");
    reveal_strlit("3072x2304");
    reveal_strlit("320x240");
    reveal_strlit("3216x3216");
    reveal_strlit("3264x2448");
    reveal_strlit("3648x2736");
    reveal_strlit("4000x3000");
    reveal_strlit("4288x3216");
    reveal_strlit("4608x2592");
    reveal_strlit("4608x3456");
    reveal_strlit("640x480");
    reveal_strlit("Full");
}

/// Pentax image size for a single ImageSize value.
fn image_size_single(v: u16) -> (r: Option<&'static str>)
    ensures
        r == image_size_single_name(v),
{
    match v {
        0 => Some("640x480"),
        1 => Some("Full"),
        2 => Some("1024x768"),
        3 => Some("1280x960"),
        4 => Some("1600x1200"),
        5 => Some("2048x1536"),
        8 => Some("2560x1920 or 2304x1728"),
        9 => Some("3072x2304"),
        10 => Some("3264x2448"),
        19 => Some("320x240"),
        20 => Some("2288x1712"),
        21 => Some("2592x1944"),
        22 => Some("2304x1728 or 2592x1944"),
        23 => Some("3056x2296"),
        25 => Some("2816x2212 or 2816x2112"),
        27 => Some("3648x2736"),
        29 => Some("4000x3000"),
        30 => Some("4288x3216"),
        31 => Some("4608x3456"),
        129 => Some("1920x1080"),
        135 => Some("4608x2592"),
        257 => Some("3216x3216"),
        _ => None,
    }
}

// ---------------------------------------------------------------------------
// Multi-value decoders
// ---------------------------------------------------------------------------

/// First DriveMode value: the drive mode.
pub open spec fn drive_mode_name(v: u16) -> &'static str {
    match v {
        0 => "Single-frame",
        1 => "Continuous",
        2 => "Continuous (Lo)",
        3 => "Burst",
        4 => "Continuous (Medium)",
        5 => "Continuous (Lo)",
        255 => "Video",
        _ => "Unknown",
    }
}

/// Distinct drive mode codes that the table knows read as distinct names,
/// but for the codes that share one name.
pub proof fn law_drive_mode_names_distinct(a: u16, b: u16)
    requires
        a != b,
        drive_mode_name(a) != "Unknown",
        drive_mode_name(b) != "Unknown",
    ensures
        drive_mode_name(a) != drive_mode_name(b) || ((a == 2 || a == 5) && (b == 2 || b == 5)),
{
    reveal_strlit("Burst");
    reveal_strlit("Continuous");
    reveal_strlit("Continuous (Lo)");
    reveal_strlit("Continuous (Medium)");
    reveal_strlit("Single-frame");
    reveal_strlit("Video");
    reveal_strlit("Unknown");
}

/// Second DriveMode value: the self-timer.
pub open spec fn self_timer_name(v: u16) -> &'static str {
    match v {
        0 => "No Timer",
        1 => "Self-timer (12 s)",
        2 => "Self-timer (2 s)",
        _ => "Timer Unknown",
    }
}

/// Distinct self timer codes that the table knows read as distinct names.
pub proof fn law_self_timer_names_distinct(a: u16, b: u16)
    requires
        a != b,
        self_timer_name(a) != "Timer Unknown",
        self_timer_name(b) != "Timer Unknown",
    ensures
        self_timer_name(a) != self_timer_name(b),
{
    reveal_strlit("No Timer");
    reveal_strlit("Self-timer (12 s)");
    reveal_strlit("Self-timer (2 s)");
    reveal_strlit("Timer Unknown");
}

/// Third DriveMode value: how the shutter was released.
pub open spec fn shutter_release_name(v: u16) -> &'static str {
    match v {
        0 => "Shutter Button",
        1 => "Remote Control (3 s delay)",
        2 => "Remote Control",
        _ => "Shutter Unknown",
    }
}

/// Distinct shutter release codes that the table knows read as distinct names.
pub proof fn law_shutter_release_names_distinct(a: u16, b: u16)
    requires
        a != b,
        shutter_release_name(a) != "Shutter Unknown",
        shutter_release_name(b) != "Shutter Unknown",
    ensures
        shutter_release_name(a) != shutter_release_name(b),
{
    reveal_strlit("Remote Control");
    reveal_strlit("Remote Control (3 s delay)");
    reveal_strlit("Shutter Button");
    reveal_strlit("Shutter Unknown");
}

/// Fourth DriveMode value: single or multiple exposure.
pub open spec fn exposure_count_name(v: u16) -> &'static str {
    match v {
        0 => "Single Exposure",
        1 => "Multiple Exposure",
        _ => "Exposure Unknown",
    }
}

/// Distinct exposure count codes that the table knows read as distinct names.
pub proof fn law_exposure_count_names_distinct(a: u16, b: u16)
    requires
        a != b,
        exposure_count_name(a) != "Exposure Unknown",
        exposure_count_name(b) != "Exposure Unknown",
    ensures
        exposure_count_name(a) != exposure_count_name(b),
{
    reveal_strlit("Multiple Exposure");
    reveal_strlit("Single Exposure");
    reveal_strlit("Exposure Unknown");
}

/// Name of the `i`-th DriveMode value.
pub open spec fn drive_part_name(i: int, v: u16) -> &'static str {
    if i == 0 {
        drive_mode_name(v)
    } else if i == 1 {
        self_timer_name(v)
    } else if i == 2 {
        shutter_release_name(v)
    } else {
        exposure_count_name(v)
    }
}

/// The decoded parts of a DriveMode value list (at most four are read).
pub open spec fn drive_mode_parts(v: Seq<u16>) -> Seq<Seq<char>> {
    Seq::new(if v.len() < 4 { v.len() } else { 4 }, |i: int| drive_part_name(i, v[i])@)
}

/// DriveMode text: "Unknown" when empty, else its decoded parts joined by "; ".
pub open spec fn drive_mode_text(v: Seq<u16>) -> Seq<char> {
    if v.len() == 0 {
        "Unknown"@
    } else {
        join(drive_mode_parts(v), "; "@)
    }
}

fn drive_part(i: usize, v: u16) -> (r: &'static str)
    ensures
        r == drive_part_name(i as int, v),
{
    if i == 0 {
        match v {
            0 => "Single-frame",
            1 => "Continuous",
            2 => "Continuous (Lo)",
            3 => "Burst",
            4 => "Continuous (Medium)",
            5 => "Continuous (Lo)",
            255 => "Video",
            _ => "Unknown",
        }
    } else if i == 1 {
        match v {
            0 => "No Timer",
            1 => "Self-timer (12 s)",
            2 => "Self-timer (2 s)",
            _ => "Timer Unknown",
        }
    } else if i == 2 {
        match v {
            0 => "Shutter Button",
            1 => "Remote Control (3 s delay)",
            2 => "Remote Control",
            _ => "Shutter Unknown",
        }
    } else {
        match v {
            0 => "Single Exposure",
            1 => "Multiple Exposure",
            _ => "Exposure Unknown",
        }
    }
}

fn drive_mode_of(v: &Vec<u16>) -> (r: String)
    ensures
        r@ == drive_mode_text(v@),
{
    if v.len() == 0 {
        return owned("Unknown");
    }
    let n: usize = if v.len() < 4 {
        v.len()
    } else {
        4
    };
    let ghost want = drive_mode_parts(v@);
    let mut parts: Vec<String> = Vec::new();
    let mut i: usize = 0;
    while i < n
        invariant
            n == want.len(),
            want == drive_mode_parts(v@),
            n <= v@.len(),
            i <= n,
            views(parts@) =~= want.take(i as int),
        decreases n - i,
    {
        let ghost before = parts@;
        let part = owned(drive_part(i, v[i]));
        parts.push(part);
        proof {
            assert(views(parts@) =~= views(before).push(part@));
            assert(want.take(i + 1) =~= want.take(i as int).push(want[i as int]));
        }
        i = i + 1;
    }
    assert(want.take(n as int) =~= want);
    join_strings(&parts, "; ")
}

/// Decodes Pentax DriveMode given as 16-bit values.
pub fn decode_drive_mode_multi(data: &[u16]) -> (r: String)
    ensures
        r@ == drive_mode_text(data@),
{
    let mut v: Vec<u16> = Vec::new();
    let mut i: usize = 0;
    while i < data.len()
        invariant
            i <= data@.len(),
            v@ =~= data@.take(i as int),
        decreases data@.len() - i,
    {
        v.push(data[i]);
        i = i + 1;
    }
    assert(v@ =~= data@);
    drive_mode_of(&v)
}

/// Bytes widened to 16-bit values.
pub open spec fn widen(b: Seq<u8>) -> Seq<u16> {
    b.map_values(|x: u8| x as u16)
}

/// Decodes Pentax DriveMode given as bytes.
pub fn decode_drive_mode_from_bytes(data: &[u8]) -> (r: String)
    ensures
        r@ == drive_mode_text(widen(data@)),
{
    let mut v: Vec<u16> = Vec::new();
    let mut i: usize = 0;
    while i < data.len()
        invariant
            i <= data@.len(),
            v@ =~= widen(data@.take(i as int)),
        decreases data@.len() - i,
    {
        v.push(data[i] as u16);
        i = i + 1;
    }
    assert(data@.take(data@.len() as int) =~= data@);
    drive_mode_of(&v)
}

// ---------------------------------------------------------------------------
// Date, time and firmware
// ---------------------------------------------------------------------------

/// The Date tag: a big-endian year, then month and day, as "YYYY:MM:DD"
/// when they form a plausible date.
pub open spec fn date_text(b: Seq<u8>) -> Option<Seq<char>> {
    if b.len() >= 4 {
        let year = b[0] * 256 + b[1];
        if 0 < year < 3000 && 1 <= b[2] <= 12 && 1 <= b[3] <= 31 {
            Some(zero_pad(dec(year as nat), 4) + seq![':'] + zero_pad(dec(b[2] as nat), 2) + seq![
                ':',
            ] + zero_pad(dec(b[3] as nat), 2))
        } else {
            None
        }
    } else {
        None
    }
}

/// Decodes the Pentax Date tag.
pub fn decode_date_from_bytes(data: &[u8]) -> (r: Option<String>)
    ensures
        r matches Some(s) ==> date_text(data@) == Some(s@),
        r is None ==> date_text(data@) is None,
{
    if data.len() >= 4 {
        let year: u16 = (data[0] as u16) * 256 + (data[1] as u16);
        let month = data[2];
        let day = data[3];
        if year > 0 && year < 3000 && 1 <= month && month <= 12 && 1 <= day && day <= 31 {
            let mut s = String::new();
            push_dec_pad(&mut s, year as u64, 4);
            push_char(&mut s, ':');
            push_dec_pad(&mut s, month as u64, 2);
            push_char(&mut s, ':');
            push_dec_pad(&mut s, day as u64, 2);
            proof {
                assert(s@ =~= date_text(data@).unwrap());
            }
            return Some(s);
        }
    }
    None
}

/// The Time tag: hour, minute, second as "HH:MM:SS" when they form a valid time.
pub open spec fn time_text(b: Seq<u8>) -> Option<Seq<char>> {
    if b.len() >= 3 && b[0] < 24 && b[1] < 60 && b[2] < 60 {
        Some(zero_pad(dec(b[0] as nat), 2) + seq![':'] + zero_pad(dec(b[1] as nat), 2) + seq![
            ':',
        ] + zero_pad(dec(b[2] as nat), 2))
    } else {
        None
    }
}

/// Decodes the Pentax Time tag.
pub fn decode_time_from_bytes(data: &[u8]) -> (r: Option<String>)
    ensures
        r matches Some(s) ==> time_text(data@) == Some(s@),
        r is None ==> time_text(data@) is None,
{
    if data.len() >= 3 {
        let hour = data[0];
        let minute = data[1];
        let second = data[2];
        if hour < 24 && minute < 60 && second < 60 {
            let mut s = String::new();
            push_dec_pad(&mut s, hour as u64, 2);
            push_char(&mut s, ':');
            push_dec_pad(&mut s, minute as u64, 2);
            push_char(&mut s, ':');
            push_dec_pad(&mut s, second as u64, 2);
            proof {
                assert(s@ =~= time_text(data@).unwrap());
            }
            return Some(s);
        }
    }
    None
}

/// Firmware version text: each of the first four bytes inverted (XOR 0xFF),
/// as "A.BB.CC.DD"; shorter data is listed in hexadecimal.
pub open spec fn firmware_text(b: Seq<u8>) -> Seq<char> {
    if b.len() < 4 {
        hex_list(b, false, " "@)
    } else {
        dec((b[0] ^ 0xff) as nat) + seq!['.'] + zero_pad(dec((b[1] ^ 0xff) as nat), 2) + seq!['.']
            + zero_pad(dec((b[2] ^ 0xff) as nat), 2) + seq!['.'] + zero_pad(
            dec((b[3] ^ 0xff) as nat),
            2,
        )
    }
}

/// Decodes a Pentax firmware version (stored with every byte inverted).
pub fn decode_firmware_version(data: &[u8]) -> (r: String)
    ensures
        r@ == firmware_text(data@),
{
    if data.len() < 4 {
        return format_bytes_as_hex(data);
    }
    let mut s = String::new();
    push_dec(&mut s, (data[0] ^ 0xff) as u64);
    push_char(&mut s, '.');
    push_dec_pad(&mut s, (data[1] ^ 0xff) as u64, 2);
    push_char(&mut s, '.');
    push_dec_pad(&mut s, (data[2] ^ 0xff) as u64, 2);
    push_char(&mut s, '.');
    push_dec_pad(&mut s, (data[3] ^ 0xff) as u64, 2);
    proof {
        assert(s@ =~= firmware_text(data@));
    }
    s
}

/// Lists bytes as two-digit lower-case hexadecimal separated by spaces.
pub fn format_bytes_as_hex(data: &[u8]) -> (r: String)
    ensures
        r@ == hex_list(data@, false, " "@),
{
    fmt_hex_list(data, false, " ")
}

// ---------------------------------------------------------------------------
// Auto bracketing
// ---------------------------------------------------------------------------

/// The EV step of the first AutoBracketing value, in tenths of an EV, when it
/// is one of the coded forms; `None` when the value is printed as is.
pub open spec fn bracket_step_tenths(ev: u16) -> Option<nat> {
    if ev < 10 {
        Some(tenths(ev as nat, 3))
    } else if ev < 20 {
        Some((10 * ev - 95) as nat)
    } else if ev & 0x1000 != 0 {
        Some(tenths((ev & 0x0fff) as nat, 2))
    } else if ev & 0x2000 != 0 {
        Some(tenths((ev & 0x0fff) as nat, 3))
    } else {
        None
    }
}

/// Kind of extended bracketing in the second AutoBracketing value.
pub open spec fn extended_bracket_name(t: u8) -> &'static str {
    match t {
        1 => "WB-BA",
        2 => "WB-GM",
        3 => "Saturation",
        4 => "Sharpness",
        5 => "Contrast",
        6 => "Hue",
        7 => "HighLowKey",
        _ => "Unknown",
    }
}

/// AutoBracketing text.
pub open spec fn auto_bracketing_text(v: Seq<u16>) -> Seq<char> {
    if v.len() == 0 {
        "Unknown"@
    } else if v.len() == 1 {
        if v[0] == 0 {
            "0"@
        } else {
            match bracket_step_tenths(v[0]) {
                Some(t) => tenths_text(t),
                None => dec(v[0] as nat),
            }
        }
    } else {
        let ev = if v[0] == 0 {
            "0 EV"@
        } else {
            match bracket_step_tenths(v[0]) {
                Some(t) => tenths_text(t) + " EV"@,
                None => dec(v[0] as nat) + " EV"@,
            }
        };
        let ext = if v[1] == 0 {
            "No Extended Bracket"@
        } else {
            extended_bracket_name((v[1] >> 8) as u8)@ + seq!['+'] + dec((v[1] & 0xff) as nat)
        };
        ev + ", "@ + ext
    }
}

fn bracket_step(ev: u16) -> (r: Option<u64>)
    ensures
        r matches Some(t) ==> bracket_step_tenths(ev) == Some(t as nat),
        r is None ==> bracket_step_tenths(ev) is None,
{
    if ev < 10 {
        Some((20 * (ev as u64) + 3) / 6)
    } else if ev < 20 {
        Some(10 * (ev as u64) - 95)
    } else if ev & 0x1000 != 0 {
        Some((20 * ((ev & 0x0fff) as u64) + 2) / 4)
    } else if ev & 0x2000 != 0 {
        Some((20 * ((ev & 0x0fff) as u64) + 3) / 6)
    } else {
        None
    }
}

/// Decodes Pentax AutoBracketing.
pub fn decode_auto_bracketing(values: &[u16]) -> (r: String)
    ensures
        r@ == auto_bracketing_text(values@),
{
    if values.len() == 0 {
        return owned("Unknown");
    }
    let ev = values[0];
    if values.len() == 1 {
        if ev == 0 {
            return owned("0");
        }
        let mut s = String::new();
        match bracket_step(ev) {
            Some(t) => push_tenths(&mut s, t),
            None => push_dec(&mut s, ev as u64),
        }
        proof {
            assert(s@ =~= auto_bracketing_text(values@));
        }
        return s;
    }
    let mut s = String::new();
    if ev == 0 {
        push_str(&mut s, "0 EV");
    } else {
        match bracket_step(ev) {
            Some(t) => push_tenths(&mut s, t),
            None => push_dec(&mut s, ev as u64),
        }
        push_str(&mut s, " EV");
    }
    push_str(&mut s, ", ");
    let ext = values[1];
    if ext == 0 {
        push_str(&mut s, "No Extended Bracket");
    } else {
        let ext_type = (ext >> 8) as u8;
        let name = match ext_type {
            1 => "WB-BA",
            2 => "WB-GM",
            3 => "Saturation",
            4 => "Sharpness",
            5 => "Contrast",
            6 => "Hue",
            7 => "HighLowKey",
            _ => "Unknown",
        };
        push_str(&mut s, name);
        push_char(&mut s, '+');
        push_dec(&mut s, (ext & 0xff) as u64);
    }
    proof {
        assert(s@ =~= auto_bracketing_text(values@));
    }
    s
}

// ---------------------------------------------------------------------------
// Picture mode, AF point, image size
// ---------------------------------------------------------------------------

/// PictureMode text from its bytes.
pub open spec fn picture_mode_text(b: Seq<u8>) -> Seq<char> {
    if b.len() == 0 {
        "Unknown"@
    } else {
        let second: u8 = if b.len() >= 2 {
            b[1]
        } else {
            0
        };
        match picture_mode_pair_name(b[0], second) {
            None => dec(b[0] as nat) + seq![' '] + dec(second as nat),
            Some(mode) => if b.len() >= 3 && b[2] == 0 {
                mode@ + "; "@ + "1/2 EV steps"@
            } else if b.len() >= 3 && b[2] == 1 {
                mode@ + "; "@ + "1/3 EV steps"@
            } else {
                mode@
            },
        }
    }
}

/// Decodes Pentax PictureMode given as bytes.
pub fn decode_picture_mode_multi(data: &[u8]) -> (r: String)
    ensures
        r@ == picture_mode_text(data@),
{
    if data.len() == 0 {
        return owned("Unknown");
    }
    let second: u8 = if data.len() >= 2 {
        data[1]
    } else {
        0
    };
    match picture_mode_pair(data[0], second) {
        None => {
            let mut s = fmt_dec(data[0] as u64);
            push_char(&mut s, ' ');
            push_dec(&mut s, second as u64);
            proof {
                assert(s@ =~= picture_mode_text(data@));
            }
            s
        },
        Some(mode) => {
            let mut s = owned(mode);
            if data.len() >= 3 && (data[2] == 0 || data[2] == 1) {
                push_str(&mut s, "; ");
                if data[2] == 0 {
                    push_str(&mut s, "1/2 EV steps");
                } else {
                    push_str(&mut s, "1/3 EV steps");
                }
            }
            proof {
                assert(s@ =~= picture_mode_text(data@));
            }
            s
        },
    }
}

/// AFPointSelected text from its values.
pub open spec fn af_point_selected_text(v: Seq<u16>) -> Seq<char> {
    if v.len() == 0 {
        "Unknown"@
    } else {
        match af_point_selected_name(v[0]) {
            None => dec(v[0] as nat),
            Some(p) => if v.len() > 1 && v[1] == 0 {
                p@ + "; "@ + "Single Point"@
            } else if v.len() > 1 && v[1] == 1 {
                p@ + "; "@ + "Expanded Area"@
            } else {
                p@
            },
        }
    }
}

/// Decodes Pentax AFPointSelected, with the AF area mode when a second value is present.
pub fn decode_af_point_selected_multi(data: &[u16]) -> (r: String)
    ensures
        r@ == af_point_selected_text(data@),
{
    if data.len() == 0 {
        return owned("Unknown");
    }
    match af_point_selected(data[0]) {
        None => fmt_dec(data[0] as u64),
        Some(p) => {
            let mut s = owned(p);
            if data.len() > 1 && (data[1] == 0 || data[1] == 1) {
                push_str(&mut s, "; ");
                if data[1] == 0 {
                    push_str(&mut s, "Single Point");
                } else {
                    push_str(&mut s, "Expanded Area");
                }
            }
            proof {
                assert(s@ =~= af_point_selected_text(data@));
            }
            s
        },
    }
}

/// ImageSize text: the pair of values when it is a known pair, else the first value.
pub open spec fn image_size_text(v: Seq<u16>) -> Option<Seq<char>> {
    if v.len() == 0 {
        None
    } else if v.len() >= 2 && image_size_pair_name(v[0], v[1]) is Some {
        Some(image_size_pair_name(v[0], v[1]).unwrap()@)
    } else {
        match image_size_single_name(v[0]) {
            Some(s) => Some(s@),
            None => None,
        }
    }
}

/// Decodes Pentax ImageSize from one or two values.
pub fn decode_image_size(values: &[u16]) -> (r: Option<String>)
    ensures
        r matches Some(s) ==> image_size_text(values@) == Some(s@),
        r is None ==> image_size_text(values@) is None,
{
    if values.len() == 0 {
        return None;
    }
    if values.len() >= 2 {
        if let Some(s) = image_size_pair(values[0], values[1]) {
            return Some(owned(s));
        }
    }
    match image_size_single(values[0]) {
        Some(s) => Some(owned(s)),
        None => None,
    }
}

// ---------------------------------------------------------------------------
// Shutter count
// ---------------------------------------------------------------------------

/// The Pentax shutter-count cipher: the value XOR the date XOR the complement of the time.
pub open spec fn shutter_cipher(value: u32, date: u32, time: u32) -> u32 {
    value ^ date ^ (0xFFFF_FFFFu32 - time) as u32
}

/// The time bytes as a big-endian word, a fourth zero byte added when only three are given.
pub open spec fn time_word(t: Seq<u8>) -> u32 {
    if t.len() >= 4 {
        be32(t)
    } else {
        be32(seq![t[0], t[1], t[2], 0u8])
    }
}

/// The decrypted shutter count, when the inputs have the sizes the cipher needs.
pub open spec fn shutter_count_of(enc: Seq<u8>, date: Seq<u8>, time: Seq<u8>) -> Option<u32> {
    if enc.len() != 4 || date.len() < 4 || time.len() < 3 {
        None
    } else {
        Some(shutter_cipher(be32(enc), be32(date), time_word(time)))
    }
}

/// Decrypts the Pentax ShutterCount with the raw Date and Time values.
pub fn decrypt_shutter_count(encrypted: &[u8], date_bytes: &[u8], time_bytes: &[u8]) -> (r: Option<u32>)
    ensures
        r == shutter_count_of(encrypted@, date_bytes@, time_bytes@),
{
    if encrypted.len() != 4 {
        return None;
    }
    if date_bytes.len() < 4 {
        return None;
    }
    if time_bytes.len() < 3 {
        return None;
    }
    let val = read_u32(encrypted, Endianness::Big);
    let date = read_u32(date_bytes, Endianness::Big);
    let time = if time_bytes.len() >= 4 {
        read_u32(time_bytes, Endianness::Big)
    } else {
        let padded: Vec<u8> = vec![time_bytes[0], time_bytes[1], time_bytes[2], 0u8];
        proof {
            assert(padded@ =~= seq![time_bytes@[0], time_bytes@[1], time_bytes@[2], 0u8]);
        }
        read_u32(padded.as_slice(), Endianness::Big)
    };
    Some(val ^ date ^ (0xFFFF_FFFFu32 - time))
}

/// Applying the shutter-count cipher twice with the same date and time gives
/// back the original value: decryption undoes encryption.
pub proof fn law_shutter_cipher_involution(value: u32, date: u32, time: u32)
    ensures
        shutter_cipher(shutter_cipher(value, date, time), date, time) == value,
{
    let k = (0xFFFF_FFFFu32 - time) as u32;
    assert((value ^ date ^ k) ^ date ^ k == value) by (bit_vector);
}


// ---------------------------------------------------------------------------
// The maker-note directory
// ---------------------------------------------------------------------------

/// EffectiveLV: the value read as a signed count of 1/1024 EV, to one decimal.
pub open spec fn effective_lv_text(x: u16) -> Seq<char> {
    let s = x as i16;
    if s < 0 {
        seq!['-'] + tenths_text(round_half_even((10 * (-s)) as nat, 1024))
    } else {
        tenths_text(round_half_even((10 * s) as nat, 1024))
    }
}

/// Text of a SHORT tag decoded from all of its values, when the tag has such a decoder.
pub open spec fn short_multi_text(tag: u16, v: Seq<u16>) -> Option<Seq<char>> {
    if tag == PENTAX_DRIVE_MODE {
        if v.len() > 1 {
            Some(drive_mode_text(v))
        } else {
            None
        }
    } else if tag == PENTAX_AF_POINT_SELECTED {
        Some(af_point_selected_text(v))
    } else if tag == PENTAX_AUTO_BRACKETING {
        if v.len() > 0 {
            Some(auto_bracketing_text(v))
        } else {
            None
        }
    } else if tag == PENTAX_RAW_IMAGE_SIZE {
        if v.len() == 2 {
            Some(dec(v[0] as nat) + seq!['x'] + dec(v[1] as nat))
        } else {
            None
        }
    } else if tag == PENTAX_SENSOR_SIZE {
        if v.len() == 2 {
            Some(thousandths_text(2 * v[0] as nat) + " x "@ + thousandths_text(2 * v[1] as nat)
                + " mm"@)
        } else {
            None
        }
    } else if tag == PENTAX_IMAGE_SIZE {
        image_size_text(v)
    } else {
        None
    }
}

/// Text of a SHORT tag with a single value, when the tag has a decoder for it.
pub open spec fn short_single_text(tag: u16, x: u16) -> Option<Seq<char>> {
    if tag == PENTAX_QUALITY {
        Some(pentax_quality_exiftool(x)@)
    } else if tag == PENTAX_FOCUS_MODE {
        Some(pentax_focus_mode_exiftool(x)@)
    } else if tag == PENTAX_METERING_MODE {
        Some(pentax_metering_mode_exiftool(x)@)
    } else if tag == PENTAX_WHITE_BALANCE {
        Some(pentax_white_balance_exiftool(x)@)
    } else if tag == PENTAX_FLASH_MODE {
        Some(pentax_flash_mode_exiftool(x)@)
    } else if tag == PENTAX_SATURATION {
        Some(pentax_saturation_exiftool(x)@)
    } else if tag == PENTAX_CONTRAST {
        Some(pentax_contrast_exiftool(x)@)
    } else if tag == PENTAX_SHARPNESS {
        Some(pentax_sharpness_exiftool(x)@)
    } else if tag == PENTAX_DRIVE_MODE {
        Some(pentax_drive_mode_exiftool(x)@)
    } else if tag == PENTAX_COLOR_SPACE {
        Some(pentax_color_space_exiftool(x)@)
    } else if tag == PENTAX_WORLD_TIME_LOCATION {
        Some(world_time_location_name(x)@)
    } else if tag == PENTAX_HOMETOWN_DST || tag == PENTAX_DESTINATION_DST {
        Some(dst_name(x)@)
    } else if tag == PENTAX_HOMETOWN_CITY || tag == PENTAX_DESTINATION_CITY {
        match city_name(x as u32) {
            Some(c) => Some(c@),
            None => None,
        }
    } else if tag == PENTAX_WHITE_BALANCE_MODE {
        match white_balance_mode_name(x) {
            Some(c) => Some(c@),
            None => None,
        }
    } else if tag == PENTAX_EFFECTIVE_LV {
        Some(effective_lv_text(x))
    } else {
        None
    }
}

/// The value of a SHORT tag.
pub open spec fn short_value(tag: u16, v: Seq<u16>) -> ValueView {
    match short_multi_text(tag, v) {
        Some(s) => ValueView::Ascii(s),
        None => if v.len() == 1 {
            match short_single_text(tag, v[0]) {
                Some(s) => ValueView::Ascii(s),
                None => ValueView::Short(v),
            }
        } else {
            ValueView::Short(v)
        },
    }
}

/// The value of a LONG tag.
pub open spec fn long_value(tag: u16, v: Seq<u32>) -> ValueView {
    if tag == PENTAX_MODEL_ID && v.len() == 1 {
        match pentax_model_name(v[0]) {
            Some(n) => ValueView::Ascii(n@),
            None => ValueView::Long(v),
        }
    } else if (tag == PENTAX_HOMETOWN_CITY || tag == PENTAX_DESTINATION_CITY) && v.len() == 1 {
        match city_name(v[0]) {
            Some(n) => ValueView::Ascii(n@),
            None => ValueView::Long(v),
        }
    } else {
        ValueView::Long(v)
    }
}

/// The value of a BYTE tag.
pub open spec fn byte_value(tag: u16, b: Seq<u8>) -> ValueView {
    if tag == PENTAX_PICTURE_MODE && b.len() >= 2 {
        ValueView::Ascii(picture_mode_text(b))
    } else if tag == PENTAX_LENS_TYPE && b.len() >= 2 {
        match pentax_lens_name(b[0], b[1]) {
            Some(n) => ValueView::Ascii(n@),
            None => ValueView::Byte(b),
        }
    } else if tag == PENTAX_DRIVE_MODE && b.len() >= 2 {
        ValueView::Ascii(drive_mode_text(widen(b)))
    } else {
        ValueView::Byte(b)
    }
}

/// The value of an UNDEFINED tag.
pub open spec fn undefined_value(tag: u16, b: Seq<u8>) -> ValueView {
    if (tag == PENTAX_DSP_FIRMWARE_VERSION || tag == PENTAX_CPU_FIRMWARE_VERSION) && b.len() >= 4 {
        ValueView::Ascii(firmware_text(b))
    } else if tag == PENTAX_DATE && b.len() >= 4 {
        match date_text(b) {
            Some(s) => ValueView::Ascii(s),
            None => ValueView::Undefined(b),
        }
    } else if tag == PENTAX_TIME && b.len() >= 3 {
        match time_text(b) {
            Some(s) => ValueView::Ascii(s),
            None => ValueView::Undefined(b),
        }
    } else {
        ValueView::Undefined(b)
    }
}






/// The value of an entry from its type, count and value bytes; `None` for types not read.
pub open spec fn pentax_value(tag: u16, typ: u16, count: u32, b: Seq<u8>, e: Endianness) -> Option<
    ValueView,
> {
    if typ == 1 {
        Some(byte_value(tag, first_bytes(b, count)))
    } else if typ == 2 {
        Some(ValueView::Ascii(strip_nuls(utf8_lossy(first_bytes(b, count)))))
    } else if typ == 3 {
        Some(short_value(tag, read_shorts(b, count, e)))
    } else if typ == 4 {
        Some(long_value(tag, read_longs(b, count, e)))
    } else if typ == 5 {
        Some(ValueView::Rational(read_rationals(b, count, e)))
    } else if typ == 7 {
        Some(undefined_value(tag, b))
    } else {
        None
    }
}

/// Size in bytes of an entry's value.
pub open spec fn value_size(typ: u16, count: u32) -> nat {
    if typ == 1 || typ == 2 || typ == 7 {
        count as nat
    } else if typ == 3 {
        2 * count as nat
    } else if typ == 4 {
        4 * count as nat
    } else if typ == 5 {
        8 * count as nat
    } else {
        0
    }
}

/// Where a directory is read from.
pub struct PentaxDir {
    /// The whole maker note.
    pub data: Seq<u8>,
    /// Offset in `data` that value offsets count from.
    pub base: nat,
    /// Byte order of the directory.
    pub endian: Endianness,
    /// The directory itself: `data` from its start on.
    pub ifd: Seq<u8>,
    /// The enclosing TIFF data, when known.
    pub tiff: Option<Seq<u8>>,
    /// Offset of the TIFF header in `tiff`.
    pub tiff_offset: nat,
}

/// A 16-bit field of the directory at `pos`.
pub open spec fn dir_u16(d: PentaxDir, pos: int) -> u16 {
    u16_of(d.ifd.subrange(pos, d.ifd.len() as int), d.endian)
}

/// A 32-bit field of the directory at `pos`.
pub open spec fn dir_u32(d: PentaxDir, pos: int) -> u32 {
    u32_of(d.ifd.subrange(pos, d.ifd.len() as int), d.endian)
}

/// Position of entry `k` in the directory.
pub open spec fn entry_pos(k: nat) -> int {
    2 + 12 * (k as int)
}

/// The bytes holding the value of entry `k`: inline when they fit in four
/// bytes, else at the offset, first in the TIFF data, then in the maker note.
/// `None` when the offset points outside both.
pub open spec fn entry_value_bytes(d: PentaxDir, k: nat) -> Option<Seq<u8>> {
    let p = entry_pos(k);
    let typ = dir_u16(d, p + 2);
    let count = dir_u32(d, p + 4);
    let off = dir_u32(d, p + 8);
    let size = value_size(typ, count);
    if size <= 4 {
        Some(d.ifd.subrange(p + 8, p + 12))
    } else {
        let in_tiff: Option<Seq<u8>> = match d.tiff {
            Some(t) => if d.tiff_offset + off + size <= t.len() {
                Some(t.subrange(d.tiff_offset + off, d.tiff_offset + off + size))
            } else {
                None
            },
            None => None,
        };
        match in_tiff {
            Some(b) => Some(b),
            None => if d.base + off + size <= d.data.len() {
                Some(d.data.subrange(d.base + off, d.base + off + size))
            } else {
                None
            },
        }
    }
}

/// State while the entries are read: the tags so far and the raw bytes of
/// the last Date, Time and ShutterCount values.
pub struct PentaxScan {
    pub tags: Map<u16, TagView>,
    pub date: Option<Seq<u8>>,
    pub time: Option<Seq<u8>>,
    pub shutter: Option<Seq<u8>>,
}

/// The state after entry `k` is read.
pub open spec fn pentax_step(d: PentaxDir, st: PentaxScan, k: nat) -> PentaxScan {
    let p = entry_pos(k);
    let tag = dir_u16(d, p);
    let typ = dir_u16(d, p + 2);
    let count = dir_u32(d, p + 4);
    match entry_value_bytes(d, k) {
        None => st,
        Some(b) => match pentax_value(tag, typ, count, b, d.endian) {
            None => st,
            Some(v) => PentaxScan {
                tags: st.tags.insert(tag, plain_tag(tag, pentax_tag_name(tag), v)),
                date: if typ == 7 && tag == PENTAX_DATE && b.len() >= 4 {
                    Some(b)
                } else {
                    st.date
                },
                time: if typ == 7 && tag == PENTAX_TIME && b.len() >= 3 {
                    Some(b)
                } else {
                    st.time
                },
                shutter: if typ == 7 && tag == PENTAX_SHUTTER_COUNT && b.len() == 4 {
                    Some(b)
                } else {
                    st.shutter
                },
            },
        },
    }
}

/// The state after the first `k` entries are read.
pub open spec fn pentax_scan(d: PentaxDir, k: nat) -> PentaxScan
    decreases k,
{
    if k == 0 {
        PentaxScan { tags: Map::empty(), date: None, time: None, shutter: None }
    } else {
        pentax_step(d, pentax_scan(d, (k - 1) as nat), (k - 1) as nat)
    }
}

/// Number of entries read: those announced, as far as twelve bytes of each fit.
pub open spec fn entries_read(ifd: Seq<u8>, announced: u16) -> nat {
    let fit = (ifd.len() - 2) / 12;
    if (announced as int) < fit {
        announced as nat
    } else {
        fit as nat
    }
}

/// The tags once the entries are read, with ShutterCount replaced by its
/// decrypted value when Date, Time and ShutterCount were all present.
pub open spec fn pentax_finish(st: PentaxScan) -> Map<u16, TagView> {
    match (st.shutter, st.date, st.time) {
        (Some(s), Some(dt), Some(tm)) => match shutter_count_of(s, dt, tm) {
            Some(v) => st.tags.insert(
                PENTAX_SHUTTER_COUNT,
                plain_tag(
                    PENTAX_SHUTTER_COUNT,
                    Some("ShutterCount"),
                    ValueView::Ascii(dec(v as nat)),
                ),
            ),
            None => st.tags,
        },
        _ => st.tags,
    }
}

/// Byte order named by two bytes "II" or "MM", else the given default.
pub open spec fn order_mark(a: u8, b: u8, default: Endianness) -> Endianness {
    if a == 0x49 && b == 0x49 {
        Endianness::Little
    } else if a == 0x4d && b == 0x4d {
        Endianness::Big
    } else {
        default
    }
}

/// Whether the maker note starts with "AOC\0".
pub open spec fn is_aoc(data: Seq<u8>) -> bool {
    data.len() >= 4 && data[0] == 0x41 && data[1] == 0x4f && data[2] == 0x43 && data[3] == 0
}

/// Whether the maker note starts with "PENTAX \0".
pub open spec fn is_pentax_header(data: Seq<u8>) -> bool {
    data.len() > 8 && data[0] == 0x50 && data[1] == 0x45 && data[2] == 0x4e && data[3] == 0x54
        && data[4] == 0x41 && data[5] == 0x58 && data[6] == 0x20 && data[7] == 0
}

/// Base offset, byte order and directory offset of a maker note; `None` when
/// a "PENTAX" header is too short to hold a directory offset.
pub open spec fn pentax_layout(data: Seq<u8>, endian: Endianness) -> Option<
    (nat, Endianness, nat),
> {
    if is_aoc(data) {
        Some((0, order_mark(data[4], data[5], endian), 6))
    } else if is_pentax_header(data) {
        let e = if data.len() > 10 {
            order_mark(data[8], data[9], endian)
        } else {
            endian
        };
        if data.len() > 16 {
            Some((8, e, u32_of(data.subrange(12, data.len() as int), e) as nat))
        } else {
            None
        }
    } else {
        Some((0, endian, 0))
    }
}

/// The tags of a Pentax maker note; `Err` when the directory has no room for its entry count.
pub open spec fn pentax_maker_notes(
    data: Seq<u8>,
    endian: Endianness,
    tiff: Option<Seq<u8>>,
    tiff_offset: nat,
) -> Result<Map<u16, TagView>, ()> {
    if data.len() < 10 {
        Ok(Map::empty())
    } else {
        match pentax_layout(data, endian) {
            None => Ok(Map::empty()),
            Some((base, e, ifd_off)) => if base + ifd_off >= data.len() {
                Ok(Map::empty())
            } else {
                let ifd = data.subrange((base + ifd_off) as int, data.len() as int);
                if ifd.len() < 2 {
                    Err(())
                } else {
                    let d = PentaxDir { data, base, endian: e, ifd, tiff, tiff_offset };
                    Ok(pentax_finish(pentax_scan(d, entries_read(ifd, u16_of(ifd, e)))))
                }
            },
        }
    }
}





fn first_bytes_exec(b: &Vec<u8>, count: u32) -> (r: Vec<u8>)
    ensures
        r@ == first_bytes(b@, count),
{
    let n: usize = if (count as u64) < b.len() as u64 {
        count as usize
    } else {
        b.len()
    };
    let r = vstd::slice::slice_to_vec(&b.as_slice()[0..n]);
    assert(r@ =~= first_bytes(b@, count));
    r
}

fn effective_lv(x: u16) -> (r: String)
    ensures
        r@ == effective_lv_text(x),
{
    let s = x as i16;
    let mut out = String::new();
    if s < 0 {
        push_char(&mut out, '-');
        let m: u64 = (-(s as i64)) as u64;
        push_tenths(&mut out, round_half_even_exec(10 * m, 1024));
    } else {
        push_tenths(&mut out, round_half_even_exec(10 * (s as u64), 1024));
    }
    proof {
        assert(out@ =~= effective_lv_text(x));
    }
    out
}

fn short_multi(tag: u16, v: &Vec<u16>) -> (r: Option<String>)
    ensures
        r matches Some(s) ==> short_multi_text(tag, v@) == Some(s@),
        r is None ==> short_multi_text(tag, v@) is None,
{
    if tag == PENTAX_DRIVE_MODE {
        if v.len() > 1 {
            Some(decode_drive_mode_multi(v.as_slice()))
        } else {
            None
        }
    } else if tag == PENTAX_AF_POINT_SELECTED {
        Some(decode_af_point_selected_multi(v.as_slice()))
    } else if tag == PENTAX_AUTO_BRACKETING {
        if v.len() > 0 {
            Some(decode_auto_bracketing(v.as_slice()))
        } else {
            None
        }
    } else if tag == PENTAX_RAW_IMAGE_SIZE {
        if v.len() == 2 {
            let mut s = fmt_dec(v[0] as u64);
            push_char(&mut s, 'x');
            push_dec(&mut s, v[1] as u64);
            proof {
                assert(s@ =~= short_multi_text(tag, v@).unwrap());
            }
            Some(s)
        } else {
            None
        }
    } else if tag == PENTAX_SENSOR_SIZE {
        if v.len() == 2 {
            let mut s = String::new();
            push_thousandths(&mut s, 2 * v[0] as u64);
            push_str(&mut s, " x ");
            push_thousandths(&mut s, 2 * v[1] as u64);
            push_str(&mut s, " mm");
            proof {
                assert(s@ =~= short_multi_text(tag, v@).unwrap());
            }
            Some(s)
        } else {
            None
        }
    } else if tag == PENTAX_IMAGE_SIZE {
        decode_image_size(v.as_slice())
    } else {
        None
    }
}

fn some_owned(o: Option<&'static str>) -> (r: Option<String>)
    ensures
        r matches Some(s) ==> o matches Some(t) && s@ == t@,
        r is None ==> o is None,
{
    match o {
        Some(t) => Some(owned(t)),
        None => None,
    }
}

fn short_single(tag: u16, x: u16) -> (r: Option<String>)
    ensures
        r matches Some(s) ==> short_single_text(tag, x) == Some(s@),
        r is None ==> short_single_text(tag, x) is None,
{
    if tag == PENTAX_QUALITY {
        Some(owned(decode_pentax_quality_exiftool(x)))
    } else if tag == PENTAX_FOCUS_MODE {
        Some(owned(decode_pentax_focus_mode_exiftool(x)))
    } else if tag == PENTAX_METERING_MODE {
        Some(owned(decode_pentax_metering_mode_exiftool(x)))
    } else if tag == PENTAX_WHITE_BALANCE {
        Some(owned(decode_pentax_white_balance_exiftool(x)))
    } else if tag == PENTAX_FLASH_MODE {
        Some(owned(decode_pentax_flash_mode_exiftool(x)))
    } else if tag == PENTAX_SATURATION {
        Some(owned(decode_pentax_saturation_exiftool(x)))
    } else if tag == PENTAX_CONTRAST {
        Some(owned(decode_pentax_contrast_exiftool(x)))
    } else if tag == PENTAX_SHARPNESS {
        Some(owned(decode_pentax_sharpness_exiftool(x)))
    } else if tag == PENTAX_DRIVE_MODE {
        Some(owned(decode_pentax_drive_mode_exiftool(x)))
    } else if tag == PENTAX_COLOR_SPACE {
        Some(owned(decode_pentax_color_space_exiftool(x)))
    } else if tag == PENTAX_WORLD_TIME_LOCATION {
        Some(owned(decode_world_time_location(x)))
    } else if tag == PENTAX_HOMETOWN_DST || tag == PENTAX_DESTINATION_DST {
        Some(owned(decode_dst(x)))
    } else if tag == PENTAX_HOMETOWN_CITY || tag == PENTAX_DESTINATION_CITY {
        some_owned(decode_city(x as u32))
    } else if tag == PENTAX_WHITE_BALANCE_MODE {
        some_owned(decode_white_balance_mode(x))
    } else if tag == PENTAX_EFFECTIVE_LV {
        Some(effective_lv(x))
    } else {
        None
    }
}

fn short_value_exec(tag: u16, v: Vec<u16>) -> (r: ExifValue)
    ensures
        r@ == short_value(tag, v@),
{
    match short_multi(tag, &v) {
        Some(s) => ExifValue::Ascii(s),
        None => {
            if v.len() == 1 {
                match short_single(tag, v[0]) {
                    Some(s) => ExifValue::Ascii(s),
                    None => ExifValue::Short(v),
                }
            } else {
                ExifValue::Short(v)
            }
        },
    }
}

fn long_value_exec(tag: u16, v: Vec<u32>) -> (r: ExifValue)
    ensures
        r@ == long_value(tag, v@),
{
    if tag == PENTAX_MODEL_ID && v.len() == 1 {
        match get_pentax_model_name(v[0]) {
            Some(n) => ExifValue::Ascii(owned(n)),
            None => ExifValue::Long(v),
        }
    } else if (tag == PENTAX_HOMETOWN_CITY || tag == PENTAX_DESTINATION_CITY) && v.len() == 1 {
        match decode_city(v[0]) {
            Some(n) => ExifValue::Ascii(owned(n)),
            None => ExifValue::Long(v),
        }
    } else {
        ExifValue::Long(v)
    }
}

fn byte_value_exec(tag: u16, b: Vec<u8>) -> (r: ExifValue)
    ensures
        r@ == byte_value(tag, b@),
{
    if tag == PENTAX_PICTURE_MODE && b.len() >= 2 {
        ExifValue::Ascii(decode_picture_mode_multi(b.as_slice()))
    } else if tag == PENTAX_LENS_TYPE && b.len() >= 2 {
        match get_pentax_lens_name(b[0], b[1]) {
            Some(n) => ExifValue::Ascii(owned(n)),
            None => ExifValue::Byte(b),
        }
    } else if tag == PENTAX_DRIVE_MODE && b.len() >= 2 {
        ExifValue::Ascii(decode_drive_mode_from_bytes(b.as_slice()))
    } else {
        ExifValue::Byte(b)
    }
}

fn undefined_value_exec(tag: u16, b: Vec<u8>) -> (r: ExifValue)
    ensures
        r@ == undefined_value(tag, b@),
{
    if (tag == PENTAX_DSP_FIRMWARE_VERSION || tag == PENTAX_CPU_FIRMWARE_VERSION) && b.len() >= 4 {
        ExifValue::Ascii(decode_firmware_version(b.as_slice()))
    } else if tag == PENTAX_DATE && b.len() >= 4 {
        match decode_date_from_bytes(b.as_slice()) {
            Some(s) => ExifValue::Ascii(s),
            None => ExifValue::Undefined(b),
        }
    } else if tag == PENTAX_TIME && b.len() >= 3 {
        match decode_time_from_bytes(b.as_slice()) {
            Some(s) => ExifValue::Ascii(s),
            None => ExifValue::Undefined(b),
        }
    } else {
        ExifValue::Undefined(b)
    }
}

fn pentax_value_exec(tag: u16, typ: u16, count: u32, b: Vec<u8>, e: Endianness) -> (r: Option<
    ExifValue,
>)
    ensures
        r matches Some(v) ==> pentax_value(tag, typ, count, b@, e) == Some(v@),
        r is None ==> pentax_value(tag, typ, count, b@, e) is None,
{
    if typ == 1 {
        Some(byte_value_exec(tag, first_bytes_exec(&b, count)))
    } else if typ == 2 {
        let first = first_bytes_exec(&b, count);
        let s = lossy_string(first.as_slice());
        Some(ExifValue::Ascii(trim_end_nuls(s.as_str())))
    } else if typ == 3 {
        Some(short_value_exec(tag, read_shorts_exec(b.as_slice(), count, e)))
    } else if typ == 4 {
        Some(long_value_exec(tag, read_longs_exec(b.as_slice(), count, e)))
    } else if typ == 5 {
        Some(ExifValue::Rational(read_rationals_exec(b.as_slice(), count, e)))
    } else if typ == 7 {
        Some(undefined_value_exec(tag, b))
    } else {
        None
    }
}

fn value_size_exec(typ: u16, count: u32) -> (r: u64)
    ensures
        r == value_size(typ, count),
{
    if typ == 1 || typ == 2 || typ == 7 {
        count as u64
    } else if typ == 3 {
        2 * count as u64
    } else if typ == 4 {
        4 * count as u64
    } else if typ == 5 {
        8 * count as u64
    } else {
        0
    }
}

/// Views of optional byte vectors.
pub open spec fn opt_bytes(o: Option<Vec<u8>>) -> Option<Seq<u8>> {
    match o {
        Some(v) => Some(v@),
        None => None,
    }
}

fn entry_value_bytes_exec(
    data: &[u8],
    base: usize,
    ifd: &[u8],
    tiff_data: Option<&[u8]>,
    tiff_offset: usize,
    p: usize,
    typ: u16,
    count: u32,
    off: u32,
    Ghost(d): Ghost<PentaxDir>,
    Ghost(k): Ghost<nat>,
) -> (r: Option<Vec<u8>>)
    requires
        p + 12 <= ifd.len(),
        base <= 8,
        p == entry_pos(k),
        d.ifd == ifd@,
        d.data == data@,
        d.base == base,
        d.tiff == (match tiff_data {
            Some(t) => Some(t@),
            None => None,
        }),
        d.tiff_offset == tiff_offset,
        typ == dir_u16(d, p + 2),
        count == dir_u32(d, p + 4),
        off == dir_u32(d, p + 8),
    ensures
        opt_bytes(r) == entry_value_bytes(d, k),
{
    let size = value_size_exec(typ, count);
    if size <= 4 {
        return Some(vstd::slice::slice_to_vec(&ifd[p + 8..p + 12]));
    }
    if let Some(tiff) = tiff_data {
        let start: u128 = tiff_offset as u128 + off as u128;
        if start + size as u128 <= tiff.len() as u128 {
            let s = start as usize;
            let t = (start + size as u128) as usize;
            return Some(vstd::slice::slice_to_vec(&tiff[s..t]));
        }
    }
    let start: u64 = base as u64 + off as u64;
    if start + size <= data.len() as u64 {
        let s = start as usize;
        let t = (start + size) as usize;
        return Some(vstd::slice::slice_to_vec(&data[s..t]));
    }
    None
}

/// Whether the tags and raw bytes held match a scan state.
pub open spec fn scan_holds(
    tags: Map<u16, MakerNoteTag>,
    date: Option<Vec<u8>>,
    time: Option<Vec<u8>>,
    shutter: Option<Vec<u8>>,
    st: PentaxScan,
) -> bool {
    &&& tag_views(tags) == st.tags
    &&& opt_bytes(date) == st.date
    &&& opt_bytes(time) == st.time
    &&& opt_bytes(shutter) == st.shutter
}

fn apply_entry(
    tags: &mut HashMap<u16, MakerNoteTag>,
    raw_date: &mut Option<Vec<u8>>,
    raw_time: &mut Option<Vec<u8>>,
    raw_shutter: &mut Option<Vec<u8>>,
    data: &[u8],
    base: usize,
    ifd: &[u8],
    tiff_data: Option<&[u8]>,
    tiff_offset: usize,
    e: Endianness,
    p: usize,
    Ghost(d): Ghost<PentaxDir>,
    Ghost(k): Ghost<nat>,
)
    requires
        p + 12 <= ifd.len(),
        base <= 8,
        p == entry_pos(k),
        d.ifd == ifd@,
        d.data == data@,
        d.base == base,
        d.endian == e,
        d.tiff == (match tiff_data {
            Some(t) => Some(t@),
            None => None,
        }),
        d.tiff_offset == tiff_offset,
    ensures
        forall|st: PentaxScan|
            scan_holds(old(tags)@, *old(raw_date), *old(raw_time), *old(raw_shutter), st)
                ==> scan_holds(
                final(tags)@,
                *final(raw_date),
                *final(raw_time),
                *final(raw_shutter),
                pentax_step(d, st, k),
            ),
{
    broadcast use vstd::std_specs::hash::group_hash_axioms;

    let tag_id = read_u16_at(ifd, p, e);
    let tag_type = read_u16_at(ifd, p + 2, e);
    let count = read_u32_at(ifd, p + 4, e);
    let value_offset = read_u32_at(ifd, p + 8, e);
    let vb_opt = entry_value_bytes_exec(
        data,
        base,
        ifd,
        tiff_data,
        tiff_offset,
        p,
        tag_type,
        count,
        value_offset,
        Ghost(d),
        Ghost(k),
    );
    if let Some(value_bytes) = vb_opt {
        let is_undefined = tag_type == 7;
        let record_date = is_undefined && tag_id == PENTAX_DATE && value_bytes.len() >= 4;
        let record_time = is_undefined && tag_id == PENTAX_TIME && value_bytes.len() >= 3;
        let record_shutter = is_undefined && tag_id == PENTAX_SHUTTER_COUNT && value_bytes.len()
            == 4;
        if record_date {
            *raw_date = Some(value_bytes.clone());
        }
        if record_time {
            *raw_time = Some(value_bytes.clone());
        }
        if record_shutter {
            *raw_shutter = Some(value_bytes.clone());
        }
        match pentax_value_exec(tag_id, tag_type, count, value_bytes, e) {
            Some(value) => {
                let ghost before = tags@;
                let tag = MakerNoteTag::new(tag_id, get_pentax_tag_name(tag_id), value);
                tags.insert(tag_id, tag);
                proof {
                    assert(tag_views(tags@) =~= tag_views(before).insert(tag_id, tag@));
                }
            },
            None => {
                assert(!is_undefined);
            },
        }
    }
}

/// Parses a Pentax maker note into its tags, keyed by tag ID.
///
/// `data` is the maker note, `endian` the byte order to assume when the note
/// does not name one, `tiff_data` the enclosing TIFF data (for values whose
/// offsets count from the TIFF header) and `tiff_offset` the header's offset in it.
pub fn parse_pentax_maker_notes(
    data: &[u8],
    endian: Endianness,
    tiff_data: Option<&[u8]>,
    tiff_offset: usize,
) -> (r: Result<HashMap<u16, MakerNoteTag>, ExifError>)
    ensures
        ({
            let tiff = match tiff_data {
                Some(t) => Some(t@),
                None => None,
            };
            match r {
                Ok(m) => pentax_maker_notes(data@, endian, tiff, tiff_offset as nat) == Ok::<
                    Map<u16, TagView>,
                    (),
                >(tag_views(m@)),
                Err(ExifError::Format(msg)) => pentax_maker_notes(data@, endian, tiff, tiff_offset as nat) is Err
                    && msg@ == "Failed to read Pentax maker note count"@,
            }
        }),
{
    broadcast use vstd::std_specs::hash::group_hash_axioms;

    let mut tags: HashMap<u16, MakerNoteTag> = HashMap::new();
    let ghost tiff = match tiff_data {
        Some(t) => Some(t@),
        None => None,
    };
    proof {
        assert(tag_views(tags@) =~= Map::<u16, TagView>::empty());
    }
    if data.len() < 10 {
        return Ok(tags);
    }
    let is_aoc = data[0] == 0x41 && data[1] == 0x4f && data[2] == 0x43 && data[3] == 0;
    let is_pentax = data.len() > 8 && data[0] == 0x50 && data[1] == 0x45 && data[2] == 0x4e
        && data[3] == 0x54 && data[4] == 0x41 && data[5] == 0x58 && data[6] == 0x20 && data[7]
        == 0;
    let base: usize;
    let e: Endianness;
    let ifd_off: u64;
    if is_aoc {
        base = 0;
        e = order_mark_exec(data[4], data[5], endian);
        ifd_off = 6;
    } else if is_pentax {
        let e2 = if data.len() > 10 {
            order_mark_exec(data[8], data[9], endian)
        } else {
            endian
        };
        if data.len() > 16 {
            base = 8;
            e = e2;
            ifd_off = read_u32_at(data, 12, e2) as u64;
        } else {
            return Ok(tags);
        }
    } else {
        base = 0;
        e = endian;
        ifd_off = 0;
    }
    assert(pentax_layout(data@, endian) == Some((base as nat, e, ifd_off as nat)));
    if base as u64 + ifd_off >= data.len() as u64 {
        return Ok(tags);
    }
    let start = base + ifd_off as usize;
    let ifd = &data[start..data.len()];
    if ifd.len() < 2 {
        return Err(ExifError::Format(owned("Failed to read Pentax maker note count")));
    }
    let num_entries = read_u16(ifd, e);
    let ghost d = PentaxDir {
        data: data@,
        base: base as nat,
        endian: e,
        ifd: ifd@,
        tiff,
        tiff_offset: tiff_offset as nat,
    };
    let ghost total = entries_read(ifd@, num_entries);
    let mut raw_date: Option<Vec<u8>> = None;
    let mut raw_time: Option<Vec<u8>> = None;
    let mut raw_shutter: Option<Vec<u8>> = None;
    let mut k: u16 = 0;
    while k < num_entries
        invariant_except_break
            d.ifd == ifd@,
            d.data == data@,
            d.base == base,
            d.endian == e,
            d.tiff == tiff,
            tiff == (match tiff_data {
                Some(t) => Some(t@),
                None => None,
            }),
            d.tiff_offset == tiff_offset,
            base <= 8,
            ifd@.len() >= 2,
            k <= num_entries,
            (k as int) <= total,
            total == entries_read(ifd@, num_entries),
            scan_holds(tags@, raw_date, raw_time, raw_shutter, pentax_scan(d, k as nat)),
        ensures
            scan_holds(tags@, raw_date, raw_time, raw_shutter, pentax_scan(d, total)),
        decreases num_entries - k,
    {
        let p: usize = 2 + 12 * (k as usize);
        if p + 12 > ifd.len() {
            break;
        }
        apply_entry(
            &mut tags,
            &mut raw_date,
            &mut raw_time,
            &mut raw_shutter,
            data,
            base,
            ifd,
            tiff_data,
            tiff_offset,
            e,
            p,
            Ghost(d),
            Ghost(k as nat),
        );
        k = k + 1;
    }
    let ghost st = pentax_scan(d, total);
    if let (Some(shutter_bytes), Some(date_bytes), Some(time_bytes)) = (&raw_shutter, &raw_date, &raw_time) {
        if let Some(decrypted) = decrypt_shutter_count(
            shutter_bytes.as_slice(),
            date_bytes.as_slice(),
            time_bytes.as_slice(),
        ) {
            let ghost before = tags@;
            let tag = MakerNoteTag::new(
                PENTAX_SHUTTER_COUNT,
                Some("ShutterCount"),
                ExifValue::Ascii(fmt_dec(decrypted as u64)),
            );
            tags.insert(PENTAX_SHUTTER_COUNT, tag);
            proof {
                assert(tag_views(tags@) =~= tag_views(before).insert(PENTAX_SHUTTER_COUNT, tag@));
            }
        }
    }
    Ok(tags)
}

fn order_mark_exec(a: u8, b: u8, default: Endianness) -> (r: Endianness)
    ensures
        r == order_mark(a, b, default),
{
    if a == 0x49 && b == 0x49 {
        Endianness::Little
    } else if a == 0x4d && b == 0x4d {
        Endianness::Big
    } else {
        default
    }
}


/// Distinct models of series 3 name distinct lenses.
proof fn lemma_series3_distinct(m1: u8, m2: u8)
    requires
        m1 != m2,
        pentax_lens_name(3, m1) is Some,
        pentax_lens_name(3, m2) is Some,
    ensures
        pentax_lens_name(3, m1) != pentax_lens_name(3, m2),
{
    reveal_strlit("PENTAX-F 28-80mm F3.5-4.5 or Sigma or Tokina Lens");
    reveal_strlit("PENTAX-F 70-200mm F4-5.6");
    reveal_strlit("Sigma");
    reveal_strlit("Sigma 20mm F1.8 EX DG Aspherical RF");
    reveal_strlit("Sigma 28mm F1.8 EX DG Aspherical Macro");
    reveal_strlit("Sigma Lens (3 255)");
    reveal_strlit("smc PENTAX-DA 12-24mm F4 ED AL[IF]");
    reveal_strlit("smc PENTAX-DA 14mm F2.8 ED[IF]");
    reveal_strlit("smc PENTAX-DA 16-45mm F4 ED AL");
    reveal_strlit("smc PENTAX-DA 18-55mm F3.5-5.6 AL");
    reveal_strlit("smc PENTAX-DA 40mm F2.8 Limited");
    reveal_strlit("smc PENTAX-DA 50-200mm F4-5.6 ED");
    reveal_strlit("smc PENTAX-DA FISH-EYE 10-17mm F3.5-4.5 ED[IF]");
    reveal_strlit("smc PENTAX-F 1.7X AF ADAPTER");
    reveal_strlit("smc PENTAX-F 100-300mm F4.5-5.6 or Sigma Lens");
    reveal_strlit("smc PENTAX-F 135mm F2.8 [IF]");
    reveal_strlit("smc PENTAX-F 24-50mm F4");
    reveal_strlit("smc PENTAX-F 28-80mm F3.5-4.5 or Tokina Lens");
    reveal_strlit("smc PENTAX-F 28mm F2.8");
    reveal_strlit("smc PENTAX-F 35-105mm F4-5.6 or Sigma or Tokina Lens");
    reveal_strlit("smc PENTAX-F 35-135mm F3.5-4.5");
    reveal_strlit("smc PENTAX-F 35-70mm F3.5-4.5 or Tokina Lens");
    reveal_strlit("smc PENTAX-F 35-80mm F4-5.6");
    reveal_strlit("smc PENTAX-F 50mm F1.4");
    reveal_strlit("smc PENTAX-F 50mm F1.7");
    reveal_strlit("smc PENTAX-F 70-210mm F4-5.6 or Tokina or Takumar Lens");
    reveal_strlit("smc PENTAX-F 80-200mm F4.7-5.6");
    reveal_strlit("smc PENTAX-F FISH-EYE 17-28mm F3.5-4.5");
    reveal_strlit("smc PENTAX-F Macro 100mm F2.8");
    reveal_strlit("smc PENTAX-F Macro 50mm F2.8 or Sigma Lens");
    reveal_strlit("smc PENTAX-F* 250-600mm F5.6 ED[IF]");
    reveal_strlit("smc PENTAX-F* 300mm F4.5 ED[IF]");
    reveal_strlit("smc PENTAX-F* 600mm F4 ED[IF]");
    reveal_strlit("smc PENTAX-FA 28-200mm F3.8-5.6 AL[IF] or Tamron Lens");
    reveal_strlit("smc PENTAX-FA 28-70mm F4 AL");
    reveal_strlit("smc PENTAX-FA 28-80mm F3.5-5.6 AL");
    reveal_strlit("smc PENTAX-FA SOFT 85mm F2.8");
}

/// Distinct models of series 4 name distinct lenses.
proof fn lemma_series4_distinct(m1: u8, m2: u8)
    requires
        m1 != m2,
        pentax_lens_name(4, m1) is Some,
        pentax_lens_name(4, m2) is Some,
    ensures
        pentax_lens_name(4, m1) != pentax_lens_name(4, m2),
{
    reveal_strlit("Tamron SP AF 17-50mm F2.8 XR Di II");
    reveal_strlit("smc PENTAX-D FA 100mm F2.8 Macro");
    reveal_strlit("smc PENTAX-D FA 50mm F2.8 Macro");
    reveal_strlit("smc PENTAX-DA 12-24mm F4 ED AL [IF]");
    reveal_strlit("smc PENTAX-DA 14mm F2.8 ED[IF]");
    reveal_strlit("smc PENTAX-DA 16-45mm F4 ED AL");
    reveal_strlit("smc PENTAX-DA 18-250mm F3.5-6.3 ED AL [IF]");
    reveal_strlit("smc PENTAX-DA 18-55mm F3.5-5.6 AL");
    reveal_strlit("smc PENTAX-DA 18-55mm F3.5-5.6 AL II");
    reveal_strlit("smc PENTAX-DA 21mm F3.2 AL Limited");
    reveal_strlit("smc PENTAX-DA 35mm F2.4 AL");
    reveal_strlit("smc PENTAX-DA 40mm F2.8 Limited");
    reveal_strlit("smc PENTAX-DA 50-200mm F4-5.6 ED");
    reveal_strlit("smc PENTAX-DA 70mm F2.4 Limited");
    reveal_strlit("smc PENTAX-DA FISH-EYE 10-17mm F3.5-4.5 ED[IF]");
    reveal_strlit("smc PENTAX-FA 100-300mm F4.7-5.8");
    reveal_strlit("smc PENTAX-FA 20-35mm F4 AL");
    reveal_strlit("smc PENTAX-FA 24-90mm F3.5-4.5 AL[IF]");
    reveal_strlit("smc PENTAX-FA 28-105mm F3.2-4.5 AL[IF]");
    reveal_strlit("smc PENTAX-FA 28-105mm F4-5.6 [IF]");
    reveal_strlit("smc PENTAX-FA 28-90mm F3.5-5.6");
    reveal_strlit("smc PENTAX-FA 31mm F1.8 AL Limited");
    reveal_strlit("smc PENTAX-FA 35-80mm F4-5.6");
    reveal_strlit("smc PENTAX-FA 35mm F2 AL");
    reveal_strlit("smc PENTAX-FA 43mm F1.9 Limited");
    reveal_strlit("smc PENTAX-FA 50mm F1.4");
    reveal_strlit("smc PENTAX-FA 77mm F1.8 Limited");
    reveal_strlit("smc PENTAX-FA 80-320mm F4.5-5.6");
    reveal_strlit("smc PENTAX-FA J 18-35mm F4-5.6 AL");
    reveal_strlit("smc PENTAX-FA J 28-80mm F3.5-5.6 AL");
    reveal_strlit("smc PENTAX-FA J 75-300mm F4.5-5.8 AL");
    reveal_strlit("smc PENTAX-FA SOFT 28mm F2.8");
}

/// Distinct models of series 5 name distinct lenses.
proof fn lemma_series5_distinct(m1: u8, m2: u8)
    requires
        m1 != m2,
        pentax_lens_name(5, m1) is Some,
        pentax_lens_name(5, m2) is Some,
    ensures
        pentax_lens_name(5, m1) != pentax_lens_name(5, m2),
{
    reveal_strlit("smc PENTAX-FA 100-300mm F4.5-5.6");
    reveal_strlit("smc PENTAX-FA 135mm F2.8 [IF]");
    reveal_strlit("smc PENTAX-FA 28-105mm F4-5.6");
    reveal_strlit("smc PENTAX-FA 28-80mm F3.5-4.7");
    reveal_strlit("smc PENTAX-FA 28mm F2.8 AL");
    reveal_strlit("smc PENTAX-FA 50mm F1.4");
    reveal_strlit("smc PENTAX-FA 50mm F1.7");
    reveal_strlit("smc PENTAX-FA 70-200mm F4-5.6");
    reveal_strlit("smc PENTAX-FA Macro 100mm F2.8");
    reveal_strlit("smc PENTAX-FA Macro 50mm F2.8");
    reveal_strlit("smc PENTAX-FA* 200mm F2.8 ED[IF]");
    reveal_strlit("smc PENTAX-FA* 24mm F2 AL[IF]");
    reveal_strlit("smc PENTAX-FA* 250-600mm F5.6 ED[IF]");
    reveal_strlit("smc PENTAX-FA* 300mm F4.5 ED[IF]");
    reveal_strlit("smc PENTAX-FA* 600mm F4 ED[IF]");
    reveal_strlit("smc PENTAX-FA* 85mm F1.4 [IF]");
}

/// Distinct models of series 6 name distinct lenses.
proof fn lemma_series6_distinct(m1: u8, m2: u8)
    requires
        m1 != m2,
        pentax_lens_name(6, m1) is Some,
        pentax_lens_name(6, m2) is Some,
    ensures
        pentax_lens_name(6, m1) != pentax_lens_name(6, m2),
{
    reveal_strlit("smc PENTAX-FA 20mm F2.8");
    reveal_strlit("smc PENTAX-FA* 200mm F2.8 ED[IF]");
    reveal_strlit("smc PENTAX-FA* 28-70mm F2.8 AL");
    reveal_strlit("smc PENTAX-FA* 300mm F2.8 ED[IF]");
    reveal_strlit("smc PENTAX-FA* 400mm F5.6 ED[IF]");
    reveal_strlit("smc PENTAX-FA* 80-200mm F2.8 ED[IF]");
    reveal_strlit("smc PENTAX-FA* 85mm F1.4 [IF]");
    reveal_strlit("smc PENTAX-FA* Macro 200mm F4 ED[IF]");
}

/// Distinct models of series 7 name distinct lenses.
proof fn lemma_series7_distinct(m1: u8, m2: u8)
    requires
        m1 != m2,
        pentax_lens_name(7, m1) is Some,
        pentax_lens_name(7, m2) is Some,
    ensures
        pentax_lens_name(7, m1) != pentax_lens_name(7, m2) || (m1 == 0 && m2 == 244) || (m1 == 244 && m2 == 0),
{
    reveal_strlit("HD PENTAX-DA 15mm F4 ED AL Limited");
    reveal_strlit("HD PENTAX-DA 21mm F3.2 ED AL Limited");
    reveal_strlit("HD PENTAX-DA 35mm F2.8 Macro Limited");
    reveal_strlit("HD PENTAX-DA 40mm F2.8 Limited");
    reveal_strlit("HD PENTAX-DA 55-300mm F4-5.8 ED WR");
    reveal_strlit("HD PENTAX-DA 70mm F2.4 Limited");
    reveal_strlit("Samsung/Schneider D-XENON 18-55mm F3.5-5.6 II");
    reveal_strlit("Tamron AF 17-50mm F2.8 XR Di-II LD (Model A16)");
    reveal_strlit("Tamron AF 18-250mm F3.5-6.3 Di II LD Aspherical [IF] Macro");
    reveal_strlit("smc PENTAX-D FA Macro 100mm F2.8 WR");
    reveal_strlit("smc PENTAX-DA 15mm F4 ED AL Limited");
    reveal_strlit("smc PENTAX-DA 18-250mm F3.5-6.3 ED AL [IF]");
    reveal_strlit("smc PENTAX-DA 18-55mm F3.5-5.6 AL II");
    reveal_strlit("smc PENTAX-DA 18-55mm F3.5-5.6 AL WR");
    reveal_strlit("smc PENTAX-DA 21mm F3.2 AL Limited");
    reveal_strlit("smc PENTAX-DA 35mm F2.4 AL");
    reveal_strlit("smc PENTAX-DA 35mm F2.8 Macro Limited");
    reveal_strlit("smc PENTAX-DA 40mm F2.8 XS");
    reveal_strlit("smc PENTAX-DA 50-200mm F4-5.6 ED WR");
    reveal_strlit("smc PENTAX-DA 50mm F1.8");
    reveal_strlit("smc PENTAX-DA 55-300mm F4-5.8 ED");
    reveal_strlit("smc PENTAX-DA 70mm F2.4 Limited");
    reveal_strlit("smc PENTAX-DA L 18-55mm F3.5-5.6");
    reveal_strlit("smc PENTAX-DA L 18-55mm F3.5-5.6 AL WR");
    reveal_strlit("smc PENTAX-DA L 50-200mm F4-5.6 ED");
    reveal_strlit("smc PENTAX-DA L 55-300mm F4-5.8 ED");
    reveal_strlit("smc PENTAX-DA* 16-50mm F2.8 ED AL [IF] SDM (SDM unused)");
    reveal_strlit("smc PENTAX-DA* 200mm F2.8 ED [IF] SDM (SDM unused)");
    reveal_strlit("smc PENTAX-DA* 300mm F4 ED [IF] SDM (SDM unused)");
    reveal_strlit("smc PENTAX-DA* 50-135mm F2.8 ED [IF] SDM (SDM unused)");
    reveal_strlit("smc Pentax-DA L 50-200mm F4-5.6 ED WR");
}

/// Distinct models of series 8 name distinct lenses.
proof fn lemma_series8_distinct(m1: u8, m2: u8)
    requires
        m1 != m2,
        pentax_lens_name(8, m1) is Some,
        pentax_lens_name(8, m2) is Some,
    ensures
        pentax_lens_name(8, m1) != pentax_lens_name(8, m2),
{
    reveal_strlit("HD PENTAX DA* 16-50mm F2.8 ED PLM AW");
    reveal_strlit("HD PENTAX-D FA 15-30mm F2.8 ED SDM WR");
    reveal_strlit("HD PENTAX-D FA 150-450mm F4.5-5.6 ED DC AW");
    reveal_strlit("HD PENTAX-D FA 24-70mm F2.8 ED SDM WR");
    reveal_strlit("HD PENTAX-D FA 28-105mm F3.5-5.6 ED DC WR");
    reveal_strlit("HD PENTAX-D FA 70-210mm F4 ED SDM WR");
    reveal_strlit("HD PENTAX-D FA* 50mm F1.4 SDM AW");
    reveal_strlit("HD PENTAX-D FA* 70-200mm F2.8 ED DC AW");
    reveal_strlit("HD PENTAX-DA 16-85mm F3.5-5.6 ED DC WR");
    reveal_strlit("HD PENTAX-DA 18-50mm F4-5.6 DC WR RE");
    reveal_strlit("HD PENTAX-DA 20-40mm F2.8-4 ED Limited DC WR");
    reveal_strlit("HD PENTAX-DA 55-300mm F4.5-6.3 ED PLM WR RE");
    reveal_strlit("HD PENTAX-DA 560mm F5.6 ED AW");
    reveal_strlit("HD PENTAX-DA* 11-18mm F2.8 ED DC AW");
    reveal_strlit("Sigma 18-125mm F3.8-5.6 DC HSM");
    reveal_strlit("Sigma 50-150mm F2.8 II APO EX DC HSM");
    reveal_strlit("Sigma 50mm F1.4 EX DG HSM");
    reveal_strlit("Sigma Lens (8 255)");
    reveal_strlit("smc PENTAX-DA 17-70mm F4 AL [IF] SDM");
    reveal_strlit("smc PENTAX-DA 18-135mm F3.5-5.6 ED AL [IF] DC WR");
    reveal_strlit("smc PENTAX-DA 18-270mm F3.5-6.3 ED SDM");
    reveal_strlit("smc PENTAX-DA L 18-50mm F4-5.6 DC WR RE");
    reveal_strlit("smc PENTAX-DA* 16-50mm F2.8 ED AL [IF] SDM");
    reveal_strlit("smc PENTAX-DA* 200mm F2.8 ED [IF] SDM");
    reveal_strlit("smc PENTAX-DA* 300mm F4 ED [IF] SDM");
    reveal_strlit("smc PENTAX-DA* 50-135mm F2.8 ED [IF] SDM");
    reveal_strlit("smc PENTAX-DA* 55mm F1.4 SDM");
    reveal_strlit("smc PENTAX-DA* 60-250mm F4 [IF] SDM");
}

/// Distinct models of series 9 name distinct lenses.
proof fn lemma_series9_distinct(m1: u8, m2: u8)
    requires
        m1 != m2,
        pentax_lens_name(9, m1) is Some,
        pentax_lens_name(9, m2) is Some,
    ensures
        pentax_lens_name(9, m1) != pentax_lens_name(9, m2),
{
    reveal_strlit("HD PENTAX-DA FISH-EYE 10-17mm F3.5-4.5 ED [IF]");
    reveal_strlit("HD PENTAX-FA 31mm F1.8 AL Limited");
    reveal_strlit("HD PENTAX-FA 43mm F1.9 Limited");
    reveal_strlit("HD PENTAX-FA 77mm F1.8 Limited");
}

/// Distinct models of series 21 name distinct lenses.
proof fn lemma_series21_distinct(m1: u8, m2: u8)
    requires
        m1 != m2,
        pentax_lens_name(21, m1) is Some,
        pentax_lens_name(21, m2) is Some,
    ensures
        pentax_lens_name(21, m1) != pentax_lens_name(21, m2),
{
    reveal_strlit("01 Standard Prime 8.5mm F1.9");
    reveal_strlit("02 Standard Zoom 5-15mm F2.8-4.5");
    reveal_strlit("06 Telephoto Zoom 15-45mm F2.8");
}

/// Distinct models of series 22 name distinct lenses.
proof fn lemma_series22_distinct(m1: u8, m2: u8)
    requires
        m1 != m2,
        pentax_lens_name(22, m1) is Some,
        pentax_lens_name(22, m2) is Some,
    ensures
        pentax_lens_name(22, m1) != pentax_lens_name(22, m2),
{
    reveal_strlit("03 Fish-eye 3.2mm F5.6");
    reveal_strlit("04 Toy Lens Wide 6.3mm F7.1");
    reveal_strlit("05 Toy Lens Telephoto 18mm F8");
}

/// Distinct models of series 31 name distinct lenses.
proof fn lemma_series31_distinct(m1: u8, m2: u8)
    requires
        m1 != m2,
        pentax_lens_name(31, m1) is Some,
        pentax_lens_name(31, m2) is Some,
    ensures
        pentax_lens_name(31, m1) != pentax_lens_name(31, m2) || (m1 == 1 && m2 == 8) || (m1 == 8 && m2 == 1),
{
    reveal_strlit("18.3mm F2.8");
    reveal_strlit("26.1mm F2.8");
    reveal_strlit("26.1mm F2.8 GT-2 TC");
}

/// Within a series, two model numbers name two different lenses: the lens
/// table gives each lens one model number per series, but for two lenses
/// listed twice (series 7, models 0 and 244; series 31, models 1 and 8).
/// The DA lenses of series 3 keep their model numbers in series 4.
pub proof fn law_pentax_lens_ids_distinct(series: u8, m1: u8, m2: u8)
    requires
        m1 != m2,
        pentax_lens_name(series, m1) is Some,
        pentax_lens_name(series, m2) is Some,
    ensures
        pentax_lens_name(series, m1) != pentax_lens_name(series, m2) || (series == 7 && (m1 == 0 || m1
            == 244) && (m2 == 0 || m2 == 244)) || (series == 31 && (m1 == 1 || m1 == 8) && (m2 == 1 || m2
            == 8)),
        series == 3 && (m1 == 247 || 250 <= m1 <= 254) ==> pentax_lens_name(3, m1) == pentax_lens_name(4, m1),
{
    if series == 3 {
        lemma_series3_distinct(m1, m2);
    }
    if series == 4 {
        lemma_series4_distinct(m1, m2);
    }
    if series == 5 {
        lemma_series5_distinct(m1, m2);
    }
    if series == 6 {
        lemma_series6_distinct(m1, m2);
    }
    if series == 7 {
        lemma_series7_distinct(m1, m2);
    }
    if series == 8 {
        lemma_series8_distinct(m1, m2);
    }
    if series == 9 {
        lemma_series9_distinct(m1, m2);
    }
    if series == 21 {
        lemma_series21_distinct(m1, m2);
    }
    if series == 22 {
        lemma_series22_distinct(m1, m2);
    }
    if series == 31 {
        lemma_series31_distinct(m1, m2);
    }
}

} // verus!
