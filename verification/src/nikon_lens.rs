//! Nikon LensData: lens identification bytes and the lens's optical
//! characteristics, decrypted where the version calls for it.
use vstd::prelude::*;
use crate::text::{dec, hex2, owned, push_str, fmt_dec, push_hex2, utf8_decode, utf8_str, starts_with, str_eq, lex_ge, str_ge};
use crate::nikon::{pairs_view, push_pair, nikon_crypt, nikon_decrypt};
use crate::nikon_af::prefixed;
use crate::nikon_flash::opt;

verus! {

// ---------------------------------------------------------------------------
// Optical values
// ---------------------------------------------------------------------------
//
// Each byte encodes a logarithmic value; the tables hold, for every byte, the
// text that the floating-point formula prints at the stated precision.

/// A focal length byte `b` as "{:.1} mm" of 5 · 2^(b/24) mm.
pub open spec fn focal_length_str(b: u8) -> &'static str {
    match b {
        0 => "5.0 mm",
        1 => "5.1 mm",
        2 => "5.3 mm",
        3 => "5.5 mm",
        4 => "5.6 mm",
        5 => "5.8 mm",
        6 => "5.9 mm",
        7 => "6.1 mm",
        8 => "6.3 mm",
        9 => "6.5 mm",
        10 => "6.7 mm",
        11 => "6.9 mm",
        12 => "7.1 mm",
        13 => "7.3 mm",
        14 => "7.5 mm",
        15 => "7.7 mm",
        16 => "7.9 mm",
        17 => "8.2 mm",
        18 => "8.4 mm",
        19 => "8.7 mm",
        20 => "8.9 mm",
        21 => "9.2 mm",
        22 => "9.4 mm",
        23 => "9.7 mm",
        24 => "10.0 mm",
        25 => "10.3 mm",
        26 => "10.6 mm",
        27 => "10.9 mm",
        28 => "11.2 mm",
        29 => "11.6 mm",
        30 => "11.9 mm",
        31 => "12.2 mm",
        32 => "12.6 mm",
        33 => "13.0 mm",
        34 => "13.3 mm",
        35 => "13.7 mm",
        36 => "14.1 mm",
        37 => "14.6 mm",
        38 => "15.0 mm",
        39 => "15.4 mm",
        40 => "15.9 mm",
        41 => "16.3 mm",
        42 => "16.8 mm",
        43 => "17.3 mm",
        44 => "17.8 mm",
        45 => "18.3 mm",
        46 => "18.9 mm",
        47 => "19.4 mm",
        48 => "20.0 mm",
        49 => "20.6 mm",
        50 => "21.2 mm",
        51 => "21.8 mm",
        52 => "22.4 mm",
        53 => "23.1 mm",
        54 => "23.8 mm",
        55 => "24.5 mm",
        56 => "25.2 mm",
        57 => "25.9 mm",
        58 => "26.7 mm",
        59 => "27.5 mm",
        60 => "28.3 mm",
        61 => "29.1 mm",
        62 => "30.0 mm",
        63 => "30.8 mm",
        64 => "31.7 mm",
        65 => "32.7 mm",
        66 => "33.6 mm",
        67 => "34.6 mm",
        68 => "35.6 mm",
        69 => "36.7 mm",
        70 => "37.8 mm",
        71 => "38.9 mm",
        72 => "40.0 mm",
        73 => "41.2 mm",
        74 => "42.4 mm",
        75 => "43.6 mm",
        76 => "44.9 mm",
        77 => "46.2 mm",
        78 => "47.6 mm",
        79 => "49.0 mm",
        80 => "50.4 mm",
        81 => "51.9 mm",
        82 => "53.4 mm",
        83 => "55.0 mm",
        84 => "56.6 mm",
        85 => "58.2 mm",
        86 => "59.9 mm",
        87 => "61.7 mm",
        88 => "63.5 mm",
        89 => "65.4 mm",
        90 => "67.3 mm",
        91 => "69.2 mm",
        92 => "71.3 mm",
        93 => "73.4 mm",
        94 => "75.5 mm",
        95 => "77.7 mm",
        96 => "80.0 mm",
        97 => "82.3 mm",
        98 => "84.8 mm",
        99 => "87.2 mm",
        100 => "89.8 mm",
        101 => "92.4 mm",
        102 => "95.1 mm",
        103 => "97.9 mm",
        104 => "100.8 mm",
        105 => "103.7 mm",
        106 => "106.8 mm",
        107 => "109.9 mm",
        108 => "113.1 mm",
        109 => "116.5 mm",
        110 => "119.9 mm",
        111 => "123.4 mm",
        112 => "127.0 mm",
        113 => "130.7 mm",
        114 => "134.5 mm",
        115 => "138.5 mm",
        116 => "142.5 mm",
        117 => "146.7 mm",
        118 => "151.0 mm",
        119 => "155.4 mm",
        120 => "160.0 mm",
        121 => "164.7 mm",
        122 => "169.5 mm",
        123 => "174.5 mm",
        124 => "179.6 mm",
        125 => "184.9 mm",
        126 => "190.3 mm",
        127 => "195.8 mm",
        128 => "201.6 mm",
        129 => "207.5 mm",
        130 => "213.6 mm",
        131 => "219.8 mm",
        132 => "226.3 mm",
        133 => "232.9 mm",
        134 => "239.7 mm",
        135 => "246.8 mm",
        136 => "254.0 mm",
        137 => "261.4 mm",
        138 => "269.1 mm",
        139 => "277.0 mm",
        140 => "285.1 mm",
        141 => "293.4 mm",
        142 => "302.0 mm",
        143 => "310.9 mm",
        144 => "320.0 mm",
        145 => "329.4 mm",
        146 => "339.0 mm",
        147 => "349.0 mm",
        148 => "359.2 mm",
        149 => "369.7 mm",
        150 => "380.5 mm",
        151 => "391.7 mm",
        152 => "403.2 mm",
        153 => "415.0 mm",
        154 => "427.1 mm",
        155 => "439.7 mm",
        156 => "452.5 mm",
        157 => "465.8 mm",
        158 => "479.5 mm",
        159 => "493.5 mm",
        160 => "508.0 mm",
        161 => "522.9 mm",
        162 => "538.2 mm",
        163 => "553.9 mm",
        164 => "570.2 mm",
        165 => "586.9 mm",
        166 => "604.1 mm",
        167 => "621.8 mm",
        168 => "640.0 mm",
        169 => "658.8 mm",
        170 => "678.1 mm",
        171 => "697.9 mm",
        172 => "718.4 mm",
        173 => "739.4 mm",
        174 => "761.1 mm",
        175 => "783.4 mm",
        176 => "806.3 mm",
        177 => "830.0 mm",
        178 => "854.3 mm",
        179 => "879.3 mm",
        180 => "905.1 mm",
        181 => "931.6 mm",
        182 => "958.9 mm",
        183 => "987.0 mm",
        184 => "1015.9 mm",
        185 => "1045.7 mm",
        186 => "1076.3 mm",
        187 => "1107.9 mm",
        188 => "1140.4 mm",
        189 => "1173.8 mm",
        190 => "1208.2 mm",
        191 => "1243.6 mm",
        192 => "1280.0 mm",
        193 => "1317.5 mm",
        194 => "1356.1 mm",
        195 => "1395.8 mm",
        196 => "1436.8 mm",
        197 => "1478.9 mm",
        198 => "1522.2 mm",
        199 => "1566.8 mm",
        200 => "1612.7 mm",
        201 => "1660.0 mm",
        202 => "1708.6 mm",
        203 => "1758.7 mm",
        204 => "1810.2 mm",
        205 => "1863.2 mm",
        206 => "1917.8 mm",
        207 => "1974.0 mm",
        208 => "2031.9 mm",
        209 => "2091.4 mm",
        210 => "2152.7 mm",
        211 => "2215.8 mm",
        212 => "2280.7 mm",
        213 => "2347.5 mm",
        214 => "2416.3 mm",
        215 => "2487.1 mm",
        216 => "2560.0 mm",
        217 => "2635.0 mm",
        218 => "2712.2 mm",
        219 => "2791.7 mm",
        220 => "2873.5 mm",
        221 => "2957.7 mm",
        222 => "3044.4 mm",
        223 => "3133.6 mm",
        224 => "3225.4 mm",
        225 => "3319.9 mm",
        226 => "3417.2 mm",
        227 => "3517.3 mm",
        228 => "3620.4 mm",
        229 => "3726.5 mm",
        230 => "3835.7 mm",
        231 => "3948.1 mm",
        232 => "4063.7 mm",
        233 => "4182.8 mm",
        234 => "4305.4 mm",
        235 => "4431.5 mm",
        236 => "4561.4 mm",
        237 => "4695.1 mm",
        238 => "4832.6 mm",
        239 => "4974.2 mm",
        240 => "5120.0 mm",
        241 => "5270.0 mm",
        242 => "5424.5 mm",
        243 => "5583.4 mm",
        244 => "5747.0 mm",
        245 => "5915.4 mm",
        246 => "6088.7 mm",
        247 => "6267.2 mm",
        248 => "6450.8 mm",
        249 => "6639.8 mm",
        250 => "6834.4 mm",
        251 => "7034.6 mm",
        252 => "7240.8 mm",
        253 => "7452.9 mm",
        254 => "7671.3 mm",
        _ => "7896.1 mm",
    }
}

fn focal_length_str_exec(b: u8) -> (r: &'static str)
    ensures
        r == focal_length_str(b),
{
    match b {
        0 => "5.0 mm",
        1 => "5.1 mm",
        2 => "5.3 mm",
        3 => "5.5 mm",
        4 => "5.6 mm",
        5 => "5.8 mm",
        6 => "5.9 mm",
        7 => "6.1 mm",
        8 => "6.3 mm",
        9 => "6.5 mm",
        10 => "6.7 mm",
        11 => "6.9 mm",
        12 => "7.1 mm",
        13 => "7.3 mm",
        14 => "7.5 mm",
        15 => "7.7 mm",
        16 => "7.9 mm",
        17 => "8.2 mm",
        18 => "8.4 mm",
        19 => "8.7 mm",
        20 => "8.9 mm",
        21 => "9.2 mm",
        22 => "9.4 mm",
        23 => "9.7 mm",
        24 => "10.0 mm",
        25 => "10.3 mm",
        26 => "10.6 mm",
        27 => "10.9 mm",
        28 => "11.2 mm",
        29 => "11.6 mm",
        30 => "11.9 mm",
        31 => "12.2 mm",
        32 => "12.6 mm",
        33 => "13.0 mm",
        34 => "13.3 mm",
        35 => "13.7 mm",
        36 => "14.1 mm",
        37 => "14.6 mm",
        38 => "15.0 mm",
        39 => "15.4 mm",
        40 => "15.9 mm",
        41 => "16.3 mm",
        42 => "16.8 mm",
        43 => "17.3 mm",
        44 => "17.8 mm",
        45 => "18.3 mm",
        46 => "18.9 mm",
        47 => "19.4 mm",
        48 => "20.0 mm",
        49 => "20.6 mm",
        50 => "21.2 mm",
        51 => "21.8 mm",
        52 => "22.4 mm",
        53 => "23.1 mm",
        54 => "23.8 mm",
        55 => "24.5 mm",
        56 => "25.2 mm",
        57 => "25.9 mm",
        58 => "26.7 mm",
        59 => "27.5 mm",
        60 => "28.3 mm",
        61 => "29.1 mm",
        62 => "30.0 mm",
        63 => "30.8 mm",
        64 => "31.7 mm",
        65 => "32.7 mm",
        66 => "33.6 mm",
        67 => "34.6 mm",
        68 => "35.6 mm",
        69 => "36.7 mm",
        70 => "37.8 mm",
        71 => "38.9 mm",
        72 => "40.0 mm",
        73 => "41.2 mm",
        74 => "42.4 mm",
        75 => "43.6 mm",
        76 => "44.9 mm",
        77 => "46.2 mm",
        78 => "47.6 mm",
        79 => "49.0 mm",
        80 => "50.4 mm",
        81 => "51.9 mm",
        82 => "53.4 mm",
        83 => "55.0 mm",
        84 => "56.6 mm",
        85 => "58.2 mm",
        86 => "59.9 mm",
        87 => "61.7 mm",
        88 => "63.5 mm",
        89 => "65.4 mm",
        90 => "67.3 mm",
        91 => "69.2 mm",
        92 => "71.3 mm",
        93 => "73.4 mm",
        94 => "75.5 mm",
        95 => "77.7 mm",
        96 => "80.0 mm",
        97 => "82.3 mm",
        98 => "84.8 mm",
        99 => "87.2 mm",
        100 => "89.8 mm",
        101 => "92.4 mm",
        102 => "95.1 mm",
        103 => "97.9 mm",
        104 => "100.8 mm",
        105 => "103.7 mm",
        106 => "106.8 mm",
        107 => "109.9 mm",
        108 => "113.1 mm",
        109 => "116.5 mm",
        110 => "119.9 mm",
        111 => "123.4 mm",
        112 => "127.0 mm",
        113 => "130.7 mm",
        114 => "134.5 mm",
        115 => "138.5 mm",
        116 => "142.5 mm",
        117 => "146.7 mm",
        118 => "151.0 mm",
        119 => "155.4 mm",
        120 => "160.0 mm",
        121 => "164.7 mm",
        122 => "169.5 mm",
        123 => "174.5 mm",
        124 => "179.6 mm",
        125 => "184.9 mm",
        126 => "190.3 mm",
        127 => "195.8 mm",
        128 => "201.6 mm",
        129 => "207.5 mm",
        130 => "213.6 mm",
        131 => "219.8 mm",
        132 => "226.3 mm",
        133 => "232.9 mm",
        134 => "239.7 mm",
        135 => "246.8 mm",
        136 => "254.0 mm",
        137 => "261.4 mm",
        138 => "269.1 mm",
        139 => "277.0 mm",
        140 => "285.1 mm",
        141 => "293.4 mm",
        142 => "302.0 mm",
        143 => "310.9 mm",
        144 => "320.0 mm",
        145 => "329.4 mm",
        146 => "339.0 mm",
        147 => "349.0 mm",
        148 => "359.2 mm",
        149 => "369.7 mm",
        150 => "380.5 mm",
        151 => "391.7 mm",
        152 => "403.2 mm",
        153 => "415.0 mm",
        154 => "427.1 mm",
        155 => "439.7 mm",
        156 => "452.5 mm",
        157 => "465.8 mm",
        158 => "479.5 mm",
        159 => "493.5 mm",
        160 => "508.0 mm",
        161 => "522.9 mm",
        162 => "538.2 mm",
        163 => "553.9 mm",
        164 => "570.2 mm",
        165 => "586.9 mm",
        166 => "604.1 mm",
        167 => "621.8 mm",
        168 => "640.0 mm",
        169 => "658.8 mm",
        170 => "678.1 mm",
        171 => "697.9 mm",
        172 => "718.4 mm",
        173 => "739.4 mm",
        174 => "761.1 mm",
        175 => "783.4 mm",
        176 => "806.3 mm",
        177 => "830.0 mm",
        178 => "854.3 mm",
        179 => "879.3 mm",
        180 => "905.1 mm",
        181 => "931.6 mm",
        182 => "958.9 mm",
        183 => "987.0 mm",
        184 => "1015.9 mm",
        185 => "1045.7 mm",
        186 => "1076.3 mm",
        187 => "1107.9 mm",
        188 => "1140.4 mm",
        189 => "1173.8 mm",
        190 => "1208.2 mm",
        191 => "1243.6 mm",
        192 => "1280.0 mm",
        193 => "1317.5 mm",
        194 => "1356.1 mm",
        195 => "1395.8 mm",
        196 => "1436.8 mm",
        197 => "1478.9 mm",
        198 => "1522.2 mm",
        199 => "1566.8 mm",
        200 => "1612.7 mm",
        201 => "1660.0 mm",
        202 => "1708.6 mm",
        203 => "1758.7 mm",
        204 => "1810.2 mm",
        205 => "1863.2 mm",
        206 => "1917.8 mm",
        207 => "1974.0 mm",
        208 => "2031.9 mm",
        209 => "2091.4 mm",
        210 => "2152.7 mm",
        211 => "2215.8 mm",
        212 => "2280.7 mm",
        213 => "2347.5 mm",
        214 => "2416.3 mm",
        215 => "2487.1 mm",
        216 => "2560.0 mm",
        217 => "2635.0 mm",
        218 => "2712.2 mm",
        219 => "2791.7 mm",
        220 => "2873.5 mm",
        221 => "2957.7 mm",
        222 => "3044.4 mm",
        223 => "3133.6 mm",
        224 => "3225.4 mm",
        225 => "3319.9 mm",
        226 => "3417.2 mm",
        227 => "3517.3 mm",
        228 => "3620.4 mm",
        229 => "3726.5 mm",
        230 => "3835.7 mm",
        231 => "3948.1 mm",
        232 => "4063.7 mm",
        233 => "4182.8 mm",
        234 => "4305.4 mm",
        235 => "4431.5 mm",
        236 => "4561.4 mm",
        237 => "4695.1 mm",
        238 => "4832.6 mm",
        239 => "4974.2 mm",
        240 => "5120.0 mm",
        241 => "5270.0 mm",
        242 => "5424.5 mm",
        243 => "5583.4 mm",
        244 => "5747.0 mm",
        245 => "5915.4 mm",
        246 => "6088.7 mm",
        247 => "6267.2 mm",
        248 => "6450.8 mm",
        249 => "6639.8 mm",
        250 => "6834.4 mm",
        251 => "7034.6 mm",
        252 => "7240.8 mm",
        253 => "7452.9 mm",
        254 => "7671.3 mm",
        _ => "7896.1 mm",
    }
}

/// An aperture byte `b` as "{:.1}" of 2^(b/24).
pub open spec fn aperture_str(b: u8) -> &'static str {
    match b {
        0 => "1.0",
        1 => "1.0",
        2 => "1.1",
        3 => "1.1",
        4 => "1.1",
        5 => "1.2",
        6 => "1.2",
        7 => "1.2",
        8 => "1.3",
        9 => "1.3",
        10 => "1.3",
        11 => "1.4",
        12 => "1.4",
        13 => "1.5",
        14 => "1.5",
        15 => "1.5",
        16 => "1.6",
        17 => "1.6",
        18 => "1.7",
        19 => "1.7",
        20 => "1.8",
        21 => "1.8",
        22 => "1.9",
        23 => "1.9",
        24 => "2.0",
        25 => "2.1",
        26 => "2.1",
        27 => "2.2",
        28 => "2.2",
        29 => "2.3",
        30 => "2.4",
        31 => "2.4",
        32 => "2.5",
        33 => "2.6",
        34 => "2.7",
        35 => "2.7",
        36 => "2.8",
        37 => "2.9",
        38 => "3.0",
        39 => "3.1",
        40 => "3.2",
        41 => "3.3",
        42 => "3.4",
        43 => "3.5",
        44 => "3.6",
        45 => "3.7",
        46 => "3.8",
        47 => "3.9",
        48 => "4.0",
        49 => "4.1",
        50 => "4.2",
        51 => "4.4",
        52 => "4.5",
        53 => "4.6",
        54 => "4.8",
        55 => "4.9",
        56 => "5.0",
        57 => "5.2",
        58 => "5.3",
        59 => "5.5",
        60 => "5.7",
        61 => "5.8",
        62 => "6.0",
        63 => "6.2",
        64 => "6.3",
        65 => "6.5",
        66 => "6.7",
        67 => "6.9",
        68 => "7.1",
        69 => "7.3",
        70 => "7.6",
        71 => "7.8",
        72 => "8.0",
        73 => "8.2",
        74 => "8.5",
        75 => "8.7",
        76 => "9.0",
        77 => "9.2",
        78 => "9.5",
        79 => "9.8",
        80 => "10.1",
        81 => "10.4",
        82 => "10.7",
        83 => "11.0",
        84 => "11.3",
        85 => "11.6",
        86 => "12.0",
        87 => "12.3",
        88 => "12.7",
        89 => "13.1",
        90 => "13.5",
        91 => "13.8",
        92 => "14.3",
        93 => "14.7",
        94 => "15.1",
        95 => "15.5",
        96 => "16.0",
        97 => "16.5",
        98 => "17.0",
        99 => "17.4",
        100 => "18.0",
        101 => "18.5",
        102 => "19.0",
        103 => "19.6",
        104 => "20.2",
        105 => "20.7",
        106 => "21.4",
        107 => "22.0",
        108 => "22.6",
        109 => "23.3",
        110 => "24.0",
        111 => "24.7",
        112 => "25.4",
        113 => "26.1",
        114 => "26.9",
        115 => "27.7",
        116 => "28.5",
        117 => "29.3",
        118 => "30.2",
        119 => "31.1",
        120 => "32.0",
        121 => "32.9",
        122 => "33.9",
        123 => "34.9",
        124 => "35.9",
        125 => "37.0",
        126 => "38.1",
        127 => "39.2",
        128 => "40.3",
        129 => "41.5",
        130 => "42.7",
        131 => "44.0",
        132 => "45.3",
        133 => "46.6",
        134 => "47.9",
        135 => "49.4",
        136 => "50.8",
        137 => "52.3",
        138 => "53.8",
        139 => "55.4",
        140 => "57.0",
        141 => "58.7",
        142 => "60.4",
        143 => "62.2",
        144 => "64.0",
        145 => "65.9",
        146 => "67.8",
        147 => "69.8",
        148 => "71.8",
        149 => "73.9",
        150 => "76.1",
        151 => "78.3",
        152 => "80.6",
        153 => "83.0",
        154 => "85.4",
        155 => "87.9",
        156 => "90.5",
        157 => "93.2",
        158 => "95.9",
        159 => "98.7",
        160 => "101.6",
        161 => "104.6",
        162 => "107.6",
        163 => "110.8",
        164 => "114.0",
        165 => "117.4",
        166 => "120.8",
        167 => "124.4",
        168 => "128.0",
        169 => "131.8",
        170 => "135.6",
        171 => "139.6",
        172 => "143.7",
        173 => "147.9",
        174 => "152.2",
        175 => "156.7",
        176 => "161.3",
        177 => "166.0",
        178 => "170.9",
        179 => "175.9",
        180 => "181.0",
        181 => "186.3",
        182 => "191.8",
        183 => "197.4",
        184 => "203.2",
        185 => "209.1",
        186 => "215.3",
        187 => "221.6",
        188 => "228.1",
        189 => "234.8",
        190 => "241.6",
        191 => "248.7",
        192 => "256.0",
        193 => "263.5",
        194 => "271.2",
        195 => "279.2",
        196 => "287.4",
        197 => "295.8",
        198 => "304.4",
        199 => "313.4",
        200 => "322.5",
        201 => "332.0",
        202 => "341.7",
        203 => "351.7",
        204 => "362.0",
        205 => "372.6",
        206 => "383.6",
        207 => "394.8",
        208 => "406.4",
        209 => "418.3",
        210 => "430.5",
        211 => "443.2",
        212 => "456.1",
        213 => "469.5",
        214 => "483.3",
        215 => "497.4",
        216 => "512.0",
        217 => "527.0",
        218 => "542.4",
        219 => "558.3",
        220 => "574.7",
        221 => "591.5",
        222 => "608.9",
        223 => "626.7",
        224 => "645.1",
        225 => "664.0",
        226 => "683.4",
        227 => "703.5",
        228 => "724.1",
        229 => "745.3",
        230 => "767.1",
        231 => "789.6",
        232 => "812.7",
        233 => "836.6",
        234 => "861.1",
        235 => "886.3",
        236 => "912.3",
        237 => "939.0",
        238 => "966.5",
        239 => "994.8",
        240 => "1024.0",
        241 => "1054.0",
        242 => "1084.9",
        243 => "1116.7",
        244 => "1149.4",
        245 => "1183.1",
        246 => "1217.7",
        247 => "1253.4",
        248 => "1290.2",
        249 => "1328.0",
        250 => "1366.9",
        251 => "1406.9",
        252 => "1448.2",
        253 => "1490.6",
        254 => "1534.3",
        _ => "1579.2",
    }
}

fn aperture_str_exec(b: u8) -> (r: &'static str)
    ensures
        r == aperture_str(b),
{
    match b {
        0 => "1.0",
        1 => "1.0",
        2 => "1.1",
        3 => "1.1",
        4 => "1.1",
        5 => "1.2",
        6 => "1.2",
        7 => "1.2",
        8 => "1.3",
        9 => "1.3",
        10 => "1.3",
        11 => "1.4",
        12 => "1.4",
        13 => "1.5",
        14 => "1.5",
        15 => "1.5",
        16 => "1.6",
        17 => "1.6",
        18 => "1.7",
        19 => "1.7",
        20 => "1.8",
        21 => "1.8",
        22 => "1.9",
        23 => "1.9",
        24 => "2.0",
        25 => "2.1",
        26 => "2.1",
        27 => "2.2",
        28 => "2.2",
        29 => "2.3",
        30 => "2.4",
        31 => "2.4",
        32 => "2.5",
        33 => "2.6",
        34 => "2.7",
        35 => "2.7",
        36 => "2.8",
        37 => "2.9",
        38 => "3.0",
        39 => "3.1",
        40 => "3.2",
        41 => "3.3",
        42 => "3.4",
        43 => "3.5",
        44 => "3.6",
        45 => "3.7",
        46 => "3.8",
        47 => "3.9",
        48 => "4.0",
        49 => "4.1",
        50 => "4.2",
        51 => "4.4",
        52 => "4.5",
        53 => "4.6",
        54 => "4.8",
        55 => "4.9",
        56 => "5.0",
        57 => "5.2",
        58 => "5.3",
        59 => "5.5",
        60 => "5.7",
        61 => "5.8",
        62 => "6.0",
        63 => "6.2",
        64 => "6.3",
        65 => "6.5",
        66 => "6.7",
        67 => "6.9",
        68 => "7.1",
        69 => "7.3",
        70 => "7.6",
        71 => "7.8",
        72 => "8.0",
        73 => "8.2",
        74 => "8.5",
        75 => "8.7",
        76 => "9.0",
        77 => "9.2",
        78 => "9.5",
        79 => "9.8",
        80 => "10.1",
        81 => "10.4",
        82 => "10.7",
        83 => "11.0",
        84 => "11.3",
        85 => "11.6",
        86 => "12.0",
        87 => "12.3",
        88 => "12.7",
        89 => "13.1",
        90 => "13.5",
        91 => "13.8",
        92 => "14.3",
        93 => "14.7",
        94 => "15.1",
        95 => "15.5",
        96 => "16.0",
        97 => "16.5",
        98 => "17.0",
        99 => "17.4",
        100 => "18.0",
        101 => "18.5",
        102 => "19.0",
        103 => "19.6",
        104 => "20.2",
        105 => "20.7",
        106 => "21.4",
        107 => "22.0",
        108 => "22.6",
        109 => "23.3",
        110 => "24.0",
        111 => "24.7",
        112 => "25.4",
        113 => "26.1",
        114 => "26.9",
        115 => "27.7",
        116 => "28.5",
        117 => "29.3",
        118 => "30.2",
        119 => "31.1",
        120 => "32.0",
        121 => "32.9",
        122 => "33.9",
        123 => "34.9",
        124 => "35.9",
        125 => "37.0",
        126 => "38.1",
        127 => "39.2",
        128 => "40.3",
        129 => "41.5",
        130 => "42.7",
        131 => "44.0",
        132 => "45.3",
        133 => "46.6",
        134 => "47.9",
        135 => "49.4",
        136 => "50.8",
        137 => "52.3",
        138 => "53.8",
        139 => "55.4",
        140 => "57.0",
        141 => "58.7",
        142 => "60.4",
        143 => "62.2",
        144 => "64.0",
        145 => "65.9",
        146 => "67.8",
        147 => "69.8",
        148 => "71.8",
        149 => "73.9",
        150 => "76.1",
        151 => "78.3",
        152 => "80.6",
        153 => "83.0",
        154 => "85.4",
        155 => "87.9",
        156 => "90.5",
        157 => "93.2",
        158 => "95.9",
        159 => "98.7",
        160 => "101.6",
        161 => "104.6",
        162 => "107.6",
        163 => "110.8",
        164 => "114.0",
        165 => "117.4",
        166 => "120.8",
        167 => "124.4",
        168 => "128.0",
        169 => "131.8",
        170 => "135.6",
        171 => "139.6",
        172 => "143.7",
        173 => "147.9",
        174 => "152.2",
        175 => "156.7",
        176 => "161.3",
        177 => "166.0",
        178 => "170.9",
        179 => "175.9",
        180 => "181.0",
        181 => "186.3",
        182 => "191.8",
        183 => "197.4",
        184 => "203.2",
        185 => "209.1",
        186 => "215.3",
        187 => "221.6",
        188 => "228.1",
        189 => "234.8",
        190 => "241.6",
        191 => "248.7",
        192 => "256.0",
        193 => "263.5",
        194 => "271.2",
        195 => "279.2",
        196 => "287.4",
        197 => "295.8",
        198 => "304.4",
        199 => "313.4",
        200 => "322.5",
        201 => "332.0",
        202 => "341.7",
        203 => "351.7",
        204 => "362.0",
        205 => "372.6",
        206 => "383.6",
        207 => "394.8",
        208 => "406.4",
        209 => "418.3",
        210 => "430.5",
        211 => "443.2",
        212 => "456.1",
        213 => "469.5",
        214 => "483.3",
        215 => "497.4",
        216 => "512.0",
        217 => "527.0",
        218 => "542.4",
        219 => "558.3",
        220 => "574.7",
        221 => "591.5",
        222 => "608.9",
        223 => "626.7",
        224 => "645.1",
        225 => "664.0",
        226 => "683.4",
        227 => "703.5",
        228 => "724.1",
        229 => "745.3",
        230 => "767.1",
        231 => "789.6",
        232 => "812.7",
        233 => "836.6",
        234 => "861.1",
        235 => "886.3",
        236 => "912.3",
        237 => "939.0",
        238 => "966.5",
        239 => "994.8",
        240 => "1024.0",
        241 => "1054.0",
        242 => "1084.9",
        243 => "1116.7",
        244 => "1149.4",
        245 => "1183.1",
        246 => "1217.7",
        247 => "1253.4",
        248 => "1290.2",
        249 => "1328.0",
        250 => "1366.9",
        251 => "1406.9",
        252 => "1448.2",
        253 => "1490.6",
        254 => "1534.3",
        _ => "1579.2",
    }
}

/// A focus distance byte `b` as "{:.6} m" of 0.01 · 10^(b/40) m.
pub open spec fn focus_distance_str(b: u8) -> &'static str {
    match b {
        0 => "0.010000 m",
        1 => "0.010593 m",
        2 => "0.011220 m",
        3 => "0.011885 m",
        4 => "0.012589 m",
        5 => "0.013335 m",
        6 => "0.014125 m",
        7 => "0.014962 m",
        8 => "0.015849 m",
        9 => "0.016788 m",
        10 => "0.017783 m",
        11 => "0.018836 m",
        12 => "0.019953 m",
        13 => "0.021135 m",
        14 => "0.022387 m",
        15 => "0.023714 m",
        16 => "0.025119 m",
        17 => "0.026607 m",
        18 => "0.028184 m",
        19 => "0.029854 m",
        20 => "0.031623 m",
        21 => "0.033497 m",
        22 => "0.035481 m",
        23 => "0.037584 m",
        24 => "0.039811 m",
        25 => "0.042170 m",
        26 => "0.044668 m",
        27 => "0.047315 m",
        28 => "0.050119 m",
        29 => "0.053088 m",
        30 => "0.056234 m",
        31 => "0.059566 m",
        32 => "0.063096 m",
        33 => "0.066834 m",
        34 => "0.070795 m",
        35 => "0.074989 m",
        36 => "0.079433 m",
        37 => "0.084140 m",
        38 => "0.089125 m",
        39 => "0.094406 m",
        40 => "0.100000 m",
        41 => "0.105925 m",
        42 => "0.112202 m",
        43 => "0.118850 m",
        44 => "0.125893 m",
        45 => "0.133352 m",
        46 => "0.141254 m",
        47 => "0.149624 m",
        48 => "0.158489 m",
        49 => "0.167880 m",
        50 => "0.177828 m",
        51 => "0.188365 m",
        52 => "0.199526 m",
        53 => "0.211349 m",
        54 => "0.223872 m",
        55 => "0.237137 m",
        56 => "0.251189 m",
        57 => "0.266073 m",
        58 => "0.281838 m",
        59 => "0.298538 m",
        60 => "0.316228 m",
        61 => "0.334965 m",
        62 => "0.354813 m",
        63 => "0.375837 m",
        64 => "0.398107 m",
        65 => "0.421697 m",
        66 => "0.446684 m",
        67 => "0.473151 m",
        68 => "0.501187 m",
        69 => "0.530884 m",
        70 => "0.562341 m",
        71 => "0.595662 m",
        72 => "0.630957 m",
        73 => "0.668344 m",
        74 => "0.707946 m",
        75 => "0.749894 m",
        76 => "0.794328 m",
        77 => "0.841395 m",
        78 => "0.891251 m",
        79 => "0.944061 m",
        80 => "1.000000 m",
        81 => "1.059254 m",
        82 => "1.122018 m",
        83 => "1.188502 m",
        84 => "1.258925 m",
        85 => "1.333521 m",
        86 => "1.412538 m",
        87 => "1.496236 m",
        88 => "1.584893 m",
        89 => "1.678804 m",
        90 => "1.778279 m",
        91 => "1.883649 m",
        92 => "1.995262 m",
        93 => "2.113489 m",
        94 => "2.238721 m",
        95 => "2.371374 m",
        96 => "2.511886 m",
        97 => "2.660725 m",
        98 => "2.818383 m",
        99 => "2.985383 m",
        100 => "3.162278 m",
        101 => "3.349654 m",
        102 => "3.548134 m",
        103 => "3.758374 m",
        104 => "3.981072 m",
        105 => "4.216965 m",
        106 => "4.466836 m",
        107 => "4.731513 m",
        108 => "5.011872 m",
        109 => "5.308844 m",
        110 => "5.623413 m",
        111 => "5.956621 m",
        112 => "6.309573 m",
        113 => "6.683439 m",
        114 => "7.079458 m",
        115 => "7.498942 m",
        116 => "7.943282 m",
        117 => "8.413951 m",
        118 => "8.912509 m",
        119 => "9.440609 m",
        120 => "10.000000 m",
        121 => "10.592537 m",
        122 => "11.220185 m",
        123 => "11.885022 m",
        124 => "12.589254 m",
        125 => "13.335214 m",
        126 => "14.125375 m",
        127 => "14.962357 m",
        128 => "15.848932 m",
        129 => "16.788040 m",
        130 => "17.782794 m",
        131 => "18.836491 m",
        132 => "19.952623 m",
        133 => "21.134890 m",
        134 => "22.387211 m",
        135 => "23.713737 m",
        136 => "25.118864 m",
        137 => "26.607251 m",
        138 => "28.183829 m",
        139 => "29.853826 m",
        140 => "31.622777 m",
        141 => "33.496544 m",
        142 => "35.481339 m",
        143 => "37.583740 m",
        144 => "39.810717 m",
        145 => "42.169650 m",
        146 => "44.668359 m",
        147 => "47.315126 m",
        148 => "50.118723 m",
        149 => "53.088444 m",
        150 => "56.234133 m",
        151 => "59.566214 m",
        152 => "63.095734 m",
        153 => "66.834392 m",
        154 => "70.794578 m",
        155 => "74.989421 m",
        156 => "79.432823 m",
        157 => "84.139514 m",
        158 => "89.125094 m",
        159 => "94.406088 m",
        160 => "100.000000 m",
        161 => "105.925373 m",
        162 => "112.201845 m",
        163 => "118.850223 m",
        164 => "125.892541 m",
        165 => "133.352143 m",
        166 => "141.253754 m",
        167 => "149.623566 m",
        168 => "158.489319 m",
        169 => "167.880402 m",
        170 => "177.827941 m",
        171 => "188.364909 m",
        172 => "199.526231 m",
        173 => "211.348904 m",
        174 => "223.872114 m",
        175 => "237.137371 m",
        176 => "251.188643 m",
        177 => "266.072506 m",
        178 => "281.838293 m",
        179 => "298.538262 m",
        180 => "316.227766 m",
        181 => "334.965439 m",
        182 => "354.813389 m",
        183 => "375.837404 m",
        184 => "398.107171 m",
        185 => "421.696503 m",
        186 => "446.683592 m",
        187 => "473.151259 m",
        188 => "501.187234 m",
        189 => "530.884444 m",
        190 => "562.341325 m",
        191 => "595.662144 m",
        192 => "630.957344 m",
        193 => "668.343918 m",
        194 => "707.945784 m",
        195 => "749.894209 m",
        196 => "794.328235 m",
        197 => "841.395142 m",
        198 => "891.250938 m",
        199 => "944.060876 m",
        200 => "1000.000000 m",
        201 => "1059.253725 m",
        202 => "1122.018454 m",
        203 => "1188.502227 m",
        204 => "1258.925412 m",
        205 => "1333.521432 m",
        206 => "1412.537545 m",
        207 => "1496.235656 m",
        208 => "1584.893192 m",
        209 => "1678.804018 m",
        210 => "1778.279410 m",
        211 => "1883.649089 m",
        212 => "1995.262315 m",
        213 => "2113.489040 m",
        214 => "2238.721139 m",
        215 => "2371.373706 m",
        216 => "2511.886432 m",
        217 => "2660.725060 m",
        218 => "2818.382931 m",
        219 => "2985.382619 m",
        220 => "3162.277660 m",
        221 => "3349.654392 m",
        222 => "3548.133892 m",
        223 => "3758.374043 m",
        224 => "3981.071706 m",
        225 => "4216.965034 m",
        226 => "4466.835922 m",
        227 => "4731.512590 m",
        228 => "5011.872336 m",
        229 => "5308.844442 m",
        230 => "5623.413252 m",
        231 => "5956.621435 m",
        232 => "6309.573445 m",
        233 => "6683.439176 m",
        234 => "7079.457844 m",
        235 => "7498.942093 m",
        236 => "7943.282347 m",
        237 => "8413.951416 m",
        238 => "8912.509381 m",
        239 => "9440.608763 m",
        240 => "10000.000000 m",
        241 => "10592.537252 m",
        242 => "11220.184543 m",
        243 => "11885.022274 m",
        244 => "12589.254118 m",
        245 => "13335.214322 m",
        246 => "14125.375446 m",
        247 => "14962.356561 m",
        248 => "15848.931925 m",
        249 => "16788.040181 m",
        250 => "17782.794100 m",
        251 => "18836.490895 m",
        252 => "19952.623150 m",
        253 => "21134.890398 m",
        254 => "22387.211386 m",
        _ => "23713.737057 m",
    }
}

fn focus_distance_str_exec(b: u8) -> (r: &'static str)
    ensures
        r == focus_distance_str(b),
{
    match b {
        0 => "0.010000 m",
        1 => "0.010593 m",
        2 => "0.011220 m",
        3 => "0.011885 m",
        4 => "0.012589 m",
        5 => "0.013335 m",
        6 => "0.014125 m",
        7 => "0.014962 m",
        8 => "0.015849 m",
        9 => "0.016788 m",
        10 => "0.017783 m",
        11 => "0.018836 m",
        12 => "0.019953 m",
        13 => "0.021135 m",
        14 => "0.022387 m",
        15 => "0.023714 m",
        16 => "0.025119 m",
        17 => "0.026607 m",
        18 => "0.028184 m",
        19 => "0.029854 m",
        20 => "0.031623 m",
        21 => "0.033497 m",
        22 => "0.035481 m",
        23 => "0.037584 m",
        24 => "0.039811 m",
        25 => "0.042170 m",
        26 => "0.044668 m",
        27 => "0.047315 m",
        28 => "0.050119 m",
        29 => "0.053088 m",
        30 => "0.056234 m",
        31 => "0.059566 m",
        32 => "0.063096 m",
        33 => "0.066834 m",
        34 => "0.070795 m",
        35 => "0.074989 m",
        36 => "0.079433 m",
        37 => "0.084140 m",
        38 => "0.089125 m",
        39 => "0.094406 m",
        40 => "0.100000 m",
        41 => "0.105925 m",
        42 => "0.112202 m",
        43 => "0.118850 m",
        44 => "0.125893 m",
        45 => "0.133352 m",
        46 => "0.141254 m",
        47 => "0.149624 m",
        48 => "0.158489 m",
        49 => "0.167880 m",
        50 => "0.177828 m",
        51 => "0.188365 m",
        52 => "0.199526 m",
        53 => "0.211349 m",
        54 => "0.223872 m",
        55 => "0.237137 m",
        56 => "0.251189 m",
        57 => "0.266073 m",
        58 => "0.281838 m",
        59 => "0.298538 m",
        60 => "0.316228 m",
        61 => "0.334965 m",
        62 => "0.354813 m",
        63 => "0.375837 m",
        64 => "0.398107 m",
        65 => "0.421697 m",
        66 => "0.446684 m",
        67 => "0.473151 m",
        68 => "0.501187 m",
        69 => "0.530884 m",
        70 => "0.562341 m",
        71 => "0.595662 m",
        72 => "0.630957 m",
        73 => "0.668344 m",
        74 => "0.707946 m",
        75 => "0.749894 m",
        76 => "0.794328 m",
        77 => "0.841395 m",
        78 => "0.891251 m",
        79 => "0.944061 m",
        80 => "1.000000 m",
        81 => "1.059254 m",
        82 => "1.122018 m",
        83 => "1.188502 m",
        84 => "1.258925 m",
        85 => "1.333521 m",
        86 => "1.412538 m",
        87 => "1.496236 m",
        88 => "1.584893 m",
        89 => "1.678804 m",
        90 => "1.778279 m",
        91 => "1.883649 m",
        92 => "1.995262 m",
        93 => "2.113489 m",
        94 => "2.238721 m",
        95 => "2.371374 m",
        96 => "2.511886 m",
        97 => "2.660725 m",
        98 => "2.818383 m",
        99 => "2.985383 m",
        100 => "3.162278 m",
        101 => "3.349654 m",
        102 => "3.548134 m",
        103 => "3.758374 m",
        104 => "3.981072 m",
        105 => "4.216965 m",
        106 => "4.466836 m",
        107 => "4.731513 m",
        108 => "5.011872 m",
        109 => "5.308844 m",
        110 => "5.623413 m",
        111 => "5.956621 m",
        112 => "6.309573 m",
        113 => "6.683439 m",
        114 => "7.079458 m",
        115 => "7.498942 m",
        116 => "7.943282 m",
        117 => "8.413951 m",
        118 => "8.912509 m",
        119 => "9.440609 m",
        120 => "10.000000 m",
        121 => "10.592537 m",
        122 => "11.220185 m",
        123 => "11.885022 m",
        124 => "12.589254 m",
        125 => "13.335214 m",
        126 => "14.125375 m",
        127 => "14.962357 m",
        128 => "15.848932 m",
        129 => "16.788040 m",
        130 => "17.782794 m",
        131 => "18.836491 m",
        132 => "19.952623 m",
        133 => "21.134890 m",
        134 => "22.387211 m",
        135 => "23.713737 m",
        136 => "25.118864 m",
        137 => "26.607251 m",
        138 => "28.183829 m",
        139 => "29.853826 m",
        140 => "31.622777 m",
        141 => "33.496544 m",
        142 => "35.481339 m",
        143 => "37.583740 m",
        144 => "39.810717 m",
        145 => "42.169650 m",
        146 => "44.668359 m",
        147 => "47.315126 m",
        148 => "50.118723 m",
        149 => "53.088444 m",
        150 => "56.234133 m",
        151 => "59.566214 m",
        152 => "63.095734 m",
        153 => "66.834392 m",
        154 => "70.794578 m",
        155 => "74.989421 m",
        156 => "79.432823 m",
        157 => "84.139514 m",
        158 => "89.125094 m",
        159 => "94.406088 m",
        160 => "100.000000 m",
        161 => "105.925373 m",
        162 => "112.201845 m",
        163 => "118.850223 m",
        164 => "125.892541 m",
        165 => "133.352143 m",
        166 => "141.253754 m",
        167 => "149.623566 m",
        168 => "158.489319 m",
        169 => "167.880402 m",
        170 => "177.827941 m",
        171 => "188.364909 m",
        172 => "199.526231 m",
        173 => "211.348904 m",
        174 => "223.872114 m",
        175 => "237.137371 m",
        176 => "251.188643 m",
        177 => "266.072506 m",
        178 => "281.838293 m",
        179 => "298.538262 m",
        180 => "316.227766 m",
        181 => "334.965439 m",
        182 => "354.813389 m",
        183 => "375.837404 m",
        184 => "398.107171 m",
        185 => "421.696503 m",
        186 => "446.683592 m",
        187 => "473.151259 m",
        188 => "501.187234 m",
        189 => "530.884444 m",
        190 => "562.341325 m",
        191 => "595.662144 m",
        192 => "630.957344 m",
        193 => "668.343918 m",
        194 => "707.945784 m",
        195 => "749.894209 m",
        196 => "794.328235 m",
        197 => "841.395142 m",
        198 => "891.250938 m",
        199 => "944.060876 m",
        200 => "1000.000000 m",
        201 => "1059.253725 m",
        202 => "1122.018454 m",
        203 => "1188.502227 m",
        204 => "1258.925412 m",
        205 => "1333.521432 m",
        206 => "1412.537545 m",
        207 => "1496.235656 m",
        208 => "1584.893192 m",
        209 => "1678.804018 m",
        210 => "1778.279410 m",
        211 => "1883.649089 m",
        212 => "1995.262315 m",
        213 => "2113.489040 m",
        214 => "2238.721139 m",
        215 => "2371.373706 m",
        216 => "2511.886432 m",
        217 => "2660.725060 m",
        218 => "2818.382931 m",
        219 => "2985.382619 m",
        220 => "3162.277660 m",
        221 => "3349.654392 m",
        222 => "3548.133892 m",
        223 => "3758.374043 m",
        224 => "3981.071706 m",
        225 => "4216.965034 m",
        226 => "4466.835922 m",
        227 => "4731.512590 m",
        228 => "5011.872336 m",
        229 => "5308.844442 m",
        230 => "5623.413252 m",
        231 => "5956.621435 m",
        232 => "6309.573445 m",
        233 => "6683.439176 m",
        234 => "7079.457844 m",
        235 => "7498.942093 m",
        236 => "7943.282347 m",
        237 => "8413.951416 m",
        238 => "8912.509381 m",
        239 => "9440.608763 m",
        240 => "10000.000000 m",
        241 => "10592.537252 m",
        242 => "11220.184543 m",
        243 => "11885.022274 m",
        244 => "12589.254118 m",
        245 => "13335.214322 m",
        246 => "14125.375446 m",
        247 => "14962.356561 m",
        248 => "15848.931925 m",
        249 => "16788.040181 m",
        250 => "17782.794100 m",
        251 => "18836.490895 m",
        252 => "19952.623150 m",
        253 => "21134.890398 m",
        254 => "22387.211386 m",
        _ => "23713.737057 m",
    }
}

/// An exit pupil byte `b` (from 1) as "{:.1} mm" of 2048/b mm.
pub open spec fn exit_pupil_str(b: u8) -> &'static str {
    match b {
        1 => "2048.0 mm",
        2 => "1024.0 mm",
        3 => "682.7 mm",
        4 => "512.0 mm",
        5 => "409.6 mm",
        6 => "341.3 mm",
        7 => "292.6 mm",
        8 => "256.0 mm",
        9 => "227.6 mm",
        10 => "204.8 mm",
        11 => "186.2 mm",
        12 => "170.7 mm",
        13 => "157.5 mm",
        14 => "146.3 mm",
        15 => "136.5 mm",
        16 => "128.0 mm",
        17 => "120.5 mm",
        18 => "113.8 mm",
        19 => "107.8 mm",
        20 => "102.4 mm",
        21 => "97.5 mm",
        22 => "93.1 mm",
        23 => "89.0 mm",
        24 => "85.3 mm",
        25 => "81.9 mm",
        26 => "78.8 mm",
        27 => "75.9 mm",
        28 => "73.1 mm",
        29 => "70.6 mm",
        30 => "68.3 mm",
        31 => "66.1 mm",
        32 => "64.0 mm",
        33 => "62.1 mm",
        34 => "60.2 mm",
        35 => "58.5 mm",
        36 => "56.9 mm",
        37 => "55.4 mm",
        38 => "53.9 mm",
        39 => "52.5 mm",
        40 => "51.2 mm",
        41 => "50.0 mm",
        42 => "48.8 mm",
        43 => "47.6 mm",
        44 => "46.5 mm",
        45 => "45.5 mm",
        46 => "44.5 mm",
        47 => "43.6 mm",
        48 => "42.7 mm",
        49 => "41.8 mm",
        50 => "41.0 mm",
        51 => "40.2 mm",
        52 => "39.4 mm",
        53 => "38.6 mm",
        54 => "37.9 mm",
        55 => "37.2 mm",
        56 => "36.6 mm",
        57 => "35.9 mm",
        58 => "35.3 mm",
        59 => "34.7 mm",
        60 => "34.1 mm",
        61 => "33.6 mm",
        62 => "33.0 mm",
        63 => "32.5 mm",
        64 => "32.0 mm",
        65 => "31.5 mm",
        66 => "31.0 mm",
        67 => "30.6 mm",
        68 => "30.1 mm",
        69 => "29.7 mm",
        70 => "29.3 mm",
        71 => "28.8 mm",
        72 => "28.4 mm",
        73 => "28.1 mm",
        74 => "27.7 mm",
        75 => "27.3 mm",
        76 => "26.9 mm",
        77 => "26.6 mm",
        78 => "26.3 mm",
        79 => "25.9 mm",
        80 => "25.6 mm",
        81 => "25.3 mm",
        82 => "25.0 mm",
        83 => "24.7 mm",
        84 => "24.4 mm",
        85 => "24.1 mm",
        86 => "23.8 mm",
        87 => "23.5 mm",
        88 => "23.3 mm",
        89 => "23.0 mm",
        90 => "22.8 mm",
        91 => "22.5 mm",
        92 => "22.3 mm",
        93 => "22.0 mm",
        94 => "21.8 mm",
        95 => "21.6 mm",
        96 => "21.3 mm",
        97 => "21.1 mm",
        98 => "20.9 mm",
        99 => "20.7 mm",
        100 => "20.5 mm",
        101 => "20.3 mm",
        102 => "20.1 mm",
        103 => "19.9 mm",
        104 => "19.7 mm",
        105 => "19.5 mm",
        106 => "19.3 mm",
        107 => "19.1 mm",
        108 => "19.0 mm",
        109 => "18.8 mm",
        110 => "18.6 mm",
        111 => "18.5 mm",
        112 => "18.3 mm",
        113 => "18.1 mm",
        114 => "18.0 mm",
        115 => "17.8 mm",
        116 => "17.7 mm",
        117 => "17.5 mm",
        118 => "17.4 mm",
        119 => "17.2 mm",
        120 => "17.1 mm",
        121 => "16.9 mm",
        122 => "16.8 mm",
        123 => "16.7 mm",
        124 => "16.5 mm",
        125 => "16.4 mm",
        126 => "16.3 mm",
        127 => "16.1 mm",
        128 => "16.0 mm",
        129 => "15.9 mm",
        130 => "15.8 mm",
        131 => "15.6 mm",
        132 => "15.5 mm",
        133 => "15.4 mm",
        134 => "15.3 mm",
        135 => "15.2 mm",
        136 => "15.1 mm",
        137 => "14.9 mm",
        138 => "14.8 mm",
        139 => "14.7 mm",
        140 => "14.6 mm",
        141 => "14.5 mm",
        142 => "14.4 mm",
        143 => "14.3 mm",
        144 => "14.2 mm",
        145 => "14.1 mm",
        146 => "14.0 mm",
        147 => "13.9 mm",
        148 => "13.8 mm",
        149 => "13.7 mm",
        150 => "13.7 mm",
        151 => "13.6 mm",
        152 => "13.5 mm",
        153 => "13.4 mm",
        154 => "13.3 mm",
        155 => "13.2 mm",
        156 => "13.1 mm",
        157 => "13.0 mm",
        158 => "13.0 mm",
        159 => "12.9 mm",
        160 => "12.8 mm",
        161 => "12.7 mm",
        162 => "12.6 mm",
        163 => "12.6 mm",
        164 => "12.5 mm",
        165 => "12.4 mm",
        166 => "12.3 mm",
        167 => "12.3 mm",
        168 => "12.2 mm",
        169 => "12.1 mm",
        170 => "12.0 mm",
        171 => "12.0 mm",
        172 => "11.9 mm",
        173 => "11.8 mm",
        174 => "11.8 mm",
        175 => "11.7 mm",
        176 => "11.6 mm",
        177 => "11.6 mm",
        178 => "11.5 mm",
        179 => "11.4 mm",
        180 => "11.4 mm",
        181 => "11.3 mm",
        182 => "11.3 mm",
        183 => "11.2 mm",
        184 => "11.1 mm",
        185 => "11.1 mm",
        186 => "11.0 mm",
        187 => "11.0 mm",
        188 => "10.9 mm",
        189 => "10.8 mm",
        190 => "10.8 mm",
        191 => "10.7 mm",
        192 => "10.7 mm",
        193 => "10.6 mm",
        194 => "10.6 mm",
        195 => "10.5 mm",
        196 => "10.4 mm",
        197 => "10.4 mm",
        198 => "10.3 mm",
        199 => "10.3 mm",
        200 => "10.2 mm",
        201 => "10.2 mm",
        202 => "10.1 mm",
        203 => "10.1 mm",
        204 => "10.0 mm",
        205 => "10.0 mm",
        206 => "9.9 mm",
        207 => "9.9 mm",
        208 => "9.8 mm",
        209 => "9.8 mm",
        210 => "9.8 mm",
        211 => "9.7 mm",
        212 => "9.7 mm",
        213 => "9.6 mm",
        214 => "9.6 mm",
        215 => "9.5 mm",
        216 => "9.5 mm",
        217 => "9.4 mm",
        218 => "9.4 mm",
        219 => "9.4 mm",
        220 => "9.3 mm",
        221 => "9.3 mm",
        222 => "9.2 mm",
        223 => "9.2 mm",
        224 => "9.1 mm",
        225 => "9.1 mm",
        226 => "9.1 mm",
        227 => "9.0 mm",
        228 => "9.0 mm",
        229 => "8.9 mm",
        230 => "8.9 mm",
        231 => "8.9 mm",
        232 => "8.8 mm",
        233 => "8.8 mm",
        234 => "8.8 mm",
        235 => "8.7 mm",
        236 => "8.7 mm",
        237 => "8.6 mm",
        238 => "8.6 mm",
        239 => "8.6 mm",
        240 => "8.5 mm",
        241 => "8.5 mm",
        242 => "8.5 mm",
        243 => "8.4 mm",
        244 => "8.4 mm",
        245 => "8.4 mm",
        246 => "8.3 mm",
        247 => "8.3 mm",
        248 => "8.3 mm",
        249 => "8.2 mm",
        250 => "8.2 mm",
        251 => "8.2 mm",
        252 => "8.1 mm",
        253 => "8.1 mm",
        254 => "8.1 mm",
        255 => "8.0 mm",
        _ => "0.0 mm",
    }
}

fn exit_pupil_str_exec(b: u8) -> (r: &'static str)
    ensures
        r == exit_pupil_str(b),
{
    match b {
        1 => "2048.0 mm",
        2 => "1024.0 mm",
        3 => "682.7 mm",
        4 => "512.0 mm",
        5 => "409.6 mm",
        6 => "341.3 mm",
        7 => "292.6 mm",
        8 => "256.0 mm",
        9 => "227.6 mm",
        10 => "204.8 mm",
        11 => "186.2 mm",
        12 => "170.7 mm",
        13 => "157.5 mm",
        14 => "146.3 mm",
        15 => "136.5 mm",
        16 => "128.0 mm",
        17 => "120.5 mm",
        18 => "113.8 mm",
        19 => "107.8 mm",
        20 => "102.4 mm",
        21 => "97.5 mm",
        22 => "93.1 mm",
        23 => "89.0 mm",
        24 => "85.3 mm",
        25 => "81.9 mm",
        26 => "78.8 mm",
        27 => "75.9 mm",
        28 => "73.1 mm",
        29 => "70.6 mm",
        30 => "68.3 mm",
        31 => "66.1 mm",
        32 => "64.0 mm",
        33 => "62.1 mm",
        34 => "60.2 mm",
        35 => "58.5 mm",
        36 => "56.9 mm",
        37 => "55.4 mm",
        38 => "53.9 mm",
        39 => "52.5 mm",
        40 => "51.2 mm",
        41 => "50.0 mm",
        42 => "48.8 mm",
        43 => "47.6 mm",
        44 => "46.5 mm",
        45 => "45.5 mm",
        46 => "44.5 mm",
        47 => "43.6 mm",
        48 => "42.7 mm",
        49 => "41.8 mm",
        50 => "41.0 mm",
        51 => "40.2 mm",
        52 => "39.4 mm",
        53 => "38.6 mm",
        54 => "37.9 mm",
        55 => "37.2 mm",
        56 => "36.6 mm",
        57 => "35.9 mm",
        58 => "35.3 mm",
        59 => "34.7 mm",
        60 => "34.1 mm",
        61 => "33.6 mm",
        62 => "33.0 mm",
        63 => "32.5 mm",
        64 => "32.0 mm",
        65 => "31.5 mm",
        66 => "31.0 mm",
        67 => "30.6 mm",
        68 => "30.1 mm",
        69 => "29.7 mm",
        70 => "29.3 mm",
        71 => "28.8 mm",
        72 => "28.4 mm",
        73 => "28.1 mm",
        74 => "27.7 mm",
        75 => "27.3 mm",
        76 => "26.9 mm",
        77 => "26.6 mm",
        78 => "26.3 mm",
        79 => "25.9 mm",
        80 => "25.6 mm",
        81 => "25.3 mm",
        82 => "25.0 mm",
        83 => "24.7 mm",
        84 => "24.4 mm",
        85 => "24.1 mm",
        86 => "23.8 mm",
        87 => "23.5 mm",
        88 => "23.3 mm",
        89 => "23.0 mm",
        90 => "22.8 mm",
        91 => "22.5 mm",
        92 => "22.3 mm",
        93 => "22.0 mm",
        94 => "21.8 mm",
        95 => "21.6 mm",
        96 => "21.3 mm",
        97 => "21.1 mm",
        98 => "20.9 mm",
        99 => "20.7 mm",
        100 => "20.5 mm",
        101 => "20.3 mm",
        102 => "20.1 mm",
        103 => "19.9 mm",
        104 => "19.7 mm",
        105 => "19.5 mm",
        106 => "19.3 mm",
        107 => "19.1 mm",
        108 => "19.0 mm",
        109 => "18.8 mm",
        110 => "18.6 mm",
        111 => "18.5 mm",
        112 => "18.3 mm",
        113 => "18.1 mm",
        114 => "18.0 mm",
        115 => "17.8 mm",
        116 => "17.7 mm",
        117 => "17.5 mm",
        118 => "17.4 mm",
        119 => "17.2 mm",
        120 => "17.1 mm",
        121 => "16.9 mm",
        122 => "16.8 mm",
        123 => "16.7 mm",
        124 => "16.5 mm",
        125 => "16.4 mm",
        126 => "16.3 mm",
        127 => "16.1 mm",
        128 => "16.0 mm",
        129 => "15.9 mm",
        130 => "15.8 mm",
        131 => "15.6 mm",
        132 => "15.5 mm",
        133 => "15.4 mm",
        134 => "15.3 mm",
        135 => "15.2 mm",
        136 => "15.1 mm",
        137 => "14.9 mm",
        138 => "14.8 mm",
        139 => "14.7 mm",
        140 => "14.6 mm",
        141 => "14.5 mm",
        142 => "14.4 mm",
        143 => "14.3 mm",
        144 => "14.2 mm",
        145 => "14.1 mm",
        146 => "14.0 mm",
        147 => "13.9 mm",
        148 => "13.8 mm",
        149 => "13.7 mm",
        150 => "13.7 mm",
        151 => "13.6 mm",
        152 => "13.5 mm",
        153 => "13.4 mm",
        154 => "13.3 mm",
        155 => "13.2 mm",
        156 => "13.1 mm",
        157 => "13.0 mm",
        158 => "13.0 mm",
        159 => "12.9 mm",
        160 => "12.8 mm",
        161 => "12.7 mm",
        162 => "12.6 mm",
        163 => "12.6 mm",
        164 => "12.5 mm",
        165 => "12.4 mm",
        166 => "12.3 mm",
        167 => "12.3 mm",
        168 => "12.2 mm",
        169 => "12.1 mm",
        170 => "12.0 mm",
        171 => "12.0 mm",
        172 => "11.9 mm",
        173 => "11.8 mm",
        174 => "11.8 mm",
        175 => "11.7 mm",
        176 => "11.6 mm",
        177 => "11.6 mm",
        178 => "11.5 mm",
        179 => "11.4 mm",
        180 => "11.4 mm",
        181 => "11.3 mm",
        182 => "11.3 mm",
        183 => "11.2 mm",
        184 => "11.1 mm",
        185 => "11.1 mm",
        186 => "11.0 mm",
        187 => "11.0 mm",
        188 => "10.9 mm",
        189 => "10.8 mm",
        190 => "10.8 mm",
        191 => "10.7 mm",
        192 => "10.7 mm",
        193 => "10.6 mm",
        194 => "10.6 mm",
        195 => "10.5 mm",
        196 => "10.4 mm",
        197 => "10.4 mm",
        198 => "10.3 mm",
        199 => "10.3 mm",
        200 => "10.2 mm",
        201 => "10.2 mm",
        202 => "10.1 mm",
        203 => "10.1 mm",
        204 => "10.0 mm",
        205 => "10.0 mm",
        206 => "9.9 mm",
        207 => "9.9 mm",
        208 => "9.8 mm",
        209 => "9.8 mm",
        210 => "9.8 mm",
        211 => "9.7 mm",
        212 => "9.7 mm",
        213 => "9.6 mm",
        214 => "9.6 mm",
        215 => "9.5 mm",
        216 => "9.5 mm",
        217 => "9.4 mm",
        218 => "9.4 mm",
        219 => "9.4 mm",
        220 => "9.3 mm",
        221 => "9.3 mm",
        222 => "9.2 mm",
        223 => "9.2 mm",
        224 => "9.1 mm",
        225 => "9.1 mm",
        226 => "9.1 mm",
        227 => "9.0 mm",
        228 => "9.0 mm",
        229 => "8.9 mm",
        230 => "8.9 mm",
        231 => "8.9 mm",
        232 => "8.8 mm",
        233 => "8.8 mm",
        234 => "8.8 mm",
        235 => "8.7 mm",
        236 => "8.7 mm",
        237 => "8.6 mm",
        238 => "8.6 mm",
        239 => "8.6 mm",
        240 => "8.5 mm",
        241 => "8.5 mm",
        242 => "8.5 mm",
        243 => "8.4 mm",
        244 => "8.4 mm",
        245 => "8.4 mm",
        246 => "8.3 mm",
        247 => "8.3 mm",
        248 => "8.3 mm",
        249 => "8.2 mm",
        250 => "8.2 mm",
        251 => "8.2 mm",
        252 => "8.1 mm",
        253 => "8.1 mm",
        254 => "8.1 mm",
        255 => "8.0 mm",
        _ => "0.0 mm",
    }
}

// ---------------------------------------------------------------------------
// LensData
// ---------------------------------------------------------------------------

/// FocusPosition: "0x" and two lower-case hexadecimal digits.
pub open spec fn focus_position_text(b: u8) -> Seq<char> {
    "0x"@ + hex2(b, false)
}

/// The fields of the LensData01 layout (versions 0101 and 0201 to 0203, 18
/// bytes at least) or, with `shift`, of LensData0204, which has one more byte
/// before FocusDistance and so everything from there one byte later.
pub open spec fn lens01_fields(d: Seq<u8>, shift: bool) -> Seq<(&'static str, Seq<char>)> {
    let s: int = if shift {
        1
    } else {
        0
    };
    opt(d[4] > 0, "ExitPupilPosition", exit_pupil_str(d[4])@) + seq![
        ("AFAperture", aperture_str(d[5])@),
        ("FocusPosition", focus_position_text(d[8])),
        ("FocusDistance", focus_distance_str(d[9 + s])@),
        ("LensIDNumber", dec(d[11 + s] as nat)),
        ("MinFocalLength", focal_length_str(d[13 + s])@),
        ("MaxFocalLength", focal_length_str(d[14 + s])@),
        ("MaxApertureAtMinFocal", aperture_str(d[15 + s])@),
        ("MaxApertureAtMaxFocal", aperture_str(d[16 + s])@),
        ("MCUVersion", dec(d[17 + s] as nat)),
    ] + opt(d.len() >= 19 + s, "EffectiveMaxAperture", aperture_str(d[18 + s])@)
}

/// The seven bytes that, with LensType, identify the lens: LensIDNumber,
/// LensFStops, Min/MaxFocalLength, MaxApertureAtMin/MaxFocal and MCUVersion.
pub open spec fn lens_id_bytes(d: Seq<u8>, first: int) -> Seq<u8> {
    d.subrange(first, first + 7)
}

/// The fields of LensData version 0100 (13 bytes at least).
pub open spec fn lens00_fields(d: Seq<u8>) -> Seq<(&'static str, Seq<char>)> {
    seq![
        ("LensIDNumber", dec(d[6] as nat)),
        ("MinFocalLength", focal_length_str(d[8])@),
        ("MaxFocalLength", focal_length_str(d[9])@),
        ("MaxApertureAtMinFocal", aperture_str(d[10])@),
        ("MaxApertureAtMaxFocal", aperture_str(d[11])@),
        ("MCUVersion", dec(d[12] as nat)),
    ]
}

/// The layout a LensData version uses: `Some((encrypted, shift, first id
/// byte))`, or `None` when its fields are not read.
pub open spec fn lens_layout(v: Seq<char>, len: nat) -> Option<(bool, bool, int)> {
    if v == "0101"@ && len >= 18 {
        Some((false, false, 11))
    } else if (v == "0201"@ || v == "0202"@ || v == "0203"@) && len >= 18 {
        Some((true, false, 11))
    } else if prefixed(v, "020"@) && lex_ge(v, "0204"@) && len >= 19 {
        Some((true, true, 12))
    } else {
        None
    }
}

/// The fields of LensData and its lens identification bytes. Encrypted
/// versions are read only when the serial number and shutter count are
/// known; they are decrypted from byte 4 on.
pub open spec fn lens_data(data: Seq<u8>, serial: Option<u32>, count: Option<u32>) -> (
    Seq<(&'static str, Seq<char>)>,
    Option<Seq<u8>>,
) {
    if data.len() < 4 {
        (seq![], None)
    } else {
        match utf8_decode(data.take(4)) {
            None => (seq![], None),
            Some(v) => {
                let head = seq![("LensDataVersion", v)];
                if v == "0100"@ && data.len() >= 13 {
                    (head + lens00_fields(data), Some(lens_id_bytes(data, 6)))
                } else {
                    match lens_layout(v, data.len()) {
                        None => (head, None),
                        Some((enc, shift, first)) => if !enc {
                            (head + lens01_fields(data, shift), Some(lens_id_bytes(data, first)))
                        } else {
                            match (serial, count) {
                                (Some(s), Some(c)) => {
                                    let d = nikon_crypt(data, s, c, 4);
                                    (head + lens01_fields(d, shift), Some(lens_id_bytes(d, first)))
                                },
                                _ => (head, None),
                            }
                        },
                    }
                }
            },
        }
    }
}

fn id_bytes(d: &[u8], first: usize) -> (r: [u8; 7])
    requires
        first + 7 <= d.len(),
    ensures
        r@ == lens_id_bytes(d@, first as int),
{
    let r = [d[first], d[first + 1], d[first + 2], d[first + 3], d[first + 4], d[first + 5], d[first
        + 6]];
    assert(r@ =~= lens_id_bytes(d@, first as int));
    r
}

fn push_lens01(tags: &mut Vec<(&'static str, String)>, d: &[u8], shift: bool)
    requires
        d@.len() >= 18 + (if shift {
            1int
        } else {
            0
        }),
    ensures
        pairs_view(final(tags)@) == pairs_view(old(tags)@) + lens01_fields(d@, shift),
{
    let ghost start = pairs_view(tags@);
    let s: usize = if shift {
        1
    } else {
        0
    };
    if d[4] > 0 {
        push_pair(tags, "ExitPupilPosition", owned(exit_pupil_str_exec(d[4])));
    }
    let ghost s1 = pairs_view(tags@);
    push_pair(tags, "AFAperture", owned(aperture_str_exec(d[5])));
    let mut fp = owned("0x");
    push_hex2(&mut fp, d[8], false);
    push_pair(tags, "FocusPosition", fp);
    push_pair(tags, "FocusDistance", owned(focus_distance_str_exec(d[9 + s])));
    push_pair(tags, "LensIDNumber", fmt_dec(d[11 + s] as u64));
    push_pair(tags, "MinFocalLength", owned(focal_length_str_exec(d[13 + s])));
    push_pair(tags, "MaxFocalLength", owned(focal_length_str_exec(d[14 + s])));
    push_pair(tags, "MaxApertureAtMinFocal", owned(aperture_str_exec(d[15 + s])));
    push_pair(tags, "MaxApertureAtMaxFocal", owned(aperture_str_exec(d[16 + s])));
    push_pair(tags, "MCUVersion", fmt_dec(d[17 + s] as u64));
    let ghost s2 = pairs_view(tags@);
    if d.len() >= 19 + s {
        push_pair(tags, "EffectiveMaxAperture", owned(aperture_str_exec(d[18 + s])));
    }
    proof {
        assert(pairs_view(tags@) =~= start + lens01_fields(d@, shift));
    }
}

/// Parses LensData (tag 0x0098), returning its fields and, when read, the
/// seven lens identification bytes.
pub fn parse_lens_data(data: &[u8], serial: Option<u32>, shutter_count: Option<u32>) -> (r: (
    Vec<(&'static str, String)>,
    Option<[u8; 7]>,
))
    ensures
        pairs_view(r.0@) == lens_data(data@, serial, shutter_count).0,
        match r.1 {
            Some(b) => lens_data(data@, serial, shutter_count).1 == Some(b@),
            None => lens_data(data@, serial, shutter_count).1 is None,
        },
{
    let mut tags: Vec<(&'static str, String)> = Vec::new();
    if data.len() < 4 {
        assert(pairs_view(tags@) =~= seq![]);
        return (tags, None);
    }
    assert(data@.subrange(0, 4) =~= data@.take(4));
    let version: &str = match utf8_str(&data[0..4]) {
        Some(t) => t,
        None => {
            assert(pairs_view(tags@) =~= seq![]);
            return (tags, None);
        },
    };
    push_pair(&mut tags, "LensDataVersion", owned(version));
    let ghost head = pairs_view(tags@);
    if str_eq(version, "0100") && data.len() >= 13 {
        push_pair(&mut tags, "LensIDNumber", fmt_dec(data[6] as u64));
        push_pair(&mut tags, "MinFocalLength", owned(focal_length_str_exec(data[8])));
        push_pair(&mut tags, "MaxFocalLength", owned(focal_length_str_exec(data[9])));
        push_pair(&mut tags, "MaxApertureAtMinFocal", owned(aperture_str_exec(data[10])));
        push_pair(&mut tags, "MaxApertureAtMaxFocal", owned(aperture_str_exec(data[11])));
        push_pair(&mut tags, "MCUVersion", fmt_dec(data[12] as u64));
        proof {
            assert(pairs_view(tags@) =~= head + lens00_fields(data@));
        }
        return (tags, Some(id_bytes(data, 6)));
    }
    let layout: Option<(bool, bool, usize)> = if str_eq(version, "0101") && data.len() >= 18 {
        Some((false, false, 11))
    } else if (str_eq(version, "0201") || str_eq(version, "0202") || str_eq(version, "0203"))
        && data.len() >= 18 {
        Some((true, false, 11))
    } else if starts_with(version, "020") && str_ge(version, "0204") && data.len() >= 19 {
        Some((true, true, 12))
    } else {
        None
    };
    match layout {
        None => (tags, None),
        Some((enc, shift, first)) => {
            if !enc {
                push_lens01(&mut tags, data, shift);
                (tags, Some(id_bytes(data, first)))
            } else {
                match (serial, shutter_count) {
                    (Some(s), Some(c)) => {
                        let mut d = vstd::slice::slice_to_vec(data);
                        nikon_decrypt(s, c, &mut d, 4);
                        push_lens01(&mut tags, d.as_slice(), shift);
                        (tags, Some(id_bytes(d.as_slice(), first)))
                    },
                    _ => (tags, None),
                }
            }
        },
    }
}

} // verus!
