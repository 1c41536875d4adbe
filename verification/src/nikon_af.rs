//! Nikon autofocus records: AFInfo and AFInfo2, with the primary AF point
//! and the AF points in use for each focus-point schema.
use vstd::prelude::*;
use crate::bytes::{Endianness, le16, be16, u16_of, read_u16, read_u16_at};
use crate::text::{
    dec, join, views, push_char, push_dec, owned, push_str, wrap_dec, join_strings, hex_list, fmt_hex_list, starts_with, str_eq, unicode_upper, to_upper, utf8_decode, utf8_str,
};
use crate::nikon::{pairs_view, push_pair};

verus! {

// ---------------------------------------------------------------------------
// Grid points
// ---------------------------------------------------------------------------

/// A grid point coded as `row * 32 + column`, rows 'A'.. numbered from 0.
/// Ascending codes list the points row by row and, within a row, by column
/// number; that is the order of their names padded to a letter and two
/// digits ("A05" < "A10" < "B01").
pub open spec fn pt(row: char, col: nat) -> u16 {
    ((row as int - 65) * 32 + col) as u16
}

/// A row letter (0 is 'A') followed by a decimal number.
pub open spec fn letter_num(row: nat, num: nat) -> Seq<char> {
    seq![(65 + row) as char] + dec(num)
}

/// The name of a coded grid point, such as "C10".
pub open spec fn point_name(code: u16) -> Seq<char> {
    letter_num((code / 32) as nat, (code % 32) as nat)
}

/// The name of point `p` of a grid laid out `ncol` columns to a row,
/// counting from 0 and naming columns from 1.
pub open spec fn grid_name(p: nat, ncol: nat) -> Seq<char> {
    letter_num(p / ncol, p % ncol + 1)
}

/// "Unknown (n)".
pub open spec fn unknown_text(n: nat) -> Seq<char> {
    "Unknown ("@ + dec(n) + ")"@
}

/// A name marked as the centre point.
pub open spec fn centered(name: Seq<char>) -> Seq<char> {
    name + " (Center)"@
}

fn letter_num_string(row: u8, num: u64) -> (r: String)
    requires
        row <= 190,
    ensures
        r@ == letter_num(row as nat, num as nat),
{
    let mut s = String::new();
    push_char(&mut s, (row + 65) as char);
    push_dec(&mut s, num);
    proof {
        assert(s@ =~= letter_num(row as nat, num as nat));
    }
    s
}

fn point_string(code: u16) -> (r: String)
    requires
        code < 288,
    ensures
        r@ == point_name(code),
{
    letter_num_string((code / 32) as u8, (code % 32) as u64)
}

/// Names point `p` of a grid of `ncol` columns.
pub fn get_af_point_grid(point: u8, ncol: u8) -> (r: String)
    requires
        ncol > 0,
        point / ncol <= 190,
    ensures
        r@ == grid_name(point as nat, ncol as nat),
{
    letter_num_string(point / ncol, (point % ncol) as u64 + 1)
}

fn unknown_string(n: u8) -> (r: String)
    ensures
        r@ == unknown_text(n as nat),
{
    wrap_dec("Unknown (", n as u64, ")")
}

fn centered_string(s: String) -> (r: String)
    ensures
        r@ == centered(s@),
{
    let mut s = s;
    push_str(&mut s, " (Center)");
    s
}

/// The 51-point grid, by bit position (0-based).
pub open spec fn points51(n: u8) -> Option<u16> {
    match n {
        0 => Some(pt('C', 6)),
        1 => Some(pt('B', 6)),
        2 => Some(pt('A', 5)),
        3 => Some(pt('D', 6)),
        4 => Some(pt('E', 5)),
        5 => Some(pt('C', 7)),
        6 => Some(pt('B', 7)),
        7 => Some(pt('A', 6)),
        8 => Some(pt('D', 7)),
        9 => Some(pt('E', 6)),
        10 => Some(pt('C', 5)),
        11 => Some(pt('B', 5)),
        12 => Some(pt('A', 4)),
        13 => Some(pt('D', 5)),
        14 => Some(pt('E', 4)),
        15 => Some(pt('C', 8)),
        16 => Some(pt('B', 8)),
        17 => Some(pt('A', 7)),
        18 => Some(pt('D', 8)),
        19 => Some(pt('E', 7)),
        20 => Some(pt('C', 9)),
        21 => Some(pt('B', 9)),
        22 => Some(pt('A', 8)),
        23 => Some(pt('D', 9)),
        24 => Some(pt('E', 8)),
        25 => Some(pt('C', 10)),
        26 => Some(pt('B', 10)),
        27 => Some(pt('A', 9)),
        28 => Some(pt('D', 10)),
        29 => Some(pt('E', 9)),
        30 => Some(pt('C', 11)),
        31 => Some(pt('B', 11)),
        32 => Some(pt('D', 11)),
        33 => Some(pt('C', 4)),
        34 => Some(pt('B', 4)),
        35 => Some(pt('A', 3)),
        36 => Some(pt('D', 4)),
        37 => Some(pt('E', 3)),
        38 => Some(pt('C', 3)),
        39 => Some(pt('B', 3)),
        40 => Some(pt('A', 2)),
        41 => Some(pt('D', 3)),
        42 => Some(pt('E', 2)),
        43 => Some(pt('C', 2)),
        44 => Some(pt('B', 2)),
        45 => Some(pt('A', 1)),
        46 => Some(pt('D', 2)),
        47 => Some(pt('E', 1)),
        48 => Some(pt('C', 1)),
        49 => Some(pt('B', 1)),
        50 => Some(pt('D', 1)),
        _ => None,
    }
}

fn points51_exec(n: u8) -> (r: Option<u16>)
    ensures
        r == points51(n),
{
    match n {
        0 => Some(70),
        1 => Some(38),
        2 => Some(5),
        3 => Some(102),
        4 => Some(133),
        5 => Some(71),
        6 => Some(39),
        7 => Some(6),
        8 => Some(103),
        9 => Some(134),
        10 => Some(69),
        11 => Some(37),
        12 => Some(4),
        13 => Some(101),
        14 => Some(132),
        15 => Some(72),
        16 => Some(40),
        17 => Some(7),
        18 => Some(104),
        19 => Some(135),
        20 => Some(73),
        21 => Some(41),
        22 => Some(8),
        23 => Some(105),
        24 => Some(136),
        25 => Some(74),
        26 => Some(42),
        27 => Some(9),
        28 => Some(106),
        29 => Some(137),
        30 => Some(75),
        31 => Some(43),
        32 => Some(107),
        33 => Some(68),
        34 => Some(36),
        35 => Some(3),
        36 => Some(100),
        37 => Some(131),
        38 => Some(67),
        39 => Some(35),
        40 => Some(2),
        41 => Some(99),
        42 => Some(130),
        43 => Some(66),
        44 => Some(34),
        45 => Some(1),
        46 => Some(98),
        47 => Some(129),
        48 => Some(65),
        49 => Some(33),
        50 => Some(97),
        _ => None,
    }
}

/// The 39-point grid, by bit position (0-based).
pub open spec fn points39(n: u8) -> Option<u16> {
    match n {
        0 => Some(pt('C', 6)),
        1 => Some(pt('B', 6)),
        2 => Some(pt('A', 2)),
        3 => Some(pt('D', 6)),
        4 => Some(pt('E', 2)),
        5 => Some(pt('C', 7)),
        6 => Some(pt('B', 7)),
        7 => Some(pt('A', 3)),
        8 => Some(pt('D', 7)),
        9 => Some(pt('E', 3)),
        10 => Some(pt('C', 5)),
        11 => Some(pt('B', 5)),
        12 => Some(pt('A', 1)),
        13 => Some(pt('D', 5)),
        14 => Some(pt('E', 1)),
        15 => Some(pt('C', 8)),
        16 => Some(pt('B', 8)),
        17 => Some(pt('D', 8)),
        18 => Some(pt('C', 9)),
        19 => Some(pt('B', 9)),
        20 => Some(pt('D', 9)),
        21 => Some(pt('C', 10)),
        22 => Some(pt('B', 10)),
        23 => Some(pt('D', 10)),
        24 => Some(pt('C', 11)),
        25 => Some(pt('B', 11)),
        26 => Some(pt('D', 11)),
        27 => Some(pt('C', 4)),
        28 => Some(pt('B', 4)),
        29 => Some(pt('D', 4)),
        30 => Some(pt('C', 3)),
        31 => Some(pt('B', 3)),
        32 => Some(pt('D', 3)),
        33 => Some(pt('C', 2)),
        34 => Some(pt('B', 2)),
        35 => Some(pt('D', 2)),
        36 => Some(pt('C', 1)),
        37 => Some(pt('B', 1)),
        38 => Some(pt('D', 1)),
        _ => None,
    }
}

fn points39_exec(n: u8) -> (r: Option<u16>)
    ensures
        r == points39(n),
{
    match n {
        0 => Some(70),
        1 => Some(38),
        2 => Some(2),
        3 => Some(102),
        4 => Some(130),
        5 => Some(71),
        6 => Some(39),
        7 => Some(3),
        8 => Some(103),
        9 => Some(131),
        10 => Some(69),
        11 => Some(37),
        12 => Some(1),
        13 => Some(101),
        14 => Some(129),
        15 => Some(72),
        16 => Some(40),
        17 => Some(104),
        18 => Some(73),
        19 => Some(41),
        20 => Some(105),
        21 => Some(74),
        22 => Some(42),
        23 => Some(106),
        24 => Some(75),
        25 => Some(43),
        26 => Some(107),
        27 => Some(68),
        28 => Some(36),
        29 => Some(100),
        30 => Some(67),
        31 => Some(35),
        32 => Some(99),
        33 => Some(66),
        34 => Some(34),
        35 => Some(98),
        36 => Some(65),
        37 => Some(33),
        38 => Some(97),
        _ => None,
    }
}

/// The 135-point grid of Nikon 1 cameras, by point number (1-based).
pub open spec fn points135(n: u8) -> Option<u16> {
    match n {
        1 => Some(pt('E', 8)),
        2 => Some(pt('D', 8)),
        3 => Some(pt('C', 8)),
        4 => Some(pt('B', 8)),
        5 => Some(pt('A', 8)),
        6 => Some(pt('F', 8)),
        7 => Some(pt('G', 8)),
        8 => Some(pt('H', 8)),
        9 => Some(pt('I', 8)),
        10 => Some(pt('E', 9)),
        11 => Some(pt('D', 9)),
        12 => Some(pt('C', 9)),
        13 => Some(pt('B', 9)),
        14 => Some(pt('A', 9)),
        15 => Some(pt('F', 9)),
        16 => Some(pt('G', 9)),
        17 => Some(pt('H', 9)),
        18 => Some(pt('I', 9)),
        19 => Some(pt('E', 7)),
        20 => Some(pt('D', 7)),
        21 => Some(pt('C', 7)),
        22 => Some(pt('B', 7)),
        23 => Some(pt('A', 7)),
        24 => Some(pt('F', 7)),
        25 => Some(pt('G', 7)),
        26 => Some(pt('H', 7)),
        27 => Some(pt('I', 7)),
        28 => Some(pt('E', 10)),
        29 => Some(pt('D', 10)),
        30 => Some(pt('C', 10)),
        31 => Some(pt('B', 10)),
        32 => Some(pt('A', 10)),
        33 => Some(pt('F', 10)),
        34 => Some(pt('G', 10)),
        35 => Some(pt('H', 10)),
        36 => Some(pt('I', 10)),
        37 => Some(pt('E', 11)),
        38 => Some(pt('D', 11)),
        39 => Some(pt('C', 11)),
        40 => Some(pt('B', 11)),
        41 => Some(pt('A', 11)),
        42 => Some(pt('F', 11)),
        43 => Some(pt('G', 11)),
        44 => Some(pt('H', 11)),
        45 => Some(pt('I', 11)),
        46 => Some(pt('E', 12)),
        47 => Some(pt('D', 12)),
        48 => Some(pt('C', 12)),
        49 => Some(pt('B', 12)),
        50 => Some(pt('A', 12)),
        51 => Some(pt('F', 12)),
        52 => Some(pt('G', 12)),
        53 => Some(pt('H', 12)),
        54 => Some(pt('I', 12)),
        55 => Some(pt('E', 13)),
        56 => Some(pt('D', 13)),
        57 => Some(pt('C', 13)),
        58 => Some(pt('B', 13)),
        59 => Some(pt('A', 13)),
        60 => Some(pt('F', 13)),
        61 => Some(pt('G', 13)),
        62 => Some(pt('H', 13)),
        63 => Some(pt('I', 13)),
        64 => Some(pt('E', 14)),
        65 => Some(pt('D', 14)),
        66 => Some(pt('C', 14)),
        67 => Some(pt('B', 14)),
        68 => Some(pt('A', 14)),
        69 => Some(pt('F', 14)),
        70 => Some(pt('G', 14)),
        71 => Some(pt('H', 14)),
        72 => Some(pt('I', 14)),
        73 => Some(pt('E', 15)),
        74 => Some(pt('D', 15)),
        75 => Some(pt('C', 15)),
        76 => Some(pt('B', 15)),
        77 => Some(pt('A', 15)),
        78 => Some(pt('F', 15)),
        79 => Some(pt('G', 15)),
        80 => Some(pt('H', 15)),
        81 => Some(pt('I', 15)),
        82 => Some(pt('E', 6)),
        83 => Some(pt('D', 6)),
        84 => Some(pt('C', 6)),
        85 => Some(pt('B', 6)),
        86 => Some(pt('A', 6)),
        87 => Some(pt('F', 6)),
        88 => Some(pt('G', 6)),
        89 => Some(pt('H', 6)),
        90 => Some(pt('I', 6)),
        91 => Some(pt('E', 5)),
        92 => Some(pt('D', 5)),
        93 => Some(pt('C', 5)),
        94 => Some(pt('B', 5)),
        95 => Some(pt('A', 5)),
        96 => Some(pt('F', 5)),
        97 => Some(pt('G', 5)),
        98 => Some(pt('H', 5)),
        99 => Some(pt('I', 5)),
        100 => Some(pt('E', 4)),
        101 => Some(pt('D', 4)),
        102 => Some(pt('C', 4)),
        103 => Some(pt('B', 4)),
        104 => Some(pt('A', 4)),
        105 => Some(pt('F', 4)),
        106 => Some(pt('G', 4)),
        107 => Some(pt('H', 4)),
        108 => Some(pt('I', 4)),
        109 => Some(pt('E', 3)),
        110 => Some(pt('D', 3)),
        111 => Some(pt('C', 3)),
        112 => Some(pt('B', 3)),
        113 => Some(pt('A', 3)),
        114 => Some(pt('F', 3)),
        115 => Some(pt('G', 3)),
        116 => Some(pt('H', 3)),
        117 => Some(pt('I', 3)),
        118 => Some(pt('E', 2)),
        119 => Some(pt('D', 2)),
        120 => Some(pt('C', 2)),
        121 => Some(pt('B', 2)),
        122 => Some(pt('A', 2)),
        123 => Some(pt('F', 2)),
        124 => Some(pt('G', 2)),
        125 => Some(pt('H', 2)),
        126 => Some(pt('I', 2)),
        127 => Some(pt('E', 1)),
        128 => Some(pt('D', 1)),
        129 => Some(pt('C', 1)),
        130 => Some(pt('B', 1)),
        131 => Some(pt('A', 1)),
        132 => Some(pt('F', 1)),
        133 => Some(pt('G', 1)),
        134 => Some(pt('H', 1)),
        135 => Some(pt('I', 1)),
        _ => None,
    }
}

fn points135_exec(n: u8) -> (r: Option<u16>)
    ensures
        r == points135(n),
{
    match n {
        1 => Some(136),
        2 => Some(104),
        3 => Some(72),
        4 => Some(40),
        5 => Some(8),
        6 => Some(168),
        7 => Some(200),
        8 => Some(232),
        9 => Some(264),
        10 => Some(137),
        11 => Some(105),
        12 => Some(73),
        13 => Some(41),
        14 => Some(9),
        15 => Some(169),
        16 => Some(201),
        17 => Some(233),
        18 => Some(265),
        19 => Some(135),
        20 => Some(103),
        21 => Some(71),
        22 => Some(39),
        23 => Some(7),
        24 => Some(167),
        25 => Some(199),
        26 => Some(231),
        27 => Some(263),
        28 => Some(138),
        29 => Some(106),
        30 => Some(74),
        31 => Some(42),
        32 => Some(10),
        33 => Some(170),
        34 => Some(202),
        35 => Some(234),
        36 => Some(266),
        37 => Some(139),
        38 => Some(107),
        39 => Some(75),
        40 => Some(43),
        41 => Some(11),
        42 => Some(171),
        43 => Some(203),
        44 => Some(235),
        45 => Some(267),
        46 => Some(140),
        47 => Some(108),
        48 => Some(76),
        49 => Some(44),
        50 => Some(12),
        51 => Some(172),
        52 => Some(204),
        53 => Some(236),
        54 => Some(268),
        55 => Some(141),
        56 => Some(109),
        57 => Some(77),
        58 => Some(45),
        59 => Some(13),
        60 => Some(173),
        61 => Some(205),
        62 => Some(237),
        63 => Some(269),
        64 => Some(142),
        65 => Some(110),
        66 => Some(78),
        67 => Some(46),
        68 => Some(14),
        69 => Some(174),
        70 => Some(206),
        71 => Some(238),
        72 => Some(270),
        73 => Some(143),
        74 => Some(111),
        75 => Some(79),
        76 => Some(47),
        77 => Some(15),
        78 => Some(175),
        79 => Some(207),
        80 => Some(239),
        81 => Some(271),
        82 => Some(134),
        83 => Some(102),
        84 => Some(70),
        85 => Some(38),
        86 => Some(6),
        87 => Some(166),
        88 => Some(198),
        89 => Some(230),
        90 => Some(262),
        91 => Some(133),
        92 => Some(101),
        93 => Some(69),
        94 => Some(37),
        95 => Some(5),
        96 => Some(165),
        97 => Some(197),
        98 => Some(229),
        99 => Some(261),
        100 => Some(132),
        101 => Some(100),
        102 => Some(68),
        103 => Some(36),
        104 => Some(4),
        105 => Some(164),
        106 => Some(196),
        107 => Some(228),
        108 => Some(260),
        109 => Some(131),
        110 => Some(99),
        111 => Some(67),
        112 => Some(35),
        113 => Some(3),
        114 => Some(163),
        115 => Some(195),
        116 => Some(227),
        117 => Some(259),
        118 => Some(130),
        119 => Some(98),
        120 => Some(66),
        121 => Some(34),
        122 => Some(2),
        123 => Some(162),
        124 => Some(194),
        125 => Some(226),
        126 => Some(258),
        127 => Some(129),
        128 => Some(97),
        129 => Some(65),
        130 => Some(33),
        131 => Some(1),
        132 => Some(161),
        133 => Some(193),
        134 => Some(225),
        135 => Some(257),
        _ => None,
    }
}

/// The 153-point grid as PrimaryAFPoint numbers it (1-based).
pub open spec fn points153_primary(n: u8) -> Option<u16> {
    match n {
        1 => Some(pt('E', 9)),
        2 => Some(pt('D', 9)),
        3 => Some(pt('C', 9)),
        4 => Some(pt('B', 9)),
        5 => Some(pt('A', 9)),
        6 => Some(pt('F', 9)),
        7 => Some(pt('G', 9)),
        8 => Some(pt('H', 9)),
        9 => Some(pt('I', 9)),
        10 => Some(pt('E', 10)),
        11 => Some(pt('D', 10)),
        12 => Some(pt('C', 10)),
        13 => Some(pt('B', 10)),
        14 => Some(pt('A', 10)),
        15 => Some(pt('F', 10)),
        16 => Some(pt('G', 10)),
        17 => Some(pt('H', 10)),
        18 => Some(pt('I', 10)),
        19 => Some(pt('E', 11)),
        20 => Some(pt('D', 11)),
        21 => Some(pt('C', 11)),
        22 => Some(pt('B', 11)),
        23 => Some(pt('A', 11)),
        24 => Some(pt('F', 11)),
        25 => Some(pt('G', 11)),
        26 => Some(pt('H', 11)),
        27 => Some(pt('I', 11)),
        28 => Some(pt('E', 8)),
        29 => Some(pt('D', 8)),
        30 => Some(pt('C', 8)),
        31 => Some(pt('B', 8)),
        32 => Some(pt('A', 8)),
        33 => Some(pt('F', 8)),
        34 => Some(pt('G', 8)),
        35 => Some(pt('H', 8)),
        36 => Some(pt('I', 8)),
        37 => Some(pt('E', 7)),
        38 => Some(pt('D', 7)),
        39 => Some(pt('C', 7)),
        40 => Some(pt('B', 7)),
        41 => Some(pt('A', 7)),
        42 => Some(pt('F', 7)),
        43 => Some(pt('G', 7)),
        44 => Some(pt('H', 7)),
        45 => Some(pt('I', 7)),
        46 => Some(pt('E', 12)),
        47 => Some(pt('D', 12)),
        48 => Some(pt('C', 12)),
        49 => Some(pt('B', 12)),
        50 => Some(pt('A', 12)),
        51 => Some(pt('F', 12)),
        52 => Some(pt('G', 12)),
        53 => Some(pt('H', 12)),
        54 => Some(pt('I', 12)),
        55 => Some(pt('E', 13)),
        56 => Some(pt('D', 13)),
        57 => Some(pt('C', 13)),
        58 => Some(pt('B', 13)),
        59 => Some(pt('A', 13)),
        60 => Some(pt('F', 13)),
        61 => Some(pt('G', 13)),
        62 => Some(pt('H', 13)),
        63 => Some(pt('I', 13)),
        64 => Some(pt('E', 14)),
        65 => Some(pt('D', 14)),
        66 => Some(pt('C', 14)),
        67 => Some(pt('B', 14)),
        68 => Some(pt('A', 14)),
        69 => Some(pt('F', 14)),
        70 => Some(pt('G', 14)),
        71 => Some(pt('H', 14)),
        72 => Some(pt('I', 14)),
        73 => Some(pt('E', 15)),
        74 => Some(pt('D', 15)),
        75 => Some(pt('C', 15)),
        76 => Some(pt('B', 15)),
        77 => Some(pt('A', 15)),
        78 => Some(pt('F', 15)),
        79 => Some(pt('G', 15)),
        80 => Some(pt('H', 15)),
        81 => Some(pt('I', 15)),
        82 => Some(pt('E', 16)),
        83 => Some(pt('D', 16)),
        84 => Some(pt('C', 16)),
        85 => Some(pt('B', 16)),
        86 => Some(pt('A', 16)),
        87 => Some(pt('F', 16)),
        88 => Some(pt('G', 16)),
        89 => Some(pt('H', 16)),
        90 => Some(pt('I', 16)),
        91 => Some(pt('E', 17)),
        92 => Some(pt('D', 17)),
        93 => Some(pt('C', 17)),
        94 => Some(pt('B', 17)),
        95 => Some(pt('A', 17)),
        96 => Some(pt('F', 17)),
        97 => Some(pt('G', 17)),
        98 => Some(pt('H', 17)),
        99 => Some(pt('I', 17)),
        100 => Some(pt('E', 6)),
        101 => Some(pt('D', 6)),
        102 => Some(pt('C', 6)),
        103 => Some(pt('B', 6)),
        104 => Some(pt('A', 6)),
        105 => Some(pt('F', 6)),
        106 => Some(pt('G', 6)),
        107 => Some(pt('H', 6)),
        108 => Some(pt('I', 6)),
        109 => Some(pt('E', 5)),
        110 => Some(pt('D', 5)),
        111 => Some(pt('C', 5)),
        112 => Some(pt('B', 5)),
        113 => Some(pt('A', 5)),
        114 => Some(pt('F', 5)),
        115 => Some(pt('G', 5)),
        116 => Some(pt('H', 5)),
        117 => Some(pt('I', 5)),
        118 => Some(pt('E', 4)),
        119 => Some(pt('D', 4)),
        120 => Some(pt('C', 4)),
        121 => Some(pt('B', 4)),
        122 => Some(pt('A', 4)),
        123 => Some(pt('F', 4)),
        124 => Some(pt('G', 4)),
        125 => Some(pt('H', 4)),
        126 => Some(pt('I', 4)),
        127 => Some(pt('E', 3)),
        128 => Some(pt('D', 3)),
        129 => Some(pt('C', 3)),
        130 => Some(pt('B', 3)),
        131 => Some(pt('A', 3)),
        132 => Some(pt('F', 3)),
        133 => Some(pt('G', 3)),
        134 => Some(pt('H', 3)),
        135 => Some(pt('I', 3)),
        136 => Some(pt('E', 2)),
        137 => Some(pt('D', 2)),
        138 => Some(pt('C', 2)),
        139 => Some(pt('B', 2)),
        140 => Some(pt('A', 2)),
        141 => Some(pt('F', 2)),
        142 => Some(pt('G', 2)),
        143 => Some(pt('H', 2)),
        144 => Some(pt('I', 2)),
        145 => Some(pt('E', 1)),
        146 => Some(pt('D', 1)),
        147 => Some(pt('C', 1)),
        148 => Some(pt('B', 1)),
        149 => Some(pt('A', 1)),
        150 => Some(pt('F', 1)),
        151 => Some(pt('G', 1)),
        152 => Some(pt('H', 1)),
        153 => Some(pt('I', 1)),
        _ => None,
    }
}

fn points153_primary_exec(n: u8) -> (r: Option<u16>)
    ensures
        r == points153_primary(n),
{
    match n {
        1 => Some(137),
        2 => Some(105),
        3 => Some(73),
        4 => Some(41),
        5 => Some(9),
        6 => Some(169),
        7 => Some(201),
        8 => Some(233),
        9 => Some(265),
        10 => Some(138),
        11 => Some(106),
        12 => Some(74),
        13 => Some(42),
        14 => Some(10),
        15 => Some(170),
        16 => Some(202),
        17 => Some(234),
        18 => Some(266),
        19 => Some(139),
        20 => Some(107),
        21 => Some(75),
        22 => Some(43),
        23 => Some(11),
        24 => Some(171),
        25 => Some(203),
        26 => Some(235),
        27 => Some(267),
        28 => Some(136),
        29 => Some(104),
        30 => Some(72),
        31 => Some(40),
        32 => Some(8),
        33 => Some(168),
        34 => Some(200),
        35 => Some(232),
        36 => Some(264),
        37 => Some(135),
        38 => Some(103),
        39 => Some(71),
        40 => Some(39),
        41 => Some(7),
        42 => Some(167),
        43 => Some(199),
        44 => Some(231),
        45 => Some(263),
        46 => Some(140),
        47 => Some(108),
        48 => Some(76),
        49 => Some(44),
        50 => Some(12),
        51 => Some(172),
        52 => Some(204),
        53 => Some(236),
        54 => Some(268),
        55 => Some(141),
        56 => Some(109),
        57 => Some(77),
        58 => Some(45),
        59 => Some(13),
        60 => Some(173),
        61 => Some(205),
        62 => Some(237),
        63 => Some(269),
        64 => Some(142),
        65 => Some(110),
        66 => Some(78),
        67 => Some(46),
        68 => Some(14),
        69 => Some(174),
        70 => Some(206),
        71 => Some(238),
        72 => Some(270),
        73 => Some(143),
        74 => Some(111),
        75 => Some(79),
        76 => Some(47),
        77 => Some(15),
        78 => Some(175),
        79 => Some(207),
        80 => Some(239),
        81 => Some(271),
        82 => Some(144),
        83 => Some(112),
        84 => Some(80),
        85 => Some(48),
        86 => Some(16),
        87 => Some(176),
        88 => Some(208),
        89 => Some(240),
        90 => Some(272),
        91 => Some(145),
        92 => Some(113),
        93 => Some(81),
        94 => Some(49),
        95 => Some(17),
        96 => Some(177),
        97 => Some(209),
        98 => Some(241),
        99 => Some(273),
        100 => Some(134),
        101 => Some(102),
        102 => Some(70),
        103 => Some(38),
        104 => Some(6),
        105 => Some(166),
        106 => Some(198),
        107 => Some(230),
        108 => Some(262),
        109 => Some(133),
        110 => Some(101),
        111 => Some(69),
        112 => Some(37),
        113 => Some(5),
        114 => Some(165),
        115 => Some(197),
        116 => Some(229),
        117 => Some(261),
        118 => Some(132),
        119 => Some(100),
        120 => Some(68),
        121 => Some(36),
        122 => Some(4),
        123 => Some(164),
        124 => Some(196),
        125 => Some(228),
        126 => Some(260),
        127 => Some(131),
        128 => Some(99),
        129 => Some(67),
        130 => Some(35),
        131 => Some(3),
        132 => Some(163),
        133 => Some(195),
        134 => Some(227),
        135 => Some(259),
        136 => Some(130),
        137 => Some(98),
        138 => Some(66),
        139 => Some(34),
        140 => Some(2),
        141 => Some(162),
        142 => Some(194),
        143 => Some(226),
        144 => Some(258),
        145 => Some(129),
        146 => Some(97),
        147 => Some(65),
        148 => Some(33),
        149 => Some(1),
        150 => Some(161),
        151 => Some(193),
        152 => Some(225),
        153 => Some(257),
        _ => None,
    }
}

/// The 153-point grid as the AFPointsUsed bitmask numbers it (1-based).
pub open spec fn points153_used(n: u8) -> Option<u16> {
    match n {
        1 => Some(pt('E', 9)),
        2 => Some(pt('D', 9)),
        3 => Some(pt('C', 9)),
        4 => Some(pt('B', 9)),
        5 => Some(pt('A', 9)),
        6 => Some(pt('F', 9)),
        7 => Some(pt('G', 9)),
        8 => Some(pt('H', 9)),
        9 => Some(pt('I', 9)),
        10 => Some(pt('E', 10)),
        11 => Some(pt('D', 10)),
        12 => Some(pt('C', 10)),
        13 => Some(pt('B', 10)),
        14 => Some(pt('A', 10)),
        15 => Some(pt('F', 10)),
        16 => Some(pt('G', 10)),
        17 => Some(pt('H', 10)),
        18 => Some(pt('I', 10)),
        19 => Some(pt('E', 8)),
        20 => Some(pt('D', 8)),
        21 => Some(pt('C', 8)),
        22 => Some(pt('B', 8)),
        23 => Some(pt('A', 8)),
        24 => Some(pt('F', 8)),
        25 => Some(pt('G', 8)),
        26 => Some(pt('H', 8)),
        27 => Some(pt('I', 8)),
        28 => Some(pt('E', 11)),
        29 => Some(pt('D', 11)),
        30 => Some(pt('C', 11)),
        31 => Some(pt('B', 11)),
        32 => Some(pt('A', 11)),
        33 => Some(pt('F', 11)),
        34 => Some(pt('G', 11)),
        35 => Some(pt('H', 11)),
        36 => Some(pt('I', 11)),
        37 => Some(pt('E', 7)),
        38 => Some(pt('D', 7)),
        39 => Some(pt('C', 7)),
        40 => Some(pt('B', 7)),
        41 => Some(pt('A', 7)),
        42 => Some(pt('F', 7)),
        43 => Some(pt('G', 7)),
        44 => Some(pt('H', 7)),
        45 => Some(pt('I', 7)),
        46 => Some(pt('E', 12)),
        47 => Some(pt('D', 12)),
        48 => Some(pt('C', 12)),
        49 => Some(pt('B', 12)),
        50 => Some(pt('A', 12)),
        51 => Some(pt('F', 12)),
        52 => Some(pt('G', 12)),
        53 => Some(pt('H', 12)),
        54 => Some(pt('I', 12)),
        55 => Some(pt('E', 6)),
        56 => Some(pt('D', 6)),
        57 => Some(pt('C', 6)),
        58 => Some(pt('B', 6)),
        59 => Some(pt('A', 6)),
        60 => Some(pt('F', 6)),
        61 => Some(pt('G', 6)),
        62 => Some(pt('H', 6)),
        63 => Some(pt('I', 6)),
        64 => Some(pt('E', 13)),
        65 => Some(pt('D', 13)),
        66 => Some(pt('C', 13)),
        67 => Some(pt('B', 13)),
        68 => Some(pt('A', 13)),
        69 => Some(pt('F', 13)),
        70 => Some(pt('G', 13)),
        71 => Some(pt('H', 13)),
        72 => Some(pt('I', 13)),
        73 => Some(pt('E', 14)),
        74 => Some(pt('D', 14)),
        75 => Some(pt('C', 14)),
        76 => Some(pt('B', 14)),
        77 => Some(pt('A', 14)),
        78 => Some(pt('F', 14)),
        79 => Some(pt('G', 14)),
        80 => Some(pt('H', 14)),
        81 => Some(pt('I', 14)),
        82 => Some(pt('E', 5)),
        83 => Some(pt('D', 5)),
        84 => Some(pt('C', 5)),
        85 => Some(pt('B', 5)),
        86 => Some(pt('A', 5)),
        87 => Some(pt('F', 5)),
        88 => Some(pt('G', 5)),
        89 => Some(pt('H', 5)),
        90 => Some(pt('I', 5)),
        91 => Some(pt('E', 15)),
        92 => Some(pt('D', 15)),
        93 => Some(pt('C', 15)),
        94 => Some(pt('B', 15)),
        95 => Some(pt('A', 15)),
        96 => Some(pt('F', 15)),
        97 => Some(pt('G', 15)),
        98 => Some(pt('H', 15)),
        99 => Some(pt('I', 15)),
        100 => Some(pt('E', 4)),
        101 => Some(pt('D', 4)),
        102 => Some(pt('C', 4)),
        103 => Some(pt('B', 4)),
        104 => Some(pt('A', 4)),
        105 => Some(pt('F', 4)),
        106 => Some(pt('G', 4)),
        107 => Some(pt('H', 4)),
        108 => Some(pt('I', 4)),
        109 => Some(pt('E', 16)),
        110 => Some(pt('D', 16)),
        111 => Some(pt('C', 16)),
        112 => Some(pt('B', 16)),
        113 => Some(pt('A', 16)),
        114 => Some(pt('F', 16)),
        115 => Some(pt('G', 16)),
        116 => Some(pt('H', 16)),
        117 => Some(pt('I', 16)),
        118 => Some(pt('E', 3)),
        119 => Some(pt('D', 3)),
        120 => Some(pt('C', 3)),
        121 => Some(pt('B', 3)),
        122 => Some(pt('A', 3)),
        123 => Some(pt('F', 3)),
        124 => Some(pt('G', 3)),
        125 => Some(pt('H', 3)),
        126 => Some(pt('I', 3)),
        127 => Some(pt('E', 17)),
        128 => Some(pt('D', 17)),
        129 => Some(pt('C', 17)),
        130 => Some(pt('B', 17)),
        131 => Some(pt('A', 17)),
        132 => Some(pt('F', 17)),
        133 => Some(pt('G', 17)),
        134 => Some(pt('H', 17)),
        135 => Some(pt('I', 17)),
        136 => Some(pt('E', 2)),
        137 => Some(pt('D', 2)),
        138 => Some(pt('C', 2)),
        139 => Some(pt('B', 2)),
        140 => Some(pt('A', 2)),
        141 => Some(pt('F', 2)),
        142 => Some(pt('G', 2)),
        143 => Some(pt('H', 2)),
        144 => Some(pt('I', 2)),
        145 => Some(pt('E', 1)),
        146 => Some(pt('D', 1)),
        147 => Some(pt('C', 1)),
        148 => Some(pt('B', 1)),
        149 => Some(pt('A', 1)),
        150 => Some(pt('F', 1)),
        151 => Some(pt('G', 1)),
        152 => Some(pt('H', 1)),
        153 => Some(pt('I', 1)),
        _ => None,
    }
}

fn points153_used_exec(n: u8) -> (r: Option<u16>)
    ensures
        r == points153_used(n),
{
    match n {
        1 => Some(137),
        2 => Some(105),
        3 => Some(73),
        4 => Some(41),
        5 => Some(9),
        6 => Some(169),
        7 => Some(201),
        8 => Some(233),
        9 => Some(265),
        10 => Some(138),
        11 => Some(106),
        12 => Some(74),
        13 => Some(42),
        14 => Some(10),
        15 => Some(170),
        16 => Some(202),
        17 => Some(234),
        18 => Some(266),
        19 => Some(136),
        20 => Some(104),
        21 => Some(72),
        22 => Some(40),
        23 => Some(8),
        24 => Some(168),
        25 => Some(200),
        26 => Some(232),
        27 => Some(264),
        28 => Some(139),
        29 => Some(107),
        30 => Some(75),
        31 => Some(43),
        32 => Some(11),
        33 => Some(171),
        34 => Some(203),
        35 => Some(235),
        36 => Some(267),
        37 => Some(135),
        38 => Some(103),
        39 => Some(71),
        40 => Some(39),
        41 => Some(7),
        42 => Some(167),
        43 => Some(199),
        44 => Some(231),
        45 => Some(263),
        46 => Some(140),
        47 => Some(108),
        48 => Some(76),
        49 => Some(44),
        50 => Some(12),
        51 => Some(172),
        52 => Some(204),
        53 => Some(236),
        54 => Some(268),
        55 => Some(134),
        56 => Some(102),
        57 => Some(70),
        58 => Some(38),
        59 => Some(6),
        60 => Some(166),
        61 => Some(198),
        62 => Some(230),
        63 => Some(262),
        64 => Some(141),
        65 => Some(109),
        66 => Some(77),
        67 => Some(45),
        68 => Some(13),
        69 => Some(173),
        70 => Some(205),
        71 => Some(237),
        72 => Some(269),
        73 => Some(142),
        74 => Some(110),
        75 => Some(78),
        76 => Some(46),
        77 => Some(14),
        78 => Some(174),
        79 => Some(206),
        80 => Some(238),
        81 => Some(270),
        82 => Some(133),
        83 => Some(101),
        84 => Some(69),
        85 => Some(37),
        86 => Some(5),
        87 => Some(165),
        88 => Some(197),
        89 => Some(229),
        90 => Some(261),
        91 => Some(143),
        92 => Some(111),
        93 => Some(79),
        94 => Some(47),
        95 => Some(15),
        96 => Some(175),
        97 => Some(207),
        98 => Some(239),
        99 => Some(271),
        100 => Some(132),
        101 => Some(100),
        102 => Some(68),
        103 => Some(36),
        104 => Some(4),
        105 => Some(164),
        106 => Some(196),
        107 => Some(228),
        108 => Some(260),
        109 => Some(144),
        110 => Some(112),
        111 => Some(80),
        112 => Some(48),
        113 => Some(16),
        114 => Some(176),
        115 => Some(208),
        116 => Some(240),
        117 => Some(272),
        118 => Some(131),
        119 => Some(99),
        120 => Some(67),
        121 => Some(35),
        122 => Some(3),
        123 => Some(163),
        124 => Some(195),
        125 => Some(227),
        126 => Some(259),
        127 => Some(145),
        128 => Some(113),
        129 => Some(81),
        130 => Some(49),
        131 => Some(17),
        132 => Some(177),
        133 => Some(209),
        134 => Some(241),
        135 => Some(273),
        136 => Some(130),
        137 => Some(98),
        138 => Some(66),
        139 => Some(34),
        140 => Some(2),
        141 => Some(162),
        142 => Some(194),
        143 => Some(226),
        144 => Some(258),
        145 => Some(129),
        146 => Some(97),
        147 => Some(65),
        148 => Some(33),
        149 => Some(1),
        150 => Some(161),
        151 => Some(193),
        152 => Some(225),
        153 => Some(257),
        _ => None,
    }
}

/// The 105-point grid of the D6, by point number (1-based).
pub open spec fn points105(n: u8) -> Option<u16> {
    match n {
        1 => Some(pt('D', 8)),
        2 => Some(pt('C', 8)),
        3 => Some(pt('B', 8)),
        4 => Some(pt('A', 8)),
        5 => Some(pt('E', 8)),
        6 => Some(pt('F', 8)),
        7 => Some(pt('G', 8)),
        8 => Some(pt('D', 9)),
        9 => Some(pt('C', 9)),
        10 => Some(pt('B', 9)),
        11 => Some(pt('A', 9)),
        12 => Some(pt('E', 9)),
        13 => Some(pt('F', 9)),
        14 => Some(pt('G', 9)),
        15 => Some(pt('D', 10)),
        16 => Some(pt('C', 10)),
        17 => Some(pt('B', 10)),
        18 => Some(pt('A', 10)),
        19 => Some(pt('E', 10)),
        20 => Some(pt('F', 10)),
        21 => Some(pt('G', 10)),
        22 => Some(pt('D', 7)),
        23 => Some(pt('C', 7)),
        24 => Some(pt('B', 7)),
        25 => Some(pt('A', 7)),
        26 => Some(pt('E', 7)),
        27 => Some(pt('F', 7)),
        28 => Some(pt('G', 7)),
        29 => Some(pt('D', 6)),
        30 => Some(pt('C', 6)),
        31 => Some(pt('B', 6)),
        32 => Some(pt('A', 6)),
        33 => Some(pt('E', 6)),
        34 => Some(pt('F', 6)),
        35 => Some(pt('G', 6)),
        36 => Some(pt('D', 11)),
        37 => Some(pt('C', 11)),
        38 => Some(pt('B', 11)),
        39 => Some(pt('A', 11)),
        40 => Some(pt('E', 11)),
        41 => Some(pt('F', 11)),
        42 => Some(pt('G', 11)),
        43 => Some(pt('D', 12)),
        44 => Some(pt('C', 12)),
        45 => Some(pt('B', 12)),
        46 => Some(pt('A', 12)),
        47 => Some(pt('E', 12)),
        48 => Some(pt('F', 12)),
        49 => Some(pt('G', 12)),
        50 => Some(pt('D', 13)),
        51 => Some(pt('C', 13)),
        52 => Some(pt('B', 13)),
        53 => Some(pt('A', 13)),
        54 => Some(pt('E', 13)),
        55 => Some(pt('F', 13)),
        56 => Some(pt('G', 13)),
        57 => Some(pt('D', 14)),
        58 => Some(pt('C', 14)),
        59 => Some(pt('B', 14)),
        60 => Some(pt('A', 14)),
        61 => Some(pt('E', 14)),
        62 => Some(pt('F', 14)),
        63 => Some(pt('G', 14)),
        64 => Some(pt('D', 15)),
        65 => Some(pt('C', 15)),
        66 => Some(pt('B', 15)),
        67 => Some(pt('A', 15)),
        68 => Some(pt('E', 15)),
        69 => Some(pt('F', 15)),
        70 => Some(pt('G', 15)),
        71 => Some(pt('D', 5)),
        72 => Some(pt('C', 5)),
        73 => Some(pt('B', 5)),
        74 => Some(pt('A', 5)),
        75 => Some(pt('E', 5)),
        76 => Some(pt('F', 5)),
        77 => Some(pt('G', 5)),
        78 => Some(pt('D', 4)),
        79 => Some(pt('C', 4)),
        80 => Some(pt('B', 4)),
        81 => Some(pt('A', 4)),
        82 => Some(pt('E', 4)),
        83 => Some(pt('F', 4)),
        84 => Some(pt('G', 4)),
        85 => Some(pt('D', 3)),
        86 => Some(pt('C', 3)),
        87 => Some(pt('B', 3)),
        88 => Some(pt('A', 3)),
        89 => Some(pt('E', 3)),
        90 => Some(pt('F', 3)),
        91 => Some(pt('G', 3)),
        92 => Some(pt('D', 2)),
        93 => Some(pt('C', 2)),
        94 => Some(pt('B', 2)),
        95 => Some(pt('A', 2)),
        96 => Some(pt('E', 2)),
        97 => Some(pt('F', 2)),
        98 => Some(pt('G', 2)),
        99 => Some(pt('D', 1)),
        100 => Some(pt('C', 1)),
        101 => Some(pt('B', 1)),
        102 => Some(pt('A', 1)),
        103 => Some(pt('E', 1)),
        104 => Some(pt('F', 1)),
        105 => Some(pt('G', 1)),
        _ => None,
    }
}

fn points105_exec(n: u8) -> (r: Option<u16>)
    ensures
        r == points105(n),
{
    match n {
        1 => Some(104),
        2 => Some(72),
        3 => Some(40),
        4 => Some(8),
        5 => Some(136),
        6 => Some(168),
        7 => Some(200),
        8 => Some(105),
        9 => Some(73),
        10 => Some(41),
        11 => Some(9),
        12 => Some(137),
        13 => Some(169),
        14 => Some(201),
        15 => Some(106),
        16 => Some(74),
        17 => Some(42),
        18 => Some(10),
        19 => Some(138),
        20 => Some(170),
        21 => Some(202),
        22 => Some(103),
        23 => Some(71),
        24 => Some(39),
        25 => Some(7),
        26 => Some(135),
        27 => Some(167),
        28 => Some(199),
        29 => Some(102),
        30 => Some(70),
        31 => Some(38),
        32 => Some(6),
        33 => Some(134),
        34 => Some(166),
        35 => Some(198),
        36 => Some(107),
        37 => Some(75),
        38 => Some(43),
        39 => Some(11),
        40 => Some(139),
        41 => Some(171),
        42 => Some(203),
        43 => Some(108),
        44 => Some(76),
        45 => Some(44),
        46 => Some(12),
        47 => Some(140),
        48 => Some(172),
        49 => Some(204),
        50 => Some(109),
        51 => Some(77),
        52 => Some(45),
        53 => Some(13),
        54 => Some(141),
        55 => Some(173),
        56 => Some(205),
        57 => Some(110),
        58 => Some(78),
        59 => Some(46),
        60 => Some(14),
        61 => Some(142),
        62 => Some(174),
        63 => Some(206),
        64 => Some(111),
        65 => Some(79),
        66 => Some(47),
        67 => Some(15),
        68 => Some(143),
        69 => Some(175),
        70 => Some(207),
        71 => Some(101),
        72 => Some(69),
        73 => Some(37),
        74 => Some(5),
        75 => Some(133),
        76 => Some(165),
        77 => Some(197),
        78 => Some(100),
        79 => Some(68),
        80 => Some(36),
        81 => Some(4),
        82 => Some(132),
        83 => Some(164),
        84 => Some(196),
        85 => Some(99),
        86 => Some(67),
        87 => Some(35),
        88 => Some(3),
        89 => Some(131),
        90 => Some(163),
        91 => Some(195),
        92 => Some(98),
        93 => Some(66),
        94 => Some(34),
        95 => Some(2),
        96 => Some(130),
        97 => Some(162),
        98 => Some(194),
        99 => Some(97),
        100 => Some(65),
        101 => Some(33),
        102 => Some(1),
        103 => Some(129),
        104 => Some(161),
        105 => Some(193),
        _ => None,
    }
}

/// The 81-point grid of Z cameras, by point number (1-based).
pub open spec fn points81(n: u8) -> Option<u16> {
    match n {
        1 => Some(pt('E', 5)),
        2 => Some(pt('D', 5)),
        3 => Some(pt('C', 5)),
        4 => Some(pt('B', 5)),
        5 => Some(pt('A', 5)),
        6 => Some(pt('F', 5)),
        7 => Some(pt('G', 5)),
        8 => Some(pt('H', 5)),
        9 => Some(pt('I', 5)),
        10 => Some(pt('E', 6)),
        11 => Some(pt('D', 6)),
        12 => Some(pt('C', 6)),
        13 => Some(pt('B', 6)),
        14 => Some(pt('A', 6)),
        15 => Some(pt('F', 6)),
        16 => Some(pt('G', 6)),
        17 => Some(pt('H', 6)),
        18 => Some(pt('I', 6)),
        19 => Some(pt('E', 4)),
        20 => Some(pt('D', 4)),
        21 => Some(pt('C', 4)),
        22 => Some(pt('B', 4)),
        23 => Some(pt('A', 4)),
        24 => Some(pt('F', 4)),
        25 => Some(pt('G', 4)),
        26 => Some(pt('H', 4)),
        27 => Some(pt('I', 4)),
        28 => Some(pt('E', 7)),
        29 => Some(pt('D', 7)),
        30 => Some(pt('C', 7)),
        31 => Some(pt('B', 7)),
        32 => Some(pt('A', 7)),
        33 => Some(pt('F', 7)),
        34 => Some(pt('G', 7)),
        35 => Some(pt('H', 7)),
        36 => Some(pt('I', 7)),
        37 => Some(pt('E', 3)),
        38 => Some(pt('D', 3)),
        39 => Some(pt('C', 3)),
        40 => Some(pt('B', 3)),
        41 => Some(pt('A', 3)),
        42 => Some(pt('F', 3)),
        43 => Some(pt('G', 3)),
        44 => Some(pt('H', 3)),
        45 => Some(pt('I', 3)),
        46 => Some(pt('E', 8)),
        47 => Some(pt('D', 8)),
        48 => Some(pt('C', 8)),
        49 => Some(pt('B', 8)),
        50 => Some(pt('A', 8)),
        51 => Some(pt('F', 8)),
        52 => Some(pt('G', 8)),
        53 => Some(pt('H', 8)),
        54 => Some(pt('I', 8)),
        55 => Some(pt('E', 2)),
        56 => Some(pt('D', 2)),
        57 => Some(pt('C', 2)),
        58 => Some(pt('B', 2)),
        59 => Some(pt('A', 2)),
        60 => Some(pt('F', 2)),
        61 => Some(pt('G', 2)),
        62 => Some(pt('H', 2)),
        63 => Some(pt('I', 2)),
        64 => Some(pt('E', 9)),
        65 => Some(pt('D', 9)),
        66 => Some(pt('C', 9)),
        67 => Some(pt('B', 9)),
        68 => Some(pt('A', 9)),
        69 => Some(pt('F', 9)),
        70 => Some(pt('G', 9)),
        71 => Some(pt('H', 9)),
        72 => Some(pt('I', 9)),
        73 => Some(pt('E', 1)),
        74 => Some(pt('D', 1)),
        75 => Some(pt('C', 1)),
        76 => Some(pt('B', 1)),
        77 => Some(pt('A', 1)),
        78 => Some(pt('F', 1)),
        79 => Some(pt('G', 1)),
        80 => Some(pt('H', 1)),
        81 => Some(pt('I', 1)),
        _ => None,
    }
}

fn points81_exec(n: u8) -> (r: Option<u16>)
    ensures
        r == points81(n),
{
    match n {
        1 => Some(133),
        2 => Some(101),
        3 => Some(69),
        4 => Some(37),
        5 => Some(5),
        6 => Some(165),
        7 => Some(197),
        8 => Some(229),
        9 => Some(261),
        10 => Some(134),
        11 => Some(102),
        12 => Some(70),
        13 => Some(38),
        14 => Some(6),
        15 => Some(166),
        16 => Some(198),
        17 => Some(230),
        18 => Some(262),
        19 => Some(132),
        20 => Some(100),
        21 => Some(68),
        22 => Some(36),
        23 => Some(4),
        24 => Some(164),
        25 => Some(196),
        26 => Some(228),
        27 => Some(260),
        28 => Some(135),
        29 => Some(103),
        30 => Some(71),
        31 => Some(39),
        32 => Some(7),
        33 => Some(167),
        34 => Some(199),
        35 => Some(231),
        36 => Some(263),
        37 => Some(131),
        38 => Some(99),
        39 => Some(67),
        40 => Some(35),
        41 => Some(3),
        42 => Some(163),
        43 => Some(195),
        44 => Some(227),
        45 => Some(259),
        46 => Some(136),
        47 => Some(104),
        48 => Some(72),
        49 => Some(40),
        50 => Some(8),
        51 => Some(168),
        52 => Some(200),
        53 => Some(232),
        54 => Some(264),
        55 => Some(130),
        56 => Some(98),
        57 => Some(66),
        58 => Some(34),
        59 => Some(2),
        60 => Some(162),
        61 => Some(194),
        62 => Some(226),
        63 => Some(258),
        64 => Some(137),
        65 => Some(105),
        66 => Some(73),
        67 => Some(41),
        68 => Some(9),
        69 => Some(169),
        70 => Some(201),
        71 => Some(233),
        72 => Some(265),
        73 => Some(129),
        74 => Some(97),
        75 => Some(65),
        76 => Some(33),
        77 => Some(1),
        78 => Some(161),
        79 => Some(193),
        80 => Some(225),
        81 => Some(257),
        _ => None,
    }
}

// ---------------------------------------------------------------------------
// Lists of grid points
// ---------------------------------------------------------------------------

/// How many times `c` occurs in `s`.
pub open spec fn occurrences(s: Seq<u16>, c: u16) -> nat
    decreases s.len(),
{
    if s.len() == 0 {
        0
    } else {
        occurrences(s.drop_last(), c) + if s.last() == c {
            1nat
        } else {
            0nat
        }
    }
}

/// `n` copies of `c`.
pub open spec fn copies(c: u16, n: nat) -> Seq<u16> {
    Seq::new(n, |i: int| c)
}

/// The codes below `k` of `s`, in ascending order, each as often as it occurs.
pub open spec fn ascending(s: Seq<u16>, k: nat) -> Seq<u16>
    decreases k,
{
    if k == 0 {
        seq![]
    } else {
        ascending(s, (k - 1) as nat) + copies((k - 1) as u16, occurrences(s, (k - 1) as u16))
    }
}

/// Occurrences add up over a concatenation.
proof fn lemma_occurrences_add(a: Seq<u16>, b: Seq<u16>, c: u16)
    ensures
        occurrences(a + b, c) == occurrences(a, c) + occurrences(b, c),
    decreases b.len(),
{
    if b.len() == 0 {
        assert(a + b =~= a);
    } else {
        assert((a + b).drop_last() =~= a + b.drop_last());
        lemma_occurrences_add(a, b.drop_last(), c);
    }
}

/// Copies of one code hold that code that many times and no other.
proof fn lemma_occurrences_copies(x: u16, n: nat, c: u16)
    ensures
        occurrences(copies(x, n), c) == (if x == c { n } else { 0 }),
    decreases n,
{
    if n > 0 {
        assert(copies(x, n).drop_last() =~= copies(x, (n - 1) as nat));
        lemma_occurrences_copies(x, (n - 1) as nat, c);
    }
}

/// The AF points are listed in ascending order (repeats side by side), each
/// point below `k` as many times as it is selected, and no other point.
pub proof fn law_ascending_is_sorted_permutation(s: Seq<u16>, k: nat)
    requires
        k <= 0x10000,
    ensures
        forall|i: int, j: int|
            0 <= i < j < ascending(s, k).len() ==> ascending(s, k)[i] <= ascending(s, k)[j],
        forall|c: u16| (c as nat) < k ==> occurrences(ascending(s, k), c) == occurrences(s, c),
        forall|i: int| 0 <= i < ascending(s, k).len() ==> (ascending(s, k)[i] as nat) < k,
    decreases k,
{
    if k > 0 {
        let prev = ascending(s, (k - 1) as nat);
        law_ascending_is_sorted_permutation(s, (k - 1) as nat);
        let top = (k - 1) as u16;
        let rep = copies(top, occurrences(s, top));
        let a = prev + rep;
        assert(ascending(s, k) == a);
        assert forall|i: int, j: int| 0 <= i < j < a.len() implies a[i] <= a[j] by {
            if j < prev.len() {
                assert(a[i] == prev[i] && a[j] == prev[j]);
            } else if i < prev.len() {
                assert(a[i] == prev[i]);
                assert(a[j] == top);
            } else {
                assert(a[i] == top && a[j] == top);
            }
        }
        assert forall|c: u16| (c as nat) < k implies occurrences(a, c) == occurrences(s, c) by {
            lemma_occurrences_add(prev, rep, c);
            lemma_occurrences_copies(top, occurrences(s, top), c);
            if c != top {
                assert((c as nat) < k - 1);
            } else {
                assert forall|i: int| 0 <= i < prev.len() implies prev[i] != c by {}
                lemma_no_occurrences(prev, c);
            }
        }
        assert forall|i: int| 0 <= i < a.len() implies (a[i] as nat) < k by {
            if i < prev.len() {
                assert(a[i] == prev[i]);
            } else {
                assert(a[i] == top);
            }
        }
    }
}

/// A code that is nowhere in `s` does not occur in it.
proof fn lemma_no_occurrences(s: Seq<u16>, c: u16)
    requires
        forall|i: int| 0 <= i < s.len() ==> s[i] != c,
    ensures
        occurrences(s, c) == 0,
    decreases s.len(),
{
    if s.len() > 0 {
        assert(s.last() == s[s.len() - 1]);
        lemma_no_occurrences(s.drop_last(), c);
    }
}

/// Occurrences in a prefix grow by one element at a time.
proof fn lemma_occurrences_take(s: Seq<u16>, i: int, c: u16)
    requires
        0 <= i < s.len(),
    ensures
        occurrences(s.take(i + 1), c) == occurrences(s.take(i), c) + if s[i] == c {
            1nat
        } else {
            0nat
        },
        occurrences(s.take(i), c) <= i,
    decreases i,
{
    assert(s.take(i + 1).drop_last() =~= s.take(i));
    if i > 0 {
        lemma_occurrences_take(s, i - 1, c);
    } else {
        assert(s.take(0).len() == 0);
    }
}

/// The names of coded points.
pub open spec fn point_names(codes: Seq<u16>) -> Seq<Seq<char>> {
    codes.map_values(|c: u16| point_name(c))
}

/// Grid points as text: "(none)" when there is none, else their names in
/// ascending order (row, then column), each as often as it is given,
/// separated by commas.
pub open spec fn sorted_points_text(codes: Seq<u16>) -> Seq<char> {
    let a = ascending(codes, 288);
    if a.len() == 0 {
        "(none)"@
    } else {
        join(point_names(a), ","@)
    }
}

/// Lists the points of `codes` in ascending order, repeats kept.
pub fn sort_af_points(codes: &Vec<u16>) -> (r: String)
    requires
        forall|i: int| 0 <= i < codes@.len() ==> codes@[i] < 288,
    ensures
        r@ == sorted_points_text(codes@),
{
    let mut count: Vec<usize> = Vec::new();
    let mut k: usize = 0;
    while k < 288
        invariant
            k <= 288,
            count@.len() == k,
            forall|j: int| 0 <= j < k ==> count@[j] == 0,
        decreases 288 - k,
    {
        count.push(0);
        k = k + 1;
    }
    let mut i: usize = 0;
    while i < codes.len()
        invariant
            count@.len() == 288,
            i <= codes@.len(),
            forall|j: int| 0 <= j < codes@.len() ==> codes@[j] < 288,
            forall|c: int|
                0 <= c < 288 ==> #[trigger] count@[c] == occurrences(codes@.take(i as int), c as u16),
        decreases codes@.len() - i,
    {
        let c = codes[i];
        let n = count[c as usize];
        proof {
            lemma_occurrences_take(codes@, i as int, c);
        }
        count.set(c as usize, n + 1);
        proof {
            assert forall|c2: int| 0 <= c2 < 288 implies #[trigger] count@[c2] == occurrences(
                codes@.take(i + 1),
                c2 as u16,
            ) by {
                lemma_occurrences_take(codes@, i as int, c2 as u16);
            }
        }
        i = i + 1;
    }
    assert(codes@.take(codes@.len() as int) =~= codes@);
    let mut parts: Vec<String> = Vec::new();
    let mut k: u16 = 0;
    while k < 288
        invariant
            k <= 288,
            count@.len() == 288,
            forall|c: int| 0 <= c < 288 ==> #[trigger] count@[c] == occurrences(codes@, c as u16),
            views(parts@) == point_names(ascending(codes@, k as nat)),
        decreases 288 - k,
    {
        let ghost prev = ascending(codes@, k as nat);
        let n = count[k as usize];
        let mut m: usize = 0;
        while m < n
            invariant
                m <= n,
                k < 288,
                views(parts@) == point_names(prev + copies(k, m as nat)),
            decreases n - m,
        {
            let ghost before = parts@;
            parts.push(point_string(k));
            proof {
                assert(views(parts@) =~= views(before).push(point_name(k)));
                assert(prev + copies(k, (m + 1) as nat) =~= (prev + copies(k, m as nat)).push(k));
                assert(point_names((prev + copies(k, m as nat)).push(k)) =~= point_names(
                    prev + copies(k, m as nat),
                ).push(point_name(k)));
            }
            m = m + 1;
        }
        proof {
            assert(ascending(codes@, (k + 1) as nat) == prev + copies(k, n as nat));
        }
        k = k + 1;
    }
    if parts.len() == 0 {
        owned("(none)")
    } else {
        join_strings(&parts, ",")
    }
}

/// Whether bit `n` of a bitmask is set: bit 0 is the low bit of the first byte.
pub open spec fn bit_set(data: Seq<u8>, n: nat) -> bool {
    n / 8 < data.len() && data[(n / 8) as int] & (1u8 << ((n % 8) as u8)) != 0
}

fn bit_set_exec(data: &[u8], n: u16) -> (r: bool)
    ensures
        r == bit_set(data@, n as nat),
{
    let byte = (n / 8) as usize;
    if byte < data.len() {
        data[byte] & (1u8 << ((n % 8) as u8)) != 0
    } else {
        false
    }
}

/// The point grids that a bitmask of AF points can refer to.
#[derive(Clone, Copy, PartialEq, Eq, Structural)]
pub enum PointTable {
    P51,
    P39,
    P135,
    P153,
}

/// Number of bits of a grid's bitmask.
pub open spec fn table_bits(t: PointTable) -> nat {
    match t {
        PointTable::P51 => 51,
        PointTable::P39 => 39,
        PointTable::P135 => 135,
        PointTable::P153 => 153,
    }
}

/// The point of bit `n` of a grid's bitmask.
pub open spec fn table_point(t: PointTable, n: nat) -> Option<u16> {
    match t {
        PointTable::P51 => points51(n as u8),
        PointTable::P39 => points39(n as u8),
        PointTable::P135 => points135((n + 1) as u8),
        PointTable::P153 => points153_used((n + 1) as u8),
    }
}

/// The points whose bits below `n` are set, in bit order.
pub open spec fn selected_points(data: Seq<u8>, t: PointTable, n: nat) -> Seq<u16>
    decreases n,
{
    if n == 0 {
        seq![]
    } else {
        let prev = selected_points(data, t, (n - 1) as nat);
        match table_point(t, (n - 1) as nat) {
            Some(c) => if bit_set(data, (n - 1) as nat) {
                prev.push(c)
            } else {
                prev
            },
            None => prev,
        }
    }
}

fn table_point_exec(t: PointTable, n: u16) -> (r: Option<u16>)
    requires
        n < 153,
    ensures
        r == table_point(t, n as nat),
        r is Some ==> r->0 < 288,
{
    match t {
        PointTable::P51 => points51_exec(n as u8),
        PointTable::P39 => points39_exec(n as u8),
        PointTable::P135 => points135_exec((n + 1) as u8),
        PointTable::P153 => points153_used_exec((n + 1) as u8),
    }
}

fn select_points(data: &[u8], t: PointTable) -> (r: Vec<u16>)
    ensures
        r@ == selected_points(data@, t, table_bits(t)),
        forall|i: int| 0 <= i < r@.len() ==> r@[i] < 288,
{
    let count: u16 = match t {
        PointTable::P51 => 51,
        PointTable::P39 => 39,
        PointTable::P135 => 135,
        PointTable::P153 => 153,
    };
    let mut v: Vec<u16> = Vec::new();
    let mut n: u16 = 0;
    while n < count
        invariant
            count == table_bits(t),
            n <= count,
            v@ == selected_points(data@, t, n as nat),
            forall|i: int| 0 <= i < v@.len() ==> v@[i] < 288,
        decreases count - n,
    {
        match table_point_exec(t, n) {
            Some(c) => {
                if bit_set_exec(data, n) {
                    v.push(c);
                }
            },
            None => {},
        }
        n = n + 1;
    }
    v
}

/// The names of the grid points whose bits below `n` are set, in bit order.
pub open spec fn grid_points(data: Seq<u8>, ncol: nat, n: nat) -> Seq<Seq<char>>
    decreases n,
{
    if n == 0 {
        seq![]
    } else {
        let prev = grid_points(data, ncol, (n - 1) as nat);
        if bit_set(data, (n - 1) as nat) {
            prev.push(grid_name(((n - 1) % 256) as nat, ncol))
        } else {
            prev
        }
    }
}

/// The points set in the first `size` bytes of a grid bitmask, in bit order,
/// or "(none)"; a point is numbered by its bit, modulo 256.
pub open spec fn grid_points_text(data: Seq<u8>, ncol: nat, size: nat) -> Seq<char> {
    let g = grid_points(data, ncol, 8 * size);
    if g.len() == 0 {
        "(none)"@
    } else {
        join(g, ","@)
    }
}

/// Bits past the end of the data add no point.
proof fn lemma_grid_points_past_end(data: Seq<u8>, ncol: nat, m: nat)
    requires
        8 * data.len() <= m,
    ensures
        grid_points(data, ncol, m) == grid_points(data, ncol, 8 * data.len()),
    decreases m,
{
    if m > 8 * data.len() {
        assert(!bit_set(data, (m - 1) as nat));
        lemma_grid_points_past_end(data, ncol, (m - 1) as nat);
    }
}

/// Whether every set bit among the first `size` bytes names a point in a
/// row the letters reach (row at most 190, 'A' + 190 being the last byte).
pub open spec fn grid_rows_fit(data: Seq<u8>, ncol: nat, size: nat) -> bool {
    forall|n: nat| n < 8 * size && #[trigger] bit_set(data, n) ==> (n % 256) / ncol <= 190
}

/// Lists the points of a grid bitmask (Nikon 1 cameras).
pub fn decode_af_points_grid(data: &[u8], ncol: u8, size: usize) -> (r: String)
    requires
        ncol >= 1,
        grid_rows_fit(data@, ncol as nat, size as nat),
    ensures
        r@ == grid_points_text(data@, ncol as nat, size as nat),
{
    let mut parts: Vec<String> = Vec::new();
    let lim: usize = if size < data.len() {
        size
    } else {
        data.len()
    };
    let mut b: usize = 0;
    while b < lim
        invariant
            lim <= size,
            lim <= data@.len(),
            b <= lim,
            ncol >= 1,
            grid_rows_fit(data@, ncol as nat, size as nat),
            views(parts@) == grid_points(data@, ncol as nat, 8 * b as nat),
        decreases lim - b,
    {
        let byte = data[b];
        let mut bit: u8 = 0;
        while bit < 8
            invariant
                bit <= 8,
                b < lim,
                lim <= size,
                lim <= data@.len(),
                byte == data@[b as int],
                ncol >= 1,
                grid_rows_fit(data@, ncol as nat, size as nat),
                views(parts@) == grid_points(data@, ncol as nat, (8 * b + bit) as nat),
            decreases 8 - bit,
        {
            let ghost n: nat = (8 * b + bit) as nat;
            assert(n / 8 == b && n % 8 == bit);
            if byte & (1u8 << bit) != 0 {
                assert(bit_set(data@, n));
                let point: u8 = ((b % 32) * 8 + bit as usize) as u8;
                assert(point == n % 256) by (nonlinear_arith)
                    requires
                        n == 8 * b + bit,
                        bit < 8,
                        point == (b % 32) * 8 + bit,
                ;
                let ghost before = parts@;
                parts.push(get_af_point_grid(point, ncol));
                proof {
                    assert(views(parts@) =~= views(before).push(grid_name(n % 256, ncol as nat)));
                }
            } else {
                assert(!bit_set(data@, n));
            }
            bit = bit + 1;
        }
        b = b + 1;
    }
    proof {
        if lim < size {
            lemma_grid_points_past_end(data@, ncol as nat, 8 * size as nat);
        }
    }
    if parts.len() == 0 {
        owned("(none)")
    } else {
        join_strings(&parts, ",")
    }
}



/// Names a point of the 135-point grid of Nikon 1 cameras, or "Unknown (n)".
pub fn get_af_point_135(point: u8) -> (r: String)
    ensures
        r@ == looked_up(points135(point), point),
{
    looked_up_string(points135_exec(point), point)
}

/// Names a point of the 153-point grid (D5, D500, D850), or "Unknown (n)".
pub fn get_af_point_153(point: u8) -> (r: String)
    ensures
        r@ == looked_up(points153_primary(point), point),
{
    looked_up_string(points153_primary_exec(point), point)
}

/// Names a point of the 105-point grid (D6), or "Unknown (n)".
pub fn get_af_point_105(point: u8) -> (r: String)
    ensures
        r@ == looked_up(points105(point), point),
{
    looked_up_string(points105_exec(point), point)
}

/// Names a point of the 81-point grid of Z cameras, or "Unknown (n)".
pub fn get_af_point_81(point: u8) -> (r: String)
    ensures
        r@ == looked_up(points81(point), point),
{
    looked_up_string(points81_exec(point), point)
}

/// Lists the points set in a 51-point bitmask (seven bytes), sorted.
pub fn decode_af_points_51(data: &[u8]) -> (r: String)
    ensures
        r@ == sorted_points_text(selected_points(data@, PointTable::P51, 51)),
{
    sort_af_points(&select_points(data, PointTable::P51))
}

/// Lists the points set in a 39-point bitmask (five bytes), sorted.
pub fn decode_af_points_39(data: &[u8]) -> (r: String)
    ensures
        r@ == sorted_points_text(selected_points(data@, PointTable::P39, 39)),
{
    sort_af_points(&select_points(data, PointTable::P39))
}

/// Lists the points set in a 135-point bitmask (Nikon 1 cameras), sorted.
pub fn decode_af_points_135(data: &[u8]) -> (r: String)
    ensures
        r@ == sorted_points_text(selected_points(data@, PointTable::P135, 135)),
{
    sort_af_points(&select_points(data, PointTable::P135))
}

/// Lists the points set in a 153-point bitmask (D5, D500, D850), sorted.
pub fn decode_af_points_153(data: &[u8]) -> (r: String)
    ensures
        r@ == sorted_points_text(selected_points(data@, PointTable::P153, 153)),
{
    sort_af_points(&select_points(data, PointTable::P153))
}

// ---------------------------------------------------------------------------
// Named AF points
// ---------------------------------------------------------------------------

/// The AF points of older bodies, by AFInfo number and AFPointsInFocus bit.
pub open spec fn af_point_name(n: u16) -> Option<&'static str> {
    match n {
        0 => Some("Center"),
        1 => Some("Top"),
        2 => Some("Bottom"),
        3 => Some("Mid-left"),
        4 => Some("Mid-right"),
        5 => Some("Upper-left"),
        6 => Some("Upper-right"),
        7 => Some("Lower-left"),
        8 => Some("Lower-right"),
        9 => Some("Far Left"),
        10 => Some("Far Right"),
        _ => None,
    }
}

fn af_point_name_exec(n: u16) -> (r: Option<&'static str>)
    ensures
        r == af_point_name(n),
{
    match n {
        0 => Some("Center"),
        1 => Some("Top"),
        2 => Some("Bottom"),
        3 => Some("Mid-left"),
        4 => Some("Mid-right"),
        5 => Some("Upper-left"),
        6 => Some("Upper-right"),
        7 => Some("Lower-left"),
        8 => Some("Lower-right"),
        9 => Some("Far Left"),
        10 => Some("Far Right"),
        _ => None,
    }
}

/// The points of the 11-point grid, by bit of AFPointsUsed (PrimaryAFPoint
/// numbers them from 1 in the same order).
pub open spec fn eleven_point_name(n: u16) -> Option<&'static str> {
    match n {
        0 => Some("Center"),
        1 => Some("Top"),
        2 => Some("Bottom"),
        3 => Some("Mid-left"),
        4 => Some("Upper-left"),
        5 => Some("Lower-left"),
        6 => Some("Far Left"),
        7 => Some("Mid-right"),
        8 => Some("Upper-right"),
        9 => Some("Lower-right"),
        10 => Some("Far Right"),
        _ => None,
    }
}

fn eleven_point_name_exec(n: u16) -> (r: Option<&'static str>)
    ensures
        r == eleven_point_name(n),
{
    match n {
        0 => Some("Center"),
        1 => Some("Top"),
        2 => Some("Bottom"),
        3 => Some("Mid-left"),
        4 => Some("Upper-left"),
        5 => Some("Lower-left"),
        6 => Some("Far Left"),
        7 => Some("Mid-right"),
        8 => Some("Upper-right"),
        9 => Some("Lower-right"),
        10 => Some("Far Right"),
        _ => None,
    }
}

/// A looked-up grid point by name, or "Unknown (p)".
pub open spec fn looked_up(c: Option<u16>, p: u8) -> Seq<char> {
    match c {
        Some(code) => point_name(code),
        None => unknown_text(p as nat),
    }
}

fn looked_up_string(c: Option<u16>, p: u8) -> (r: String)
    requires
        c is Some ==> c->0 < 288,
    ensures
        r@ == looked_up(c, p),
{
    match c {
        Some(code) => point_string(code),
        None => unknown_string(p),
    }
}

/// PrimaryAFPoint as text, for a focus-point schema.
pub open spec fn primary_af_point_text(p: u8, schema: u8) -> Seq<char> {
    if schema == 0 || schema > 9 {
        if schema == 0 && p == 0 {
            "(none)"@
        } else {
            dec(p as nat)
        }
    } else if p == 0 {
        "(none)"@
    } else if schema == 1 {
        let name = looked_up(points51((p - 1) as u8), p);
        if p == 1 {
            centered(name)
        } else {
            name
        }
    } else if schema == 2 {
        match eleven_point_name((p - 1) as u16) {
            Some(name) => name@,
            None => unknown_text(p as nat),
        }
    } else if schema == 3 {
        let name = looked_up(points39((p - 1) as u8), p);
        if p == 1 {
            centered(name)
        } else {
            name
        }
    } else if schema == 4 {
        let name = looked_up(points135(p), p);
        if p == 1 {
            centered(name)
        } else {
            name
        }
    } else if schema == 5 {
        if p == 82 {
            centered(grid_name(p as nat, 15))
        } else {
            grid_name(p as nat, 15)
        }
    } else if schema == 6 {
        if p == 115 {
            centered(grid_name(p as nat, 21))
        } else {
            grid_name(p as nat, 21)
        }
    } else if schema == 7 {
        let name = looked_up(points153_primary(p), p);
        if p == 1 {
            centered(name)
        } else {
            name
        }
    } else if schema == 8 {
        looked_up(points81(p), p)
    } else {
        let name = looked_up(points105(p), p);
        if p == 1 {
            centered(name)
        } else {
            name
        }
    }
}

fn center_if(s: String, center: bool) -> (r: String)
    ensures
        r@ == (if center {
            centered(s@)
        } else {
            s@
        }),
{
    if center {
        centered_string(s)
    } else {
        s
    }
}

/// Decodes PrimaryAFPoint for a focus-point schema.
pub fn decode_primary_af_point(point: u8, schema: u8) -> (r: String)
    ensures
        r@ == primary_af_point_text(point, schema),
{
    if schema == 0 || schema > 9 {
        if schema == 0 && point == 0 {
            return owned("(none)");
        }
        let mut s = String::new();
        push_dec(&mut s, point as u64);
        assert(s@ =~= dec(point as nat));
        return s;
    }
    if point == 0 {
        return owned("(none)");
    }
    match schema {
        1 => center_if(looked_up_string(points51_exec(point - 1), point), point == 1),
        2 => match eleven_point_name_exec((point - 1) as u16) {
            Some(name) => owned(name),
            None => unknown_string(point),
        },
        3 => center_if(looked_up_string(points39_exec(point - 1), point), point == 1),
        4 => center_if(get_af_point_135(point), point == 1),
        5 => center_if(get_af_point_grid(point, 15), point == 82),
        6 => center_if(get_af_point_grid(point, 21), point == 115),
        7 => center_if(get_af_point_153(point), point == 1),
        8 => get_af_point_81(point),
        _ => center_if(get_af_point_105(point), point == 1),
    }
}

// ---------------------------------------------------------------------------
// AFPointsUsed
// ---------------------------------------------------------------------------

/// The names of the 11-point grid whose bits below `n` are set.
pub open spec fn eleven_points(bits: u16, n: nat) -> Seq<Seq<char>>
    decreases n,
{
    if n == 0 {
        seq![]
    } else {
        let prev = eleven_points(bits, (n - 1) as nat);
        if bits & (1u16 << ((n - 1) as u16)) != 0 {
            match eleven_point_name((n - 1) as u16) {
                Some(name) => prev.push(name@),
                None => prev,
            }
        } else {
            prev
        }
    }
}

/// AFPointsUsed of the 11-point grid: the points joined by ", ", or "(none)".
pub open spec fn eleven_points_text(bits: u16) -> Seq<char> {
    let names = eleven_points(bits, 11);
    if names.len() == 0 {
        "(none)"@
    } else {
        join(names, ", "@)
    }
}

/// Lists the points of an 11-point bitmask.
pub fn decode_af_points_11(bits: u16) -> (r: String)
    ensures
        r@ == eleven_points_text(bits),
{
    let mut parts: Vec<String> = Vec::new();
    let mut n: u16 = 0;
    while n < 11
        invariant
            n <= 11,
            views(parts@) == eleven_points(bits, n as nat),
        decreases 11 - n,
    {
        if bits & (1u16 << n) != 0 {
            match eleven_point_name_exec(n) {
                Some(name) => {
                    let ghost before = parts@;
                    parts.push(owned(name));
                    proof {
                        assert(views(parts@) =~= views(before).push(name@));
                    }
                },
                None => {},
            }
        }
        n = n + 1;
    }
    if parts.len() == 0 {
        owned("(none)")
    } else {
        join_strings(&parts, ", ")
    }
}

/// Whether every byte is zero (true of no bytes).
pub open spec fn all_zero(data: Seq<u8>) -> bool {
    forall|i: int| 0 <= i < data.len() ==> data[i] == 0
}

fn all_zero_exec(data: &[u8]) -> (r: bool)
    ensures
        r == all_zero(data@),
{
    let mut i: usize = 0;
    while i < data.len()
        invariant
            i <= data@.len(),
            forall|j: int| 0 <= j < i ==> data@[j] == 0,
        decreases data@.len() - i,
    {
        if data[i] != 0 {
            return false;
        }
        i = i + 1;
    }
    true
}

/// AFPointsUsed as text, for a focus-point schema.
pub open spec fn af_points_used_text(data: Seq<u8>, schema: u8) -> Seq<char> {
    if schema == 0 {
        "(none)"@
    } else if schema == 1 {
        if data.len() < 7 {
            "(none)"@
        } else {
            sorted_points_text(selected_points(data, PointTable::P51, 51))
        }
    } else if schema == 2 {
        if data.len() < 2 {
            "(none)"@
        } else {
            let bits = le16(data);
            if bits == 0 {
                "(none)"@
            } else if bits == 0x7ff {
                "All 11 Points"@
            } else {
                eleven_points_text(bits)
            }
        }
    } else if schema == 3 {
        if data.len() < 5 {
            "(none)"@
        } else {
            sorted_points_text(selected_points(data, PointTable::P39, 39))
        }
    } else if schema == 4 {
        if data.len() < 17 {
            "(none)"@
        } else {
            sorted_points_text(selected_points(data, PointTable::P135, 135))
        }
    } else if schema == 5 {
        if data.len() < 21 {
            "(none)"@
        } else {
            grid_points_text(data, 15, 21)
        }
    } else if schema == 6 {
        if data.len() < 29 {
            "(none)"@
        } else {
            grid_points_text(data, 21, 29)
        }
    } else if schema == 7 {
        if data.len() < 20 {
            "(none)"@
        } else {
            sorted_points_text(selected_points(data, PointTable::P153, 153))
        }
    } else if all_zero(data) {
        "(none)"@
    } else {
        hex_list(data, true, " "@)
    }
}

/// Decodes the AFPointsUsed bitmask for a focus-point schema.
pub fn decode_af_points_used(data: &[u8], schema: u8) -> (r: String)
    ensures
        r@ == af_points_used_text(data@, schema),
{
    match schema {
        0 => owned("(none)"),
        1 => if data.len() < 7 {
            owned("(none)")
        } else {
            decode_af_points_51(data)
        },
        2 => {
            if data.len() < 2 {
                return owned("(none)");
            }
            let bits = read_u16(data, Endianness::Little);
            if bits == 0 {
                owned("(none)")
            } else if bits == 0x7ff {
                owned("All 11 Points")
            } else {
                decode_af_points_11(bits)
            }
        },
        3 => if data.len() < 5 {
            owned("(none)")
        } else {
            decode_af_points_39(data)
        },
        4 => if data.len() < 17 {
            owned("(none)")
        } else {
            decode_af_points_135(data)
        },
        5 => if data.len() < 21 {
            owned("(none)")
        } else {
            assert(grid_rows_fit(data@, 15, 21));
            decode_af_points_grid(data, 15, 21)
        },
        6 => if data.len() < 29 {
            owned("(none)")
        } else {
            assert(grid_rows_fit(data@, 21, 29));
            decode_af_points_grid(data, 21, 29)
        },
        7 => if data.len() < 20 {
            owned("(none)")
        } else {
            decode_af_points_153(data)
        },
        _ => if all_zero_exec(data) {
            owned("(none)")
        } else {
            fmt_hex_list(data, true, " ")
        },
    }
}


// ---------------------------------------------------------------------------
// AFInfo
// ---------------------------------------------------------------------------

/// AFAreaMode of AFInfo.
pub open spec fn af_area_mode_name(v: u8) -> &'static str {
    match v {
        0 => "Single Area",
        1 => "Dynamic Area",
        2 => "Dynamic Area (closest subject)",
        3 => "Group Dynamic",
        4 => "Single Area (wide)",
        5 => "Dynamic Area (wide)",
        _ => "Unknown",
    }
}

/// The words for the set bits of AFPointsInFocus below bit `n`, in bit order:
/// the names of bits 0 to 10, "[n]" for a higher bit.
pub open spec fn in_focus_words(mask: u16, n: nat) -> Seq<Seq<char>>
    decreases n,
{
    if n == 0 {
        seq![]
    } else {
        let prev = in_focus_words(mask, (n - 1) as nat);
        let bit = (n - 1) as u16;
        if mask & (1u16 << bit) != 0 {
            match af_point_name(bit) {
                Some(name) => prev.push(name@),
                None => prev.push("["@ + dec(bit as nat) + "]"@),
            }
        } else {
            prev
        }
    }
}

/// AFPointsInFocus as text.
pub open spec fn in_focus_text(mask: u16) -> Seq<char> {
    let words = in_focus_words(mask, 16);
    if mask == 0 || words.len() == 0 {
        "(none)"@
    } else {
        join(words, ","@)
    }
}

fn in_focus_string(mask: u16) -> (r: String)
    ensures
        r@ == in_focus_text(mask),
{
    if mask == 0 {
        return owned("(none)");
    }
    let mut parts: Vec<String> = Vec::new();
    let mut n: u16 = 0;
    while n < 16
        invariant
            n <= 16,
            views(parts@) == in_focus_words(mask, n as nat),
        decreases 16 - n,
    {
        if mask & (1u16 << n) != 0 {
            let ghost before = parts@;
            let word = match af_point_name_exec(n) {
                Some(name) => owned(name),
                None => wrap_dec("[", n as u64, "]"),
            };
            let ghost w = word@;
            parts.push(word);
            proof {
                assert(views(parts@) =~= views(before).push(w));
            }
        }
        n = n + 1;
    }
    if parts.len() == 0 {
        owned("(none)")
    } else {
        join_strings(&parts, ",")
    }
}

/// Whether `s` begins with `p`.
pub open spec fn prefixed(s: Seq<char>, p: Seq<char>) -> bool {
    p.len() <= s.len() && s.take(p.len() as int) == p
}

/// Whether the model names a Nikon DSLR ("NIKON D..." in upper case); their
/// AFPointsInFocus is big-endian, that of other cameras little-endian.
pub open spec fn dslr_model(model: Option<&str>) -> bool {
    match model {
        Some(m) => prefixed(unicode_upper(m@), "NIKON D"@),
        None => false,
    }
}

/// The fields of AFInfo.
pub open spec fn af_info_fields(data: Seq<u8>, dslr: bool) -> Seq<(&'static str, Seq<char>)> {
    if data.len() == 0 {
        seq![]
    } else {
        let a = seq![("AFAreaMode", af_area_mode_name(data[0])@)];
        let b = if data.len() >= 2 {
            a.push(
                (
                    "AFPoint",
                    match af_point_name(data[1] as u16) {
                        Some(name) => name@,
                        None => "Unknown"@,
                    },
                ),
            )
        } else {
            a
        };
        if data.len() >= 4 {
            let e = if dslr {
                Endianness::Big
            } else {
                Endianness::Little
            };
            b.push(("AFPointsInFocus", in_focus_text(u16_of(data.subrange(2, data.len() as int), e))))
        } else {
            b
        }
    }
}

/// AFInfo's first field is AFAreaMode, named by the first byte alone: the six
/// codes 0 to 5 name six different modes, codes 4 and 5 being the wide
/// forms of 0 and 1, and every other code reads "Unknown".
pub proof fn law_af_info_area_modes(d1: Seq<u8>, d2: Seq<u8>, dslr1: bool, dslr2: bool)
    requires
        d1.len() > 0,
        d2.len() > 0,
    ensures
        af_info_fields(d1, dslr1)[0].0 == "AFAreaMode",
        d1[0] == d2[0] ==> af_info_fields(d1, dslr1)[0].1 == af_info_fields(d2, dslr2)[0].1,
        d1[0] != d2[0] && d1[0] <= 5 && d2[0] <= 5 ==> af_info_fields(d1, dslr1)[0].1 != af_info_fields(
            d2,
            dslr2,
        )[0].1,
        d1[0] > 5 <==> af_info_fields(d1, dslr1)[0].1 == "Unknown"@,
        d1[0] <= 1 && d2[0] == d1[0] + 4 ==> af_info_fields(d2, dslr2)[0].1 == af_info_fields(d1, dslr1)[0].1
            + " (wide)"@,
{
    reveal_strlit("Single Area");
    reveal_strlit("Dynamic Area");
    reveal_strlit("Dynamic Area (closest subject)");
    reveal_strlit("Group Dynamic");
    reveal_strlit("Single Area (wide)");
    reveal_strlit("Dynamic Area (wide)");
    reveal_strlit("Unknown");
    reveal_strlit(" (wide)");
    assert("Single Area"@ + " (wide)"@ =~= "Single Area (wide)"@);
    assert("Dynamic Area"@ + " (wide)"@ =~= "Dynamic Area (wide)"@);
    let f1 = af_info_fields(d1, dslr1);
    let f2 = af_info_fields(d2, dslr2);
    assert(f1[0] == ("AFAreaMode", af_area_mode_name(d1[0])@));
    assert(f2[0] == ("AFAreaMode", af_area_mode_name(d2[0])@));
    lemma_area_name_len(d1[0]);
    lemma_area_name_len(d2[0]);
}

/// The AFAreaMode names have lengths 11, 12, 30, 13, 18, 19 for codes 0 to 5
/// and 7 ("Unknown") otherwise.
proof fn lemma_area_name_len(v: u8)
    ensures
        af_area_mode_name(v)@.len() == (if v == 0 {
            11int
        } else if v == 1 {
            12
        } else if v == 2 {
            30
        } else if v == 3 {
            13
        } else if v == 4 {
            18
        } else if v == 5 {
            19
        } else {
            7
        }),
{
    reveal_strlit("Single Area");
    reveal_strlit("Dynamic Area");
    reveal_strlit("Dynamic Area (closest subject)");
    reveal_strlit("Group Dynamic");
    reveal_strlit("Single Area (wide)");
    reveal_strlit("Dynamic Area (wide)");
    reveal_strlit("Unknown");
}

/// Parses AFInfo (tag 0x0088).
pub fn parse_af_info(data: &[u8], model: Option<&str>) -> (r: Vec<(&'static str, String)>)
    ensures
        pairs_view(r@) == af_info_fields(data@, dslr_model(model)),
{
    let mut tags: Vec<(&'static str, String)> = Vec::new();
    if data.len() == 0 {
        assert(pairs_view(tags@) =~= seq![]);
        return tags;
    }
    let mode = match data[0] {
        0 => "Single Area",
        1 => "Dynamic Area",
        2 => "Dynamic Area (closest subject)",
        3 => "Group Dynamic",
        4 => "Single Area (wide)",
        5 => "Dynamic Area (wide)",
        _ => "Unknown",
    };
    push_pair(&mut tags, "AFAreaMode", owned(mode));
    if data.len() >= 2 {
        let point = match af_point_name_exec(data[1] as u16) {
            Some(name) => name,
            None => "Unknown",
        };
        push_pair(&mut tags, "AFPoint", owned(point));
    }
    let dslr = match model {
        Some(m) => {
            let upper = to_upper(m);
            starts_with(upper.as_str(), "NIKON D")
        },
        None => false,
    };
    if data.len() >= 4 {
        let e = if dslr {
            Endianness::Big
        } else {
            Endianness::Little
        };
        let mask = read_u16_at(data, 2, e);
        push_pair(&mut tags, "AFPointsInFocus", in_focus_string(mask));
    }
    proof {
        assert(pairs_view(tags@) =~= af_info_fields(data@, dslr_model(model)));
    }
    tags
}

// ---------------------------------------------------------------------------
// AFInfo2
// ---------------------------------------------------------------------------

/// AFDetectionMethod.
pub open spec fn af_detection_name(v: u8) -> &'static str {
    match v {
        0 => "Phase Detect",
        1 => "Contrast Detect",
        2 => "Hybrid",
        _ => "Unknown",
    }
}

/// Distinct af detection codes that the table knows read as distinct names.
pub proof fn law_af_detection_names_distinct(a: u8, b: u8)
    requires
        a != b,
        af_detection_name(a) != "Unknown",
        af_detection_name(b) != "Unknown",
    ensures
        af_detection_name(a) != af_detection_name(b),
{
    reveal_strlit("Contrast Detect");
    reveal_strlit("Hybrid");
    reveal_strlit("Phase Detect");
    reveal_strlit("Unknown");
}

/// AFAreaMode of Nikon 1 cameras.
pub open spec fn nikon1_area_name(v: u8) -> Option<&'static str> {
    match v {
        128 => Some("Single"),
        129 => Some("Auto (41 points)"),
        130 => Some("Subject Tracking (41 points)"),
        131 => Some("Face Priority (41 points)"),
        _ => None,
    }
}

/// Distinct nikon1 area codes that the table knows read as distinct names.
pub proof fn law_nikon1_area_names_distinct(a: u8, b: u8)
    requires
        a != b,
        nikon1_area_name(a) is Some,
        nikon1_area_name(b) is Some,
    ensures
        nikon1_area_name(a) != nikon1_area_name(b),
{
    reveal_strlit("Auto (41 points)");
    reveal_strlit("Face Priority (41 points)");
    reveal_strlit("Single");
    reveal_strlit("Subject Tracking (41 points)");
}

/// AFAreaMode under phase-detect AF.
pub open spec fn phase_area_name(v: u8) -> &'static str {
    match v {
        0 => "Single Area",
        1 => "Dynamic Area",
        2 => "Dynamic Area (closest subject)",
        3 => "Group Dynamic",
        4 => "Dynamic Area (9 points)",
        5 => "Dynamic Area (21 points)",
        6 => "Dynamic Area (51 points)",
        7 => "Dynamic Area (51 points, 3D-tracking)",
        8 => "Auto-area",
        9 => "Dynamic Area (3D-tracking)",
        10 => "Single Area (wide)",
        11 => "Dynamic Area (wide)",
        12 => "Dynamic Area (wide, 3D-tracking)",
        13 => "Group Area",
        14 => "Dynamic Area (25 points)",
        15 => "Dynamic Area (72 points)",
        16 => "Group Area (HL)",
        17 => "Group Area (VL)",
        18 => "Dynamic Area (49 points)",
        128 => "Single",
        129 => "Auto (41 points)",
        130 => "Subject Tracking (41 points)",
        131 => "Face Priority (41 points)",
        192 => "Pinpoint",
        193 => "Single",
        194 => "Dynamic",
        195 => "Wide (S)",
        196 => "Wide (L)",
        197 => "Auto",
        199 => "Auto",
        _ => "Unknown",
    }
}

/// Distinct phase area codes that the table knows read as distinct names,
/// but for the codes that share one name.
pub proof fn law_phase_area_names_distinct(a: u8, b: u8)
    requires
        a != b,
        phase_area_name(a) != "Unknown",
        phase_area_name(b) != "Unknown",
    ensures
        phase_area_name(a) != phase_area_name(b) || ((a == 128 || a == 193) && (b == 128 || b == 193)) || ((a == 197 || a == 199) && (b == 197 || b == 199)),
{
    reveal_strlit("Auto");
    reveal_strlit("Auto (41 points)");
    reveal_strlit("Auto-area");
    reveal_strlit("Dynamic");
    reveal_strlit("Dynamic Area");
    reveal_strlit("Dynamic Area (21 points)");
    reveal_strlit("Dynamic Area (25 points)");
    reveal_strlit("Dynamic Area (3D-tracking)");
    reveal_strlit("Dynamic Area (49 points)");
    reveal_strlit("Dynamic Area (51 points)");
    reveal_strlit("Dynamic Area (51 points, 3D-tracking)");
    reveal_strlit("Dynamic Area (72 points)");
    reveal_strlit("Dynamic Area (9 points)");
    reveal_strlit("Dynamic Area (closest subject)");
    reveal_strlit("Dynamic Area (wide)");
    reveal_strlit("Dynamic Area (wide, 3D-tracking)");
    reveal_strlit("Face Priority (41 points)");
    reveal_strlit("Group Area");
    reveal_strlit("Group Area (HL)");
    reveal_strlit("Group Area (VL)");
    reveal_strlit("Group Dynamic");
    reveal_strlit("Pinpoint");
    reveal_strlit("Single");
    reveal_strlit("Single Area");
    reveal_strlit("Single Area (wide)");
    reveal_strlit("Subject Tracking (41 points)");
    reveal_strlit("Wide (L)");
    reveal_strlit("Wide (S)");
    reveal_strlit("Unknown");
}

/// AFAreaMode under contrast-detect or hybrid AF.
pub open spec fn contrast_area_name(v: u8) -> &'static str {
    match v {
        0 => "Contrast-detect",
        1 => "Contrast-detect (normal area)",
        2 => "Contrast-detect (wide area)",
        3 => "Contrast-detect (face priority)",
        4 => "Contrast-detect (subject tracking)",
        128 => "Single",
        129 => "Auto (41 points)",
        130 => "Subject Tracking (41 points)",
        131 => "Face Priority (41 points)",
        192 => "Pinpoint",
        193 => "Single",
        194 => "Dynamic",
        195 => "Wide (S)",
        196 => "Wide (L)",
        197 => "Auto",
        198 => "Auto (People)",
        199 => "Auto (Animal)",
        200 => "Normal-area AF",
        201 => "Wide-area AF",
        202 => "Face-priority AF",
        203 => "Subject-tracking AF",
        204 => "Dynamic Area (S)",
        205 => "Dynamic Area (M)",
        206 => "Dynamic Area (L)",
        207 => "3D-tracking",
        208 => "Wide-Area (C1/C2)",
        _ => "Unknown",
    }
}

/// Distinct contrast area codes that the table knows read as distinct names,
/// but for the codes that share one name.
pub proof fn law_contrast_area_names_distinct(a: u8, b: u8)
    requires
        a != b,
        contrast_area_name(a) != "Unknown",
        contrast_area_name(b) != "Unknown",
    ensures
        contrast_area_name(a) != contrast_area_name(b) || ((a == 128 || a == 193) && (b == 128 || b == 193)),
{
    reveal_strlit("3D-tracking");
    reveal_strlit("Auto");
    reveal_strlit("Auto (41 points)");
    reveal_strlit("Auto (Animal)");
    reveal_strlit("Auto (People)");
    reveal_strlit("Contrast-detect");
    reveal_strlit("Contrast-detect (face priority)");
    reveal_strlit("Contrast-detect (normal area)");
    reveal_strlit("Contrast-detect (subject tracking)");
    reveal_strlit("Contrast-detect (wide area)");
    reveal_strlit("Dynamic");
    reveal_strlit("Dynamic Area (L)");
    reveal_strlit("Dynamic Area (M)");
    reveal_strlit("Dynamic Area (S)");
    reveal_strlit("Face Priority (41 points)");
    reveal_strlit("Face-priority AF");
    reveal_strlit("Normal-area AF");
    reveal_strlit("Pinpoint");
    reveal_strlit("Single");
    reveal_strlit("Subject Tracking (41 points)");
    reveal_strlit("Subject-tracking AF");
    reveal_strlit("Wide (L)");
    reveal_strlit("Wide (S)");
    reveal_strlit("Wide-Area (C1/C2)");
    reveal_strlit("Wide-area AF");
    reveal_strlit("Unknown");
}

/// AFAreaMode of AFInfo2.
pub open spec fn af2_area_text(v: u8, detection: u8, nikon1: bool) -> Seq<char> {
    if nikon1 {
        match nikon1_area_name(v) {
            Some(name) => name@,
            None => unknown_text(v as nat),
        }
    } else if detection == 0 {
        phase_area_name(v)@
    } else {
        contrast_area_name(v)@
    }
}

fn af2_area_string(v: u8, detection: u8, nikon1: bool) -> (r: String)
    ensures
        r@ == af2_area_text(v, detection, nikon1),
{
    if nikon1 {
        let name = match v {
            128 => Some("Single"),
            129 => Some("Auto (41 points)"),
            130 => Some("Subject Tracking (41 points)"),
            131 => Some("Face Priority (41 points)"),
            _ => None,
        };
        match name {
            Some(n) => owned(n),
            None => unknown_string(v),
        }
    } else if detection == 0 {
        owned(
            match v {
                0 => "Single Area",
                1 => "Dynamic Area",
                2 => "Dynamic Area (closest subject)",
                3 => "Group Dynamic",
                4 => "Dynamic Area (9 points)",
                5 => "Dynamic Area (21 points)",
                6 => "Dynamic Area (51 points)",
                7 => "Dynamic Area (51 points, 3D-tracking)",
                8 => "Auto-area",
                9 => "Dynamic Area (3D-tracking)",
                10 => "Single Area (wide)",
                11 => "Dynamic Area (wide)",
                12 => "Dynamic Area (wide, 3D-tracking)",
                13 => "Group Area",
                14 => "Dynamic Area (25 points)",
                15 => "Dynamic Area (72 points)",
                16 => "Group Area (HL)",
                17 => "Group Area (VL)",
                18 => "Dynamic Area (49 points)",
                128 => "Single",
                129 => "Auto (41 points)",
                130 => "Subject Tracking (41 points)",
                131 => "Face Priority (41 points)",
                192 => "Pinpoint",
                193 => "Single",
                194 => "Dynamic",
                195 => "Wide (S)",
                196 => "Wide (L)",
                197 => "Auto",
                199 => "Auto",
                _ => "Unknown",
            },
        )
    } else {
        owned(
            match v {
                0 => "Contrast-detect",
                1 => "Contrast-detect (normal area)",
                2 => "Contrast-detect (wide area)",
                3 => "Contrast-detect (face priority)",
                4 => "Contrast-detect (subject tracking)",
                128 => "Single",
                129 => "Auto (41 points)",
                130 => "Subject Tracking (41 points)",
                131 => "Face Priority (41 points)",
                192 => "Pinpoint",
                193 => "Single",
                194 => "Dynamic",
                195 => "Wide (S)",
                196 => "Wide (L)",
                197 => "Auto",
                198 => "Auto (People)",
                199 => "Auto (Animal)",
                200 => "Normal-area AF",
                201 => "Wide-area AF",
                202 => "Face-priority AF",
                203 => "Subject-tracking AF",
                204 => "Dynamic Area (S)",
                205 => "Dynamic Area (M)",
                206 => "Dynamic Area (L)",
                207 => "3D-tracking",
                208 => "Wide-Area (C1/C2)",
                _ => "Unknown",
            },
        )
    }
}

/// PhaseDetectAF: on only under phase-detect AF, naming the focus-point schema.
pub open spec fn phase_detect_text(schema: u8, detection: u8, nikon1: bool) -> Seq<char> {
    if nikon1 {
        match schema {
            4 => "On (73-point)"@,
            5 => "On (5)"@,
            6 => "On (105-point)"@,
            _ => unknown_text(schema as nat),
        }
    } else if detection != 0 {
        "Off"@
    } else {
        match schema {
            0 => "Off"@,
            1 => "On (51-point)"@,
            2 => "On (11-point)"@,
            3 => "On (39-point)"@,
            4 => "On (73-point)"@,
            5 => "On (5)"@,
            6 => "On (105-point)"@,
            7 => "On (153-point)"@,
            8 => "On (81-point)"@,
            9 => "On (105-point)"@,
            _ => "Unknown"@,
        }
    }
}

fn phase_detect_string(schema: u8, detection: u8, nikon1: bool) -> (r: String)
    ensures
        r@ == phase_detect_text(schema, detection, nikon1),
{
    if nikon1 {
        match schema {
            4 => owned("On (73-point)"),
            5 => owned("On (5)"),
            6 => owned("On (105-point)"),
            _ => unknown_string(schema),
        }
    } else if detection != 0 {
        owned("Off")
    } else {
        owned(
            match schema {
                0 => "Off",
                1 => "On (51-point)",
                2 => "On (11-point)",
                3 => "On (39-point)",
                4 => "On (73-point)",
                5 => "On (5)",
                6 => "On (105-point)",
                7 => "On (153-point)",
                8 => "On (81-point)",
                9 => "On (105-point)",
                _ => "Unknown",
            },
        )
    }
}

/// FocusPointSchema.
pub open spec fn schema_name(schema: u8) -> &'static str {
    match schema {
        0 => "Off",
        1 => "51-point",
        2 => "11-point",
        3 => "39-point",
        4 => "73-point",
        5 => "5-point",
        6 => "105-point",
        7 => "153-point",
        8 => "81-point",
        9 => "105-point",
        _ => "Unknown",
    }
}

/// AFInfo2Version: the first four bytes as UTF-8, or empty when they are not.
pub open spec fn af2_version(data: Seq<u8>) -> Seq<char> {
    match utf8_decode(data.take(4)) {
        Some(t) => t,
        None => ""@,
    }
}

/// The fields of AFInfo2 up to FocusPointSchema.
pub open spec fn af2_head_fields(data: Seq<u8>) -> Seq<(&'static str, Seq<char>)> {
    let v = af2_version(data);
    let nikon1 = v == "0201"@;
    let det = data[4];
    let a = seq![
        ("AFInfo2Version", v),
        ("AFDetectionMethod", af_detection_name(det)@),
        ("ContrastDetectAF", if det == 1 { "On"@ } else { "Off"@ }),
    ];
    let b = if data.len() >= 6 {
        a.push(("AFAreaMode", af2_area_text(data[5], det, nikon1)))
    } else {
        a
    };
    let schema: u8 = if data.len() >= 7 {
        data[6]
    } else {
        0
    };
    b.push(("PhaseDetectAF", phase_detect_text(schema, det, nikon1))).push(
        ("FocusPointSchema", schema_name(schema)@),
    )
}

/// The fields of AFInfo2 after FocusPointSchema: PrimaryAFPoint and
/// AFPointsUsed, placed differently from version 0300 on.
pub open spec fn af2_point_fields(data: Seq<u8>) -> Seq<(&'static str, Seq<char>)> {
    let v = af2_version(data);
    let schema: u8 = if data.len() >= 7 {
        data[6]
    } else {
        0
    };
    if prefixed(v, "03"@) || prefixed(v, "04"@) {
        let a: Seq<(&'static str, Seq<char>)> = if data.len() >= 57 && data[7] == 0 {
            seq![("PrimaryAFPoint", primary_af_point_text(data[0x38], schema))]
        } else {
            seq![]
        };
        if data.len() >= 24 {
            a.push(("AFPointsUsed", af_points_used_text(data.subrange(10, data.len() as int), schema)))
        } else {
            a
        }
    } else {
        let a: Seq<(&'static str, Seq<char>)> = if data.len() >= 8 {
            seq![("PrimaryAFPoint", primary_af_point_text(data[7], schema))]
        } else {
            seq![]
        };
        if data.len() >= 9 {
            a.push(("AFPointsUsed", af_points_used_text(data.subrange(8, data.len() as int), schema)))
        } else {
            a
        }
    }
}

/// The fields of AFInfo2 (nothing below five bytes).
pub open spec fn af_info2_fields(data: Seq<u8>) -> Seq<(&'static str, Seq<char>)> {
    if data.len() < 5 {
        seq![]
    } else {
        af2_head_fields(data) + af2_point_fields(data)
    }
}

fn push_af2_points(
    tags: &mut Vec<(&'static str, String)>,
    data: &[u8],
    v03: bool,
    schema: u8,
)
    requires
        data@.len() >= 5,
        v03 == (prefixed(af2_version(data@), "03"@) || prefixed(af2_version(data@), "04"@)),
        schema == (if data@.len() >= 7 {
            data@[6]
        } else {
            0
        }),
    ensures
        pairs_view(final(tags)@) == pairs_view(old(tags)@) + af2_point_fields(data@),
{
    let ghost start = pairs_view(tags@);
    let ghost d = data@;
    if v03 {
        if data.len() >= 57 && data[7] == 0 {
            push_pair(tags, "PrimaryAFPoint", decode_primary_af_point(data[0x38], schema));
        }
        if data.len() >= 24 {
            let used = decode_af_points_used(&data[10..data.len()], schema);
            push_pair(tags, "AFPointsUsed", used);
        }
    } else {
        if data.len() >= 8 {
            push_pair(tags, "PrimaryAFPoint", decode_primary_af_point(data[7], schema));
        }
        if data.len() >= 9 {
            let used = decode_af_points_used(&data[8..data.len()], schema);
            push_pair(tags, "AFPointsUsed", used);
        }
    }
    proof {
        assert(pairs_view(tags@) =~= start + af2_point_fields(d));
    }
}

/// Parses AFInfo2 (tag 0x00B7).
pub fn parse_af_info2(data: &[u8]) -> (r: Vec<(&'static str, String)>)
    ensures
        pairs_view(r@) == af_info2_fields(data@),
{
    let mut tags: Vec<(&'static str, String)> = Vec::new();
    if data.len() < 5 {
        assert(pairs_view(tags@) =~= seq![]);
        return tags;
    }
    assert(data@.subrange(0, 4) =~= data@.take(4));
    let version: &str = match utf8_str(&data[0..4]) {
        Some(t) => t,
        None => "",
    };
    assert(version@ == af2_version(data@));
    let v03 = starts_with(version, "03") || starts_with(version, "04");
    let nikon1 = str_eq(version, "0201");
    push_pair(&mut tags, "AFInfo2Version", owned(version));
    let det = data[4];
    let det_name = match det {
        0 => "Phase Detect",
        1 => "Contrast Detect",
        2 => "Hybrid",
        _ => "Unknown",
    };
    push_pair(&mut tags, "AFDetectionMethod", owned(det_name));
    push_pair(
        &mut tags,
        "ContrastDetectAF",
        owned(
            if det == 1 {
                "On"
            } else {
                "Off"
            },
        ),
    );
    if data.len() >= 6 {
        push_pair(&mut tags, "AFAreaMode", af2_area_string(data[5], det, nikon1));
    }
    let schema: u8 = if data.len() >= 7 {
        data[6]
    } else {
        0
    };
    push_pair(&mut tags, "PhaseDetectAF", phase_detect_string(schema, det, nikon1));
    let schema_text = match schema {
        0 => "Off",
        1 => "51-point",
        2 => "11-point",
        3 => "39-point",
        4 => "73-point",
        5 => "5-point",
        6 => "105-point",
        7 => "153-point",
        8 => "81-point",
        9 => "105-point",
        _ => "Unknown",
    };
    push_pair(&mut tags, "FocusPointSchema", owned(schema_text));
    proof {
        assert(pairs_view(tags@) =~= af2_head_fields(data@));
    }
    push_af2_points(&mut tags, data, v03, schema);
    tags
}

} // verus!
