//! Nikon ColorBalance records: white-balance levels, the red and blue
//! balance derived from them, and the levels of Coolpix NRW files.
use vstd::prelude::*;
use crate::bytes::{Endianness, read_u16_at, read_u32_at};
use crate::tiff::{at_u16, at_u32};
use crate::text::{dec, owned, push_char, push_dec, fmt_dec, utf8_decode, utf8_str, starts_with, str_eq};
use crate::ratio::{ratio6_text, format_ratio6};
use crate::nikon::{pairs_view, push_pair, nikon_crypt, nikon_decrypt};
use crate::nikon_af::prefixed;

verus! {

/// Four numbers separated by spaces.
pub open spec fn four_text(a: nat, b: nat, c: nat, d: nat) -> Seq<char> {
    dec(a) + seq![' '] + dec(b) + seq![' '] + dec(c) + seq![' '] + dec(d)
}

fn four_string(a: u64, b: u64, c: u64, d: u64) -> (r: String)
    ensures
        r@ == four_text(a as nat, b as nat, c as nat, d as nat),
{
    let mut s = fmt_dec(a);
    push_char(&mut s, ' ');
    push_dec(&mut s, b);
    push_char(&mut s, ' ');
    push_dec(&mut s, c);
    push_char(&mut s, ' ');
    push_dec(&mut s, d);
    proof {
        assert(s@ =~= four_text(a as nat, b as nat, c as nat, d as nat));
    }
    s
}

/// How the four white-balance levels are ordered.
#[derive(Clone, Copy, PartialEq, Eq, Structural)]
pub enum ChannelOrder {
    Rbgg,
    Rggb,
    Rgbg,
    Grbg,
}

/// Red, blue and the sum of the two greens, for a channel order.
pub open spec fn channels(v: (u16, u16, u16, u16), o: ChannelOrder) -> (nat, nat, nat) {
    match o {
        ChannelOrder::Rbgg => (v.0 as nat, v.1 as nat, (v.2 + v.3) as nat),
        ChannelOrder::Rggb => (v.0 as nat, v.3 as nat, (v.1 + v.2) as nat),
        ChannelOrder::Rgbg => (v.0 as nat, v.2 as nat, (v.1 + v.3) as nat),
        ChannelOrder::Grbg => (v.1 as nat, v.2 as nat, (v.0 + v.3) as nat),
    }
}

/// The levels under `name` and, when the greens are not both zero,
/// RedBalance and BlueBalance: red and blue over the mean green, printed
/// to six decimals as the double quotient prints. Nothing for all-zero levels.
pub open spec fn levels_fields(name: &'static str, v: (u16, u16, u16, u16), o: ChannelOrder) -> Seq<
    (&'static str, Seq<char>),
> {
    if v.0 == 0 && v.1 == 0 && v.2 == 0 && v.3 == 0 {
        seq![]
    } else {
        let (r, b, g) = channels(v, o);
        let head = seq![(name, four_text(v.0 as nat, v.1 as nat, v.2 as nat, v.3 as nat))];
        if g > 0 {
            head + seq![("RedBalance", ratio6_text(2 * r, g)), ("BlueBalance", ratio6_text(2 * b, g))]
        } else {
            head
        }
    }
}

/// Four 16-bit levels at `pos`.
pub open spec fn four_u16(d: Seq<u8>, pos: int, e: Endianness) -> (u16, u16, u16, u16) {
    (at_u16(d, pos, e), at_u16(d, pos + 2, e), at_u16(d, pos + 4, e), at_u16(d, pos + 6, e))
}

fn read_four_u16(d: &[u8], pos: usize, e: Endianness) -> (r: (u16, u16, u16, u16))
    requires
        pos + 8 <= d.len(),
    ensures
        r == four_u16(d@, pos as int, e),
{
    (read_u16_at(d, pos, e), read_u16_at(d, pos + 2, e), read_u16_at(d, pos + 4, e), read_u16_at(
        d,
        pos + 6,
        e,
    ))
}

fn push_levels(
    tags: &mut Vec<(&'static str, String)>,
    name: &'static str,
    v: (u16, u16, u16, u16),
    o: ChannelOrder,
)
    ensures
        pairs_view(final(tags)@) == pairs_view(old(tags)@) + levels_fields(name, v, o),
{
    let ghost start = pairs_view(tags@);
    if v.0 == 0 && v.1 == 0 && v.2 == 0 && v.3 == 0 {
        assert(pairs_view(tags@) =~= start + levels_fields(name, v, o));
        return;
    }
    push_pair(tags, name, four_string(v.0 as u64, v.1 as u64, v.2 as u64, v.3 as u64));
    let (r, b, g): (u64, u64, u64) = match o {
        ChannelOrder::Rbgg => (v.0 as u64, v.1 as u64, v.2 as u64 + v.3 as u64),
        ChannelOrder::Rggb => (v.0 as u64, v.3 as u64, v.1 as u64 + v.2 as u64),
        ChannelOrder::Rgbg => (v.0 as u64, v.2 as u64, v.1 as u64 + v.3 as u64),
        ChannelOrder::Grbg => (v.1 as u64, v.2 as u64, v.0 as u64 + v.3 as u64),
    };
    if g > 0 {
        push_pair(tags, "RedBalance", format_ratio6(2 * r, g));
        push_pair(tags, "BlueBalance", format_ratio6(2 * b, g));
    }
    proof {
        assert(pairs_view(tags@) =~= start + levels_fields(name, v, o));
    }
}

/// Where the encrypted ColorBalance versions 02xx keep their levels: the
/// offset decryption starts at, the levels' offset from there, the tag name
/// and the channel order. Other versions are not read.
pub open spec fn encrypted_layout(v: Seq<char>) -> Option<(usize, usize, &'static str, ChannelOrder)> {
    if v == "0205"@ {
        Some((4, 14, "WB_RGGBLevels", ChannelOrder::Rggb))
    } else if v == "0204"@ || v == "0206"@ || v == "0207"@ || v == "0208"@ || v == "0210"@ {
        Some((284, 6, "WB_RGGBLevels", ChannelOrder::Rggb))
    } else if v == "0209"@ || v == "0212"@ || v == "0214"@ {
        Some((284, 10, "WB_GRBGLevels", ChannelOrder::Grbg))
    } else if v == "0211"@ {
        Some((284, 16, "WB_GRBGLevels", ChannelOrder::Grbg))
    } else if v == "0213"@ {
        Some((284, 10, "WB_RGGBLevels", ChannelOrder::Rggb))
    } else if v == "0215"@ || v == "0216"@ || v == "0217"@ {
        Some((284, 4, "WB_GRBGLevels", ChannelOrder::Grbg))
    } else if v == "0219"@ || v == "0221"@ || v == "0222"@ || v == "0223"@ || v == "0224"@ {
        Some((4, 0x7c, "WB_RGGBLevels", ChannelOrder::Rggb))
    } else {
        None
    }
}

fn encrypted_layout_of(v: &str) -> (r: Option<(usize, usize, &'static str, ChannelOrder)>)
    ensures
        r == encrypted_layout(v@),
{
    if str_eq(v, "0205") {
        Some((4, 14, "WB_RGGBLevels", ChannelOrder::Rggb))
    } else if str_eq(v, "0204") || str_eq(v, "0206") || str_eq(v, "0207") || str_eq(v, "0208")
        || str_eq(v, "0210") {
        Some((284, 6, "WB_RGGBLevels", ChannelOrder::Rggb))
    } else if str_eq(v, "0209") || str_eq(v, "0212") || str_eq(v, "0214") {
        Some((284, 10, "WB_GRBGLevels", ChannelOrder::Grbg))
    } else if str_eq(v, "0211") {
        Some((284, 16, "WB_GRBGLevels", ChannelOrder::Grbg))
    } else if str_eq(v, "0213") {
        Some((284, 10, "WB_RGGBLevels", ChannelOrder::Rggb))
    } else if str_eq(v, "0215") || str_eq(v, "0216") || str_eq(v, "0217") {
        Some((284, 4, "WB_GRBGLevels", ChannelOrder::Grbg))
    } else if str_eq(v, "0219") || str_eq(v, "0221") || str_eq(v, "0222") || str_eq(v, "0223")
        || str_eq(v, "0224") {
        Some((4, 0x7c, "WB_RGGBLevels", ChannelOrder::Rggb))
    } else {
        None
    }
}

/// The levels of an encrypted ColorBalance (versions 02xx), which need the
/// camera's serial number and shutter count to decrypt.
pub open spec fn encrypted_fields(
    data: Seq<u8>,
    v: Seq<char>,
    e: Endianness,
    serial: Option<u32>,
    count: Option<u32>,
) -> Seq<(&'static str, Seq<char>)> {
    match (serial, count, encrypted_layout(v)) {
        (Some(s), Some(c), Some((start, off, name, o))) => if data.len() < start + off + 8 {
            seq![]
        } else {
            levels_fields(
                name,
                four_u16(nikon_crypt(data, s, c, start as nat), start + off, e),
                o,
            )
        },
        _ => seq![],
    }
}

/// The levels of a ColorBalance that is not from an NRW file.
pub open spec fn plain_fields(
    data: Seq<u8>,
    v: Seq<char>,
    e: Endianness,
    serial: Option<u32>,
    count: Option<u32>,
) -> Seq<(&'static str, Seq<char>)> {
    if v == "0100"@ && data.len() >= 80 {
        levels_fields("WB_RBGGLevels", four_u16(data, 72, Endianness::Big), ChannelOrder::Rbgg)
    } else if v == "0102"@ && data.len() >= 18 {
        levels_fields("WB_RGGBLevels", four_u16(data, 10, Endianness::Big), ChannelOrder::Rggb)
    } else if v == "0103"@ && data.len() >= 28 {
        levels_fields("WB_RGBGLevels", four_u16(data, 20, Endianness::Big), ChannelOrder::Rgbg)
    } else if prefixed(v, "02"@) {
        encrypted_fields(data, v, e, serial, count)
    } else {
        seq![]
    }
}

/// A 32-bit value doubled, saturating at the largest one.
pub open spec fn doubled(x: u32) -> nat {
    if 2 * x > u32::MAX {
        u32::MAX as nat
    } else {
        2 * x as nat
    }
}

/// One set of NRW levels: four little-endian 32-bit values at `off`, the
/// first and last doubled; nothing when they do not fit or are all zero.
pub open spec fn nrw_levels_field(data: Seq<u8>, name: &'static str, off: nat) -> Seq<
    (&'static str, Seq<char>),
> {
    if data.len() < off + 16 {
        seq![]
    } else {
        let a = doubled(at_u32(data, off as int, Endianness::Little));
        let b = at_u32(data, (off + 4) as int, Endianness::Little) as nat;
        let c = at_u32(data, (off + 8) as int, Endianness::Little) as nat;
        let d = doubled(at_u32(data, (off + 12) as int, Endianness::Little));
        if a == 0 && b == 0 && c == 0 && d == 0 {
            seq![]
        } else {
            seq![(name, four_text(a, b, c, d))]
        }
    }
}

/// The NRW level sets: ColorBalanceB (version 0100) or ColorBalanceC.
pub open spec fn nrw_entry(b: bool, i: nat) -> (&'static str, nat) {
    if b {
        if i == 0 {
            ("WB_RGGBLevels", 0x13e8)
        } else if i == 1 {
            ("WB_RGGBLevelsDaylight", 0x13f8)
        } else if i == 2 {
            ("WB_RGGBLevelsCloudy", 0x1408)
        } else if i == 3 {
            ("WB_RGGBLevelsTungsten", 0x1428)
        } else if i == 4 {
            ("WB_RGGBLevelsFluorescentW", 0x1438)
        } else if i == 5 {
            ("WB_RGGBLevelsFlash", 0x1448)
        } else if i == 6 {
            ("WB_RGGBLevelsCustom", 0x1468)
        } else {
            ("WB_RGGBLevelsAuto", 0x1478)
        }
    } else {
        if i == 0 {
            ("WB_RGGBLevels", 0x0038)
        } else if i == 1 {
            ("WB_RGGBLevelsDaylight", 0x004c)
        } else if i == 2 {
            ("WB_RGGBLevelsCloudy", 0x0060)
        } else if i == 3 {
            ("WB_RGGBLevelsTungsten", 0x0088)
        } else if i == 4 {
            ("WB_RGGBLevelsFluorescentW", 0x009c)
        } else if i == 5 {
            ("WB_RGGBLevelsFluorescentN", 0x00b0)
        } else if i == 6 {
            ("WB_RGGBLevelsFluorescentD", 0x00c4)
        } else if i == 7 {
            ("WB_RGGBLevelsHTMercury", 0x00d8)
        } else if i == 8 {
            ("WB_RGGBLevelsCustom", 0x0100)
        } else {
            ("WB_RGGBLevelsAuto", 0x0114)
        }
    }
}

fn nrw_entry_exec(b: bool, i: u8) -> (r: (&'static str, usize))
    ensures
        r.0 == nrw_entry(b, i as nat).0,
        r.1 as nat == nrw_entry(b, i as nat).1,
{
    if b {
        match i {
            0 => ("WB_RGGBLevels", 0x13e8),
            1 => ("WB_RGGBLevelsDaylight", 0x13f8),
            2 => ("WB_RGGBLevelsCloudy", 0x1408),
            3 => ("WB_RGGBLevelsTungsten", 0x1428),
            4 => ("WB_RGGBLevelsFluorescentW", 0x1438),
            5 => ("WB_RGGBLevelsFlash", 0x1448),
            6 => ("WB_RGGBLevelsCustom", 0x1468),
            _ => ("WB_RGGBLevelsAuto", 0x1478),
        }
    } else {
        match i {
            0 => ("WB_RGGBLevels", 0x0038),
            1 => ("WB_RGGBLevelsDaylight", 0x004c),
            2 => ("WB_RGGBLevelsCloudy", 0x0060),
            3 => ("WB_RGGBLevelsTungsten", 0x0088),
            4 => ("WB_RGGBLevelsFluorescentW", 0x009c),
            5 => ("WB_RGGBLevelsFluorescentN", 0x00b0),
            6 => ("WB_RGGBLevelsFluorescentD", 0x00c4),
            7 => ("WB_RGGBLevelsHTMercury", 0x00d8),
            8 => ("WB_RGGBLevelsCustom", 0x0100),
            _ => ("WB_RGGBLevelsAuto", 0x0114),
        }
    }
}

/// The NRW level sets below entry `n`, in table order.
pub open spec fn nrw_levels(data: Seq<u8>, b: bool, n: nat) -> Seq<(&'static str, Seq<char>)>
    decreases n,
{
    if n == 0 {
        seq![]
    } else {
        let (name, off) = nrw_entry(b, (n - 1) as nat);
        nrw_levels(data, b, (n - 1) as nat) + nrw_levels_field(data, name, off)
    }
}

/// The fields of an NRW ColorBalance: its level sets and, but for version
/// 0100, BlackLevel.
pub open spec fn nrw_fields(data: Seq<u8>, v: Seq<char>) -> Seq<(&'static str, Seq<char>)> {
    let b = v == "0100"@;
    let count: nat = if b {
        8
    } else {
        10
    };
    nrw_levels(data, b, count) + if !b && data.len() >= 0x22 {
        seq![("BlackLevel", dec(at_u16(data, 0x20, Endianness::Little) as nat))]
    } else {
        seq![]
    }
}

fn doubled_exec(x: u32) -> (r: u32)
    ensures
        r as nat == doubled(x),
{
    if x > 0x7fff_ffff {
        u32::MAX
    } else {
        x * 2
    }
}

fn push_nrw_levels(tags: &mut Vec<(&'static str, String)>, data: &[u8], name: &'static str, off: usize)
    ensures
        pairs_view(final(tags)@) == pairs_view(old(tags)@) + nrw_levels_field(data@, name, off as nat),
{
    let ghost start = pairs_view(tags@);
    if data.len() < 16 || off > data.len() - 16 {
        assert(pairs_view(tags@) =~= start + nrw_levels_field(data@, name, off as nat));
        return;
    }
    let a = doubled_exec(read_u32_at(data, off, Endianness::Little));
    let b = read_u32_at(data, off + 4, Endianness::Little);
    let c = read_u32_at(data, off + 8, Endianness::Little);
    let d = doubled_exec(read_u32_at(data, off + 12, Endianness::Little));
    if !(a == 0 && b == 0 && c == 0 && d == 0) {
        push_pair(tags, name, four_string(a as u64, b as u64, c as u64, d as u64));
    }
    proof {
        assert(pairs_view(tags@) =~= start + nrw_levels_field(data@, name, off as nat));
    }
}

fn push_nrw(tags: &mut Vec<(&'static str, String)>, data: &[u8], b: bool)
    ensures
        pairs_view(final(tags)@) == pairs_view(old(tags)@) + nrw_levels(
            data@,
            b,
            if b {
                8
            } else {
                10
            },
        ),
{
    let ghost start = pairs_view(tags@);
    let count: u8 = if b {
        8
    } else {
        10
    };
    let mut i: u8 = 0;
    while i < count
        invariant
            i <= count,
            count == (if b {
                8u8
            } else {
                10u8
            }),
            pairs_view(tags@) == start + nrw_levels(data@, b, i as nat),
        decreases count - i,
    {
        let (name, off) = nrw_entry_exec(b, i);
        push_nrw_levels(tags, data, name, off);
        proof {
            assert(start + nrw_levels(data@, b, (i + 1) as nat) =~= start + nrw_levels(data@, b, i as nat)
                + nrw_levels_field(data@, name, off as nat));
        }
        i = i + 1;
    }
}

/// Whether the data starts with "NRW ".
pub open spec fn is_nrw(data: Seq<u8>) -> bool {
    data[0] == 78 && data[1] == 82 && data[2] == 87 && data[3] == 32
}

/// The version field: at offset 4 in NRW files, else at 0.
pub open spec fn cb_version(data: Seq<u8>) -> Option<Seq<char>> {
    if is_nrw(data) {
        utf8_decode(data.subrange(4, 8))
    } else {
        utf8_decode(data.take(4))
    }
}

/// The fields of ColorBalance (nothing below eight bytes or when the version
/// is not UTF-8).
pub open spec fn color_balance_fields(
    data: Seq<u8>,
    e: Endianness,
    serial: Option<u32>,
    count: Option<u32>,
) -> Seq<(&'static str, Seq<char>)> {
    if data.len() < 8 {
        seq![]
    } else {
        match cb_version(data) {
            None => seq![],
            Some(v) => seq![("ColorBalanceVersion", v)] + if is_nrw(data) {
                nrw_fields(data, v)
            } else {
                plain_fields(data, v, e, serial, count)
            },
        }
    }
}

fn push_encrypted(
    tags: &mut Vec<(&'static str, String)>,
    data: &[u8],
    v: &str,
    e: Endianness,
    serial: Option<u32>,
    count: Option<u32>,
)
    ensures
        pairs_view(final(tags)@) == pairs_view(old(tags)@) + encrypted_fields(
            data@,
            v@,
            e,
            serial,
            count,
        ),
{
    let ghost start = pairs_view(tags@);
    match (serial, count) {
        (Some(s), Some(c)) => {
            match encrypted_layout_of(v) {
                Some((ds, off, name, o)) => {
                    let at = ds + off;
                    if data.len() < at + 8 {
                        assert(pairs_view(tags@) =~= start + encrypted_fields(data@, v@, e, serial, count));
                        return;
                    }
                    let mut dec_data = vstd::slice::slice_to_vec(data);
                    nikon_decrypt(s, c, &mut dec_data, ds);
                    let vals = read_four_u16(dec_data.as_slice(), at, e);
                    push_levels(tags, name, vals, o);
                },
                None => {},
            }
        },
        _ => {},
    }
    proof {
        assert(pairs_view(tags@) =~= start + encrypted_fields(data@, v@, e, serial, count));
    }
}

fn push_plain(
    tags: &mut Vec<(&'static str, String)>,
    data: &[u8],
    v: &str,
    e: Endianness,
    serial: Option<u32>,
    count: Option<u32>,
)
    ensures
        pairs_view(final(tags)@) == pairs_view(old(tags)@) + plain_fields(data@, v@, e, serial, count),
{
    let ghost start = pairs_view(tags@);
    if str_eq(v, "0100") && data.len() >= 80 {
        push_levels(tags, "WB_RBGGLevels", read_four_u16(data, 72, Endianness::Big), ChannelOrder::Rbgg);
    } else if str_eq(v, "0102") && data.len() >= 18 {
        push_levels(tags, "WB_RGGBLevels", read_four_u16(data, 10, Endianness::Big), ChannelOrder::Rggb);
    } else if str_eq(v, "0103") && data.len() >= 28 {
        push_levels(tags, "WB_RGBGLevels", read_four_u16(data, 20, Endianness::Big), ChannelOrder::Rgbg);
    } else if starts_with(v, "02") {
        push_encrypted(tags, data, v, e, serial, count);
    }
    proof {
        assert(pairs_view(tags@) =~= start + plain_fields(data@, v@, e, serial, count));
    }
}

/// Parses ColorBalance (tag 0x0097). The encrypted versions need the
/// camera's serial number and shutter count.
pub fn parse_color_balance(
    data: &[u8],
    endian: Endianness,
    serial: Option<u32>,
    shutter_count: Option<u32>,
) -> (r: Vec<(&'static str, String)>)
    ensures
        pairs_view(r@) == color_balance_fields(data@, endian, serial, shutter_count),
{
    let mut tags: Vec<(&'static str, String)> = Vec::new();
    if data.len() < 8 {
        assert(pairs_view(tags@) =~= seq![]);
        return tags;
    }
    let nrw = data[0] == 78 && data[1] == 82 && data[2] == 87 && data[3] == 32;
    assert(data@.subrange(0, 4) =~= data@.take(4));
    let decoded = if nrw {
        utf8_str(&data[4..8])
    } else {
        utf8_str(&data[0..4])
    };
    let version: &str = match decoded {
        Some(t) => t,
        None => {
            assert(pairs_view(tags@) =~= seq![]);
            return tags;
        },
    };
    push_pair(&mut tags, "ColorBalanceVersion", owned(version));
    if nrw {
        let b = str_eq(version, "0100");
        push_nrw(&mut tags, data, b);
        if !b && data.len() >= 0x22 {
            push_pair(
                &mut tags,
                "BlackLevel",
                fmt_dec(read_u16_at(data, 0x20, Endianness::Little) as u64),
            );
        }
    } else {
        push_plain(&mut tags, data, version, endian, serial, shutter_count);
    }
    proof {
        assert(pairs_view(tags@) =~= color_balance_fields(data@, endian, serial, shutter_count));
    }
    tags
}

} // verus!
