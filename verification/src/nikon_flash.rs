//! Nikon FlashInfo and ISOInfo records.
use vstd::prelude::*;
use crate::bytes::{Endianness, be16, read_u16, read_u16_at};
use crate::text::{
    dec, join, views, push_char, push_dec, owned, push_str, wrap_dec, join_strings, fmt_dec, push_tenths, tenths_text, round_half_even, utf8_lossy, lossy_string, starts_with, str_eq,
};
use crate::nikon::{
    pairs_view, push_pair, z_series, is_nikon_z_series, flash_control_mode_name, decode_flash_control_mode, flash_firmware_text, format_flash_firmware, iso_expansion_name, decode_iso_expansion_exiftool,
};
use crate::nikon_af::prefixed;
use crate::text::unicode_upper;

verus! {

/// A one-field list when `c` holds, else an empty one.
pub open spec fn opt(c: bool, name: &'static str, value: Seq<char>) -> Seq<(&'static str, Seq<char>)> {
    if c {
        seq![(name, value)]
    } else {
        seq![]
    }
}

// ---------------------------------------------------------------------------
// Flash compensation
// ---------------------------------------------------------------------------

/// A flash compensation stored as a signed byte `c`, worth `-c/6` EV, as
/// text: "0"; a sign and a whole number; a sign, an optional whole number
/// and "1/3", "1/2" or "2/3"; or, for sixths that are none of these, a sign
/// and the value to one decimal (no tie can arise in that rounding).
pub open spec fn flash_comp_text(b: u8) -> Seq<char> {
    let c = (b as i8) as int;
    if c == 0 {
        "0"@
    } else {
        let sign = if c > 0 {
            "-"@
        } else {
            "+"@
        };
        let a: nat = if c > 0 {
            c as nat
        } else {
            (-c) as nat
        };
        let whole = a / 6;
        let r = a % 6;
        if r == 2 || r == 3 || r == 4 {
            let frac = if r == 2 {
                "1/3"@
            } else if r == 3 {
                "1/2"@
            } else {
                "2/3"@
            };
            if whole == 0 {
                sign + frac
            } else {
                sign + dec(whole) + " "@ + frac
            }
        } else if r == 0 {
            sign + dec(whole)
        } else {
            sign + tenths_text(round_half_even(a * 10, 6))
        }
    }
}

/// Formats a flash compensation byte (`-c/6` EV).
pub fn format_flash_compensation(b: u8) -> (r: String)
    ensures
        r@ == flash_comp_text(b),
{
    let c = b as i8;
    if c == 0 {
        return owned("0");
    }
    let mut s = if c > 0 {
        owned("-")
    } else {
        owned("+")
    };
    let a: u64 = if c > 0 {
        c as u64
    } else {
        (-(c as i64)) as u64
    };
    let whole = a / 6;
    let r = a % 6;
    let ghost sign = s@;
    if r == 2 || r == 3 || r == 4 {
        let frac = if r == 2 {
            "1/3"
        } else if r == 3 {
            "1/2"
        } else {
            "2/3"
        };
        if whole != 0 {
            push_dec(&mut s, whole);
            push_str(&mut s, " ");
        }
        push_str(&mut s, frac);
    } else if r == 0 {
        push_dec(&mut s, whole);
    } else {
        let q = (a * 10) / 6;
        let rem = (a * 10) % 6;
        let t = if 2 * rem > 6 || (2 * rem == 6 && q % 2 == 1) {
            q + 1
        } else {
            q
        };
        push_tenths(&mut s, t);
    }
    proof {
        assert(s@ =~= flash_comp_text(b));
    }
    s
}

// ---------------------------------------------------------------------------
// FlashInfo
// ---------------------------------------------------------------------------

/// FlashSource.
pub open spec fn flash_source_name(v: u8) -> &'static str {
    match v {
        0 => "None",
        1 => "External",
        2 => "Internal",
        _ => "Unknown",
    }
}

/// Distinct flash source codes that the table knows read as distinct names.
pub proof fn law_flash_source_names_distinct(a: u8, b: u8)
    requires
        a != b,
        flash_source_name(a) != "Unknown",
        flash_source_name(b) != "Unknown",
    ensures
        flash_source_name(a) != flash_source_name(b),
{
    reveal_strlit("External");
    reveal_strlit("Internal");
    reveal_strlit("None");
    reveal_strlit("Unknown");
}

/// The words for ExternalFlashFlags bits below `n` that have no name, "[n]".
pub open spec fn unnamed_flash_bits(flags: u8, n: nat) -> Seq<Seq<char>>
    decreases n,
{
    if n == 0 {
        seq![]
    } else {
        let prev = unnamed_flash_bits(flags, (n - 1) as nat);
        let bit = (n - 1) as u8;
        if bit != 0 && bit != 2 && bit != 4 && bit != 5 && flags & (1u8 << bit) != 0 {
            prev.push("["@ + dec(bit as nat) + "]"@)
        } else {
            prev
        }
    }
}

/// The named ExternalFlashFlags that are set: Fired, Bounce Flash, Wide
/// Flash Adapter, Dome Diffuser.
pub open spec fn named_flash_flags(flags: u8) -> Seq<Seq<char>> {
    let a: Seq<Seq<char>> = if flags & 0x01 != 0 {
        seq!["Fired"@]
    } else {
        seq![]
    };
    let b = if flags & 0x04 != 0 {
        a.push("Bounce Flash"@)
    } else {
        a
    };
    let c = if flags & 0x10 != 0 {
        b.push("Wide Flash Adapter"@)
    } else {
        b
    };
    if flags & 0x20 != 0 {
        c.push("Dome Diffuser"@)
    } else {
        c
    }
}

/// ExternalFlashFlags: the named flags and then the other set bits, or "(none)".
pub open spec fn flash_flags_text(flags: u8) -> Seq<char> {
    if flags == 0 {
        "(none)"@
    } else {
        join(named_flash_flags(flags) + unnamed_flash_bits(flags, 8), ", "@)
    }
}

fn push_named(parts: &mut Vec<String>, name: &str)
    ensures
        views(final(parts)@) == views(old(parts)@).push(name@),
{
    let ghost before = parts@;
    parts.push(owned(name));
    proof {
        assert(views(parts@) =~= views(before).push(name@));
    }
}

fn flash_flags_string(flags: u8) -> (r: String)
    ensures
        r@ == flash_flags_text(flags),
{
    if flags == 0 {
        return owned("(none)");
    }
    let mut parts: Vec<String> = Vec::new();
    if flags & 0x01 != 0 {
        push_named(&mut parts, "Fired");
    }
    assert(views(parts@) =~= (if flags & 0x01 != 0 {
        seq!["Fired"@]
    } else {
        Seq::<Seq<char>>::empty()
    }));
    if flags & 0x04 != 0 {
        push_named(&mut parts, "Bounce Flash");
    }
    if flags & 0x10 != 0 {
        push_named(&mut parts, "Wide Flash Adapter");
    }
    if flags & 0x20 != 0 {
        push_named(&mut parts, "Dome Diffuser");
    }
    let ghost named = views(parts@);
    assert(named =~= named_flash_flags(flags));
    let mut bit: u8 = 0;
    while bit < 8
        invariant
            bit <= 8,
            views(parts@) == named + unnamed_flash_bits(flags, bit as nat),
        decreases 8 - bit,
    {
        if bit != 0 && bit != 2 && bit != 4 && bit != 5 && flags & (1u8 << bit) != 0 {
            let ghost before = parts@;
            let w = wrap_dec("[", bit as u64, "]");
            let ghost wv = w@;
            parts.push(w);
            proof {
                assert(views(parts@) =~= views(before).push(wv));
            }
        }
        bit = bit + 1;
    }
    proof {
        assert(named + unnamed_flash_bits(flags, 8) == views(parts@));
    }
    join_strings(&parts, ", ")
}

/// FlashGNDistance: a guide-number distance in metres.
pub open spec fn gn_distance_text(gn: u8) -> Seq<char> {
    match gn {
        0 => "0"@,
        1 => "0.1 m"@,
        2 => "0.2 m"@,
        3 => "0.3 m"@,
        4 => "0.4 m"@,
        5 => "0.5 m"@,
        6 => "0.6 m"@,
        7 => "0.7 m"@,
        8 => "0.8 m"@,
        9 => "0.9 m"@,
        10 => "1.0 m"@,
        11 => "1.1 m"@,
        12 => "1.3 m"@,
        13 => "1.4 m"@,
        14 => "1.6 m"@,
        15 => "1.8 m"@,
        16 => "2.0 m"@,
        17 => "2.2 m"@,
        18 => "2.5 m"@,
        19 => "2.8 m"@,
        20 => "3.2 m"@,
        21 => "3.6 m"@,
        22 => "4.0 m"@,
        23 => "4.5 m"@,
        24 => "5.0 m"@,
        25 => "5.6 m"@,
        26 => "6.3 m"@,
        27 => "7.1 m"@,
        28 => "8.0 m"@,
        29 => "9.0 m"@,
        30 => "10.0 m"@,
        31 => "11.0 m"@,
        32 => "13.0 m"@,
        33 => "14.0 m"@,
        34 => "16.0 m"@,
        35 => "18.0 m"@,
        36 => "20.0 m"@,
        255 => "n/a"@,
        _ => dec(gn as nat),
    }
}

fn gn_distance_string(gn: u8) -> (r: String)
    ensures
        r@ == gn_distance_text(gn),
{
    let t = match gn {
        0 => "0",
        1 => "0.1 m",
        2 => "0.2 m",
        3 => "0.3 m",
        4 => "0.4 m",
        5 => "0.5 m",
        6 => "0.6 m",
        7 => "0.7 m",
        8 => "0.8 m",
        9 => "0.9 m",
        10 => "1.0 m",
        11 => "1.1 m",
        12 => "1.3 m",
        13 => "1.4 m",
        14 => "1.6 m",
        15 => "1.8 m",
        16 => "2.0 m",
        17 => "2.2 m",
        18 => "2.5 m",
        19 => "2.8 m",
        20 => "3.2 m",
        21 => "3.6 m",
        22 => "4.0 m",
        23 => "4.5 m",
        24 => "5.0 m",
        25 => "5.6 m",
        26 => "6.3 m",
        27 => "7.1 m",
        28 => "8.0 m",
        29 => "9.0 m",
        30 => "10.0 m",
        31 => "11.0 m",
        32 => "13.0 m",
        33 => "14.0 m",
        34 => "16.0 m",
        35 => "18.0 m",
        36 => "20.0 m",
        255 => "n/a",
        _ => return fmt_dec(gn as u64),
    };
    owned(t)
}

/// FlashColorFilter.
pub open spec fn color_filter_name(v: u8) -> &'static str {
    match v {
        0 => "None",
        1 => "FL-GL1 or SZ-2FL Fluorescent",
        2 => "FL-GL2",
        9 => "TN-A1 or SZ-2TN Incandescent",
        10 => "TN-A2",
        65 => "Red",
        66 => "Blue",
        67 => "Yellow",
        68 => "Amber",
        128 => "Incandescent",
        _ => "Unknown",
    }
}

/// Distinct color filter codes that the table knows read as distinct names.
pub proof fn law_color_filter_names_distinct(a: u8, b: u8)
    requires
        a != b,
        color_filter_name(a) != "Unknown",
        color_filter_name(b) != "Unknown",
    ensures
        color_filter_name(a) != color_filter_name(b),
{
    reveal_strlit("Amber");
    reveal_strlit("Blue");
    reveal_strlit("FL-GL1 or SZ-2FL Fluorescent");
    reveal_strlit("FL-GL2");
    reveal_strlit("Incandescent");
    reveal_strlit("None");
    reveal_strlit("Red");
    reveal_strlit("TN-A1 or SZ-2TN Incandescent");
    reveal_strlit("TN-A2");
    reveal_strlit("Yellow");
    reveal_strlit("Unknown");
}

fn color_filter_of(v: u8) -> (r: &'static str)
    ensures
        r == color_filter_name(v),
{
    match v {
        0 => "None",
        1 => "FL-GL1 or SZ-2FL Fluorescent",
        2 => "FL-GL2",
        9 => "TN-A1 or SZ-2TN Incandescent",
        10 => "TN-A2",
        65 => "Red",
        66 => "Blue",
        67 => "Yellow",
        68 => "Amber",
        128 => "Incandescent",
        _ => "Unknown",
    }
}

/// A count of something that 0 and 255 leave unset.
pub open spec fn set_byte(v: u8) -> bool {
    v != 0 && v != 255
}

/// The fields every FlashInfo version 010x has (ten bytes at least).
#[verifier::opaque]
pub open spec fn flash_common_fields(data: Seq<u8>, z: bool) -> Seq<(&'static str, Seq<char>)> {
    seq![
        ("FlashSource", flash_source_name(data[4])@),
        (
            "ExternalFlashFirmware",
            if data[6] == 0 && data[7] == 0 {
                "n/a"@
            } else {
                flash_firmware_text(data[6], data[7])
            },
        ),
        ("ExternalFlashFlags", flash_flags_text(data[8])),
        (
            "FlashCommanderMode",
            if (data[9] & 0x80) >> 7u8 == 0 {
                "Off"@
            } else {
                "On"@
            },
        ),
    ] + opt(!z, "FlashControlMode", flash_control_mode_name(data[9] & 0x7F)@) + opt(
        data.len() > 10,
        "FlashCompensation",
        flash_comp_text(data[10]),
    )
}

/// The FlashInfo fields of versions 0102 to 0108 before the flash groups.
#[verifier::opaque]
pub open spec fn flash_extended_head(data: Seq<u8>) -> Seq<(&'static str, Seq<char>)> {
    let n = data.len();
    opt(n > 12 && set_byte(data[12]), "FlashFocalLength", dec(data[12] as nat) + " mm"@) + opt(
        n > 13 && set_byte(data[13]),
        "RepeatingFlashRate",
        dec(data[13] as nat) + " Hz"@,
    ) + opt(n > 14 && set_byte(data[14]), "RepeatingFlashCount", dec(data[14] as nat)) + opt(
        n > 15,
        "FlashGNDistance",
        gn_distance_text(data[15]),
    ) + opt(n > 16, "FlashColorFilter", color_filter_name(data[16])@)
}

/// The flash-group control modes of FlashInfo versions 0102 to 0108, one
/// byte earlier in version 0102.
#[verifier::opaque]
pub open spec fn flash_group_modes(data: Seq<u8>, v0102: bool) -> Seq<(&'static str, Seq<char>)> {
    let n = data.len();
    let g: int = if v0102 {
        16
    } else {
        17
    };
    opt(n > g, "FlashGroupAControlMode", flash_control_mode_name(data[g] & 0x0F)@) + (if n > g
        + 1 {
        seq![
            ("FlashGroupBControlMode", flash_control_mode_name((data[g + 1] & 0xF0) >> 4u8)@),
            ("FlashGroupCControlMode", flash_control_mode_name(data[g + 1] & 0x0F)@),
        ]
    } else {
        seq![]
    })
}

/// The flash compensations of FlashInfo versions 0102 to 0108; version 0102
/// places the group ones one byte earlier and lacks the last three.
#[verifier::opaque]
pub open spec fn flash_group_comps(data: Seq<u8>, v0102: bool) -> Seq<(&'static str, Seq<char>)> {
    let n = data.len();
    let k: int = if v0102 {
        18
    } else {
        19
    };
    opt(n > k, "FlashGroupACompensation", flash_comp_text(data[k])) + opt(
        n > k + 1,
        "FlashGroupBCompensation",
        flash_comp_text(data[k + 1]),
    ) + opt(n > k + 2, "FlashGroupCCompensation", flash_comp_text(data[k + 2])) + opt(
        !v0102 && n > 0x1b,
        "ExternalFlashCompensation",
        flash_comp_text(data[0x1b]),
    ) + opt(!v0102 && n > 0x1d, "FlashExposureComp3", flash_comp_text(data[0x1d])) + opt(
        !v0102 && n > 0x27,
        "FlashExposureComp4",
        flash_comp_text(data[0x27]),
    )
}

/// The FlashInfo fields of versions 0102 to 0108.
pub open spec fn flash_extended_fields(data: Seq<u8>, v0102: bool) -> Seq<
    (&'static str, Seq<char>),
> {
    flash_extended_head(data) + flash_group_modes(data, v0102) + flash_group_comps(data, v0102)
}

/// The FlashInfo fields of versions 0100 and 0101 (19 bytes at least).
#[verifier::opaque]
pub open spec fn flash_old_fields(data: Seq<u8>) -> Seq<(&'static str, Seq<char>)> {
    seq![
        ("FlashGNDistance", gn_distance_text(data[14])),
        ("FlashGroupAControlMode", flash_control_mode_name(data[15] & 0x0F)@),
        ("FlashGroupBControlMode", flash_control_mode_name(data[16] & 0x0F)@),
        ("FlashGroupACompensation", flash_comp_text(data[17])),
        ("FlashGroupBCompensation", flash_comp_text(data[18])),
    ]
}

/// Whether a FlashInfo version is one of 0102 to 0108.
pub open spec fn extended_flash_version(v: Seq<char>) -> bool {
    ||| v == "0102"@
    ||| v == "0103"@
    ||| v == "0104"@
    ||| v == "0105"@
    ||| v == "0106"@
    ||| v == "0107"@
    ||| v == "0108"@
}

/// The fields of FlashInfo. Z-series cameras record FlashControlMode
/// elsewhere, so it is left out for them.
pub open spec fn flash_info_fields(data: Seq<u8>, z: bool) -> Seq<(&'static str, Seq<char>)> {
    if data.len() < 4 {
        seq![]
    } else {
        let v = utf8_lossy(data.take(4));
        let head = seq![("FlashInfoVersion", v)];
        if prefixed(v, "010"@) && data.len() >= 10 {
            let common = head + flash_common_fields(data, z);
            if extended_flash_version(v) {
                common + flash_extended_fields(data, v == "0102"@)
            } else if (v == "0100"@ || v == "0101"@) && data.len() >= 19 {
                common + flash_old_fields(data)
            } else {
                common
            }
        } else {
            head
        }
    }
}

/// For a Z-series model FlashInfo reads as without a model, with every
/// FlashControlMode field left out and the other fields in their order.
/// Without a model that field is the sixth, and the only one of its name;
/// notes that stop before it read the same either way.
pub proof fn law_z_series_flash_info_drops_control_mode(data: Seq<u8>)
    ensures
        flash_info_fields(data, true) == without_control_mode(flash_info_fields(data, false)),
        if data.len() >= 10 && prefixed(utf8_lossy(data.take(4)), "010"@) {
            &&& flash_info_fields(data, false).len() > 5
            &&& flash_info_fields(data, false)[5].0 == "FlashControlMode"
            &&& flash_info_fields(data, true) == flash_info_fields(data, false).remove(5)
        } else {
            flash_info_fields(data, true) == flash_info_fields(data, false)
        },
{
    if data.len() >= 10 && prefixed(utf8_lossy(data.take(4)), "010"@) {
        lemma_z_fields_removed(data);
        lemma_z_fields_filtered(data);
    } else {
        lemma_flash_names_differ();
        lemma_all_kept(flash_info_fields(data, false));
    }
}

/// The fields of a "010x" FlashInfo, split around FlashControlMode.
pub open spec fn flash_fields_rest(data: Seq<u8>) -> Seq<(&'static str, Seq<char>)> {
    let v = utf8_lossy(data.take(4));
    if extended_flash_version(v) {
        flash_extended_fields(data, v == "0102"@)
    } else if (v == "0100"@ || v == "0101"@) && data.len() >= 19 {
        flash_old_fields(data)
    } else {
        seq![]
    }
}

proof fn lemma_z_fields_removed(data: Seq<u8>)
    requires
        data.len() >= 10,
        prefixed(utf8_lossy(data.take(4)), "010"@),
    ensures
        flash_info_fields(data, false).len() > 5,
        flash_info_fields(data, false)[5].0 == "FlashControlMode",
        flash_info_fields(data, true) == flash_info_fields(data, false).remove(5),
        flash_info_fields(data, false) == seq![("FlashInfoVersion", utf8_lossy(data.take(4)))]
            + flash_common_fields(data, false) + flash_fields_rest(data),
        flash_info_fields(data, true) == seq![("FlashInfoVersion", utf8_lossy(data.take(4)))]
            + flash_common_fields(data, true) + flash_fields_rest(data),
        ({
            let w = seq![("FlashInfoVersion", utf8_lossy(data.take(4)))] + flash_common_fields(data, false);
            let comp = opt(data.len() > 10, "FlashCompensation", flash_comp_text(data[10]));
            &&& w.len() > 5
            &&& w == w.take(5) + seq![w[5]] + comp
            &&& seq![("FlashInfoVersion", utf8_lossy(data.take(4)))] + flash_common_fields(data, true)
                == w.take(5) + comp
            &&& w[5].0 == "FlashControlMode"
            &&& forall|i: int| 0 <= i < 5 ==> w[i].0 != "FlashControlMode"
        }),
{
    reveal(flash_common_fields);
    lemma_flash_names_differ();
    let v = utf8_lossy(data.take(4));
    let head = seq![("FlashInfoVersion", v)];
    let with_mode = head + flash_common_fields(data, false);
    let without = head + flash_common_fields(data, true);
    let rest = flash_fields_rest(data);
    assert(without =~= with_mode.remove(5));
    assert(flash_info_fields(data, false) =~= with_mode + rest);
    assert(flash_info_fields(data, true) =~= without + rest);
    assert(without + rest =~= (with_mode + rest).remove(5));
    let comp = opt(data.len() > 10, "FlashCompensation", flash_comp_text(data[10]));
    assert(with_mode =~= with_mode.take(5) + seq![with_mode[5]] + comp);
    assert(without =~= with_mode.take(5) + comp);
}

proof fn lemma_mode_dropped(e: (&'static str, Seq<char>))
    requires
        e.0 == "FlashControlMode",
    ensures
        without_control_mode(seq![e]) == Seq::<(&'static str, Seq<char>)>::empty(),
{
    reveal(Seq::filter);
    let z = Seq::<(&'static str, Seq<char>)>::empty();
    assert(seq![e].drop_last() =~= z);
    assert(z.filter(not_control_mode()) == z);
    assert(!(not_control_mode())(e));
    assert(seq![e].last() == e);
}

proof fn lemma_z_fields_filtered(data: Seq<u8>)
    requires
        data.len() >= 10,
        prefixed(utf8_lossy(data.take(4)), "010"@),
    ensures
        flash_info_fields(data, true) == without_control_mode(flash_info_fields(data, false)),
{
    lemma_z_fields_removed(data);
    let w = seq![("FlashInfoVersion", utf8_lossy(data.take(4)))] + flash_common_fields(data, false);
    let comp = opt(data.len() > 10, "FlashCompensation", flash_comp_text(data[10]));
    lemma_flash_names_differ();
    lemma_opt_kept(data.len() > 10, "FlashCompensation", flash_comp_text(data[10]));
    lemma_rest_kept(data);
    lemma_filter_split(w.take(5), w[5], comp, flash_fields_rest(data));
}

/// Leaving FlashControlMode out of fields split around it.
proof fn lemma_filter_split(
    first: Seq<(&'static str, Seq<char>)>,
    mode: (&'static str, Seq<char>),
    comp: Seq<(&'static str, Seq<char>)>,
    rest: Seq<(&'static str, Seq<char>)>,
)
    requires
        forall|i: int| 0 <= i < first.len() ==> first[i].0 != "FlashControlMode",
        mode.0 == "FlashControlMode",
        without_control_mode(comp) == comp,
        without_control_mode(rest) == rest,
    ensures
        without_control_mode(first + seq![mode] + comp + rest) == first + comp + rest,
{
    lemma_all_kept(first);
    lemma_mode_dropped(mode);
    Seq::filter_distributes_over_add(first + seq![mode], comp + rest, not_control_mode());
    Seq::filter_distributes_over_add(first, seq![mode], not_control_mode());
    Seq::filter_distributes_over_add(comp, rest, not_control_mode());
    assert(first + seq![mode] + comp + rest =~= (first + seq![mode]) + (comp + rest));
    assert(first + Seq::<(&'static str, Seq<char>)>::empty() =~= first);
    assert(first + comp + rest =~= first + (comp + rest));
}

/// The fields after FlashCompensation are all kept.
proof fn lemma_rest_kept(data: Seq<u8>)
    ensures
        without_control_mode(flash_fields_rest(data)) == flash_fields_rest(data),
{
    lemma_tail_kept(data);
    let v = utf8_lossy(data.take(4));
    if !extended_flash_version(v) && !((v == "0100"@ || v == "0101"@) && data.len() >= 19) {
        lemma_all_kept(Seq::<(&'static str, Seq<char>)>::empty());
    }
}

/// Whether a field is kept when FlashControlMode is left out.
pub open spec fn not_control_mode() -> spec_fn((&'static str, Seq<char>)) -> bool {
    |p: (&'static str, Seq<char>)| p.0 != "FlashControlMode"
}

/// The fields with every FlashControlMode field left out, the others in order.
pub open spec fn without_control_mode(f: Seq<(&'static str, Seq<char>)>) -> Seq<(&'static str, Seq<char>)> {
    f.filter(not_control_mode())
}

/// Fields none of which is FlashControlMode are all kept.
proof fn lemma_all_kept(f: Seq<(&'static str, Seq<char>)>)
    requires
        forall|i: int| 0 <= i < f.len() ==> f[i].0 != "FlashControlMode",
    ensures
        without_control_mode(f) == f,
    decreases f.len(),
{
    reveal(Seq::filter);
    if f.len() > 0 {
        lemma_all_kept(f.drop_last());
        assert(f.drop_last().push(f.last()) =~= f);
    }
}

/// Kept parts stay kept when joined.
proof fn lemma_kept_join(a: Seq<(&'static str, Seq<char>)>, b: Seq<(&'static str, Seq<char>)>)
    requires
        without_control_mode(a) == a,
        without_control_mode(b) == b,
    ensures
        without_control_mode(a + b) == a + b,
{
    Seq::filter_distributes_over_add(a, b, not_control_mode());
}

/// An optional field with another name is kept.
proof fn lemma_opt_kept(c: bool, name: &'static str, value: Seq<char>)
    requires
        name != "FlashControlMode",
    ensures
        without_control_mode(opt(c, name, value)) == opt(c, name, value),
{
    lemma_all_kept(opt(c, name, value));
}

/// The names other than FlashControlMode in FlashInfo differ from it.
proof fn lemma_flash_names_differ()
    ensures
        "FlashInfoVersion" != "FlashControlMode",
        "FlashSource" != "FlashControlMode",
        "ExternalFlashFirmware" != "FlashControlMode",
        "ExternalFlashFlags" != "FlashControlMode",
        "FlashCommanderMode" != "FlashControlMode",
        "FlashCompensation" != "FlashControlMode",
        "FlashFocalLength" != "FlashControlMode",
        "RepeatingFlashRate" != "FlashControlMode",
        "RepeatingFlashCount" != "FlashControlMode",
        "FlashGNDistance" != "FlashControlMode",
        "FlashColorFilter" != "FlashControlMode",
        "FlashGroupAControlMode" != "FlashControlMode",
        "FlashGroupBControlMode" != "FlashControlMode",
        "FlashGroupCControlMode" != "FlashControlMode",
        "FlashGroupACompensation" != "FlashControlMode",
        "FlashGroupBCompensation" != "FlashControlMode",
        "FlashGroupCCompensation" != "FlashControlMode",
        "ExternalFlashCompensation" != "FlashControlMode",
        "FlashExposureComp3" != "FlashControlMode",
        "FlashExposureComp4" != "FlashControlMode",
{
    reveal_strlit("FlashControlMode");
    reveal_strlit("FlashInfoVersion");
    reveal_strlit("FlashSource");
    reveal_strlit("ExternalFlashFirmware");
    reveal_strlit("ExternalFlashFlags");
    reveal_strlit("FlashCommanderMode");
    reveal_strlit("FlashCompensation");
    reveal_strlit("FlashFocalLength");
    reveal_strlit("RepeatingFlashRate");
    reveal_strlit("RepeatingFlashCount");
    reveal_strlit("FlashGNDistance");
    reveal_strlit("FlashColorFilter");
    reveal_strlit("FlashGroupAControlMode");
    reveal_strlit("FlashGroupBControlMode");
    reveal_strlit("FlashGroupCControlMode");
    reveal_strlit("FlashGroupACompensation");
    reveal_strlit("FlashGroupBCompensation");
    reveal_strlit("FlashGroupCCompensation");
    reveal_strlit("ExternalFlashCompensation");
    reveal_strlit("FlashExposureComp3");
    reveal_strlit("FlashExposureComp4");
    assert("FlashFocalLength"@[5] != "FlashControlMode"@[5]);
    assert("FlashColorFilter"@[7] != "FlashControlMode"@[7]);
    assert("FlashInfoVersion"@[5] != "FlashControlMode"@[5]);
}

/// The group fields of FlashInfo versions 0102 to 0108 hold no FlashControlMode.
proof fn lemma_extended_kept(data: Seq<u8>, v0102: bool)
    requires
        without_control_mode(flash_extended_head(data)) == flash_extended_head(data),
    ensures
        without_control_mode(flash_extended_fields(data, v0102)) == flash_extended_fields(data, v0102),
{
    lemma_flash_names_differ();
    reveal(flash_group_modes);
    reveal(flash_group_comps);
    let n = data.len();
    let head = flash_extended_head(data);
    let g: int = if v0102 {
        16
    } else {
        17
    };
    let m1 = opt(n > g, "FlashGroupAControlMode", flash_control_mode_name(data[g] & 0x0F)@);
    let m2: Seq<(&'static str, Seq<char>)> = if n > g + 1 {
        seq![
            ("FlashGroupBControlMode", flash_control_mode_name((data[g + 1] & 0xF0) >> 4u8)@),
            ("FlashGroupCControlMode", flash_control_mode_name(data[g + 1] & 0x0F)@),
        ]
    } else {
        seq![]
    };
    lemma_opt_kept(n > g, "FlashGroupAControlMode", flash_control_mode_name(data[g] & 0x0F)@);
    lemma_all_kept(m2);
    lemma_kept_join(m1, m2);
    assert(flash_group_modes(data, v0102) == m1 + m2);
    let kk: int = if v0102 {
        18
    } else {
        19
    };
    let c1 = opt(n > kk, "FlashGroupACompensation", flash_comp_text(data[kk]));
    let c2 = opt(n > kk + 1, "FlashGroupBCompensation", flash_comp_text(data[kk + 1]));
    let c3 = opt(n > kk + 2, "FlashGroupCCompensation", flash_comp_text(data[kk + 2]));
    let c4 = opt(!v0102 && n > 0x1b, "ExternalFlashCompensation", flash_comp_text(data[0x1b]));
    let c5 = opt(!v0102 && n > 0x1d, "FlashExposureComp3", flash_comp_text(data[0x1d]));
    let c6 = opt(!v0102 && n > 0x27, "FlashExposureComp4", flash_comp_text(data[0x27]));
    lemma_opt_kept(n > kk, "FlashGroupACompensation", flash_comp_text(data[kk]));
    lemma_opt_kept(n > kk + 1, "FlashGroupBCompensation", flash_comp_text(data[kk + 1]));
    lemma_opt_kept(n > kk + 2, "FlashGroupCCompensation", flash_comp_text(data[kk + 2]));
    lemma_opt_kept(!v0102 && n > 0x1b, "ExternalFlashCompensation", flash_comp_text(data[0x1b]));
    lemma_opt_kept(!v0102 && n > 0x1d, "FlashExposureComp3", flash_comp_text(data[0x1d]));
    lemma_opt_kept(!v0102 && n > 0x27, "FlashExposureComp4", flash_comp_text(data[0x27]));
    lemma_kept_join(c1, c2);
    lemma_kept_join(c1 + c2, c3);
    lemma_kept_join(c1 + c2 + c3, c4);
    lemma_kept_join(c1 + c2 + c3 + c4, c5);
    lemma_kept_join(c1 + c2 + c3 + c4 + c5, c6);
    assert(flash_group_comps(data, v0102) == c1 + c2 + c3 + c4 + c5 + c6);
    lemma_kept_join(head, m1 + m2);
    lemma_kept_join(head + (m1 + m2), c1 + c2 + c3 + c4 + c5 + c6);
    assert(flash_extended_fields(data, v0102) =~= head + (m1 + m2) + (c1 + c2 + c3 + c4 + c5 + c6));
}

/// The FlashInfo fields before the flash groups hold no FlashControlMode.
proof fn lemma_extended_head_kept(data: Seq<u8>)
    ensures
        without_control_mode(flash_extended_head(data)) == flash_extended_head(data),
{
    lemma_flash_names_differ();
    reveal(flash_extended_head);
    let n = data.len();
    let h1 = opt(n > 12 && set_byte(data[12]), "FlashFocalLength", dec(data[12] as nat) + " mm"@);
    let h2 = opt(n > 13 && set_byte(data[13]), "RepeatingFlashRate", dec(data[13] as nat) + " Hz"@);
    let h3 = opt(n > 14 && set_byte(data[14]), "RepeatingFlashCount", dec(data[14] as nat));
    let h4 = opt(n > 15, "FlashGNDistance", gn_distance_text(data[15]));
    let h5 = opt(n > 16, "FlashColorFilter", color_filter_name(data[16])@);
    lemma_opt_kept(n > 12 && set_byte(data[12]), "FlashFocalLength", dec(data[12] as nat) + " mm"@);
    lemma_opt_kept(n > 13 && set_byte(data[13]), "RepeatingFlashRate", dec(data[13] as nat) + " Hz"@);
    lemma_opt_kept(n > 14 && set_byte(data[14]), "RepeatingFlashCount", dec(data[14] as nat));
    lemma_opt_kept(n > 15, "FlashGNDistance", gn_distance_text(data[15]));
    lemma_opt_kept(n > 16, "FlashColorFilter", color_filter_name(data[16])@);
    lemma_kept_join(h1, h2);
    lemma_kept_join(h1 + h2, h3);
    lemma_kept_join(h1 + h2 + h3, h4);
    lemma_kept_join(h1 + h2 + h3 + h4, h5);
    assert(flash_extended_head(data) == h1 + h2 + h3 + h4 + h5);
}

/// The FlashInfo fields after FlashControlMode hold no other FlashControlMode.
proof fn lemma_tail_kept(data: Seq<u8>)
    ensures
        without_control_mode(flash_extended_fields(data, true)) == flash_extended_fields(data, true),
        without_control_mode(flash_extended_fields(data, false)) == flash_extended_fields(data, false),
        data.len() >= 19 ==> without_control_mode(flash_old_fields(data)) == flash_old_fields(data),
{
    lemma_extended_head_kept(data);
    lemma_extended_kept(data, true);
    lemma_extended_kept(data, false);
    if data.len() >= 19 {
        lemma_old_kept(data);
    }
}

/// The fields of FlashInfo versions 0100 and 0101 hold no FlashControlMode.
proof fn lemma_old_kept(data: Seq<u8>)
    requires
        data.len() >= 19,
    ensures
        without_control_mode(flash_old_fields(data)) == flash_old_fields(data),
{
    lemma_flash_names_differ();
    reveal(flash_old_fields);
    let f = flash_old_fields(data);
    assert forall|i: int| 0 <= i < f.len() implies f[i].0 != "FlashControlMode" by {
        if i == 0 {
        } else if i == 1 {
        } else if i == 2 {
        } else if i == 3 {
        } else {
        }
    }
    lemma_all_kept(f);
}

fn push_comp(
    tags: &mut Vec<(&'static str, String)>,
    c: bool,
    name: &'static str,
    data: &[u8],
    at: usize,
)
    requires
        c ==> at < data@.len(),
    ensures
        pairs_view(final(tags)@) == pairs_view(old(tags)@) + opt(
            c,
            name,
            flash_comp_text(data@[at as int]),
        ),
{
    let ghost start = pairs_view(tags@);
    if c {
        push_pair(tags, name, format_flash_compensation(data[at]));
    }
    proof {
        assert(pairs_view(tags@) =~= start + opt(c, name, flash_comp_text(data@[at as int])));
    }
}

fn push_control(
    tags: &mut Vec<(&'static str, String)>,
    c: bool,
    name: &'static str,
    mode: u8,
)
    ensures
        pairs_view(final(tags)@) == pairs_view(old(tags)@) + opt(
            c,
            name,
            flash_control_mode_name(mode)@,
        ),
{
    let ghost start = pairs_view(tags@);
    if c {
        push_pair(tags, name, owned(decode_flash_control_mode(mode)));
    }
    proof {
        assert(pairs_view(tags@) =~= start + opt(c, name, flash_control_mode_name(mode)@));
    }
}

fn push_count(
    tags: &mut Vec<(&'static str, String)>,
    data: &[u8],
    at: usize,
    name: &'static str,
    suffix: &str,
) -> (ghost_value: Ghost<Seq<char>>)
    ensures
        ghost_value@ == dec(data@[at as int] as nat) + suffix@,
        pairs_view(final(tags)@) == pairs_view(old(tags)@) + opt(
            data@.len() > at && set_byte(data@[at as int]),
            name,
            ghost_value@,
        ),
{
    let ghost start = pairs_view(tags@);
    let ghost gv = dec(data@[at as int] as nat) + suffix@;
    if data.len() > at && data[at] != 0 && data[at] != 255 {
        push_pair(tags, name, wrap_dec("", data[at] as u64, suffix));
        proof {
            reveal_strlit("");
        }
    }
    proof {
        assert(pairs_view(tags@) =~= start + opt(
            data@.len() > at && set_byte(data@[at as int]),
            name,
            gv,
        ));
    }
    Ghost(gv)
}

fn push_flash_common(tags: &mut Vec<(&'static str, String)>, data: &[u8], z: bool)
    requires
        data@.len() >= 10,
    ensures
        pairs_view(final(tags)@) == pairs_view(old(tags)@) + flash_common_fields(data@, z),
{
    let ghost start = pairs_view(tags@);
    let source = match data[4] {
        0 => "None",
        1 => "External",
        2 => "Internal",
        _ => "Unknown",
    };
    push_pair(tags, "FlashSource", owned(source));
    if data[6] == 0 && data[7] == 0 {
        push_pair(tags, "ExternalFlashFirmware", owned("n/a"));
    } else {
        push_pair(tags, "ExternalFlashFirmware", format_flash_firmware(data[6], data[7]));
    }
    push_pair(tags, "ExternalFlashFlags", flash_flags_string(data[8]));
    let commander = (data[9] & 0x80) >> 7u8;
    push_pair(
        tags,
        "FlashCommanderMode",
        owned(
            if commander == 0 {
                "Off"
            } else {
                "On"
            },
        ),
    );
    let ghost mid = pairs_view(tags@);
    push_control(tags, !z, "FlashControlMode", data[9] & 0x7F);
    push_comp(tags, data.len() > 10, "FlashCompensation", data, 10);
    proof {
        reveal(flash_common_fields);
        assert(pairs_view(tags@) =~= start + flash_common_fields(data@, z));
    }
}

fn push_flash_extended_head(tags: &mut Vec<(&'static str, String)>, data: &[u8])
    ensures
        pairs_view(final(tags)@) == pairs_view(old(tags)@) + flash_extended_head(data@),
{
    let ghost start = pairs_view(tags@);
    let n = data.len();
    let Ghost(fl) = push_count(tags, data, 12, "FlashFocalLength", " mm");
    let Ghost(rate) = push_count(tags, data, 13, "RepeatingFlashRate", " Hz");
    let Ghost(count) = push_count(tags, data, 14, "RepeatingFlashCount", "");
    proof {
        reveal_strlit("");
        assert(count =~= dec(data@[14] as nat));
    }
    let ghost s1 = pairs_view(tags@);
    if n > 15 {
        push_pair(tags, "FlashGNDistance", gn_distance_string(data[15]));
    }
    if n > 16 {
        push_pair(tags, "FlashColorFilter", owned(color_filter_of(data[16])));
    }
    proof {
        reveal(flash_extended_head);
        assert(pairs_view(tags@) =~= start + flash_extended_head(data@));
    }
}

fn push_flash_group_modes(tags: &mut Vec<(&'static str, String)>, data: &[u8], v0102: bool)
    ensures
        pairs_view(final(tags)@) == pairs_view(old(tags)@) + flash_group_modes(data@, v0102),
{
    let ghost start = pairs_view(tags@);
    let n = data.len();
    let g: usize = if v0102 {
        16
    } else {
        17
    };
    push_control(tags, n > g, "FlashGroupAControlMode", if n > g {
        data[g] & 0x0F
    } else {
        0
    });
    if n > g + 1 {
        push_pair(
            tags,
            "FlashGroupBControlMode",
            owned(decode_flash_control_mode((data[g + 1] & 0xF0) >> 4u8)),
        );
        push_pair(
            tags,
            "FlashGroupCControlMode",
            owned(decode_flash_control_mode(data[g + 1] & 0x0F)),
        );
    }
    proof {
        reveal(flash_group_modes);
        assert(pairs_view(tags@) =~= start + flash_group_modes(data@, v0102));
    }
}

fn push_flash_group_comps(tags: &mut Vec<(&'static str, String)>, data: &[u8], v0102: bool)
    ensures
        pairs_view(final(tags)@) == pairs_view(old(tags)@) + flash_group_comps(data@, v0102),
{
    let ghost start = pairs_view(tags@);
    let n = data.len();
    let k: usize = if v0102 {
        18
    } else {
        19
    };
    push_comp(tags, n > k, "FlashGroupACompensation", data, k);
    let ghost s1 = pairs_view(tags@);
    push_comp(tags, n > k + 1, "FlashGroupBCompensation", data, k + 1);
    let ghost s2 = pairs_view(tags@);
    push_comp(tags, n > k + 2, "FlashGroupCCompensation", data, k + 2);
    let ghost s3 = pairs_view(tags@);
    push_comp(tags, !v0102 && n > 0x1b, "ExternalFlashCompensation", data, 0x1b);
    let ghost s4 = pairs_view(tags@);
    push_comp(tags, !v0102 && n > 0x1d, "FlashExposureComp3", data, 0x1d);
    let ghost s5 = pairs_view(tags@);
    push_comp(tags, !v0102 && n > 0x27, "FlashExposureComp4", data, 0x27);
    proof {
        reveal(flash_group_comps);
        assert(pairs_view(tags@) =~= start + flash_group_comps(data@, v0102));
    }
}

fn push_flash_old(tags: &mut Vec<(&'static str, String)>, data: &[u8])
    requires
        data@.len() >= 19,
    ensures
        pairs_view(final(tags)@) == pairs_view(old(tags)@) + flash_old_fields(data@),
{
    let ghost start = pairs_view(tags@);
    push_pair(tags, "FlashGNDistance", gn_distance_string(data[14]));
    push_pair(
        tags,
        "FlashGroupAControlMode",
        owned(decode_flash_control_mode(data[15] & 0x0F)),
    );
    push_pair(
        tags,
        "FlashGroupBControlMode",
        owned(decode_flash_control_mode(data[16] & 0x0F)),
    );
    push_pair(tags, "FlashGroupACompensation", format_flash_compensation(data[17]));
    push_pair(tags, "FlashGroupBCompensation", format_flash_compensation(data[18]));
    proof {
        reveal(flash_old_fields);
        assert(pairs_view(tags@) =~= start + flash_old_fields(data@));
    }
}

/// Parses FlashInfo (tag 0x00A8), versions 0100 to 0108.
pub fn parse_flash_info(data: &[u8], model: Option<&str>) -> (r: Vec<(&'static str, String)>)
    ensures
        pairs_view(r@) == flash_info_fields(
            data@,
            match model {
                Some(m) => z_series(unicode_upper(m@)),
                None => false,
            },
        ),
{
    let z = is_nikon_z_series(model);
    let mut tags: Vec<(&'static str, String)> = Vec::new();
    if data.len() < 4 {
        assert(pairs_view(tags@) =~= seq![]);
        return tags;
    }
    assert(data@.subrange(0, 4) =~= data@.take(4));
    let version = lossy_string(&data[0..4]);
    let v = version.as_str();
    let standard = starts_with(v, "010");
    let extended = str_eq(v, "0102") || str_eq(v, "0103") || str_eq(v, "0104") || str_eq(
        v,
        "0105",
    ) || str_eq(v, "0106") || str_eq(v, "0107") || str_eq(v, "0108");
    let v0102 = str_eq(v, "0102");
    let old_layout = str_eq(v, "0100") || str_eq(v, "0101");
    let ghost vv = version@;
    push_pair(&mut tags, "FlashInfoVersion", owned(v));
    if standard && data.len() >= 10 {
        push_flash_common(&mut tags, data, z);
        if extended {
            push_flash_extended_head(&mut tags, data);
            push_flash_group_modes(&mut tags, data, v0102);
            push_flash_group_comps(&mut tags, data, v0102);
        } else if old_layout && data.len() >= 19 {
            push_flash_old(&mut tags, data);
        }
    }
    proof {
        assert(pairs_view(tags@) =~= flash_info_fields(data@, z));
    }
    tags
}


// ---------------------------------------------------------------------------
// ISOInfo
// ---------------------------------------------------------------------------

/// The ISO speed that a byte `x` of ISOInfo encodes: 100 · 2^((x − 60)/12)
/// rounded to the nearest integer, halves up, for each `x` from 1.
pub open spec fn iso_speed(x: u8) -> u32 {
    match x {
        1 => 3,
        2 => 4,
        3 => 4,
        4 => 4,
        5 => 4,
        6 => 4,
        7 => 5,
        8 => 5,
        9 => 5,
        10 => 6,
        11 => 6,
        12 => 6,
        13 => 7,
        14 => 7,
        15 => 7,
        16 => 8,
        17 => 8,
        18 => 9,
        19 => 9,
        20 => 10,
        21 => 11,
        22 => 11,
        23 => 12,
        24 => 13,
        25 => 13,
        26 => 14,
        27 => 15,
        28 => 16,
        29 => 17,
        30 => 18,
        31 => 19,
        32 => 20,
        33 => 21,
        34 => 22,
        35 => 24,
        36 => 25,
        37 => 26,
        38 => 28,
        39 => 30,
        40 => 31,
        41 => 33,
        42 => 35,
        43 => 37,
        44 => 40,
        45 => 42,
        46 => 45,
        47 => 47,
        48 => 50,
        49 => 53,
        50 => 56,
        51 => 59,
        52 => 63,
        53 => 67,
        54 => 71,
        55 => 75,
        56 => 79,
        57 => 84,
        58 => 89,
        59 => 94,
        60 => 100,
        61 => 106,
        62 => 112,
        63 => 119,
        64 => 126,
        65 => 133,
        66 => 141,
        67 => 150,
        68 => 159,
        69 => 168,
        70 => 178,
        71 => 189,
        72 => 200,
        73 => 212,
        74 => 224,
        75 => 238,
        76 => 252,
        77 => 267,
        78 => 283,
        79 => 300,
        80 => 317,
        81 => 336,
        82 => 356,
        83 => 378,
        84 => 400,
        85 => 424,
        86 => 449,
        87 => 476,
        88 => 504,
        89 => 534,
        90 => 566,
        91 => 599,
        92 => 635,
        93 => 673,
        94 => 713,
        95 => 755,
        96 => 800,
        97 => 848,
        98 => 898,
        99 => 951,
        100 => 1008,
        101 => 1068,
        102 => 1131,
        103 => 1199,
        104 => 1270,
        105 => 1345,
        106 => 1425,
        107 => 1510,
        108 => 1600,
        109 => 1695,
        110 => 1796,
        111 => 1903,
        112 => 2016,
        113 => 2136,
        114 => 2263,
        115 => 2397,
        116 => 2540,
        117 => 2691,
        118 => 2851,
        119 => 3020,
        120 => 3200,
        121 => 3390,
        122 => 3592,
        123 => 3805,
        124 => 4032,
        125 => 4271,
        126 => 4525,
        127 => 4795,
        128 => 5080,
        129 => 5382,
        130 => 5702,
        131 => 6041,
        132 => 6400,
        133 => 6781,
        134 => 7184,
        135 => 7611,
        136 => 8063,
        137 => 8543,
        138 => 9051,
        139 => 9589,
        140 => 10159,
        141 => 10763,
        142 => 11404,
        143 => 12082,
        144 => 12800,
        145 => 13561,
        146 => 14368,
        147 => 15222,
        148 => 16127,
        149 => 17086,
        150 => 18102,
        151 => 19178,
        152 => 20319,
        153 => 21527,
        154 => 22807,
        155 => 24163,
        156 => 25600,
        157 => 27122,
        158 => 28735,
        159 => 30444,
        160 => 32254,
        161 => 34172,
        162 => 36204,
        163 => 38357,
        164 => 40637,
        165 => 43054,
        166 => 45614,
        167 => 48326,
        168 => 51200,
        169 => 54245,
        170 => 57470,
        171 => 60887,
        172 => 64508,
        173 => 68344,
        174 => 72408,
        175 => 76713,
        176 => 81275,
        177 => 86108,
        178 => 91228,
        179 => 96653,
        180 => 102400,
        181 => 108489,
        182 => 114940,
        183 => 121775,
        184 => 129016,
        185 => 136688,
        186 => 144815,
        187 => 153427,
        188 => 162550,
        189 => 172216,
        190 => 182456,
        191 => 193305,
        192 => 204800,
        193 => 216978,
        194 => 229880,
        195 => 243550,
        196 => 258032,
        197 => 273375,
        198 => 289631,
        199 => 306853,
        200 => 325100,
        201 => 344431,
        202 => 364912,
        203 => 386611,
        204 => 409600,
        205 => 433956,
        206 => 459760,
        207 => 487099,
        208 => 516064,
        209 => 546750,
        210 => 579262,
        211 => 613707,
        212 => 650199,
        213 => 688862,
        214 => 729824,
        215 => 773222,
        216 => 819200,
        217 => 867912,
        218 => 919521,
        219 => 974198,
        220 => 1032127,
        221 => 1093501,
        222 => 1158524,
        223 => 1227413,
        224 => 1300399,
        225 => 1377725,
        226 => 1459648,
        227 => 1546444,
        228 => 1638400,
        229 => 1735824,
        230 => 1839042,
        231 => 1948397,
        232 => 2064255,
        233 => 2187002,
        234 => 2317048,
        235 => 2454826,
        236 => 2600798,
        237 => 2755449,
        238 => 2919297,
        239 => 3092887,
        240 => 3276800,
        241 => 3471649,
        242 => 3678084,
        243 => 3896794,
        244 => 4128509,
        245 => 4374003,
        246 => 4634095,
        247 => 4909653,
        248 => 5201596,
        249 => 5510899,
        250 => 5838594,
        251 => 6185775,
        252 => 6553600,
        253 => 6943297,
        254 => 7356167,
        255 => 7793588,
        _ => 0,
    }
}

fn iso_speed_exec(x: u8) -> (r: u32)
    ensures
        r == iso_speed(x),
{
    match x {
        1 => 3,
        2 => 4,
        3 => 4,
        4 => 4,
        5 => 4,
        6 => 4,
        7 => 5,
        8 => 5,
        9 => 5,
        10 => 6,
        11 => 6,
        12 => 6,
        13 => 7,
        14 => 7,
        15 => 7,
        16 => 8,
        17 => 8,
        18 => 9,
        19 => 9,
        20 => 10,
        21 => 11,
        22 => 11,
        23 => 12,
        24 => 13,
        25 => 13,
        26 => 14,
        27 => 15,
        28 => 16,
        29 => 17,
        30 => 18,
        31 => 19,
        32 => 20,
        33 => 21,
        34 => 22,
        35 => 24,
        36 => 25,
        37 => 26,
        38 => 28,
        39 => 30,
        40 => 31,
        41 => 33,
        42 => 35,
        43 => 37,
        44 => 40,
        45 => 42,
        46 => 45,
        47 => 47,
        48 => 50,
        49 => 53,
        50 => 56,
        51 => 59,
        52 => 63,
        53 => 67,
        54 => 71,
        55 => 75,
        56 => 79,
        57 => 84,
        58 => 89,
        59 => 94,
        60 => 100,
        61 => 106,
        62 => 112,
        63 => 119,
        64 => 126,
        65 => 133,
        66 => 141,
        67 => 150,
        68 => 159,
        69 => 168,
        70 => 178,
        71 => 189,
        72 => 200,
        73 => 212,
        74 => 224,
        75 => 238,
        76 => 252,
        77 => 267,
        78 => 283,
        79 => 300,
        80 => 317,
        81 => 336,
        82 => 356,
        83 => 378,
        84 => 400,
        85 => 424,
        86 => 449,
        87 => 476,
        88 => 504,
        89 => 534,
        90 => 566,
        91 => 599,
        92 => 635,
        93 => 673,
        94 => 713,
        95 => 755,
        96 => 800,
        97 => 848,
        98 => 898,
        99 => 951,
        100 => 1008,
        101 => 1068,
        102 => 1131,
        103 => 1199,
        104 => 1270,
        105 => 1345,
        106 => 1425,
        107 => 1510,
        108 => 1600,
        109 => 1695,
        110 => 1796,
        111 => 1903,
        112 => 2016,
        113 => 2136,
        114 => 2263,
        115 => 2397,
        116 => 2540,
        117 => 2691,
        118 => 2851,
        119 => 3020,
        120 => 3200,
        121 => 3390,
        122 => 3592,
        123 => 3805,
        124 => 4032,
        125 => 4271,
        126 => 4525,
        127 => 4795,
        128 => 5080,
        129 => 5382,
        130 => 5702,
        131 => 6041,
        132 => 6400,
        133 => 6781,
        134 => 7184,
        135 => 7611,
        136 => 8063,
        137 => 8543,
        138 => 9051,
        139 => 9589,
        140 => 10159,
        141 => 10763,
        142 => 11404,
        143 => 12082,
        144 => 12800,
        145 => 13561,
        146 => 14368,
        147 => 15222,
        148 => 16127,
        149 => 17086,
        150 => 18102,
        151 => 19178,
        152 => 20319,
        153 => 21527,
        154 => 22807,
        155 => 24163,
        156 => 25600,
        157 => 27122,
        158 => 28735,
        159 => 30444,
        160 => 32254,
        161 => 34172,
        162 => 36204,
        163 => 38357,
        164 => 40637,
        165 => 43054,
        166 => 45614,
        167 => 48326,
        168 => 51200,
        169 => 54245,
        170 => 57470,
        171 => 60887,
        172 => 64508,
        173 => 68344,
        174 => 72408,
        175 => 76713,
        176 => 81275,
        177 => 86108,
        178 => 91228,
        179 => 96653,
        180 => 102400,
        181 => 108489,
        182 => 114940,
        183 => 121775,
        184 => 129016,
        185 => 136688,
        186 => 144815,
        187 => 153427,
        188 => 162550,
        189 => 172216,
        190 => 182456,
        191 => 193305,
        192 => 204800,
        193 => 216978,
        194 => 229880,
        195 => 243550,
        196 => 258032,
        197 => 273375,
        198 => 289631,
        199 => 306853,
        200 => 325100,
        201 => 344431,
        202 => 364912,
        203 => 386611,
        204 => 409600,
        205 => 433956,
        206 => 459760,
        207 => 487099,
        208 => 516064,
        209 => 546750,
        210 => 579262,
        211 => 613707,
        212 => 650199,
        213 => 688862,
        214 => 729824,
        215 => 773222,
        216 => 819200,
        217 => 867912,
        218 => 919521,
        219 => 974198,
        220 => 1032127,
        221 => 1093501,
        222 => 1158524,
        223 => 1227413,
        224 => 1300399,
        225 => 1377725,
        226 => 1459648,
        227 => 1546444,
        228 => 1638400,
        229 => 1735824,
        230 => 1839042,
        231 => 1948397,
        232 => 2064255,
        233 => 2187002,
        234 => 2317048,
        235 => 2454826,
        236 => 2600798,
        237 => 2755449,
        238 => 2919297,
        239 => 3092887,
        240 => 3276800,
        241 => 3471649,
        242 => 3678084,
        243 => 3896794,
        244 => 4128509,
        245 => 4374003,
        246 => 4634095,
        247 => 4909653,
        248 => 5201596,
        249 => 5510899,
        250 => 5838594,
        251 => 6185775,
        252 => 6553600,
        253 => 6943297,
        254 => 7356167,
        255 => 7793588,
        _ => 0,
    }
}


/// The fields of ISOInfo (big-endian, 14 bytes at least).
pub open spec fn iso_info_fields(data: Seq<u8>) -> Seq<(&'static str, Seq<char>)> {
    if data.len() < 14 {
        seq![]
    } else {
        opt(data[0] != 0, "ISO", dec(iso_speed(data[0]) as nat)) + seq![
            ("ISOExpansion", iso_expansion_name(be16(data.subrange(4, data.len() as int)))@),
        ] + opt(data[6] != 0, "ISO2", dec(iso_speed(data[6]) as nat)) + seq![
            ("ISOExpansion2", iso_expansion_name(be16(data.subrange(10, data.len() as int)))@),
        ]
    }
}

/// Parses ISOInfo (tag 0x0025).
pub fn parse_iso_info(data: &[u8]) -> (r: Vec<(&'static str, String)>)
    ensures
        pairs_view(r@) == iso_info_fields(data@),
{
    let mut tags: Vec<(&'static str, String)> = Vec::new();
    if data.len() < 14 {
        assert(pairs_view(tags@) =~= seq![]);
        return tags;
    }
    if data[0] != 0 {
        push_pair(&mut tags, "ISO", fmt_dec(iso_speed_exec(data[0]) as u64));
    }
    let e1 = read_u16_at(data, 4, Endianness::Big);
    push_pair(&mut tags, "ISOExpansion", owned(decode_iso_expansion_exiftool(e1)));
    if data[6] != 0 {
        push_pair(&mut tags, "ISO2", fmt_dec(iso_speed_exec(data[6]) as u64));
    }
    let e2 = read_u16_at(data, 10, Endianness::Big);
    push_pair(&mut tags, "ISOExpansion2", owned(decode_iso_expansion_exiftool(e2)));
    proof {
        assert(pairs_view(tags@) =~= iso_info_fields(data@));
    }
    tags
}

} // verus!
