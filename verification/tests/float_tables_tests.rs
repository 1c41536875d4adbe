use fpexif::nikon_flash::{format_flash_compensation, parse_iso_info};
use fpexif::nikon_af::get_af_point_grid;
use fpexif::nikon_lens::parse_lens_data;
use fpexif::ratio::{format_ratio6, format_rational_like_exiftool};
use fpexif::nikon_parse::{format_lens_info, packed_rational_signed_hundredths, packed_rational_unsigned_hundredths};
use fpexif::ratio::{below_half_hundredth_exec, format_lens_value, format_shortest, format_trimmed_decimal, hundredfold_floor_exec};

fn field(tags: &[(&'static str, String)], name: &str) -> Option<String> {
    tags.iter().find(|(n, _)| *n == name).map(|(_, v)| v.clone())
}

#[test]
fn iso_table_matches_floating_formula() {
    for x in 1u8..=255 {
        let mut d = vec![0u8; 14];
        d[0] = x;
        let tags = parse_iso_info(&d);
        let expected = (100.0 * ((x as f64 / 12.0 - 5.0) * 2.0_f64.ln()).exp()).round() as u32;
        assert_eq!(field(&tags, "ISO"), Some(expected.to_string()), "byte {}", x);
    }
}

#[test]
fn lens_tables_match_floating_formulas() {
    for b in 0u8..=255 {
        // Version 0100: focal lengths at 8 and 9, apertures at 10 and 11.
        let mut d = b"0100".to_vec();
        d.extend_from_slice(&[0, 0, 7, 8, b, b, b, b, 9]);
        let (tags, _) = parse_lens_data(&d, None, None);
        let focal = format!("{:.1} mm", 5.0 * 2.0_f64.powf(b as f64 / 24.0));
        let aperture = format!("{:.1}", 2.0_f64.powf(b as f64 / 24.0));
        assert_eq!(field(&tags, "MinFocalLength"), Some(focal.clone()));
        assert_eq!(field(&tags, "MaxFocalLength"), Some(focal));
        assert_eq!(field(&tags, "MaxApertureAtMinFocal"), Some(aperture.clone()));
        assert_eq!(field(&tags, "MaxApertureAtMaxFocal"), Some(aperture));
        // Version 0101: exit pupil at 4, AF aperture at 5, focus distance at 9.
        let mut e = b"0101".to_vec();
        e.extend_from_slice(&[b, b, 0, 0, 0x12, b, 0, 1, 2, 3, 4, 5, 6, 7]);
        let (tags, _) = parse_lens_data(&e, None, None);
        let distance = format!("{:.6} m", 0.01 * 10.0_f64.powf(b as f64 / 40.0));
        assert_eq!(field(&tags, "FocusDistance"), Some(distance));
        assert_eq!(field(&tags, "AFAperture"), Some(format!("{:.1}", 2.0_f64.powf(b as f64 / 24.0))));
        if b > 0 {
            assert_eq!(
                field(&tags, "ExitPupilPosition"),
                Some(format!("{:.1} mm", 2048.0 / b as f64))
            );
        } else {
            assert_eq!(field(&tags, "ExitPupilPosition"), None);
        }
    }
}

fn flash_comp_by_float(b: u8) -> String {
    let ev = -((b as i8) as f64) / 6.0;
    if ev.abs() < 0.001 {
        return "0".to_string();
    }
    let sign = if ev < 0.0 { "-" } else { "+" };
    let abs_val = ev.abs();
    let frac = abs_val.fract();
    let whole = abs_val.trunc() as i32;
    let part = |f: &str| {
        if whole == 0 {
            format!("{}{}", sign, f)
        } else {
            format!("{}{} {}", sign, whole, f)
        }
    };
    if (frac - 0.33).abs() < 0.05 || (frac - 0.34).abs() < 0.05 {
        part("1/3")
    } else if (frac - 0.67).abs() < 0.05 || (frac - 0.66).abs() < 0.05 {
        part("2/3")
    } else if (frac - 0.5).abs() < 0.05 {
        part("1/2")
    } else if frac < 0.05 {
        format!("{}{}", sign, whole)
    } else {
        format!("{:+.1}", ev)
    }
}

#[test]
fn flash_compensation_matches_floating_formula() {
    for b in 0u8..=255 {
        assert_eq!(format_flash_compensation(b), flash_comp_by_float(b), "byte {}", b);
    }
    assert_eq!(format_flash_compensation(0), "0");
    assert_eq!(format_flash_compensation(6), "-1");
    assert_eq!(format_flash_compensation(0xFE), "+1/3");
    assert_eq!(format_flash_compensation(9), "-1 1/2");
    assert_eq!(format_flash_compensation(1), "-0.2");
}

#[test]
fn grid_points_match_floating_formula() {
    for ncol in [15u8, 21u8] {
        for p in 0u8..=255 {
            let row = ((p as f32 + 0.5) / ncol as f32) as u8;
            let col = p - ncol * row + 1;
            let expected = format!("{}{}", (b'A' + row) as char, col);
            assert_eq!(get_af_point_grid(p, ncol), expected);
        }
    }
}

fn rational_by_float(n: u32, d: u32) -> String {
    if d == 0 {
        return n.to_string();
    }
    let value = n as f64 / d as f64;
    if (value.fract().abs() < 1e-10) || (value - value.round()).abs() < 1e-10 {
        return format!("{}", value.round() as i64);
    }
    let formatted = format!("{:.9}", value);
    formatted.trim_end_matches('0').trim_end_matches('.').to_string()
}

#[test]
fn ratios_print_as_doubles_do() {
    let mut seed: u64 = 0x1234_5678_9abc_def0;
    let mut next = || {
        seed ^= seed << 13;
        seed ^= seed >> 7;
        seed ^= seed << 17;
        seed
    };
    for n in 0u64..300 {
        for d in 1u64..300 {
            assert_eq!(format_ratio6(n, d), format!("{:.6}", n as f64 / d as f64));
        }
    }
    for _ in 0..20000 {
        let n = (next() % 0x1_0000_0000) as u32;
        let d = (next() % 0x1_0000_0000) as u32;
        let d = if d == 0 { 1 } else { d };
        let small_n = n >> (next() % 32);
        let small_d = (d >> (next() % 32)).max(1);
        assert_eq!(format_ratio6(small_n as u64, small_d as u64), format!("{:.6}", small_n as f64 / small_d as f64));
        assert_eq!(format_rational_like_exiftool(small_n, small_d), rational_by_float(small_n, small_d));
        assert_eq!(format_rational_like_exiftool(n, d), rational_by_float(n, d));
    }
    assert_eq!(format_ratio6(2, 32000), format!("{:.6}", 2.0_f64 / 32000.0));
    assert_eq!(format_ratio6(1, 3), "0.333333");
    assert_eq!(format_ratio6(512, 256), "2.000000");
    assert_eq!(format_rational_like_exiftool(3, 2), "1.5");
    assert_eq!(format_rational_like_exiftool(10, 0), "10");
    assert_eq!(format_rational_like_exiftool(1, 3), "0.333333333");
    assert_eq!(format_rational_like_exiftool(6, 3), "2");
}

fn signed_packed_float(a: u8, b: u8, c: u8) -> i32 {
    let (a, b, c) = (a as i8 as f64, b as i8 as f64, c as i8 as f64);
    let v = if c == 0.0 { 0.0 } else { a * (b / c) };
    (v * 100.0).round() as i32
}

fn unsigned_packed_float(a: u8, b: u8, c: u8) -> u32 {
    let (a, b, c) = (a as f64, b as f64, c as f64);
    let v = if c == 0.0 { 0.0 } else { a * (b / c) };
    (v * 100.0).round() as u32
}

#[test]
fn packed_rationals_match_floating_formula() {
    let firsts = [0u8, 1, 2, 3, 7, 100, 127, 128, 129, 200, 253, 255];
    for &a in firsts.iter() {
        for b in 0u8..=255 {
            for c in 0u8..=255 {
                let d = [a, b, c, 0];
                assert_eq!(packed_rational_signed_hundredths(&d), Some(signed_packed_float(a, b, c)), "{:?}", d);
                assert_eq!(packed_rational_unsigned_hundredths(&d), Some(unsigned_packed_float(a, b, c)), "{:?}", d);
            }
        }
    }
}

#[test]
fn packed_rationals_where_exact_rounding_differs() {
    // -127 * (-123 / -120) is -130.175 exactly; in doubles its magnitude falls just short.
    assert_eq!(packed_rational_signed_hundredths(&[0x81, 0x85, 0x88, 0]), Some(-13017));
    assert_eq!(signed_packed_float(0x81, 0x85, 0x88), -13017);
    // 3 * (1 / 40) * 100 lands just above 7.5 in doubles.
    assert_eq!(packed_rational_unsigned_hundredths(&[3, 1, 40, 0]), Some(8));
    assert_eq!(packed_rational_signed_hundredths(&[1, 1, 0, 0]), Some(0));
    assert_eq!(packed_rational_signed_hundredths(&[1, 2, 3]), None);
    assert_eq!(packed_rational_unsigned_hundredths(&[6, 1, 4, 9]), Some(150));
}

fn lens_value_float(val: f64) -> String {
    let rounded = val.round();
    if (val - rounded).abs() < 0.01 {
        format!("{:.0}", rounded)
    } else {
        format!("{:.1}", val)
    }
}

fn lens_info_float(values: &[(u32, u32)]) -> Option<String> {
    if values.len() != 4 || values.iter().any(|(_, d)| *d == 0) {
        return None;
    }
    let q = |i: usize| values[i].0 as f64 / values[i].1 as f64;
    let (min_focal, max_focal, min_aperture, max_aperture) = (q(0), q(1), q(2), q(3));
    let min_f = lens_value_float(min_focal);
    let max_f = lens_value_float(max_focal);
    if (min_focal - max_focal).abs() < 0.1 {
        Some(format!("{}mm f/{}", min_f, lens_value_float(min_aperture)))
    } else if (min_aperture - max_aperture).abs() < 0.1 {
        Some(format!("{}-{}mm f/{}", min_f, max_f, lens_value_float(min_aperture)))
    } else {
        Some(format!(
            "{}-{}mm f/{}-{}",
            min_f,
            max_f,
            lens_value_float(min_aperture),
            lens_value_float(max_aperture)
        ))
    }
}

struct Lcg(u64);

impl Lcg {
    fn next(&mut self) -> u32 {
        self.0 = self.0.wrapping_mul(6364136223846793005).wrapping_add(1442695040888963407);
        (self.0 >> 32) as u32
    }
}

#[test]
fn lens_values_match_floating_formula() {
    for &(n, d) in [(1001u32, 100u32), (2701, 100), (1, 100), (99, 100), (5, 10), (15, 10), (25, 10), (0, 1), (4294967295, 1), (1, 4294967295)].iter() {
        assert_eq!(format_lens_value(n, d), lens_value_float(n as f64 / d as f64), "{}/{}", n, d);
    }
    let mut g = Lcg(7);
    let dens = [1u32, 2, 3, 4, 5, 8, 10, 16, 25, 100, 1000];
    for i in 0..200000 {
        let d = if i % 3 == 0 { g.next().max(1) } else { dens[(g.next() % 11) as usize] };
        let n = g.next() % (d.saturating_mul(600).max(1));
        assert_eq!(format_lens_value(n, d), lens_value_float(n as f64 / d as f64), "{}/{}", n, d);
    }
}

#[test]
fn lens_descriptions_match_floating_formula() {
    let mut g = Lcg(11);
    let dens = [1u32, 2, 10, 100, 1000];
    for _ in 0..100000 {
        let mut v = Vec::new();
        for k in 0..4 {
            let d = dens[(g.next() % 5) as usize];
            let n = g.next() % (d * if k < 2 { 400 } else { 12 });
            v.push((n, d));
        }
        if g.next() % 2 == 0 {
            // Ranges close to 0.1 apart.
            let step = [9u32, 10, 11][(g.next() % 3) as usize];
            v[1] = (v[0].0 * 100 / v[0].1 + step, 100);
            v[3] = (v[2].0 * 100 / v[2].1 + step, 100);
        }
        assert_eq!(format_lens_info(&v), lens_info_float(&v), "{:?}", v);
    }
    assert_eq!(format_lens_info(&[(18, 1), (55, 1), (35, 10), (56, 10)]), Some("18-55mm f/3.5-5.6".to_string()));
    assert_eq!(format_lens_info(&[(50, 1), (50, 1), (14, 10), (14, 10)]), Some("50mm f/1.4".to_string()));
    assert_eq!(format_lens_info(&[(70, 1), (200, 1), (28, 10), (28, 10)]), Some("70-200mm f/2.8".to_string()));
    assert_eq!(format_lens_info(&[(70, 1), (200, 1), (28, 10), (28, 0)]), None);
    assert_eq!(format_lens_info(&[(70, 1), (200, 1), (28, 10)]), None);
}

fn trimmed_float(v: f64, places: usize) -> String {
    format!("{:.*}", places, v).trim_end_matches('0').trim_end_matches('.').to_string()
}

#[test]
fn trimmed_decimals_match_floating_formula() {
    let mut g = Lcg(5);
    let dens = [1u32, 2, 3, 7, 8, 16, 100, 256, 1000, 1024];
    for i in 0..200000 {
        let d = if i % 2 == 0 { g.next().max(1) } else { dens[(g.next() % 10) as usize] };
        let n = if i % 5 == 0 { g.next() } else { g.next() % (d.saturating_mul(1000).max(1)) };
        for places in [2u32, 3] {
            assert_eq!(
                format_trimmed_decimal(n, d, places),
                trimmed_float(n as f64 / d as f64, places as usize),
                "{}/{} to {}",
                n,
                d,
                places
            );
        }
    }
    assert_eq!(format_trimmed_decimal(25, 2, 3), "12.5");
    assert_eq!(format_trimmed_decimal(20, 1, 3), "20");
    assert_eq!(format_trimmed_decimal(0, 1, 2), "0");
    assert_eq!(format_trimmed_decimal(1, 8, 2), "0.12");
}

#[test]
fn percentages_match_floating_formula() {
    let mut g = Lcg(13);
    let dens = [0i32, 1, -1, 2, 3, 7, 100, -100, 256, 1000, i32::MIN, i32::MAX];
    for i in 0..300000 {
        let d = if i % 3 == 0 { g.next() as i32 } else { dens[(g.next() % 12) as usize] };
        let n = match i % 4 {
            0 => g.next() as i32,
            1 => (g.next() % 2001) as i32 - 1000,
            2 => d.wrapping_mul((g.next() % 11) as i32 - 5),
            _ => i32::MIN,
        };
        let expected = (n as f64 / d as f64 * 100.0).floor() as i32;
        assert_eq!(hundredfold_floor_exec(n, d), expected, "{}/{}", n, d);
        let small = d == 0 || (n as f64 / d as f64).abs() < 0.005;
        assert_eq!(below_half_hundredth_exec(n, d), small, "{}/{}", n, d);
    }
    assert_eq!(hundredfold_floor_exec(1, 0), i32::MAX);
    assert_eq!(hundredfold_floor_exec(-1, 0), i32::MIN);
    assert_eq!(hundredfold_floor_exec(0, 0), 0);
    assert_eq!(hundredfold_floor_exec(-1, 3), -34);
}

#[test]
fn shortest_decimals_match_display() {
    for &(n, d) in [(0u32, 1u32), (1, 1), (1, 3), (2, 3), (1, 10), (78, 10), (1, 4294967295), (4294967295, 1), (4294967295, 3), (1000000000, 1), (1, 1024), (123456789, 1000)].iter() {
        assert_eq!(format_shortest(n, d), format!("{}", n as f64 / d as f64), "{}/{}", n, d);
    }
    let mut g = Lcg(17);
    let dens = [1u32, 2, 3, 7, 10, 100, 256, 1000, 1024, 3600];
    for i in 0..200000 {
        let d = if i % 2 == 0 { g.next().max(1) } else { dens[(g.next() % 10) as usize] };
        let n = match i % 3 {
            0 => g.next(),
            1 => g.next() % 1000,
            _ => g.next() % 16,
        };
        assert_eq!(format_shortest(n, d), format!("{}", n as f64 / d as f64), "{}/{}", n, d);
    }
}
