//! Text building blocks: decimal and hexadecimal rendering of integers,
//! joining, trimming and comparing strings.
use vstd::prelude::*;
use vstd::string::StringExecFns;
use vstd::string::StrSliceExecFns;

verus! {

// ---------------------------------------------------------------------------
// Integer rendering
// ---------------------------------------------------------------------------

/// The character of a digit `d` (`d < 16`), lower-case letters for 10..15.
pub open spec fn hex_digit(d: nat, upper: bool) -> char {
    if d < 10 {
        (d + 48) as char
    } else if upper {
        (d + 55) as char
    } else {
        (d + 87) as char
    }
}

/// Decimal representation of `n`, without leading zeros ("0" for zero).
pub open spec fn dec(n: nat) -> Seq<char>
    decreases n,
{
    if n < 10 {
        seq![hex_digit(n, false)]
    } else {
        dec(n / 10).push(hex_digit(n % 10, false))
    }
}

/// Hexadecimal representation of `n`, without leading zeros ("0" for zero).
pub open spec fn hex(n: nat, upper: bool) -> Seq<char>
    decreases n,
{
    if n < 16 {
        seq![hex_digit(n, upper)]
    } else {
        hex(n / 16, upper).push(hex_digit(n % 16, upper))
    }
}

/// Decimal representation of a signed integer, with a leading '-' when negative.
pub open spec fn int_dec(n: int) -> Seq<char> {
    if n < 0 {
        seq!['-'] + dec((-n) as nat)
    } else {
        dec(n as nat)
    }
}

/// Decimal representation of a signed integer that always carries a sign ('+' for zero too).
pub open spec fn signed_dec(n: int) -> Seq<char> {
    if n < 0 {
        seq!['-'] + dec((-n) as nat)
    } else {
        seq!['+'] + dec(n as nat)
    }
}

/// `s` left-padded with '0' to at least `w` characters.
pub open spec fn zero_pad(s: Seq<char>, w: nat) -> Seq<char> {
    if s.len() >= w {
        s
    } else {
        Seq::new((w - s.len()) as nat, |i: int| '0') + s
    }
}

/// The parts joined by `sep`.
pub open spec fn join(parts: Seq<Seq<char>>, sep: Seq<char>) -> Seq<char>
    decreases parts.len(),
{
    if parts.len() == 0 {
        Seq::empty()
    } else if parts.len() == 1 {
        parts[0]
    } else {
        join(parts.drop_last(), sep) + sep + parts.last()
    }
}

/// The views of a vector of strings.
pub open spec fn views(v: Seq<String>) -> Seq<Seq<char>> {
    v.map_values(|s: String| s@)
}

pub fn digit_char(d: u64, upper: bool) -> (c: char)
    requires
        d < 16,
    ensures
        c == hex_digit(d as nat, upper),
{
    if d < 10 {
        ((d as u8) + 48) as char
    } else if upper {
        ((d as u8) + 55) as char
    } else {
        ((d as u8) + 87) as char
    }
}

/// Wraps `String::push`: the character is appended at the end of the text.
#[verifier::external_body]
pub(crate) fn push_char(s: &mut String, c: char)
    ensures
        final(s)@ == old(s)@.push(c),
{
    s.push(c);
}

/// Appends the decimal representation of `n`.
pub fn push_dec(s: &mut String, n: u64)
    ensures
        final(s)@ == old(s)@ + dec(n as nat),
    decreases n,
{
    let ghost s0 = s@;
    if n >= 10 {
        push_dec(s, n / 10);
    }
    push_char(s, digit_char(n % 10, false));
    proof {
        if n >= 10 {
            assert(s@ =~= s0 + dec(n as nat));
        } else {
            assert(s@ =~= s0 + dec(n as nat));
        }
    }
}

/// Appends the hexadecimal representation of `n`.
pub fn push_hex(s: &mut String, n: u64, upper: bool)
    ensures
        final(s)@ == old(s)@ + hex(n as nat, upper),
    decreases n,
{
    let ghost s0 = s@;
    if n >= 16 {
        push_hex(s, n / 16, upper);
    }
    push_char(s, digit_char(n % 16, upper));
    proof {
        assert(s@ =~= s0 + hex(n as nat, upper));
    }
}

proof fn lemma_dec_nonempty(n: nat)
    ensures
        dec(n).len() >= 1,
    decreases n,
{
    if n >= 10 {
        lemma_dec_nonempty(n / 10);
    }
}

/// Appends `count` zero characters.
pub fn push_zeros(s: &mut String, count: usize)
    ensures
        final(s)@ == old(s)@ + Seq::new(count as nat, |i: int| '0'),
{
    let ghost s0 = s@;
    let mut i: usize = 0;
    while i < count
        invariant
            i <= count,
            s@ =~= s0 + Seq::new(i as nat, |k: int| '0'),
        decreases count - i,
    {
        push_char(s, '0');
        i = i + 1;
    }
}

/// The decimal representation of `n`.
pub fn fmt_dec(n: u64) -> (r: String)
    ensures
        r@ == dec(n as nat),
{
    let mut s = String::new();
    push_dec(&mut s, n);
    proof {
        assert(s@ =~= dec(n as nat));
    }
    s
}

/// Length of the decimal representation of `n`.
pub fn dec_len(n: u64) -> (r: usize)
    ensures
        r as nat == dec(n as nat).len(),
    decreases n,
{
    if n < 10 {
        1
    } else {
        let k = dec_len(n / 10);
        proof {
            reveal_with_fuel(pow10, 21);
            assert(pow10(20) == 100000000000000000000nat);
            lemma_dec_len_bound(n as nat, 20);
        }
        k + 1
    }
}

spec fn pow10(k: nat) -> nat
    decreases k,
{
    if k == 0 {
        1
    } else {
        10 * pow10((k - 1) as nat)
    }
}

proof fn lemma_dec_len_bound(n: nat, k: nat)
    requires
        k >= 1,
        n < pow10(k),
    ensures
        dec(n).len() <= k,
    decreases k,
{
    if n >= 10 {
        let p = pow10((k - 1) as nat);
        assert(k >= 2) by {
            if k == 1 {
                assert(pow10(0) == 1);
            }
        }
        assert(n / 10 < p) by (nonlinear_arith)
            requires
                n < 10 * p,
        ;
        lemma_dec_len_bound(n / 10, (k - 1) as nat);
    }
}

/// Appends the decimal representation of `n`, left-padded with zeros to `w` characters.
pub fn push_dec_pad(s: &mut String, n: u64, w: usize)
    ensures
        final(s)@ == old(s)@ + zero_pad(dec(n as nat), w as nat),
{
    let ghost s0 = s@;
    let len = dec_len(n);
    if len < w {
        push_zeros(s, w - len);
    }
    let ghost s1 = s@;
    push_dec(s, n);
    proof {
        assert(s@ =~= s0 + zero_pad(dec(n as nat), w as nat));
    }
}

/// Appends the hexadecimal representation of `n` left-padded with zeros to two characters.
pub fn push_hex2(s: &mut String, n: u8, upper: bool)
    ensures
        final(s)@ == old(s)@ + zero_pad(hex(n as nat, upper), 2),
{
    let ghost s0 = s@;
    if n < 16 {
        push_char(s, '0');
    }
    push_hex(s, n as u64, upper);
    proof {
        if n >= 16 {
            assert(hex(n as nat, upper) =~= hex((n / 16) as nat, upper).push(
                hex_digit((n % 16) as nat, upper),
            ));
            assert(hex((n / 16) as nat, upper).len() == 1);
        }
        assert(s@ =~= s0 + zero_pad(hex(n as nat, upper), 2));
    }
}

/// Appends the decimal representation of a signed value.
pub fn push_int(s: &mut String, n: i64)
    ensures
        final(s)@ == old(s)@ + int_dec(n as int),
{
    let ghost s0 = s@;
    if n < 0 {
        push_char(s, '-');
        let m: u64 = if n == i64::MIN {
            0x8000_0000_0000_0000u64
        } else {
            (-n) as u64
        };
        push_dec(s, m);
    } else {
        push_dec(s, n as u64);
    }
    proof {
        assert(s@ =~= s0 + int_dec(n as int));
    }
}

/// The decimal representation of a signed value.
pub fn fmt_int(n: i64) -> (r: String)
    ensures
        r@ == int_dec(n as int),
{
    let mut s = String::new();
    push_int(&mut s, n);
    proof {
        assert(s@ =~= int_dec(n as int));
    }
    s
}

/// An owned copy of a string slice.
pub fn owned(s: &str) -> (r: String)
    ensures
        r@ == s@,
{
    String::from_str(s)
}

/// Appends a string slice.
pub fn push_str(s: &mut String, t: &str)
    ensures
        final(s)@ == old(s)@ + t@,
{
    s.append(t);
}

/// `prefix` followed by the decimal representation of `n` and `suffix`.
pub fn wrap_dec(prefix: &str, n: u64, suffix: &str) -> (r: String)
    ensures
        r@ == prefix@ + dec(n as nat) + suffix@,
{
    let mut s = owned(prefix);
    push_dec(&mut s, n);
    push_str(&mut s, suffix);
    s
}

/// Joins the parts with `sep` between consecutive parts.
pub fn join_strings(parts: &Vec<String>, sep: &str) -> (r: String)
    ensures
        r@ == join(views(parts@), sep@),
{
    let mut s = String::new();
    let ghost vs = views(parts@);
    let n = parts.len();
    let mut i: usize = 0;
    while i < n
        invariant
            n == parts@.len(),
            vs == views(parts@),
            vs.len() == n,
            i <= n,
            s@ == join(vs.take(i as int), sep@),
        decreases n - i,
    {
        proof {
            assert(vs.take(i + 1).drop_last() =~= vs.take(i as int));
            assert(vs.take(i + 1).last() == parts@[i as int]@);
        }
        if i > 0 {
            push_str(&mut s, sep);
        } else {
            assert(vs.take(1) =~= seq![parts@[0]@]);
        }
        push_str(&mut s, parts[i].as_str());
        i = i + 1;
    }
    proof {
        assert(vs.take(n as int) =~= vs);
    }
    s
}

/// Two-digit hexadecimal representation of a byte.
pub open spec fn hex2(x: u8, upper: bool) -> Seq<char> {
    zero_pad(hex(x as nat, upper), 2)
}

/// The bytes in two-digit hexadecimal, separated by `sep`.
pub open spec fn hex_list(b: Seq<u8>, upper: bool, sep: Seq<char>) -> Seq<char> {
    join(b.map_values(|x: u8| hex2(x, upper)), sep)
}

/// The bytes in two-digit hexadecimal, separated by `sep`.
pub fn fmt_hex_list(b: &[u8], upper: bool, sep: &str) -> (r: String)
    ensures
        r@ == hex_list(b@, upper, sep@),
{
    let ghost hs = b@.map_values(|x: u8| hex2(x, upper));
    let mut s = String::new();
    let n = b.len();
    let mut i: usize = 0;
    while i < n
        invariant
            n == b@.len(),
            hs == b@.map_values(|x: u8| hex2(x, upper)),
            i <= n,
            s@ == join(hs.take(i as int), sep@),
        decreases n - i,
    {
        proof {
            assert(hs.take(i + 1).drop_last() =~= hs.take(i as int));
            assert(hs.take(i + 1).last() == hex2(b@[i as int], upper));
        }
        if i > 0 {
            push_str(&mut s, sep);
        } else {
            assert(hs.take(1) =~= seq![hex2(b@[0], upper)]);
        }
        let ghost before = s@;
        push_hex2(&mut s, b[i], upper);
        i = i + 1;
    }
    proof {
        assert(hs.take(n as int) =~= hs);
    }
    s
}

/// `num / den` rounded to tenths, halves rounded up.
pub open spec fn tenths(num: nat, den: nat) -> nat {
    (20 * num + den) / (2 * den)
}

/// A count of tenths written with one decimal, as "{:.1}" prints it.
pub open spec fn tenths_text(t: nat) -> Seq<char> {
    dec(t / 10) + seq!['.'] + dec(t % 10)
}

/// Appends a count of tenths written with one decimal.
pub fn push_tenths(s: &mut String, t: u64)
    ensures
        final(s)@ == old(s)@ + tenths_text(t as nat),
{
    let ghost s0 = s@;
    push_dec(s, t / 10);
    push_char(s, '.');
    push_dec(s, t % 10);
    proof {
        assert(s@ =~= s0 + tenths_text(t as nat));
    }
}

/// `num / den` rounded to the nearest integer, ties to even, as Rust's
/// fixed-precision float formatting rounds exact ties.
pub open spec fn round_half_even(num: nat, den: nat) -> nat {
    let q = num / den;
    let r = num % den;
    if 2 * r > den || (2 * r == den && q % 2 == 1) {
        q + 1
    } else {
        q
    }
}

/// `num / den` rounded to the nearest integer, ties to even.
pub fn round_half_even_exec(num: u64, den: u64) -> (r: u64)
    requires
        den > 0,
        den <= 0x1_0000_0000,
        num <= 0x1_0000_0000_0000,
    ensures
        r == round_half_even(num as nat, den as nat),
{
    let q = num / den;
    let rem = num % den;
    if 2 * rem > den || (2 * rem == den && q % 2 == 1) {
        q + 1
    } else {
        q
    }
}

/// A count of thousandths written with three decimals, as "{:.3}" prints it.
pub open spec fn thousandths_text(t: nat) -> Seq<char> {
    dec(t / 1000) + seq!['.'] + zero_pad(dec(t % 1000), 3)
}

/// Appends a count of thousandths written with three decimals.
pub fn push_thousandths(s: &mut String, t: u64)
    ensures
        final(s)@ == old(s)@ + thousandths_text(t as nat),
{
    let ghost s0 = s@;
    push_dec(s, t / 1000);
    push_char(s, '.');
    push_dec_pad(s, t % 1000, 3);
    proof {
        assert(s@ =~= s0 + thousandths_text(t as nat));
    }
}

/// `s` without trailing NUL characters.
pub open spec fn strip_nuls(s: Seq<char>) -> Seq<char>
    decreases s.len(),
{
    if s.len() > 0 && s.last() == '\0' {
        strip_nuls(s.drop_last())
    } else {
        s
    }
}

proof fn lemma_strip_nuls(s: Seq<char>, j: int)
    requires
        0 <= j <= s.len(),
        forall|k: int| j <= k < s.len() ==> #[trigger] s[k] == '\0',
        j == 0 || s[j - 1] != '\0',
    ensures
        strip_nuls(s) == s.take(j),
    decreases s.len() - j,
{
    if j < s.len() {
        let t = s.drop_last();
        assert forall|k: int| j <= k < t.len() implies #[trigger] t[k] == '\0' by {
            assert(t[k] == s[k]);
        }
        if j > 0 {
            assert(t[j - 1] == s[j - 1]);
        }
        lemma_strip_nuls(t, j);
        assert(t.take(j) =~= s.take(j));
    } else {
        assert(s.take(j) =~= s);
    }
}

/// `s` without trailing NUL characters, as `trim_end_matches('\0')` returns it.
pub fn trim_end_nuls(s: &str) -> (r: String)
    ensures
        r@ == strip_nuls(s@),
{
    let n = s.unicode_len();
    let mut j: usize = n;
    while j > 0 && s.get_char(j - 1) == '\0'
        invariant
            n == s@.len(),
            j <= n,
            forall|k: int| j <= k < n ==> #[trigger] s@[k] == '\0',
        decreases j,
    {
        j = j - 1;
    }
    proof {
        lemma_strip_nuls(s@, j as int);
    }
    let t = s.substring_char(0, j);
    assert(t@ =~= s@.take(j as int));
    owned(t)
}

// ---------------------------------------------------------------------------
// Comparing and trimming
// ---------------------------------------------------------------------------

/// Whether two string slices hold the same characters.
pub fn str_eq(a: &str, b: &str) -> (r: bool)
    ensures
        r == (a@ == b@),
{
    let x = a.to_owned();
    let y = b.to_owned();
    x == y
}

/// Unicode `White_Space`, as `char::is_whitespace` documents it.
pub open spec fn is_ws(c: char) -> bool {
    ||| c == ' '
    ||| ('\t' <= c <= '\r')
    ||| c == '\u{85}'
    ||| c == '\u{A0}'
    ||| c == '\u{1680}'
    ||| ('\u{2000}' <= c <= '\u{200A}')
    ||| c == '\u{2028}'
    ||| c == '\u{2029}'
    ||| c == '\u{202F}'
    ||| c == '\u{205F}'
    ||| c == '\u{3000}'
}

fn is_whitespace(c: char) -> (r: bool)
    ensures
        r == is_ws(c),
{
    c == ' ' || ('\t' <= c && c <= '\r') || c == '\u{85}' || c == '\u{A0}' || c == '\u{1680}' || (
    '\u{2000}' <= c && c <= '\u{200A}') || c == '\u{2028}' || c == '\u{2029}' || c == '\u{202F}'
        || c == '\u{205F}' || c == '\u{3000}'
}

/// Number of leading whitespace characters.
pub open spec fn lead_ws(s: Seq<char>) -> nat
    decreases s.len(),
{
    if s.len() > 0 && is_ws(s[0]) {
        1 + lead_ws(s.drop_first())
    } else {
        0
    }
}

/// Number of trailing whitespace characters.
pub open spec fn trail_ws(s: Seq<char>) -> nat
    decreases s.len(),
{
    if s.len() > 0 && is_ws(s.last()) {
        1 + trail_ws(s.drop_last())
    } else {
        0
    }
}

/// `s` without leading and trailing whitespace, as `str::trim` returns it.
pub open spec fn trim(s: Seq<char>) -> Seq<char> {
    let t = s.skip(lead_ws(s) as int);
    t.take(t.len() - trail_ws(t))
}

proof fn lemma_lead_ws(s: Seq<char>, i: int)
    requires
        0 <= i <= s.len(),
        forall|k: int| 0 <= k < i ==> is_ws(#[trigger] s[k]),
        i == s.len() || !is_ws(s[i]),
    ensures
        lead_ws(s) == i,
    decreases i,
{
    if i > 0 {
        let t = s.drop_first();
        assert forall|k: int| 0 <= k < i - 1 implies is_ws(#[trigger] t[k]) by {
            assert(t[k] == s[k + 1]);
        }
        if i < s.len() {
            assert(t[i - 1] == s[i]);
        }
        lemma_lead_ws(t, i - 1);
    }
}

proof fn lemma_trail_ws(s: Seq<char>, j: int)
    requires
        0 <= j <= s.len(),
        forall|k: int| j <= k < s.len() ==> is_ws(#[trigger] s[k]),
        j == 0 || !is_ws(s[j - 1]),
    ensures
        trail_ws(s) == s.len() - j,
    decreases s.len() - j,
{
    if j < s.len() {
        let t = s.drop_last();
        assert forall|k: int| j <= k < t.len() implies is_ws(#[trigger] t[k]) by {
            assert(t[k] == s[k]);
        }
        if j > 0 {
            assert(t[j - 1] == s[j - 1]);
        }
        lemma_trail_ws(t, j);
    }
}

/// `s` without leading and trailing whitespace.
pub fn trim_str(s: &str) -> (r: &str)
    ensures
        r@ == trim(s@),
{
    let n = s.unicode_len();
    let mut i: usize = 0;
    while i < n && is_whitespace(s.get_char(i))
        invariant
            n == s@.len(),
            i <= n,
            forall|k: int| 0 <= k < i ==> is_ws(#[trigger] s@[k]),
        decreases n - i,
    {
        i = i + 1;
    }
    proof {
        lemma_lead_ws(s@, i as int);
    }
    let mut j: usize = n;
    while j > i && is_whitespace(s.get_char(j - 1))
        invariant
            n == s@.len(),
            i <= j <= n,
            forall|k: int| j <= k < n ==> is_ws(#[trigger] s@[k]),
        decreases j - i,
    {
        j = j - 1;
    }
    let r = s.substring_char(i, j);
    proof {
        let t = s@.skip(i as int);
        assert forall|k: int| j - i <= k < t.len() implies is_ws(#[trigger] t[k]) by {
            assert(t[k] == s@[k + i]);
        }
        if j > i {
            assert(t[j - i - 1] == s@[j - 1]);
        }
        lemma_trail_ws(t, j - i);
        assert(r@ =~= trim(s@));
    }
    r
}

/// Whether `s` begins with `p`.
pub fn starts_with(s: &str, p: &str) -> (r: bool)
    ensures
        r == (p@.len() <= s@.len() && s@.take(p@.len() as int) == p@),
{
    let n = s.unicode_len();
    let m = p.unicode_len();
    if m > n {
        return false;
    }
    let mut i: usize = 0;
    while i < m
        invariant
            n == s@.len(),
            m == p@.len(),
            m <= n,
            i <= m,
            forall|k: int| 0 <= k < i ==> s@[k] == p@[k],
        decreases m - i,
    {
        if s.get_char(i) != p.get_char(i) {
            assert(s@.take(m as int)[i as int] != p@[i as int]);
            return false;
        }
        i = i + 1;
    }
    assert(s@.take(m as int) =~= p@);
    true
}

/// Whether `p` occurs in `s` at character position `at`.
pub open spec fn occurs_at(s: Seq<char>, p: Seq<char>, at: int) -> bool {
    0 <= at && at + p.len() <= s.len() && s.subrange(at, at + p.len()) == p
}

/// Whether `p` occurs anywhere in `s`.
pub open spec fn contains(s: Seq<char>, p: Seq<char>) -> bool {
    exists|at: int| occurs_at(s, p, at)
}

fn occurs_at_exec(s: &str, n: usize, p: &str, m: usize, at: usize) -> (r: bool)
    requires
        n == s@.len(),
        m == p@.len(),
        at + m <= n,
    ensures
        r == occurs_at(s@, p@, at as int),
{
    let mut i: usize = 0;
    while i < m
        invariant
            n == s@.len(),
            m == p@.len(),
            at + m <= n,
            i <= m,
            forall|k: int| 0 <= k < i ==> s@[at + k] == p@[k],
        decreases m - i,
    {
        if s.get_char(at + i) != p.get_char(i) {
            assert(s@.subrange(at as int, at + m)[i as int] != p@[i as int]);
            return false;
        }
        i = i + 1;
    }
    assert(s@.subrange(at as int, at + m) =~= p@);
    true
}

/// Whether `p` occurs in `s`.
pub fn str_contains(s: &str, p: &str) -> (r: bool)
    ensures
        r == contains(s@, p@),
{
    let n = s.unicode_len();
    let m = p.unicode_len();
    if m > n {
        return false;
    }
    if m == 0 {
        assert(s@.subrange(0, 0) =~= p@);
        assert(occurs_at(s@, p@, 0));
        return true;
    }
    let limit = n - m + 1;
    let mut at: usize = 0;
    while at < limit
        invariant
            n == s@.len(),
            m == p@.len(),
            1 <= m <= n,
            limit == n - m + 1,
            at <= limit,
            forall|k: int| 0 <= k < at ==> !occurs_at(s@, p@, k),
        decreases limit - at,
    {
        if occurs_at_exec(s, n, p, m, at) {
            return true;
        }
        at = at + 1;
    }
    false
}

/// The characters of `s` after its first `k`.
pub fn skip_chars(s: &str, k: usize) -> (r: &str)
    requires
        k <= s@.len(),
    ensures
        r@ == s@.skip(k as int),
{
    let n = s.unicode_len();
    let r = s.substring_char(k, n);
    assert(r@ =~= s@.skip(k as int));
    r
}

// ---------------------------------------------------------------------------
// Case mapping and byte decoding, as std documents them
// ---------------------------------------------------------------------------

/// ASCII letters mapped to upper case, other characters kept.
pub open spec fn ascii_upper(s: Seq<char>) -> Seq<char> {
    s.map_values(|c: char| if 'a' <= c <= 'z' { ((c as int) - 32) as char } else { c })
}

/// Whether every character is ASCII.
pub open spec fn all_ascii(s: Seq<char>) -> bool {
    forall|i: int| 0 <= i < s.len() ==> (s[i] as int) < 128
}

/// What `str::to_uppercase` returns: Unicode upper-case mapping of each character.
pub uninterp spec fn unicode_upper(s: Seq<char>) -> Seq<char>;

/// Wraps `str::to_uppercase`. Its result is a function of the characters alone
/// (named `unicode_upper`); on ASCII text it maps `a`..`z` to `A`..`Z` and
/// keeps every other character, which the Unicode case tables give for ASCII.
/// What it does to other characters is left to the name.
#[verifier::external_body]
pub(crate) fn to_upper(s: &str) -> (r: String)
    ensures
        r@ == unicode_upper(s@),
        all_ascii(s@) ==> r@ == ascii_upper(s@),
{
    s.to_uppercase()
}

/// What `String::from_utf8_lossy` yields for a byte sequence.
pub uninterp spec fn utf8_lossy(b: Seq<u8>) -> Seq<char>;

/// Bytes taken one for one as characters.
pub open spec fn latin(b: Seq<u8>) -> Seq<char> {
    b.map_values(|x: u8| x as char)
}

/// Whether every byte is below 0x80.
pub open spec fn ascii_bytes(b: Seq<u8>) -> bool {
    forall|i: int| 0 <= i < b.len() ==> b[i] < 128
}

/// Wraps `String::from_utf8_lossy`. Its result is a function of the bytes alone
/// (named `utf8_lossy`); bytes that are all ASCII decode one for one, as UTF-8
/// encodes ASCII in single bytes. How invalid sequences are replaced is left
/// to the name.
#[verifier::external_body]
pub(crate) fn lossy_string(b: &[u8]) -> (r: String)
    ensures
        r@ == utf8_lossy(b@),
        ascii_bytes(b@) ==> r@ == latin(b@),
{
    String::from_utf8_lossy(b).to_string()
}

/// What `std::str::from_utf8` yields: the characters when the bytes are valid
/// UTF-8, `None` when they are not.
pub uninterp spec fn utf8_decode(b: Seq<u8>) -> Option<Seq<char>>;

/// Wraps `std::str::from_utf8`, keeping the text and dropping the error. Its
/// result is a function of the bytes alone (named `utf8_decode`); bytes that
/// are all ASCII are valid UTF-8 and decode one for one. Which other byte
/// sequences are valid is left to the name.
#[verifier::external_body]
pub(crate) fn utf8_str(b: &[u8]) -> (r: Option<&str>)
    ensures
        match r {
            Some(t) => utf8_decode(b@) == Some(t@),
            None => utf8_decode(b@) is None,
        },
        ascii_bytes(b@) ==> r is Some && r->0@ == latin(b@),
{
    std::str::from_utf8(b).ok()
}

/// Decimal texts of unsigned numbers.
pub open spec fn dec_texts(v: Seq<u64>) -> Seq<Seq<char>> {
    v.map_values(|x: u64| dec(x as nat))
}

/// Decimal texts of signed numbers.
pub open spec fn int_texts(v: Seq<i64>) -> Seq<Seq<char>> {
    v.map_values(|x: i64| int_dec(x as int))
}

/// Unsigned numbers in decimal, joined by `sep`.
pub fn join_dec(v: &[u64], sep: &str) -> (r: String)
    ensures
        r@ == join(dec_texts(v@), sep@),
{
    let mut parts: Vec<String> = Vec::new();
    let mut i: usize = 0;
    while i < v.len()
        invariant
            i <= v@.len(),
            views(parts@) =~= dec_texts(v@.take(i as int)),
        decreases v.len() - i,
    {
        let ghost before = parts@;
        let t = fmt_dec(v[i]);
        parts.push(t);
        proof {
            assert(views(parts@) =~= views(before).push(dec(v@[i as int] as nat)));
            assert(v@.take(i + 1) =~= v@.take(i as int).push(v@[i as int]));
            assert(dec_texts(v@.take(i + 1)) =~= dec_texts(v@.take(i as int)).push(dec(v@[i as int] as nat)));
        }
        i = i + 1;
    }
    proof {
        assert(v@.take(i as int) =~= v@);
    }
    join_strings(&parts, sep)
}

/// Signed numbers in decimal, joined by `sep`.
pub fn join_int(v: &[i64], sep: &str) -> (r: String)
    ensures
        r@ == join(int_texts(v@), sep@),
{
    let mut parts: Vec<String> = Vec::new();
    let mut i: usize = 0;
    while i < v.len()
        invariant
            i <= v@.len(),
            views(parts@) =~= int_texts(v@.take(i as int)),
        decreases v.len() - i,
    {
        let ghost before = parts@;
        let t = fmt_int(v[i]);
        parts.push(t);
        proof {
            assert(views(parts@) =~= views(before).push(int_dec(v@[i as int] as int)));
            assert(v@.take(i + 1) =~= v@.take(i as int).push(v@[i as int]));
            assert(int_texts(v@.take(i + 1)) =~= int_texts(v@.take(i as int)).push(int_dec(v@[i as int] as int)));
        }
        i = i + 1;
    }
    proof {
        assert(v@.take(i as int) =~= v@);
    }
    join_strings(&parts, sep)
}

/// `s` without its trailing '0' characters.
pub open spec fn trim_zeros(s: Seq<char>) -> Seq<char>
    decreases s.len(),
{
    if s.len() > 0 && s.last() == '0' {
        trim_zeros(s.drop_last())
    } else {
        s
    }
}

/// Appends `digits` decimal digits of `n` (zero-padded), without trailing zeros.
pub fn push_frac_digits(s: &mut String, n: u64, digits: usize)
    requires
        digits <= 20,
    ensures
        final(s)@ == old(s)@ + trim_zeros(zero_pad(dec(n as nat), digits as nat)),
{
    let mut t = String::new();
    push_dec_pad(&mut t, n, digits);
    let ghost full = t@;
    let mut k: usize = t.unicode_len();
    assert(full.take(k as int) =~= full);
    while k > 0 && t.get_char(k - 1) == '0'
        invariant
            t@ == full,
            k <= full.len(),
            trim_zeros(full) == trim_zeros(full.take(k as int)),
        decreases k,
    {
        proof {
            assert(full.take(k as int).drop_last() =~= full.take(k - 1));
        }
        k = k - 1;
    }
    proof {
        assert(trim_zeros(full.take(k as int)) == full.take(k as int));
        assert(full.take(full.len() as int) =~= full);
    }
    let head = t.as_str().substring_char(0, k);
    push_str(s, head);
}

/// Whether `s` ends with `p`.
pub open spec fn ends_with(s: Seq<char>, p: Seq<char>) -> bool {
    s.len() >= p.len() && s.skip(s.len() - p.len()) == p
}

/// Appends a part to a list of texts.
pub fn push_part(parts: &mut Vec<String>, part: &str)
    ensures
        views(final(parts)@) == views(old(parts)@).push(part@),
{
    let ghost before = parts@;
    parts.push(owned(part));
    proof {
        assert(views(parts@) =~= views(before).push(part@));
    }
}

/// Whether `s` ends with `p`.
pub fn str_ends_with(s: &str, p: &str) -> (r: bool)
    ensures
        r == ends_with(s@, p@),
{
    let n = s.unicode_len();
    let m = p.unicode_len();
    if m > n {
        return false;
    }
    let tail = s.substring_char(n - m, n);
    assert(tail@ =~= s@.skip(n - m));
    str_eq(tail, p)
}

/// `s` without trailing whitespace, as `str::trim_end` returns it.
pub open spec fn trim_end(s: Seq<char>) -> Seq<char> {
    s.take(s.len() - trail_ws(s))
}

/// Removes trailing whitespace.
pub fn trim_end_str(s: &str) -> (r: &str)
    ensures
        r@ == trim_end(s@),
{
    let n = s.unicode_len();
    let mut j: usize = n;
    while j > 0 && is_whitespace(s.get_char(j - 1))
        invariant
            n == s@.len(),
            j <= n,
            forall|k: int| j <= k < n ==> is_ws(#[trigger] s@[k]),
        decreases j,
    {
        j = j - 1;
    }
    proof {
        lemma_trail_ws(s@, j as int);
    }
    let r = s.substring_char(0, j);
    assert(r@ =~= trim_end(s@));
    r
}

/// Whether `c` is an ASCII digit.
pub open spec fn is_digit(c: char) -> bool {
    '0' <= c <= '9'
}

/// Whether every character is an ASCII digit.
pub open spec fn all_digit_chars(s: Seq<char>) -> bool {
    forall|i: int| 0 <= i < s.len() ==> is_digit(#[trigger] s[i])
}

/// Whether some character is an ASCII digit.
pub open spec fn any_digit_char(s: Seq<char>) -> bool {
    exists|i: int| 0 <= i < s.len() && is_digit(#[trigger] s[i])
}

/// Whether every character is an ASCII digit.
pub fn all_digits_str(s: &str) -> (r: bool)
    ensures
        r == all_digit_chars(s@),
{
    let n = s.unicode_len();
    let mut i: usize = 0;
    while i < n
        invariant
            n == s@.len(),
            i <= n,
            forall|k: int| 0 <= k < i ==> is_digit(#[trigger] s@[k]),
        decreases n - i,
    {
        let c = s.get_char(i);
        if !('0' <= c && c <= '9') {
            return false;
        }
        i = i + 1;
    }
    true
}

/// Whether some character is an ASCII digit.
pub fn any_digit_str(s: &str) -> (r: bool)
    ensures
        r == any_digit_char(s@),
{
    let n = s.unicode_len();
    let mut i: usize = 0;
    while i < n
        invariant
            n == s@.len(),
            i <= n,
            forall|k: int| 0 <= k < i ==> !is_digit(#[trigger] s@[k]),
        decreases n - i,
    {
        let c = s.get_char(i);
        if '0' <= c && c <= '9' {
            assert(is_digit(s@[i as int]));
            return true;
        }
        i = i + 1;
    }
    false
}

/// Whether `a` sorts at or after `b`, comparing characters in order (as `str`
/// comparison orders UTF-8 text).
pub open spec fn lex_ge(a: Seq<char>, b: Seq<char>) -> bool
    decreases a.len(),
{
    if b.len() == 0 {
        true
    } else if a.len() == 0 {
        false
    } else if a[0] != b[0] {
        a[0] > b[0]
    } else {
        lex_ge(a.drop_first(), b.drop_first())
    }
}

/// Whether `a` sorts at or after `b`.
pub fn str_ge(a: &str, b: &str) -> (r: bool)
    ensures
        r == lex_ge(a@, b@),
{
    let n = a.unicode_len();
    let m = b.unicode_len();
    let mut i: usize = 0;
    assert(a@.skip(0) =~= a@);
    assert(b@.skip(0) =~= b@);
    while i < n && i < m && a.get_char(i) == b.get_char(i)
        invariant
            n == a@.len(),
            m == b@.len(),
            i <= n,
            i <= m,
            lex_ge(a@, b@) == lex_ge(a@.skip(i as int), b@.skip(i as int)),
        decreases n - i,
    {
        proof {
            assert(a@.skip(i as int).drop_first() =~= a@.skip(i + 1));
            assert(b@.skip(i as int).drop_first() =~= b@.skip(i + 1));
        }
        i = i + 1;
    }
    if i == m {
        true
    } else if i == n {
        false
    } else {
        assert(a@.skip(i as int)[0] == a@[i as int]);
        assert(b@.skip(i as int)[0] == b@[i as int]);
        a.get_char(i) > b.get_char(i)
    }
}

/// What `str::to_lowercase` returns: Unicode lower-case mapping.
pub uninterp spec fn unicode_lower(s: Seq<char>) -> Seq<char>;

/// ASCII letters mapped to lower case, other characters kept.
pub open spec fn ascii_lower(s: Seq<char>) -> Seq<char> {
    s.map_values(|c: char| if 'A' <= c <= 'Z' { ((c as int) + 32) as char } else { c })
}

/// Wraps `str::to_lowercase`. Its result is a function of the characters alone
/// (named `unicode_lower`); on ASCII text it maps `A`..`Z` to `a`..`z` and keeps
/// every other character. What it does to other characters is left to the name.
#[verifier::external_body]
pub(crate) fn to_lower(s: &str) -> (r: String)
    ensures
        r@ == unicode_lower(s@),
        all_ascii(s@) ==> r@ == ascii_lower(s@),
{
    s.to_lowercase()
}

/// The words of `s` as `str::split_whitespace` yields them: the words done and
/// the word being read.
pub open spec fn words_state(s: Seq<char>) -> (Seq<Seq<char>>, Seq<char>)
    decreases s.len(),
{
    if s.len() == 0 {
        (Seq::empty(), Seq::empty())
    } else {
        let (done, cur) = words_state(s.drop_last());
        if is_ws(s.last()) {
            (
                if cur.len() > 0 {
                    done.push(cur)
                } else {
                    done
                },
                Seq::empty(),
            )
        } else {
            (done, cur.push(s.last()))
        }
    }
}

/// The whitespace-separated words of `s`.
pub open spec fn ws_words(s: Seq<char>) -> Seq<Seq<char>> {
    let (done, cur) = words_state(s);
    if cur.len() > 0 {
        done.push(cur)
    } else {
        done
    }
}

/// Splits `s` into its whitespace-separated words.
pub fn split_words(s: &str) -> (r: Vec<String>)
    ensures
        views(r@) == ws_words(s@),
{
    let n = s.unicode_len();
    let mut done: Vec<String> = Vec::new();
    let mut cur = String::new();
    let mut i: usize = 0;
    while i < n
        invariant
            n == s@.len(),
            i <= n,
            (views(done@), cur@) == words_state(s@.take(i as int)),
        decreases n - i,
    {
        proof {
            assert(s@.take(i + 1).drop_last() =~= s@.take(i as int));
        }
        let c = s.get_char(i);
        if is_whitespace(c) {
            if cur.unicode_len() > 0 {
                let ghost before = done@;
                let ghost cv = cur@;
                done.push(cur);
                proof {
                    assert(views(done@) =~= views(before).push(cv));
                }
            }
            cur = String::new();
        } else {
            push_char(&mut cur, c);
        }
        i = i + 1;
    }
    proof {
        assert(s@.take(n as int) =~= s@);
    }
    if cur.unicode_len() > 0 {
        let ghost before = done@;
        let ghost cv = cur@;
        done.push(cur);
        proof {
            assert(views(done@) =~= views(before).push(cv));
        }
    }
    done
}

/// The pieces of `s` between `sep` characters (empty ones included), as
/// `str::split` yields them: the pieces done and the piece being read.
pub open spec fn split_state(s: Seq<char>, sep: char) -> (Seq<Seq<char>>, Seq<char>)
    decreases s.len(),
{
    if s.len() == 0 {
        (Seq::empty(), Seq::empty())
    } else {
        let (done, cur) = split_state(s.drop_last(), sep);
        if s.last() == sep {
            (done.push(cur), Seq::empty())
        } else {
            (done, cur.push(s.last()))
        }
    }
}

/// The pieces of `s` between `sep` characters.
pub open spec fn split_pieces(s: Seq<char>, sep: char) -> Seq<Seq<char>> {
    let (done, cur) = split_state(s, sep);
    done.push(cur)
}

/// Splits `s` at each `sep`.
pub fn split_at_char(s: &str, sep: char) -> (r: Vec<String>)
    ensures
        views(r@) == split_pieces(s@, sep),
{
    let n = s.unicode_len();
    let mut done: Vec<String> = Vec::new();
    let mut cur = String::new();
    let mut i: usize = 0;
    while i < n
        invariant
            n == s@.len(),
            i <= n,
            (views(done@), cur@) == split_state(s@.take(i as int), sep),
        decreases n - i,
    {
        proof {
            assert(s@.take(i + 1).drop_last() =~= s@.take(i as int));
        }
        let c = s.get_char(i);
        if c == sep {
            let ghost before = done@;
            let ghost cv = cur@;
            done.push(cur);
            proof {
                assert(views(done@) =~= views(before).push(cv));
            }
            cur = String::new();
        } else {
            push_char(&mut cur, c);
        }
        i = i + 1;
    }
    proof {
        assert(s@.take(n as int) =~= s@);
    }
    let ghost before = done@;
    let ghost cv = cur@;
    done.push(cur);
    proof {
        assert(views(done@) =~= views(before).push(cv));
    }
    done
}

} // verus!
