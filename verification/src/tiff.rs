//! Reading the values of TIFF directory entries.
use vstd::prelude::*;
use crate::bytes::{Endianness, read_u16_at, read_u32_at, u16_of, u32_of};

verus! {

/// A 16-bit value at `pos`.
pub open spec fn at_u16(d: Seq<u8>, pos: int, e: Endianness) -> u16 {
    u16_of(d.subrange(pos, d.len() as int), e)
}

/// A 32-bit value at `pos`.
pub open spec fn at_u32(d: Seq<u8>, pos: int, e: Endianness) -> u32 {
    u32_of(d.subrange(pos, d.len() as int), e)
}

/// The first `count` bytes (all of them when there are fewer).
pub open spec fn first_bytes(b: Seq<u8>, count: u32) -> Seq<u8> {
    if (count as int) < b.len() {
        b.take(count as int)
    } else {
        b
    }
}

/// Number of whole items of `size` bytes that are read, at most `count`.
pub open spec fn items_read(b: Seq<u8>, count: u32, size: nat) -> nat {
    if (count as nat) < b.len() / size {
        count as nat
    } else {
        b.len() / size
    }
}

/// SHORT values read from `b`.
pub open spec fn read_shorts(b: Seq<u8>, count: u32, e: Endianness) -> Seq<u16> {
    Seq::new(items_read(b, count, 2), |i: int| u16_of(b.subrange(2 * i, b.len() as int), e))
}

/// SSHORT values read from `b`.
pub open spec fn read_sshorts(b: Seq<u8>, count: u32, e: Endianness) -> Seq<i16> {
    read_shorts(b, count, e).map_values(|v: u16| v as i16)
}

/// LONG values read from `b`.
pub open spec fn read_longs(b: Seq<u8>, count: u32, e: Endianness) -> Seq<u32> {
    Seq::new(items_read(b, count, 4), |i: int| u32_of(b.subrange(4 * i, b.len() as int), e))
}

/// SLONG values read from `b`.
pub open spec fn read_slongs(b: Seq<u8>, count: u32, e: Endianness) -> Seq<i32> {
    read_longs(b, count, e).map_values(|v: u32| v as i32)
}

/// RATIONAL values read from `b`.
pub open spec fn read_rationals(b: Seq<u8>, count: u32, e: Endianness) -> Seq<(u32, u32)> {
    Seq::new(
        items_read(b, count, 8),
        |i: int|
            (
                u32_of(b.subrange(8 * i, b.len() as int), e),
                u32_of(b.subrange(8 * i + 4, b.len() as int), e),
            ),
    )
}

/// SRATIONAL values read from `b`.
pub open spec fn read_srationals(b: Seq<u8>, count: u32, e: Endianness) -> Seq<(i32, i32)> {
    read_rationals(b, count, e).map_values(|p: (u32, u32)| (p.0 as i32, p.1 as i32))
}

/// Reads SHORT values.
pub fn read_shorts_exec(b: &[u8], count: u32, e: Endianness) -> (r: Vec<u16>)
    ensures
        r@ == read_shorts(b@, count, e),
{
    let mut v: Vec<u16> = Vec::new();
    let mut i: u64 = 0;
    while i < count as u64 && 2 * i + 2 <= b.len() as u64
        invariant
            i <= count,
            2 * i <= b@.len(),
            v@.len() == i,
            forall|k: int| 0 <= k < i ==> v@[k] == u16_of(b@.subrange(2 * k, b@.len() as int), e),
        decreases count - i,
    {
        v.push(read_u16_at(b, (2 * i) as usize, e));
        i = i + 1;
    }
    assert(v@ =~= read_shorts(b@, count, e));
    v
}

/// Reads SSHORT values.
pub fn read_sshorts_exec(b: &[u8], count: u32, e: Endianness) -> (r: Vec<i16>)
    ensures
        r@ == read_sshorts(b@, count, e),
{
    let mut v: Vec<i16> = Vec::new();
    let mut i: u64 = 0;
    while i < count as u64 && 2 * i + 2 <= b.len() as u64
        invariant
            i <= count,
            2 * i <= b@.len(),
            v@.len() == i,
            forall|k: int|
                0 <= k < i ==> v@[k] == u16_of(b@.subrange(2 * k, b@.len() as int), e) as i16,
        decreases count - i,
    {
        v.push(read_u16_at(b, (2 * i) as usize, e) as i16);
        i = i + 1;
    }
    assert(v@ =~= read_sshorts(b@, count, e));
    v
}

/// Reads LONG values.
pub fn read_longs_exec(b: &[u8], count: u32, e: Endianness) -> (r: Vec<u32>)
    ensures
        r@ == read_longs(b@, count, e),
{
    let mut v: Vec<u32> = Vec::new();
    let mut i: u64 = 0;
    while i < count as u64 && 4 * i + 4 <= b.len() as u64
        invariant
            i <= count,
            4 * i <= b@.len(),
            v@.len() == i,
            forall|k: int| 0 <= k < i ==> v@[k] == u32_of(b@.subrange(4 * k, b@.len() as int), e),
        decreases count - i,
    {
        v.push(read_u32_at(b, (4 * i) as usize, e));
        i = i + 1;
    }
    assert(v@ =~= read_longs(b@, count, e));
    v
}

/// Reads SLONG values.
pub fn read_slongs_exec(b: &[u8], count: u32, e: Endianness) -> (r: Vec<i32>)
    ensures
        r@ == read_slongs(b@, count, e),
{
    let mut v: Vec<i32> = Vec::new();
    let mut i: u64 = 0;
    while i < count as u64 && 4 * i + 4 <= b.len() as u64
        invariant
            i <= count,
            4 * i <= b@.len(),
            v@.len() == i,
            forall|k: int|
                0 <= k < i ==> v@[k] == u32_of(b@.subrange(4 * k, b@.len() as int), e) as i32,
        decreases count - i,
    {
        v.push(read_u32_at(b, (4 * i) as usize, e) as i32);
        i = i + 1;
    }
    assert(v@ =~= read_slongs(b@, count, e));
    v
}

/// Reads RATIONAL values.
pub fn read_rationals_exec(b: &[u8], count: u32, e: Endianness) -> (r: Vec<(u32, u32)>)
    ensures
        r@ == read_rationals(b@, count, e),
{
    let mut v: Vec<(u32, u32)> = Vec::new();
    let mut i: u64 = 0;
    while i < count as u64 && 8 * i + 8 <= b.len() as u64
        invariant
            i <= count,
            8 * i <= b@.len(),
            v@.len() == i,
            forall|k: int|
                0 <= k < i ==> v@[k] == (
                    u32_of(b@.subrange(8 * k, b@.len() as int), e),
                    u32_of(b@.subrange(8 * k + 4, b@.len() as int), e),
                ),
        decreases count - i,
    {
        let num = read_u32_at(b, (8 * i) as usize, e);
        let den = read_u32_at(b, (8 * i + 4) as usize, e);
        v.push((num, den));
        i = i + 1;
    }
    assert(v@ =~= read_rationals(b@, count, e));
    v
}

/// Reads SRATIONAL values.
pub fn read_srationals_exec(b: &[u8], count: u32, e: Endianness) -> (r: Vec<(i32, i32)>)
    ensures
        r@ == read_srationals(b@, count, e),
{
    let mut v: Vec<(i32, i32)> = Vec::new();
    let mut i: u64 = 0;
    while i < count as u64 && 8 * i + 8 <= b.len() as u64
        invariant
            i <= count,
            8 * i <= b@.len(),
            v@.len() == i,
            forall|k: int|
                0 <= k < i ==> v@[k] == (
                    u32_of(b@.subrange(8 * k, b@.len() as int), e) as i32,
                    u32_of(b@.subrange(8 * k + 4, b@.len() as int), e) as i32,
                ),
        decreases count - i,
    {
        let num = read_u32_at(b, (8 * i) as usize, e) as i32;
        let den = read_u32_at(b, (8 * i + 4) as usize, e) as i32;
        v.push((num, den));
        i = i + 1;
    }
    assert(v@ =~= read_srationals(b@, count, e));
    v
}

/// The bytes before the first zero byte.
pub open spec fn until_nul(b: Seq<u8>) -> Seq<u8>
    decreases b.len(),
{
    if b.len() == 0 {
        b
    } else if b[0] == 0 {
        Seq::empty()
    } else {
        seq![b[0]] + until_nul(b.drop_first())
    }
}

/// The bytes before the first zero are the first `i` when none of those is
/// zero and byte `i` is zero or past the end.
pub proof fn lemma_until_nul(b: Seq<u8>, i: int)
    requires
        0 <= i <= b.len(),
        forall|j: int| 0 <= j < i ==> b[j] != 0,
        i == b.len() || b[i] == 0,
    ensures
        until_nul(b) == b.take(i),
    decreases i,
{
    if i > 0 {
        lemma_until_nul(b.drop_first(), i - 1);
        assert(b.take(i) =~= seq![b[0]] + b.drop_first().take(i - 1));
    } else if b.len() > 0 {
        assert(b.take(0) =~= Seq::<u8>::empty());
    }
}

/// The bytes before the first zero byte.
pub fn until_nul_exec(b: &[u8]) -> (r: Vec<u8>)
    ensures
        r@ == until_nul(b@),
{
    let mut v: Vec<u8> = Vec::new();
    let mut i: usize = 0;
    while i < b.len() && b[i] != 0
        invariant
            i <= b@.len(),
            forall|j: int| 0 <= j < i ==> b@[j] != 0,
            v@ =~= b@.take(i as int),
        decreases b.len() - i,
    {
        v.push(b[i]);
        i = i + 1;
        proof {
            assert(b@.take(i as int) =~= b@.take(i - 1).push(b@[i - 1]));
        }
    }
    proof {
        lemma_until_nul(b@, i as int);
    }
    v
}

} // verus!
