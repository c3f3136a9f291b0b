//! Unsigned integers as little-endian byte strings.

use vstd::prelude::*;

verus! {

/// The number that `bytes` spells, least significant byte first.
pub open spec fn le_value(bytes: Seq<u8>) -> nat
    decreases bytes.len(),
{
    if bytes.len() == 0 {
        0
    } else {
        bytes[0] as nat + 256 * le_value(bytes.drop_first())
    }
}

/// The first `width` little-endian bytes of `value`.
pub open spec fn le_bytes(value: nat, width: nat) -> Seq<u8>
    decreases width,
{
    if width == 0 {
        Seq::empty()
    } else {
        seq![(value % 256) as u8] + le_bytes(value / 256, (width - 1) as nat)
    }
}

/// 256 to the power `width`: the number of values that `width` bytes can spell.
pub open spec fn le_limit(width: nat) -> nat
    decreases width,
{
    if width == 0 {
        1
    } else {
        256 * le_limit((width - 1) as nat)
    }
}

/// `le_bytes` yields exactly `width` bytes.
pub proof fn lemma_le_bytes_len(value: nat, width: nat)
    ensures
        le_bytes(value, width).len() == width,
    decreases width,
{
    if width > 0 {
        lemma_le_bytes_len(value / 256, (width - 1) as nat);
    }
}

/// A byte string spells a number below the limit of its width.
pub proof fn lemma_le_value_bound(bytes: Seq<u8>)
    ensures
        le_value(bytes) < le_limit(bytes.len()),
    decreases bytes.len(),
{
    if bytes.len() > 0 {
        lemma_le_value_bound(bytes.drop_first());
    }
}

/// Eight bytes never spell more than a `u64` holds.
pub proof fn lemma_le_limit_8()
    ensures
        le_limit(8) == 0x1_0000_0000_0000_0000,
{
    reveal_with_fuel(le_limit, 9);
}

/// Spelling a number and reading it back gives the number, if it fits the width.
pub proof fn lemma_le_value_of_bytes(value: nat, width: nat)
    requires
        value < le_limit(width),
    ensures
        le_value(le_bytes(value, width)) == value,
    decreases width,
{
    if width > 0 {
        let rest = le_bytes(value / 256, (width - 1) as nat);
        let all = le_bytes(value, width);
        lemma_le_bytes_len(value / 256, (width - 1) as nat);
        assert(all.drop_first() =~= rest);
        lemma_le_value_of_bytes(value / 256, (width - 1) as nat);
    }
}

/// Reading a byte string and spelling the number again gives the byte string.
pub proof fn lemma_le_bytes_of_value(bytes: Seq<u8>)
    ensures
        le_bytes(le_value(bytes), bytes.len()) == bytes,
    decreases bytes.len(),
{
    if bytes.len() > 0 {
        let rest = bytes.drop_first();
        lemma_le_bytes_of_value(rest);
        let value = le_value(bytes);
        assert(value % 256 == bytes[0] as nat);
        assert(value / 256 == le_value(rest));
        assert(le_bytes(value, bytes.len()) =~= seq![bytes[0]] + rest);
        assert(seq![bytes[0]] + rest =~= bytes);
    }
}

/// Eight bytes spell the sum of their values, each weighing 256 times the
/// one before it.
pub proof fn lemma_le_value_8(bytes: Seq<u8>)
    requires
        bytes.len() == 8,
    ensures
        le_value(bytes) == bytes[0] + 0x100 * bytes[1] + 0x1_0000 * bytes[2] + 0x100_0000
            * bytes[3] + 0x1_0000_0000 * bytes[4] + 0x100_0000_0000 * bytes[5]
            + 0x1_0000_0000_0000 * bytes[6] + 0x100_0000_0000_0000 * bytes[7],
{
    let s1 = bytes.drop_first();
    let s2 = s1.drop_first();
    let s3 = s2.drop_first();
    let s4 = s3.drop_first();
    let s5 = s4.drop_first();
    let s6 = s5.drop_first();
    let s7 = s6.drop_first();
    let s8 = s7.drop_first();
    assert(le_value(s8) == 0);
    assert(le_value(s7) == bytes[7]);
    assert(le_value(s6) == bytes[6] + 256 * le_value(s7));
    assert(le_value(s5) == bytes[5] + 256 * le_value(s6));
    assert(le_value(s4) == bytes[4] + 256 * le_value(s5));
    assert(le_value(s3) == bytes[3] + 256 * le_value(s4));
    assert(le_value(s2) == bytes[2] + 256 * le_value(s3));
    assert(le_value(s1) == bytes[1] + 256 * le_value(s2));
    assert(le_value(bytes) == bytes[0] + 256 * le_value(s1));
}

/// The eight little-endian bytes of a number are its digits to the base 256,
/// lowest first.
pub proof fn lemma_le_bytes_8(value: nat)
    ensures
        le_bytes(value, 8) == seq![
            (value % 256) as u8,
            (value / 0x100 % 256) as u8,
            (value / 0x1_0000 % 256) as u8,
            (value / 0x100_0000 % 256) as u8,
            (value / 0x1_0000_0000 % 256) as u8,
            (value / 0x100_0000_0000 % 256) as u8,
            (value / 0x1_0000_0000_0000 % 256) as u8,
            (value / 0x100_0000_0000_0000 % 256) as u8,
        ],
{
    let v1 = value / 256;
    let v2 = v1 / 256;
    let v3 = v2 / 256;
    let v4 = v3 / 256;
    let v5 = v4 / 256;
    let v6 = v5 / 256;
    let v7 = v6 / 256;
    assert(v1 == value / 0x100);
    assert(v2 == value / 0x1_0000);
    assert(v3 == value / 0x100_0000);
    assert(v4 == value / 0x1_0000_0000);
    assert(v5 == value / 0x100_0000_0000);
    assert(v6 == value / 0x1_0000_0000_0000);
    assert(v7 == value / 0x100_0000_0000_0000);
    reveal_with_fuel(le_bytes, 9);
    assert(le_bytes(value, 8) =~= seq![
        (value % 256) as u8,
        (v1 % 256) as u8,
        (v2 % 256) as u8,
        (v3 % 256) as u8,
        (v4 % 256) as u8,
        (v5 % 256) as u8,
        (v6 % 256) as u8,
        (v7 % 256) as u8,
    ]);
}

/// A wider byte string has a limit at least as large.
pub proof fn lemma_le_limit_grows(narrow: nat, wide: nat)
    requires
        narrow <= wide,
    ensures
        le_limit(narrow) <= le_limit(wide),
    decreases wide,
{
    if narrow < wide {
        lemma_le_limit_grows(narrow, (wide - 1) as nat);
    }
}

/// Reads the eight bytes of `src` that start at `at` as a little-endian number.
pub fn read_u64(src: &[u8], at: usize) -> (value: u64)
    requires
        at + 8 <= src.len(),
    ensures
        value == le_value(src@.subrange(at as int, at + 8)),
{
    let mut value: u64 = 0;
    let mut i: usize = 8;
    while i > 0
        invariant
            i <= 8,
            at + 8 <= src.len(),
            value == le_value(src@.subrange(at + i, at + 8)),
            value < le_limit((8 - i) as nat),
        decreases i,
    {
        i = i - 1;
        proof {
            let tail = src@.subrange(at + i, at + 8);
            assert(tail.drop_first() =~= src@.subrange(at + i + 1, at + 8));
            lemma_le_limit_grows((8 - i) as nat, 8);
            lemma_le_limit_8();
        }
        value = value * 256 + src[at + i] as u64;
    }
    value
}

/// Writes `value` as eight little-endian bytes into `dst`, from `at` on, and
/// leaves every other byte of `dst` as it was.
pub fn write_u64(dst: &mut [u8], at: usize, value: u64)
    requires
        at + 8 <= old(dst).len(),
    ensures
        final(dst)@ == old(dst)@.subrange(0, at as int) + le_bytes(value as nat, 8) + old(
            dst,
        )@.subrange(at + 8, old(dst)@.len() as int),
{
    let mut rest: u64 = value;
    let mut i: usize = 0;
    while i < 8
        invariant
            i <= 8,
            at + 8 <= dst.len(),
            dst@.len() == old(dst)@.len(),
            dst@.subrange(0, at as int) == old(dst)@.subrange(0, at as int),
            dst@.subrange(at + 8, dst@.len() as int) == old(dst)@.subrange(
                at + 8,
                old(dst)@.len() as int,
            ),
            le_bytes(value as nat, 8) == dst@.subrange(at as int, at + i) + le_bytes(
                rest as nat,
                (8 - i) as nat,
            ),
        decreases 8 - i,
    {
        let ghost before = dst@;
        dst[at + i] = (rest % 256) as u8;
        proof {
            assert(dst@.subrange(0, at as int) =~= before.subrange(0, at as int));
            assert(dst@.subrange(at + 8, dst@.len() as int) =~= before.subrange(
                at + 8,
                before.len() as int,
            ));
            assert(dst@.subrange(at as int, at + i + 1) =~= before.subrange(at as int, at + i)
                + seq![(rest % 256) as u8]);
        }
        rest = rest / 256;
        i = i + 1;
    }
    proof {
        assert(dst@ =~= dst@.subrange(0, at as int) + dst@.subrange(at as int, at + 8)
            + dst@.subrange(at + 8, dst@.len() as int));
    }
}

} // verus!
