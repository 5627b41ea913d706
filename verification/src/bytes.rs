//! Little-endian integers inside firmware buffers.
//!
//! Every multi-byte field in the SEV-SNP ABI is little-endian. The spec
//! functions here say what such a field means as a number; the executable
//! readers and writers are proved against them, and the lemmas show that
//! encoding and decoding undo each other.

use vstd::prelude::*;

verus! {

/// The number that four little-endian bytes encode.
pub open spec fn le_u32(s: Seq<u8>) -> int {
    s[0] + 0x100 * s[1] + 0x1_0000 * s[2] + 0x100_0000 * s[3]
}

/// The number that eight little-endian bytes encode.
pub open spec fn le_u64(s: Seq<u8>) -> int {
    le_u32(s.subrange(0, 4)) + 0x1_0000_0000 * le_u32(s.subrange(4, 8))
}

/// Byte `k` (counting from the least significant) of a value.
pub open spec fn byte_of(v: int, k: int) -> u8 {
    ((v / pow256(k)) % 0x100) as u8
}

/// `256` raised to `k`, for the byte positions of a 64-bit value.
pub open spec fn pow256(k: int) -> int
    decreases k,
{
    if k <= 0 {
        1
    } else {
        0x100 * pow256(k - 1)
    }
}

/// The four little-endian bytes of a 32-bit value.
pub open spec fn le_bytes_u32(v: u32) -> Seq<u8> {
    seq![byte_of(v as int, 0), byte_of(v as int, 1), byte_of(v as int, 2), byte_of(v as int, 3)]
}

/// The eight little-endian bytes of a 64-bit value.
pub open spec fn le_bytes_u64(v: u64) -> Seq<u8> {
    seq![
        byte_of(v as int, 0),
        byte_of(v as int, 1),
        byte_of(v as int, 2),
        byte_of(v as int, 3),
        byte_of(v as int, 4),
        byte_of(v as int, 5),
        byte_of(v as int, 6),
        byte_of(v as int, 7),
    ]
}

/// Four bytes decode to a value below `2^32`.
pub proof fn lemma_le_u32_bound(s: Seq<u8>)
    requires
        s.len() == 4,
    ensures
        0 <= le_u32(s) <= u32::MAX,
{
}

/// Eight bytes decode to a value below `2^64`.
pub proof fn lemma_le_u64_bound(s: Seq<u8>)
    requires
        s.len() == 8,
    ensures
        0 <= le_u64(s) <= u64::MAX,
{
    lemma_le_u32_bound(s.subrange(0, 4));
    lemma_le_u32_bound(s.subrange(4, 8));
}

/// The number a little-endian byte string of any length encodes.
pub open spec fn digits_value(s: Seq<u8>) -> int
    decreases s.len(),
{
    if s.len() == 0 {
        0
    } else {
        s[0] + 0x100 * digits_value(s.drop_first())
    }
}

/// The `n` low bytes of `v`, least significant first.
pub open spec fn low_bytes(v: int, n: nat) -> Seq<u8> {
    Seq::new(n, |k: int| byte_of(v, k))
}

proof fn lemma_digits_value_nonneg(s: Seq<u8>)
    ensures
        0 <= digits_value(s) < pow256(s.len() as int),
    decreases s.len(),
{
    if s.len() > 0 {
        lemma_digits_value_nonneg(s.drop_first());
        assert(pow256(s.len() as int) == 0x100 * pow256(s.len() - 1));
    }
}

/// Byte `k` of the number a byte string encodes is the `k`-th byte.
pub proof fn lemma_byte_of_digits(s: Seq<u8>, k: int)
    requires
        0 <= k < s.len(),
    ensures
        byte_of(digits_value(s), k) == s[k],
    decreases k,
{
    let v = digits_value(s);
    let rest = digits_value(s.drop_first());
    lemma_digits_value_nonneg(s.drop_first());
    vstd::arithmetic::div_mod::lemma_fundamental_div_mod_converse(v, 0x100, rest, s[0] as int);
    if k > 0 {
        lemma_byte_of_digits(s.drop_first(), k - 1);
        assert(pow256(k) == 0x100 * pow256(k - 1));
        lemma_pow256_pos(k - 1);
        vstd::arithmetic::div_mod::lemma_div_denominator(v, 0x100, pow256(k - 1));
    }
}

proof fn lemma_pow256_pos(k: int)
    ensures
        pow256(k) > 0,
    decreases k,
{
    if k > 0 {
        lemma_pow256_pos(k - 1);
    }
}

/// The low `n` bytes of a value below `256^n` encode that value.
pub proof fn lemma_digits_of_low_bytes(v: int, n: nat)
    requires
        0 <= v < pow256(n as int),
    ensures
        digits_value(low_bytes(v, n)) == v,
    decreases n,
{
    if n == 0 {
        assert(low_bytes(v, n).len() == 0);
    } else {
        let s = low_bytes(v, n);
        let q = v / 0x100;
        vstd::arithmetic::div_mod::lemma_fundamental_div_mod(v, 0x100);
        assert(pow256(n as int) == 0x100 * pow256(n - 1));
        assert(q < pow256(n - 1)) by (nonlinear_arith)
            requires
                v == 0x100 * q + v % 0x100,
                v % 0x100 >= 0,
                v < 0x100 * pow256(n - 1),
        ;
        assert forall|k: int| 0 <= k < n - 1 implies #[trigger] s.drop_first()[k] == byte_of(
            q,
            k,
        ) by {
            lemma_pow256_pos(k);
            assert(pow256(k + 1) == 0x100 * pow256(k));
            vstd::arithmetic::div_mod::lemma_div_denominator(v, 0x100, pow256(k));
        }
        assert(s.drop_first() =~= low_bytes(q, (n - 1) as nat));
        lemma_digits_of_low_bytes(q, (n - 1) as nat);
    }
}

proof fn lemma_le_u32_digits(s: Seq<u8>)
    requires
        s.len() == 4,
    ensures
        le_u32(s) == digits_value(s),
{
    reveal_with_fuel(digits_value, 5);
    assert(s.drop_first().drop_first().drop_first().drop_first().len() == 0);
}

proof fn lemma_le_u64_digits(s: Seq<u8>)
    requires
        s.len() == 8,
    ensures
        le_u64(s) == digits_value(s),
{
    reveal_with_fuel(digits_value, 9);
    assert(s.drop_first().drop_first().drop_first().drop_first().drop_first().drop_first().drop_first().drop_first().len() == 0);
}

/// Decoding the bytes of a 32-bit value gives the value back.
pub proof fn lemma_le_u32_of_bytes(v: u32)
    ensures
        le_u32(le_bytes_u32(v)) == v,
        le_bytes_u32(v).len() == 4,
{
    reveal_with_fuel(pow256, 5);
    assert(le_bytes_u32(v) =~= low_bytes(v as int, 4));
    lemma_digits_of_low_bytes(v as int, 4);
    lemma_le_u32_digits(le_bytes_u32(v));
}

/// Decoding the bytes of a 64-bit value gives the value back.
pub proof fn lemma_le_u64_of_bytes(v: u64)
    ensures
        le_u64(le_bytes_u64(v)) == v,
        le_bytes_u64(v).len() == 8,
{
    reveal_with_fuel(pow256, 9);
    assert(le_bytes_u64(v) =~= low_bytes(v as int, 8));
    lemma_digits_of_low_bytes(v as int, 8);
    lemma_le_u64_digits(le_bytes_u64(v));
}

/// Encoding the value eight bytes decode to gives the bytes back.
pub proof fn lemma_le_bytes_of_u64(s: Seq<u8>)
    requires
        s.len() == 8,
    ensures
        0 <= le_u64(s) <= u64::MAX,
        le_bytes_u64(le_u64(s) as u64) =~= s,
{
    lemma_le_u64_bound(s);
    lemma_le_u64_digits(s);
    lemma_byte_of_digits(s, 0);
    lemma_byte_of_digits(s, 1);
    lemma_byte_of_digits(s, 2);
    lemma_byte_of_digits(s, 3);
    lemma_byte_of_digits(s, 4);
    lemma_byte_of_digits(s, 5);
    lemma_byte_of_digits(s, 6);
    lemma_byte_of_digits(s, 7);
}

/// Reads the little-endian `u32` stored at `offset`, or `None` if the buffer
/// ends first.
pub fn u32_at(buf: &[u8], offset: usize) -> (r: Option<u32>)
    ensures
        match r {
            Some(v) => offset + 4 <= buf@.len() && v == le_u32(buf@.subrange(
                offset as int,
                offset + 4,
            )),
            None => offset + 4 > buf@.len(),
        },
{
    if offset > buf.len() || buf.len() - offset < 4 {
        return None;
    }
    let v: u32 = buf[offset] as u32 + 0x100 * (buf[offset + 1] as u32) + 0x1_0000 * (buf[offset
        + 2] as u32) + 0x100_0000 * (buf[offset + 3] as u32);
    Some(v)
}

/// Reads the little-endian `u64` stored at `offset`, or `None` if the buffer
/// ends first.
pub fn u64_at(buf: &[u8], offset: usize) -> (r: Option<u64>)
    ensures
        match r {
            Some(v) => offset + 8 <= buf@.len() && v == le_u64(buf@.subrange(
                offset as int,
                offset + 8,
            )),
            None => offset + 8 > buf@.len(),
        },
{
    if offset > buf.len() || buf.len() - offset < 8 {
        return None;
    }
    let lo = u32_at(buf, offset);
    let hi = u32_at(buf, offset + 4);
    match (lo, hi) {
        (Some(lo), Some(hi)) => {
            let ghost s = buf@.subrange(offset as int, offset + 8);
            assert(s.subrange(0, 4) =~= buf@.subrange(offset as int, offset + 4));
            assert(s.subrange(4, 8) =~= buf@.subrange(offset + 4, offset + 8));
            Some(lo as u64 + 0x1_0000_0000 * (hi as u64))
        },
        _ => None,
    }
}

/// Copies the `N` bytes that start at `offset`, or `None` if the buffer ends
/// first.
pub fn bytes_at<const N: usize>(buf: &[u8], offset: usize) -> (r: Option<[u8; N]>)
    ensures
        match r {
            Some(a) => offset + N <= buf@.len() && a@ == buf@.subrange(offset as int, offset + N),
            None => offset + N > buf@.len(),
        },
{
    if offset > buf.len() || buf.len() - offset < N {
        return None;
    }
    let mut out = [0u8; N];
    let mut i: usize = 0;
    while i < N
        invariant
            i <= N,
            offset + N <= buf.len(),
            out@.len() == N,
            forall|j: int| 0 <= j < i ==> out@[j] == buf@[offset + j],
        decreases N - i,
    {
        out[i] = buf[offset + i];
        i = i + 1;
    }
    assert(out@ =~= buf@.subrange(offset as int, offset + N));
    Some(out)
}

/// Byte `k` of a 64-bit value, computed.
fn byte_of_u64(v: u64, k: u32) -> (r: u8)
    requires
        k < 8,
    ensures
        r == byte_of(v as int, k as int),
{
    reveal_with_fuel(pow256, 8);
    let mut d: u64 = 1;
    let mut i: u32 = 0;
    while i < k
        invariant
            i <= k < 8,
            d == pow256(i as int),
            d <= 0x100_0000_0000_0000,
        decreases k - i,
    {
        assert(pow256(i + 1) == 0x100 * pow256(i as int));
        assert(i < 7);
        assert(d <= 0x1_0000_0000_0000) by {
            reveal_with_fuel(pow256, 8);
        }
        d = d * 0x100;
        i = i + 1;
    }
    ((v / d) % 0x100) as u8
}

/// Writes `v` as four little-endian bytes at `offset`, leaving every other
/// byte alone.
pub fn write_u32<const N: usize>(out: &mut [u8; N], offset: usize, v: u32)
    requires
        offset + 4 <= N,
    ensures
        final(out)@ == old(out)@.subrange(0, offset as int) + le_bytes_u32(v) + old(out)@.subrange(
            offset + 4,
            N as int,
        ),
{
    reveal_with_fuel(pow256, 4);
    out[offset] = (v % 0x100) as u8;
    out[offset + 1] = ((v / 0x100) % 0x100) as u8;
    out[offset + 2] = ((v / 0x1_0000) % 0x100) as u8;
    out[offset + 3] = ((v / 0x100_0000) % 0x100) as u8;
    assert(final(out)@ =~= old(out)@.subrange(0, offset as int) + le_bytes_u32(v) + old(
        out,
    )@.subrange(offset + 4, N as int));
}

/// Writes `v` as eight little-endian bytes at `offset`, leaving every other
/// byte alone.
pub fn write_u64<const N: usize>(out: &mut [u8; N], offset: usize, v: u64)
    requires
        offset + 8 <= N,
    ensures
        final(out)@ == old(out)@.subrange(0, offset as int) + le_bytes_u64(v) + old(out)@.subrange(
            offset + 8,
            N as int,
        ),
{
    let ghost before = out@;
    let mut k: usize = 0;
    while k < 8
        invariant
            k <= 8,
            offset + 8 <= N,
            out@.len() == N,
            forall|j: int| 0 <= j < offset ==> out@[j] == before[j],
            forall|j: int| offset + 8 <= j < N ==> out@[j] == before[j],
            forall|j: int| 0 <= j < k ==> out@[offset + j] == byte_of(v as int, j),
        decreases 8 - k,
    {
        out[offset + k] = byte_of_u64(v, k as u32);
        k = k + 1;
    }
    assert(out@ =~= before.subrange(0, offset as int) + le_bytes_u64(v) + before.subrange(
        offset + 8,
        N as int,
    ));
}

/// Whether two byte strings are equal.
pub fn bytes_equal(a: &[u8], b: &[u8]) -> (r: bool)
    ensures
        r == (a@ == b@),
{
    if a.len() != b.len() {
        return false;
    }
    let mut i: usize = 0;
    while i < a.len()
        invariant
            i <= a@.len(),
            a@.len() == b@.len(),
            forall|j: int| 0 <= j < i ==> a@[j] == b@[j],
        decreases a@.len() - i,
    {
        if a[i] != b[i] {
            return false;
        }
        i = i + 1;
    }
    assert(a@ =~= b@);
    true
}

/// Narrows a value that the caller has already masked to eight bits or fewer.
pub fn low_byte(masked: u32) -> (r: u8)
    requires
        masked < 0x100,
    ensures
        r == masked,
{
    masked as u8
}

} // verus!
