//! Byte-level helpers shared by the packet codec: big-endian 16-bit fields,
//! NUL-terminated strings, ASCII checks, and decimal numerals as they appear
//! in option values.

use vstd::prelude::*;
use vstd::slice::{slice_index_get, slice_subrange};
use vstd::slice::slice_to_vec;
use vstd::arithmetic::div_mod::lemma_fundamental_div_mod;

verus! {

/// Value of a 16-bit big-endian field.
pub open spec fn be16(hi: u8, lo: u8) -> int {
    hi * 256 + lo
}

/// The two big-endian bytes of a 16-bit value.
pub open spec fn spec_u16_be(x: u16) -> Seq<u8> {
    seq![(x / 256) as u8, (x % 256) as u8]
}

pub proof fn lemma_u16_be_roundtrip(x: u16)
    ensures
        be16(spec_u16_be(x)[0], spec_u16_be(x)[1]) == x,
{
    lemma_fundamental_div_mod(x as int, 256);
}

/// Reads the 16-bit big-endian field at `i`.
pub fn read_u16_be(buf: &[u8], i: usize) -> (r: u16)
    requires
        i + 2 <= buf@.len(),
    ensures
        r == be16(buf@[i as int], buf@[i + 1]),
{
    let n = buf.len();
    let hi = *slice_index_get(buf, i);
    let lo = *slice_index_get(buf, i + 1);
    (hi as u16) * 256 + (lo as u16)
}

/// Appends the two big-endian bytes of `x`.
pub fn push_u16_be(v: &mut Vec<u8>, x: u16)
    ensures
        final(v)@ == old(v)@ + spec_u16_be(x),
{
    v.push((x / 256) as u8);
    v.push((x % 256) as u8);
    proof {
        assert(v@ =~= old(v)@ + spec_u16_be(x));
    }
}

/// Index of the first NUL byte at or after `i`, or `s.len()` if none.
pub open spec fn find_nul(s: Seq<u8>, i: int) -> int
    decreases s.len() - i,
{
    if i < 0 || i >= s.len() {
        s.len() as int
    } else if s[i] == 0 {
        i
    } else {
        find_nul(s, i + 1)
    }
}

pub proof fn lemma_find_nul_bounds(s: Seq<u8>, i: int)
    requires
        0 <= i <= s.len(),
    ensures
        i <= find_nul(s, i) <= s.len(),
        find_nul(s, i) < s.len() ==> s[find_nul(s, i)] == 0,
        forall|j: int| i <= j < find_nul(s, i) ==> s[j] != 0,
    decreases s.len() - i,
{
    if i < s.len() && s[i] != 0 {
        lemma_find_nul_bounds(s, i + 1);
    }
}

/// `find_nul` is pinned down by the position of the first NUL.
pub proof fn lemma_find_nul_is(s: Seq<u8>, i: int, k: int)
    requires
        0 <= i <= k <= s.len(),
        forall|j: int| i <= j < k ==> s[j] != 0,
        k < s.len() ==> s[k] == 0,
    ensures
        find_nul(s, i) == k,
    decreases k - i,
{
    if i < k {
        lemma_find_nul_is(s, i + 1, k);
    }
}

pub fn find_nul_from(buf: &[u8], start: usize) -> (r: usize)
    requires
        start <= buf@.len(),
    ensures
        r == find_nul(buf@, start as int),
{
    let mut i = start;
    while i < buf.len()
        invariant
            start <= i <= buf@.len(),
            find_nul(buf@, start as int) == find_nul(buf@, i as int),
        decreases buf@.len() - i,
    {
        if *slice_index_get(buf, i) == 0 {
            return i;
        }
        i = i + 1;
    }
    i
}

/// Every byte is ASCII.
pub open spec fn ascii_ok(s: Seq<u8>) -> bool {
    forall|j: int| 0 <= j < s.len() ==> #[trigger] s[j] < 128
}

/// Checks that `buf[start..end]` is ASCII.
pub fn ascii_range_ok(buf: &[u8], start: usize, end: usize) -> (r: bool)
    requires
        start <= end <= buf@.len(),
    ensures
        r == ascii_ok(buf@.subrange(start as int, end as int)),
{
    let ghost s = buf@.subrange(start as int, end as int);
    let mut i = start;
    while i < end
        invariant
            start <= i <= end <= buf@.len(),
            s == buf@.subrange(start as int, end as int),
            forall|j: int| 0 <= j < i - start ==> s[j] < 128,
        decreases end - i,
    {
        if *slice_index_get(buf, i) >= 128 {
            assert(s[i - start] >= 128);
            return false;
        }
        i = i + 1;
    }
    true
}

/// Copies `buf[start..end]` into a fresh vector.
pub fn bytes_range(buf: &[u8], start: usize, end: usize) -> (r: Vec<u8>)
    requires
        start <= end <= buf@.len(),
    ensures
        r@ == buf@.subrange(start as int, end as int),
{
    slice_to_vec(slice_subrange(buf, start, end))
}

/// Lower-cases one ASCII byte.
pub open spec fn spec_lower(b: u8) -> u8 {
    if 65 <= b <= 90 {
        (b + 32) as u8
    } else {
        b
    }
}

/// Lower-cases every byte of a field.
pub open spec fn lower_seq(s: Seq<u8>) -> Seq<u8> {
    s.map_values(|b: u8| spec_lower(b))
}

/// Case-insensitive comparison of `buf[start..end]` against `key`.
pub fn range_eq_ci(buf: &[u8], start: usize, end: usize, key: &[u8]) -> (r: bool)
    requires
        start <= end <= buf@.len(),
    ensures
        r == (lower_seq(buf@.subrange(start as int, end as int)) == lower_seq(key@)),
{
    let ghost s = buf@.subrange(start as int, end as int);
    if end - start != key.len() {
        proof {
            assert(lower_seq(s).len() == s.len());
            assert(lower_seq(key@).len() == key@.len());
        }
        return false;
    }
    let mut i: usize = 0;
    while i < key.len()
        invariant
            0 <= i <= key@.len(),
            start <= end <= buf@.len(),
            end - start == key@.len(),
            s == buf@.subrange(start as int, end as int),
            forall|j: int| 0 <= j < i ==> spec_lower(s[j]) == spec_lower(key@[j]),
        decreases key@.len() - i,
    {
        let mut a = *slice_index_get(buf, start + i);
        let mut b = *slice_index_get(key, i);
        if 65 <= a && a <= 90 {
            a = a + 32;
        }
        if 65 <= b && b <= 90 {
            b = b + 32;
        }
        if a != b {
            assert(lower_seq(s)[i as int] != lower_seq(key@)[i as int]);
            return false;
        }
        i = i + 1;
    }
    proof {
        assert(lower_seq(s) =~= lower_seq(key@));
    }
    true
}

/// Every byte is a decimal digit.
pub open spec fn all_digits(s: Seq<u8>) -> bool {
    forall|j: int| 0 <= j < s.len() ==> 48 <= #[trigger] s[j] <= 57
}

/// Value of a string of decimal digits.
pub open spec fn dec_value(s: Seq<u8>) -> int
    decreases s.len(),
{
    if s.len() == 0 {
        0
    } else {
        dec_value(s.drop_last()) * 10 + (s.last() - 48)
    }
}

/// Canonical decimal numeral of a non-negative value.
pub open spec fn spec_dec(n: int) -> Seq<u8>
    decreases n,
{
    if n < 10 {
        seq![(48 + n) as u8]
    } else {
        spec_dec(n / 10) + seq![(48 + n % 10) as u8]
    }
}

pub proof fn lemma_dec_value_nonneg(s: Seq<u8>)
    requires
        all_digits(s),
    ensures
        dec_value(s) >= 0,
    decreases s.len(),
{
    if s.len() > 0 {
        lemma_dec_value_nonneg(s.drop_last());
    }
}

/// Extending an all-digit numeral cannot shrink its value.
pub proof fn lemma_dec_value_prefix_le(s: Seq<u8>, i: int)
    requires
        all_digits(s),
        0 <= i <= s.len(),
    ensures
        dec_value(s.take(i)) <= dec_value(s),
    decreases s.len() - i,
{
    if i < s.len() {
        assert(s.take(i + 1).drop_last() =~= s.take(i));
        lemma_dec_value_nonneg(s.take(i));
        lemma_dec_value_prefix_le(s, i + 1);
    } else {
        assert(s.take(i) =~= s);
    }
}

/// The canonical numeral parses back to its value.
pub proof fn lemma_dec_roundtrip(n: int)
    requires
        n >= 0,
    ensures
        all_digits(spec_dec(n)),
        spec_dec(n).len() >= 1,
        dec_value(spec_dec(n)) == n,
    decreases n,
{
    if n < 10 {
        assert(spec_dec(n).drop_last() =~= Seq::<u8>::empty());
        assert(spec_dec(n).last() == (48 + n) as u8);
        assert((48 + n) as u8 - 48 == n);
        assert(dec_value(spec_dec(n)) == dec_value(spec_dec(n).drop_last()) * 10 + (spec_dec(n).last() - 48));
        assert(dec_value(spec_dec(n)) == n);
    } else {
        lemma_dec_roundtrip(n / 10);
        lemma_fundamental_div_mod(n, 10);
        assert(spec_dec(n).drop_last() =~= spec_dec(n / 10));
        assert(spec_dec(n).last() == (48 + n % 10) as u8);
        assert(0 <= n % 10 < 10);
        assert((48 + n % 10) as u8 - 48 == n % 10);
        assert(dec_value(spec_dec(n)) == (n / 10) * 10 + n % 10);
    }
}

/// Appends the canonical decimal numeral of `n`.
pub fn push_dec(v: &mut Vec<u8>, n: u32)
    ensures
        final(v)@ == old(v)@ + spec_dec(n as int),
    decreases n,
{
    if n < 10 {
        v.push(48 + n as u8);
        proof {
            assert(v@ =~= old(v)@ + spec_dec(n as int));
        }
    } else {
        push_dec(v, n / 10);
        v.push(48 + (n % 10) as u8);
        proof {
            assert(v@ =~= old(v)@ + spec_dec(n as int));
        }
    }
}

/// Parses `buf[start..end]` as an unsigned decimal numeral.
/// Returns the value exactly when the field is a non-empty digit string
/// whose value fits in a `u32`.
pub fn parse_dec_u32(buf: &[u8], start: usize, end: usize) -> (r: Option<u32>)
    requires
        start <= end <= buf@.len(),
    ensures
        ({
            let s = buf@.subrange(start as int, end as int);
            match r {
                Some(v) => s.len() > 0 && all_digits(s) && dec_value(s) == v,
                None => !(s.len() > 0 && all_digits(s) && dec_value(s) <= u32::MAX),
            }
        }),
{
    let ghost s = buf@.subrange(start as int, end as int);
    if start == end {
        return None;
    }
    let mut acc: u32 = 0;
    let mut i = start;
    while i < end
        invariant
            start <= i <= end <= buf@.len(),
            s == buf@.subrange(start as int, end as int),
            all_digits(s.take(i - start)),
            acc == dec_value(s.take(i - start)),
        decreases end - i,
    {
        let b = *slice_index_get(buf, i);
        proof {
            assert(s[i - start] == b);
            assert(s.take(i - start + 1).drop_last() =~= s.take(i - start));
        }
        if b < 48 || b > 57 {
            return None;
        }
        let wide: u64 = (acc as u64) * 10 + ((b - 48) as u64);
        if wide > u32::MAX as u64 {
            proof {
                assert(dec_value(s.take(i - start + 1)) == wide);
                if all_digits(s) {
                    lemma_dec_value_prefix_le(s, i - start + 1);
                }
            }
            return None;
        }
        acc = wide as u32;
        i = i + 1;
    }
    proof {
        assert(s.take(end - start) =~= s);
    }
    Some(acc)
}

/// Appends all bytes of `s`.
pub fn push_bytes(v: &mut Vec<u8>, s: &[u8])
    ensures
        final(v)@ == old(v)@ + s@,
{
    let ghost base = v@;
    let mut i: usize = 0;
    while i < s.len()
        invariant
            i <= s@.len(),
            v@ == base + s@.take(i as int),
        decreases s@.len() - i,
    {
        v.push(*slice_index_get(s, i));
        proof {
            assert(base + s@.take(i as int) + seq![s@[i as int]] =~= base + s@.take(i + 1));
        }
        i = i + 1;
    }
    proof {
        assert(s@.take(s@.len() as int) =~= s@);
    }
}

} // verus!

