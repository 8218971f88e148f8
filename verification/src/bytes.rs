//! Little-endian readers and writers for raw account bytes, and 32-byte
//! key comparison helpers.
//!
//! External venues' account state is read at fixed byte offsets instead of
//! through their own deserialization code; these are the primitives every
//! account-layout reader builds on.

use vstd::prelude::*;

verus! {

/// The little-endian 16-bit value stored at `off`.
pub open spec fn le_u16(s: Seq<u8>, off: int) -> int {
    s[off] + s[off + 1] * 0x100
}

/// The little-endian 64-bit value stored at `off`.
pub open spec fn le_u64(s: Seq<u8>, off: int) -> int {
    s[off] + s[off + 1] * 0x100 + s[off + 2] * 0x1_0000 + s[off + 3] * 0x100_0000 + s[off + 4]
        * 0x1_0000_0000 + s[off + 5] * 0x100_0000_0000 + s[off + 6] * 0x1_0000_0000_0000 + s[off
        + 7] * 0x100_0000_0000_0000
}

/// The little-endian 128-bit value stored at `off`.
pub open spec fn le_u128(s: Seq<u8>, off: int) -> int {
    le_u64(s, off) + le_u64(s, off + 8) * 0x1_0000_0000_0000_0000
}

/// Reads the byte at `offset`.
pub fn read_u8_from_bytes(buf: &[u8], offset: usize) -> (r: u8)
    requires
        offset < buf@.len(),
    ensures
        r == buf@[offset as int],
{
    buf[offset]
}

/// Reads a little-endian `u16` at `offset`.
pub fn read_u16_from_bytes(buf: &[u8], offset: usize) -> (r: u16)
    requires
        offset + 2 <= buf@.len(),
    ensures
        r == le_u16(buf@, offset as int),
{
    let b0 = buf[offset];
    let b1 = buf[offset + 1];
    b0 as u16 + (b1 as u16) * 0x100
}

/// Reads a little-endian `u64` at `offset`.
pub fn read_u64_from_bytes(buf: &[u8], offset: usize) -> (r: u64)
    requires
        offset + 8 <= buf@.len(),
    ensures
        r == le_u64(buf@, offset as int),
{
    let b0 = buf[offset] as u64;
    let b1 = buf[offset + 1] as u64;
    let b2 = buf[offset + 2] as u64;
    let b3 = buf[offset + 3] as u64;
    let b4 = buf[offset + 4] as u64;
    let b5 = buf[offset + 5] as u64;
    let b6 = buf[offset + 6] as u64;
    let b7 = buf[offset + 7] as u64;
    b0 + b1 * 0x100 + b2 * 0x1_0000 + b3 * 0x100_0000 + b4 * 0x1_0000_0000 + b5 * 0x100_0000_0000
        + b6 * 0x1_0000_0000_0000 + b7 * 0x100_0000_0000_0000
}

/// Reads a little-endian `u128` at `offset`.
pub fn read_u128_from_bytes(buf: &[u8], offset: usize) -> (r: u128)
    requires
        offset + 16 <= buf@.len(),
    ensures
        r == le_u128(buf@, offset as int),
{
    let n = buf.len();
    let lo = read_u64_from_bytes(buf, offset);
    let hi = read_u64_from_bytes(buf, offset + 8);
    lo as u128 + (hi as u128) * 0x1_0000_0000_0000_0000
}

/// Copies the 32-byte key stored at `offset`.
pub fn read_pubkey_from_bytes(buf: &[u8], offset: usize) -> (r: Vec<u8>)
    requires
        offset + 32 <= buf@.len(),
    ensures
        r@ == buf@.subrange(offset as int, offset + 32),
{
    let n = buf.len();
    let mut r: Vec<u8> = Vec::new();
    let mut i: usize = 0;
    while i < 32
        invariant
            i <= 32,
            n == buf@.len(),
            offset + 32 <= n,
            r@.len() == i,
            forall|k: int| 0 <= k < i ==> r@[k] == buf@[offset + k],
        decreases 32 - i,
    {
        r.push(buf[offset + i]);
        i = i + 1;
    }
    proof {
        assert(r@ =~= buf@.subrange(offset as int, offset + 32));
    }
    r
}

/// Whether two byte strings hold the same bytes.
pub fn keys_equal(a: &[u8], b: &[u8]) -> (r: bool)
    ensures
        r == (a@ == b@),
{
    if a.len() != b.len() {
        proof {
            assert(a@ != b@);
        }
        return false;
    }
    let n = a.len();
    let mut i: usize = 0;
    while i < n
        invariant
            i <= n,
            n == a@.len(),
            n == b@.len(),
            forall|k: int| 0 <= k < i ==> a@[k] == b@[k],
        decreases n - i,
    {
        if a[i] != b[i] {
            return false;
        }
        i = i + 1;
    }
    proof {
        assert(a@ =~= b@);
    }
    true
}

/// The all-zero key, which marks an absent or default account reference.
pub open spec fn is_zero_key(s: Seq<u8>) -> bool {
    s.len() == 32 && forall|k: int| 0 <= k < 32 ==> s[k] == 0
}

/// Whether a 32-byte key is the all-zero (default) key.
pub fn key_is_zero(a: &[u8]) -> (r: bool)
    requires
        a@.len() == 32,
    ensures
        r == is_zero_key(a@),
{
    let mut i: usize = 0;
    while i < 32
        invariant
            i <= 32,
            a@.len() == 32,
            forall|k: int| 0 <= k < i ==> a@[k] == 0,
        decreases 32 - i,
    {
        if a[i] != 0 {
            return false;
        }
        i = i + 1;
    }
    true
}

/// Copies a record's leading 8-byte type tag.
pub fn read_tag(buf: &[u8]) -> (r: Vec<u8>)
    requires
        buf@.len() >= 8,
    ensures
        r@ == buf@.subrange(0, 8),
{
    let n = buf.len();
    let mut r: Vec<u8> = Vec::new();
    let mut i: usize = 0;
    while i < 8
        invariant
            i <= 8,
            n == buf@.len(),
            n >= 8,
            r@.len() == i,
            forall|k: int| 0 <= k < i ==> r@[k] == buf@[k],
        decreases 8 - i,
    {
        r.push(buf[i]);
        i = i + 1;
    }
    proof {
        assert(r@ =~= buf@.subrange(0, 8));
    }
    r
}

/// Encodes `v` as 8 little-endian bytes.
pub fn u64_to_le_bytes(v: u64) -> (r: Vec<u8>)
    ensures
        r@.len() == 8,
        le_u64(r@, 0) == v,
{
    let b0 = (v % 0x100) as u8;
    let x1 = v / 0x100;
    let b1 = (x1 % 0x100) as u8;
    let x2 = x1 / 0x100;
    let b2 = (x2 % 0x100) as u8;
    let x3 = x2 / 0x100;
    let b3 = (x3 % 0x100) as u8;
    let x4 = x3 / 0x100;
    let b4 = (x4 % 0x100) as u8;
    let x5 = x4 / 0x100;
    let b5 = (x5 % 0x100) as u8;
    let x6 = x5 / 0x100;
    let b6 = (x6 % 0x100) as u8;
    let x7 = x6 / 0x100;
    let b7 = (x7 % 0x100) as u8;
    let mut r: Vec<u8> = Vec::new();
    r.push(b0);
    r.push(b1);
    r.push(b2);
    r.push(b3);
    r.push(b4);
    r.push(b5);
    r.push(b6);
    r.push(b7);
    proof {
        assert(x7 / 0x100 == 0);
    }
    r
}

/// Encodes `v` as 16 little-endian bytes.
pub fn u128_to_le_bytes(v: u128) -> (r: Vec<u8>)
    ensures
        r@.len() == 16,
        le_u128(r@, 0) == v,
{
    let lo = (v % 0x1_0000_0000_0000_0000) as u64;
    let hi = (v / 0x1_0000_0000_0000_0000) as u64;
    let mut r = u64_to_le_bytes(lo);
    let mut rh = u64_to_le_bytes(hi);
    r.append(&mut rh);
    proof {
        assert(le_u64(r@, 0) == lo);
        assert(le_u64(r@, 8) == hi);
    }
    r
}

} // verus!
