//! The byte layout shared by records and instruction arguments: fields in
//! declaration order, integers little-endian, a flag as one byte 0 or 1, a key
//! as its 32 bytes, a list as a 32-bit count followed by its items.

use crate::key::Key;
use vstd::bytes::spec_u32_from_le_bytes;
use vstd::bytes::spec_u32_to_le_bytes;
use vstd::bytes::spec_u64_from_le_bytes;
use vstd::bytes::spec_u64_to_le_bytes;
use vstd::prelude::*;
use vstd::slice::slice_subrange;

verus! {

/// The array whose elements are those of `s`.
pub open spec fn array_of<const N: usize>(s: Seq<u8>) -> [u8; N] {
    choose|a: [u8; N]| a@ == s
}

/// An array is the array of its own elements.
pub proof fn lemma_array_of_view<const N: usize>(a: [u8; N])
    ensures
        array_of::<N>(a@) == a,
{
    let b = array_of::<N>(a@);
    assert(b@ == a@);
    assert(b =~= a);
}

/// The key whose bytes are those of `s`.
pub open spec fn key_of(s: Seq<u8>) -> Key {
    Key { bytes: array_of::<32>(s) }
}

/// A key is the key of its own bytes.
pub proof fn lemma_key_of_view(k: Key)
    ensures
        key_of(k@) == k,
{
    lemma_array_of_view::<32>(k.bytes);
}

/// The eight bytes of `v`, least significant first.
pub open spec fn u64_le(v: u64) -> Seq<u8> {
    spec_u64_to_le_bytes(v)
}

/// The eight bytes of `v` in two's complement, least significant first.
pub open spec fn i64_le(v: i64) -> Seq<u8> {
    spec_u64_to_le_bytes(v as u64)
}

/// The four bytes of `v`, least significant first.
pub open spec fn u32_le(v: u32) -> Seq<u8> {
    spec_u32_to_le_bytes(v)
}

/// The byte that stands for a flag.
pub open spec fn flag_byte(b: bool) -> u8 {
    if b {
        1
    } else {
        0
    }
}

/// The unsigned 64-bit field at offset `at`.
pub open spec fn u64_at(data: Seq<u8>, at: int) -> u64 {
    spec_u64_from_le_bytes(data.subrange(at, at + 8))
}

/// The signed 64-bit field at offset `at`.
pub open spec fn i64_at(data: Seq<u8>, at: int) -> i64 {
    u64_at(data, at) as i64
}

/// The unsigned 32-bit field at offset `at`.
pub open spec fn u32_at(data: Seq<u8>, at: int) -> u32 {
    spec_u32_from_le_bytes(data.subrange(at, at + 4))
}

/// The signed 16-bit field at offset `at`.
pub open spec fn i16_at(data: Seq<u8>, at: int) -> i16 {
    vstd::bytes::spec_u16_from_le_bytes(data.subrange(at, at + 2)) as i16
}

/// The key at offset `at`.
pub open spec fn key_at(data: Seq<u8>, at: int) -> Key {
    key_of(data.subrange(at, at + 32))
}

/// Reading back what was written gives the value written, for every width.
pub proof fn lemma_le_round_trip()
    ensures
        forall|v: u64| #[trigger] u64_le(v).len() == 8 && spec_u64_from_le_bytes(u64_le(v)) == v,
        forall|v: i64|
            #[trigger] i64_le(v).len() == 8 && spec_u64_from_le_bytes(i64_le(v)) as i64 == v,
        forall|v: u32| #[trigger] u32_le(v).len() == 4 && spec_u32_from_le_bytes(u32_le(v)) == v,
        forall|s: Seq<u8>|
            s.len() == 8 ==> #[trigger] u64_le(spec_u64_from_le_bytes(s)) == s,
        forall|s: Seq<u8>|
            s.len() == 8 ==> #[trigger] i64_le(spec_u64_from_le_bytes(s) as i64) == s,
        forall|s: Seq<u8>|
            s.len() == 4 ==> #[trigger] u32_le(spec_u32_from_le_bytes(s)) == s,
{
    vstd::bytes::lemma_auto_spec_u64_to_from_le_bytes();
    vstd::bytes::lemma_auto_spec_u32_to_from_le_bytes();
    assert forall|v: i64|
        #[trigger] i64_le(v).len() == 8 && spec_u64_from_le_bytes(i64_le(v)) as i64 == v by {
        assert((v as u64) as i64 == v) by (bit_vector);
    }
    assert forall|s: Seq<u8>| s.len() == 8 implies #[trigger] i64_le(
        spec_u64_from_le_bytes(s) as i64,
    ) == s by {
        let u = spec_u64_from_le_bytes(s);
        assert((u as i64) as u64 == u) by (bit_vector);
    }
}

/// Reads the unsigned 64-bit field at offset `at`.
pub fn get_u64(data: &[u8], at: usize) -> (v: u64)
    requires
        at + 8 <= data@.len(),
    ensures
        v == u64_at(data@, at as int),
{
    let len: usize = data.len();
    assert(at + 8 <= len);
    vstd::bytes::u64_from_le_bytes(slice_subrange(data, at, at + 8))
}

/// Reads the signed 64-bit field at offset `at`.
pub fn get_i64(data: &[u8], at: usize) -> (v: i64)
    requires
        at + 8 <= data@.len(),
    ensures
        v == i64_at(data@, at as int),
{
    get_u64(data, at) as i64
}

/// Reads the unsigned 32-bit field at offset `at`.
pub fn get_u32(data: &[u8], at: usize) -> (v: u32)
    requires
        at + 4 <= data@.len(),
    ensures
        v == u32_at(data@, at as int),
{
    let len: usize = data.len();
    assert(at + 4 <= len);
    vstd::bytes::u32_from_le_bytes(slice_subrange(data, at, at + 4))
}

/// Reads the signed 16-bit field at offset `at`.
pub fn get_i16(data: &[u8], at: usize) -> (v: i16)
    requires
        at + 2 <= data@.len(),
    ensures
        v == i16_at(data@, at as int),
{
    let len: usize = data.len();
    assert(at + 2 <= len);
    vstd::bytes::u16_from_le_bytes(slice_subrange(data, at, at + 2)) as i16
}

/// Reads the `N` bytes at offset `at`.
pub fn get_array<const N: usize>(data: &[u8], at: usize) -> (a: [u8; N])
    requires
        at + N <= data@.len(),
    ensures
        a@ == data@.subrange(at as int, at + N),
        a == array_of::<N>(data@.subrange(at as int, at + N)),
{
    let len: usize = data.len();
    assert(at + N <= len);
    let mut a = [0u8; N];
    let mut i: usize = 0;
    while i < N
        invariant
            i <= N,
            at + N <= data@.len() <= usize::MAX,
            forall|j: int| 0 <= j < i ==> a[j] == data@[at + j],
        decreases N - i,
    {
        a[i] = data[at + i];
        i += 1;
    }
    assert(a@ =~= data@.subrange(at as int, at + N));
    proof {
        lemma_array_of_view::<N>(a);
    }
    a
}

/// Reads the key at offset `at`.
pub fn get_key(data: &[u8], at: usize) -> (k: Key)
    requires
        at + 32 <= data@.len(),
    ensures
        k@ == data@.subrange(at as int, at + 32),
        k == key_at(data@, at as int),
{
    Key { bytes: get_array::<32>(data, at) }
}

/// Appends the bytes of `src` to `out`.
pub fn put_bytes(out: &mut Vec<u8>, src: &[u8])
    ensures
        final(out)@ == old(out)@ + src@,
{
    let ghost before = out@;
    let mut i: usize = 0;
    while i < src.len()
        invariant
            i <= src@.len(),
            out@ == before + src@.subrange(0, i as int),
        decreases src@.len() - i,
    {
        out.push(src[i]);
        i += 1;
        assert(out@ =~= before + src@.subrange(0, i as int));
    }
    assert(src@.subrange(0, src@.len() as int) =~= src@);
}

/// Appends the eight bytes of `v`.
pub fn put_u64(out: &mut Vec<u8>, v: u64)
    ensures
        final(out)@ == old(out)@ + u64_le(v),
{
    let b = vstd::bytes::u64_to_le_bytes(v);
    put_bytes(out, b.as_slice());
}

/// Appends the eight bytes of `v`.
pub fn put_i64(out: &mut Vec<u8>, v: i64)
    ensures
        final(out)@ == old(out)@ + i64_le(v),
{
    put_u64(out, v as u64);
}

/// Appends the four bytes of `v`.
pub fn put_u32(out: &mut Vec<u8>, v: u32)
    ensures
        final(out)@ == old(out)@ + u32_le(v),
{
    let b = vstd::bytes::u32_to_le_bytes(v);
    put_bytes(out, b.as_slice());
}

/// Appends the 32 bytes of `k`.
pub fn put_key(out: &mut Vec<u8>, k: &Key)
    ensures
        final(out)@ == old(out)@ + k@,
{
    put_bytes(out, k.bytes.as_slice());
}

/// Appends the byte that stands for `b`.
pub fn put_flag(out: &mut Vec<u8>, b: bool)
    ensures
        final(out)@ == old(out)@ + seq![flag_byte(b)],
{
    let ghost before = out@;
    out.push(if b {
        1u8
    } else {
        0u8
    });
    assert(out@ =~= before + seq![flag_byte(b)]);
}

} // verus!
