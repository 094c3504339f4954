//! Little-endian encoding of 16- and 32-bit integers at arbitrary byte offsets.
use vstd::prelude::*;

verus! {

/// The 16-bit value whose little-endian bytes are `b0, b1`.
pub open spec fn u16_le(b0: u8, b1: u8) -> u16 {
    ((b0 as u16) | ((b1 as u16) << 8u16)) as u16
}

/// The 32-bit value whose little-endian bytes are `b0 .. b3`.
pub open spec fn u32_le(b0: u8, b1: u8, b2: u8, b3: u8) -> u32 {
    ((b0 as u32) | ((b1 as u32) << 8u32) | ((b2 as u32) << 16u32) | ((b3 as u32) << 24u32)) as u32
}

/// The unsigned 16-bit value stored at `a`.
pub open spec fn u16_at(mem: Seq<u8>, a: int) -> u16 {
    u16_le(mem[a], mem[a + 1])
}

/// The unsigned 32-bit value stored at `a`.
pub open spec fn u32_at(mem: Seq<u8>, a: int) -> u32 {
    u32_le(mem[a], mem[a + 1], mem[a + 2], mem[a + 3])
}

/// The signed 32-bit value stored at `a`.
pub open spec fn i32_at(mem: Seq<u8>, a: int) -> i32 {
    u32_at(mem, a) as i32
}

/// `mem` with the two bytes of `v` stored at `a`.
pub open spec fn put_u16(mem: Seq<u8>, a: int, v: u16) -> Seq<u8> {
    mem.update(a, v as u8).update(a + 1, (v >> 8u16) as u8)
}

/// `mem` with the four bytes of `v` stored at `a`.
pub open spec fn put_u32(mem: Seq<u8>, a: int, v: u32) -> Seq<u8> {
    mem.update(a, v as u8).update(a + 1, (v >> 8u32) as u8).update(a + 2, (v >> 16u32) as u8).update(
        a + 3,
        (v >> 24u32) as u8,
    )
}

/// `mem` with the four bytes of `v` stored at `a`.
pub open spec fn put_i32(mem: Seq<u8>, a: int, v: i32) -> Seq<u8> {
    put_u32(mem, a, v as u32)
}

/// The four bytes of `v` decode to `v`.
pub proof fn lemma_u32_bytes(v: u32)
    ensures
        u32_le(v as u8, (v >> 8u32) as u8, (v >> 16u32) as u8, (v >> 24u32) as u8) == v,
{
    assert(((v as u8) as u32) | ((((v >> 8u32) as u8) as u32) << 8u32) | ((((v >> 16u32) as u8)
        as u32) << 16u32) | ((((v >> 24u32) as u8) as u32) << 24u32) == v) by (bit_vector);
}

/// Reinterpreting a signed value as unsigned and back loses nothing.
pub proof fn lemma_i32_u32(v: i32)
    ensures
        (v as u32) as i32 == v,
{
    assert((v as u32) as i32 == v) by (bit_vector);
}

/// Reinterpreting an unsigned value as signed and back loses nothing.
pub proof fn lemma_u32_i32(v: u32)
    ensures
        (v as i32) as u32 == v,
{
    assert((v as i32) as u32 == v) by (bit_vector);
}

/// Truncating to 16 bits gives the same bits, signed or unsigned.
pub proof fn lemma_i16_u16(v: i32)
    ensures
        (v as i16) as u16 == v as u16,
{
    assert((v as i16) as u16 == v as u16) by (bit_vector);
}

/// Reading back a stored 32-bit value gives that value.
pub proof fn lemma_put_u32_at(mem: Seq<u8>, a: int, v: u32)
    requires
        0 <= a,
        a + 4 <= mem.len(),
    ensures
        u32_at(put_u32(mem, a, v), a) == v,
        put_u32(mem, a, v).len() == mem.len(),
        forall|i: int| 0 <= i < mem.len() && (i < a || a + 4 <= i) ==> #[trigger] put_u32(mem, a, v)[i] == mem[i],
{
    lemma_u32_bytes(v);
}

/// Reading back a stored signed 32-bit value gives that value.
pub proof fn lemma_put_i32_at(mem: Seq<u8>, a: int, v: i32)
    requires
        0 <= a,
        a + 4 <= mem.len(),
    ensures
        i32_at(put_i32(mem, a, v), a) == v,
        put_i32(mem, a, v).len() == mem.len(),
        forall|i: int| 0 <= i < mem.len() && (i < a || a + 4 <= i) ==> #[trigger] put_i32(mem, a, v)[i] == mem[i],
{
    lemma_put_u32_at(mem, a, v as u32);
    lemma_i32_u32(v);
}

/// Reads the little-endian 16-bit value at `at`.
pub fn read_u16(bytes: &[u8], at: usize) -> (r: u16)
    requires
        at + 2 <= bytes@.len(),
    ensures
        r == u16_at(bytes@, at as int),
{
    (bytes[at] as u16) | ((bytes[at + 1] as u16) << 8u16)
}

/// Reads the little-endian 32-bit value at `at`.
pub fn read_u32(bytes: &[u8], at: usize) -> (r: u32)
    requires
        at + 4 <= bytes@.len(),
    ensures
        r == u32_at(bytes@, at as int),
{
    (bytes[at] as u32) | ((bytes[at + 1] as u32) << 8u32) | ((bytes[at + 2] as u32) << 16u32) | ((
    bytes[at + 3] as u32) << 24u32)
}

/// Stores `v` in little-endian order at `at`.
pub fn write_u16(bytes: &mut Vec<u8>, at: usize, v: u16)
    requires
        at + 2 <= old(bytes)@.len(),
    ensures
        final(bytes)@ == put_u16(old(bytes)@, at as int, v),
{
    let len = bytes.len();
    assert(at + 2 <= len);
    let a1 = at + 1;
    bytes.set(at, v as u8);
    bytes.set(a1, (v >> 8u16) as u8);
}

/// Stores `v` in little-endian order at `at`.
pub fn write_u32(bytes: &mut Vec<u8>, at: usize, v: u32)
    requires
        at + 4 <= old(bytes)@.len(),
    ensures
        final(bytes)@ == put_u32(old(bytes)@, at as int, v),
{
    let len = bytes.len();
    assert(at + 4 <= len);
    let (a1, a2, a3) = (at + 1, at + 2, at + 3);
    bytes.set(at, v as u8);
    bytes.set(a1, (v >> 8u32) as u8);
    bytes.set(a2, (v >> 16u32) as u8);
    bytes.set(a3, (v >> 24u32) as u8);
}

} // verus!
