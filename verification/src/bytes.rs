//! Little-endian integer encodings, through the `byteorder` crate.
use byteorder::{ByteOrder, LittleEndian};
use vstd::prelude::*;

verus! {

/// The unsigned value of two little-endian bytes.
pub open spec fn le_u16(b0: u8, b1: u8) -> u16 {
    (b0 as int + 256 * (b1 as int)) as u16
}

/// The two's complement reading of an unsigned 16-bit pattern.
pub open spec fn as_signed16(u: u16) -> i16 {
    if u < 0x8000 {
        u as i16
    } else {
        (u as int - 0x10000) as i16
    }
}

/// The unsigned 16-bit pattern of a signed value.
pub open spec fn as_unsigned16(i: i16) -> u16 {
    if i >= 0 {
        i as u16
    } else {
        (i as int + 0x10000) as u16
    }
}

/// The unsigned value of four little-endian bytes.
pub open spec fn le_u32(b: Seq<u8>) -> u32 {
    (b[0] as int + 0x100 * (b[1] as int) + 0x10000 * (b[2] as int) + 0x1000000 * (b[3] as int)) as u32
}

/// `LittleEndian::read_u16`: the value of the first two bytes, low byte first.
#[verifier::external_body]
pub(crate) fn read_u16_le(buf: &[u8; 2]) -> (r: u16)
    ensures
        r == le_u16(buf@[0], buf@[1]),
{
    LittleEndian::read_u16(buf)
}

/// `LittleEndian::write_u16`: the low byte, then the high byte.
#[verifier::external_body]
pub(crate) fn write_u16_le(n: u16) -> (r: [u8; 2])
    ensures
        r@ == seq![(n % 256) as u8, (n / 256) as u8],
{
    let mut buf = [0u8; 2];
    LittleEndian::write_u16(&mut buf, n);
    buf
}

/// `LittleEndian::read_i16`: the two's complement value of the first two bytes,
/// low byte first.
#[verifier::external_body]
pub(crate) fn read_i16_le(buf: &[u8; 2]) -> (r: i16)
    ensures
        r == as_signed16(le_u16(buf@[0], buf@[1])),
{
    LittleEndian::read_i16(buf)
}

/// `LittleEndian::write_i16`: the two's complement pattern, low byte first.
#[verifier::external_body]
pub(crate) fn write_i16_le(n: i16) -> (r: [u8; 2])
    ensures
        r@ == seq![(as_unsigned16(n) % 256) as u8, (as_unsigned16(n) / 256) as u8],
{
    let mut buf = [0u8; 2];
    LittleEndian::write_i16(&mut buf, n);
    buf
}

/// `LittleEndian::read_u32`: the value of the first four bytes, lowest first.
#[verifier::external_body]
pub(crate) fn read_u32_le(buf: &[u8; 4]) -> (r: u32)
    ensures
        r == le_u32(buf@),
{
    LittleEndian::read_u32(buf)
}

/// `LittleEndian::write_u32`: the four bytes of the value, lowest first.
#[verifier::external_body]
pub(crate) fn write_u32_le(n: u32) -> (r: [u8; 4])
    ensures
        r@ == seq![
            (n % 0x100) as u8,
            ((n / 0x100) % 0x100) as u8,
            ((n / 0x10000) % 0x100) as u8,
            (n / 0x1000000) as u8,
        ],
{
    let mut buf = [0u8; 4];
    LittleEndian::write_u32(&mut buf, n);
    buf
}

/// `n` zero bytes.
pub open spec fn zeros(n: nat) -> Seq<u8> {
    Seq::new(n, |i: int| 0u8)
}

/// The array holding the first 48 bytes of `s`.
pub open spec fn array48(s: Seq<u8>) -> [u8; 48] {
    [s[0], s[1], s[2], s[3], s[4], s[5], s[6], s[7], s[8], s[9], s[10], s[11], s[12], s[13], s[14], s[15], s[16], s[17], s[18], s[19], s[20], s[21], s[22], s[23], s[24], s[25], s[26], s[27], s[28], s[29], s[30], s[31], s[32], s[33], s[34], s[35], s[36], s[37], s[38], s[39], s[40], s[41], s[42], s[43], s[44], s[45], s[46], s[47]]
}

/// The array holding the first 36 bytes of `s`.
pub open spec fn array36(s: Seq<u8>) -> [u8; 36] {
    [s[0], s[1], s[2], s[3], s[4], s[5], s[6], s[7], s[8], s[9], s[10], s[11], s[12], s[13], s[14], s[15], s[16], s[17], s[18], s[19], s[20], s[21], s[22], s[23], s[24], s[25], s[26], s[27], s[28], s[29], s[30], s[31], s[32], s[33], s[34], s[35]]
}

/// The array holding the first 38 bytes of `s`.
pub open spec fn array38(s: Seq<u8>) -> [u8; 38] {
    [s[0], s[1], s[2], s[3], s[4], s[5], s[6], s[7], s[8], s[9], s[10], s[11], s[12], s[13], s[14], s[15], s[16], s[17], s[18], s[19], s[20], s[21], s[22], s[23], s[24], s[25], s[26], s[27], s[28], s[29], s[30], s[31], s[32], s[33], s[34], s[35], s[36], s[37]]
}

/// `payload` padded with zeros to `n` bytes.
pub open spec fn padded(payload: Seq<u8>, n: nat) -> Seq<u8> {
    payload + zeros((n - payload.len()) as nat)
}

/// `payload` padded with zeros to 38 bytes.
pub fn pad38(payload: &[u8]) -> (r: [u8; 38])
    requires
        payload@.len() <= 38,
    ensures
        r@ == padded(payload@, 38),
        r == array38(padded(payload@, 38)),
{
    let mut r = [0u8; 38];
    let mut i: usize = 0;
    while i < payload.len()
        invariant
            i <= payload@.len() <= 38,
            r@.len() == 38,
            forall|j: int| 0 <= j < i ==> r@[j] == payload@[j],
            forall|j: int| i <= j < 38 ==> r@[j] == 0,
        decreases payload@.len() - i,
    {
        r[i] = payload[i];
        i += 1;
    }
    assert(r@ =~= padded(payload@, 38));
    assert(r =~= array38(padded(payload@, 38)));
    r
}

/// The `N` bytes of `src` from `off`.
pub fn sub_array<const N: usize>(src: &[u8], off: usize) -> (r: [u8; N])
    requires
        off + N <= src@.len(),
    ensures
        r@ == src@.subrange(off as int, off + N),
{
    let mut r = [0u8; N];
    let mut i: usize = 0;
    while i < N
        invariant
            i <= N,
            off + N <= src.len(),
            r@.len() == N,
            forall|j: int| 0 <= j < i ==> r@[j] == src@[off + j],
        decreases N - i,
    {
        r[i] = src[off + i];
        i += 1;
    }
    assert(r@ =~= src@.subrange(off as int, off + N));
    r
}

} // verus!
