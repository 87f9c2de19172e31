//! Little-endian integer reads from a byte buffer at a position.
use vstd::prelude::*;

verus! {

/// The unsigned 16-bit value of the two bytes at `pos`, least significant first.
pub open spec fn le_u16(s: Seq<u8>, pos: int) -> u16 {
    (s[pos] as int + 256 * s[pos + 1] as int) as u16
}

/// The unsigned 32-bit value of the four bytes at `pos`, least significant first.
pub open spec fn le_u32(s: Seq<u8>, pos: int) -> u32 {
    (le_u16(s, pos) as int + 65536 * le_u16(s, pos + 2) as int) as u32
}

/// Relies on endio's `Deserialize` for `u8` on a byte-slice reader: one byte,
/// or an error when none is left.
#[verifier::external_body]
pub(crate) fn read_u8(b: &[u8], pos: usize) -> (r: Option<u8>)
    requires
        pos <= b@.len(),
    ensures
        pos + 1 <= b@.len() ==> r == Some(b@[pos as int]),
        pos + 1 > b@.len() ==> r is None,
{
    let mut reader: &[u8] = &b[pos..];
    endio::LERead::read::<u8>(&mut reader).ok()
}

/// Relies on endio's little-endian `Deserialize` for `u16` on a byte-slice
/// reader: `u16::from_le_bytes` of the next two bytes, or an error when fewer
/// are left.
#[verifier::external_body]
pub(crate) fn read_u16_le(b: &[u8], pos: usize) -> (r: Option<u16>)
    requires
        pos <= b@.len(),
    ensures
        pos + 2 <= b@.len() ==> r == Some(le_u16(b@, pos as int)),
        pos + 2 > b@.len() ==> r is None,
{
    let mut reader: &[u8] = &b[pos..];
    endio::LERead::read::<u16>(&mut reader).ok()
}

/// Relies on endio's little-endian `Deserialize` for `u32` on a byte-slice
/// reader: `u32::from_le_bytes` of the next four bytes, or an error when fewer
/// are left.
#[verifier::external_body]
pub(crate) fn read_u32_le(b: &[u8], pos: usize) -> (r: Option<u32>)
    requires
        pos <= b@.len(),
    ensures
        pos + 4 <= b@.len() ==> r == Some(le_u32(b@, pos as int)),
        pos + 4 > b@.len() ==> r is None,
{
    let mut reader: &[u8] = &b[pos..];
    endio::LERead::read::<u32>(&mut reader).ok()
}

} // verus!
