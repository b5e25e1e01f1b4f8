//! Serialisation of words as little-endian bytes.

use vstd::prelude::*;
use byteorder::{ByteOrder, LittleEndian};
use crate::model::le_bytes;

verus! {

/// Relies on `byteorder::LittleEndian::write_u32`, which stores `n.to_le_bytes()`
/// in the first four bytes of the buffer (and panics only on a shorter one).
#[verifier::external_body]
pub(crate) fn u32_to_le(n: u32) -> (r: [u8; 4])
    ensures
        r@ == le_bytes(n),
{
    let mut buf = [0u8; 4];
    LittleEndian::write_u32(&mut buf, n);
    buf
}

} // verus!
