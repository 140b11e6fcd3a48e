//! The stored form of the final aggregation result.
use vstd::prelude::*;

verus! {

/// The error type of `bincode`, behind the box in which `bincode` hands it out.
#[verifier::external_type_specification]
#[verifier::external_body]
pub struct ExErrorKind(bincode::ErrorKind);

/// The bytes of the four coordinates one after the other.
pub open spec fn coords_bytes(coords: [[u8; 32]; 4]) -> Seq<u8> {
    coords@[0]@ + coords@[1]@ + coords@[2]@ + coords@[3]@
}

/// Calls `bincode::serialize` on the coordinates. Claimed of it: arrays of bytes have no
/// length prefix and no padding in this encoding, so the result is the bytes one after the
/// other; and it does not fail, since it is given no size limit and writes to memory.
#[verifier::external_body]
pub(crate) fn serialize_coords(coords: &[[u8; 32]; 4]) -> (result: Result<
    Vec<u8>,
    Box<bincode::ErrorKind>,
>)
    ensures
        result is Ok,
        result->Ok_0@ == coords_bytes(*coords),
{
    bincode::serialize(coords)
}

} // verus!
