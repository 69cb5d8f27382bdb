//! Movie names as length-bounded byte vectors.
//!
//! A name is a `BoundedVec<u8, ConstU32<100>>`. The verifier does not look
//! inside a `BoundedVec`: what a name holds is spoken of through
//! [`name_bytes`], and each function below makes one call on a name. Their
//! contracts are not proved; they state what the source of `BoundedVec`
//! shows.

use frame_support::pallet_prelude::ConstU32;
use frame_support::BoundedVec;
use vstd::prelude::*;

verus! {

/// `BoundedVec<T, S>`, a vector that never holds more than `S` items. Carried
/// as an opaque value.
#[verifier::external_type_specification]
#[verifier::external_body]
#[verifier::reject_recursive_types(T)]
#[verifier::reject_recursive_types(S)]
pub struct ExBoundedVec<T, S>(BoundedVec<T, S>);

/// `ConstU32<T>`, the type-level constant that gives a `BoundedVec` its
/// bound. It has no values that matter.
#[verifier::external_type_specification]
#[verifier::external_body]
pub struct ExConstU32<const T: u32>(ConstU32<T>);

/// The bytes that a bounded name holds, in order.
pub uninterp spec fn name_bytes(name: BoundedVec<u8, ConstU32<100>>) -> Seq<u8>;

/// `TryFrom<Vec<u8>>::try_from` of `BoundedVec`: a vector of at most 100
/// bytes becomes a bounded name with the same bytes; a longer one is handed
/// back unchanged as the error.
#[verifier::external_body]
pub(crate) fn name_from_vec(bytes: Vec<u8>) -> (r: Result<BoundedVec<u8, ConstU32<100>>, Vec<u8>>)
    ensures
        bytes@.len() <= 100 ==> r is Ok && name_bytes(r->Ok_0) == bytes@,
        bytes@.len() > 100 ==> r is Err && r->Err_0@ == bytes@,
{
    BoundedVec::try_from(bytes)
}

/// `PartialEq::eq` of `BoundedVec`, which compares the two inner vectors:
/// true exactly when the names hold the same bytes.
#[verifier::external_body]
pub(crate) fn name_eq(a: &BoundedVec<u8, ConstU32<100>>, b: &BoundedVec<u8, ConstU32<100>>) -> (r: bool)
    ensures
        r == (name_bytes(*a) == name_bytes(*b)),
{
    a == b
}

/// `to_vec` of the slice that a `BoundedVec` dereferences to: a fresh vector
/// with the name's bytes.
#[verifier::external_body]
pub(crate) fn name_to_vec(name: &BoundedVec<u8, ConstU32<100>>) -> (r: Vec<u8>)
    ensures
        r@ == name_bytes(*name),
{
    name.to_vec()
}

/// `Clone::clone` of `BoundedVec`, which clones the inner vector: a second
/// name with the same bytes.
#[verifier::external_body]
pub(crate) fn name_clone(name: &BoundedVec<u8, ConstU32<100>>) -> (r: BoundedVec<u8, ConstU32<100>>)
    ensures
        name_bytes(r) == name_bytes(*name),
{
    name.clone()
}

} // verus!
