//! The bounded, ordered collection that holds the catalog's movies.
//!
//! The store is a `BoundedVec<Filme, ConstU32<100>>`. What it holds is spoken
//! of through [`store_items`], and each function below makes one call on the
//! store. Their contracts are not proved; they state what the source of
//! `BoundedVec` shows.

use crate::filme::{Filme, FilmeView};
use frame_support::pallet_prelude::ConstU32;
use frame_support::BoundedVec;
use vstd::prelude::*;

verus! {

/// The movies that a store holds, in store order.
pub uninterp spec fn store_items(store: BoundedVec<Filme, ConstU32<100>>) -> Seq<Filme>;

/// The movies of a store as plain values, in store order.
pub open spec fn records(store: BoundedVec<Filme, ConstU32<100>>) -> Seq<FilmeView> {
    store_items(store).map_values(|f: Filme| f@)
}

/// `BoundedVec::new`: a store that holds nothing.
#[verifier::external_body]
pub(crate) fn store_new() -> (r: BoundedVec<Filme, ConstU32<100>>)
    ensures
        store_items(r) == Seq::<Filme>::empty(),
{
    BoundedVec::new()
}

/// `len` of the vector that a `BoundedVec` dereferences to: how many movies
/// the store holds.
#[verifier::external_body]
pub(crate) fn store_len(store: &BoundedVec<Filme, ConstU32<100>>) -> (n: usize)
    ensures
        n == store_items(*store).len(),
{
    store.len()
}

/// `Index::index` of `BoundedVec`, which indexes the inner vector: the movie
/// at `index`. Out of range it panics, so the index must be in range.
#[verifier::external_body]
pub(crate) fn store_get(store: &BoundedVec<Filme, ConstU32<100>>, index: usize) -> (r: &Filme)
    requires
        index < store_items(*store).len(),
    ensures
        *r == store_items(*store)[index as int],
{
    &store[index]
}

/// `BoundedVec::try_push`: with fewer than 100 movies in the store the movie
/// is appended; otherwise the store is left as it was and the movie is handed
/// back as the error.
#[verifier::external_body]
pub(crate) fn store_try_push(store: &mut BoundedVec<Filme, ConstU32<100>>, filme: Filme) -> (r: Result<(), Filme>)
    ensures
        r is Err <==> store_items(*old(store)).len() >= 100,
        r is Ok ==> store_items(*final(store)) == store_items(*old(store)).push(filme),
        r is Err ==> r->Err_0 == filme && store_items(*final(store)) == store_items(*old(store)),
{
    store.try_push(filme)
}

/// `BoundedVec::remove`: takes the movie at `index` out and returns it; the
/// movies behind it move up by one. Out of range it panics, so the index must
/// be in range.
#[verifier::external_body]
pub(crate) fn store_remove(store: &mut BoundedVec<Filme, ConstU32<100>>, index: usize) -> (r: Filme)
    requires
        index < store_items(*old(store)).len(),
    ensures
        r == store_items(*old(store))[index as int],
        store_items(*final(store)) == store_items(*old(store)).remove(index as int),
{
    store.remove(index)
}

/// `IndexMut::index_mut` of `BoundedVec`, assigned through: the movie at
/// `index` is replaced by `filme`, the others stay. Out of range it panics,
/// so the index must be in range.
#[verifier::external_body]
pub(crate) fn store_set(store: &mut BoundedVec<Filme, ConstU32<100>>, index: usize, filme: Filme)
    requires
        index < store_items(*old(store)).len(),
    ensures
        store_items(*final(store)) == store_items(*old(store)).update(index as int, filme),
{
    store[index] = filme;
}

} // verus!
