//! The fixed-capacity list of hidden indicator tiles, kept in a
//! `tinyvec::ArrayVec`.
use tinyvec::ArrayVec;
use vstd::prelude::*;

verus! {

#[verifier::external_type_specification]
#[verifier::external_body]
#[verifier::reject_recursive_types(A)]
pub struct ExArrayVec<A>(ArrayVec<A>);

/// The tiles that an indicator list holds, in order.
pub uninterp spec fn indicator_list(v: ArrayVec<[u8; 5]>) -> Seq<u8>;

/// Relies on `ArrayVec::new`: the new list is empty.
#[verifier::external_body]
pub(crate) fn indicators_new() -> (r: ArrayVec<[u8; 5]>)
    ensures
        indicator_list(r) == Seq::<u8>::empty(),
{
    ArrayVec::new()
}

/// Relies on `ArrayVec::push`: below capacity, appends the tile at the end
/// (it panics only at capacity).
#[verifier::external_body]
pub(crate) fn indicators_push(v: &mut ArrayVec<[u8; 5]>, t: u8)
    requires
        indicator_list(*old(v)).len() < 5,
    ensures
        indicator_list(*final(v)) == indicator_list(*old(v)).push(t),
{
    v.push(t)
}

/// Relies on `ArrayVec::len`: the number of tiles held.
#[verifier::external_body]
pub(crate) fn indicators_len(v: &ArrayVec<[u8; 5]>) -> (r: usize)
    ensures
        r == indicator_list(*v).len(),
{
    v.len()
}

/// Relies on `ArrayVec::as_slice`: the tiles held, in order.
#[verifier::external_body]
pub(crate) fn indicators_slice(v: &ArrayVec<[u8; 5]>) -> (r: &[u8])
    ensures
        r@ == indicator_list(*v),
{
    v.as_slice()
}

} // verus!
