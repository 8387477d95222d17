//! Trusted boundary to the persistent vectors of the `im` crate. The
//! translator accumulates the element handles of an array literal in such a
//! vector before handing them to the builder as one array constant.

use vstd::prelude::*;

verus! {

#[verifier::external_type_specification]
#[verifier::external_body]
#[verifier::reject_recursive_types(A)]
pub struct ExVector<A>(im::Vector<A>);

/// The elements held by a persistent vector of handle numbers, in order.
pub uninterp spec fn vector_elems(v: im::Vector<usize>) -> Seq<usize>;

/// Relies on im::Vector::new: the new vector is empty.
#[verifier::external_body]
pub fn vector_new() -> (r: im::Vector<usize>)
    ensures
        vector_elems(r) == Seq::<usize>::empty(),
{
    im::Vector::new()
}

/// Relies on im::Vector::push_back: appends one element at the back and
/// keeps the rest.
#[verifier::external_body]
pub fn vector_push_back(v: &mut im::Vector<usize>, value: usize)
    ensures
        vector_elems(*final(v)) == vector_elems(*old(v)).push(value),
{
    v.push_back(value)
}

/// Relies on im::Vector::iter: yields the elements front to back.
#[verifier::external_body]
pub fn vector_to_vec(v: &im::Vector<usize>) -> (r: Vec<usize>)
    ensures
        r@ == vector_elems(*v),
{
    v.iter().copied().collect()
}

} // verus!
