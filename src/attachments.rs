//! The bounded list of attachment image views handed to a render-pass begin,
//! held in an `arrayvec::ArrayVec`.
use arrayvec::ArrayVec;
use vstd::prelude::*;

verus! {

/// Most color attachments a render pass may have.
pub const MAX_COLOR_ATTACHMENTS: usize = 8;

#[verifier::external_type_specification]
#[verifier::external_body]
#[verifier::reject_recursive_types(T)]
pub struct ExArrayVec<T, const CAP: usize>(ArrayVec<T, CAP>);

/// The views held by an attachment list, first pushed first.
pub uninterp spec fn attachment_items(v: ArrayVec<u64, 9>) -> Seq<u64>;

/// Relies on `ArrayVec::new`: a new vector is empty.
#[verifier::external_body]
pub(crate) fn attachments_new() -> (r: ArrayVec<u64, 9>)
    ensures
        attachment_items(r) == Seq::<u64>::empty(),
{
    ArrayVec::new()
}

/// Relies on `ArrayVec::push`: appends at the end; it panics only when the
/// vector already holds its capacity, which `requires` rules out.
#[verifier::external_body]
pub(crate) fn attachments_push(v: &mut ArrayVec<u64, 9>, view: u64)
    requires
        attachment_items(*old(v)).len() < 9,
    ensures
        attachment_items(*final(v)) == attachment_items(*old(v)).push(view),
{
    v.push(view)
}

/// Relies on `ArrayVec::as_slice`: the slice holds the items in order.
#[verifier::external_body]
pub(crate) fn attachments_to_vec(v: &ArrayVec<u64, 9>) -> (r: Vec<u64>)
    ensures
        r@ == attachment_items(*v),
{
    v.as_slice().to_vec()
}

} // verus!
