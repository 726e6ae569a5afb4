//! Fixed-capacity byte buffers: control payloads and outgoing frames hold at
//! most 64 bytes, bulk receive storage at most 512.
use vstd::prelude::*;

verus! {

/// Declares heapless::Vec, a vector with a fixed capacity `N`, so that it can
/// stand in signatures and fields. Its contents are seen only through
/// `control_bytes` and `bulk_bytes`.
#[verifier::external_type_specification]
#[verifier::external_body]
#[verifier::reject_recursive_types(T)]
pub struct ExHeaplessVec<T, const N: usize>(heapless::Vec<T, N>);

/// A control payload or an outgoing frame.
pub type ControlBuf = heapless::Vec<u8, 64>;

/// Caller-owned storage that a bulk reply is copied into.
pub type BulkBuf = heapless::Vec<u8, 512>;

/// The bytes a control buffer holds, in order (what heapless::Vec::as_slice shows).
pub uninterp spec fn control_bytes(v: heapless::Vec<u8, 64>) -> Seq<u8>;

/// The bytes a bulk buffer holds, in order (what heapless::Vec::as_slice shows).
pub uninterp spec fn bulk_bytes(v: heapless::Vec<u8, 512>) -> Seq<u8>;

/// Relies on heapless::Vec::as_slice: the stored bytes, never more than the capacity.
#[verifier::external_body]
pub(crate) fn control_slice(v: &ControlBuf) -> (r: &[u8])
    ensures
        r@ == control_bytes(*v),
        r@.len() <= 64,
{
    v.as_slice()
}

/// Relies on heapless::Vec::extend_from_slice: appends the whole slice when it
/// fits the capacity, otherwise fails and leaves the vector untouched.
#[verifier::external_body]
pub(crate) fn control_extend(v: &mut ControlBuf, s: &[u8]) -> (r: Result<(), ()>)
    ensures
        control_bytes(*old(v)).len() + s@.len() <= 64 ==> r is Ok && control_bytes(*final(v))
            == control_bytes(*old(v)) + s@,
        control_bytes(*old(v)).len() + s@.len() > 64 ==> r is Err && *final(v) == *old(v),
{
    v.extend_from_slice(s)
}

/// Relies on heapless::Vec::as_slice: the stored bytes, never more than the capacity.
#[verifier::external_body]
pub(crate) fn bulk_slice(v: &BulkBuf) -> (r: &[u8])
    ensures
        r@ == bulk_bytes(*v),
        r@.len() <= 512,
{
    v.as_slice()
}

/// Relies on heapless::Vec::extend_from_slice: appends the whole slice when it
/// fits the capacity, otherwise fails and leaves the vector untouched.
#[verifier::external_body]
pub(crate) fn bulk_extend(v: &mut BulkBuf, s: &[u8]) -> (r: Result<(), ()>)
    ensures
        bulk_bytes(*old(v)).len() + s@.len() <= 512 ==> r is Ok && bulk_bytes(*final(v))
            == bulk_bytes(*old(v)) + s@,
        bulk_bytes(*old(v)).len() + s@.len() > 512 ==> r is Err && *final(v) == *old(v),
{
    v.extend_from_slice(s)
}

} // verus!
