use vstd::prelude::*;

verus! {

#[verifier::external_type_specification]
#[verifier::external_body]
#[verifier::reject_recursive_types(T)]
pub struct ExHeaplessVec<T, const N: usize>(heapless::Vec<T, N>);

/// The bytes that a payload buffer holds, in order.  A legacy advertising PDU carries at
/// most 31 bytes, the capacity of the buffer.
pub uninterp spec fn ad_bytes(v: heapless::Vec<u8, 31>) -> Seq<u8>;

/// Calls `heapless::Vec::new`, whose result holds no element.
#[verifier::external_body]
pub(crate) fn buffer_new() -> (v: heapless::Vec<u8, 31>)
    ensures
        ad_bytes(v) == Seq::<u8>::empty(),
{
    heapless::Vec::new()
}

/// Calls `len` (through the deref to a slice), which is the number of bytes held.
#[verifier::external_body]
pub(crate) fn buffer_len(v: &heapless::Vec<u8, 31>) -> (n: usize)
    ensures
        n == ad_bytes(*v).len(),
{
    v.len()
}

/// Calls `heapless::Vec::push`: while fewer bytes than the capacity are held, the byte is
/// appended; otherwise the vector stays as it was and the byte is handed back.
#[verifier::external_body]
pub(crate) fn buffer_push(v: &mut heapless::Vec<u8, 31>, b: u8) -> (r: Result<(), u8>)
    ensures
        (r is Ok) <==> ad_bytes(*old(v)).len() < 31,
        r is Ok ==> ad_bytes(*final(v)) == ad_bytes(*old(v)).push(b),
        r is Err ==> r->Err_0 == b && ad_bytes(*final(v)) == ad_bytes(*old(v)),
{
    v.push(b)
}

/// Calls `heapless::Vec::extend_from_slice`: when the bytes fit in the capacity they are
/// appended in order; otherwise the vector stays as it was and `Err(())` comes back.  The sum
/// of the two lengths must not overflow, as the method adds them first.
#[verifier::external_body]
pub(crate) fn buffer_extend(v: &mut heapless::Vec<u8, 31>, s: &[u8]) -> (r: Result<(), ()>)
    requires
        ad_bytes(*old(v)).len() + s@.len() <= usize::MAX,
    ensures
        (r is Ok) <==> ad_bytes(*old(v)).len() + s@.len() <= 31,
        r is Ok ==> ad_bytes(*final(v)) == ad_bytes(*old(v)) + s@,
        r is Err ==> ad_bytes(*final(v)) == ad_bytes(*old(v)),
{
    v.extend_from_slice(s)
}

/// Calls `Clone::clone` of `heapless::Vec`, which copies the bytes held in order.
#[verifier::external_body]
pub(crate) fn buffer_clone(v: &heapless::Vec<u8, 31>) -> (c: heapless::Vec<u8, 31>)
    ensures
        ad_bytes(c) == ad_bytes(*v),
{
    v.clone()
}

/// Calls `heapless::Vec::as_slice`, a view of the bytes held.
#[verifier::external_body]
pub(crate) fn buffer_as_slice(v: &heapless::Vec<u8, 31>) -> (s: &[u8])
    ensures
        s@ == ad_bytes(*v),
{
    v.as_slice()
}

} // verus!
