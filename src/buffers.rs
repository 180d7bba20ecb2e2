//! The `heapless` collections that the library holds, and its
//! fixed-capacity byte buffers.
//!
//! A buffer's contents are named by a spec function per capacity; the
//! functions below state what `heapless` does to them.
use vstd::prelude::*;

verus! {

#[verifier::external_type_specification]
#[verifier::external_body]
#[verifier::reject_recursive_types(T)]
pub struct ExHeaplessVec<T, const N: usize>(heapless::Vec<T, N>);

/// Capacity of a NWK frame payload.
pub const PAYLOAD_SIZE: usize = 128;

/// Capacity of a source-route relay list, in bytes.
pub const RELAY_LIST_SIZE: usize = 16;

/// The bytes held by a frame payload buffer.
pub uninterp spec fn payload_bytes(v: heapless::Vec<u8, 128>) -> Seq<u8>;

/// The bytes held by a relay-list buffer.
pub uninterp spec fn relay_bytes(v: heapless::Vec<u8, 16>) -> Seq<u8>;

/// Relies on `heapless::Vec::from_slice`: it fails exactly when the slice is
/// longer than the capacity, and otherwise holds the slice's bytes in order.
#[verifier::external_body]
pub(crate) fn payload_from_slice(s: &[u8]) -> (r: Result<heapless::Vec<u8, 128>, ()>)
    ensures
        r is Ok <==> s@.len() <= 128,
        r is Ok ==> payload_bytes(r->Ok_0) == s@,
{
    heapless::Vec::from_slice(s)
}

/// Relies on `heapless::Vec::as_slice`: the held bytes, never more than the
/// capacity.
#[verifier::external_body]
pub(crate) fn payload_as_slice(v: &heapless::Vec<u8, 128>) -> (r: &[u8])
    ensures
        r@ == payload_bytes(*v),
        r@.len() <= 128,
{
    v.as_slice()
}

/// Relies on `heapless::Vec::from_slice`: it fails exactly when the slice is
/// longer than the capacity, and otherwise holds the slice's bytes in order.
#[verifier::external_body]
pub(crate) fn relay_list_from_slice(s: &[u8]) -> (r: Result<heapless::Vec<u8, 16>, ()>)
    ensures
        r is Ok <==> s@.len() <= 16,
        r is Ok ==> relay_bytes(r->Ok_0) == s@,
{
    heapless::Vec::from_slice(s)
}

/// Relies on `heapless::Vec::as_slice`: the held bytes, never more than the
/// capacity.
#[verifier::external_body]
pub(crate) fn relay_list_as_slice(v: &heapless::Vec<u8, 16>) -> (r: &[u8])
    ensures
        r@ == relay_bytes(*v),
        r@.len() <= 16,
{
    v.as_slice()
}

/// The bytes held by a node descriptor buffer.
pub uninterp spec fn node_descriptor_bytes(v: heapless::Vec<u8, 13>) -> Seq<u8>;

/// Relies on `heapless::Vec::from_slice`: a slice within the capacity is
/// held in order.
#[verifier::external_body]
pub(crate) fn node_descriptor_from_slice(s: &[u8]) -> (r: heapless::Vec<u8, 13>)
    requires
        s@.len() <= 13,
    ensures
        node_descriptor_bytes(r) == s@,
{
    heapless::Vec::from_slice(s).unwrap()
}

/// Relies on `heapless::Vec::as_slice`: the held bytes.
#[verifier::external_body]
pub(crate) fn node_descriptor_as_slice(v: &heapless::Vec<u8, 13>) -> (r: &[u8])
    ensures
        r@ == node_descriptor_bytes(*v),
{
    v.as_slice()
}

/// The bytes held by a node power descriptor buffer.
pub uninterp spec fn power_descriptor_bytes(v: heapless::Vec<u8, 2>) -> Seq<u8>;

/// Relies on `heapless::Vec::from_slice`: a slice within the capacity is
/// held in order.
#[verifier::external_body]
pub(crate) fn power_descriptor_from_slice(s: &[u8]) -> (r: heapless::Vec<u8, 2>)
    requires
        s@.len() <= 2,
    ensures
        power_descriptor_bytes(r) == s@,
{
    heapless::Vec::from_slice(s).unwrap()
}

/// Relies on `heapless::Vec::as_slice`: the held bytes.
#[verifier::external_body]
pub(crate) fn power_descriptor_as_slice(v: &heapless::Vec<u8, 2>) -> (r: &[u8])
    ensures
        r@ == power_descriptor_bytes(*v),
{
    v.as_slice()
}

#[verifier::external_type_specification]
#[verifier::external_body]
#[verifier::reject_recursive_types(T)]
#[verifier::reject_recursive_types(S)]
pub struct ExIndexSet<T, S, const N: usize>(heapless::IndexSet<T, S, N>);

#[verifier::external_type_specification]
#[verifier::external_body]
#[verifier::reject_recursive_types(H)]
pub struct ExBuildHasherDefault<H>(hash32::BuildHasherDefault<H>);

#[verifier::external_type_specification]
#[verifier::external_body]
pub struct ExFnvHasher(hash32::FnvHasher);

} // verus!
