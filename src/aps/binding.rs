//! The binding table. See Section 2.2.8.2.1.
use vstd::prelude::*;

use super::apsme::basemgt::{ApsmeBindRequest, ApsmeUnbindRequest};
use super::types::Address;

verus! {

/// Where bound frames go.
#[derive(Debug, Clone, Copy, PartialEq, Eq, Structural)]
pub enum DesignatedDestination {
    DeviceAddress(u16),
    GroupAddress(u16),
}

/// One binding: a source bound to an endpoint and cluster.
#[derive(Debug, Clone, Copy, PartialEq, Eq, Structural)]
pub struct Binding {
    pub source: Address,
    pub endpoint: u8,
    pub cluster_id: u16,
}

/// Why a binding table operation failed.
#[derive(Debug, Clone, Copy, PartialEq, Eq, Structural)]
pub enum BindingError {
    IllegalRequest,
    InvalidBinding,
    TableFull,
}

/// Capacity of the binding table.
pub const BINDING_TABLE_SIZE: usize = 265;

/// The bindings held by a binding list, in insertion order.
pub uninterp spec fn binding_entries(v: heapless::Vec<Binding, 265>) -> Seq<Binding>;

/// Relies on `heapless::Vec::new`: an empty vector.
#[verifier::external_body]
fn empty_binding_list() -> (r: heapless::Vec<Binding, 265>)
    ensures
        binding_entries(r) == Seq::<Binding>::empty(),
{
    heapless::Vec::new()
}

/// Relies on `heapless::Vec::len`: the number of items held.
#[verifier::external_body]
fn binding_list_len(v: &heapless::Vec<Binding, 265>) -> (r: usize)
    ensures
        r == binding_entries(*v).len(),
{
    v.len()
}

/// Relies on `heapless::Vec::push`: below capacity the item is appended,
/// otherwise it is handed back and the vector is left as it was.
#[verifier::external_body]
fn push_binding(v: &mut heapless::Vec<Binding, 265>, item: Binding) -> (r: Result<(), Binding>)
    ensures
        binding_entries(*old(v)).len() < BINDING_TABLE_SIZE ==> r is Ok && binding_entries(
            *final(v),
        ) == binding_entries(*old(v)).push(item),
        binding_entries(*old(v)).len() >= BINDING_TABLE_SIZE ==> r is Err && r->Err_0 == item
            && binding_entries(*final(v)) == binding_entries(*old(v)),
{
    v.push(item)
}

/// The binding table. See Section 2.2.8.2.
pub struct ApsBindingTable {
    entries: heapless::Vec<Binding, 265>,
}

impl View for ApsBindingTable {
    type V = Seq<Binding>;

    closed spec fn view(&self) -> Seq<Binding> {
        binding_entries(self.entries)
    }
}

/// The binding that a bind request asks for.
pub open spec fn requested_binding(request: ApsmeBindRequest) -> Binding {
    Binding {
        source: request.src_address,
        endpoint: request.dst_endpoint,
        cluster_id: request.cluster_id,
    }
}

impl ApsBindingTable {
    /// An empty table.
    pub fn new() -> (r: ApsBindingTable)
        ensures
            r@ == Seq::<Binding>::empty(),
    {
        ApsBindingTable { entries: empty_binding_list() }
    }

    /// Whether the table holds as many bindings as it can.
    pub fn is_full(&self) -> (r: bool)
        ensures
            r == (self@.len() >= BINDING_TABLE_SIZE),
    {
        binding_list_len(&self.entries) >= BINDING_TABLE_SIZE
    }

    /// Appends the binding that `request` asks for, unless the table is full.
    pub fn create_binding_link(&mut self, request: &ApsmeBindRequest) -> (r: Result<(), BindingError>)
        ensures
            old(self)@.len() >= BINDING_TABLE_SIZE ==> r == Err::<(), BindingError>(
                BindingError::TableFull,
            ) && final(self)@ == old(self)@,
            old(self)@.len() < BINDING_TABLE_SIZE ==> r is Ok && final(self)@ == old(self)@.push(
                requested_binding(*request),
            ),
    {
        if self.is_full() {
            return Err(BindingError::TableFull);
        }
        let binding = Binding {
            source: request.src_address,
            endpoint: request.dst_endpoint,
            cluster_id: request.cluster_id,
        };
        match push_binding(&mut self.entries, binding) {
            Ok(()) => Ok(()),
            Err(_) => Err(BindingError::TableFull),
        }
    }

    /// Removing a binding is not supported: every request is answered with
    /// an invalid binding.
    pub fn remove_binding_link(&self, request: &ApsmeUnbindRequest) -> (r: Result<(), BindingError>)
        ensures
            r == Err::<(), BindingError>(BindingError::InvalidBinding),
    {
        Err(BindingError::InvalidBinding)
    }
}

} // verus!
