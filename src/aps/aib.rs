//! APS information base attributes. See Section 2.2.7.2.
use vstd::prelude::*;

use crate::codec::u64_le_bytes;

verus! {

#[verifier::external_type_specification]
#[verifier::external_body]
#[verifier::reject_recursive_types(K)]
#[verifier::reject_recursive_types(V)]
pub struct ExLinearMap<K, V, const N: usize>(heapless::LinearMap<K, V, N>);

/// The value of an attribute on the wire.
pub type AIBAttributeValue = [u8; 8];

/// An AIB attribute with its value.
#[derive(Debug, Default, PartialEq)]
pub enum AIBAttribute {
    #[default]
    ApsBindingTable,
    ApsDesignatedCoordinator(bool),
    ApsChannelMaskList(heapless::Vec<u8, 265>),
    ApsUseExtendedPanId(u64),
    ApsGroupTable(u8),
    ApsNonmemberRadius(u8),
    ApsUseInsecureJoin(bool),
    ApsInterframeDelay(u8),
    ApsLastChannelEnergy(u8),
    ApsLastChannelFailureRate(u8),
    ApsChannelTimer(u8),
    ApsMaxWindowSize(u8),
    ApsParentAnnounceTimer(u8),
}

impl AIBAttribute {
    /// The attribute identifier. 0xc0 and 0xc7 are no longer assigned.
    pub open spec fn spec_id(&self) -> u8 {
        match self {
            AIBAttribute::ApsBindingTable => 0xc1,
            AIBAttribute::ApsDesignatedCoordinator(_) => 0xc2,
            AIBAttribute::ApsChannelMaskList(_) => 0xc3,
            AIBAttribute::ApsUseExtendedPanId(_) => 0xc4,
            AIBAttribute::ApsGroupTable(_) => 0xc5,
            AIBAttribute::ApsNonmemberRadius(_) => 0xc6,
            AIBAttribute::ApsUseInsecureJoin(_) => 0xc8,
            AIBAttribute::ApsInterframeDelay(_) => 0xc9,
            AIBAttribute::ApsLastChannelEnergy(_) => 0xca,
            AIBAttribute::ApsLastChannelFailureRate(_) => 0xcb,
            AIBAttribute::ApsChannelTimer(_) => 0xcc,
            AIBAttribute::ApsMaxWindowSize(_) => 0xcd,
            AIBAttribute::ApsParentAnnounceTimer(_) => 0xce,
        }
    }

    /// The wire value: the little-endian extended PAN identifier for
    /// `ApsUseExtendedPanId`, eight zero bytes otherwise.
    pub open spec fn spec_value(&self) -> Seq<u8> {
        match self {
            AIBAttribute::ApsUseExtendedPanId(id) => u64_le_bytes(*id),
            _ => seq![0u8, 0u8, 0u8, 0u8, 0u8, 0u8, 0u8, 0u8],
        }
    }

    /// The attribute identifier.
    pub fn id(&self) -> (r: u8)
        ensures
            r == self.spec_id(),
    {
        match self {
            AIBAttribute::ApsBindingTable => 0xc1,
            AIBAttribute::ApsDesignatedCoordinator(_) => 0xc2,
            AIBAttribute::ApsChannelMaskList(_) => 0xc3,
            AIBAttribute::ApsUseExtendedPanId(_) => 0xc4,
            AIBAttribute::ApsGroupTable(_) => 0xc5,
            AIBAttribute::ApsNonmemberRadius(_) => 0xc6,
            AIBAttribute::ApsUseInsecureJoin(_) => 0xc8,
            AIBAttribute::ApsInterframeDelay(_) => 0xc9,
            AIBAttribute::ApsLastChannelEnergy(_) => 0xca,
            AIBAttribute::ApsLastChannelFailureRate(_) => 0xcb,
            AIBAttribute::ApsChannelTimer(_) => 0xcc,
            AIBAttribute::ApsMaxWindowSize(_) => 0xcd,
            AIBAttribute::ApsParentAnnounceTimer(_) => 0xce,
        }
    }

    /// The length of the attribute value; none is reported yet.
    pub fn length(&self) -> (r: u8)
        ensures
            r == 0,
    {
        0u8
    }

    /// The wire value of the attribute.
    pub fn value(&self) -> (r: AIBAttributeValue)
        ensures
            r@ == self.spec_value(),
    {
        match self {
            AIBAttribute::ApsUseExtendedPanId(id) => {
                let v = *id;
                let r = [
                    v as u8,
                    (v >> 8u64) as u8,
                    (v >> 16u64) as u8,
                    (v >> 24u64) as u8,
                    (v >> 32u64) as u8,
                    (v >> 40u64) as u8,
                    (v >> 48u64) as u8,
                    (v >> 56u64) as u8,
                ];
                assert(r@ =~= u64_le_bytes(v));
                r
            },
            _ => {
                let r = [0u8; 8];
                assert(r@ =~= seq![0u8, 0u8, 0u8, 0u8, 0u8, 0u8, 0u8, 0u8]);
                r
            },
        }
    }
}

/// The attributes held by an attribute map, by identifier.
pub uninterp spec fn aib_attributes(m: heapless::LinearMap<u8, AIBAttribute, 265>) -> Map<
    u8,
    AIBAttribute,
>;

/// Relies on `heapless::LinearMap::new`: an empty map.
#[verifier::external_body]
fn empty_attribute_map() -> (r: heapless::LinearMap<u8, AIBAttribute, 265>)
    ensures
        aib_attributes(r).dom() == Set::<u8>::empty(),
{
    heapless::LinearMap::new()
}

/// Relies on `heapless::LinearMap::get`: the value held under `key`, if any.
#[verifier::external_body]
fn attribute_lookup<'a>(m: &'a heapless::LinearMap<u8, AIBAttribute, 265>, key: &u8) -> (r: Option<
    &'a AIBAttribute,
>)
    ensures
        r is Some <==> aib_attributes(*m).contains_key(*key),
        r is Some ==> *(r->Some_0) == aib_attributes(*m)[*key],
{
    m.get(key)
}

/// The APS information base.
pub struct ApsInformationBase {
    attributes: heapless::LinearMap<u8, AIBAttribute, 265>,
}

impl View for ApsInformationBase {
    type V = Map<u8, AIBAttribute>;

    closed spec fn view(&self) -> Map<u8, AIBAttribute> {
        aib_attributes(self.attributes)
    }
}

impl ApsInformationBase {
    /// An information base without attributes.
    pub fn new() -> (r: ApsInformationBase)
        ensures
            r@.dom() == Set::<u8>::empty(),
    {
        ApsInformationBase { attributes: empty_attribute_map() }
    }

    /// The attribute held under `id`, if any.
    pub fn get_attribute(&self, id: u8) -> (r: Option<&AIBAttribute>)
        ensures
            r is Some <==> self@.contains_key(id),
            r matches Some(a) ==> *a == self@[id],
    {
        attribute_lookup(&self.attributes, &id)
    }

    /// Writing attributes is not supported yet: the call succeeds and leaves
    /// the information base as it was.
    pub fn write_attribute_value(&mut self, id: u8, value: AIBAttribute) -> (r: Result<(), &'static str>)
        ensures
            r is Ok,
            final(self)@ == old(self)@,
    {
        Ok(())
    }
}

} // verus!
