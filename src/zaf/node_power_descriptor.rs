//! 2.3.2.4 Node Power Descriptor.
//!
//! The node power descriptor gives a dynamic indication of the power status
//! of the node and is mandatory for each node.
use vstd::prelude::*;

use crate::bitfield::{bit, set_names_bit, word_of_flags, BitFlag};
use crate::buffers::{power_descriptor_as_slice, power_descriptor_bytes, power_descriptor_from_slice};

verus! {

/// Why a descriptor could not be built.
#[derive(Debug, Clone, Copy, PartialEq, Eq, Structural)]
pub enum Error {
    /// The current power source is not among the available power sources.
    CurrentPowerSourceNotAvailable,
}

/// Current Power Mode Field. See Section 2.3.2.4.1.
///
/// The four-bit codes 0b0011 to 0b1111 are reserved and read as `Reserved`.
#[derive(Debug, Clone, Copy, PartialEq, Eq, Structural)]
pub enum CurrentPowerMode {
    /// Receiver synchronized with the receiver on when idle subfield of the
    /// node descriptor.
    Synchronized,
    /// Receiver comes on periodically as defined by the node power descriptor.
    Periodically,
    /// Receiver comes on when stimulated, for example, by a user pressing a
    /// button.
    Stimulated,
    Reserved,
}

impl CurrentPowerMode {
    /// The power mode coded by `value`.
    pub open spec fn spec_from_bits(value: u8) -> CurrentPowerMode {
        if value == 0 {
            CurrentPowerMode::Synchronized
        } else if value == 1 {
            CurrentPowerMode::Periodically
        } else if value == 2 {
            CurrentPowerMode::Stimulated
        } else {
            CurrentPowerMode::Reserved
        }
    }

    /// The four-bit code of this power mode.
    pub open spec fn spec_to_bits(self) -> u8 {
        match self {
            CurrentPowerMode::Synchronized => 0,
            CurrentPowerMode::Periodically => 1,
            CurrentPowerMode::Stimulated => 2,
            CurrentPowerMode::Reserved => 3,
        }
    }

    /// The four-bit code of this power mode.
    pub fn to_bits(&self) -> (r: u8)
        ensures
            r == self.spec_to_bits(),
    {
        match self {
            CurrentPowerMode::Synchronized => 0,
            CurrentPowerMode::Periodically => 1,
            CurrentPowerMode::Stimulated => 2,
            CurrentPowerMode::Reserved => 3,
        }
    }
}

impl From<u8> for CurrentPowerMode {
    fn from(value: u8) -> CurrentPowerMode {
        match value {
            0b0000 => CurrentPowerMode::Synchronized,
            0b0001 => CurrentPowerMode::Periodically,
            0b0010 => CurrentPowerMode::Stimulated,
            _ => CurrentPowerMode::Reserved,
        }
    }
}

impl vstd::std_specs::convert::FromSpecImpl<u8> for CurrentPowerMode {
    open spec fn obeys_from_spec() -> bool {
        true
    }

    open spec fn from_spec(v: u8) -> CurrentPowerMode {
        CurrentPowerMode::spec_from_bits(v)
    }
}

/// Available Power Sources Field. See Section 2.3.2.4.2.
#[derive(Debug, Clone, Copy, PartialEq, Eq, Structural)]
pub struct AvailablePowerSources(pub u8);

/// An available power source. Bit 3 is reserved.
#[derive(Debug, Clone, Copy, PartialEq, Eq, Hash, Structural)]
pub enum AvailablePowerSourcesFlag {
    ConstantMainPower,
    RechargeableBattery,
    DisposableBattery,
}

impl BitFlag for AvailablePowerSourcesFlag {
    open spec fn spec_position(&self) -> u16 {
        match self {
            AvailablePowerSourcesFlag::ConstantMainPower => 0,
            AvailablePowerSourcesFlag::RechargeableBattery => 1,
            AvailablePowerSourcesFlag::DisposableBattery => 2,
        }
    }

    fn position(&self) -> (r: u16) {
        match self {
            AvailablePowerSourcesFlag::ConstantMainPower => 0,
            AvailablePowerSourcesFlag::RechargeableBattery => 1,
            AvailablePowerSourcesFlag::DisposableBattery => 2,
        }
    }
}

/// The sources held by a set of available power source flags.
pub uninterp spec fn available_power_source_flag_set(
    s: heapless::FnvIndexSet<AvailablePowerSourcesFlag, 4>,
) -> Set<AvailablePowerSourcesFlag>;

/// Relies on `heapless::IndexSet::iter`: it yields each member of the set.
#[verifier::external_body]
fn available_power_source_flag_list(s: &heapless::FnvIndexSet<AvailablePowerSourcesFlag, 4>) -> (r:
    Vec<AvailablePowerSourcesFlag>)
    ensures
        r@.to_set() == available_power_source_flag_set(*s),
{
    s.iter().copied().collect()
}

impl AvailablePowerSources {
    /// Whether the bit of `flag` is set.
    pub open spec fn spec_is_set(self, flag: AvailablePowerSourcesFlag) -> bool {
        bit(self.0 as u16, flag.spec_position())
    }

    /// The word with the bit of each source in
    /// `available_power_sources_flags` set and every other bit clear.
    pub fn new(available_power_sources_flags: heapless::FnvIndexSet<AvailablePowerSourcesFlag, 4>) -> (r:
        AvailablePowerSources)
        ensures
            forall|b: u16|
                b < 16 ==> (#[trigger] bit(r.0 as u16, b) <==> set_names_bit(
                    available_power_source_flag_set(available_power_sources_flags),
                    b,
                )),
            forall|f: AvailablePowerSourcesFlag| #[trigger]
                r.spec_is_set(f) <==> available_power_source_flag_set(
                    available_power_sources_flags,
                ).contains(f),
    {
        let list = available_power_source_flag_list(&available_power_sources_flags);
        let value = word_of_flags(
            &list,
            8,
            Ghost(available_power_source_flag_set(available_power_sources_flags)),
        );
        AvailablePowerSources(value as u8)
    }

    /// Whether the bit of `power_source` is set.
    pub fn is_set(&self, power_source: AvailablePowerSourcesFlag) -> (r: bool)
        ensures
            r == self.spec_is_set(power_source),
    {
        (self.0 as u16) & (1u16 << power_source.position()) != 0
    }
}

/// Current Power Source Field. See Section 2.3.2.4.3.
///
/// The codes from 3 on are reserved and read as `Reserved`.
#[derive(Debug, Clone, Copy, PartialEq, Eq, Structural)]
pub enum CurrentPowerSource {
    ConstantMainPower,
    RechargeableBattery,
    DisposableBattery,
    Reserved,
}

impl CurrentPowerSource {
    /// The power source coded by `value`.
    pub open spec fn spec_from_bits(value: u8) -> CurrentPowerSource {
        if value == 0 {
            CurrentPowerSource::ConstantMainPower
        } else if value == 1 {
            CurrentPowerSource::RechargeableBattery
        } else if value == 2 {
            CurrentPowerSource::DisposableBattery
        } else {
            CurrentPowerSource::Reserved
        }
    }

    /// The four-bit code of this power source.
    pub open spec fn spec_to_bits(self) -> u8 {
        match self {
            CurrentPowerSource::ConstantMainPower => 0,
            CurrentPowerSource::RechargeableBattery => 1,
            CurrentPowerSource::DisposableBattery => 2,
            CurrentPowerSource::Reserved => 3,
        }
    }

    /// The four-bit code of this power source.
    pub fn to_bits(&self) -> (r: u8)
        ensures
            r == self.spec_to_bits(),
    {
        match self {
            CurrentPowerSource::ConstantMainPower => 0,
            CurrentPowerSource::RechargeableBattery => 1,
            CurrentPowerSource::DisposableBattery => 2,
            CurrentPowerSource::Reserved => 3,
        }
    }
}

impl From<u8> for CurrentPowerSource {
    fn from(value: u8) -> CurrentPowerSource {
        match value {
            0 => CurrentPowerSource::ConstantMainPower,
            1 => CurrentPowerSource::RechargeableBattery,
            2 => CurrentPowerSource::DisposableBattery,
            _ => CurrentPowerSource::Reserved,
        }
    }
}

impl vstd::std_specs::convert::FromSpecImpl<u8> for CurrentPowerSource {
    open spec fn obeys_from_spec() -> bool {
        true
    }

    open spec fn from_spec(v: u8) -> CurrentPowerSource {
        CurrentPowerSource::spec_from_bits(v)
    }
}

/// Current Power Source Level Field. See Section 2.3.2.4.4.
///
/// Codes other than 0b0000, 0b0100, 0b1000 and 0b1100 are reserved and read
/// as `Reserved`.
#[derive(Debug, Clone, Copy, PartialEq, Eq, Structural)]
pub enum CurrentPowerSourceLevel {
    Critical,
    OneThird,
    TwoThirds,
    Full,
    Reserved,
}

impl CurrentPowerSourceLevel {
    /// The level coded by `value`.
    pub open spec fn spec_from_bits(value: u8) -> CurrentPowerSourceLevel {
        if value == 0b0000 {
            CurrentPowerSourceLevel::Critical
        } else if value == 0b0100 {
            CurrentPowerSourceLevel::OneThird
        } else if value == 0b1000 {
            CurrentPowerSourceLevel::TwoThirds
        } else if value == 0b1100 {
            CurrentPowerSourceLevel::Full
        } else {
            CurrentPowerSourceLevel::Reserved
        }
    }

    /// The four-bit code of this level.
    pub open spec fn spec_to_bits(self) -> u8 {
        match self {
            CurrentPowerSourceLevel::Critical => 0b0000,
            CurrentPowerSourceLevel::OneThird => 0b0100,
            CurrentPowerSourceLevel::TwoThirds => 0b1000,
            CurrentPowerSourceLevel::Full => 0b1100,
            CurrentPowerSourceLevel::Reserved => 0b0001,
        }
    }

    /// The four-bit code of this level.
    pub fn to_bits(&self) -> (r: u8)
        ensures
            r == self.spec_to_bits(),
    {
        match self {
            CurrentPowerSourceLevel::Critical => 0b0000,
            CurrentPowerSourceLevel::OneThird => 0b0100,
            CurrentPowerSourceLevel::TwoThirds => 0b1000,
            CurrentPowerSourceLevel::Full => 0b1100,
            CurrentPowerSourceLevel::Reserved => 0b0001,
        }
    }
}

impl From<u8> for CurrentPowerSourceLevel {
    fn from(value: u8) -> CurrentPowerSourceLevel {
        match value {
            0b0000 => CurrentPowerSourceLevel::Critical,
            0b0100 => CurrentPowerSourceLevel::OneThird,
            0b1000 => CurrentPowerSourceLevel::TwoThirds,
            0b1100 => CurrentPowerSourceLevel::Full,
            _ => CurrentPowerSourceLevel::Reserved,
        }
    }
}

impl vstd::std_specs::convert::FromSpecImpl<u8> for CurrentPowerSourceLevel {
    open spec fn obeys_from_spec() -> bool {
        true
    }

    open spec fn from_spec(v: u8) -> CurrentPowerSourceLevel {
        CurrentPowerSourceLevel::spec_from_bits(v)
    }
}

/// The available-sources flag that stands for a current power source, if
/// any.
pub open spec fn source_flag(source: CurrentPowerSource) -> Option<AvailablePowerSourcesFlag> {
    match source {
        CurrentPowerSource::ConstantMainPower => Some(AvailablePowerSourcesFlag::ConstantMainPower),
        CurrentPowerSource::RechargeableBattery => Some(
            AvailablePowerSourcesFlag::RechargeableBattery,
        ),
        CurrentPowerSource::DisposableBattery => Some(AvailablePowerSourcesFlag::DisposableBattery),
        CurrentPowerSource::Reserved => None,
    }
}

/// Whether `source` is one of `available`.
pub open spec fn source_is_available(
    available: AvailablePowerSources,
    source: CurrentPowerSource,
) -> bool {
    match source_flag(source) {
        Some(flag) => available.spec_is_set(flag),
        None => false,
    }
}

/// The two bytes of a node power descriptor: the power mode in the high and
/// the available sources in the low nibble of the first, the current source
/// in the high and its level in the low nibble of the second.
pub open spec fn node_power_descriptor_layout(
    current_power_mode: CurrentPowerMode,
    available_power_sources: AvailablePowerSources,
    current_power_source: CurrentPowerSource,
    current_power_source_level: CurrentPowerSourceLevel,
) -> Seq<u8> {
    seq![
        (current_power_mode.spec_to_bits() << 4u8) | (available_power_sources.0 & 0b1111u8),
        (current_power_source.spec_to_bits() << 4u8) | current_power_source_level.spec_to_bits(),
    ]
}

proof fn lemma_nibbles(high: u8, low: u8)
    by (bit_vector)
    requires
        high < 16,
    ensures
        ((high << 4u8) | (low & 0b1111u8)) >> 4u8 == high,
        ((high << 4u8) | (low & 0b1111u8)) & 0b1111u8 == low & 0b1111u8,
        low < 16 ==> low & 0b1111u8 == low,
{
}

/// Node power descriptor, held as its two wire bytes.
#[derive(Debug)]
pub struct NodePowerDescriptor(heapless::Vec<u8, 2>);

impl View for NodePowerDescriptor {
    type V = Seq<u8>;

    closed spec fn view(&self) -> Seq<u8> {
        power_descriptor_bytes(self.0)
    }
}

impl NodePowerDescriptor {
    #[verifier::type_invariant]
    spec fn holds_all_fields(self) -> bool {
        power_descriptor_bytes(self.0).len() == 2
    }

    /// The high nibble of byte 0.
    pub open spec fn spec_current_power_mode(self) -> CurrentPowerMode {
        CurrentPowerMode::spec_from_bits(self@[0] >> 4u8)
    }

    /// The low nibble of byte 0.
    pub open spec fn spec_available_power_sources(self) -> AvailablePowerSources {
        AvailablePowerSources(self@[0] & 0b1111u8)
    }

    /// The high nibble of byte 1.
    pub open spec fn spec_current_power_source(self) -> CurrentPowerSource {
        CurrentPowerSource::spec_from_bits(self@[1] >> 4u8)
    }

    /// The low nibble of byte 1.
    pub open spec fn spec_current_power_source_level(self) -> CurrentPowerSourceLevel {
        CurrentPowerSourceLevel::spec_from_bits(self@[1] & 0b1111u8)
    }

    /// Lays the fields out in two bytes, failing when the current power
    /// source is not among the available ones. Reading a field back gives
    /// the value it was built from, the available sources restricted to their
    /// four bits.
    pub fn new(
        current_power_mode: CurrentPowerMode,
        available_power_sources: AvailablePowerSources,
        current_power_source: CurrentPowerSource,
        current_power_source_level: CurrentPowerSourceLevel,
    ) -> (r: Result<NodePowerDescriptor, Error>)
        ensures
            r is Err <==> !source_is_available(available_power_sources, current_power_source),
            r is Err ==> r->Err_0 == Error::CurrentPowerSourceNotAvailable,
            r matches Ok(d) ==> {
                &&& d@ == node_power_descriptor_layout(
                    current_power_mode,
                    available_power_sources,
                    current_power_source,
                    current_power_source_level,
                )
                &&& d.spec_current_power_mode() == current_power_mode
                &&& d.spec_available_power_sources() == AvailablePowerSources(
                    available_power_sources.0 & 0b1111u8,
                )
                &&& d.spec_current_power_source() == current_power_source
                &&& d.spec_current_power_source_level() == current_power_source_level
            },
    {
        let power_source = match current_power_source {
            CurrentPowerSource::ConstantMainPower => AvailablePowerSourcesFlag::ConstantMainPower,
            CurrentPowerSource::RechargeableBattery => {
                AvailablePowerSourcesFlag::RechargeableBattery
            },
            CurrentPowerSource::DisposableBattery => AvailablePowerSourcesFlag::DisposableBattery,
            CurrentPowerSource::Reserved => {
                return Err(Error::CurrentPowerSourceNotAvailable);
            },
        };
        if !available_power_sources.is_set(power_source) {
            return Err(Error::CurrentPowerSourceNotAvailable);
        }
        let byte_1: u8 = (current_power_mode.to_bits() << 4u8) | (available_power_sources.0
            & 0b1111u8);
        let byte_2: u8 = (current_power_source.to_bits() << 4u8)
            | current_power_source_level.to_bits();
        let mut bytes: Vec<u8> = Vec::new();
        bytes.push(byte_1);
        bytes.push(byte_2);
        let ghost layout = node_power_descriptor_layout(
            current_power_mode,
            available_power_sources,
            current_power_source,
            current_power_source_level,
        );
        assert(bytes@ =~= layout);
        let d = NodePowerDescriptor(power_descriptor_from_slice(bytes.as_slice()));
        proof {
            lemma_nibbles(current_power_mode.spec_to_bits(), available_power_sources.0);
            lemma_nibbles(current_power_source.spec_to_bits(), current_power_source_level.spec_to_bits());
        }
        Ok(d)
    }

    /// See Section 2.3.2.4.1.
    pub fn current_power_mode(&self) -> (r: CurrentPowerMode)
        ensures
            r == self.spec_current_power_mode(),
    {
        proof {
            use_type_invariant(self);
        }
        let bytes = power_descriptor_as_slice(&self.0);
        let current_power_mode = bytes[0] >> 4u8;
        current_power_mode.into()
    }

    /// See Section 2.3.2.4.2.
    pub fn available_power_sources(&self) -> (r: AvailablePowerSources)
        ensures
            r == self.spec_available_power_sources(),
    {
        proof {
            use_type_invariant(self);
        }
        let bytes = power_descriptor_as_slice(&self.0);
        AvailablePowerSources(bytes[0] & 0b1111u8)
    }

    /// See Section 2.3.2.4.3.
    pub fn current_power_source(&self) -> (r: CurrentPowerSource)
        ensures
            r == self.spec_current_power_source(),
    {
        proof {
            use_type_invariant(self);
        }
        let bytes = power_descriptor_as_slice(&self.0);
        let current_power_source = bytes[1] >> 4u8;
        current_power_source.into()
    }

    /// See Section 2.3.2.4.4.
    pub fn current_power_source_level(&self) -> (r: CurrentPowerSourceLevel)
        ensures
            r == self.spec_current_power_source_level(),
    {
        proof {
            use_type_invariant(self);
        }
        let bytes = power_descriptor_as_slice(&self.0);
        let current_power_source_level = bytes[1] & 0b1111u8;
        current_power_source_level.into()
    }
}

} // verus!
