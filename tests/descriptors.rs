use heapless::FnvIndexSet;
use zigbee::zaf::node_descriptor::{
    DescriptorCapabilities, DescriptorCapabilityFlag, FrequencyBandFlag, FrequencyBands,
    LogicalType, MacCapabilities, MacCapabilityFlag, NodeDescriptor, ServerMask, ServerMaskFlag,
};
use zigbee::zaf::node_power_descriptor::{
    AvailablePowerSources, AvailablePowerSourcesFlag, CurrentPowerMode, CurrentPowerSource,
    CurrentPowerSourceLevel, Error, NodePowerDescriptor,
};

fn frequency_band_bits(flags: &[FrequencyBandFlag]) -> FnvIndexSet<FrequencyBandFlag, 4> {
    let mut bits = FnvIndexSet::new();
    for flag in flags {
        let _ = bits.insert(*flag);
    }
    bits
}

fn mac_capability_bits(flags: &[MacCapabilityFlag]) -> FnvIndexSet<MacCapabilityFlag, 8> {
    let mut bits = FnvIndexSet::new();
    for flag in flags {
        let _ = bits.insert(*flag);
    }
    bits
}

fn server_mask_bits(flags: &[ServerMaskFlag]) -> FnvIndexSet<ServerMaskFlag, 8> {
    let mut bits = FnvIndexSet::new();
    for flag in flags {
        let _ = bits.insert(*flag);
    }
    bits
}

fn descriptor_capability_bits(
    flags: &[DescriptorCapabilityFlag],
) -> FnvIndexSet<DescriptorCapabilityFlag, 2> {
    let mut bits = FnvIndexSet::new();
    for flag in flags {
        let _ = bits.insert(*flag);
    }
    bits
}

fn power_source_bits(
    flags: &[AvailablePowerSourcesFlag],
) -> FnvIndexSet<AvailablePowerSourcesFlag, 4> {
    let mut bits = FnvIndexSet::new();
    for flag in flags {
        let _ = bits.insert(*flag);
    }
    bits
}

#[test]
fn creating_frequency_bands_should_succeed() {
    let expected: u8 = 0b0001_0100;
    let bits = frequency_band_bits(&[FrequencyBandFlag::Mid, FrequencyBandFlag::EuropeanFSK]);
    let freqyency_bands = FrequencyBands::new(bits);
    assert_eq!(expected, freqyency_bands.0);
}

#[test]
fn reading_frequency_bands_should_succeed() {
    let bits = frequency_band_bits(&[FrequencyBandFlag::Mid, FrequencyBandFlag::EuropeanFSK]);
    let freqyency_bands = FrequencyBands::new(bits);
    assert!(freqyency_bands.is_set(FrequencyBandFlag::Mid));
    assert!(freqyency_bands.is_set(FrequencyBandFlag::EuropeanFSK));
    assert!(!freqyency_bands.is_set(FrequencyBandFlag::Low));
}

#[test]
fn creating_mac_capabilities_should_succeed() {
    let expected: u8 = 0b1000_0001;
    let bits = mac_capability_bits(&[
        MacCapabilityFlag::AlternatePanCoordinator,
        MacCapabilityFlag::AllocateAddress,
    ]);
    let mac_capabilities = MacCapabilities::new(bits);
    assert_eq!(expected, mac_capabilities.0);
}

#[test]
fn reading_mac_capabilities_should_succeed() {
    let bits = mac_capability_bits(&[
        MacCapabilityFlag::AlternatePanCoordinator,
        MacCapabilityFlag::AllocateAddress,
    ]);
    let mac_capabilities = MacCapabilities::new(bits);
    assert!(mac_capabilities.is_set(MacCapabilityFlag::AlternatePanCoordinator));
    assert!(mac_capabilities.is_set(MacCapabilityFlag::AllocateAddress));
    assert!(!mac_capabilities.is_set(MacCapabilityFlag::DeviceType));
}

#[test]
fn creating_server_mask_should_succeed() {
    let expected = 0b0010_1100_0100_0001;
    let bits = server_mask_bits(&[ServerMaskFlag::PrimaryTrustCenter, ServerMaskFlag::NetworkManager]);
    let server_mask = ServerMask::new(bits, 22);
    assert_eq!(expected, server_mask.0);
}

#[test]
fn reading_server_mask_should_succeed() {
    let bits = server_mask_bits(&[ServerMaskFlag::PrimaryTrustCenter, ServerMaskFlag::NetworkManager]);
    let server_mask = ServerMask::new(bits, 22);
    assert!(server_mask.is_set(ServerMaskFlag::PrimaryTrustCenter));
    assert!(server_mask.is_set(ServerMaskFlag::NetworkManager));
    assert!(!server_mask.is_set(ServerMaskFlag::PrimaryDiscoveryCache));
    assert_eq!(22, server_mask.get_stack_compliance_revision());
}

#[test]
fn server_mask_keeps_seven_revision_bits() {
    let server_mask = ServerMask::new(server_mask_bits(&[]), 0xff);
    assert_eq!(server_mask.0, 0b1111_1110_0000_0000);
    assert_eq!(server_mask.get_stack_compliance_revision(), 0x7f);
}

#[test]
fn creating_descriptor_capability_should_succeed() {
    let expected = 0b0000_0011;
    let bits = descriptor_capability_bits(&[
        DescriptorCapabilityFlag::ExtendedActiveEndpontListAvailable,
        DescriptorCapabilityFlag::ExtendedSimpleDescriptorListAvailable,
    ]);
    let descriptor_capabilities = DescriptorCapabilities::new(bits);
    assert_eq!(expected, descriptor_capabilities.0);
}

#[test]
fn reading_descriptor_capability_should_succeed() {
    let bits = descriptor_capability_bits(&[
        DescriptorCapabilityFlag::ExtendedActiveEndpontListAvailable,
        DescriptorCapabilityFlag::ExtendedSimpleDescriptorListAvailable,
    ]);
    let descriptor_capabilities = DescriptorCapabilities::new(bits);
    assert!(descriptor_capabilities
        .is_set(DescriptorCapabilityFlag::ExtendedActiveEndpontListAvailable));
    assert!(descriptor_capabilities
        .is_set(DescriptorCapabilityFlag::ExtendedSimpleDescriptorListAvailable));
}

#[test]
fn empty_flag_set_gives_empty_word() {
    assert_eq!(FrequencyBands::new(frequency_band_bits(&[])).0, 0);
    assert_eq!(MacCapabilities::new(mac_capability_bits(&[])).0, 0);
    assert_eq!(DescriptorCapabilities::new(descriptor_capability_bits(&[])).0, 0);
}

#[test]
fn creating_node_descriptor_should_succeed() {
    let logical_type = LogicalType::ZigBeeRouter;
    let complex_descriptor_available = true;
    let user_descriptor_available = true;
    let frequency_bands = FrequencyBands::new(frequency_band_bits(&[FrequencyBandFlag::High]));
    let mac_capabilities = MacCapabilities::new(mac_capability_bits(&[
        MacCapabilityFlag::AllocateAddress,
        MacCapabilityFlag::SecurityCapability,
    ]));
    let manufacturer_code = 42;
    let maximum_buffer_size = 8;
    let maximum_incoming_transfer_size = 500;
    let stack_compliance_revision = 14;
    let server_mask = ServerMask::new(
        server_mask_bits(&[
            ServerMaskFlag::PrimaryTrustCenter,
            ServerMaskFlag::BackupBindingTableCache,
        ]),
        stack_compliance_revision,
    );
    let maximum_outgoing_transfer_size = 1000;
    let descriptor_capabilities = DescriptorCapabilities::new(descriptor_capability_bits(&[
        DescriptorCapabilityFlag::ExtendedActiveEndpontListAvailable,
    ]));

    let node_descriptor = NodeDescriptor::new(
        logical_type,
        complex_descriptor_available,
        user_descriptor_available,
        frequency_bands,
        mac_capabilities,
        manufacturer_code,
        maximum_buffer_size,
        maximum_incoming_transfer_size,
        server_mask,
        maximum_outgoing_transfer_size,
        descriptor_capabilities,
    );

    assert_eq!(node_descriptor.logical_type(), LogicalType::ZigBeeRouter);
    assert!(node_descriptor.complex_descriptor_available());
    assert!(node_descriptor.user_descriptor_available());
    assert!(node_descriptor.frequency_bands().is_set(FrequencyBandFlag::High));
    assert!(!node_descriptor.frequency_bands().is_set(FrequencyBandFlag::EuropeanFSK));
    assert!(node_descriptor.mac_capabilities().is_set(MacCapabilityFlag::AllocateAddress));
    assert!(node_descriptor.mac_capabilities().is_set(MacCapabilityFlag::SecurityCapability));
    assert!(!node_descriptor.mac_capabilities().is_set(MacCapabilityFlag::PowerSource));
    assert_eq!(node_descriptor.manufacturer_code(), 42);
    assert_eq!(node_descriptor.maximum_buffer_size(), 8);
    assert_eq!(node_descriptor.maximum_incoming_transfer_size(), 500);
    assert!(node_descriptor.server_mask().is_set(ServerMaskFlag::PrimaryTrustCenter));
    assert!(node_descriptor.server_mask().is_set(ServerMaskFlag::BackupBindingTableCache));
    assert!(!node_descriptor.server_mask().is_set(ServerMaskFlag::NetworkManager));
    assert_eq!(node_descriptor.maximum_outgoing_transfer_size(), 1000);
    assert!(node_descriptor
        .descriptor_capabilities()
        .is_set(DescriptorCapabilityFlag::ExtendedActiveEndpontListAvailable));
    assert!(!node_descriptor
        .descriptor_capabilities()
        .is_set(DescriptorCapabilityFlag::ExtendedSimpleDescriptorListAvailable));
}

#[test]
fn reserved_logical_types_read_as_reserved() {
    assert_eq!(LogicalType::from(0b000), LogicalType::ZigBeeCoordinator);
    assert_eq!(LogicalType::from(0b010), LogicalType::ZigBeeEndDevice);
    assert_eq!(LogicalType::from(0b011), LogicalType::Reserved);
    assert_eq!(LogicalType::from(0b111), LogicalType::Reserved);
}

#[test]
fn creating_available_power_sources_should_succeed() {
    let expected: u8 = 0b0101;
    let bits = power_source_bits(&[
        AvailablePowerSourcesFlag::ConstantMainPower,
        AvailablePowerSourcesFlag::DisposableBattery,
    ]);
    let available_power_sources = AvailablePowerSources::new(bits);
    assert_eq!(expected, available_power_sources.0);
}

#[test]
fn reading_available_power_sources_should_succeed() {
    let bits = power_source_bits(&[
        AvailablePowerSourcesFlag::ConstantMainPower,
        AvailablePowerSourcesFlag::DisposableBattery,
    ]);
    let available_power_sources = AvailablePowerSources::new(bits);
    assert!(available_power_sources.is_set(AvailablePowerSourcesFlag::ConstantMainPower));
    assert!(available_power_sources.is_set(AvailablePowerSourcesFlag::DisposableBattery));
    assert!(!available_power_sources.is_set(AvailablePowerSourcesFlag::RechargeableBattery));
}

#[test]
fn creating_node_power_descriptor_should_succeed() {
    let current_power_mode = CurrentPowerMode::Synchronized;
    let available_power_sources =
        AvailablePowerSources::new(power_source_bits(&[AvailablePowerSourcesFlag::ConstantMainPower]));
    let current_power_source = CurrentPowerSource::ConstantMainPower;
    let current_power_source_level = CurrentPowerSourceLevel::TwoThirds;

    let node_power_descriptor = NodePowerDescriptor::new(
        current_power_mode,
        available_power_sources,
        current_power_source,
        current_power_source_level,
    );

    assert!(node_power_descriptor.is_ok());
    let node_power_descriptor = node_power_descriptor.unwrap();
    assert_eq!(node_power_descriptor.current_power_mode(), CurrentPowerMode::Synchronized);
    assert!(node_power_descriptor
        .available_power_sources()
        .is_set(AvailablePowerSourcesFlag::ConstantMainPower));
    assert!(!node_power_descriptor
        .available_power_sources()
        .is_set(AvailablePowerSourcesFlag::DisposableBattery));
    assert_eq!(node_power_descriptor.current_power_source(), CurrentPowerSource::ConstantMainPower);
    assert_eq!(
        node_power_descriptor.current_power_source_level(),
        CurrentPowerSourceLevel::TwoThirds
    );
}

#[test]
fn creating_node_power_descriptor_should_fail() {
    let current_power_mode = CurrentPowerMode::Synchronized;
    let available_power_sources =
        AvailablePowerSources::new(power_source_bits(&[AvailablePowerSourcesFlag::ConstantMainPower]));
    let current_power_source = CurrentPowerSource::DisposableBattery;
    let current_power_source_level = CurrentPowerSourceLevel::TwoThirds;

    let node_power_descriptor = NodePowerDescriptor::new(
        current_power_mode,
        available_power_sources,
        current_power_source,
        current_power_source_level,
    );

    assert!(node_power_descriptor.is_err());
    assert_eq!(node_power_descriptor.unwrap_err(), Error::CurrentPowerSourceNotAvailable);
}

#[test]
fn power_codes_read_back() {
    assert_eq!(CurrentPowerMode::from(2), CurrentPowerMode::Stimulated);
    assert_eq!(CurrentPowerMode::from(9), CurrentPowerMode::Reserved);
    assert_eq!(CurrentPowerSource::from(1), CurrentPowerSource::RechargeableBattery);
    assert_eq!(CurrentPowerSource::from(3), CurrentPowerSource::Reserved);
    assert_eq!(CurrentPowerSourceLevel::from(0b1100), CurrentPowerSourceLevel::Full);
    assert_eq!(CurrentPowerSourceLevel::from(0b0101), CurrentPowerSourceLevel::Reserved);
}
