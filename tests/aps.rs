use zigbee::aps::apsde::{Apsde, ApsdeSapConfirmStatus, ApsdeSapRequest};
use zigbee::aps::apsme::basemgt::{
    ApsmeBindRequest, ApsmeBindRequestStatus, ApsmeGetConfirmStatus, ApsmeSetConfirmStatus,
    ApsmeUnbindRequest, ApsmeUnbindRequestStatus,
};
use zigbee::aps::aib::AIBAttribute;
use zigbee::aps::apsme::{Apsme, ApsmeSap};
use zigbee::aps::types::{Address, DstAddrMode, SrcEndpoint};
use zigbee::support;

#[test]
fn valid_value_should_succeed() {
    let src_endpoint = SrcEndpoint::new(254);
    assert!(src_endpoint.is_ok());
}

#[test]
fn mod_oversized_value_should_fail() {
    let src_endpoint = SrcEndpoint::new(255);
    assert!(src_endpoint.is_err());

    let src_endpoint = support::SrcEndpoint::new(101);
    assert!(src_endpoint.is_err());
}

#[test]
fn undersized_value_should_fail() {
    let src_endpoint = support::SrcEndpoint::new(1);
    assert!(src_endpoint.is_err());
}

#[test]
fn bounded_endpoint_range_edges() {
    assert_eq!(support::SrcEndpoint::new(2).unwrap().value(), 2);
    assert_eq!(support::SrcEndpoint::new(100).unwrap().value(), 100);
    assert!(support::SrcEndpoint::new(0).is_err());
    assert_eq!(SrcEndpoint::new(0).unwrap().value(), 0);
}

fn bind_request(src: u64) -> ApsmeBindRequest {
    ApsmeBindRequest {
        src_address: Address::Extended(src),
        src_endpoint: SrcEndpoint::new(10).unwrap_or(SrcEndpoint { value: 0 }),
        cluster_id: 1u16,
        dst_addr_mode: 0u8,
        dst_address: 1u8,
        dst_endpoint: 2u8,
    }
}

#[test]
fn bind_request_device_does_not_support_binding_should_fail() {
    let mut apsme = Apsme::new();
    apsme.supports_binding_table = false;
    let result = apsme.bind_request(bind_request(0));
    assert_eq!(result.status, ApsmeBindRequestStatus::IllegalRequest);
}

#[test]
fn bind_request_from_an_unjoined_device_should_fail() {
    let mut apsme = Apsme::new();
    let result = apsme.bind_request(bind_request(0));
    assert_eq!(result.status, ApsmeBindRequestStatus::IllegalRequest);
}

#[test]
fn bind_request_with_full_table_should_fail() {
    let mut apsme = Apsme::new();
    apsme.joined_network = Some(Address::Extended(10u64));
    for n in 0..265u64 {
        let _ = apsme.bind_request(bind_request(n));
    }
    let result = apsme.bind_request(bind_request(999));
    assert_eq!(result.status, ApsmeBindRequestStatus::TableFull);
}

#[test]
fn bind_request_with_valid_request_should_succeed() {
    let mut apsme = Apsme::new();
    apsme.joined_network = Some(Address::Extended(10u64));
    let result = apsme.bind_request(bind_request(999));
    assert_eq!(result.status, ApsmeBindRequestStatus::Success);
    assert_eq!(result.src_address, Address::Extended(999));
    assert_eq!(result.dst_endpoint, 2);
}

#[test]
fn unbind_request_statuses() {
    let request = ApsmeUnbindRequest {
        src_address: Address::Extended(1),
        src_endpoint: SrcEndpoint { value: 3 },
        cluster_id: 6,
        dst_addr_mode: 0,
        dst_address: 1,
        dst_endpoint: 2,
    };
    let mut apsme = Apsme::new();
    assert_eq!(apsme.unbind_request(request).status, ApsmeUnbindRequestStatus::IllegalRequest);
    apsme.joined_network = Some(Address::Network(0x1234));
    let confirm = apsme.unbind_request(request);
    assert_eq!(confirm.status, ApsmeUnbindRequestStatus::InvalidBinding);
    assert_eq!(confirm.cluster_id, 6);
}

#[test]
fn get_and_set_attributes() {
    let mut apsme = Apsme::new();
    let confirm = apsme.get(0xc4);
    assert_eq!(confirm.status, ApsmeGetConfirmStatus::UnsupportedAttribute);
    assert_eq!(confirm.attribute, 0xc4);
    assert_eq!(confirm.attribute_value, None);
    let confirm = apsme.set(AIBAttribute::ApsUseExtendedPanId(7));
    assert_eq!(confirm.status, ApsmeSetConfirmStatus::Success);
    assert_eq!(confirm.identifier, 0xc4);
}

#[test]
fn attribute_identifiers_and_values() {
    assert_eq!(AIBAttribute::ApsBindingTable.id(), 0xc1);
    assert_eq!(AIBAttribute::ApsUseInsecureJoin(true).id(), 0xc8);
    assert_eq!(AIBAttribute::ApsParentAnnounceTimer(1).id(), 0xce);
    assert_eq!(
        AIBAttribute::ApsUseExtendedPanId(0x0102_0304_0506_0708).value(),
        [8, 7, 6, 5, 4, 3, 2, 1]
    );
    assert_eq!(AIBAttribute::ApsMaxWindowSize(5).value(), [0; 8]);
    assert_eq!(AIBAttribute::ApsMaxWindowSize(5).length(), 0);
}

#[test]
fn data_request_status() {
    let apsde = Apsde { supports_binding_table: true };
    let request = ApsdeSapRequest { dst_endpoint: 4, ..Default::default() };
    let confirm = apsde.data_request(request);
    assert_eq!(confirm.status, ApsdeSapConfirmStatus::Success);
    assert_eq!(confirm.dst_endpoint, 4);
    let request = ApsdeSapRequest { dst_addr_mode: DstAddrMode::Group, ..Default::default() };
    assert_eq!(apsde.data_request(request).status, ApsdeSapConfirmStatus::NoAck);
    let apsde = Apsde { supports_binding_table: false };
    assert_eq!(apsde.data_request(ApsdeSapRequest::default()).status, ApsdeSapConfirmStatus::NoAck);
}
