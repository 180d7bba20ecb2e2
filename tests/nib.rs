use zigbee::address::ShortAddress;
use zigbee::nwk::frame::MulticastControl;
use zigbee::nwk::nib::{NwkRoute, RouteStatus};
use zigbee::nwk::nlme::management::{NlmeJoinRequest, NlmeJoinStatus};
use zigbee::nwk::nlme::Nlme;
use zigbee::security::frame::SecurityControl;

fn route(status: u8) -> NwkRoute {
    NwkRoute {
        destination_address: ShortAddress(0x1234),
        next_hop_address: ShortAddress(0x0001),
        status,
    }
}

#[test]
fn route_status_codes() {
    assert_eq!(route(0).status(), RouteStatus::Active);
    assert_eq!(route(3).status(), RouteStatus::Inactive);
    assert_eq!(route(4).status(), RouteStatus::ValidationUnderway);
    assert_eq!(route(5).status(), RouteStatus::Reserved);
    assert_eq!(route(0b1111_1001).status(), RouteStatus::DiscoveryUnderway);
}

#[test]
fn route_flags() {
    let r = route(0b0101_0000);
    assert!(!r.no_route_cache());
    assert!(r.many_to_one());
    assert!(!r.route_record_required());
    assert!(r.group_id());
    let r = route(0b0010_1000);
    assert!(r.no_route_cache());
    assert!(!r.many_to_one());
    assert!(r.route_record_required());
    assert!(!r.group_id());
}

#[test]
fn join_is_refused() {
    let nlme = Nlme::new();
    let confirm = nlme.join(NlmeJoinRequest {
        extended_pan_id: 1,
        rejoin_network: 0,
        scan_duration: 10,
        security_enabled: false,
    });
    assert_eq!(confirm.status, NlmeJoinStatus::InvalidRequest);
    assert_eq!(confirm.network_address, 0);
}

#[test]
fn control_bytes_decode_at_position() {
    let raw = [0x00, 0b0100_1011, 0b0010_1000];
    let (mc, next) = MulticastControl::unpack_at(&raw, 1).unwrap();
    assert_eq!(next, 2);
    assert_eq!(mc, MulticastControl(0b0100_1011));
    assert_eq!(mc.non_member_radius(), 0b001);
    assert_eq!(mc.max_member_radius(), 0b11);
    let (sc, next) = SecurityControl::unpack_at(&raw, 2).unwrap();
    assert_eq!(next, 3);
    assert!(sc.is_network_key());
    assert!(sc.extended_nonce());
    assert!(MulticastControl::unpack_at(&raw, 3).is_err());
}
