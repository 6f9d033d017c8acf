use alvr_sockets::address::{
    local_ip, multicast_addr, IpAddress, CONTROL_PORT, MAX_HANDSHAKE_PACKET_SIZE_BYTES,
};

#[test]
fn protocol_constants() {
    assert_eq!(CONTROL_PORT, 9943);
    assert_eq!(MAX_HANDSHAKE_PACKET_SIZE_BYTES, 4000);
    assert_eq!(multicast_addr(), IpAddress::V4(224, 0, 0, 123));
    assert_eq!(local_ip(), IpAddress::V4(0, 0, 0, 0));
}

#[test]
fn only_the_group_is_the_group() {
    assert!(multicast_addr().is_discovery_group());
    assert!(!local_ip().is_discovery_group());
    assert!(!IpAddress::V4(224, 0, 0, 122).is_discovery_group());
    assert!(!IpAddress::V4(225, 0, 0, 123).is_discovery_group());
    assert!(!IpAddress::V6(0).is_discovery_group());
}
