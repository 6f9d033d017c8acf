use alvr_sockets::address::{multicast_addr, IpAddress};
use alvr_sockets::discovery::{
    classify_datagram, examine, settle, sniff, starts_with, Dialect, Outcome, PeerVersion,
    Rejection, LEGACY_MARKER, PRODUCT_MAGIC,
};
use alvr_sockets::handshake::{HandshakePacket, Identity, ALVR_NAME};
use alvr_sockets::version::VersionParseError;
use serde_cbor::Value;
use std::collections::BTreeMap;

const REQUIREMENT: &str = "20.*";

fn stranger() -> IpAddress {
    IpAddress::V4(192, 168, 1, 20)
}

fn identity() -> Identity {
    Identity { hostname: "dev1".to_string(), certificate_pem: "-----BEGIN CERTIFICATE-----".to_string() }
}

fn packet(name: &str, version: &str, identity: Option<Identity>) -> HandshakePacket {
    HandshakePacket { alvr_name: name.to_string(), version: version.to_string(), identity }
}

fn text(value: &str) -> Value {
    Value::Text(value.to_string())
}

/// A handshake record as a peer puts it on the wire.
fn encode(name: &str, version: &str, identity: Option<&Identity>) -> Vec<u8> {
    let mut record = BTreeMap::new();
    record.insert(text("alvr_name"), text(name));
    record.insert(text("version"), text(version));
    let identity = match identity {
        Some(identity) => {
            let mut fields = BTreeMap::new();
            fields.insert(text("hostname"), text(&identity.hostname));
            fields.insert(text("certificate_pem"), text(&identity.certificate_pem));
            Value::Map(fields)
        }
        None => Value::Null,
    };
    record.insert(text("identity"), identity);
    serde_cbor::to_vec(&Value::Map(record)).unwrap()
}

fn field<'a>(map: &'a BTreeMap<Value, Value>, key: &str) -> Option<&'a Value> {
    map.get(&text(key))
}

fn as_text(value: Option<&Value>) -> Option<String> {
    match value {
        Some(Value::Text(text)) => Some(text.clone()),
        _ => None,
    }
}

/// Reads a handshake record off the wire, as the caller of the library does.
fn decode(payload: &[u8]) -> Option<HandshakePacket> {
    let record = match serde_cbor::from_slice::<Value>(payload) {
        Ok(Value::Map(record)) => record,
        _ => return None,
    };
    let identity = match field(&record, "identity") {
        None | Some(Value::Null) => None,
        Some(Value::Map(fields)) => Some(Identity {
            hostname: as_text(field(fields, "hostname"))?,
            certificate_pem: as_text(field(fields, "certificate_pem"))?,
        }),
        Some(_) => return None,
    };
    Some(HandshakePacket {
        alvr_name: as_text(field(&record, "alvr_name"))?,
        version: as_text(field(&record, "version"))?,
        identity,
    })
}

fn wrong_version(version: PeerVersion) -> Outcome {
    Outcome::Rejected(Rejection::WrongVersion(version))
}

fn invalid() -> Outcome {
    Outcome::Rejected(Rejection::Invalid)
}

#[test]
fn markers_spell_the_product_name() {
    assert_eq!(&PRODUCT_MAGIC[..], ALVR_NAME.as_bytes());
    assert_eq!(&PRODUCT_MAGIC[..], b"ALVR");
    assert_eq!(&LEGACY_MARKER[..], b"\x01ALVR");
}

#[test]
fn starts_with_compares_the_leading_bytes() {
    assert!(starts_with(b"ALVR and more", b"ALVR"));
    assert!(starts_with(b"ALVR", b"ALVR"));
    assert!(starts_with(b"anything", b""));
    assert!(starts_with(b"", b""));
    assert!(!starts_with(b"ALV", b"ALVR"));
    assert!(!starts_with(b"", b"A"));
    assert!(!starts_with(b"ALVX", b"ALVR"));
    assert!(!starts_with(b"xALVR", b"ALVR"));
}

#[test]
fn sniff_tells_the_four_dialects() {
    assert_eq!(sniff(&stranger(), b"\x01ALVR\x00\x00"), Dialect::LegacyA);
    assert_eq!(sniff(&stranger(), b"ALVR\x00\x00"), Dialect::LegacyB);
    assert_eq!(sniff(&stranger(), b"hello"), Dialect::Unrelated);
    assert_eq!(sniff(&multicast_addr(), b"hello"), Dialect::CurrentCandidate);
    assert_eq!(sniff(&multicast_addr(), b"\x01ALVR"), Dialect::CurrentCandidate);
    assert_eq!(sniff(&multicast_addr(), b"ALVR"), Dialect::CurrentCandidate);
}

#[test]
fn sniff_needs_the_whole_marker() {
    assert_eq!(sniff(&stranger(), b"\x01ALV"), Dialect::Unrelated);
    assert_eq!(sniff(&stranger(), b"ALV"), Dialect::Unrelated);
    assert_eq!(sniff(&stranger(), b""), Dialect::Unrelated);
    assert_eq!(sniff(&stranger(), b"\x01ALVR"), Dialect::LegacyA);
    assert_eq!(sniff(&stranger(), b"ALVR"), Dialect::LegacyB);
    assert_eq!(sniff(&stranger(), b"\x02ALVR"), Dialect::Unrelated);
}

#[test]
fn an_ipv6_sender_is_never_the_group() {
    let mapped = IpAddress::V6(0x0000_0000_0000_0000_0000_ffff_e000_007b);
    assert!(!mapped.is_discovery_group());
    assert_eq!(sniff(&mapped, b"ALVR"), Dialect::LegacyB);
    assert!(multicast_addr().is_discovery_group());
    assert!(!IpAddress::V4(224, 0, 0, 124).is_discovery_group());
}

#[test]
fn legacy_marker_from_a_stranger_is_version_eleven_or_earlier() {
    for decoded in [None, Some(packet(ALVR_NAME, "20.1.0", Some(identity())))] {
        let outcome = classify_datagram(stranger(), b"\x01ALVR rest", decoded, REQUIREMENT);
        assert_eq!(outcome, wrong_version(PeerVersion::ElevenOrEarlier));
    }
}

#[test]
fn bare_magic_from_a_stranger_is_version_twelve() {
    for decoded in [None, Some(packet(ALVR_NAME, "20.1.0", Some(identity())))] {
        let outcome = classify_datagram(stranger(), b"ALVR rest", decoded, REQUIREMENT);
        assert_eq!(outcome, wrong_version(PeerVersion::Twelve));
    }
}

#[test]
fn other_traffic_from_a_stranger_is_no_event() {
    let payload = encode(ALVR_NAME, "20.1.0", Some(&identity()));
    let decoded = decode(&payload);
    assert!(decoded.is_some());
    assert_eq!(classify_datagram(stranger(), &payload, decoded, REQUIREMENT), Outcome::NoEvent);
    assert_eq!(classify_datagram(stranger(), b"", None, REQUIREMENT), Outcome::NoEvent);
    assert_eq!(classify_datagram(stranger(), b"\xff\xff", None, REQUIREMENT), Outcome::NoEvent);
}

#[test]
fn undecodable_datagram_from_the_group_is_invalid() {
    let payload = b"\x01ALVR";
    assert_eq!(decode(payload), None);
    assert_eq!(classify_datagram(multicast_addr(), payload, decode(payload), REQUIREMENT), invalid());
    assert_eq!(classify_datagram(multicast_addr(), b"", None, REQUIREMENT), invalid());
}

#[test]
fn another_product_is_invalid() {
    for name in ["alvr", "ALVR ", "", "OTHER"] {
        let decoded = Some(packet(name, "20.1.0", Some(identity())));
        assert_eq!(classify_datagram(multicast_addr(), b"", decoded, REQUIREMENT), invalid());
    }
}

#[test]
fn another_product_is_invalid_before_its_version_is_read() {
    let decoded = Some(packet("OTHER", "not a version", Some(identity())));
    assert_eq!(classify_datagram(multicast_addr(), b"", decoded, REQUIREMENT), invalid());
}

#[test]
fn incompatible_version_is_reported_as_declared() {
    let decoded = Some(packet(ALVR_NAME, "9.0.0", Some(identity())));
    let outcome = classify_datagram(multicast_addr(), b"", decoded, REQUIREMENT);
    assert_eq!(outcome, wrong_version(PeerVersion::Declared("9.0.0".to_string())));
}

#[test]
fn incompatible_version_is_reported_even_without_identity() {
    let decoded = Some(packet(ALVR_NAME, "21.0.0", None));
    let outcome = classify_datagram(multicast_addr(), b"", decoded, REQUIREMENT);
    assert_eq!(outcome, wrong_version(PeerVersion::Declared("21.0.0".to_string())));
}

#[test]
fn compatible_peer_without_identity_is_invalid() {
    let decoded = Some(packet(ALVR_NAME, "20.1.0", None));
    assert_eq!(classify_datagram(multicast_addr(), b"", decoded, REQUIREMENT), invalid());
}

#[test]
fn compatible_peer_with_identity_is_found() {
    let decoded = Some(packet(ALVR_NAME, "20.1.0", Some(identity())));
    let outcome = classify_datagram(multicast_addr(), b"", decoded, REQUIREMENT);
    assert_eq!(outcome, Outcome::Found(IpAddress::V4(224, 0, 0, 123), identity()));
}

#[test]
fn unreadable_version_is_an_error_of_its_own() {
    let decoded = Some(packet(ALVR_NAME, "twenty", Some(identity())));
    let outcome = classify_datagram(multicast_addr(), b"", decoded, REQUIREMENT);
    assert_eq!(outcome, Outcome::Rejected(Rejection::VersionCheck(VersionParseError::Version)));
}

#[test]
fn unreadable_requirement_is_an_error_of_its_own() {
    let decoded = Some(packet(ALVR_NAME, "20.1.0", Some(identity())));
    let outcome = classify_datagram(multicast_addr(), b"", decoded, "@20");
    assert_eq!(outcome, Outcome::Rejected(Rejection::VersionCheck(VersionParseError::Requirement)));
}

#[test]
fn examine_judges_name_then_version_then_identity() {
    let group = multicast_addr();
    assert_eq!(examine(group, None, REQUIREMENT), invalid());
    assert_eq!(examine(group, Some(packet("X", "9.0.0", None)), REQUIREMENT), invalid());
    assert_eq!(
        examine(group, Some(packet(ALVR_NAME, "9.0.0", None)), REQUIREMENT),
        wrong_version(PeerVersion::Declared("9.0.0".to_string()))
    );
    assert_eq!(examine(group, Some(packet(ALVR_NAME, "20.0.0", None)), REQUIREMENT), invalid());
    assert_eq!(
        examine(group, Some(packet(ALVR_NAME, "20.0.0", Some(identity()))), REQUIREMENT),
        Outcome::Found(group, identity())
    );
}

#[test]
fn settle_follows_the_verdict() {
    let sender = IpAddress::V4(10, 0, 0, 7);
    let full = packet(ALVR_NAME, "1.2.3", Some(identity()));
    assert_eq!(settle(sender, full.clone(), Ok(true)), Outcome::Found(sender, identity()));
    assert_eq!(
        settle(sender, full.clone(), Ok(false)),
        wrong_version(PeerVersion::Declared("1.2.3".to_string()))
    );
    assert_eq!(
        settle(sender, full, Err(VersionParseError::Version)),
        Outcome::Rejected(Rejection::VersionCheck(VersionParseError::Version))
    );
    assert_eq!(settle(sender, packet(ALVR_NAME, "1.2.3", None), Ok(true)), invalid());
}

#[test]
fn peer_versions_are_described() {
    assert_eq!(PeerVersion::ElevenOrEarlier.describe(), "11 or previous");
    assert_eq!(PeerVersion::Twelve.describe(), "12.x.x");
    assert_eq!(PeerVersion::Declared("9.0.0".to_string()).describe(), "9.0.0");
}

#[test]
fn handshake_from_the_group_end_to_end() {
    let payload = encode(ALVR_NAME, "20.1.0", Some(&identity()));
    let outcome = classify_datagram(multicast_addr(), &payload, decode(&payload), "20.*");
    assert_eq!(outcome, Outcome::Found(multicast_addr(), identity()));

    let payload = encode(ALVR_NAME, "9.0.0", Some(&identity()));
    let outcome = classify_datagram(multicast_addr(), &payload, decode(&payload), "20.*");
    assert_eq!(outcome, wrong_version(PeerVersion::Declared("9.0.0".to_string())));
    match outcome {
        Outcome::Rejected(Rejection::WrongVersion(version)) => assert_eq!(version.describe(), "9.0.0"),
        _ => unreachable!(),
    }
}

#[test]
fn record_names_its_product() {
    assert!(packet("ALVR", "1.0.0", None).names_product());
    assert!(!packet("ALVr", "1.0.0", None).names_product());
    assert!(!packet("ALVRR", "1.0.0", None).names_product());
}
