//! Classification of one datagram: who sent it, what dialect it speaks, and whether the
//! peer behind it can be used.
//!
//! A datagram from outside the discovery group is only sniffed: its first bytes tell an old
//! peer from unrelated traffic, and nothing of it is decoded. A datagram from the group is
//! taken for a handshake record; the record is decoded by the caller and judged here.

use vstd::prelude::*;
use vstd::string::*;
use crate::address::IpAddress;
use crate::handshake::{HandshakePacket, HandshakePacketView, Identity, IdentityView, ALVR_NAME};
use crate::version::{compatibility, is_version_compatible, VersionParseError};

verus! {

/// The four bytes every generation of the protocol has opened its packets with: `ALVR`.
pub const PRODUCT_MAGIC: [u8; 4] = [0x41, 0x4c, 0x56, 0x52];

/// How peers of major version 11 and before open their packets: a tag byte, then the magic.
pub const LEGACY_MARKER: [u8; 5] = [0x01, 0x41, 0x4c, 0x56, 0x52];

/// What the sender and the first bytes of a datagram tell of it, before anything is decoded.
#[derive(Clone, Copy, Debug, PartialEq, Eq, Structural)]
pub enum Dialect {
    /// Not from the discovery group and not opening like any generation of the protocol.
    Unrelated,
    /// Not from the discovery group, opening with the legacy marker: major version 11 or before.
    LegacyA,
    /// Not from the discovery group, opening with the bare magic: major version 12.
    LegacyB,
    /// From the discovery group: to be decoded as a handshake record.
    CurrentCandidate,
}

/// The dialect of a datagram with this content, sent from the discovery group or not.
pub open spec fn dialect(from_group: bool, payload: Seq<u8>) -> Dialect {
    if from_group {
        Dialect::CurrentCandidate
    } else if LEGACY_MARKER@.is_prefix_of(payload) {
        Dialect::LegacyA
    } else if PRODUCT_MAGIC@.is_prefix_of(payload) {
        Dialect::LegacyB
    } else {
        Dialect::Unrelated
    }
}

/// No payload opens both ways: the legacy marker begins with its tag, the magic with a letter.
pub proof fn lemma_markers_exclude_each_other(payload: Seq<u8>)
    ensures
        !(LEGACY_MARKER@.is_prefix_of(payload) && PRODUCT_MAGIC@.is_prefix_of(payload)),
{
    if LEGACY_MARKER@.is_prefix_of(payload) && PRODUCT_MAGIC@.is_prefix_of(payload) {
        assert(payload.subrange(0, 5)[0] == LEGACY_MARKER@[0]);
        assert(payload.subrange(0, 4)[0] == PRODUCT_MAGIC@[0]);
    }
}

/// Whether `data` begins with `prefix`. Data shorter than the prefix does not.
pub fn starts_with(data: &[u8], prefix: &[u8]) -> (yes: bool)
    ensures
        yes == prefix@.is_prefix_of(data@),
{
    if prefix.len() > data.len() {
        return false;
    }
    let mut i: usize = 0;
    while i < prefix.len()
        invariant
            i <= prefix.len() <= data.len(),
            forall|j: int| 0 <= j < i ==> data@[j] == prefix@[j],
        decreases prefix.len() - i,
    {
        if data[i] != prefix[i] {
            assert(data@.subrange(0, prefix@.len() as int)[i as int] != prefix@[i as int]);
            return false;
        }
        i += 1;
    }
    assert(prefix@ =~= data@.subrange(0, prefix@.len() as int));
    true
}

/// Tells the dialect of a datagram from its sender and its first bytes.
pub fn sniff(sender: &IpAddress, payload: &[u8]) -> (found: Dialect)
    ensures
        found == dialect(sender.is_discovery_group(), payload@),
{
    if sender.is_discovery_group() {
        Dialect::CurrentCandidate
    } else if starts_with(payload, LEGACY_MARKER.as_slice()) {
        Dialect::LegacyA
    } else if starts_with(payload, PRODUCT_MAGIC.as_slice()) {
        Dialect::LegacyB
    } else {
        Dialect::Unrelated
    }
}

/// The version of a peer that was turned away for it.
#[derive(Clone, Debug, PartialEq, Eq)]
pub enum PeerVersion {
    /// Major version 11 or before, told by the legacy marker.
    ElevenOrEarlier,
    /// Major version 12, told by the bare magic.
    Twelve,
    /// The version the peer declared in its handshake record, as it wrote it.
    Declared(String),
}

/// A `PeerVersion` as a mathematical value.
pub enum PeerVersionView {
    ElevenOrEarlier,
    Twelve,
    Declared(Seq<char>),
}

impl View for PeerVersion {
    type V = PeerVersionView;

    open spec fn view(&self) -> PeerVersionView {
        match self {
            PeerVersion::ElevenOrEarlier => PeerVersionView::ElevenOrEarlier,
            PeerVersion::Twelve => PeerVersionView::Twelve,
            PeerVersion::Declared(text) => PeerVersionView::Declared(text@),
        }
    }
}

/// How a peer's version is named in a report: the two old generations by the range they
/// cover, a declared version by its own text.
pub open spec fn described(version: PeerVersionView) -> Seq<char> {
    match version {
        PeerVersionView::ElevenOrEarlier => "11 or previous"@,
        PeerVersionView::Twelve => "12.x.x"@,
        PeerVersionView::Declared(text) => text,
    }
}

impl PeerVersion {
    /// The version as a report names it.
    pub fn describe(&self) -> (text: String)
        ensures
            text@ == described(self@),
    {
        match self {
            PeerVersion::ElevenOrEarlier => String::from_str("11 or previous"),
            PeerVersion::Twelve => String::from_str("12.x.x"),
            PeerVersion::Declared(text) => text.clone(),
        }
    }
}

/// Why a datagram that came from a peer, or may have, led to nothing. Each is reported and
/// none ends the loop.
#[derive(Clone, Debug, PartialEq, Eq)]
pub enum Rejection {
    /// A peer was found, of a version that cannot be served.
    WrongVersion(PeerVersion),
    /// The datagram came from the discovery group and is no usable handshake record: it did
    /// not decode, names another product, or carries no identity.
    Invalid,
    /// The peer's version could not be judged.
    VersionCheck(VersionParseError),
}

/// A `Rejection` as a mathematical value.
pub enum RejectionView {
    WrongVersion(PeerVersionView),
    Invalid,
    VersionCheck(VersionParseError),
}

impl View for Rejection {
    type V = RejectionView;

    open spec fn view(&self) -> RejectionView {
        match self {
            Rejection::WrongVersion(version) => RejectionView::WrongVersion(version@),
            Rejection::Invalid => RejectionView::Invalid,
            Rejection::VersionCheck(error) => RejectionView::VersionCheck(*error),
        }
    }
}

/// What one datagram comes to.
#[derive(Clone, Debug, PartialEq, Eq)]
pub enum Outcome {
    /// Unrelated traffic: dropped without a word.
    NoEvent,
    /// Reported, then dropped.
    Rejected(Rejection),
    /// A compatible peer with credentials, at this address.
    Found(IpAddress, Identity),
}

/// An `Outcome` as a mathematical value.
pub enum OutcomeView {
    NoEvent,
    Rejected(RejectionView),
    Found(IpAddress, IdentityView),
}

impl View for Outcome {
    type V = OutcomeView;

    open spec fn view(&self) -> OutcomeView {
        match self {
            Outcome::NoEvent => OutcomeView::NoEvent,
            Outcome::Rejected(rejection) => OutcomeView::Rejected(rejection@),
            Outcome::Found(address, identity) => OutcomeView::Found(*address, identity@),
        }
    }
}

/// The outcome reported for a peer that was turned away for its version.
pub open spec fn wrong_version(version: PeerVersionView) -> OutcomeView {
    OutcomeView::Rejected(RejectionView::WrongVersion(version))
}

/// The outcome reported for a datagram that is no usable handshake record.
pub open spec fn invalid() -> OutcomeView {
    OutcomeView::Rejected(RejectionView::Invalid)
}

/// What a record that names this product comes to, once its version has been judged:
/// the judgement decides first, the identity second.
pub open spec fn settled(
    sender: IpAddress,
    packet: HandshakePacketView,
    verdict: Result<bool, VersionParseError>,
) -> OutcomeView {
    match verdict {
        Err(error) => OutcomeView::Rejected(RejectionView::VersionCheck(error)),
        Ok(false) => wrong_version(PeerVersionView::Declared(packet.version)),
        Ok(true) => match packet.identity {
            None => invalid(),
            Some(identity) => OutcomeView::Found(sender, identity),
        },
    }
}

/// What a datagram from the discovery group comes to, given what decoding it gave: `None`
/// where it did not decode.
pub open spec fn examined(
    sender: IpAddress,
    decoded: Option<HandshakePacketView>,
    requirement: Seq<char>,
) -> OutcomeView {
    match decoded {
        None => invalid(),
        Some(packet) => if packet.alvr_name != ALVR_NAME@ {
            invalid()
        } else {
            settled(sender, packet, compatibility(packet.version, requirement))
        },
    }
}

/// What a datagram comes to. `decoded` is what decoding the payload as a handshake record
/// gives; it is looked at for a sender in the discovery group and for no other.
pub open spec fn classification(
    sender: IpAddress,
    payload: Seq<u8>,
    decoded: Option<HandshakePacketView>,
    requirement: Seq<char>,
) -> OutcomeView {
    match dialect(sender.is_discovery_group(), payload) {
        Dialect::Unrelated => OutcomeView::NoEvent,
        Dialect::LegacyA => wrong_version(PeerVersionView::ElevenOrEarlier),
        Dialect::LegacyB => wrong_version(PeerVersionView::Twelve),
        Dialect::CurrentCandidate => examined(sender, decoded, requirement),
    }
}

/// The view of what decoding gave.
pub open spec fn decoded_view(decoded: Option<HandshakePacket>) -> Option<HandshakePacketView> {
    match decoded {
        Some(packet) => Some(packet@),
        None => None,
    }
}

/// Settles a record that names this product, given the judgement of its version.
///
/// A judgement that failed is passed on as it is; an incompatible peer is turned away with
/// the version it declared, whether or not it has an identity; a compatible one is found if
/// it has an identity and is invalid without.
pub fn settle(sender: IpAddress, packet: HandshakePacket, verdict: Result<
    bool,
    VersionParseError,
>) -> (outcome: Outcome)
    ensures
        outcome@ == settled(sender, packet@, verdict),
{
    match verdict {
        Err(error) => Outcome::Rejected(Rejection::VersionCheck(error)),
        Ok(false) => Outcome::Rejected(Rejection::WrongVersion(PeerVersion::Declared(packet.version))),
        Ok(true) => match packet.identity {
            None => Outcome::Rejected(Rejection::Invalid),
            Some(identity) => Outcome::Found(sender, identity),
        },
    }
}

/// Judges what decoding a datagram from the discovery group gave.
///
/// No record, or one that names another product, is invalid. Otherwise the record's version
/// is held against `requirement` and the record settled by the answer.
pub fn examine(sender: IpAddress, decoded: Option<HandshakePacket>, requirement: &str) -> (outcome:
    Outcome)
    ensures
        outcome@ == examined(sender, decoded_view(decoded), requirement@),
{
    match decoded {
        None => Outcome::Rejected(Rejection::Invalid),
        Some(packet) => {
            if !packet.names_product() {
                Outcome::Rejected(Rejection::Invalid)
            } else {
                let verdict = is_version_compatible(packet.version.as_str(), requirement);
                settle(sender, packet, verdict)
            }
        },
    }
}

/// Classifies one datagram.
///
/// `payload` is the datagram as received, `sender` where it came from, `decoded` what
/// decoding the payload as a handshake record gives (`None` where it does not decode), and
/// `requirement` the versions this side serves.
///
/// The first clause says it all; the others spell it out case by case. A sender outside the
/// discovery group is judged by the first bytes of the payload and by nothing else, whatever
/// decoding would give. A sender inside is judged by the record: its product name first,
/// then its version, then its identity.
pub fn classify_datagram(
    sender: IpAddress,
    payload: &[u8],
    decoded: Option<HandshakePacket>,
    requirement: &str,
) -> (outcome: Outcome)
    ensures
        outcome@ == classification(sender, payload@, decoded_view(decoded), requirement@),
        !sender.is_discovery_group() && LEGACY_MARKER@.is_prefix_of(payload@) ==> outcome@
            == wrong_version(PeerVersionView::ElevenOrEarlier),
        !sender.is_discovery_group() && PRODUCT_MAGIC@.is_prefix_of(payload@)
            && !LEGACY_MARKER@.is_prefix_of(payload@) ==> outcome@ == wrong_version(
            PeerVersionView::Twelve,
        ),
        !sender.is_discovery_group() && !LEGACY_MARKER@.is_prefix_of(payload@)
            && !PRODUCT_MAGIC@.is_prefix_of(payload@) ==> outcome@ == OutcomeView::NoEvent,
        sender.is_discovery_group() && decoded is None ==> outcome@ == invalid(),
        sender.is_discovery_group() ==> (decoded matches Some(packet) ==> {
            let verdict = compatibility(packet.version@, requirement@);
            &&& !packet.names_product() ==> outcome@ == invalid()
            &&& packet.names_product() && verdict is Err ==> outcome@ == OutcomeView::Rejected(
                RejectionView::VersionCheck(verdict->Err_0),
            )
            &&& packet.names_product() && verdict == Ok::<bool, VersionParseError>(false)
                ==> outcome@ == wrong_version(PeerVersionView::Declared(packet.version@))
            &&& packet.names_product() && verdict == Ok::<bool, VersionParseError>(true)
                && packet.identity is None ==> outcome@ == invalid()
            &&& packet.names_product() && verdict == Ok::<bool, VersionParseError>(true)
                ==> (packet.identity matches Some(identity) ==> outcome@ == OutcomeView::Found(
                sender,
                identity@,
            ))
        }),
        // A peer is found for no other datagram.
        outcome is Found ==> sender.is_discovery_group() && (decoded matches Some(packet)
            && packet.names_product() && packet.identity is Some && compatibility(
            packet.version@,
            requirement@,
        ) == Ok::<bool, VersionParseError>(true)),
{
    match sniff(&sender, payload) {
        Dialect::Unrelated => Outcome::NoEvent,
        Dialect::LegacyA => Outcome::Rejected(Rejection::WrongVersion(PeerVersion::ElevenOrEarlier)),
        Dialect::LegacyB => Outcome::Rejected(Rejection::WrongVersion(PeerVersion::Twelve)),
        Dialect::CurrentCandidate => examine(sender, decoded, requirement),
    }
}

} // verus!
