//! The handshake record that a peer announces itself with, and the identity it carries.

use vstd::prelude::*;
use vstd::string::*;

verus! {

/// Name of the protocol family. A handshake record that names another one is not ours.
pub const ALVR_NAME: &'static str = "ALVR";

/// What a peer presents to secure the control channel: the name it goes by and its public
/// certificate. Discovery reads neither; it hands both on as they came.
#[derive(Clone, Debug, PartialEq, Eq)]
pub struct Identity {
    pub hostname: String,
    pub certificate_pem: String,
}

/// An `Identity` as a mathematical value.
pub struct IdentityView {
    pub hostname: Seq<char>,
    pub certificate_pem: Seq<char>,
}

impl View for Identity {
    type V = IdentityView;

    open spec fn view(&self) -> IdentityView {
        IdentityView { hostname: self.hostname@, certificate_pem: self.certificate_pem@ }
    }
}

/// The record a peer sends to the discovery group.
#[derive(Clone, Debug, PartialEq, Eq)]
pub struct HandshakePacket {
    /// The protocol family the peer speaks.
    pub alvr_name: String,
    /// The peer's own version, a semantic version if the peer is well behaved.
    pub version: String,
    /// Present once the peer has made its credentials; a peer without them cannot be used.
    pub identity: Option<Identity>,
}

/// A `HandshakePacket` as a mathematical value.
pub struct HandshakePacketView {
    pub alvr_name: Seq<char>,
    pub version: Seq<char>,
    pub identity: Option<IdentityView>,
}

impl View for HandshakePacket {
    type V = HandshakePacketView;

    open spec fn view(&self) -> HandshakePacketView {
        HandshakePacketView {
            alvr_name: self.alvr_name@,
            version: self.version@,
            identity: match self.identity {
                Some(identity) => Some(identity@),
                None => None,
            },
        }
    }
}

impl HandshakePacket {
    /// Whether the record names this protocol family, letter for letter.
    pub open spec fn spec_names_product(&self) -> bool {
        self.alvr_name@ == ALVR_NAME@
    }

    /// Whether the record names this protocol family, letter for letter.
    #[verifier::when_used_as_spec(spec_names_product)]
    pub fn names_product(&self) -> (yes: bool)
        ensures
            yes == self.spec_names_product(),
    {
        let expected = String::from_str(ALVR_NAME);
        self.alvr_name == expected
    }
}

} // verus!
