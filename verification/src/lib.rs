//! Peer discovery and session bootstrap for a server and a headset on one local network.
//!
//! The crate decides, it does not talk: a caller owns the socket, the decoder of handshake
//! records and the handler of found peers, and hands what they produce to the functions here.
//!
//! * [`address`]: addresses as plain values, and the constants of the discovery protocol.
//! * [`version`]: the compatibility predicate on version strings.
//! * [`handshake`]: the handshake record and the identity it carries.
//! * [`discovery`]: classification of one datagram.
//! * [`listener`]: the discovery loop as a machine from phase and event to next phase.
//! * [`decimal`]: numbers written in decimal, for host names.
//! * [`certificate`]: the self-signed certificate that secures the control channel.

pub mod address;
pub mod version;
pub mod handshake;
pub mod discovery;
pub mod listener;
pub mod decimal;
pub mod certificate;
