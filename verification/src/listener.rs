//! The discovery loop as a machine.
//!
//! The loop itself belongs to the caller: it reads the socket, decodes handshake records and
//! runs the handler of found peers. Between two such pieces of work it asks the machine,
//! which keeps the phase and decides what each piece of work leads to. A phase tells the
//! caller what to do next: while listening, read a datagram; while decoding, decode the one
//! just read; while handling, run the handler on the peer the phase names.

use vstd::prelude::*;
use crate::address::IpAddress;
use crate::discovery::{
    classification, decoded_view, dialect, examine, examined, sniff, Dialect, Outcome,
    OutcomeView, PeerVersion, Rejection, RejectionView,
};
use crate::handshake::{HandshakePacket, HandshakePacketView, Identity, IdentityView};

verus! {

/// Where the loop stands, and with it what the caller is to do next.
#[derive(Clone, Debug, PartialEq, Eq)]
pub enum Phase {
    /// Read the next datagram.
    Listening,
    /// Decode the datagram just read, which this sender in the discovery group sent.
    Decoding(IpAddress),
    /// Run the handler on this peer. Nothing is read until it returns.
    Handling(IpAddress, Identity),
}

/// A `Phase` as a mathematical value.
pub enum PhaseView {
    Listening,
    Decoding(IpAddress),
    Handling(IpAddress, IdentityView),
}

impl View for Phase {
    type V = PhaseView;

    open spec fn view(&self) -> PhaseView {
        match self {
            Phase::Listening => PhaseView::Listening,
            Phase::Decoding(sender) => PhaseView::Decoding(*sender),
            Phase::Handling(address, identity) => PhaseView::Handling(*address, identity@),
        }
    }
}

/// What the caller's last piece of work gave.
#[derive(Debug)]
pub enum Event<'a> {
    /// Reading the socket failed.
    ReceiveFailed,
    /// A datagram with this content came from this sender.
    Received(IpAddress, &'a [u8]),
    /// Decoding the datagram gave this record, or none.
    Decoded(Option<HandshakePacket>),
    /// The handler returned.
    Handled,
}

/// An `Event` as a mathematical value.
pub enum EventView {
    ReceiveFailed,
    Received(IpAddress, Seq<u8>),
    Decoded(Option<HandshakePacketView>),
    Handled,
}

impl<'a> View for Event<'a> {
    type V = EventView;

    open spec fn view(&self) -> EventView {
        match self {
            Event::ReceiveFailed => EventView::ReceiveFailed,
            Event::Received(sender, payload) => EventView::Received(*sender, payload@),
            Event::Decoded(decoded) => EventView::Decoded(decoded_view(*decoded)),
            Event::Handled => EventView::Handled,
        }
    }
}

/// The view of what a step reports.
pub open spec fn report_view(report: Option<Rejection>) -> Option<RejectionView> {
    match report {
        Some(rejection) => Some(rejection@),
        None => None,
    }
}

/// Where an outcome leaves the loop, and what is reported of it: a found peer is handled,
/// a rejection is reported, and in every case but the first the loop listens again.
pub open spec fn concluded(outcome: OutcomeView) -> (PhaseView, Option<RejectionView>) {
    match outcome {
        OutcomeView::NoEvent => (PhaseView::Listening, None),
        OutcomeView::Rejected(rejection) => (PhaseView::Listening, Some(rejection)),
        OutcomeView::Found(address, identity) => (PhaseView::Handling(address, identity), None),
    }
}

/// The machine: the phase that follows, and what is reported, for each phase and event.
/// An event that the phase did not ask for changes nothing and reports nothing.
pub open spec fn next(phase: PhaseView, event: EventView, requirement: Seq<char>) -> (
    PhaseView,
    Option<RejectionView>,
) {
    match phase {
        PhaseView::Listening => match event {
            EventView::Received(sender, payload) => match dialect(
                sender.is_discovery_group(),
                payload,
            ) {
                Dialect::CurrentCandidate => (PhaseView::Decoding(sender), None),
                _ => concluded(classification(sender, payload, None, requirement)),
            },
            _ => (phase, None),
        },
        PhaseView::Decoding(sender) => match event {
            EventView::Decoded(decoded) => concluded(examined(sender, decoded, requirement)),
            _ => (phase, None),
        },
        PhaseView::Handling(_, _) => match event {
            EventView::Handled => (PhaseView::Listening, None),
            _ => (phase, None),
        },
    }
}

/// A datagram that is run through the machine comes to what its classification says: at
/// once where the sender is outside the discovery group, and after the decoding that the
/// machine asks for where it is inside.
pub proof fn lemma_machine_follows_classification(
    sender: IpAddress,
    payload: Seq<u8>,
    decoded: Option<HandshakePacketView>,
    requirement: Seq<char>,
)
    ensures
        ({
            let received = next(
                PhaseView::Listening,
                EventView::Received(sender, payload),
                requirement,
            );
            let outcome = classification(sender, payload, decoded, requirement);
            if sender.is_discovery_group() {
                &&& received == (PhaseView::Decoding(sender), None::<RejectionView>)
                &&& next(received.0, EventView::Decoded(decoded), requirement) == concluded(
                    outcome,
                )
            } else {
                received == concluded(outcome)
            }
        }),
{
}

/// The handler runs for found peers and for nothing else: the machine enters the handling
/// phase only from decoding, only on a record that `examined` finds, and with the address
/// and identity found.
pub proof fn lemma_handling_means_found(
    phase: PhaseView,
    event: EventView,
    requirement: Seq<char>,
)
    requires
        !(phase is Handling),
        next(phase, event, requirement).0 is Handling,
    ensures
        phase is Decoding,
        event is Decoded,
        examined(phase->Decoding_0, event->Decoded_0, requirement) == OutcomeView::Found(
            next(phase, event, requirement).0->Handling_0,
            next(phase, event, requirement).0->Handling_1,
        ),
        next(phase, event, requirement).1 is None,
{
}

/// While the handler runs nothing else happens: only its return moves the machine, and
/// then always back to listening, with nothing reported.
pub proof fn lemma_handling_ends_on_return(
    address: IpAddress,
    identity: IdentityView,
    event: EventView,
    requirement: Seq<char>,
)
    ensures
        next(PhaseView::Handling(address, identity), event, requirement) == if event is Handled {
            (PhaseView::Listening, None::<RejectionView>)
        } else {
            (PhaseView::Handling(address, identity), None::<RejectionView>)
        },
{
}

/// Whatever is reported, the loop goes on: after a report the machine listens again.
pub proof fn lemma_report_then_listen(phase: PhaseView, event: EventView, requirement: Seq<char>)
    requires
        next(phase, event, requirement).1 is Some,
    ensures
        next(phase, event, requirement).0 == PhaseView::Listening,
{
}

/// A datagram that is read, reported of in no way, and followed by listening is unrelated
/// traffic, and unrelated traffic always ends so.
pub proof fn lemma_silent_read_is_unrelated(
    sender: IpAddress,
    payload: Seq<u8>,
    requirement: Seq<char>,
)
    ensures
        next(PhaseView::Listening, EventView::Received(sender, payload), requirement) == (
            PhaseView::Listening,
            None::<RejectionView>,
        ) <==> dialect(sender.is_discovery_group(), payload) == Dialect::Unrelated,
{
}

/// A failed read is no event: the machine listens on and reports nothing.
pub proof fn lemma_receive_failure_is_no_event(requirement: Seq<char>)
    ensures
        next(PhaseView::Listening, EventView::ReceiveFailed, requirement) == (
            PhaseView::Listening,
            None::<RejectionView>,
        ),
{
}

/// A discovery loop between two pieces of the caller's work.
#[derive(Clone, Debug)]
pub struct Listener {
    phase: Phase,
    requirement: String,
}

/// A `Listener` as a mathematical value.
pub struct ListenerView {
    pub phase: PhaseView,
    pub requirement: Seq<char>,
}

impl View for Listener {
    type V = ListenerView;

    closed spec fn view(&self) -> ListenerView {
        ListenerView { phase: self.phase@, requirement: self.requirement@ }
    }
}

impl Listener {
    /// A loop that has read nothing yet and serves the versions that `requirement` admits.
    pub fn new(requirement: String) -> (listener: Listener)
        ensures
            listener@.phase == PhaseView::Listening,
            listener@.requirement == requirement@,
    {
        Listener { phase: Phase::Listening, requirement }
    }

    /// Where the loop stands.
    pub fn phase(&self) -> (phase: &Phase)
        ensures
            phase@ == self@.phase,
    {
        &self.phase
    }

    /// The versions this loop serves.
    pub fn requirement(&self) -> (requirement: &str)
        ensures
            requirement@ == self@.requirement,
    {
        self.requirement.as_str()
    }

    /// Takes what the caller's last piece of work gave, moves to the phase that follows, and
    /// returns what is to be reported, if anything.
    pub fn step(&mut self, event: Event<'_>) -> (report: Option<Rejection>)
        ensures
            (final(self)@.phase, report_view(report)) == next(
                old(self)@.phase,
                event@,
                old(self)@.requirement,
            ),
            final(self)@.requirement == old(self)@.requirement,
    {
        let outcome = match &self.phase {
            Phase::Listening => match event {
                Event::Received(sender, payload) => match sniff(&sender, payload) {
                    Dialect::Unrelated => Outcome::NoEvent,
                    Dialect::LegacyA => Outcome::Rejected(
                        Rejection::WrongVersion(PeerVersion::ElevenOrEarlier),
                    ),
                    Dialect::LegacyB => Outcome::Rejected(
                        Rejection::WrongVersion(PeerVersion::Twelve),
                    ),
                    Dialect::CurrentCandidate => {
                        self.phase = Phase::Decoding(sender);
                        return None;
                    },
                },
                _ => {
                    return None;
                },
            },
            Phase::Decoding(sender) => match event {
                Event::Decoded(decoded) => examine(*sender, decoded, self.requirement.as_str()),
                _ => {
                    return None;
                },
            },
            Phase::Handling(_, _) => match event {
                Event::Handled => Outcome::NoEvent,
                _ => {
                    return None;
                },
            },
        };
        match outcome {
            Outcome::NoEvent => {
                self.phase = Phase::Listening;
                None
            },
            Outcome::Rejected(rejection) => {
                self.phase = Phase::Listening;
                Some(rejection)
            },
            Outcome::Found(address, identity) => {
                self.phase = Phase::Handling(address, identity);
                None
            },
        }
    }
}

} // verus!
