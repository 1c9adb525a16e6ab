//! Network addresses of a session: where to listen, and how to reach a peer
//! through a relay.
//!
//! An address is a `Multiaddr` of the networking stack. This module speaks of
//! one by the bytes it holds, which is all that two equal addresses share.

use libp2p::multiaddr::Protocol;
use libp2p::Multiaddr;
use libp2p::PeerId;
use vstd::prelude::*;

verus! {

/// The address type of the networking stack.
#[verifier::external_type_specification]
#[verifier::external_body]
pub struct ExMultiaddr(Multiaddr);

/// The peer identifier type of the networking stack.
#[verifier::external_type_specification]
#[verifier::external_body]
pub struct ExPeerId(PeerId);

/// The bytes that an address holds: what `Multiaddr::to_vec` returns.
pub uninterp spec fn multiaddr_bytes(address: Multiaddr) -> Seq<u8>;

/// What the text form of an address parses to: the bytes of the address, or
/// nothing where the text is no address.
pub uninterp spec fn parsed_multiaddr(text: Seq<char>) -> Option<Seq<u8>>;

/// The bytes of the address component that names a peer.
pub uninterp spec fn peer_component(peer: PeerId) -> Seq<u8>;

/// `Multiaddr::clone` gives an address equal to the one it was called on.
pub assume_specification[ <Multiaddr as Clone>::clone ](address: &Multiaddr) -> (copy: Multiaddr)
    ensures
        copy == *address,
;

/// Calls `Multiaddr::from_str`, through `str::parse`. Whether the text is an
/// address, and which, depends on the text alone. Of the error only its
/// message is kept, and nothing is said of it.
#[verifier::external_body]
fn parse_multiaddr(text: &str) -> (r: Result<Multiaddr, String>)
    ensures
        match r {
            Ok(address) => parsed_multiaddr(text@) == Some(multiaddr_bytes(address)),
            Err(_) => parsed_multiaddr(text@) is None,
        },
{
    match text.parse::<Multiaddr>() {
        Ok(address) => Ok(address),
        Err(error) => Err(error.to_string()),
    }
}

/// Calls `Multiaddr::with` with `Protocol::P2pCircuit`, which writes the
/// code of that protocol, 290 as an unsigned varint, behind the bytes of the
/// address. The component has no payload.
#[verifier::external_body]
fn with_circuit(address: Multiaddr) -> (r: Multiaddr)
    ensures
        multiaddr_bytes(r) == multiaddr_bytes(address) + circuit_marker(),
{
    address.with(Protocol::P2pCircuit)
}

/// Calls `Multiaddr::with` with `Protocol::P2p`, which writes the component
/// of the peer behind the bytes of the address.
#[verifier::external_body]
fn with_peer(address: Multiaddr, peer: PeerId) -> (r: Multiaddr)
    ensures
        multiaddr_bytes(r) == multiaddr_bytes(address) + peer_component(peer),
{
    address.with(Protocol::P2p(peer))
}

/// The transport over which a session runs.
#[derive(Clone, Copy, Debug, PartialEq, Eq, Structural)]
pub enum TransportMethod {
    Tcp,
    QuicV1,
}

/// The component that marks an address as a path through a relay.
pub open spec fn circuit_marker() -> Seq<u8> {
    seq![0xa2u8, 0x02u8]
}

/// The bytes of the address that reaches `relay`'s clients through it.
pub open spec fn circuit_bytes(relay: Seq<u8>) -> Seq<u8> {
    relay + circuit_marker()
}

/// The bytes of the address that reaches `target` through `relay`.
pub open spec fn circuit_to_peer_bytes(relay: Seq<u8>, target: PeerId) -> Seq<u8> {
    circuit_bytes(relay) + peer_component(target)
}

/// The text of the address that listens on every interface, on a port that
/// the system picks.
pub open spec fn listen_text(transport: TransportMethod) -> Seq<char> {
    match transport {
        TransportMethod::Tcp => "/ip4/0.0.0.0/tcp/0"@,
        TransportMethod::QuicV1 => "/ip4/0.0.0.0/udp/0/quic-v1"@,
    }
}

/// The text of the address to listen on for a transport.
pub fn listen_address_text(transport: TransportMethod) -> (text: &'static str)
    ensures
        text@ == listen_text(transport),
{
    match transport {
        TransportMethod::Tcp => "/ip4/0.0.0.0/tcp/0",
        TransportMethod::QuicV1 => "/ip4/0.0.0.0/udp/0/quic-v1",
    }
}

/// The address to listen on for a transport, or the message with which the
/// networking stack refused its text.
pub fn listen_address(transport: TransportMethod) -> (r: Result<Multiaddr, String>)
    ensures
        match r {
            Ok(address) => parsed_multiaddr(listen_text(transport)) == Some(
                multiaddr_bytes(address),
            ),
            Err(_) => parsed_multiaddr(listen_text(transport)) is None,
        },
{
    parse_multiaddr(listen_address_text(transport))
}

/// The address on which a responder asks the relay for a reservation.
pub fn circuit_listen_address(relay: &Multiaddr) -> (address: Multiaddr)
    ensures
        multiaddr_bytes(address) == circuit_bytes(multiaddr_bytes(*relay)),
{
    with_circuit(relay.clone())
}

/// The address under which an initiator reaches `target` through the relay.
pub fn circuit_dial_address(relay: &Multiaddr, target: PeerId) -> (address: Multiaddr)
    ensures
        multiaddr_bytes(address) == circuit_to_peer_bytes(multiaddr_bytes(*relay), target),
{
    with_peer(with_circuit(relay.clone()), target)
}

/// An address through a relay holds the relay's own address first, then the
/// marker, then the peer it leads to: the address that the initiator dials is
/// the one the responder listens on, with the responder's name behind it.
pub proof fn lemma_circuit_address_shape(relay: Seq<u8>, target: PeerId)
    ensures
        relay.is_prefix_of(circuit_bytes(relay)),
        circuit_bytes(relay) != relay,
        circuit_bytes(relay).skip(relay.len() as int) == circuit_marker(),
        circuit_bytes(relay).is_prefix_of(circuit_to_peer_bytes(relay, target)),
        circuit_to_peer_bytes(relay, target).skip(circuit_bytes(relay).len() as int)
            == peer_component(target),
{
    let listen = circuit_bytes(relay);
    let dial = circuit_to_peer_bytes(relay, target);
    assert(listen.subrange(0, relay.len() as int) =~= relay);
    assert(listen.skip(relay.len() as int) =~= circuit_marker());
    assert(dial.subrange(0, listen.len() as int) =~= listen);
    assert(dial.skip(listen.len() as int) =~= peer_component(target));
}

} // verus!
