//! Addresses at which a node listens and at which it reaches its peers.

use vstd::prelude::*;
use vstd::slice::slice_to_vec;

use crate::peer::{valid_peer_id, PeerId};

verus! {

/// Whether bytes are the binary form of a multiaddress, as `libp2p::Multiaddr` reads it.
pub uninterp spec fn valid_address(bytes: Seq<u8>) -> bool;

/// The binary form of the multiaddress that a text denotes, if `libp2p::Multiaddr` can parse it.
pub uninterp spec fn address_of_text(text: Seq<char>) -> Option<Seq<u8>>;

/// The text that `libp2p::Multiaddr` prints of the multiaddress with the given binary form.
pub uninterp spec fn address_text(bytes: Seq<u8>) -> Seq<char>;

/// The binary form of the peer id in the last component of the multiaddress with the given
/// binary form, if that component holds a peer id.
pub uninterp spec fn last_peer_id(bytes: Seq<u8>) -> Option<Seq<u8>>;

/// The component of a multiaddress that names a peer: the protocol's code, the length of the
/// peer id, the peer id.
pub open spec fn peer_component(peer: Seq<u8>) -> Seq<u8> {
    seq![0xa5u8, 0x03u8, peer.len() as u8] + peer
}

/// The binary form of `/ip4/0.0.0.0/tcp/0`: any interface, any port.
pub open spec fn any_address() -> Seq<u8> {
    seq![4u8, 0u8, 0u8, 0u8, 0u8, 6u8, 0u8, 0u8]
}

/// An error of `libp2p::Multiaddr`.
#[verifier::external_type_specification]
#[verifier::external_body]
pub struct ExMultiaddrError(libp2p::multiaddr::Error);

/// `Multiaddr::try_from` on bytes: which bytes it takes is named [`valid_address`]; those that
/// it takes it keeps as they are.
#[verifier::external_body]
fn multiaddr_from_bytes(bytes: Vec<u8>) -> (address: Result<Vec<u8>, libp2p::multiaddr::Error>)
    ensures
        address is Ok <==> valid_address(bytes@),
        address matches Ok(b) ==> b@ == bytes@,
{
    match libp2p::Multiaddr::try_from(bytes) {
        Ok(address) => Ok(address.to_vec()),
        Err(e) => Err(e),
    }
}

/// `Multiaddr::from_str`: what it makes of a text is named [`address_of_text`]. What it makes
/// is the binary form of a multiaddress, and it can parse `/ip4/0.0.0.0/tcp/0`.
#[verifier::external_body]
fn multiaddr_from_text(text: &str) -> (address: Result<Vec<u8>, libp2p::multiaddr::Error>)
    ensures
        match address {
            Ok(b) => address_of_text(text@) == Some(b@) && valid_address(b@),
            Err(_) => address_of_text(text@) is None,
        },
        text@ == "/ip4/0.0.0.0/tcp/0"@ ==> address is Ok && address->Ok_0@ == any_address(),
{
    match text.parse::<libp2p::Multiaddr>() {
        Ok(address) => Ok(address.to_vec()),
        Err(e) => Err(e),
    }
}

/// `Multiaddr::with` on a `Protocol::P2p`: it puts the component that names the peer behind the
/// others, where reading the last component finds it.
#[verifier::external_body]
fn multiaddr_with_peer(address: &Vec<u8>, peer: &Vec<u8>) -> (extended: Vec<u8>)
    requires
        valid_address(address@),
        valid_peer_id(peer@),
    ensures
        extended@ == address@ + peer_component(peer@),
        valid_address(extended@),
        last_peer_id(extended@) == Some(peer@),
{
    let address = libp2p::Multiaddr::try_from(address.clone()).expect("a valid address");
    let peer = libp2p::PeerId::from_bytes(peer).expect("a valid peer id");
    address.with(libp2p::multiaddr::Protocol::P2p(peer)).to_vec()
}

/// `Multiaddr::pop`, which gives the last component, where that is a `Protocol::P2p`: the peer id
/// in it is named [`last_peer_id`], and it is in the form in which peer ids are written.
#[verifier::external_body]
fn multiaddr_last_peer(address: &Vec<u8>) -> (peer: Option<Vec<u8>>)
    requires
        valid_address(address@),
    ensures
        match peer {
            Some(b) => last_peer_id(address@) == Some(b@) && valid_peer_id(b@),
            None => last_peer_id(address@) is None,
        },
{
    let mut address = libp2p::Multiaddr::try_from(address.clone()).expect("a valid address");
    match address.pop() {
        Some(libp2p::multiaddr::Protocol::P2p(peer)) => Some(peer.to_bytes()),
        _ => None,
    }
}

/// The `Debug` of `libp2p::Multiaddr`: its result is named [`address_text`].
#[verifier::external_body]
fn multiaddr_to_text(address: &Vec<u8>) -> (text: String)
    requires
        valid_address(address@),
    ensures
        text@ == address_text(address@),
{
    let address = libp2p::Multiaddr::try_from(address.clone()).expect("a valid address");
    format!("{:?}", address)
}

/// Why something is not an address.
#[derive(Debug, Clone, Copy, PartialEq, Eq, Structural)]
pub enum AddressError {
    /// The text denotes no multiaddress.
    InvalidText,
    /// The bytes are the binary form of no multiaddress.
    InvalidBytes,
}

/// The address of a node.
#[derive(Debug)]
pub struct Address {
    bytes: Vec<u8>,
}

impl View for Address {
    type V = Seq<u8>;

    closed spec fn view(&self) -> Seq<u8> {
        self.bytes@
    }
}

impl Address {
    #[verifier::type_invariant]
    spec fn is_valid(&self) -> bool {
        valid_address(self.bytes@)
    }

    /// Reads an address from its binary form.
    pub fn from_bytes(bytes: Vec<u8>) -> (address: Result<Address, AddressError>)
        ensures
            match address {
                Ok(a) => valid_address(bytes@) && a@ == bytes@,
                Err(e) => !valid_address(bytes@) && e == AddressError::InvalidBytes,
            },
    {
        match multiaddr_from_bytes(bytes) {
            Ok(bytes) => Ok(Address { bytes }),
            Err(_) => Err(AddressError::InvalidBytes),
        }
    }

    /// Reads an address from its text.
    pub fn parse(text: &str) -> (address: Result<Address, AddressError>)
        ensures
            match address {
                Ok(a) => address_of_text(text@) == Some(a@),
                Err(e) => address_of_text(text@) is None && e == AddressError::InvalidText,
            },
            text@ == "/ip4/0.0.0.0/tcp/0"@ ==> address is Ok && address->Ok_0@ == any_address(),
    {
        match multiaddr_from_text(text) {
            Ok(bytes) => Ok(Address { bytes }),
            Err(_) => Err(AddressError::InvalidText),
        }
    }

    /// The address at which a node listens on any interface and on a port that the system
    /// picks.
    pub fn any() -> (address: Address)
        ensures
            address@ == any_address(),
    {
        Address { bytes: multiaddr_from_text("/ip4/0.0.0.0/tcp/0").unwrap() }
    }

    /// The binary form of the address.
    pub fn to_bytes(&self) -> (bytes: Vec<u8>)
        ensures
            bytes@ == self@,
            valid_address(bytes@),
    {
        proof {
            use_type_invariant(self);
        }
        slice_to_vec(self.bytes.as_slice())
    }

    /// The text by which the address is shown.
    pub fn to_text(&self) -> (text: String)
        ensures
            text@ == address_text(self@),
    {
        proof {
            use_type_invariant(self);
        }
        multiaddr_to_text(&self.bytes)
    }

    /// The address extended by the peer that is to be found there.
    pub fn with_peer(&self, peer: &PeerId) -> (extended: Address)
        ensures
            extended@ == self@ + peer_component(peer@),
            last_peer_id(extended@) == Some(peer@),
    {
        proof {
            use_type_invariant(self);
        }
        let peer_bytes = peer.to_bytes();
        Address { bytes: multiaddr_with_peer(&self.bytes, &peer_bytes) }
    }

    /// The peer that the address says is to be found there: the one in its last component.
    pub fn last_peer(&self) -> (peer: Option<PeerId>)
        ensures
            match peer {
                Some(p) => last_peer_id(self@) == Some(p@),
                None => last_peer_id(self@) is None,
            },
    {
        proof {
            use_type_invariant(self);
        }
        match multiaddr_last_peer(&self.bytes) {
            Some(bytes) => Some(PeerId::from_bytes(bytes).unwrap()),
            None => None,
        }
    }
}

impl Clone for Address {
    fn clone(&self) -> (address: Address)
        ensures
            address@ == self@,
    {
        Address { bytes: self.to_bytes() }
    }
}

} // verus!
