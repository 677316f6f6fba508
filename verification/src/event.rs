//! What happens on the network.

use vstd::prelude::*;

use crate::address::Address;
use crate::codec::{GenericRequest, GenericResponse};
use crate::peer::{PeerId, PeerSet};

verus! {

/// What the network tells the rest of the application. `C` is the channel on which a request is
/// to be answered.
#[derive(Debug)]
pub enum Event<C> {
    /// A peer requests something.
    InboundRequest { request: String, channel: C },
}

/// What happens in the distributed hash table.
#[derive(Debug)]
pub enum KademliaEvent {
    /// The query that advertises the local node as a provider is complete, with whatever
    /// result.
    StartProviding { id: u64 },
    /// The query for providers is complete and has found these.
    GetProviders { id: u64, providers: PeerSet },
    /// Anything else, such as a query for providers that failed.
    Other,
}

/// A message from a peer.
#[derive(Debug)]
pub enum RequestResponseMessage<C> {
    /// A request.
    Request { request: GenericRequest, channel: C },
    /// The response to a request of the local node.
    Response { request_id: u64, response: GenericResponse },
}

/// What happens in the exchange of requests and responses. `E` is the network's error.
#[derive(Debug)]
pub enum RequestResponseEvent<E, C> {
    /// A peer sent a message.
    Message { message: RequestResponseMessage<C> },
    /// A request of the local node failed.
    OutboundFailure { request_id: u64, error: E },
    /// A request of a peer failed.
    InboundFailure,
    /// A response of the local node was sent.
    ResponseSent,
}

/// What happens in the protocols that the node speaks.
#[derive(Debug)]
pub enum ComposedEvent<E, C> {
    /// In the exchange of requests and responses.
    RequestResponse(RequestResponseEvent<E, C>),
    /// In the distributed hash table.
    Kademlia(KademliaEvent),
}

impl<E, C> From<RequestResponseEvent<E, C>> for ComposedEvent<E, C> {
    fn from(event: RequestResponseEvent<E, C>) -> (composed: ComposedEvent<E, C>) {
        ComposedEvent::RequestResponse(event)
    }
}

impl<E, C> vstd::std_specs::convert::FromSpecImpl<RequestResponseEvent<E, C>> for ComposedEvent<E, C> {
    open spec fn obeys_from_spec() -> bool {
        true
    }

    open spec fn from_spec(event: RequestResponseEvent<E, C>) -> ComposedEvent<E, C> {
        ComposedEvent::RequestResponse(event)
    }
}

impl<E, C> From<KademliaEvent> for ComposedEvent<E, C> {
    fn from(event: KademliaEvent) -> (composed: ComposedEvent<E, C>) {
        ComposedEvent::Kademlia(event)
    }
}

impl<E, C> vstd::std_specs::convert::FromSpecImpl<KademliaEvent> for ComposedEvent<E, C> {
    open spec fn obeys_from_spec() -> bool {
        true
    }

    open spec fn from_spec(event: KademliaEvent) -> ComposedEvent<E, C> {
        ComposedEvent::Kademlia(event)
    }
}

/// What happens to the local node.
#[derive(Debug)]
#[allow(inconsistent_fields)]
pub enum SwarmEvent<E, C> {
    /// Something happened in one of its protocols.
    Behaviour(ComposedEvent<E, C>),
    /// It listens at one more address.
    NewListenAddr { address: Address },
    /// A peer is connecting.
    IncomingConnection,
    /// It is connected to a peer, and is or is not the one who dialed.
    ConnectionEstablished { peer_id: PeerId, is_dialer: bool },
    /// A connection is closed.
    ConnectionClosed,
    /// It could not connect to a peer, which may not be known.
    OutgoingConnectionError { peer_id: Option<PeerId>, error: E },
    /// A peer could not connect.
    IncomingConnectionError,
    /// It is dialing a peer.
    Dialing(PeerId),
    /// Anything else: no node is prepared for it.
    Other,
}

} // verus!
