//! The loop that drives the network: what it does with what happens and with what is asked.
//!
//! The loop itself performs nothing. It says which call of the network is to be made, takes
//! note of what the call gave, and says who is to be answered what; the caller makes the calls
//! and hands over the answers.

use std::collections::HashMap;

use futures::channel::oneshot::Sender;
use vstd::prelude::*;
use vstd::string::*;
use vstd::utf8::encode_utf8;

use crate::address::{address_text, last_peer_id, peer_component, Address};
use crate::codec::{text_bytes, GenericRequest, GenericResponse};
use crate::command::Command;
use crate::event::{
    ComposedEvent, Event, KademliaEvent, RequestResponseEvent, RequestResponseMessage, SwarmEvent,
};
use crate::peer::{peer_id_text, PeerId, PeerSet, PeerTable};

verus! {

broadcast use vstd::std_specs::hash::group_hash_axioms;

/// A call of the network that a command asks for, with whoever is to be told of its result.
#[verifier::reject_recursive_types(E)]
#[allow(inconsistent_fields)]
pub enum SwarmCall<E, C> {
    /// Listen at an address.
    ListenOn { addr: Address, sender: Sender<Result<(), E>> },
    /// Note the address of a peer in the distributed hash table, and dial the peer.
    Dial { peer_id: PeerId, peer_addr: Address, dial_addr: Address, sender: Sender<Result<(), E>> },
    /// Start the query that advertises the local node as a provider of a key.
    StartProviding { key: Vec<u8>, sender: Sender<()> },
    /// Start the query for the providers of a key.
    GetProviders { key: Vec<u8>, sender: Sender<PeerSet> },
    /// Send a request for a file to a peer.
    RequestFile { peer: PeerId, request: GenericRequest, sender: Sender<Result<String, E>> },
    /// Send a request for a lease to a peer.
    RequestLease { peer: PeerId, request: GenericRequest, sender: Sender<Result<String, E>> },
    /// Send a response on a channel.
    SendResponse { channel: C, response: GenericResponse },
}

/// What a call of the network gave.
#[verifier::reject_recursive_types(E)]
#[allow(inconsistent_fields)]
pub enum Finished<E> {
    /// It listens, or it does not.
    ListenOn { sender: Sender<Result<(), E>>, result: Result<(), E> },
    /// It is dialing a peer, or it is not.
    Dial { peer_id: PeerId, sender: Sender<Result<(), E>>, result: Result<(), E> },
    /// The query that advertises the local node runs under an id.
    StartProviding { query_id: u64, sender: Sender<()> },
    /// The query for providers runs under an id.
    GetProviders { query_id: u64, sender: Sender<PeerSet> },
    /// The request for a file was sent under an id.
    RequestFile { request_id: u64, sender: Sender<Result<String, E>> },
    /// The request for a lease was sent under an id.
    RequestLease { request_id: u64, sender: Sender<Result<String, E>> },
}

/// What is to be done when something has happened.
#[verifier::reject_recursive_types(E)]
#[allow(inconsistent_fields)]
pub enum Effect<E, C> {
    /// Nothing.
    Nothing,
    /// Tell whoever advertised the local node that this is done.
    Provided { sender: Sender<()> },
    /// Hand over the providers to whoever asked for them.
    Providers { sender: Sender<PeerSet>, providers: PeerSet },
    /// Hand over the answer to whoever sent the request.
    Answered { sender: Sender<Result<String, E>>, result: Result<String, E> },
    /// Tell whoever wanted to listen or to dial whether it worked.
    Connected { sender: Sender<Result<(), E>>, result: Result<(), E> },
    /// Hand an event over to the rest of the application.
    Emit { event: Event<C> },
    /// Print a line.
    Print { line: String },
}

/// What wakes the loop up.
#[verifier::reject_recursive_types(E)]
pub enum Wake<E, C> {
    /// Something happened.
    Swarm(SwarmEvent<E, C>),
    /// Something is asked for, or, if there is no command, nothing ever will be again.
    Command(Option<Command<E, C>>),
    /// A call has been made.
    Finished(Finished<E>),
}

/// What the loop does next.
#[verifier::reject_recursive_types(E)]
pub enum Turn<E, C> {
    /// Have something done, and wait.
    Effect(Effect<E, C>),
    /// Have a call made.
    Call(SwarmCall<E, C>),
    /// Come to an end.
    Stop,
}

/// The state of the loop: the local node, and who is waiting for what.
#[verifier::reject_recursive_types(E)]
#[verifier::ext_equal]
pub struct LoopState<E> {
    /// The peer id of the local node.
    pub local_peer_id: Seq<u8>,
    /// Who waits for a connection to a peer.
    pub pending_dial: Map<Seq<u8>, Sender<Result<(), E>>>,
    /// Who waits for a query that advertises the local node.
    pub pending_start_providing: Map<u64, Sender<()>>,
    /// Who waits for a query for providers.
    pub pending_get_providers: Map<u64, Sender<PeerSet>>,
    /// Who waits for the answer to a request for a file.
    pub pending_request_file: Map<u64, Sender<Result<String, E>>>,
    /// Who has requested a lease.
    pub pending_request_lease: Map<u64, Sender<Result<String, E>>>,
}

/// The line that announces an address of the local node.
pub open spec fn listening_line(address: Seq<u8>, local_peer_id: Seq<u8>) -> Seq<char> {
    "Local node is listening on "@ + address_text(address + peer_component(local_peer_id))
}

/// The line that announces that a peer is being dialed.
pub open spec fn dialing_line(peer: Seq<u8>) -> Seq<char> {
    "Dialing "@ + peer_id_text(peer)
}

impl<E> LoopState<E> {
    /// The state in which nobody waits for anything.
    pub open spec fn start(local_peer_id: Seq<u8>) -> LoopState<E> {
        LoopState {
            local_peer_id,
            pending_dial: Map::empty(),
            pending_start_providing: Map::empty(),
            pending_get_providers: Map::empty(),
            pending_request_file: Map::empty(),
            pending_request_lease: Map::empty(),
        }
    }

    /// Whether the loop is prepared for an event: what completes must have been started, and
    /// some events must not happen at all.
    pub open spec fn accepts_event<C>(self, event: SwarmEvent<E, C>) -> bool {
        match event {
            SwarmEvent::Behaviour(ComposedEvent::Kademlia(e)) => match e {
                KademliaEvent::StartProviding { id } => self.pending_start_providing.contains_key(
                    id,
                ),
                KademliaEvent::GetProviders { id, .. } => self.pending_get_providers.contains_key(
                    id,
                ),
                KademliaEvent::Other => true,
            },
            SwarmEvent::Behaviour(ComposedEvent::RequestResponse(e)) => match e {
                RequestResponseEvent::Message { message } => match message {
                    RequestResponseMessage::Request { .. } => true,
                    RequestResponseMessage::Response { request_id, .. } =>
                    self.pending_request_file.contains_key(request_id),
                },
                RequestResponseEvent::OutboundFailure { request_id, .. } =>
                self.pending_request_file.contains_key(request_id),
                RequestResponseEvent::InboundFailure => false,
                RequestResponseEvent::ResponseSent => true,
            },
            SwarmEvent::Other => false,
            _ => true,
        }
    }

    /// The state after an event: whoever waited for it waits no longer.
    pub open spec fn after_event<C>(self, event: SwarmEvent<E, C>) -> LoopState<E> {
        match event {
            SwarmEvent::Behaviour(ComposedEvent::Kademlia(e)) => match e {
                KademliaEvent::StartProviding { id } => LoopState {
                    pending_start_providing: self.pending_start_providing.remove(id),
                    ..self
                },
                KademliaEvent::GetProviders { id, .. } => LoopState {
                    pending_get_providers: self.pending_get_providers.remove(id),
                    ..self
                },
                KademliaEvent::Other => self,
            },
            SwarmEvent::Behaviour(ComposedEvent::RequestResponse(e)) => match e {
                RequestResponseEvent::Message {
                    message: RequestResponseMessage::Response { request_id, .. },
                } => LoopState {
                    pending_request_file: self.pending_request_file.remove(request_id),
                    ..self
                },
                RequestResponseEvent::OutboundFailure { request_id, .. } => LoopState {
                    pending_request_file: self.pending_request_file.remove(request_id),
                    ..self
                },
                _ => self,
            },
            SwarmEvent::ConnectionEstablished { peer_id, is_dialer: true } => LoopState {
                pending_dial: self.pending_dial.remove(peer_id@),
                ..self
            },
            SwarmEvent::OutgoingConnectionError { peer_id: Some(peer_id), .. } => LoopState {
                pending_dial: self.pending_dial.remove(peer_id@),
                ..self
            },
            _ => self,
        }
    }

    /// What is to be done upon an event.
    pub open spec fn event_effect<C>(self, event: SwarmEvent<E, C>, effect: Effect<E, C>) -> bool {
        match event {
            SwarmEvent::Behaviour(ComposedEvent::Kademlia(e)) => match e {
                KademliaEvent::StartProviding { id } => effect == (Effect::<E, C>::Provided {
                    sender: self.pending_start_providing[id],
                }),
                KademliaEvent::GetProviders { id, providers } => effect == (Effect::<
                    E,
                    C,
                >::Providers { sender: self.pending_get_providers[id], providers }),
                KademliaEvent::Other => effect == Effect::<E, C>::Nothing,
            },
            SwarmEvent::Behaviour(ComposedEvent::RequestResponse(e)) => match e {
                RequestResponseEvent::Message { message } => match message {
                    RequestResponseMessage::Request { request, channel } => effect == (Effect::<
                        E,
                        C,
                    >::Emit { event: Event::InboundRequest { request: request.0, channel } }),
                    RequestResponseMessage::Response { request_id, response } => effect == (
                    Effect::<E, C>::Answered {
                        sender: self.pending_request_file[request_id],
                        result: Ok(response.0),
                    }),
                },
                RequestResponseEvent::OutboundFailure { request_id, error } => effect == (Effect::<
                    E,
                    C,
                >::Answered {
                    sender: self.pending_request_file[request_id],
                    result: Err(error),
                }),
                _ => effect == Effect::<E, C>::Nothing,
            },
            SwarmEvent::NewListenAddr { address } => effect matches Effect::Print { line } && line@
                == listening_line(address@, self.local_peer_id),
            SwarmEvent::ConnectionEstablished { peer_id, is_dialer } => if is_dialer
                && self.pending_dial.contains_key(peer_id@) {
                effect == (Effect::<E, C>::Connected {
                    sender: self.pending_dial[peer_id@],
                    result: Ok(()),
                })
            } else {
                effect == Effect::<E, C>::Nothing
            },
            SwarmEvent::OutgoingConnectionError { peer_id, error } => if peer_id is Some
                && self.pending_dial.contains_key(peer_id->Some_0@) {
                effect == (Effect::<E, C>::Connected {
                    sender: self.pending_dial[peer_id->Some_0@],
                    result: Err(error),
                })
            } else {
                effect == Effect::<E, C>::Nothing
            },
            SwarmEvent::Dialing(peer_id) => effect matches Effect::Print { line } && line@
                == dialing_line(peer_id@),
            _ => effect == Effect::<E, C>::Nothing,
        }
    }

    /// Whether the loop is prepared for a command: a peer that is being dialed must not be
    /// dialed again.
    pub open spec fn accepts_command<C>(self, command: Command<E, C>) -> bool {
        command matches Command::Dial { peer_id, .. } ==> !self.pending_dial.contains_key(peer_id@)
    }

    /// The call that a command asks for. The command itself changes nothing in the state: the
    /// call's result does.
    pub open spec fn command_call<C>(self, command: Command<E, C>, call: SwarmCall<E, C>) -> bool {
        match command {
            Command::StartListening { addr, sender } => call == (SwarmCall::<E, C>::ListenOn {
                addr,
                sender,
            }),
            Command::Dial { peer_id, peer_addr, sender } => {
                &&& call matches SwarmCall::Dial {
                    peer_id: call_peer_id,
                    peer_addr: call_peer_addr,
                    dial_addr,
                    sender: call_sender,
                }
                &&& call_peer_id == peer_id
                &&& call_peer_addr == peer_addr
                &&& dial_addr@ == peer_addr@ + peer_component(peer_id@)
                &&& last_peer_id(dial_addr@) == Some(peer_id@)
                &&& call_sender == sender
            },
            Command::StartProviding { file_name, sender } => {
                &&& call matches SwarmCall::StartProviding { key, sender: call_sender }
                &&& key@ == encode_utf8(file_name@)
                &&& call_sender == sender
            },
            Command::GetProviders { file_name, sender } => {
                &&& call matches SwarmCall::GetProviders { key, sender: call_sender }
                &&& key@ == encode_utf8(file_name@)
                &&& call_sender == sender
            },
            Command::RequestFile { file_name, peer, sender } => call == (SwarmCall::<
                E,
                C,
            >::RequestFile { peer, request: GenericRequest(file_name), sender }),
            Command::RespondFile { file, channel } => call == (SwarmCall::<E, C>::SendResponse {
                channel,
                response: GenericResponse(file),
            }),
            Command::RequestLease { lease_number, peer, sender } => call == (SwarmCall::<
                E,
                C,
            >::RequestLease { peer, request: GenericRequest(lease_number), sender }),
            Command::RespondLease { num_lease, channel } => call == (SwarmCall::<
                E,
                C,
            >::SendResponse { channel, response: GenericResponse(num_lease) }),
            Command::BootRoot { up_root, sender } => {
                &&& call matches SwarmCall::StartProviding { key, sender: call_sender }
                &&& key@ == encode_utf8(up_root@)
                &&& call_sender == sender
            },
        }
    }

    /// The state after a call: whoever cannot be told of the outcome yet waits for it.
    pub open spec fn after_call(self, finished: Finished<E>) -> LoopState<E> {
        match finished {
            Finished::ListenOn { .. } => self,
            Finished::Dial { peer_id, sender, result } => if result is Ok {
                LoopState { pending_dial: self.pending_dial.insert(peer_id@, sender), ..self }
            } else {
                self
            },
            Finished::StartProviding { query_id, sender } => LoopState {
                pending_start_providing: self.pending_start_providing.insert(query_id, sender),
                ..self
            },
            Finished::GetProviders { query_id, sender } => LoopState {
                pending_get_providers: self.pending_get_providers.insert(query_id, sender),
                ..self
            },
            Finished::RequestFile { request_id, sender } => LoopState {
                pending_request_file: self.pending_request_file.insert(request_id, sender),
                ..self
            },
            Finished::RequestLease { request_id, sender } => LoopState {
                pending_request_lease: self.pending_request_lease.insert(request_id, sender),
                ..self
            },
        }
    }

    /// What is to be done after a call.
    pub open spec fn call_effect<C>(self, finished: Finished<E>) -> Effect<E, C> {
        match finished {
            Finished::ListenOn { sender, result } => Effect::Connected { sender, result },
            Finished::Dial { sender, result: Err(e), .. } => Effect::Connected {
                sender,
                result: Err(e),
            },
            _ => Effect::Nothing,
        }
    }

    /// Whether the loop is prepared to be woken up in a certain way.
    pub open spec fn accepts<C>(self, wake: Wake<E, C>) -> bool {
        match wake {
            Wake::Swarm(event) => self.accepts_event(event),
            Wake::Command(Some(command)) => self.accepts_command(command),
            Wake::Command(None) => true,
            Wake::Finished(_) => true,
        }
    }

    /// The state after the loop was woken up.
    pub open spec fn after<C>(self, wake: Wake<E, C>) -> LoopState<E> {
        match wake {
            Wake::Swarm(event) => self.after_event(event),
            Wake::Command(_) => self,
            Wake::Finished(finished) => self.after_call(finished),
        }
    }

    /// What the loop does when it is woken up.
    pub open spec fn takes_turn<C>(self, wake: Wake<E, C>, turn: Turn<E, C>) -> bool {
        match wake {
            Wake::Swarm(event) => turn matches Turn::Effect(effect) && self.event_effect(
                event,
                effect,
            ),
            Wake::Command(Some(command)) => turn matches Turn::Call(call) && self.command_call(
                command,
                call,
            ),
            Wake::Command(None) => turn == Turn::<E, C>::Stop,
            Wake::Finished(finished) => turn == Turn::Effect(self.call_effect::<C>(finished)),
        }
    }
}

/// The loop that drives the network.
#[verifier::reject_recursive_types(E)]
pub struct EventLoop<E> {
    local_peer_id: PeerId,
    pending_dial: PeerTable<Sender<Result<(), E>>>,
    pending_start_providing: HashMap<u64, Sender<()>>,
    pending_get_providers: HashMap<u64, Sender<PeerSet>>,
    pending_request_file: HashMap<u64, Sender<Result<String, E>>>,
    pending_request_lease: HashMap<u64, Sender<Result<String, E>>>,
}

impl<E> View for EventLoop<E> {
    type V = LoopState<E>;

    closed spec fn view(&self) -> LoopState<E> {
        LoopState {
            local_peer_id: self.local_peer_id@,
            pending_dial: self.pending_dial@,
            pending_start_providing: self.pending_start_providing@,
            pending_get_providers: self.pending_get_providers@,
            pending_request_file: self.pending_request_file@,
            pending_request_lease: self.pending_request_lease@,
        }
    }
}

impl<E> EventLoop<E> {
    /// The loop of the local node, in which nobody waits for anything.
    pub fn new(local_peer_id: PeerId) -> (event_loop: EventLoop<E>)
        ensures
            event_loop@ == LoopState::<E>::start(local_peer_id@),
    {
        EventLoop {
            local_peer_id,
            pending_dial: PeerTable::new(),
            pending_start_providing: HashMap::new(),
            pending_get_providers: HashMap::new(),
            pending_request_file: HashMap::new(),
            pending_request_lease: HashMap::new(),
        }
    }

    /// Whether the loop is prepared for an event.
    pub fn accepts_event<C>(&self, event: &SwarmEvent<E, C>) -> (accepted: bool)
        ensures
            accepted == self@.accepts_event(*event),
    {
        match event {
            SwarmEvent::Behaviour(ComposedEvent::Kademlia(e)) => match e {
                KademliaEvent::StartProviding { id } => self.pending_start_providing.contains_key(
                    id,
                ),
                KademliaEvent::GetProviders { id, .. } => self.pending_get_providers.contains_key(
                    id,
                ),
                KademliaEvent::Other => true,
            },
            SwarmEvent::Behaviour(ComposedEvent::RequestResponse(e)) => match e {
                RequestResponseEvent::Message { message } => match message {
                    RequestResponseMessage::Request { .. } => true,
                    RequestResponseMessage::Response { request_id, .. } =>
                    self.pending_request_file.contains_key(request_id),
                },
                RequestResponseEvent::OutboundFailure { request_id, .. } =>
                self.pending_request_file.contains_key(request_id),
                RequestResponseEvent::InboundFailure => false,
                RequestResponseEvent::ResponseSent => true,
            },
            SwarmEvent::Other => false,
            _ => true,
        }
    }

    /// Takes note of an event for which the loop is prepared.
    pub fn handle_event<C>(&mut self, event: SwarmEvent<E, C>) -> (effect: Effect<E, C>)
        requires
            old(self)@.accepts_event(event),
        ensures
            final(self)@ == old(self)@.after_event(event),
            old(self)@.event_effect(event, effect),
            // The address that is announced names the local node, so that it can be dialed.
            event matches SwarmEvent::NewListenAddr { address } ==> last_peer_id(
                address@ + peer_component(old(self)@.local_peer_id),
            ) == Some(old(self)@.local_peer_id),
    {
        match event {
            SwarmEvent::Behaviour(ComposedEvent::Kademlia(KademliaEvent::StartProviding { id })) => {
                let sender = self.pending_start_providing.remove(&id).unwrap();
                Effect::Provided { sender }
            },
            SwarmEvent::Behaviour(
                ComposedEvent::Kademlia(KademliaEvent::GetProviders { id, providers }),
            ) => {
                let sender = self.pending_get_providers.remove(&id).unwrap();
                Effect::Providers { sender, providers }
            },
            SwarmEvent::Behaviour(ComposedEvent::Kademlia(_)) => Effect::Nothing,
            SwarmEvent::Behaviour(
                ComposedEvent::RequestResponse(RequestResponseEvent::Message { message }),
            ) => match message {
                RequestResponseMessage::Request { request, channel } => Effect::Emit {
                    event: Event::InboundRequest { request: request.0, channel },
                },
                RequestResponseMessage::Response { request_id, response } => {
                    let sender = self.pending_request_file.remove(&request_id).unwrap();
                    Effect::Answered { sender, result: Ok(response.0) }
                },
            },
            SwarmEvent::Behaviour(
                ComposedEvent::RequestResponse(
                    RequestResponseEvent::OutboundFailure { request_id, error },
                ),
            ) => {
                let sender = self.pending_request_file.remove(&request_id).unwrap();
                Effect::Answered { sender, result: Err(error) }
            },
            SwarmEvent::Behaviour(ComposedEvent::RequestResponse(_)) => Effect::Nothing,
            SwarmEvent::NewListenAddr { address } => {
                let shown = address.with_peer(&self.local_peer_id).to_text();
                let mut line = String::from_str("Local node is listening on ");
                line.append(shown.as_str());
                Effect::Print { line }
            },
            SwarmEvent::IncomingConnection => Effect::Nothing,
            SwarmEvent::ConnectionEstablished { peer_id, is_dialer } => {
                if is_dialer {
                    if let Some(sender) = self.pending_dial.remove(&peer_id) {
                        return Effect::Connected { sender, result: Ok(()) };
                    }
                }
                Effect::Nothing
            },
            SwarmEvent::ConnectionClosed => Effect::Nothing,
            SwarmEvent::OutgoingConnectionError { peer_id, error } => {
                if let Some(peer_id) = peer_id {
                    if let Some(sender) = self.pending_dial.remove(&peer_id) {
                        return Effect::Connected { sender, result: Err(error) };
                    }
                }
                Effect::Nothing
            },
            SwarmEvent::IncomingConnectionError => Effect::Nothing,
            SwarmEvent::Dialing(peer_id) => {
                let shown = peer_id.to_text();
                let mut line = String::from_str("Dialing ");
                line.append(shown.as_str());
                Effect::Print { line }
            },
            SwarmEvent::Other => Effect::Nothing,
        }
    }

    /// Whether the loop is prepared for a command.
    pub fn accepts_command<C>(&self, command: &Command<E, C>) -> (accepted: bool)
        ensures
            accepted == self@.accepts_command(*command),
    {
        match command {
            Command::Dial { peer_id, .. } => !self.pending_dial.contains_key(peer_id),
            _ => true,
        }
    }

    /// The call that is to be made for a command for which the loop is prepared.
    pub fn handle_command<C>(&self, command: Command<E, C>) -> (call: SwarmCall<E, C>)
        requires
            self@.accepts_command(command),
        ensures
            self@.command_call(command, call),
    {
        match command {
            Command::StartListening { addr, sender } => SwarmCall::ListenOn { addr, sender },
            Command::Dial { peer_id, peer_addr, sender } => {
                let dial_addr = peer_addr.with_peer(&peer_id);
                SwarmCall::Dial { peer_id, peer_addr, dial_addr, sender }
            },
            Command::StartProviding { file_name, sender } => SwarmCall::StartProviding {
                key: text_bytes(&file_name),
                sender,
            },
            Command::GetProviders { file_name, sender } => SwarmCall::GetProviders {
                key: text_bytes(&file_name),
                sender,
            },
            Command::RequestFile { file_name, peer, sender } => SwarmCall::RequestFile {
                peer,
                request: GenericRequest(file_name),
                sender,
            },
            Command::RespondFile { file, channel } => SwarmCall::SendResponse {
                channel,
                response: GenericResponse(file),
            },
            Command::RequestLease { lease_number, peer, sender } => SwarmCall::RequestLease {
                peer,
                request: GenericRequest(lease_number),
                sender,
            },
            Command::RespondLease { num_lease, channel } => SwarmCall::SendResponse {
                channel,
                response: GenericResponse(num_lease),
            },
            Command::BootRoot { up_root, sender } => SwarmCall::StartProviding {
                key: text_bytes(&up_root),
                sender,
            },
        }
    }

    /// Takes note of what a call gave.
    pub fn handle_finished<C>(&mut self, finished: Finished<E>) -> (effect: Effect<E, C>)
        ensures
            final(self)@ == old(self)@.after_call(finished),
            effect == old(self)@.call_effect::<C>(finished),
    {
        match finished {
            Finished::ListenOn { sender, result } => Effect::Connected { sender, result },
            Finished::Dial { peer_id, sender, result } => match result {
                Ok(()) => {
                    self.pending_dial.insert(peer_id, sender);
                    Effect::Nothing
                },
                Err(e) => Effect::Connected { sender, result: Err(e) },
            },
            Finished::StartProviding { query_id, sender } => {
                self.pending_start_providing.insert(query_id, sender);
                Effect::Nothing
            },
            Finished::GetProviders { query_id, sender } => {
                self.pending_get_providers.insert(query_id, sender);
                Effect::Nothing
            },
            Finished::RequestFile { request_id, sender } => {
                self.pending_request_file.insert(request_id, sender);
                Effect::Nothing
            },
            Finished::RequestLease { request_id, sender } => {
                self.pending_request_lease.insert(request_id, sender);
                Effect::Nothing
            },
        }
    }

    /// Whether the loop is prepared to be woken up in a certain way.
    pub fn accepts<C>(&self, wake: &Wake<E, C>) -> (accepted: bool)
        ensures
            accepted == self@.accepts(*wake),
    {
        match wake {
            Wake::Swarm(event) => self.accepts_event(event),
            Wake::Command(Some(command)) => self.accepts_command(command),
            Wake::Command(None) => true,
            Wake::Finished(_) => true,
        }
    }

    /// Runs the loop from where it was woken up to where it has to wait again. It comes to an
    /// end when there will be no more commands, and only then.
    pub fn run<C>(&mut self, wake: Wake<E, C>) -> (turn: Turn<E, C>)
        requires
            old(self)@.accepts(wake),
        ensures
            final(self)@ == old(self)@.after(wake),
            old(self)@.takes_turn(wake, turn),
    {
        match wake {
            Wake::Swarm(event) => Turn::Effect(self.handle_event(event)),
            Wake::Command(Some(command)) => Turn::Call(self.handle_command(command)),
            Wake::Command(None) => Turn::Stop,
            Wake::Finished(finished) => Turn::Effect(self.handle_finished(finished)),
        }
    }
}

} // verus!
