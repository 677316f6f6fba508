//! What a turn of the loop does, for each way in which the loop can be woken up.

use futures::channel::oneshot::Sender;
use vstd::prelude::*;
use vstd::utf8::*;

use crate::address::{address_text, Address};
use crate::codec::{GenericRequest, GenericResponse};
use crate::command::Command;
use crate::event::{
    ComposedEvent, Event, KademliaEvent, RequestResponseEvent, RequestResponseMessage, SwarmEvent,
};
use crate::event_loop::{Effect, EventLoop, Finished, LoopState, SwarmCall, Turn, Wake};
use crate::peer::{peer_id_text, PeerId, PeerSet};

verus! {

/// A command to listen has the network listen at the very address, for the very caller.
pub proof fn law_listens_where_it_is_told<E, C>(
    event_loop: &mut EventLoop<E>,
    addr: Address,
    sender: Sender<Result<(), E>>,
    turn: Turn<E, C>,
)
    requires
        call_ensures(
            EventLoop::<E>::run::<C>,
            (event_loop, Wake::Command(Some(Command::StartListening { addr, sender }))),
            turn,
        ),
    ensures
        turn == Turn::<E, C>::Call(SwarmCall::ListenOn { addr, sender }),
        final(event_loop)@ == old(event_loop)@,
{
}

/// A command to dial has the network dial the peer for the very caller, at an address that begins
/// with all bytes of the address in the command and ends with the component that names the peer in
/// the command; that the peer is known at the address in the command is noted, too.
pub proof fn law_dials_the_peer_at_its_address<E, C>(
    event_loop: &mut EventLoop<E>,
    peer_id: PeerId,
    peer_addr: Address,
    sender: Sender<Result<(), E>>,
    turn: Turn<E, C>,
)
    requires
        call_ensures(
            EventLoop::<E>::run::<C>,
            (event_loop, Wake::Command(Some(Command::Dial { peer_id, peer_addr, sender }))),
            turn,
        ),
    ensures
        ({
            let n = peer_addr@.len() as int;
            &&& turn matches Turn::Call(
                SwarmCall::Dial { peer_id: peer, peer_addr: noted, dial_addr, sender: caller },
            )
            &&& peer == peer_id
            &&& noted == peer_addr
            &&& caller == sender
            &&& dial_addr@.len() == n + 3 + peer_id@.len()
            &&& dial_addr@.take(n) == peer_addr@
            &&& dial_addr@[n] == 0xa5 && dial_addr@[n + 1] == 0x03
            &&& dial_addr@[n + 2] == peer_id@.len() as u8
            &&& dial_addr@.skip(n + 3) == peer_id@
        }),
        final(event_loop)@ == old(event_loop)@,
{
    if let Turn::Call(SwarmCall::Dial { dial_addr, .. }) = turn {
        let n = peer_addr@.len() as int;
        assert(dial_addr@.take(n) =~= peer_addr@);
        assert(dial_addr@.skip(n + 3) =~= peer_id@);
    }
}

/// Dials of one peer at different addresses go to different addresses, and so do dials of different
/// peers at one address.
pub proof fn law_dials_are_told_apart<E, C>(
    first_loop: &mut EventLoop<E>,
    first_peer: PeerId,
    first_addr: Address,
    first_sender: Sender<Result<(), E>>,
    first: Turn<E, C>,
    second_loop: &mut EventLoop<E>,
    second_peer: PeerId,
    second_addr: Address,
    second_sender: Sender<Result<(), E>>,
    second: Turn<E, C>,
)
    requires
        call_ensures(
            EventLoop::<E>::run::<C>,
            (
                first_loop,
                Wake::Command(
                    Some(
                        Command::Dial {
                            peer_id: first_peer,
                            peer_addr: first_addr,
                            sender: first_sender,
                        },
                    ),
                ),
            ),
            first,
        ),
        call_ensures(
            EventLoop::<E>::run::<C>,
            (
                second_loop,
                Wake::Command(
                    Some(
                        Command::Dial {
                            peer_id: second_peer,
                            peer_addr: second_addr,
                            sender: second_sender,
                        },
                    ),
                ),
            ),
            second,
        ),
    ensures
        ({
            &&& first matches Turn::Call(SwarmCall::Dial { dial_addr: first_dialed, .. })
            &&& second matches Turn::Call(SwarmCall::Dial { dial_addr: second_dialed, .. })
            &&& first_peer@ == second_peer@ ==> (first_dialed@ == second_dialed@ <==> first_addr@
                == second_addr@)
            &&& first_addr@ == second_addr@ ==> (first_dialed@ == second_dialed@ <==> first_peer@
                == second_peer@)
        }),
{
    law_dials_the_peer_at_its_address(first_loop, first_peer, first_addr, first_sender, first);
    law_dials_the_peer_at_its_address(second_loop, second_peer, second_addr, second_sender, second);
    if let Turn::Call(SwarmCall::Dial { dial_addr: a, .. }) = first {
        if let Turn::Call(SwarmCall::Dial { dial_addr: b, .. }) = second {
            if first_peer@ == second_peer@ && first_addr@ == second_addr@ {
                let n = first_addr@.len() as int;
                assert forall|i: int| 0 <= i < a@.len() implies a@[i] == b@[i] by {
                    if i < n {
                        assert(a@[i] == a@.take(n)[i]);
                        assert(b@[i] == b@.take(n)[i]);
                    }
                    if i >= n + 3 {
                        assert(a@[i] == a@.skip(n + 3)[i - n - 3]);
                        assert(b@[i] == b@.skip(n + 3)[i - n - 3]);
                    }
                }
                assert(a@ =~= b@);
            }
        }
    }
}

/// A command to advertise the local node, as a provider of a file or as a root, has the network
/// start the query that advertises the UTF-8 bytes of the very name, for the very caller; nobody
/// is told anything yet.
pub proof fn law_advertises_the_name<E, C>(
    event_loop: &mut EventLoop<E>,
    command: Command<E, C>,
    name: String,
    sender: Sender<()>,
    turn: Turn<E, C>,
)
    requires
        command == (Command::<E, C>::StartProviding { file_name: name, sender }) || command == (
        Command::<E, C>::BootRoot { up_root: name, sender }),
        call_ensures(EventLoop::<E>::run::<C>, (event_loop, Wake::Command(Some(command))), turn),
    ensures
        turn matches Turn::Call(SwarmCall::StartProviding { key, sender: caller }) && key@
            == encode_utf8(name@) && decode_utf8(key@) == name@ && caller == sender,
        final(event_loop)@ == old(event_loop)@,
{
    encode_utf8_decode_utf8(name@);
}

/// A command to find providers has the network look for those of the UTF-8 bytes of the very name,
/// for the very caller.
pub proof fn law_looks_for_the_name<E, C>(
    event_loop: &mut EventLoop<E>,
    file_name: String,
    sender: Sender<PeerSet>,
    turn: Turn<E, C>,
)
    requires
        call_ensures(
            EventLoop::<E>::run::<C>,
            (event_loop, Wake::Command(Some(Command::GetProviders { file_name, sender }))),
            turn,
        ),
    ensures
        turn matches Turn::Call(SwarmCall::GetProviders { key, sender: caller }) && key@
            == encode_utf8(file_name@) && decode_utf8(key@) == file_name@ && caller == sender,
        final(event_loop)@ == old(event_loop)@,
{
    encode_utf8_decode_utf8(file_name@);
}

/// What is advertised under a name is found under that name, and under no other.
pub proof fn law_advertised_names_are_found<E, C>(
    first_loop: &mut EventLoop<E>,
    command: Command<E, C>,
    advertised: String,
    provider: Sender<()>,
    first: Turn<E, C>,
    second_loop: &mut EventLoop<E>,
    sought: String,
    seeker: Sender<PeerSet>,
    second: Turn<E, C>,
)
    requires
        command == (Command::<E, C>::StartProviding { file_name: advertised, sender: provider })
            || command == (Command::<E, C>::BootRoot { up_root: advertised, sender: provider }),
        call_ensures(
            EventLoop::<E>::run::<C>,
            (first_loop, Wake::Command(Some(command))),
            first,
        ),
        call_ensures(
            EventLoop::<E>::run::<C>,
            (
                second_loop,
                Wake::Command(Some(Command::GetProviders { file_name: sought, sender: seeker })),
            ),
            second,
        ),
    ensures
        ({
            &&& first matches Turn::Call(SwarmCall::StartProviding { key: under, .. })
            &&& second matches Turn::Call(SwarmCall::GetProviders { key: looked_up, .. })
            &&& under@ == looked_up@ <==> advertised@ == sought@
        }),
{
    law_advertises_the_name(first_loop, command, advertised, provider, first);
    law_looks_for_the_name(second_loop, sought, seeker, second);
}

/// A command to request a file has the network send the whole text of it to the very peer, for the
/// very caller.
pub proof fn law_requests_the_file<E, C>(
    event_loop: &mut EventLoop<E>,
    file_name: String,
    peer: PeerId,
    sender: Sender<Result<String, E>>,
    turn: Turn<E, C>,
)
    requires
        call_ensures(
            EventLoop::<E>::run::<C>,
            (event_loop, Wake::Command(Some(Command::RequestFile { file_name, peer, sender }))),
            turn,
        ),
    ensures
        turn == Turn::<E, C>::Call(
            SwarmCall::RequestFile { peer, request: GenericRequest(file_name), sender },
        ),
        final(event_loop)@ == old(event_loop)@,
{
}

/// A command to request a lease has the network send the whole text of it to the very peer, for the
/// very caller.
pub proof fn law_requests_the_lease<E, C>(
    event_loop: &mut EventLoop<E>,
    lease_number: String,
    peer: PeerId,
    sender: Sender<Result<String, E>>,
    turn: Turn<E, C>,
)
    requires
        call_ensures(
            EventLoop::<E>::run::<C>,
            (event_loop, Wake::Command(Some(Command::RequestLease { lease_number, peer, sender }))),
            turn,
        ),
    ensures
        turn == Turn::<E, C>::Call(
            SwarmCall::RequestLease { peer, request: GenericRequest(lease_number), sender },
        ),
        final(event_loop)@ == old(event_loop)@,
{
}

/// A command to respond, with a file or with a lease, has the network send the whole text on the
/// very channel.
pub proof fn law_responds_on_the_channel<E, C>(
    event_loop: &mut EventLoop<E>,
    command: Command<E, C>,
    text: String,
    channel: C,
    turn: Turn<E, C>,
)
    requires
        command == (Command::<E, C>::RespondFile { file: text, channel }) || command == (Command::<
            E,
            C,
        >::RespondLease { num_lease: text, channel }),
        call_ensures(EventLoop::<E>::run::<C>, (event_loop, Wake::Command(Some(command))), turn),
    ensures
        turn == Turn::<E, C>::Call(
            SwarmCall::SendResponse { channel, response: GenericResponse(text) },
        ),
        final(event_loop)@ == old(event_loop)@,
{
}

/// When there will be no more commands, the loop stops; a turn for any other reason does not.
pub proof fn law_stops_with_the_commands<E, C>(
    event_loop: &mut EventLoop<E>,
    wake: Wake<E, C>,
    turn: Turn<E, C>,
)
    requires
        call_ensures(EventLoop::<E>::run::<C>, (event_loop, wake), turn),
    ensures
        turn == Turn::<E, C>::Stop <==> wake == Wake::<E, C>::Command(None),
        turn is Call <==> wake is Command && wake->Command_0 is Some,
        wake is Command ==> final(event_loop)@ == old(event_loop)@,
{
}

/// Whoever wanted to listen is told at once, and exactly, whether it worked.
pub proof fn law_listener_is_told<E, C>(
    event_loop: &mut EventLoop<E>,
    sender: Sender<Result<(), E>>,
    result: Result<(), E>,
    turn: Turn<E, C>,
)
    requires
        call_ensures(
            EventLoop::<E>::run::<C>,
            (event_loop, Wake::Finished(Finished::ListenOn { sender, result })),
            turn,
        ),
    ensures
        turn == Turn::<E, C>::Effect(Effect::Connected { sender, result }),
        final(event_loop)@ == old(event_loop)@,
{
}

/// Whoever dials a peer is told at once if that could not even be begun, and otherwise waits for
/// that very peer.
pub proof fn law_dialer_waits_or_is_told<E, C>(
    event_loop: &mut EventLoop<E>,
    peer_id: PeerId,
    sender: Sender<Result<(), E>>,
    result: Result<(), E>,
    turn: Turn<E, C>,
)
    requires
        call_ensures(
            EventLoop::<E>::run::<C>,
            (event_loop, Wake::Finished(Finished::Dial { peer_id, sender, result })),
            turn,
        ),
    ensures
        match result {
            Ok(_) => {
                &&& turn == Turn::<E, C>::Effect(Effect::Nothing)
                &&& final(event_loop)@ == (LoopState {
                    pending_dial: old(event_loop)@.pending_dial.insert(peer_id@, sender),
                    ..old(event_loop)@
                })
            },
            Err(error) => {
                &&& turn == Turn::<E, C>::Effect(Effect::Connected { sender, result: Err(error) })
                &&& final(event_loop)@ == old(event_loop)@
            },
        },
{
}

/// Whoever advertises the local node waits for that very query, and nobody is told anything.
pub proof fn law_advertiser_waits<E, C>(
    event_loop: &mut EventLoop<E>,
    query_id: u64,
    sender: Sender<()>,
    turn: Turn<E, C>,
)
    requires
        call_ensures(
            EventLoop::<E>::run::<C>,
            (event_loop, Wake::Finished(Finished::StartProviding { query_id, sender })),
            turn,
        ),
    ensures
        turn == Turn::<E, C>::Effect(Effect::Nothing),
        final(event_loop)@ == (LoopState {
            pending_start_providing: old(event_loop)@.pending_start_providing.insert(
                query_id,
                sender,
            ),
            ..old(event_loop)@
        }),
{
}

/// Whoever looks for providers waits for that very query, and nobody is told anything.
pub proof fn law_seeker_waits<E, C>(
    event_loop: &mut EventLoop<E>,
    query_id: u64,
    sender: Sender<PeerSet>,
    turn: Turn<E, C>,
)
    requires
        call_ensures(
            EventLoop::<E>::run::<C>,
            (event_loop, Wake::Finished(Finished::GetProviders { query_id, sender })),
            turn,
        ),
    ensures
        turn == Turn::<E, C>::Effect(Effect::Nothing),
        final(event_loop)@ == (LoopState {
            pending_get_providers: old(event_loop)@.pending_get_providers.insert(query_id, sender),
            ..old(event_loop)@
        }),
{
}

/// Whoever requests a file waits for that very request, and nobody is told anything.
pub proof fn law_file_requester_waits<E, C>(
    event_loop: &mut EventLoop<E>,
    request_id: u64,
    sender: Sender<Result<String, E>>,
    turn: Turn<E, C>,
)
    requires
        call_ensures(
            EventLoop::<E>::run::<C>,
            (event_loop, Wake::Finished(Finished::RequestFile { request_id, sender })),
            turn,
        ),
    ensures
        turn == Turn::<E, C>::Effect(Effect::Nothing),
        final(event_loop)@ == (LoopState {
            pending_request_file: old(event_loop)@.pending_request_file.insert(request_id, sender),
            ..old(event_loop)@
        }),
{
}

/// Whoever requests a lease waits for that very request, and nobody is told anything.
pub proof fn law_lease_requester_waits<E, C>(
    event_loop: &mut EventLoop<E>,
    request_id: u64,
    sender: Sender<Result<String, E>>,
    turn: Turn<E, C>,
)
    requires
        call_ensures(
            EventLoop::<E>::run::<C>,
            (event_loop, Wake::Finished(Finished::RequestLease { request_id, sender })),
            turn,
        ),
    ensures
        turn == Turn::<E, C>::Effect(Effect::Nothing),
        final(event_loop)@ == (LoopState {
            pending_request_lease: old(event_loop)@.pending_request_lease.insert(
                request_id,
                sender,
            ),
            ..old(event_loop)@
        }),
{
}

/// Whoever waits for an advertisement is told when that very query is complete, and waits no
/// longer.
pub proof fn law_advertiser_is_told<E, C>(
    event_loop: &mut EventLoop<E>,
    id: u64,
    turn: Turn<E, C>,
)
    requires
        call_ensures(
            EventLoop::<E>::run::<C>,
            (
                event_loop,
                Wake::Swarm(
                    SwarmEvent::Behaviour(
                        ComposedEvent::Kademlia(KademliaEvent::StartProviding { id }),
                    ),
                ),
            ),
            turn,
        ),
    ensures
        turn == Turn::<E, C>::Effect(
            Effect::Provided { sender: old(event_loop)@.pending_start_providing[id] },
        ),
        final(event_loop)@ == (LoopState {
            pending_start_providing: old(event_loop)@.pending_start_providing.remove(id),
            ..old(event_loop)@
        }),
{
}

/// Whoever waits for providers is handed the very set with which that very query is complete, and
/// waits no longer.
pub proof fn law_seeker_is_told<E, C>(
    event_loop: &mut EventLoop<E>,
    id: u64,
    providers: PeerSet,
    turn: Turn<E, C>,
)
    requires
        call_ensures(
            EventLoop::<E>::run::<C>,
            (
                event_loop,
                Wake::Swarm(
                    SwarmEvent::Behaviour(
                        ComposedEvent::Kademlia(KademliaEvent::GetProviders { id, providers }),
                    ),
                ),
            ),
            turn,
        ),
    ensures
        turn == Turn::<E, C>::Effect(
            Effect::Providers { sender: old(event_loop)@.pending_get_providers[id], providers },
        ),
        final(event_loop)@ == (LoopState {
            pending_get_providers: old(event_loop)@.pending_get_providers.remove(id),
            ..old(event_loop)@
        }),
{
}

/// A request from a peer is handed to the rest of the application, with its whole text and its very
/// channel, and changes nothing.
pub proof fn law_inbound_request_is_handed_over<E, C>(
    event_loop: &mut EventLoop<E>,
    request: GenericRequest,
    channel: C,
    turn: Turn<E, C>,
)
    requires
        call_ensures(
            EventLoop::<E>::run::<C>,
            (
                event_loop,
                Wake::Swarm(
                    SwarmEvent::Behaviour(
                        ComposedEvent::RequestResponse(
                            RequestResponseEvent::Message {
                                message: RequestResponseMessage::Request { request, channel },
                            },
                        ),
                    ),
                ),
            ),
            turn,
        ),
    ensures
        turn == Turn::<E, C>::Effect(
            Effect::Emit { event: Event::InboundRequest { request: request.0, channel } },
        ),
        final(event_loop)@ == old(event_loop)@,
{
}

/// Whoever waits for a file is handed the whole text of the answer to that very request, and waits
/// no longer.
pub proof fn law_file_requester_is_answered<E, C>(
    event_loop: &mut EventLoop<E>,
    request_id: u64,
    response: GenericResponse,
    turn: Turn<E, C>,
)
    requires
        call_ensures(
            EventLoop::<E>::run::<C>,
            (
                event_loop,
                Wake::Swarm(
                    SwarmEvent::Behaviour(
                        ComposedEvent::RequestResponse(
                            RequestResponseEvent::Message {
                                message: RequestResponseMessage::Response { request_id, response },
                            },
                        ),
                    ),
                ),
            ),
            turn,
        ),
    ensures
        turn == Turn::<E, C>::Effect(
            Effect::Answered {
                sender: old(event_loop)@.pending_request_file[request_id],
                result: Ok(response.0),
            },
        ),
        final(event_loop)@ == (LoopState {
            pending_request_file: old(event_loop)@.pending_request_file.remove(request_id),
            ..old(event_loop)@
        }),
{
}

/// Whoever waits for a file is handed the very error with which that very request failed, and
/// waits no longer.
pub proof fn law_file_requester_is_told_of_failure<E, C>(
    event_loop: &mut EventLoop<E>,
    request_id: u64,
    error: E,
    turn: Turn<E, C>,
)
    requires
        call_ensures(
            EventLoop::<E>::run::<C>,
            (
                event_loop,
                Wake::Swarm(
                    SwarmEvent::Behaviour(
                        ComposedEvent::RequestResponse(
                            RequestResponseEvent::OutboundFailure { request_id, error },
                        ),
                    ),
                ),
            ),
            turn,
        ),
    ensures
        turn == Turn::<E, C>::Effect(
            Effect::Answered {
                sender: old(event_loop)@.pending_request_file[request_id],
                result: Err(error),
            },
        ),
        final(event_loop)@ == (LoopState {
            pending_request_file: old(event_loop)@.pending_request_file.remove(request_id),
            ..old(event_loop)@
        }),
{
}

/// Each address at which the node listens is announced, extended by the component that names the
/// local node.
pub proof fn law_address_is_announced<E, C>(
    event_loop: &mut EventLoop<E>,
    address: Address,
    turn: Turn<E, C>,
)
    requires
        call_ensures(
            EventLoop::<E>::run::<C>,
            (event_loop, Wake::Swarm(SwarmEvent::NewListenAddr { address })),
            turn,
        ),
    ensures
        turn matches Turn::Effect(Effect::Print { line }) && line@ == "Local node is listening on "@
            + address_text(
            address@ + seq![0xa5u8, 0x03u8, old(event_loop)@.local_peer_id.len() as u8] + old(
                event_loop,
            )@.local_peer_id,
        ),
        final(event_loop)@ == old(event_loop)@,
{
    let id = old(event_loop)@.local_peer_id;
    let component = seq![0xa5u8, 0x03u8, id.len() as u8];
    assert(address@ + component + id =~= address@ + (component + id));
}

/// Each dial is announced with the peer that is dialed.
pub proof fn law_dial_is_announced<E, C>(
    event_loop: &mut EventLoop<E>,
    peer_id: PeerId,
    turn: Turn<E, C>,
)
    requires
        call_ensures(
            EventLoop::<E>::run::<C>,
            (event_loop, Wake::Swarm(SwarmEvent::Dialing(peer_id))),
            turn,
        ),
    ensures
        turn matches Turn::Effect(Effect::Print { line }) && line@ == "Dialing "@ + peer_id_text(
            peer_id@,
        ),
        final(event_loop)@ == old(event_loop)@,
{
}

/// Whoever waits for a connection to a peer is told once the local node, having dialed, is
/// connected to that very peer, and waits no longer; other connections are told to nobody.
pub proof fn law_dialer_is_told_of_connection<E, C>(
    event_loop: &mut EventLoop<E>,
    peer_id: PeerId,
    is_dialer: bool,
    turn: Turn<E, C>,
)
    requires
        call_ensures(
            EventLoop::<E>::run::<C>,
            (event_loop, Wake::Swarm(SwarmEvent::ConnectionEstablished { peer_id, is_dialer })),
            turn,
        ),
    ensures
        if is_dialer && old(event_loop)@.pending_dial.contains_key(peer_id@) {
            &&& turn == Turn::<E, C>::Effect(
                Effect::Connected {
                    sender: old(event_loop)@.pending_dial[peer_id@],
                    result: Ok(()),
                },
            )
            &&& final(event_loop)@ == (LoopState {
                pending_dial: old(event_loop)@.pending_dial.remove(peer_id@),
                ..old(event_loop)@
            })
        } else {
            turn == Turn::<E, C>::Effect(Effect::Nothing) && final(event_loop)@ == old(event_loop)@
        },
{
    if is_dialer && !old(event_loop)@.pending_dial.contains_key(peer_id@) {
        assert(old(event_loop)@.pending_dial.remove(peer_id@) =~= old(event_loop)@.pending_dial);
    }
}

/// Whoever waits for a connection to a peer is told the very error if that very peer is not
/// reached, and waits no longer; other failures are told to nobody.
pub proof fn law_dialer_is_told_of_failure<E, C>(
    event_loop: &mut EventLoop<E>,
    peer: Option<PeerId>,
    error: E,
    turn: Turn<E, C>,
)
    requires
        call_ensures(
            EventLoop::<E>::run::<C>,
            (event_loop, Wake::Swarm(SwarmEvent::OutgoingConnectionError { peer_id: peer, error })),
            turn,
        ),
    ensures
        match peer {
            Some(peer_id) if old(event_loop)@.pending_dial.contains_key(peer_id@) => {
                &&& turn == Turn::<E, C>::Effect(
                    Effect::Connected {
                        sender: old(event_loop)@.pending_dial[peer_id@],
                        result: Err(error),
                    },
                )
                &&& final(event_loop)@ == (LoopState {
                    pending_dial: old(event_loop)@.pending_dial.remove(peer_id@),
                    ..old(event_loop)@
                })
            },
            _ => turn == Turn::<E, C>::Effect(
                Effect::Nothing,
            ) && final(event_loop)@ == old(event_loop)@,
        },
{
    if let Some(peer_id) = peer {
        if !old(event_loop)@.pending_dial.contains_key(peer_id@) {
            assert(old(event_loop)@.pending_dial.remove(peer_id@) =~= old(
                event_loop,
            )@.pending_dial);
        }
    }
}

/// Whatever else happens is told to nobody and changes nothing: other things in the distributed
/// hash table, responses that were sent, connections from outside, and the end of connections.
pub proof fn law_other_events_change_nothing<E, C>(
    event_loop: &mut EventLoop<E>,
    event: SwarmEvent<E, C>,
    turn: Turn<E, C>,
)
    requires
        match event {
            SwarmEvent::Behaviour(ComposedEvent::Kademlia(KademliaEvent::Other)) => true,
            SwarmEvent::Behaviour(
                ComposedEvent::RequestResponse(RequestResponseEvent::ResponseSent),
            ) => true,
            SwarmEvent::IncomingConnection => true,
            SwarmEvent::ConnectionClosed => true,
            SwarmEvent::IncomingConnectionError => true,
            _ => false,
        },
        call_ensures(EventLoop::<E>::run::<C>, (event_loop, Wake::Swarm(event)), turn),
    ensures
        turn == Turn::<E, C>::Effect(Effect::Nothing),
        final(event_loop)@ == old(event_loop)@,
{
}

/// Nobody is told anything without cause. Whoever advertises the node is told only by an event
/// that completes a query for which they wait; whoever looks for providers or requests a file,
/// only by an event that completes what they wait for, and exactly what it says; whoever dials or
/// listens, only by such an event or by the call that was made for them; the application is handed
/// only requests from peers.
pub proof fn law_nobody_is_told_without_cause<E, C>(
    event_loop: &mut EventLoop<E>,
    wake: Wake<E, C>,
    turn: Turn<E, C>,
)
    requires
        call_ensures(EventLoop::<E>::run::<C>, (event_loop, wake), turn),
        old(event_loop)@.accepts(wake),
    ensures
        match turn {
            Turn::Effect(Effect::Provided { sender }) => {
                &&& wake matches Wake::Swarm(
                    SwarmEvent::Behaviour(
                        ComposedEvent::Kademlia(KademliaEvent::StartProviding { id }),
                    ),
                )
                &&& old(event_loop)@.pending_start_providing.contains_key(id)
                &&& old(event_loop)@.pending_start_providing[id] == sender
            },
            Turn::Effect(Effect::Providers { sender, providers }) => {
                &&& wake matches Wake::Swarm(
                    SwarmEvent::Behaviour(
                        ComposedEvent::Kademlia(
                            KademliaEvent::GetProviders { id, providers: found },
                        ),
                    ),
                )
                &&& providers == found
                &&& old(event_loop)@.pending_get_providers.contains_key(id)
                &&& old(event_loop)@.pending_get_providers[id] == sender
            },
            Turn::Effect(Effect::Answered { sender, result: Ok(text) }) => {
                &&& wake matches Wake::Swarm(
                    SwarmEvent::Behaviour(
                        ComposedEvent::RequestResponse(
                            RequestResponseEvent::Message {
                                message: RequestResponseMessage::Response { request_id, response },
                            },
                        ),
                    ),
                )
                &&& text == response.0
                &&& old(event_loop)@.pending_request_file.contains_key(request_id)
                &&& old(event_loop)@.pending_request_file[request_id] == sender
            },
            Turn::Effect(Effect::Answered { sender, result: Err(told) }) => {
                &&& wake matches Wake::Swarm(
                    SwarmEvent::Behaviour(
                        ComposedEvent::RequestResponse(
                            RequestResponseEvent::OutboundFailure { request_id, error },
                        ),
                    ),
                )
                &&& told == error
                &&& old(event_loop)@.pending_request_file.contains_key(request_id)
                &&& old(event_loop)@.pending_request_file[request_id] == sender
            },
            Turn::Effect(Effect::Connected { sender, result }) => match wake {
                Wake::Finished(Finished::ListenOn { sender: caller, result: came }) => sender
                    == caller && result == came,
                Wake::Finished(Finished::Dial { sender: caller, result: came, .. }) => sender
                    == caller && result == came && came is Err,
                Wake::Swarm(SwarmEvent::ConnectionEstablished { peer_id, is_dialer }) => {
                    &&& is_dialer
                    &&& result is Ok
                    &&& old(event_loop)@.pending_dial.contains_key(peer_id@)
                    &&& old(event_loop)@.pending_dial[peer_id@] == sender
                },
                Wake::Swarm(
                    SwarmEvent::OutgoingConnectionError { peer_id: Some(peer_id), error },
                ) => {
                    &&& result == Err::<(), E>(error)
                    &&& old(event_loop)@.pending_dial.contains_key(peer_id@)
                    &&& old(event_loop)@.pending_dial[peer_id@] == sender
                },
                _ => false,
            },
            Turn::Effect(Effect::Emit { event: Event::InboundRequest { request, channel } }) => {
                &&& wake matches Wake::Swarm(
                    SwarmEvent::Behaviour(
                        ComposedEvent::RequestResponse(
                            RequestResponseEvent::Message {
                                message: RequestResponseMessage::Request {
                                    request: asked,
                                    channel: on,
                                },
                            },
                        ),
                    ),
                )
                &&& request == asked.0
                &&& channel == on
            },
            Turn::Effect(Effect::Print { .. }) => wake matches Wake::Swarm(event) && (
            event is NewListenAddr || event is Dialing),
            _ => true,
        },
{
}

/// The loop is prepared for everything but what must not happen: a dial of a peer that is being
/// dialed, the end of a query and the answer to a request for which nobody waits, the failure of a
/// peer's request, and what no node knows of. What the loop accepts on being woken up is what it
/// accepts as an event or as a command.
pub proof fn law_what_the_loop_accepts<E, C>(
    event_loop: EventLoop<E>,
    wake: Wake<E, C>,
    accepted: bool,
)
    requires
        call_ensures(EventLoop::<E>::accepts::<C>, (&event_loop, &wake), accepted),
    ensures
        accepted == match wake {
            Wake::Command(Some(Command::Dial { peer_id, .. })) =>
            !event_loop@.pending_dial.contains_key(peer_id@),
            Wake::Swarm(
                SwarmEvent::Behaviour(
                    ComposedEvent::Kademlia(KademliaEvent::StartProviding { id }),
                ),
            ) =>
            event_loop@.pending_start_providing.contains_key(id),
            Wake::Swarm(
                SwarmEvent::Behaviour(
                    ComposedEvent::Kademlia(KademliaEvent::GetProviders { id, .. }),
                ),
            ) =>
            event_loop@.pending_get_providers.contains_key(id),
            Wake::Swarm(
                SwarmEvent::Behaviour(
                    ComposedEvent::RequestResponse(
                        RequestResponseEvent::Message {
                            message: RequestResponseMessage::Response { request_id, .. },
                        },
                    ),
                ),
            ) =>
            event_loop@.pending_request_file.contains_key(request_id),
            Wake::Swarm(
                SwarmEvent::Behaviour(
                    ComposedEvent::RequestResponse(
                        RequestResponseEvent::OutboundFailure { request_id, .. },
                    ),
                ),
            ) =>
            event_loop@.pending_request_file.contains_key(request_id),
            Wake::Swarm(
                SwarmEvent::Behaviour(
                    ComposedEvent::RequestResponse(RequestResponseEvent::InboundFailure),
                ),
            ) => false,
            Wake::Swarm(SwarmEvent::Other) => false,
            _ => true,
        },
        accepted == event_loop@.accepts(wake),
        wake matches Wake::Swarm(event) ==> forall|b: bool| #[trigger]
            call_ensures(EventLoop::<E>::accepts_event::<C>, (&event_loop, &event), b) ==> b
                == accepted,
        wake matches Wake::Command(Some(command)) ==> forall|b: bool| #[trigger]
            call_ensures(EventLoop::<E>::accepts_command::<C>, (&event_loop, &command), b) ==> b
                == accepted,
{
}

/// What the loop does upon an event is what a turn for that reason does.
pub proof fn law_turn_is_handle_event<E, C>(
    part: &mut EventLoop<E>,
    event_loop: &mut EventLoop<E>,
    event: SwarmEvent<E, C>,
    effect: Effect<E, C>,
    turn: Turn<E, C>,
)
    requires
        old(part)@ == old(event_loop)@,
        call_ensures(EventLoop::<E>::handle_event::<C>, (part, event), effect),
        call_ensures(EventLoop::<E>::run::<C>, (event_loop, Wake::Swarm(event)), turn),
    ensures
        final(part)@ == final(event_loop)@,
        turn matches Turn::Effect(done) && (done == effect || (done matches Effect::Print { line }
            && effect matches Effect::Print { line: same } && line@ == same@)),
{
}

/// What the loop does upon the result of a call is what a turn for that reason does.
pub proof fn law_turn_is_handle_finished<E, C>(
    part: &mut EventLoop<E>,
    event_loop: &mut EventLoop<E>,
    finished: Finished<E>,
    effect: Effect<E, C>,
    turn: Turn<E, C>,
)
    requires
        old(part)@ == old(event_loop)@,
        call_ensures(EventLoop::<E>::handle_finished::<C>, (part, finished), effect),
        call_ensures(EventLoop::<E>::run::<C>, (event_loop, Wake::Finished(finished)), turn),
    ensures
        final(part)@ == final(event_loop)@,
        turn matches Turn::Effect(done) && (done == effect || (done matches Effect::Print { line }
            && effect matches Effect::Print { line: same } && line@ == same@)),
{
}

/// What the loop does upon a command is what a turn for that reason does.
pub proof fn law_turn_is_handle_command<E, C>(
    event_loop: &mut EventLoop<E>,
    command: Command<E, C>,
    call: SwarmCall<E, C>,
    turn: Turn<E, C>,
)
    requires
        call_ensures(EventLoop::<E>::handle_command::<C>, (&*old(event_loop), command), call),
        call_ensures(EventLoop::<E>::run::<C>, (event_loop, Wake::Command(Some(command))), turn),
    ensures
        match (call, turn) {
            (
                SwarmCall::Dial { peer_id, peer_addr, dial_addr, sender },
                Turn::Call(
                    SwarmCall::Dial {
                        peer_id: peer,
                        peer_addr: noted,
                        dial_addr: dialed,
                        sender: caller,
                    },
                ),
            ) => peer == peer_id && noted == peer_addr && dialed@ == dial_addr@ && caller == sender,
            (
                SwarmCall::StartProviding { key, sender },
                Turn::Call(SwarmCall::StartProviding { key: same, sender: caller }),
            ) => same@ == key@ && caller == sender,
            (
                SwarmCall::GetProviders { key, sender },
                Turn::Call(SwarmCall::GetProviders { key: same, sender: caller }),
            ) => same@ == key@ && caller == sender,
            _ => turn == Turn::Call(call),
        },
{
}

} // verus!
