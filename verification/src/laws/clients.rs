//! How what a client asks for becomes what the network does, and how whoever asked is told.

use futures::channel::oneshot::Sender;
use vstd::prelude::*;
use vstd::utf8::*;

use crate::address::Address;
use crate::codec::{GenericRequest, GenericResponse};
use crate::command::{Client, Command};
use crate::event::{
    ComposedEvent, KademliaEvent, RequestResponseEvent, RequestResponseMessage, SwarmEvent,
};
use crate::event_loop::{Effect, EventLoop, Finished, LoopState, SwarmCall, Turn, Wake};
use crate::laws::turns::law_dials_the_peer_at_its_address;
use crate::laws::{
    about_dial, about_file, about_finding, about_providing, after_all, law_dial_is_settled,
    law_file_request_is_answered, law_providers_are_handed_over, law_providing_is_confirmed,
    request_answer, settled_peer,
};
use crate::peer::{PeerId, PeerSet};

verus! {

/// A client that wants to listen has the network listen at the very address.
pub proof fn law_client_listens<E, C>(
    client: Client,
    addr: Address,
    sender: Sender<Result<(), E>>,
    command: Command<E, C>,
    event_loop: &mut EventLoop<E>,
    turn: Turn<E, C>,
)
    requires
        call_ensures(
            Client::start_listening::<E, C>,
            (&client, addr, sender),
            command,
        ),
        call_ensures(EventLoop::<E>::run::<C>, (event_loop, Wake::Command(Some(command))), turn),
    ensures
        turn == Turn::<E, C>::Call(SwarmCall::ListenOn { addr, sender }),
        final(event_loop)@ == old(event_loop)@,
{
}

/// A client that dials a peer has the network dial the very peer at the very address.
pub proof fn law_client_dials<E, C>(
    client: Client,
    peer_id: PeerId,
    peer_addr: Address,
    sender: Sender<Result<(), E>>,
    command: Command<E, C>,
    event_loop: &mut EventLoop<E>,
    turn: Turn<E, C>,
)
    requires
        call_ensures(
            Client::dial::<E, C>,
            (&client, peer_id, peer_addr, sender),
            command,
        ),
        call_ensures(EventLoop::<E>::run::<C>, (event_loop, Wake::Command(Some(command))), turn),
    ensures
        ({
            let n = peer_addr@.len() as int;
            &&& turn matches Turn::Call(
                SwarmCall::Dial { peer_id: peer, peer_addr: noted, dial_addr, sender: caller },
            )
            &&& peer == peer_id && noted == peer_addr && caller == sender
            &&& dial_addr@.take(n) == peer_addr@
            &&& dial_addr@.skip(n) == seq![0xa5u8, 0x03u8, peer_id@.len() as u8] + peer_id@
        }),
        final(event_loop)@ == old(event_loop)@,
{
    law_dials_the_peer_at_its_address(event_loop, peer_id, peer_addr, sender, turn);
    if let Turn::Call(SwarmCall::Dial { dial_addr, .. }) = turn {
        let n = peer_addr@.len() as int;
        assert forall|i: int| n + 3 <= i < dial_addr@.len() implies dial_addr@[i] == peer_id@[i - n
            - 3] by {
            assert(dial_addr@[i] == dial_addr@.skip(n + 3)[i - n - 3]);
        }
        assert(dial_addr@.skip(n) =~= seq![0xa5u8, 0x03u8, peer_id@.len() as u8] + peer_id@);
    }
}

/// A client that provides a file has the network advertise the very name.
pub proof fn law_client_provides<E, C>(
    client: Client,
    file_name: String,
    sender: Sender<()>,
    command: Command<E, C>,
    event_loop: &mut EventLoop<E>,
    turn: Turn<E, C>,
)
    requires
        call_ensures(
            Client::start_providing::<E, C>,
            (&client, file_name, sender),
            command,
        ),
        call_ensures(EventLoop::<E>::run::<C>, (event_loop, Wake::Command(Some(command))), turn),
    ensures
        turn matches Turn::Call(SwarmCall::StartProviding { key, sender: caller }) && key@
            == encode_utf8(file_name@) && caller == sender,
        final(event_loop)@ == old(event_loop)@,
{
}

/// A client that is a root has the network advertise the very name.
pub proof fn law_client_boots_root<E, C>(
    client: Client,
    up_root: String,
    sender: Sender<()>,
    command: Command<E, C>,
    event_loop: &mut EventLoop<E>,
    turn: Turn<E, C>,
)
    requires
        call_ensures(
            Client::boot_root::<E, C>,
            (&client, up_root, sender),
            command,
        ),
        call_ensures(EventLoop::<E>::run::<C>, (event_loop, Wake::Command(Some(command))), turn),
    ensures
        turn matches Turn::Call(SwarmCall::StartProviding { key, sender: caller }) && key@
            == encode_utf8(up_root@) && caller == sender,
        final(event_loop)@ == old(event_loop)@,
{
}

/// A client that looks for providers has the network look for those of the very name.
pub proof fn law_client_seeks<E, C>(
    client: Client,
    file_name: String,
    sender: Sender<PeerSet>,
    command: Command<E, C>,
    event_loop: &mut EventLoop<E>,
    turn: Turn<E, C>,
)
    requires
        call_ensures(
            Client::get_providers::<E, C>,
            (&client, file_name, sender),
            command,
        ),
        call_ensures(EventLoop::<E>::run::<C>, (event_loop, Wake::Command(Some(command))), turn),
    ensures
        turn matches Turn::Call(SwarmCall::GetProviders { key, sender: caller }) && key@
            == encode_utf8(file_name@) && caller == sender,
        final(event_loop)@ == old(event_loop)@,
{
}

/// A client that requests a file has the network send the whole text to the very peer.
pub proof fn law_client_requests_file<E, C>(
    client: Client,
    peer: PeerId,
    file_name: String,
    sender: Sender<Result<String, E>>,
    command: Command<E, C>,
    event_loop: &mut EventLoop<E>,
    turn: Turn<E, C>,
)
    requires
        call_ensures(
            Client::request_file::<E, C>,
            (&client, peer, file_name, sender),
            command,
        ),
        call_ensures(EventLoop::<E>::run::<C>, (event_loop, Wake::Command(Some(command))), turn),
    ensures
        turn == Turn::<E, C>::Call(
            SwarmCall::RequestFile { peer, request: GenericRequest(file_name), sender },
        ),
        final(event_loop)@ == old(event_loop)@,
{
}

/// A client that requests a lease has the network send the whole text to the very peer.
pub proof fn law_client_requests_lease<E, C>(
    client: Client,
    peer: PeerId,
    lease_number: String,
    sender: Sender<Result<String, E>>,
    command: Command<E, C>,
    event_loop: &mut EventLoop<E>,
    turn: Turn<E, C>,
)
    requires
        call_ensures(
            Client::request_lease::<E, C>,
            (&client, peer, lease_number, sender),
            command,
        ),
        call_ensures(EventLoop::<E>::run::<C>, (event_loop, Wake::Command(Some(command))), turn),
    ensures
        turn == Turn::<E, C>::Call(
            SwarmCall::RequestLease { peer, request: GenericRequest(lease_number), sender },
        ),
        final(event_loop)@ == old(event_loop)@,
{
}

/// A client that responds with a file has the network send the whole text on the very channel.
pub proof fn law_client_responds_with_file<E, C>(
    client: Client,
    file: String,
    channel: C,
    command: Command<E, C>,
    event_loop: &mut EventLoop<E>,
    turn: Turn<E, C>,
)
    requires
        call_ensures(
            Client::respond_file::<E, C>,
            (&client, file, channel),
            command,
        ),
        call_ensures(EventLoop::<E>::run::<C>, (event_loop, Wake::Command(Some(command))), turn),
    ensures
        turn == Turn::<E, C>::Call(
            SwarmCall::SendResponse { channel, response: GenericResponse(file) },
        ),
        final(event_loop)@ == old(event_loop)@,
{
}

/// A client that responds with a lease has the network send the whole text on the very channel.
pub proof fn law_client_responds_with_lease<E, C>(
    client: Client,
    num_lease: String,
    channel: C,
    command: Command<E, C>,
    event_loop: &mut EventLoop<E>,
    turn: Turn<E, C>,
)
    requires
        call_ensures(
            Client::respond_lease::<E, C>,
            (&client, num_lease, channel),
            command,
        ),
        call_ensures(EventLoop::<E>::run::<C>, (event_loop, Wake::Command(Some(command))), turn),
    ensures
        turn == Turn::<E, C>::Call(
            SwarmCall::SendResponse { channel, response: GenericResponse(num_lease) },
        ),
        final(event_loop)@ == old(event_loop)@,
{
}

/// Whoever has the node advertised, as a provider or as a root, is told exactly when the query for
/// the very name is complete, whatever else happens in between.
pub proof fn law_client_learns_that_it_is_advertised<E, C>(
    client: Client,
    name: String,
    sender: Sender<()>,
    command: Command<E, C>,
    asked: &mut EventLoop<E>,
    call: Turn<E, C>,
    caller: Sender<()>,
    query_id: u64,
    noted: &mut EventLoop<E>,
    waits: Turn<E, C>,
    wakes: Seq<Wake<E, C>>,
    settled: &mut EventLoop<E>,
    told: Turn<E, C>,
)
    requires
        call_ensures(
            Client::start_providing::<E, C>,
            (&client, name, sender),
            command,
        ) || call_ensures(
            Client::boot_root::<E, C>,
            (&client, name, sender),
            command,
        ),
        call_ensures(EventLoop::<E>::run::<C>, (asked, Wake::Command(Some(command))), call),
        call matches Turn::Call(
            SwarmCall::StartProviding { sender: carried, .. },
        ) ==> caller == carried,
        old(noted)@ == final(asked)@,
        call_ensures(
            EventLoop::<E>::run::<C>,
            (noted, Wake::Finished(Finished::StartProviding { query_id, sender: caller })),
            waits,
        ),
        old(settled)@ == after_all(final(noted)@, wakes),
        forall|i: int| 0 <= i < wakes.len() ==> !about_providing(#[trigger] wakes[i], query_id),
        call_ensures(
            EventLoop::<E>::run::<C>,
            (
                settled,
                Wake::Swarm(
                    SwarmEvent::Behaviour(
                        ComposedEvent::Kademlia(KademliaEvent::StartProviding { id: query_id }),
                    ),
                ),
            ),
            told,
        ),
    ensures
        call matches Turn::Call(SwarmCall::StartProviding { .. }),
        waits == Turn::<E, C>::Effect(Effect::Nothing),
        old(settled)@.accepts(
            Wake::<E,
            C>::Swarm(
                SwarmEvent::Behaviour(
                    ComposedEvent::Kademlia(KademliaEvent::StartProviding { id: query_id }),
                ),
            ),
        ),
        told == Turn::<E, C>::Effect(Effect::Provided { sender }),
        !final(settled)@.pending_start_providing.contains_key(query_id),
{
    let event = SwarmEvent::<E, C>::Behaviour(
        ComposedEvent::Kademlia(KademliaEvent::StartProviding { id: query_id }),
    );
    law_providing_is_confirmed(
        old(noted)@,
        query_id,
        caller,
        wakes,
        event,
        Effect::Provided { sender: caller },
    );
}

/// Whoever looks for providers is handed the very set with which the query for the very name is
/// complete, whatever else happens in between.
pub proof fn law_client_gets_the_providers<E, C>(
    client: Client,
    file_name: String,
    sender: Sender<PeerSet>,
    command: Command<E, C>,
    asked: &mut EventLoop<E>,
    call: Turn<E, C>,
    caller: Sender<PeerSet>,
    query_id: u64,
    providers: PeerSet,
    noted: &mut EventLoop<E>,
    waits: Turn<E, C>,
    wakes: Seq<Wake<E, C>>,
    settled: &mut EventLoop<E>,
    told: Turn<E, C>,
)
    requires
        call_ensures(
            Client::get_providers::<E, C>,
            (&client, file_name, sender),
            command,
        ),
        call_ensures(EventLoop::<E>::run::<C>, (asked, Wake::Command(Some(command))), call),
        call matches Turn::Call(
            SwarmCall::GetProviders { sender: carried, .. },
        ) ==> caller == carried,
        old(noted)@ == final(asked)@,
        call_ensures(
            EventLoop::<E>::run::<C>,
            (noted, Wake::Finished(Finished::GetProviders { query_id, sender: caller })),
            waits,
        ),
        old(settled)@ == after_all(final(noted)@, wakes),
        forall|i: int| 0 <= i < wakes.len() ==> !about_finding(#[trigger] wakes[i], query_id),
        call_ensures(
            EventLoop::<E>::run::<C>,
            (
                settled,
                Wake::Swarm(
                    SwarmEvent::Behaviour(
                        ComposedEvent::Kademlia(
                            KademliaEvent::GetProviders { id: query_id, providers },
                        ),
                    ),
                ),
            ),
            told,
        ),
    ensures
        call matches Turn::Call(SwarmCall::GetProviders { .. }),
        waits == Turn::<E, C>::Effect(Effect::Nothing),
        old(settled)@.accepts(
            Wake::<E,
            C>::Swarm(
                SwarmEvent::Behaviour(
                    ComposedEvent::Kademlia(
                        KademliaEvent::GetProviders { id: query_id, providers },
                    ),
                ),
            ),
        ),
        told == Turn::<E, C>::Effect(Effect::Providers { sender, providers }),
        !final(settled)@.pending_get_providers.contains_key(query_id),
{
    law_providers_are_handed_over::<E, C>(
        old(noted)@,
        query_id,
        caller,
        wakes,
        providers,
        Effect::Providers { sender: caller, providers },
    );
}

/// Whoever requests a file is handed the whole answer to that very request, or the very error with
/// which it failed, whatever else happens in between.
pub proof fn law_client_gets_the_answer<E, C>(
    client: Client,
    peer: PeerId,
    file_name: String,
    sender: Sender<Result<String, E>>,
    command: Command<E, C>,
    asked: &mut EventLoop<E>,
    call: Turn<E, C>,
    caller: Sender<Result<String, E>>,
    request_id: u64,
    event: SwarmEvent<E, C>,
    response: GenericResponse,
    error: E,
    noted: &mut EventLoop<E>,
    waits: Turn<E, C>,
    wakes: Seq<Wake<E, C>>,
    settled: &mut EventLoop<E>,
    told: Turn<E, C>,
)
    requires
        call_ensures(
            Client::request_file::<E, C>,
            (&client, peer, file_name, sender),
            command,
        ),
        call_ensures(EventLoop::<E>::run::<C>, (asked, Wake::Command(Some(command))), call),
        call matches Turn::Call(
            SwarmCall::RequestFile { sender: carried, .. },
        ) ==> caller == carried,
        old(noted)@ == final(asked)@,
        call_ensures(
            EventLoop::<E>::run::<C>,
            (noted, Wake::Finished(Finished::RequestFile { request_id, sender: caller })),
            waits,
        ),
        old(settled)@ == after_all(final(noted)@, wakes),
        forall|i: int| 0 <= i < wakes.len() ==> !about_file(#[trigger] wakes[i], request_id),
        call_ensures(EventLoop::<E>::run::<C>, (settled, Wake::Swarm(event)), told),
        event == SwarmEvent::<E, C>::Behaviour(
            ComposedEvent::RequestResponse(
                RequestResponseEvent::Message {
                    message: RequestResponseMessage::Response { request_id, response },
                },
            ),
        ) || event == SwarmEvent::<E, C>::Behaviour(
            ComposedEvent::RequestResponse(
                RequestResponseEvent::OutboundFailure { request_id, error },
            ),
        ),
    ensures
        call matches Turn::Call(SwarmCall::RequestFile { .. }),
        waits == Turn::<E, C>::Effect(Effect::Nothing),
        old(settled)@.accepts(Wake::<E, C>::Swarm(event)),
        told == Turn::<E, C>::Effect(
            Effect::Answered {
                sender,
                result: if event == SwarmEvent::<E, C>::Behaviour(
                    ComposedEvent::RequestResponse(
                        RequestResponseEvent::OutboundFailure { request_id, error },
                    ),
                ) {
                    Err(error)
                } else {
                    Ok(response.0)
                },
            },
        ),
        !final(settled)@.pending_request_file.contains_key(request_id),
{
    let result = request_answer(event)->Some_0.1;
    law_file_request_is_answered(
        old(noted)@,
        request_id,
        caller,
        wakes,
        event,
        result,
        Effect::Answered { sender: caller, result },
    );
}

/// Whoever dials a peer is told that the very peer is connected, or the very error with which it
/// was not reached, whatever else happens in between.
pub proof fn law_client_learns_of_the_connection<E, C>(
    client: Client,
    peer_id: PeerId,
    peer_addr: Address,
    sender: Sender<Result<(), E>>,
    command: Command<E, C>,
    asked: &mut EventLoop<E>,
    call: Turn<E, C>,
    caller: Sender<Result<(), E>>,
    event: SwarmEvent<E, C>,
    connected: PeerId,
    error: E,
    noted: &mut EventLoop<E>,
    waits: Turn<E, C>,
    wakes: Seq<Wake<E, C>>,
    settled: &mut EventLoop<E>,
    told: Turn<E, C>,
)
    requires
        call_ensures(
            Client::dial::<E, C>,
            (&client, peer_id, peer_addr, sender),
            command,
        ),
        call_ensures(EventLoop::<E>::run::<C>, (asked, Wake::Command(Some(command))), call),
        call matches Turn::Call(SwarmCall::Dial { sender: carried, .. }) ==> caller == carried,
        old(noted)@ == final(asked)@,
        call_ensures(
            EventLoop::<E>::run::<C>,
            (noted, Wake::Finished(Finished::Dial { peer_id, sender: caller, result: Ok(()) })),
            waits,
        ),
        old(settled)@ == after_all(final(noted)@, wakes),
        forall|i: int| 0 <= i < wakes.len() ==> !about_dial(#[trigger] wakes[i], peer_id@),
        call_ensures(EventLoop::<E>::run::<C>, (settled, Wake::Swarm(event)), told),
        connected@ == peer_id@,
        event == (SwarmEvent::<E, C>::ConnectionEstablished { peer_id: connected, is_dialer: true })
            || event == (SwarmEvent::<E, C>::OutgoingConnectionError {
            peer_id: Some(connected),
            error,
        }),
    ensures
        call matches Turn::Call(SwarmCall::Dial { .. }),
        waits == Turn::<E, C>::Effect(Effect::Nothing),
        old(settled)@.accepts(Wake::<E, C>::Swarm(event)),
        told == Turn::<E, C>::Effect(
            Effect::Connected {
                sender,
                result: if event is OutgoingConnectionError {
                    Err(error)
                } else {
                    Ok(())
                },
            },
        ),
        !final(settled)@.pending_dial.contains_key(peer_id@),
{
    assert(settled_peer(event) == Some(peer_id@));
    law_dial_is_settled(
        old(noted)@,
        peer_id,
        caller,
        wakes,
        event,
        told->Effect_0,
    );
}

/// A request for a lease stays pending while others come and go.
proof fn lemma_lease_kept<E, C>(state: LoopState<E>, wakes: Seq<Wake<E, C>>, id: u64)
    requires
        forall|i: int|
            0 <= i < wakes.len() ==> !((#[trigger] wakes[i]) matches Wake::Finished(
                Finished::RequestLease { request_id, .. },
            ) && request_id == id),
        forall|i: int|
            0 <= i < wakes.len() ==> !((#[trigger] wakes[i]) matches Wake::Finished(
                Finished::RequestFile { request_id, .. },
            ) && request_id == id),
        !state.pending_request_file.contains_key(id),
    ensures
        after_all(state, wakes).pending_request_lease.contains_key(id)
            == state.pending_request_lease.contains_key(id),
        after_all(state, wakes).pending_request_lease[id] == state.pending_request_lease[id],
        !after_all(state, wakes).pending_request_file.contains_key(id),
    decreases wakes.len(),
{
    if wakes.len() > 0 {
        let before = wakes.drop_last();
        assert forall|i: int| 0 <= i < before.len() implies #[trigger] before[i] == wakes[i] by {}
        lemma_lease_kept(state, before, id);
        assert(wakes.last() == wakes[wakes.len() - 1]);
    }
}

/// A request for a lease is sent with its whole text to the very peer, but neither its answer nor
/// its failure is accepted, whatever else happens in between, as long as no other request runs
/// under its id: whoever requested the lease goes on waiting.
pub proof fn law_client_waits_for_the_lease<E, C>(
    client: Client,
    peer: PeerId,
    lease_number: String,
    sender: Sender<Result<String, E>>,
    command: Command<E, C>,
    asked: &mut EventLoop<E>,
    call: Turn<E, C>,
    caller: Sender<Result<String, E>>,
    request_id: u64,
    noted: &mut EventLoop<E>,
    waits: Turn<E, C>,
    wakes: Seq<Wake<E, C>>,
    later: EventLoop<E>,
    event: SwarmEvent<E, C>,
    accepted: bool,
)
    requires
        call_ensures(
            Client::request_lease::<E, C>,
            (&client, peer, lease_number, sender),
            command,
        ),
        call_ensures(EventLoop::<E>::run::<C>, (asked, Wake::Command(Some(command))), call),
        call matches Turn::Call(SwarmCall::RequestLease { sender: carried, .. }) ==> caller
            == carried,
        old(noted)@ == final(asked)@,
        !old(noted)@.pending_request_file.contains_key(request_id),
        call_ensures(
            EventLoop::<E>::run::<C>,
            (noted, Wake::Finished(Finished::RequestLease { request_id, sender: caller })),
            waits,
        ),
        forall|i: int|
            0 <= i < wakes.len() ==> !((#[trigger] wakes[i]) matches Wake::Finished(
                Finished::RequestLease { request_id: id, .. },
            ) && id == request_id),
        forall|i: int|
            0 <= i < wakes.len() ==> !((#[trigger] wakes[i]) matches Wake::Finished(
                Finished::RequestFile { request_id: id, .. },
            ) && id == request_id),
        later@ == after_all(final(noted)@, wakes),
        request_answer(event) is Some && request_answer(event)->Some_0.0 == request_id,
        call_ensures(EventLoop::<E>::accepts::<C>, (&later, &Wake::Swarm(event)), accepted),
    ensures
        call == Turn::<E, C>::Call(
            SwarmCall::RequestLease { peer, request: GenericRequest(lease_number), sender },
        ),
        waits == Turn::<E, C>::Effect(Effect::Nothing),
        !accepted,
        later@.pending_request_lease.contains_key(request_id),
        later@.pending_request_lease[request_id] == sender,
{
    lemma_lease_kept(final(noted)@, wakes, request_id);
}

} // verus!
