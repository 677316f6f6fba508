//! What holds of the loop over any number of turns, and of two nodes that exchange a file.

pub mod clients;
pub mod exchange;
pub mod messages;
pub mod sessions;
pub mod turns;

use futures::channel::oneshot::Sender;
use vstd::prelude::*;
use vstd::utf8::*;

use crate::codec::{
    law_written_text_is_read_back, payload_text, GenericRequest, GenericResponse, MAX_MESSAGE_LEN,
};
use crate::command::Command;
use crate::event::{
    ComposedEvent, KademliaEvent, RequestResponseEvent, RequestResponseMessage, SwarmEvent,
};
use crate::event_loop::{Effect, Finished, LoopState, SwarmCall, Turn, Wake};
use crate::peer::{PeerId, PeerSet};
use crate::search::{
    after_steps, all_found, ends_search, law_search_gives_all_that_it_found, progress_event,
    QueryProgress, QueryStep,
};
use crate::session::{argument_name, Notice, SessionState, Stage, Task};

verus! {

/// The state after the loop was woken up again and again.
pub open spec fn after_all<E, C>(state: LoopState<E>, wakes: Seq<Wake<E, C>>) -> LoopState<E>
    decreases wakes.len(),
{
    if wakes.len() == 0 {
        state
    } else {
        after_all(state, wakes.drop_last()).after(wakes.last())
    }
}

/// The request whose answer or failure an event is, and what the event has to say of it.
pub open spec fn request_answer<E, C>(event: SwarmEvent<E, C>) -> Option<
    (u64, Result<String, E>),
> {
    match event {
        SwarmEvent::Behaviour(ComposedEvent::RequestResponse(e)) => match e {
            RequestResponseEvent::Message {
                message: RequestResponseMessage::Response { request_id, response },
            } => Some((request_id, Ok(response.0))),
            RequestResponseEvent::OutboundFailure { request_id, error } => Some(
                (request_id, Err(error)),
            ),
            _ => None,
        },
        _ => None,
    }
}

/// The peer that is connected, or found not to be reachable, with an event, as far as this
/// settles a dial.
pub open spec fn settled_peer<E, C>(event: SwarmEvent<E, C>) -> Option<Seq<u8>> {
    match event {
        SwarmEvent::ConnectionEstablished { peer_id, is_dialer: true } => Some(peer_id@),
        SwarmEvent::OutgoingConnectionError { peer_id: Some(peer_id), .. } => Some(peer_id@),
        _ => None,
    }
}

/// The query of a provider that an event completes.
pub open spec fn completed_providing<E, C>(event: SwarmEvent<E, C>) -> Option<u64> {
    match event {
        SwarmEvent::Behaviour(ComposedEvent::Kademlia(KademliaEvent::StartProviding { id })) =>
        Some(id),
        _ => None,
    }
}

/// The query for providers that an event completes.
pub open spec fn completed_finding<E, C>(event: SwarmEvent<E, C>) -> Option<u64> {
    match event {
        SwarmEvent::Behaviour(ComposedEvent::Kademlia(KademliaEvent::GetProviders { id, .. })) =>
        Some(id),
        _ => None,
    }
}

/// Whether a turn of the loop is about the request for a file with an id.
pub open spec fn about_file<E, C>(wake: Wake<E, C>, id: u64) -> bool {
    match wake {
        Wake::Swarm(event) => request_answer(event) is Some && request_answer(event)->Some_0.0
            == id,
        Wake::Finished(Finished::RequestFile { request_id, .. }) => request_id == id,
        _ => false,
    }
}

/// Whether a turn of the loop is about a dial of a peer.
pub open spec fn about_dial<E, C>(wake: Wake<E, C>, peer: Seq<u8>) -> bool {
    match wake {
        Wake::Swarm(event) => settled_peer(event) == Some(peer),
        Wake::Finished(Finished::Dial { peer_id, .. }) => peer_id@ == peer,
        _ => false,
    }
}

/// Whether a turn of the loop is about the query of a provider with an id.
pub open spec fn about_providing<E, C>(wake: Wake<E, C>, id: u64) -> bool {
    match wake {
        Wake::Swarm(event) => completed_providing(event) == Some(id),
        Wake::Finished(Finished::StartProviding { query_id, .. }) => query_id == id,
        _ => false,
    }
}

/// Whether a turn of the loop is about the query for providers with an id.
pub open spec fn about_finding<E, C>(wake: Wake<E, C>, id: u64) -> bool {
    match wake {
        Wake::Swarm(event) => completed_finding(event) == Some(id),
        Wake::Finished(Finished::GetProviders { query_id, .. }) => query_id == id,
        _ => false,
    }
}

/// Turns leave as it is whatever none of them is about.
proof fn lemma_kept<E, C>(state: LoopState<E>, wakes: Seq<Wake<E, C>>, id: u64, peer: Seq<u8>)
    ensures
        ({
            let after = after_all(state, wakes);
            &&& (forall|i: int| 0 <= i < wakes.len() ==> !about_file(#[trigger] wakes[i], id)) ==> {
                &&& after.pending_request_file.contains_key(id)
                    == state.pending_request_file.contains_key(id)
                &&& after.pending_request_file[id] == state.pending_request_file[id]
            }
            &&& (forall|i: int| 0 <= i < wakes.len() ==> !about_dial(#[trigger] wakes[i], peer)) ==> {
                &&& after.pending_dial.contains_key(peer) == state.pending_dial.contains_key(peer)
                &&& after.pending_dial[peer] == state.pending_dial[peer]
            }
            &&& (forall|i: int|
                0 <= i < wakes.len() ==> !about_providing(#[trigger] wakes[i], id)) ==> {
                &&& after.pending_start_providing.contains_key(id)
                    == state.pending_start_providing.contains_key(id)
                &&& after.pending_start_providing[id] == state.pending_start_providing[id]
            }
            &&& (forall|i: int| 0 <= i < wakes.len() ==> !about_finding(#[trigger] wakes[i], id)) ==> {
                &&& after.pending_get_providers.contains_key(id)
                    == state.pending_get_providers.contains_key(id)
                &&& after.pending_get_providers[id] == state.pending_get_providers[id]
            }
        }),
    decreases wakes.len(),
{
    if wakes.len() > 0 {
        let before = wakes.drop_last();
        lemma_kept(state, before, id, peer);
        assert(wakes.last() == wakes[wakes.len() - 1]);
    }
}

/// Whoever requests a file is handed the answer to that very request, or its failure, whatever
/// else happens and is asked for in between; and then waits no longer.
pub proof fn law_file_request_is_answered<E, C>(
    state: LoopState<E>,
    request_id: u64,
    sender: Sender<Result<String, E>>,
    wakes: Seq<Wake<E, C>>,
    event: SwarmEvent<E, C>,
    result: Result<String, E>,
    effect: Effect<E, C>,
)
    requires
        request_answer(event) == Some((request_id, result)),
        forall|i: int| 0 <= i < wakes.len() ==> !about_file(#[trigger] wakes[i], request_id),
    ensures
        ({
            let waiting = after_all(
                state.after_call(Finished::RequestFile { request_id, sender }),
                wakes,
            );
            &&& waiting.accepts_event(event)
            &&& waiting.event_effect(event, effect) <==> effect == (Effect::<E, C>::Answered {
                sender,
                result,
            })
            &&& !waiting.after_event(event).pending_request_file.contains_key(request_id)
        }),
{
    lemma_kept(
        state.after_call(Finished::RequestFile { request_id, sender }),
        wakes,
        request_id,
        Seq::empty(),
    );
}

/// Whoever dials a peer is told once the peer is connected, or found not to be reachable,
/// whatever else happens and is asked for in between; and then waits no longer.
pub proof fn law_dial_is_settled<E, C>(
    state: LoopState<E>,
    peer_id: PeerId,
    sender: Sender<Result<(), E>>,
    wakes: Seq<Wake<E, C>>,
    event: SwarmEvent<E, C>,
    effect: Effect<E, C>,
)
    requires
        settled_peer(event) == Some(peer_id@),
        forall|i: int| 0 <= i < wakes.len() ==> !about_dial(#[trigger] wakes[i], peer_id@),
    ensures
        ({
            let waiting = after_all(
                state.after_call(Finished::Dial { peer_id, sender, result: Ok(()) }),
                wakes,
            );
            &&& waiting.accepts_event(event)
            &&& waiting.event_effect(event, effect) <==> effect == (Effect::<E, C>::Connected {
                sender,
                result: match event {
                    SwarmEvent::OutgoingConnectionError { error, .. } => Err(error),
                    _ => Ok(()),
                },
            })
            &&& !waiting.after_event(event).pending_dial.contains_key(peer_id@)
        }),
{
    lemma_kept(
        state.after_call(Finished::Dial { peer_id, sender, result: Ok(()) }),
        wakes,
        0,
        peer_id@,
    );
}

/// Whoever advertises the local node is told once that very query is complete, whatever else
/// happens and is asked for in between; and then waits no longer.
pub proof fn law_providing_is_confirmed<E, C>(
    state: LoopState<E>,
    query_id: u64,
    sender: Sender<()>,
    wakes: Seq<Wake<E, C>>,
    event: SwarmEvent<E, C>,
    effect: Effect<E, C>,
)
    requires
        completed_providing(event) == Some(query_id),
        forall|i: int| 0 <= i < wakes.len() ==> !about_providing(#[trigger] wakes[i], query_id),
    ensures
        ({
            let waiting = after_all(
                state.after_call(Finished::StartProviding { query_id, sender }),
                wakes,
            );
            &&& waiting.accepts_event(event)
            &&& waiting.event_effect(event, effect) <==> effect == (Effect::<E, C>::Provided {
                sender,
            })
            &&& !waiting.after_event(event).pending_start_providing.contains_key(query_id)
        }),
{
    lemma_kept(
        state.after_call(Finished::StartProviding { query_id, sender }),
        wakes,
        query_id,
        Seq::empty(),
    );
}

/// Whoever looks for providers is handed those with which this very query is reported complete,
/// whatever else happens and is asked for in between; and then waits no longer.
pub proof fn law_providers_are_handed_over<E, C>(
    state: LoopState<E>,
    query_id: u64,
    sender: Sender<PeerSet>,
    wakes: Seq<Wake<E, C>>,
    providers: PeerSet,
    effect: Effect<E, C>,
)
    requires
        forall|i: int| 0 <= i < wakes.len() ==> !about_finding(#[trigger] wakes[i], query_id),
    ensures
        ({
            let waiting = after_all(
                state.after_call(Finished::GetProviders { query_id, sender }),
                wakes,
            );
            let event = SwarmEvent::<E, C>::Behaviour(
                ComposedEvent::Kademlia(KademliaEvent::GetProviders { id: query_id, providers }),
            );
            &&& waiting.accepts_event(event)
            &&& waiting.event_effect(event, effect) <==> effect == (Effect::<E, C>::Providers {
                sender,
                providers,
            })
            &&& !waiting.after_event(event).pending_get_providers.contains_key(query_id)
        }),
{
    lemma_kept(
        state.after_call(Finished::GetProviders { query_id, sender }),
        wakes,
        query_id,
        Seq::empty(),
    );
}

/// Whoever looks for providers is handed all that this very query found in any of its steps, and
/// no others, whatever steps other queries take, and whatever else happens and is asked for in
/// between.
pub proof fn law_all_providers_are_handed_over<E, C>(
    searches: Map<u64, Set<Seq<u8>>>,
    steps: Seq<QueryStep>,
    found: PeerSet,
    event: KademliaEvent,
    state: LoopState<E>,
    query_id: u64,
    sender: Sender<PeerSet>,
    wakes: Seq<Wake<E, C>>,
    effect: Effect<E, C>,
)
    requires
        !searches.contains_key(query_id),
        forall|i: int| 0 <= i < steps.len() ==> !ends_search(#[trigger] steps[i], query_id),
        progress_event(
            after_steps(searches, steps),
            query_id,
            QueryProgress::Found { providers: found },
            true,
            Some(event),
        ),
        forall|i: int| 0 <= i < wakes.len() ==> !about_finding(#[trigger] wakes[i], query_id),
        after_all(
            state.after_call(Finished::GetProviders { query_id, sender }),
            wakes,
        ).event_effect(SwarmEvent::Behaviour(ComposedEvent::Kademlia(event)), effect),
    ensures
        ({
            let last = QueryStep {
                id: query_id,
                progress: QueryProgress::Found { providers: found },
                last: true,
            };
            &&& effect matches Effect::Providers { sender: told, providers }
            &&& told == sender
            &&& providers@ == all_found(steps.push(last), query_id)
        }),
{
    law_search_gives_all_that_it_found(searches, steps, query_id, found, Some(event));
    law_providers_are_handed_over(
        state,
        query_id,
        sender,
        wakes,
        event->GetProviders_providers,
        effect,
    );
}

/// A peer that is being dialed cannot be dialed a second time, until it is connected or found
/// not to be reachable; then it can.
pub proof fn law_peer_is_dialed_once<E, C>(
    state: LoopState<E>,
    peer_id: PeerId,
    sender: Sender<Result<(), E>>,
    wakes: Seq<Wake<E, C>>,
    again: Command<E, C>,
    event: SwarmEvent<E, C>,
)
    requires
        again matches Command::Dial { peer_id: same, .. } && same@ == peer_id@,
        settled_peer(event) == Some(peer_id@),
        forall|i: int| 0 <= i < wakes.len() ==> !about_dial(#[trigger] wakes[i], peer_id@),
    ensures
        ({
            let waiting = after_all(
                state.after_call(Finished::Dial { peer_id, sender, result: Ok(()) }),
                wakes,
            );
            &&& !waiting.accepts_command(again)
            &&& waiting.after_event(event).accepts_command(again)
        }),
{
    lemma_kept(
        state.after_call(Finished::Dial { peer_id, sender, result: Ok(()) }),
        wakes,
        0,
        peer_id@,
    );
}

/// A request for a lease stays pending: nothing that happens settles it, and neither its answer
/// nor its failure is accepted, unless a request for a file runs under the same id.
pub proof fn law_lease_request_stays_pending<E, C>(
    state: LoopState<E>,
    request_id: u64,
    event: SwarmEvent<E, C>,
)
    ensures
        state.after_event(event).pending_request_lease == state.pending_request_lease,
        request_answer(event) is Some && request_answer(event)->Some_0.0 == request_id ==> (
        state.accepts_event(event) <==> state.pending_request_file.contains_key(request_id)),
{
}

/// Nobody waits who has not asked: each who waits in a loop that started with nobody waiting is
/// there because of a call that was made on their behalf, under the very id or for the very peer.
pub proof fn law_only_callers_wait<E, C>(local_peer_id: Seq<u8>, wakes: Seq<Wake<E, C>>)
    ensures
        ({
            let state = after_all(LoopState::<E>::start(local_peer_id), wakes);
            &&& state.local_peer_id == local_peer_id
            &&& forall|peer: Seq<u8>| #[trigger]
                state.pending_dial.contains_key(peer) ==> exists|i: int|
                    0 <= i < wakes.len() && dials(
                        #[trigger] wakes[i],
                        peer,
                        state.pending_dial[peer],
                    )
            &&& forall|id: u64| #[trigger]
                state.pending_start_providing.contains_key(id) ==> wakes.contains(
                    Wake::Finished(
                        Finished::StartProviding {
                            query_id: id,
                            sender: state.pending_start_providing[id],
                        },
                    ),
                )
            &&& forall|id: u64| #[trigger]
                state.pending_get_providers.contains_key(id) ==> wakes.contains(
                    Wake::Finished(
                        Finished::GetProviders {
                            query_id: id,
                            sender: state.pending_get_providers[id],
                        },
                    ),
                )
            &&& forall|id: u64| #[trigger]
                state.pending_request_file.contains_key(id) ==> wakes.contains(
                    Wake::Finished(
                        Finished::RequestFile {
                            request_id: id,
                            sender: state.pending_request_file[id],
                        },
                    ),
                )
            &&& forall|id: u64| #[trigger]
                state.pending_request_lease.contains_key(id) ==> wakes.contains(
                    Wake::Finished(
                        Finished::RequestLease {
                            request_id: id,
                            sender: state.pending_request_lease[id],
                        },
                    ),
                )
        }),
    decreases wakes.len(),
{
    let start = LoopState::<E>::start(local_peer_id);
    let state = after_all(start, wakes);
    if wakes.len() > 0 {
        let earlier = wakes.drop_last();
        let before = after_all(start, earlier);
        let last = wakes.last();
        let n = wakes.len() - 1;
        law_only_callers_wait(local_peer_id, earlier);
        assert(wakes[n] == last);
        assert forall|w: Wake<E, C>| earlier.contains(w) implies wakes.contains(w) by {
            let i = choose|i: int| 0 <= i < earlier.len() && earlier[i] == w;
            assert(wakes[i] == w);
        }
        assert(wakes.contains(last));
        assert forall|peer: Seq<u8>| #[trigger]
            state.pending_dial.contains_key(peer) implies exists|i: int|
            0 <= i < wakes.len() && dials(#[trigger] wakes[i], peer, state.pending_dial[peer]) by {
            if !dials(wakes[n], peer, state.pending_dial[peer]) {
                assert(before.pending_dial.contains_key(peer));
                assert(before.pending_dial[peer] == state.pending_dial[peer]);
                let i = choose|i: int|
                    0 <= i < earlier.len() && dials(
                        #[trigger] earlier[i],
                        peer,
                        before.pending_dial[peer],
                    );
                assert(wakes[i] == earlier[i]);
            }
        }
    }
}

/// Whether a turn is the one in which the loop learns that a peer is being dialed for a caller.
pub open spec fn dials<E, C>(
    wake: Wake<E, C>,
    peer: Seq<u8>,
    caller: Sender<Result<(), E>>,
) -> bool {
    &&& wake matches Wake::Finished(Finished::Dial { peer_id, sender, result: Ok(_) })
    &&& peer_id@ == peer
    &&& sender == caller
}

/// An event settles what one caller waits for, namely the caller who is then told, or it
/// changes nothing.
pub proof fn law_event_settles_at_most_one<E, C>(
    state: LoopState<E>,
    event: SwarmEvent<E, C>,
    effect: Effect<E, C>,
)
    requires
        state.accepts_event(event),
        state.event_effect(event, effect),
    ensures
        match effect {
            Effect::Provided { sender } => exists|id: u64|
                {
                    &&& #[trigger] state.pending_start_providing.contains_key(id)
                    &&& state.pending_start_providing[id] == sender
                    &&& state.after_event(event) == (LoopState {
                        pending_start_providing: state.pending_start_providing.remove(id),
                        ..state
                    })
                },
            Effect::Providers { sender, .. } => exists|id: u64|
                {
                    &&& #[trigger] state.pending_get_providers.contains_key(id)
                    &&& state.pending_get_providers[id] == sender
                    &&& state.after_event(event) == (LoopState {
                        pending_get_providers: state.pending_get_providers.remove(id),
                        ..state
                    })
                },
            Effect::Answered { sender, .. } => exists|id: u64|
                {
                    &&& #[trigger] state.pending_request_file.contains_key(id)
                    &&& state.pending_request_file[id] == sender
                    &&& state.after_event(event) == (LoopState {
                        pending_request_file: state.pending_request_file.remove(id),
                        ..state
                    })
                },
            Effect::Connected { sender, .. } => exists|peer: Seq<u8>|
                {
                    &&& #[trigger] state.pending_dial.contains_key(peer)
                    &&& state.pending_dial[peer] == sender
                    &&& state.after_event(event) == (LoopState {
                        pending_dial: state.pending_dial.remove(peer),
                        ..state
                    })
                },
            _ => state.after_event(event) == state,
        },
{
    if effect is Nothing || effect is Emit || effect is Print {
        assert(state.after_event(event) =~= state);
    }
}

/// The loop comes to an end when there will be no more commands, and for no other reason.
pub proof fn law_loop_ends_with_the_commands<E, C>(
    state: LoopState<E>,
    wake: Wake<E, C>,
    turn: Turn<E, C>,
)
    requires
        state.takes_turn(wake, turn),
    ensures
        turn == Turn::<E, C>::Stop <==> wake == Wake::<E, C>::Command(None),
{
}

/// The key under which a call advertises the local node, or looks for providers.
pub open spec fn call_key<E, C>(call: SwarmCall<E, C>) -> Option<Seq<u8>> {
    match call {
        SwarmCall::StartProviding { key, .. } => Some(key@),
        SwarmCall::GetProviders { key, .. } => Some(key@),
        _ => None,
    }
}

/// The name that a command advertises, or looks for.
pub open spec fn command_name<E, C>(command: Command<E, C>) -> Option<Seq<char>> {
    match command {
        Command::StartProviding { file_name, .. } => Some(file_name@),
        Command::GetProviders { file_name, .. } => Some(file_name@),
        Command::BootRoot { up_root, .. } => Some(up_root@),
        _ => None,
    }
}

/// What is advertised under a name, as a file or as a root, is looked for under the same key,
/// and nothing else is.
pub proof fn law_names_and_keys_correspond<E, C>(
    state: LoopState<E>,
    first: Command<E, C>,
    first_call: SwarmCall<E, C>,
    second: Command<E, C>,
    second_call: SwarmCall<E, C>,
)
    requires
        state.command_call(first, first_call),
        state.command_call(second, second_call),
        command_name(first) is Some,
        command_name(second) is Some,
    ensures
        call_key(first_call) is Some,
        call_key(first_call) == call_key(second_call) <==> command_name(first) == command_name(
            second,
        ),
{
    encode_utf8_decode_utf8(command_name(first)->Some_0);
    encode_utf8_decode_utf8(command_name(second)->Some_0);
}

/// What one node provides, another gets: the request of a node that gets a file, as written by
/// it and read by a node that provides a file of that name, has the provider send its file, and
/// the file, as written by the provider and read by the node that gets it, is what the latter
/// shows. Names and files must neither be empty nor too long: such a message cannot be read.
pub proof fn law_provided_file_is_got<C>(
    provider: SessionState,
    getter: SessionState,
    request: GenericRequest,
    channel: C,
    reading: SessionState,
    first: Task<C>,
    content: String,
    responding: SessionState,
    second: Task<C>,
    response: GenericResponse,
    ended: SessionState,
    third: Task<C>,
)
    requires
        provider.argument is Provide,
        provider.stage == Stage::Serving,
        getter.argument is Get,
        getter.stage == Stage::Asking,
        argument_name(provider.argument) == argument_name(getter.argument),
        argument_name(getter.argument).len() > 0,
        encode_utf8(argument_name(getter.argument)).len() <= MAX_MESSAGE_LEN,
        content@.len() > 0,
        encode_utf8(content@).len() <= MAX_MESSAGE_LEN,
        payload_text(encode_utf8(argument_name(getter.argument))) matches Ok(text) ==> text
            == request@,
        provider.step(Notice::Inbound { request: request.0, channel }, reading, first),
        reading.step(Notice::FileRead { content, channel }, responding, second),
        payload_text(encode_utf8(content@)) matches Ok(text) ==> text == response@,
        getter.step(Notice::Answered { answer: Some(response.0) }, ended, third),
    ensures
        payload_text(encode_utf8(argument_name(getter.argument))) is Ok,
        first == (Task::<C>::ReadFile { channel }),
        second == (Task::<C>::RespondFile { file: content, channel }),
        payload_text(encode_utf8(content@)) is Ok,
        third matches Task::Finish { line } && line@ == "Content of file "@ + argument_name(
            getter.argument,
        ) + ": "@ + content@,
{
    law_written_text_is_read_back(argument_name(getter.argument));
    law_written_text_is_read_back(content@);
}

} // verus!
