//! What two nodes exchange.

use futures::channel::oneshot::Sender;
use vstd::prelude::*;
use vstd::utf8::*;

use crate::codec::{CodecError, GenericExchangeCodec, GenericRequest, GenericResponse};
use crate::command::{Client, Command};
use crate::event::{
    ComposedEvent, Event, RequestResponseEvent, RequestResponseMessage, SwarmEvent,
};
use crate::event_loop::{Effect, EventLoop, Finished, SwarmCall, Turn, Wake};
use crate::laws::messages::{law_written_request_is_read, law_written_response_is_read};
use crate::laws::{about_file, after_all, law_file_request_is_answered};
use crate::peer::{PeerId, PeerSet};
use crate::session::{CliArgument, Notice, Session, Stage, Task};

verus! {

/// A request that one node's client sends arrives, with its whole text and on the channel on which
/// it came, at the application of the node that it is sent to. It must be neither empty nor longer
/// than a million bytes.
pub proof fn law_request_arrives<E, C>(
    client: Client,
    peer: PeerId,
    text: String,
    sender: Sender<Result<String, E>>,
    command: Command<E, C>,
    sending: &mut EventLoop<E>,
    sent: Turn<E, C>,
    written: GenericRequest,
    codec: GenericExchangeCodec,
    payload: Vec<u8>,
    read: Result<GenericRequest, CodecError>,
    arrived: GenericRequest,
    channel: C,
    receiving: &mut EventLoop<E>,
    handed: Turn<E, C>,
)
    requires
        text@.len() > 0,
        encode_utf8(text@).len() <= 1_000_000,
        call_ensures(Client::request_file::<E, C>, (&client, peer, text, sender), command)
            || call_ensures(Client::request_lease::<E, C>, (&client, peer, text, sender), command),
        call_ensures(EventLoop::<E>::run::<C>, (sending, Wake::Command(Some(command))), sent),
        sent matches Turn::Call(SwarmCall::RequestFile { request, .. }) ==> written == request,
        sent matches Turn::Call(SwarmCall::RequestLease { request, .. }) ==> written == request,
        call_ensures(GenericExchangeCodec::write_request, (&codec, written), payload),
        call_ensures(GenericExchangeCodec::read_request, (&codec, payload), read),
        read matches Ok(request) ==> arrived == request,
        call_ensures(
            EventLoop::<E>::run::<C>,
            (
                receiving,
                Wake::Swarm(
                    SwarmEvent::Behaviour(
                        ComposedEvent::RequestResponse(
                            RequestResponseEvent::Message {
                                message: RequestResponseMessage::Request {
                                    request: arrived,
                                    channel,
                                },
                            },
                        ),
                    ),
                ),
            ),
            handed,
        ),
    ensures
        match sent {
            Turn::Call(SwarmCall::RequestFile { peer: to, sender: caller, .. }) => to == peer
                && caller == sender,
            Turn::Call(SwarmCall::RequestLease { peer: to, sender: caller, .. }) => to == peer
                && caller == sender,
            _ => false,
        },
        read is Ok,
        handed matches Turn::Effect(
            Effect::Emit { event: Event::InboundRequest { request, channel: on } },
        ) && request@ == text@ && on == channel,
        final(receiving)@ == old(receiving)@,
{
    law_written_request_is_read(codec, written, payload, codec, read);
}

/// What one node provides, another gets: the node that gets a file asks, through its client and its
/// loop, one of the providers that were found; the request arrives at the provider, whose session
/// has the file read and sent, whole and on the channel of the request; and the answer arrives at
/// whoever asked, whatever else happens in between, and is shown, whole. The name and the file must
/// be neither empty nor longer than a million bytes.
pub proof fn law_provided_file_travels<E, C>(
    name: String,
    provided: String,
    content: String,
    seeking: &mut Session,
    providers: PeerSet,
    ask: Task<C>,
    wanted: String,
    client: Client,
    peer: PeerId,
    sender: Sender<Result<String, E>>,
    command: Command<E, C>,
    getter: &mut EventLoop<E>,
    sent: Turn<E, C>,
    caller: Sender<Result<String, E>>,
    written: GenericRequest,
    codec: GenericExchangeCodec,
    request_payload: Vec<u8>,
    request_read: Result<GenericRequest, CodecError>,
    arrived: GenericRequest,
    channel: C,
    provider: &mut EventLoop<E>,
    handed: Turn<E, C>,
    inbound: String,
    on: C,
    serving: &mut Session,
    read_file: Task<C>,
    read_for: C,
    reading: &mut Session,
    respond: Task<C>,
    file: String,
    to: C,
    provider_client: Client,
    provider_command: Command<E, C>,
    responding: &mut EventLoop<E>,
    responded: Turn<E, C>,
    answer: GenericResponse,
    answer_payload: Vec<u8>,
    answer_read: Result<GenericResponse, CodecError>,
    returned: GenericResponse,
    request_id: u64,
    noted: &mut EventLoop<E>,
    waits: Turn<E, C>,
    wakes: Seq<Wake<E, C>>,
    answered: &mut EventLoop<E>,
    told: Turn<E, C>,
    got: String,
    asking: &mut Session,
    shown: Task<C>,
)
    requires
        name@.len() > 0,
        encode_utf8(name@).len() <= 1_000_000,
        content@.len() > 0,
        encode_utf8(content@).len() <= 1_000_000,
        provided@ == name@,
        // The getter has found providers, and asks one of them.
        old(seeking)@.argument == (CliArgument::Get { name }),
        !(providers@ =~= Set::<Seq<u8>>::empty()),
        call_ensures(Session::advance::<C>, (seeking, Notice::Found { providers }), ask),
        ask matches Task::RequestFile { name: requested, .. } ==> wanted@ == requested@,
        call_ensures(Client::request_file::<E, C>, (&client, peer, wanted, sender), command),
        call_ensures(EventLoop::<E>::run::<C>, (getter, Wake::Command(Some(command))), sent),
        sent matches Turn::Call(SwarmCall::RequestFile { request, sender: carried, .. })
            ==> written == request && caller == carried,
        // The request travels to the provider.
        call_ensures(GenericExchangeCodec::write_request, (&codec, written), request_payload),
        call_ensures(GenericExchangeCodec::read_request, (&codec, request_payload), request_read),
        request_read matches Ok(request) ==> arrived == request,
        call_ensures(
            EventLoop::<E>::run::<C>,
            (
                provider,
                Wake::Swarm(
                    SwarmEvent::Behaviour(
                        ComposedEvent::RequestResponse(
                            RequestResponseEvent::Message {
                                message: RequestResponseMessage::Request {
                                    request: arrived,
                                    channel,
                                },
                            },
                        ),
                    ),
                ),
            ),
            handed,
        ),
        handed matches Turn::Effect(
            Effect::Emit { event: Event::InboundRequest { request, channel: came_on } },
        ) ==> inbound == request && on == came_on,
        // The provider answers it.
        old(serving)@.argument == (CliArgument::Provide { name: provided }),
        call_ensures(
            Session::advance::<C>,
            (serving, Notice::Inbound { request: inbound, channel: on }),
            read_file,
        ),
        read_file matches Task::ReadFile { channel: kept } ==> read_for == kept,
        old(reading)@ == final(serving)@,
        call_ensures(
            Session::advance::<C>,
            (reading, Notice::FileRead { content, channel: read_for }),
            respond,
        ),
        respond matches Task::RespondFile { file: sent_file, channel: kept } ==> file == sent_file
            && to == kept,
        call_ensures(
            Client::respond_file::<E, C>,
            (&provider_client, file, to),
            provider_command,
        ),
        call_ensures(
            EventLoop::<E>::run::<C>,
            (responding, Wake::Command(Some(provider_command))),
            responded,
        ),
        responded matches Turn::Call(SwarmCall::SendResponse { response, .. }) ==> answer
            == response,
        // The answer travels back.
        call_ensures(GenericExchangeCodec::write_response, (&codec, answer), answer_payload),
        call_ensures(GenericExchangeCodec::read_response, (&codec, answer_payload), answer_read),
        answer_read matches Ok(response) ==> returned == response,
        old(noted)@ == final(getter)@,
        call_ensures(
            EventLoop::<E>::run::<C>,
            (noted, Wake::Finished(Finished::RequestFile { request_id, sender: caller })),
            waits,
        ),
        forall|i: int| 0 <= i < wakes.len() ==> !about_file(#[trigger] wakes[i], request_id),
        old(answered)@ == after_all(final(noted)@, wakes),
        call_ensures(
            EventLoop::<E>::run::<C>,
            (
                answered,
                Wake::Swarm(
                    SwarmEvent::Behaviour(
                        ComposedEvent::RequestResponse(
                            RequestResponseEvent::Message {
                                message: RequestResponseMessage::Response {
                                    request_id,
                                    response: returned,
                                },
                            },
                        ),
                    ),
                ),
            ),
            told,
        ),
        told matches Turn::Effect(Effect::Answered { result: Ok(text), .. }) ==> got == text,
        old(asking)@ == final(seeking)@,
        call_ensures(
            Session::advance::<C>,
            (asking, Notice::Answered { answer: Some(got) }),
            shown,
        ),
    ensures
        sent matches Turn::Call(SwarmCall::RequestFile { peer: whom, .. }) && whom == peer,
        request_read is Ok,
        read_file == (Task::<C>::ReadFile { channel }),
        respond == (Task::<C>::RespondFile { file: content, channel }),
        responded matches Turn::Call(SwarmCall::SendResponse { channel: back, .. }) && back
            == channel,
        answer_read is Ok,
        told matches Turn::Effect(Effect::Answered { sender: whoever, result: Ok(text) })
            && whoever == sender && text@ == content@,
        shown matches Task::Finish { line } && line@ == "Content of file "@ + name@ + ": "@
            + content@,
        final(asking)@.stage == Stage::Ended,
{
    law_written_request_is_read(codec, written, request_payload, codec, request_read);
    law_written_response_is_read(codec, answer, answer_payload, codec, answer_read);
    law_file_request_is_answered::<E, C>(
        old(noted)@,
        request_id,
        caller,
        wakes,
        SwarmEvent::Behaviour(
            ComposedEvent::RequestResponse(
                RequestResponseEvent::Message {
                    message: RequestResponseMessage::Response { request_id, response: returned },
                },
            ),
        ),
        Ok(returned.0),
        Effect::Answered { sender: caller, result: Ok(returned.0) },
    );
}

/// A root that is asked, through the client and the loop of a node that gets a lease, for a number
/// that is its name, sends its whole name back on the channel of the request; asked for any other
/// number, it sends nothing. The number must be neither empty nor longer than a million bytes.
pub proof fn law_lease_is_sent<E, C>(
    name: String,
    number_lease: String,
    root: String,
    seeking: &mut Session,
    providers: PeerSet,
    ask: Task<C>,
    wanted: String,
    client: Client,
    peer: PeerId,
    sender: Sender<Result<String, E>>,
    command: Command<E, C>,
    getter: &mut EventLoop<E>,
    sent: Turn<E, C>,
    written: GenericRequest,
    codec: GenericExchangeCodec,
    payload: Vec<u8>,
    read: Result<GenericRequest, CodecError>,
    arrived: GenericRequest,
    channel: C,
    at_root: &mut EventLoop<E>,
    handed: Turn<E, C>,
    inbound: String,
    on: C,
    serving: &mut Session,
    respond: Task<C>,
    lease: String,
    to: C,
    root_client: Client,
    root_command: Command<E, C>,
    responding: &mut EventLoop<E>,
    responded: Turn<E, C>,
)
    requires
        number_lease@.len() > 0,
        encode_utf8(number_lease@).len() <= 1_000_000,
        old(seeking)@.argument == (CliArgument::GetLease { name, number_lease }),
        !(providers@ =~= Set::<Seq<u8>>::empty()),
        call_ensures(Session::advance::<C>, (seeking, Notice::Found { providers }), ask),
        ask matches Task::RequestLease { number_lease: requested, .. } ==> wanted@ == requested@,
        call_ensures(Client::request_lease::<E, C>, (&client, peer, wanted, sender), command),
        call_ensures(EventLoop::<E>::run::<C>, (getter, Wake::Command(Some(command))), sent),
        sent matches Turn::Call(SwarmCall::RequestLease { request, .. }) ==> written == request,
        call_ensures(GenericExchangeCodec::write_request, (&codec, written), payload),
        call_ensures(GenericExchangeCodec::read_request, (&codec, payload), read),
        read matches Ok(request) ==> arrived == request,
        call_ensures(
            EventLoop::<E>::run::<C>,
            (
                at_root,
                Wake::Swarm(
                    SwarmEvent::Behaviour(
                        ComposedEvent::RequestResponse(
                            RequestResponseEvent::Message {
                                message: RequestResponseMessage::Request {
                                    request: arrived,
                                    channel,
                                },
                            },
                        ),
                    ),
                ),
            ),
            handed,
        ),
        handed matches Turn::Effect(
            Effect::Emit { event: Event::InboundRequest { request, channel: came_on } },
        ) ==> inbound == request && on == came_on,
        old(serving)@.argument == (CliArgument::BeRoot { name: root }),
        call_ensures(
            Session::advance::<C>,
            (serving, Notice::Inbound { request: inbound, channel: on }),
            respond,
        ),
        respond matches Task::RespondLease { num_lease, channel: kept } ==> lease == num_lease
            && to == kept,
        call_ensures(Client::respond_lease::<E, C>, (&root_client, lease, to), root_command),
        call_ensures(
            EventLoop::<E>::run::<C>,
            (responding, Wake::Command(Some(root_command))),
            responded,
        ),
    ensures
        sent matches Turn::Call(SwarmCall::RequestLease { peer: whom, sender: caller, .. }) && whom
            == peer && caller == sender,
        read is Ok,
        number_lease@ == root@ ==> {
            &&& respond is RespondLease
            &&& responded matches Turn::Call(SwarmCall::SendResponse { channel: back, response })
            &&& back == channel
            &&& response@ == root@
        },
        number_lease@ != root@ ==> respond == Task::<C>::AwaitRequest,
{
    law_written_request_is_read(codec, written, payload, codec, read);
}

} // verus!
