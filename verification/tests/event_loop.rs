use file_exchange::address::Address;
use file_exchange::codec::{GenericRequest, GenericResponse};
use file_exchange::command::{Client, Command};
use file_exchange::event::{
    ComposedEvent, Event, KademliaEvent, RequestResponseEvent, RequestResponseMessage, SwarmEvent,
};
use file_exchange::event_loop::{Effect, EventLoop, Finished, SwarmCall, Turn, Wake};
use file_exchange::identity::NodeKeys;
use file_exchange::peer::{PeerId, PeerSet};
use file_exchange::search::{QueryProgress, Searches};
use futures::channel::oneshot;

const LOCAL: &str = "12D3KooWPjceQrSwdWXPyLLeABRXmuqt69Rg3sBYbU1Nft9HyQ6X";

type Loop = EventLoop<String>;

fn start() -> Loop {
    EventLoop::new(NodeKeys::from_seed(1).peer_id())
}

fn peer(n: u8) -> PeerId {
    PeerId::from_bytes(vec![0, 1, n]).unwrap()
}

fn kademlia(event: KademliaEvent) -> SwarmEvent<String, u8> {
    SwarmEvent::Behaviour(ComposedEvent::from(event))
}

fn exchange(event: RequestResponseEvent<String, u8>) -> SwarmEvent<String, u8> {
    SwarmEvent::Behaviour(ComposedEvent::from(event))
}

fn response(request_id: u64, text: &str) -> SwarmEvent<String, u8> {
    exchange(RequestResponseEvent::Message {
        message: RequestResponseMessage::Response {
            request_id,
            response: GenericResponse(text.to_string()),
        },
    })
}

fn failure(request_id: u64, error: &str) -> SwarmEvent<String, u8> {
    exchange(RequestResponseEvent::OutboundFailure { request_id, error: error.to_string() })
}

fn dial(n: u8) -> Command<String, u8> {
    let (sender, _) = oneshot::channel();
    Client {}.dial(peer(n), Address::any(), sender)
}

/// Hands over an answer, as whoever drives the loop does.
fn deliver(effect: Effect<String, u8>) {
    match effect {
        Effect::Provided { sender } => sender.send(()).unwrap(),
        Effect::Providers { sender, providers } => sender.send(providers).unwrap(),
        Effect::Answered { sender, result } => sender.send(result).unwrap(),
        Effect::Connected { sender, result } => sender.send(result).unwrap(),
        _ => panic!("nothing to hand over"),
    }
}

fn is_nothing(effect: &Effect<String, u8>) -> bool {
    matches!(effect, Effect::Nothing)
}

#[test]
fn listening_is_reported_at_once() {
    let mut event_loop = start();
    let (sender, mut receiver) = oneshot::channel();
    let command: Command<String, u8> = Client {}.start_listening(Address::any(), sender);
    let (addr, sender) = match event_loop.handle_command(command) {
        SwarmCall::ListenOn { addr, sender } => (addr, sender),
        _ => panic!(),
    };
    assert_eq!(addr.to_text(), "/ip4/0.0.0.0/tcp/0");
    deliver(event_loop.handle_finished(Finished::ListenOn { sender, result: Ok(()) }));
    assert_eq!(receiver.try_recv(), Ok(Some(Ok(()))));

    let (sender, mut receiver) = oneshot::channel();
    let result = Err("in use".to_string());
    deliver(event_loop.handle_finished(Finished::ListenOn { sender, result }));
    assert_eq!(receiver.try_recv(), Ok(Some(Err("in use".to_string()))));
}

#[test]
fn dial_asks_for_the_peer_at_its_address() {
    let event_loop = start();
    match event_loop.handle_command(dial(5)) {
        SwarmCall::Dial { peer_id, peer_addr, dial_addr, .. } => {
            assert!(peer_id == peer(5));
            assert_eq!(peer_addr.to_bytes(), Address::any().to_bytes());
            assert_eq!(dial_addr.to_bytes(), vec![4, 0, 0, 0, 0, 6, 0, 0, 0xa5, 3, 3, 0, 1, 5]);
            assert!(dial_addr.last_peer() == Some(peer(5)));
        }
        _ => panic!(),
    }
}

#[test]
fn dial_is_settled_by_a_connection() {
    let mut event_loop = start();
    let (sender, mut receiver) = oneshot::channel();
    let waits = Finished::Dial { peer_id: peer(5), sender, result: Ok(()) };
    assert!(is_nothing(&event_loop.handle_finished(waits)));

    // Neither an incoming connection nor another peer settles it.
    for event in [
        SwarmEvent::ConnectionEstablished { peer_id: peer(5), is_dialer: false },
        SwarmEvent::ConnectionEstablished { peer_id: peer(6), is_dialer: true },
        SwarmEvent::OutgoingConnectionError { peer_id: None, error: "x".to_string() },
        SwarmEvent::OutgoingConnectionError { peer_id: Some(peer(6)), error: "x".to_string() },
    ] {
        assert!(is_nothing(&event_loop.handle_event(event)));
    }
    assert_eq!(receiver.try_recv(), Ok(None));

    let event = SwarmEvent::ConnectionEstablished { peer_id: peer(5), is_dialer: true };
    deliver(event_loop.handle_event(event));
    assert_eq!(receiver.try_recv(), Ok(Some(Ok(()))));

    // A second connection finds nobody waiting.
    let event = SwarmEvent::ConnectionEstablished { peer_id: peer(5), is_dialer: true };
    assert!(is_nothing(&event_loop.handle_event(event)));
}

#[test]
fn dial_is_settled_by_a_failure() {
    let mut event_loop = start();
    let (sender, mut receiver) = oneshot::channel();
    event_loop.handle_finished::<u8>(Finished::Dial { peer_id: peer(5), sender, result: Ok(()) });
    let event =
        SwarmEvent::OutgoingConnectionError { peer_id: Some(peer(5)), error: "gone".to_string() };
    deliver(event_loop.handle_event(event));
    assert_eq!(receiver.try_recv(), Ok(Some(Err("gone".to_string()))));
}

#[test]
fn dial_that_cannot_start_is_reported_at_once() {
    let mut event_loop = start();
    let (sender, mut receiver) = oneshot::channel();
    let failed =
        Finished::Dial { peer_id: peer(5), sender, result: Err("no transport".to_string()) };
    deliver(event_loop.handle_finished(failed));
    assert_eq!(receiver.try_recv(), Ok(Some(Err("no transport".to_string()))));
    assert!(event_loop.accepts_command(&dial(5)));
}

#[test]
fn peer_is_dialed_once() {
    let mut event_loop = start();
    assert!(event_loop.accepts_command(&dial(5)));
    let (sender, _receiver) = oneshot::channel();
    event_loop.handle_finished::<u8>(Finished::Dial { peer_id: peer(5), sender, result: Ok(()) });
    assert!(!event_loop.accepts_command(&dial(5)));
    assert!(event_loop.accepts_command(&dial(6)));
    let event: SwarmEvent<String, u8> =
        SwarmEvent::ConnectionEstablished { peer_id: peer(5), is_dialer: true };
    event_loop.handle_event(event);
    assert!(event_loop.accepts_command(&dial(5)));
}

#[test]
fn names_are_keys() {
    let event_loop = start();
    let (sender, _) = oneshot::channel();
    let provide = Client {}.start_providing::<String, u8>("f\u{e9}".to_string(), sender);
    let (sender, _) = oneshot::channel();
    let root = Client {}.boot_root::<String, u8>("f\u{e9}".to_string(), sender);
    let (sender, _) = oneshot::channel();
    let find = Client {}.get_providers::<String, u8>("f\u{e9}".to_string(), sender);
    for command in [provide, root, find] {
        match event_loop.handle_command(command) {
            SwarmCall::StartProviding { key, .. } => assert_eq!(key, vec![0x66, 0xc3, 0xa9]),
            SwarmCall::GetProviders { key, .. } => assert_eq!(key, vec![0x66, 0xc3, 0xa9]),
            _ => panic!(),
        }
    }
}

#[test]
fn requests_and_responses_are_sent_as_they_are() {
    let event_loop = start();
    let (sender, _) = oneshot::channel();
    let command = Client {}.request_file::<String, u8>(peer(3), "name".to_string(), sender);
    match event_loop.handle_command(command) {
        SwarmCall::RequestFile { peer: to, request, .. } => {
            assert!(to == peer(3));
            assert_eq!(request, GenericRequest("name".to_string()));
        }
        _ => panic!(),
    }
    let (sender, _) = oneshot::channel();
    let command = Client {}.request_lease::<String, u8>(peer(4), "17".to_string(), sender);
    match event_loop.handle_command(command) {
        SwarmCall::RequestLease { peer: to, request, .. } => {
            assert!(to == peer(4));
            assert_eq!(request, GenericRequest("17".to_string()));
        }
        _ => panic!(),
    }
    let file = Client {}.respond_file::<String, u8>("content".to_string(), 8);
    let lease = Client {}.respond_lease::<String, u8>("content".to_string(), 8);
    for command in [file, lease] {
        match event_loop.handle_command(command) {
            SwarmCall::SendResponse { channel, response } => {
                assert_eq!(channel, 8);
                assert_eq!(response, GenericResponse("content".to_string()));
            }
            _ => panic!(),
        }
    }
}

#[test]
fn provider_is_told_when_its_query_is_complete() {
    let mut event_loop = start();
    let (sender, mut first) = oneshot::channel();
    event_loop.handle_finished::<u8>(Finished::StartProviding { query_id: 1, sender });
    let (sender, mut second) = oneshot::channel();
    event_loop.handle_finished::<u8>(Finished::StartProviding { query_id: 2, sender });
    assert!(!event_loop.accepts_event(&kademlia(KademliaEvent::StartProviding { id: 3 })));
    assert!(event_loop.accepts_event(&kademlia(KademliaEvent::StartProviding { id: 2 })));
    deliver(event_loop.handle_event(kademlia(KademliaEvent::StartProviding { id: 2 })));
    assert_eq!(first.try_recv(), Ok(None));
    assert_eq!(second.try_recv(), Ok(Some(())));
    assert!(!event_loop.accepts_event(&kademlia(KademliaEvent::StartProviding { id: 2 })));
}

#[test]
fn providers_go_to_whoever_looks_for_them() {
    let mut event_loop = start();
    let (sender, mut receiver) = oneshot::channel();
    event_loop.handle_finished::<u8>(Finished::GetProviders { query_id: 4, sender });
    // A search that fails settles nothing.
    assert!(is_nothing(&event_loop.handle_event(kademlia(KademliaEvent::Other))));
    let mut providers = PeerSet::new();
    providers.insert(peer(9));
    deliver(event_loop.handle_event(kademlia(KademliaEvent::GetProviders { id: 4, providers })));
    assert!(receiver.try_recv().unwrap().unwrap().contains(&peer(9)));
    let providers = PeerSet::new();
    let again = kademlia(KademliaEvent::GetProviders { id: 4, providers });
    assert!(!event_loop.accepts_event(&again));
}

#[test]
fn all_providers_of_a_search_are_handed_over() {
    let mut event_loop = start();
    let mut searches = Searches::new();
    let (sender, mut receiver) = oneshot::channel();
    event_loop.handle_finished::<u8>(Finished::GetProviders { query_id: 4, sender });
    let mut events = Vec::new();
    for (id, n, last) in [(4, 1, false), (5, 8, false), (4, 2, true)] {
        let mut providers = PeerSet::new();
        providers.insert(peer(n));
        events.extend(searches.take(id, QueryProgress::Found { providers }, last));
    }
    assert_eq!(events.len(), 1);
    for event in events {
        deliver(event_loop.handle_event(kademlia(event)));
    }
    let providers = receiver.try_recv().unwrap().unwrap();
    assert!(providers.contains(&peer(1)) && providers.contains(&peer(2)));
    assert!(!providers.contains(&peer(8)));
}

#[test]
fn answer_goes_to_whoever_sent_the_request() {
    let mut event_loop = start();
    let (sender, mut first) = oneshot::channel();
    event_loop.handle_finished::<u8>(Finished::RequestFile { request_id: 1, sender });
    let (sender, mut second) = oneshot::channel();
    event_loop.handle_finished::<u8>(Finished::RequestFile { request_id: 2, sender });
    let (sender, _third) = oneshot::channel();
    event_loop.handle_finished::<u8>(Finished::GetProviders { query_id: 1, sender });
    event_loop.handle_event(kademlia(KademliaEvent::Other));

    deliver(event_loop.handle_event(response(2, "content")));
    assert_eq!(first.try_recv(), Ok(None));
    assert_eq!(second.try_recv(), Ok(Some(Ok("content".to_string()))));
    deliver(event_loop.handle_event(failure(1, "timeout")));
    assert_eq!(first.try_recv(), Ok(Some(Err("timeout".to_string()))));
    assert!(!event_loop.accepts_event(&response(1, "late")));
    assert!(!event_loop.accepts_event(&failure(2, "late")));
}

#[test]
fn answer_to_a_lease_request_is_not_expected() {
    let mut event_loop = start();
    let (sender, mut receiver) = oneshot::channel();
    event_loop.handle_finished::<u8>(Finished::RequestLease { request_id: 1, sender });
    assert!(!event_loop.accepts_event(&response(1, "lease")));
    assert!(!event_loop.accepts_event(&failure(1, "timeout")));
    assert_eq!(receiver.try_recv(), Ok(None));
}

#[test]
fn inbound_request_is_handed_over() {
    let mut event_loop = start();
    let event = exchange(RequestResponseEvent::Message {
        message: RequestResponseMessage::Request {
            request: GenericRequest("name".to_string()),
            channel: 6,
        },
    });
    match event_loop.handle_event(event) {
        Effect::Emit { event: Event::InboundRequest { request, channel } } => {
            assert_eq!(request, "name");
            assert_eq!(channel, 6);
        }
        _ => panic!(),
    }
}

#[test]
fn addresses_and_dials_are_announced() {
    let mut event_loop = start();
    let event: SwarmEvent<String, u8> = SwarmEvent::NewListenAddr {
        address: Address::parse("/ip4/127.0.0.1/tcp/4001").unwrap(),
    };
    match event_loop.handle_event(event) {
        Effect::Print { line } => assert_eq!(
            line,
            format!("Local node is listening on /ip4/127.0.0.1/tcp/4001/p2p/{}", LOCAL)
        ),
        _ => panic!(),
    }
    let event: SwarmEvent<String, u8> = SwarmEvent::Dialing(NodeKeys::from_seed(1).peer_id());
    match event_loop.handle_event(event) {
        Effect::Print { line } => assert_eq!(line, format!("Dialing {}", LOCAL)),
        _ => panic!(),
    }
}

#[test]
fn some_events_change_nothing() {
    let mut event_loop = start();
    for event in [
        kademlia(KademliaEvent::Other),
        exchange(RequestResponseEvent::ResponseSent),
        SwarmEvent::IncomingConnection,
        SwarmEvent::ConnectionClosed,
        SwarmEvent::IncomingConnectionError,
    ] {
        assert!(event_loop.accepts_event(&event));
        assert!(is_nothing(&event_loop.handle_event(event)));
    }
}

#[test]
fn some_events_must_not_happen() {
    let event_loop = start();
    assert!(!event_loop.accepts_event(&exchange(RequestResponseEvent::InboundFailure)));
    let other: SwarmEvent<String, u8> = SwarmEvent::Other;
    assert!(!event_loop.accepts_event(&other));
    assert!(!event_loop.accepts_event(&kademlia(KademliaEvent::StartProviding { id: 0 })));
}

#[test]
fn run_leads_from_a_command_to_its_answer() {
    let mut event_loop = start();
    let (sender, mut receiver) = oneshot::channel();
    let command = Client {}.request_file::<String, u8>(peer(3), "name".to_string(), sender);
    let wake = Wake::Command(Some(command));
    assert!(event_loop.accepts(&wake));
    let sender = match event_loop.run(wake) {
        Turn::Call(SwarmCall::RequestFile { sender, .. }) => sender,
        _ => panic!(),
    };
    let wake: Wake<String, u8> = Wake::Finished(Finished::RequestFile { request_id: 12, sender });
    assert!(event_loop.accepts(&wake));
    assert!(matches!(event_loop.run(wake), Turn::Effect(Effect::Nothing)));
    let wake = Wake::Swarm(response(12, "content"));
    assert!(event_loop.accepts(&wake));
    match event_loop.run(wake) {
        Turn::Effect(effect) => deliver(effect),
        _ => panic!(),
    }
    assert_eq!(receiver.try_recv(), Ok(Some(Ok("content".to_string()))));
    assert!(!event_loop.accepts(&Wake::Swarm(response(12, "content"))));
}

#[test]
fn run_ends_with_the_commands() {
    let mut event_loop = start();
    let wake: Wake<String, u8> = Wake::Command(None);
    assert!(event_loop.accepts(&wake));
    assert!(matches!(event_loop.run(wake), Turn::Stop));
}
