use file_exchange::address::Address;
use file_exchange::codec::GenericExchangeCodec;
use file_exchange::codec::{GenericRequest, GenericResponse};
use file_exchange::identity::NodeKeys;
use file_exchange::peer::{PeerId, PeerSet};
use file_exchange::session::{CliArgument, Notice, Session, Task};

fn start(peer: Option<Address>, argument: CliArgument) -> (Session, Task<u8>) {
    Session::new(None, peer, argument)
}

fn provide(name: &str) -> CliArgument {
    CliArgument::Provide { name: name.to_string() }
}

fn get(name: &str) -> CliArgument {
    CliArgument::Get { name: name.to_string() }
}

fn root(name: &str) -> CliArgument {
    CliArgument::BeRoot { name: name.to_string() }
}

fn get_lease(name: &str, number: &str) -> CliArgument {
    CliArgument::GetLease { name: name.to_string(), number_lease: number.to_string() }
}

fn inbound(request: &str, channel: u8) -> Notice<u8> {
    Notice::Inbound { request: request.to_string(), channel }
}

fn one_provider() -> PeerSet {
    let mut providers = PeerSet::new();
    providers.insert(PeerId::from_bytes(vec![0, 1, 9]).unwrap());
    providers
}

fn advance(session: &mut Session, notice: Notice<u8>) -> Task<u8> {
    assert!(session.expects(&notice));
    session.advance(notice)
}

fn failure(task: Task<u8>) -> String {
    match task {
        Task::Fail { message } => message,
        _ => panic!(),
    }
}

#[test]
fn node_listens_where_it_is_told() {
    let addr = Address::parse("/ip4/127.0.0.1/tcp/4001").unwrap();
    let (_, task): (Session, Task<u8>) = Session::new(Some(addr), None, get("f"));
    match task {
        Task::StartListening { addr } => assert_eq!(addr.to_text(), "/ip4/127.0.0.1/tcp/4001"),
        _ => panic!(),
    }
}

#[test]
fn node_listens_anywhere_otherwise() {
    let (_, task) = start(None, get("f"));
    match task {
        Task::StartListening { addr } => assert_eq!(addr.to_text(), "/ip4/0.0.0.0/tcp/0"),
        _ => panic!(),
    }
}

#[test]
fn peer_is_dialed_first() {
    let peer = NodeKeys::from_seed(1).peer_id();
    let addr = Address::parse("/ip4/127.0.0.1/tcp/4001").unwrap().with_peer(&peer);
    let (mut session, _) = start(Some(addr.clone()), provide("f"));
    match advance(&mut session, Notice::Listened) {
        Task::Dial { peer_id, peer_addr } => {
            assert!(peer_id == peer);
            assert_eq!(peer_addr.to_bytes(), addr.to_bytes());
        }
        _ => panic!(),
    }
    assert!(!session.expects(&Notice::<u8>::Announced));
    match advance(&mut session, Notice::Dialed) {
        Task::StartProviding { name } => assert_eq!(name, "f"),
        _ => panic!(),
    }
}

#[test]
fn address_without_a_peer_is_an_error() {
    let (mut session, _) = start(Some(Address::any()), provide("f"));
    let task = advance(&mut session, Notice::Listened);
    assert_eq!(failure(task), "Expect peer multiaddr to contain peer ID.");
    assert!(!session.expects(&Notice::<u8>::Dialed));
    assert!(!session.expects(&Notice::<u8>::Listened));
}

#[test]
fn provider_serves_its_name_and_no_other() {
    let (mut session, _) = start(None, provide("f"));
    match advance(&mut session, Notice::Listened) {
        Task::StartProviding { name } => assert_eq!(name, "f"),
        _ => panic!(),
    }
    assert!(matches!(advance(&mut session, Notice::Announced), Task::AwaitRequest));
    assert!(matches!(advance(&mut session, inbound("g", 1)), Task::AwaitRequest));
    assert!(matches!(advance(&mut session, inbound("", 1)), Task::AwaitRequest));
    assert!(matches!(advance(&mut session, inbound("f", 2)), Task::ReadFile { channel: 2 }));
    let notice = Notice::FileRead { content: "text".to_string(), channel: 2 };
    match advance(&mut session, notice) {
        Task::RespondFile { file, channel } => {
            assert_eq!(file, "text");
            assert_eq!(channel, 2);
        }
        _ => panic!(),
    }
    assert!(matches!(advance(&mut session, Notice::Responded), Task::AwaitRequest));
    assert!(matches!(advance(&mut session, inbound("f", 3)), Task::ReadFile { channel: 3 }));
}

#[test]
fn root_answers_with_its_name() {
    let (mut session, _) = start(None, root("r"));
    match advance(&mut session, Notice::Listened) {
        Task::BootRoot { name } => assert_eq!(name, "r"),
        _ => panic!(),
    }
    assert!(matches!(advance(&mut session, Notice::Announced), Task::AwaitRequest));
    assert!(matches!(advance(&mut session, inbound("17", 1)), Task::AwaitRequest));
    match advance(&mut session, inbound("r", 4)) {
        Task::RespondLease { num_lease, channel } => {
            assert_eq!(num_lease, "r");
            assert_eq!(channel, 4);
        }
        _ => panic!(),
    }
    assert!(matches!(advance(&mut session, Notice::Responded), Task::AwaitRequest));
}

#[test]
fn file_is_got_from_a_provider() {
    let (mut session, _) = start(None, get("f"));
    match advance(&mut session, Notice::Listened) {
        Task::GetProviders { name } => assert_eq!(name, "f"),
        _ => panic!(),
    }
    match advance(&mut session, Notice::Found { providers: one_provider() }) {
        Task::RequestFile { providers, name } => {
            assert_eq!(providers.into_peers().len(), 1);
            assert_eq!(name, "f");
        }
        _ => panic!(),
    }
    match advance(&mut session, Notice::Answered { answer: Some("text".to_string()) }) {
        Task::Finish { line } => assert_eq!(line, "Content of file f: text"),
        _ => panic!(),
    }
    assert!(!session.expects(&Notice::<u8>::Answered { answer: None }));
}

#[test]
fn lease_is_got_from_a_root() {
    let (mut session, _) = start(None, get_lease("r", "17"));
    match advance(&mut session, Notice::Listened) {
        Task::GetProviders { name } => assert_eq!(name, "r"),
        _ => panic!(),
    }
    match advance(&mut session, Notice::Found { providers: one_provider() }) {
        Task::RequestLease { providers, number_lease } => {
            assert_eq!(providers.into_peers().len(), 1);
            assert_eq!(number_lease, "17");
        }
        _ => panic!(),
    }
    match advance(&mut session, Notice::Answered { answer: Some("3".to_string()) }) {
        Task::Finish { line } => assert_eq!(line, "Acquired Leases from r: number: 3"),
        _ => panic!(),
    }
}

#[test]
fn missing_providers_are_an_error() {
    let (mut session, _) = start(None, get("f"));
    advance(&mut session, Notice::Listened);
    let task = advance(&mut session, Notice::Found { providers: PeerSet::new() });
    assert_eq!(failure(task), "Could not find provider for file f.");

    let (mut session, _) = start(None, get_lease("r", "17"));
    advance(&mut session, Notice::Listened);
    let task = advance(&mut session, Notice::Found { providers: PeerSet::new() });
    assert_eq!(failure(task), "Could not find provider for leases r.");
}

#[test]
fn missing_answers_are_an_error() {
    let (mut session, _) = start(None, get("f"));
    advance(&mut session, Notice::Listened);
    advance(&mut session, Notice::Found { providers: one_provider() });
    let task = advance(&mut session, Notice::Answered { answer: None });
    assert_eq!(failure(task), "None of the providers returned file.");

    let (mut session, _) = start(None, get_lease("r", "17"));
    advance(&mut session, Notice::Listened);
    advance(&mut session, Notice::Found { providers: one_provider() });
    let task = advance(&mut session, Notice::Answered { answer: None });
    assert_eq!(failure(task), "None of the providers returned an available lease.");
}

#[test]
fn notices_come_in_order() {
    let (mut session, _) = start(None, provide("f"));
    assert!(!session.expects(&Notice::<u8>::Announced));
    assert!(!session.expects(&inbound("f", 1)));
    advance(&mut session, Notice::Listened);
    assert!(!session.expects(&Notice::<u8>::Listened));
    assert!(!session.expects(&Notice::<u8>::Found { providers: PeerSet::new() }));
    advance(&mut session, Notice::Announced);
    advance(&mut session, inbound("f", 1));
    assert!(!session.expects(&inbound("f", 2)));
    assert!(!session.expects(&Notice::<u8>::Responded));
}

#[test]
fn provided_file_is_got() {
    let codec = GenericExchangeCodec();
    let (mut provider, _) = start(None, provide("gr\u{fc}n"));
    advance(&mut provider, Notice::Listened);
    advance(&mut provider, Notice::Announced);
    let (mut getter, _) = start(None, get("gr\u{fc}n"));
    advance(&mut getter, Notice::Listened);
    let name = match advance(&mut getter, Notice::Found { providers: one_provider() }) {
        Task::RequestFile { name, .. } => name,
        _ => panic!(),
    };

    let request = codec.read_request(codec.write_request(GenericRequest(name))).unwrap();
    let task = advance(&mut provider, Notice::Inbound { request: request.0, channel: 1 });
    assert!(matches!(task, Task::ReadFile { channel: 1 }));
    let notice = Notice::FileRead { content: "\u{fc}ber".to_string(), channel: 1 };
    let file = match advance(&mut provider, notice) {
        Task::RespondFile { file, .. } => file,
        _ => panic!(),
    };
    let response = codec.read_response(codec.write_response(GenericResponse(file))).unwrap();
    match advance(&mut getter, Notice::Answered { answer: Some(response.0) }) {
        Task::Finish { line } => assert_eq!(line, "Content of file gr\u{fc}n: \u{fc}ber"),
        _ => panic!(),
    }
}
