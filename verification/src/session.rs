//! What a node does from its start to its end, for each of the things that it can be told to
//! do.
//!
//! A session performs nothing. It says what is to be done next; the caller does it, and tells
//! the session when it is done and what came of it.

use vstd::prelude::*;
use vstd::string::*;

use crate::address::{any_address, last_peer_id, Address};
use crate::peer::{PeerId, PeerSet};

verus! {

/// What a node is told to do.
#[derive(Debug)]
#[allow(inconsistent_fields)]
pub enum CliArgument {
    /// Provide a file under a name.
    Provide { name: String },
    /// Get the file with a name from one of its providers.
    Get { name: String },
    /// Be a root, which hands out leases.
    BeRoot { name: String },
    /// Get a lease from one of the roots of a name.
    GetLease { name: String, number_lease: String },
}

/// How far a session has come.
#[derive(Debug, Clone, Copy, PartialEq, Eq, Structural)]
pub enum Stage {
    /// The node is about to listen.
    Listening,
    /// The node is dialing a peer.
    Dialing,
    /// The node is being advertised as a provider.
    Announcing,
    /// The node waits for requests.
    Serving,
    /// The file that was requested is being read.
    Reading,
    /// A request is being answered.
    Responding,
    /// Providers are being looked for.
    Seeking,
    /// Providers have been asked.
    Asking,
    /// There is nothing more to do.
    Ended,
}

/// What has been done, and what came of it. `C` is the channel on which a request is to be
/// answered.
#[derive(Debug)]
#[allow(inconsistent_fields)]
pub enum Notice<C> {
    /// The node listens.
    Listened,
    /// The node is connected to the peer that it dialed.
    Dialed,
    /// The node is advertised.
    Announced,
    /// A peer requests something.
    Inbound { request: String, channel: C },
    /// The file has been read.
    FileRead { content: String, channel: C },
    /// The request has been answered.
    Responded,
    /// These are the providers that were found.
    Found { providers: PeerSet },
    /// This is what the first provider to answer sent, if any answered.
    Answered { answer: Option<String> },
}

/// What is to be done next.
#[derive(Debug)]
#[allow(inconsistent_fields)]
pub enum Task<C> {
    /// Listen at an address.
    StartListening { addr: Address },
    /// Dial a peer.
    Dial { peer_id: PeerId, peer_addr: Address },
    /// Advertise the node as a provider of a file.
    StartProviding { name: String },
    /// Advertise the node as a root.
    BootRoot { name: String },
    /// Look for the providers of a name.
    GetProviders { name: String },
    /// Wait for a request.
    AwaitRequest,
    /// Read the file that is provided, in order to send it on a channel.
    ReadFile { channel: C },
    /// Answer a request with a file.
    RespondFile { file: String, channel: C },
    /// Answer a request with a lease.
    RespondLease { num_lease: String, channel: C },
    /// Ask all providers for a file, and take the first answer.
    RequestFile { providers: PeerSet, name: String },
    /// Ask all providers for a lease, and take the first answer.
    RequestLease { providers: PeerSet, number_lease: String },
    /// Print a line, and end.
    Finish { line: String },
    /// End with an error.
    Fail { message: String },
}

/// The name that a node provides, or looks for.
pub open spec fn argument_name(argument: CliArgument) -> Seq<char> {
    match argument {
        CliArgument::Provide { name } => name@,
        CliArgument::Get { name } => name@,
        CliArgument::BeRoot { name } => name@,
        CliArgument::GetLease { name, .. } => name@,
    }
}

/// Whether a node is told to serve requests, not to make them.
pub open spec fn argument_serves(argument: CliArgument) -> bool {
    argument is Provide || argument is BeRoot
}

/// The error of a node that is to dial a peer but is not told which.
pub open spec fn missing_peer_id_message() -> Seq<char> {
    "Expect peer multiaddr to contain peer ID."@
}

/// The error of a node that finds no provider.
pub open spec fn no_provider_message(argument: CliArgument) -> Seq<char> {
    if argument is GetLease {
        "Could not find provider for leases "@ + argument_name(argument) + "."@
    } else {
        "Could not find provider for file "@ + argument_name(argument) + "."@
    }
}

/// The error of a node that no provider answers.
pub open spec fn no_answer_message(argument: CliArgument) -> Seq<char> {
    if argument is GetLease {
        "None of the providers returned an available lease."@
    } else {
        "None of the providers returned file."@
    }
}

/// The line in which a node shows the answer that it got.
pub open spec fn answer_line(argument: CliArgument, answer: Seq<char>) -> Seq<char> {
    if argument is GetLease {
        "Acquired Leases from "@ + argument_name(argument) + ": number: "@ + answer
    } else {
        "Content of file "@ + argument_name(argument) + ": "@ + answer
    }
}

/// What a session has yet to do.
#[verifier::ext_equal]
pub struct SessionState {
    /// The address of the peer that is to be dialed first.
    pub peer: Option<Seq<u8>>,
    /// What the node is told to do.
    pub argument: CliArgument,
    /// How far it has come.
    pub stage: Stage,
}

impl SessionState {
    /// Whether a notice fits what is being done.
    pub open spec fn expects<C>(self, notice: Notice<C>) -> bool {
        match notice {
            Notice::Listened => self.stage == Stage::Listening,
            Notice::Dialed => self.stage == Stage::Dialing,
            Notice::Announced => self.stage == Stage::Announcing,
            Notice::Inbound { .. } => self.stage == Stage::Serving,
            Notice::FileRead { .. } => self.stage == Stage::Reading,
            Notice::Responded => self.stage == Stage::Responding,
            Notice::Found { .. } => self.stage == Stage::Seeking,
            Notice::Answered { .. } => self.stage == Stage::Asking,
        }
    }

    /// Whether a session can be where it is: those who serve wait for requests, only those who
    /// provide a file read it, only the others look for providers, and the peer is dialed first.
    pub open spec fn consistent(self) -> bool {
        &&& match self.stage {
            Stage::Announcing | Stage::Serving | Stage::Responding => argument_serves(
                self.argument,
            ),
            Stage::Reading => self.argument is Provide,
            Stage::Seeking | Stage::Asking => !argument_serves(self.argument),
            Stage::Listening | Stage::Dialing | Stage::Ended => true,
        }
        &&& self.stage == Stage::Listening || self.peer is None
    }

    /// The same session at another stage.
    pub open spec fn at(self, stage: Stage) -> SessionState {
        SessionState { stage, ..self }
    }

    /// The task with which a connected node takes up what it is told to do, and the stage that
    /// it enters.
    pub open spec fn takes_up<C>(self, after: SessionState, task: Task<C>) -> bool {
        if argument_serves(self.argument) {
            &&& after == self.at(Stage::Announcing)
            &&& match self.argument {
                CliArgument::BeRoot { .. } => task matches Task::BootRoot { name } && name@
                    == argument_name(self.argument),
                _ => task matches Task::StartProviding { name } && name@ == argument_name(
                    self.argument,
                ),
            }
        } else {
            &&& after == self.at(Stage::Seeking)
            &&& task matches Task::GetProviders { name }
            &&& name@ == argument_name(self.argument)
        }
    }

    /// What follows a notice: the state after it, and the task.
    pub open spec fn step<C>(self, notice: Notice<C>, after: SessionState, task: Task<C>) -> bool {
        match notice {
            Notice::Listened => match self.peer {
                None => self.takes_up(after, task),
                Some(addr) => match last_peer_id(addr) {
                    Some(peer) => {
                        &&& after == (SessionState { peer: None, stage: Stage::Dialing, ..self })
                        &&& task matches Task::Dial { peer_id, peer_addr }
                        &&& peer_id@ == peer
                        &&& peer_addr@ == addr
                    },
                    None => {
                        &&& after == (SessionState { peer: None, stage: Stage::Ended, ..self })
                        &&& task matches Task::Fail { message }
                        &&& message@ == missing_peer_id_message()
                    },
                },
            },
            Notice::Dialed => self.takes_up(after, task),
            Notice::Announced => after == self.at(Stage::Serving) && task
                == Task::<C>::AwaitRequest,
            Notice::Inbound { request, channel } => if request@ != argument_name(self.argument) {
                after == self && task == Task::<C>::AwaitRequest
            } else if self.argument is BeRoot {
                &&& after == self.at(Stage::Responding)
                &&& task matches Task::RespondLease { num_lease, channel: answered }
                &&& num_lease@ == argument_name(self.argument)
                &&& answered == channel
            } else {
                after == self.at(Stage::Reading) && task == (Task::<C>::ReadFile { channel })
            },
            Notice::FileRead { content, channel } => after == self.at(Stage::Responding) && task
                == (Task::<C>::RespondFile { file: content, channel }),
            Notice::Responded => after == self.at(Stage::Serving) && task
                == Task::<C>::AwaitRequest,
            Notice::Found { providers } => if providers@ == Set::<Seq<u8>>::empty() {
                &&& after == self.at(Stage::Ended)
                &&& task matches Task::Fail { message }
                &&& message@ == no_provider_message(self.argument)
            } else {
                &&& after == self.at(Stage::Asking)
                &&& match self.argument {
                    CliArgument::GetLease { number_lease, .. } => {
                        &&& task matches Task::RequestLease {
                            providers: asked,
                            number_lease: number,
                        }
                        &&& asked == providers
                        &&& number@ == number_lease@
                    },
                    _ => {
                        &&& task matches Task::RequestFile { providers: asked, name }
                        &&& asked == providers
                        &&& name@ == argument_name(self.argument)
                    },
                }
            },
            Notice::Answered { answer } => {
                &&& after == self.at(Stage::Ended)
                &&& match answer {
                    Some(text) => task matches Task::Finish { line } && line@ == answer_line(
                        self.argument,
                        text@,
                    ),
                    None => task matches Task::Fail { message } && message@ == no_answer_message(
                        self.argument,
                    ),
                }
            },
        }
    }
}

/// What a node does from its start to its end.
#[derive(Debug)]
pub struct Session {
    peer: Option<Address>,
    argument: CliArgument,
    stage: Stage,
}

impl View for Session {
    type V = SessionState;

    closed spec fn view(&self) -> SessionState {
        SessionState {
            peer: match self.peer {
                Some(addr) => Some(addr@),
                None => None,
            },
            argument: self.argument,
            stage: self.stage,
        }
    }
}

/// A text that is made of another, put between two constant ones.
fn embed(before: &str, text: &String, after: &str) -> (whole: String)
    ensures
        whole@ == before@ + text@ + after@,
{
    let mut whole = String::from_str(before);
    whole.append(text.as_str());
    whole.append(after);
    whole
}

impl Session {
    /// Starts a session: the node listens where it is told to, or else on any interface.
    pub fn new<C>(
        listen_address: Option<Address>,
        peer: Option<Address>,
        argument: CliArgument,
    ) -> (started: (Session, Task<C>))
        ensures
            started.0@.peer == match peer {
                Some(addr) => Some(addr@),
                None => None::<Seq<u8>>,
            },
            started.0@.argument == argument,
            started.0@.stage == Stage::Listening,
            started.0@.consistent(),
            started.1 matches Task::StartListening { addr } && addr@ == match listen_address {
                Some(listen) => listen@,
                None => any_address(),
            },
    {
        let addr = match listen_address {
            Some(addr) => addr,
            None => Address::any(),
        };
        (Session { peer, argument, stage: Stage::Listening }, Task::StartListening { addr })
    }

    /// Whether a notice fits what is being done.
    pub fn expects<C>(&self, notice: &Notice<C>) -> (expected: bool)
        ensures
            expected == self@.expects(*notice),
    {
        match notice {
            Notice::Listened => self.stage == Stage::Listening,
            Notice::Dialed => self.stage == Stage::Dialing,
            Notice::Announced => self.stage == Stage::Announcing,
            Notice::Inbound { .. } => self.stage == Stage::Serving,
            Notice::FileRead { .. } => self.stage == Stage::Reading,
            Notice::Responded => self.stage == Stage::Responding,
            Notice::Found { .. } => self.stage == Stage::Seeking,
            Notice::Answered { .. } => self.stage == Stage::Asking,
        }
    }

    /// Takes up what the node is told to do, once it is connected.
    fn take_up<C>(&mut self) -> (task: Task<C>)
        ensures
            old(self)@.takes_up(final(self)@, task),
    {
        match &self.argument {
            CliArgument::Provide { name } => {
                let task = Task::StartProviding { name: name.clone() };
                self.stage = Stage::Announcing;
                task
            },
            CliArgument::BeRoot { name } => {
                let task = Task::BootRoot { name: name.clone() };
                self.stage = Stage::Announcing;
                task
            },
            CliArgument::Get { name } => {
                let task = Task::GetProviders { name: name.clone() };
                self.stage = Stage::Seeking;
                task
            },
            CliArgument::GetLease { name, .. } => {
                let task = Task::GetProviders { name: name.clone() };
                self.stage = Stage::Seeking;
                task
            },
        }
    }

    /// Dials the peer whose address the node is given, or takes up what it is told to do.
    fn connect<C>(&mut self) -> (task: Task<C>)
        ensures
            old(self)@.step(Notice::<C>::Listened, final(self)@, task),
    {
        match self.peer.take() {
            Some(peer_addr) => match peer_addr.last_peer() {
                Some(peer_id) => {
                    self.stage = Stage::Dialing;
                    Task::Dial { peer_id, peer_addr }
                },
                None => {
                    self.stage = Stage::Ended;
                    Task::Fail {
                        message: String::from_str("Expect peer multiaddr to contain peer ID."),
                    }
                },
            },
            None => self.take_up(),
        }
    }

    /// Answers the request of a peer, if it is for what the node serves.
    fn serve<C>(&mut self, request: String, channel: C) -> (task: Task<C>)
        requires
            old(self)@.stage == Stage::Serving,
        ensures
            old(self)@.step(Notice::Inbound { request, channel }, final(self)@, task),
    {
        match &self.argument {
            CliArgument::BeRoot { name } => {
                if request == *name {
                    let num_lease = name.clone();
                    self.stage = Stage::Responding;
                    return Task::RespondLease { num_lease, channel };
                }
            },
            CliArgument::Provide { name } | CliArgument::Get { name } | CliArgument::GetLease {
                name,
                ..
            } => {
                if request == *name {
                    self.stage = Stage::Reading;
                    return Task::ReadFile { channel };
                }
            },
        }
        Task::AwaitRequest
    }

    /// Asks the providers that were found.
    fn ask<C>(&mut self, providers: PeerSet) -> (task: Task<C>)
        ensures
            old(self)@.step(Notice::<C>::Found { providers }, final(self)@, task),
    {
        let none = providers.is_empty();
        match &self.argument {
            CliArgument::GetLease { name, number_lease } => {
                if none {
                    let message = embed("Could not find provider for leases ", name, ".");
                    self.stage = Stage::Ended;
                    Task::Fail { message }
                } else {
                    let number_lease = number_lease.clone();
                    self.stage = Stage::Asking;
                    Task::RequestLease { providers, number_lease }
                }
            },
            CliArgument::Get { name } | CliArgument::Provide { name } | CliArgument::BeRoot {
                name,
            } => {
                if none {
                    let message = embed("Could not find provider for file ", name, ".");
                    self.stage = Stage::Ended;
                    Task::Fail { message }
                } else {
                    let name = name.clone();
                    self.stage = Stage::Asking;
                    Task::RequestFile { providers, name }
                }
            },
        }
    }

    /// Shows the answer, if there is one.
    fn conclude<C>(&mut self, answer: Option<String>) -> (task: Task<C>)
        ensures
            old(self)@.step(Notice::<C>::Answered { answer }, final(self)@, task),
    {
        let task = match &self.argument {
            CliArgument::GetLease { name, .. } => match answer {
                Some(text) => {
                    let mut line = embed("Acquired Leases from ", name, ": number: ");
                    line.append(text.as_str());
                    Task::Finish { line }
                },
                None => Task::Fail {
                    message: String::from_str("None of the providers returned an available lease."),
                },
            },
            CliArgument::Get { name } | CliArgument::Provide { name } | CliArgument::BeRoot {
                name,
            } => match answer {
                Some(text) => {
                    let mut line = embed("Content of file ", name, ": ");
                    line.append(text.as_str());
                    Task::Finish { line }
                },
                None => Task::Fail {
                    message: String::from_str("None of the providers returned file."),
                },
            },
        };
        self.stage = Stage::Ended;
        task
    }

    /// Takes a notice that fits what is being done, and says what is to be done next.
    pub fn advance<C>(&mut self, notice: Notice<C>) -> (task: Task<C>)
        requires
            old(self)@.expects(notice),
        ensures
            old(self)@.step(notice, final(self)@, task),
    {
        match notice {
            Notice::Listened => self.connect(),
            Notice::Dialed => self.take_up(),
            Notice::Announced => {
                self.stage = Stage::Serving;
                Task::AwaitRequest
            },
            Notice::Inbound { request, channel } => self.serve(request, channel),
            Notice::FileRead { content, channel } => {
                self.stage = Stage::Responding;
                Task::RespondFile { file: content, channel }
            },
            Notice::Responded => {
                self.stage = Stage::Serving;
                Task::AwaitRequest
            },
            Notice::Found { providers } => self.ask(providers),
            Notice::Answered { answer } => self.conclude(answer),
        }
    }
}

/// A session keeps to what the node was told to do, and only ever gets where it can be.
pub proof fn law_session_stays_consistent<C>(
    state: SessionState,
    notice: Notice<C>,
    after: SessionState,
    task: Task<C>,
)
    requires
        state.consistent(),
        state.expects(notice),
        state.step(notice, after, task),
    ensures
        after.consistent(),
        after.argument == state.argument,
{
}

/// A session ends with a line or with an error, and with nothing else; once it has ended,
/// nothing follows.
pub proof fn law_session_ends_once<C>(
    state: SessionState,
    notice: Notice<C>,
    after: SessionState,
    task: Task<C>,
)
    requires
        state.expects(notice),
        state.step(notice, after, task),
    ensures
        state.stage != Stage::Ended,
        after.stage == Stage::Ended <==> task is Finish || task is Fail,
{
}

/// A node that serves requests and is connected never comes to an end.
pub proof fn law_server_never_ends<C>(
    state: SessionState,
    notice: Notice<C>,
    after: SessionState,
    task: Task<C>,
)
    requires
        state.consistent(),
        argument_serves(state.argument),
        state.stage != Stage::Listening,
        state.expects(notice),
        state.step(notice, after, task),
    ensures
        after.stage != Stage::Ended,
        after.stage != Stage::Listening,
{
}

/// A node that serves requests takes up a request, on the channel on which it came, exactly when
/// it asks for the name that the node serves; any other request leaves the node as it was, and
/// is not answered.
pub proof fn law_only_the_own_name_is_served<C>(
    state: SessionState,
    request: String,
    channel: C,
    after: SessionState,
    task: Task<C>,
)
    requires
        state.consistent(),
        state.expects(Notice::Inbound { request, channel }),
        state.step(Notice::Inbound { request, channel }, after, task),
    ensures
        request@ == argument_name(state.argument) ==> match task {
            Task::ReadFile { channel: taken } => state.argument is Provide && taken == channel,
            Task::RespondLease { num_lease, channel: taken } => state.argument is BeRoot
                && num_lease@ == request@ && taken == channel,
            _ => false,
        },
        request@ != argument_name(state.argument) ==> after == state && task
            == Task::<C>::AwaitRequest,
{
}

/// A node that is given the address of a peer dials that peer before it does anything else that
/// involves the network, and does not go on without a peer id in that address.
pub proof fn law_peer_comes_first<C>(
    state: SessionState,
    notice: Notice<C>,
    after: SessionState,
    task: Task<C>,
)
    requires
        state.consistent(),
        state.peer is Some,
        state.expects(notice),
        state.step(notice, after, task),
    ensures
        task is Dial || task is Fail,
        task is Dial <==> last_peer_id(state.peer->Some_0) is Some,
        task matches Task::Dial { peer_id, peer_addr } ==> last_peer_id(peer_addr@) == Some(
            peer_id@,
        ),
{
}

} // verus!
