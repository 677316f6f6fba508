//! What a session has the node do, from its start to its end.

use vstd::prelude::*;

use crate::address::{last_peer_id, Address};
use crate::peer::PeerSet;
use crate::session::{CliArgument, Notice, Session, SessionState, Stage, Task};

verus! {

/// A session begins with listening: at the address that is given, or else at `/ip4/0.0.0.0/tcp/0`,
/// whose bytes these are. It keeps what the node is told to do and the peer that is to be dialed.
pub proof fn law_session_begins_with_listening<C>(
    listen_address: Option<Address>,
    peer: Option<Address>,
    argument: CliArgument,
    started: (Session, Task<C>),
)
    requires
        call_ensures(Session::new::<C>, (listen_address, peer, argument), started),
    ensures
        started.1 matches Task::StartListening { addr } && match listen_address {
            Some(listen) => addr@ == listen@,
            None => addr@ == seq![4u8, 0u8, 0u8, 0u8, 0u8, 6u8, 0u8, 0u8],
        },
        started.0@.argument == argument,
        started.0@.stage == Stage::Listening,
        peer matches Some(addr) ==> started.0@.peer == Some(addr@),
        peer is None ==> started.0@.peer is None,
{
}

/// A session takes the notice of what it had done, and no other; it never forgets what the node is
/// told to do.
pub proof fn law_session_takes_one_kind_of_notice<C>(
    session: Session,
    notice: Notice<C>,
    expected: bool,
    advanced: &mut Session,
    task: Task<C>,
)
    requires
        call_ensures(Session::expects::<C>, (&session, &notice), expected),
        call_ensures(Session::advance::<C>, (advanced, notice), task),
    ensures
        expected == match session@.stage {
            Stage::Listening => notice is Listened,
            Stage::Dialing => notice is Dialed,
            Stage::Announcing => notice is Announced,
            Stage::Serving => notice is Inbound,
            Stage::Reading => notice is FileRead,
            Stage::Responding => notice is Responded,
            Stage::Seeking => notice is Found,
            Stage::Asking => notice is Answered,
            Stage::Ended => false,
        },
        expected == session@.expects(notice),
        final(advanced)@.argument == old(advanced)@.argument,
{
}

/// A node that is given the address of a peer dials, once it listens, the peer that the last
/// component of that address names, at that very address; if it names none, the node ends with an
/// error that says so.
pub proof fn law_given_peer_is_dialed<C>(session: &mut Session, addr: Seq<u8>, task: Task<C>)
    requires
        old(session)@.peer == Some(addr),
        call_ensures(Session::advance::<C>, (session, Notice::Listened), task),
    ensures
        final(session)@.peer is None,
        final(session)@.argument == old(session)@.argument,
        match last_peer_id(addr) {
            Some(peer) => {
                &&& task matches Task::Dial { peer_id, peer_addr }
                &&& peer_id@ == peer
                &&& peer_addr@ == addr
                &&& final(session)@.stage == Stage::Dialing
            },
            None => {
                &&& task matches Task::Fail { message }
                &&& message@ == "Expect peer multiaddr to contain peer ID."@
                &&& final(session)@.stage == Stage::Ended
            },
        },
{
}

/// Once its peer is dialed, or once it listens and has no peer to dial, a node takes up what it is
/// told to do: one that provides a file is advertised under the name of the file, one that is a
/// root is advertised under its name, and one that gets a file or a lease looks for the providers
/// of the name, not of anything else.
pub proof fn law_work_is_taken_up<C>(session: &mut Session, notice: Notice<C>, task: Task<C>)
    requires
        notice == Notice::<C>::Dialed || (notice == Notice::<C>::Listened && old(
            session,
        )@.peer is None),
        call_ensures(Session::advance::<C>, (session, notice), task),
    ensures
        match old(session)@.argument {
            CliArgument::Provide { name } => {
                &&& task matches Task::StartProviding { name: advertised }
                &&& advertised@ == name@
                &&& final(session)@ == (SessionState { stage: Stage::Announcing, ..old(session)@ })
            },
            CliArgument::BeRoot { name } => {
                &&& task matches Task::BootRoot { name: advertised }
                &&& advertised@ == name@
                &&& final(session)@ == (SessionState { stage: Stage::Announcing, ..old(session)@ })
            },
            CliArgument::Get { name } => {
                &&& task matches Task::GetProviders { name: sought }
                &&& sought@ == name@
                &&& final(session)@ == (SessionState { stage: Stage::Seeking, ..old(session)@ })
            },
            CliArgument::GetLease { name, .. } => {
                &&& task matches Task::GetProviders { name: sought }
                &&& sought@ == name@
                &&& final(session)@ == (SessionState { stage: Stage::Seeking, ..old(session)@ })
            },
        },
{
}

/// Whether a node had to dial a peer first makes no difference to what it then does.
pub proof fn law_dialing_makes_no_difference<C>(
    dialed: &mut Session,
    first: Task<C>,
    alone: &mut Session,
    second: Task<C>,
)
    requires
        old(dialed)@.argument == old(alone)@.argument,
        old(alone)@.peer is None,
        call_ensures(Session::advance::<C>, (dialed, Notice::Dialed), first),
        call_ensures(Session::advance::<C>, (alone, Notice::Listened), second),
    ensures
        final(dialed)@.stage == final(alone)@.stage,
        match (first, second) {
            (Task::StartProviding { name }, Task::StartProviding { name: same }) => name@ == same@,
            (Task::BootRoot { name }, Task::BootRoot { name: same }) => name@ == same@,
            (Task::GetProviders { name }, Task::GetProviders { name: same }) => name@ == same@,
            _ => false,
        },
{
}

/// A node that is advertised, or that has answered a request, waits for the next request.
pub proof fn law_server_waits_for_requests<C>(
    session: &mut Session,
    notice: Notice<C>,
    task: Task<C>,
)
    requires
        notice == Notice::<C>::Announced || notice == Notice::<C>::Responded,
        call_ensures(Session::advance::<C>, (session, notice), task),
    ensures
        task == Task::<C>::AwaitRequest,
        final(session)@ == (SessionState { stage: Stage::Serving, ..old(session)@ }),
{
}

/// A node that provides a file reads it, for the very channel, exactly when a peer asks for the
/// whole name; any other request it passes over.
pub proof fn law_provider_serves_its_name<C>(
    session: &mut Session,
    name: String,
    request: String,
    channel: C,
    task: Task<C>,
)
    requires
        old(session)@.argument == (CliArgument::Provide { name }),
        call_ensures(Session::advance::<C>, (session, Notice::Inbound { request, channel }), task),
    ensures
        request@ == name@ ==> task == (Task::<C>::ReadFile { channel }) && final(session)@ == (
        SessionState { stage: Stage::Reading, ..old(session)@ }),
        request@ != name@ ==> task == Task::<C>::AwaitRequest && final(session)@ == old(session)@,
{
}

/// A node that has read its file answers with the whole content, on the very channel.
pub proof fn law_provider_sends_its_file<C>(
    session: &mut Session,
    content: String,
    channel: C,
    task: Task<C>,
)
    requires
        call_ensures(Session::advance::<C>, (session, Notice::FileRead { content, channel }), task),
    ensures
        task == (Task::<C>::RespondFile { file: content, channel }),
        final(session)@ == (SessionState { stage: Stage::Responding, ..old(session)@ }),
{
}

/// A root answers with its name, on the very channel, exactly when a peer asks for the whole name;
/// any other request it passes over.
pub proof fn law_root_serves_its_name<C>(
    session: &mut Session,
    name: String,
    request: String,
    channel: C,
    task: Task<C>,
)
    requires
        old(session)@.argument == (CliArgument::BeRoot { name }),
        call_ensures(Session::advance::<C>, (session, Notice::Inbound { request, channel }), task),
    ensures
        request@ == name@ ==> {
            &&& task matches Task::RespondLease { num_lease, channel: answered }
            &&& num_lease@ == name@
            &&& answered == channel
            &&& final(session)@ == (SessionState { stage: Stage::Responding, ..old(session)@ })
        },
        request@ != name@ ==> task == Task::<C>::AwaitRequest && final(session)@ == old(session)@,
{
}

/// A node that gets a file asks all providers that were found for the whole name, or, if none were,
/// ends with an error that names the file.
pub proof fn law_file_is_asked_for<C>(
    session: &mut Session,
    name: String,
    providers: PeerSet,
    task: Task<C>,
)
    requires
        old(session)@.argument == (CliArgument::Get { name }),
        call_ensures(Session::advance::<C>, (session, Notice::Found { providers }), task),
    ensures
        providers@ =~= Set::<Seq<u8>>::empty() ==> {
            &&& task matches Task::Fail { message }
            &&& message@ == "Could not find provider for file "@ + name@ + "."@
            &&& final(session)@ == (SessionState { stage: Stage::Ended, ..old(session)@ })
        },
        !(providers@ =~= Set::<Seq<u8>>::empty()) ==> {
            &&& task matches Task::RequestFile { providers: asked, name: requested }
            &&& asked == providers
            &&& requested@ == name@
            &&& final(session)@ == (SessionState { stage: Stage::Asking, ..old(session)@ })
        },
{
}

/// A node that gets a lease asks all roots that were found for the whole number, or, if none were,
/// ends with an error that names what it looked for.
pub proof fn law_lease_is_asked_for<C>(
    session: &mut Session,
    name: String,
    number_lease: String,
    providers: PeerSet,
    task: Task<C>,
)
    requires
        old(session)@.argument == (CliArgument::GetLease { name, number_lease }),
        call_ensures(Session::advance::<C>, (session, Notice::Found { providers }), task),
    ensures
        providers@ =~= Set::<Seq<u8>>::empty() ==> {
            &&& task matches Task::Fail { message }
            &&& message@ == "Could not find provider for leases "@ + name@ + "."@
            &&& final(session)@ == (SessionState { stage: Stage::Ended, ..old(session)@ })
        },
        !(providers@ =~= Set::<Seq<u8>>::empty()) ==> {
            &&& task matches Task::RequestLease { providers: asked, number_lease: requested }
            &&& asked == providers
            &&& requested@ == number_lease@
            &&& final(session)@ == (SessionState { stage: Stage::Asking, ..old(session)@ })
        },
{
}

/// A node that gets a file shows the name and the whole text of the answer, however long, or, if
/// nobody answered, ends with an error.
pub proof fn law_whole_file_is_shown<C>(
    session: &mut Session,
    name: String,
    answer: Option<String>,
    task: Task<C>,
)
    requires
        old(session)@.argument == (CliArgument::Get { name }),
        call_ensures(Session::advance::<C>, (session, Notice::Answered { answer }), task),
    ensures
        final(session)@ == (SessionState { stage: Stage::Ended, ..old(session)@ }),
        match answer {
            Some(text) => task matches Task::Finish { line } && line@ == "Content of file "@ + name@
                + ": "@ + text@,
            None => task matches Task::Fail { message } && message@
                == "None of the providers returned file."@,
        },
{
}

/// A node that gets a lease shows the name and the whole text of the answer, however long, or, if
/// nobody answered, ends with an error.
pub proof fn law_whole_lease_is_shown<C>(
    session: &mut Session,
    name: String,
    number_lease: String,
    answer: Option<String>,
    task: Task<C>,
)
    requires
        old(session)@.argument == (CliArgument::GetLease { name, number_lease }),
        call_ensures(Session::advance::<C>, (session, Notice::Answered { answer }), task),
    ensures
        final(session)@ == (SessionState { stage: Stage::Ended, ..old(session)@ }),
        match answer {
            Some(text) => task matches Task::Finish { line } && line@ == "Acquired Leases from "@
                + name@ + ": number: "@ + text@,
            None => task matches Task::Fail { message } && message@
                == "None of the providers returned an available lease."@,
        },
{
}

/// Different answers are shown in different lines, each of which ends with the whole answer.
pub proof fn law_answers_are_told_apart<C>(
    first_session: &mut Session,
    first_answer: String,
    first: Task<C>,
    second_session: &mut Session,
    second_answer: String,
    second: Task<C>,
)
    requires
        old(first_session)@.argument == old(second_session)@.argument,
        old(first_session)@.argument is Get || old(first_session)@.argument is GetLease,
        call_ensures(
            Session::advance::<C>,
            (first_session, Notice::Answered { answer: Some(first_answer) }),
            first,
        ),
        call_ensures(
            Session::advance::<C>,
            (second_session, Notice::Answered { answer: Some(second_answer) }),
            second,
        ),
    ensures
        ({
            &&& first matches Task::Finish { line: first_line }
            &&& second matches Task::Finish { line: second_line }
            &&& first_line@.len() >= first_answer@.len()
            &&& first_line@.skip(first_line@.len() - first_answer@.len()) == first_answer@
            &&& first_line@ == second_line@ <==> first_answer@ == second_answer@
        }),
{
    match old(first_session)@.argument {
        CliArgument::Get { name } => {
            law_whole_file_is_shown(first_session, name, Some(first_answer), first);
            law_whole_file_is_shown(second_session, name, Some(second_answer), second);
            lemma_suffix("Content of file "@ + name@ + ": "@, first_answer@, second_answer@);
        },
        CliArgument::GetLease { name, number_lease } => {
            law_whole_lease_is_shown(
                first_session,
                name,
                number_lease,
                Some(first_answer),
                first,
            );
            law_whole_lease_is_shown(
                second_session,
                name,
                number_lease,
                Some(second_answer),
                second,
            );
            lemma_suffix(
                "Acquired Leases from "@ + name@ + ": number: "@,
                first_answer@,
                second_answer@,
            );
        },
        _ => {},
    }
}

/// What stands behind a text can be read off the whole.
proof fn lemma_suffix(prefix: Seq<char>, first: Seq<char>, second: Seq<char>)
    ensures
        (prefix + first).skip(prefix.len() as int) == first,
        prefix + first == prefix + second <==> first == second,
{
    assert((prefix + first).skip(prefix.len() as int) =~= first);
    assert((prefix + second).skip(prefix.len() as int) =~= second);
}

/// A node that gets a file or a lease, with or without a peer to dial first, goes from listening to
/// the line in which it shows the answer: it looks for the providers of its name, asks all that
/// were found, and shows the whole of what it is answered.
pub proof fn law_getter_from_start_to_end<C>(
    listen_address: Option<Address>,
    peer: Option<Address>,
    argument: CliArgument,
    started: (Session, Task<C>),
    listened: &mut Session,
    after_listening: Task<C>,
    dialed: &mut Session,
    after_dialing: Task<C>,
    sought: &mut Session,
    providers: PeerSet,
    after_search: Task<C>,
    asked: &mut Session,
    answer: String,
    at_the_end: Task<C>,
)
    requires
        argument is Get || argument is GetLease,
        peer matches Some(addr) ==> last_peer_id(addr@) is Some,
        !(providers@ =~= Set::<Seq<u8>>::empty()),
        call_ensures(Session::new::<C>, (listen_address, peer, argument), started),
        old(listened)@ == started.0@,
        call_ensures(Session::advance::<C>, (listened, Notice::Listened), after_listening),
        old(dialed)@ == final(listened)@,
        peer is Some ==> call_ensures(
            Session::advance::<C>,
            (dialed, Notice::Dialed),
            after_dialing,
        ),
        old(sought)@ == if peer is Some {
            final(dialed)@
        } else {
            final(listened)@
        },
        call_ensures(Session::advance::<C>, (sought, Notice::Found { providers }), after_search),
        old(asked)@ == final(sought)@,
        call_ensures(
            Session::advance::<C>,
            (asked, Notice::Answered { answer: Some(answer) }),
            at_the_end,
        ),
    ensures
        peer matches Some(addr) ==> {
            &&& after_listening matches Task::Dial { peer_id, peer_addr }
            &&& peer_addr@ == addr@
            &&& last_peer_id(addr@) == Some(peer_id@)
        },
        ({
            let work = if peer is Some {
                after_dialing
            } else {
                after_listening
            };
            match argument {
                CliArgument::Get { name } => {
                    &&& work matches Task::GetProviders { name: wanted }
                    &&& wanted@ == name@
                    &&& after_search matches Task::RequestFile { providers: all, name: requested }
                    &&& all == providers
                    &&& requested@ == name@
                    &&& at_the_end matches Task::Finish { line }
                    &&& line@ == "Content of file "@ + name@ + ": "@ + answer@
                },
                CliArgument::GetLease { name, number_lease } => {
                    &&& work matches Task::GetProviders { name: wanted }
                    &&& wanted@ == name@
                    &&& after_search matches Task::RequestLease {
                        providers: all,
                        number_lease: requested,
                    }
                    &&& all == providers
                    &&& requested@ == number_lease@
                    &&& at_the_end matches Task::Finish { line }
                    &&& line@ == "Acquired Leases from "@ + name@ + ": number: "@ + answer@
                },
                _ => false,
            }
        }),
        final(asked)@.stage == Stage::Ended,
{
}

/// A node that serves, with or without a peer to dial first, goes from listening to being
/// advertised under its name, and then waits for requests.
pub proof fn law_server_from_start<C>(
    listen_address: Option<Address>,
    peer: Option<Address>,
    argument: CliArgument,
    started: (Session, Task<C>),
    listened: &mut Session,
    after_listening: Task<C>,
    dialed: &mut Session,
    after_dialing: Task<C>,
    announced: &mut Session,
    at_last: Task<C>,
)
    requires
        argument is Provide || argument is BeRoot,
        peer matches Some(addr) ==> last_peer_id(addr@) is Some,
        call_ensures(Session::new::<C>, (listen_address, peer, argument), started),
        old(listened)@ == started.0@,
        call_ensures(Session::advance::<C>, (listened, Notice::Listened), after_listening),
        old(dialed)@ == final(listened)@,
        peer is Some ==> call_ensures(
            Session::advance::<C>,
            (dialed, Notice::Dialed),
            after_dialing,
        ),
        old(announced)@ == if peer is Some {
            final(dialed)@
        } else {
            final(listened)@
        },
        call_ensures(Session::advance::<C>, (announced, Notice::Announced), at_last),
    ensures
        ({
            let work = if peer is Some {
                after_dialing
            } else {
                after_listening
            };
            match argument {
                CliArgument::Provide { name } => work matches Task::StartProviding { name: under }
                    && under@ == name@,
                CliArgument::BeRoot { name } => work matches Task::BootRoot { name: under }
                    && under@ == name@,
                _ => false,
            }
        }),
        at_last == Task::<C>::AwaitRequest,
        final(announced)@.stage == Stage::Serving,
        final(announced)@.argument == argument,
{
}

} // verus!
