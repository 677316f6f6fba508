//! What becomes of messages, and how nodes and addresses are named.

use vstd::prelude::*;
use vstd::utf8::*;

use crate::address::{
    address_of_text, address_text, last_peer_id, valid_address, Address, AddressError,
};
use crate::codec::{
    CodecError, GenericExchangeCodec, GenericProtocol, GenericRequest, GenericResponse,
};
use crate::command::Client;
use crate::event::{ComposedEvent, KademliaEvent, RequestResponseEvent};
use crate::event_loop::EventLoop;
use crate::identity::{ed25519_public, NodeKeys};
use crate::network;
use crate::peer::{
    peer_id_of_bytes, peer_id_text, valid_peer_id, PeerId, PeerSet, PeerTable,
};

verus! {

/// What one node writes as a request, another reads as that very request, the whole of it; a
/// request that is empty, or longer than a million bytes, it refuses.
pub proof fn law_written_request_is_read(
    writer: GenericExchangeCodec,
    request: GenericRequest,
    payload: Vec<u8>,
    reader: GenericExchangeCodec,
    read: Result<GenericRequest, CodecError>,
)
    requires
        call_ensures(GenericExchangeCodec::write_request, (&writer, request), payload),
        call_ensures(GenericExchangeCodec::read_request, (&reader, payload), read),
    ensures
        valid_utf8(payload@),
        if encode_utf8(request@).len() > 1_000_000 {
            read == Err::<GenericRequest, CodecError>(CodecError::InvalidData)
        } else if request@.len() == 0 {
            read == Err::<GenericRequest, CodecError>(CodecError::UnexpectedEof)
        } else {
            read matches Ok(same) && same@ == request@
        },
{
    crate::codec::law_written_text_is_read_back(request@);
}

/// What one node writes as a response, another reads as that very response, the whole of it; a
/// response that is empty, or longer than a million bytes, it refuses.
pub proof fn law_written_response_is_read(
    writer: GenericExchangeCodec,
    response: GenericResponse,
    payload: Vec<u8>,
    reader: GenericExchangeCodec,
    read: Result<GenericResponse, CodecError>,
)
    requires
        call_ensures(GenericExchangeCodec::write_response, (&writer, response), payload),
        call_ensures(GenericExchangeCodec::read_response, (&reader, payload), read),
    ensures
        valid_utf8(payload@),
        if encode_utf8(response@).len() > 1_000_000 {
            read == Err::<GenericResponse, CodecError>(CodecError::InvalidData)
        } else if response@.len() == 0 {
            read == Err::<GenericResponse, CodecError>(CodecError::UnexpectedEof)
        } else {
            read matches Ok(same) && same@ == response@
        },
{
    crate::codec::law_written_text_is_read_back(response@);
}

/// Whatever payload is read, as a request or as a response, is the UTF-8 form of what was read;
/// an empty payload and one of more than a million bytes are refused, and no others are.
pub proof fn law_payload_is_what_is_read(
    reader: GenericExchangeCodec,
    payload: Vec<u8>,
    request: Result<GenericRequest, CodecError>,
    response: Result<GenericResponse, CodecError>,
)
    requires
        payload@.len() <= 1_000_000 ==> valid_utf8(payload@),
        call_ensures(GenericExchangeCodec::read_request, (&reader, payload), request),
        call_ensures(GenericExchangeCodec::read_response, (&reader, payload), response),
    ensures
        match request {
            Ok(read) => 0 < payload@.len() <= 1_000_000 && encode_utf8(read@) == payload@,
            Err(CodecError::UnexpectedEof) => payload@.len() == 0,
            Err(CodecError::InvalidData) => payload@.len() > 1_000_000,
        },
        match response {
            Ok(read) => 0 < payload@.len() <= 1_000_000 && encode_utf8(read@) == payload@,
            Err(CodecError::UnexpectedEof) => payload@.len() == 0,
            Err(CodecError::InvalidData) => payload@.len() > 1_000_000,
        },
{
    crate::codec::law_read_payload_is_written_back(payload@);
}

/// Different messages are written as different payloads, and the same text as the same payload,
/// whether it is a request or a response.
pub proof fn law_payloads_are_told_apart(
    writer: GenericExchangeCodec,
    request: GenericRequest,
    first: Vec<u8>,
    response: GenericResponse,
    second: Vec<u8>,
)
    requires
        call_ensures(GenericExchangeCodec::write_request, (&writer, request), first),
        call_ensures(GenericExchangeCodec::write_response, (&writer, response), second),
    ensures
        first@ == second@ <==> request@ == response@,
{
    encode_utf8_decode_utf8(request@);
    encode_utf8_decode_utf8(response@);
}

/// All nodes speak one protocol.
pub proof fn law_protocol_is_one(protocol: GenericProtocol, name: &'static str)
    requires
        call_ensures(GenericProtocol::protocol_name, (&protocol,), name),
    ensures
        name@ == "/file-exchange/1"@,
{
}

/// The keys that a seed stands for are a secret key of the seed and thirty-one zeros, followed by
/// the public key that belongs to it; so the same seed always gives the same keys, and different
/// seeds never do.
pub proof fn law_seed_determines_the_keys(
    seed: u8,
    keys: NodeKeys,
    other_seed: u8,
    other_keys: NodeKeys,
)
    requires
        call_ensures(NodeKeys::from_seed, (seed,), keys),
        call_ensures(NodeKeys::from_seed, (other_seed,), other_keys),
    ensures
        keys@.len() == 64,
        keys@[0] == seed,
        forall|i: int| 1 <= i < 32 ==> #[trigger] keys@[i] == 0,
        keys@.skip(32) == ed25519_public(keys@.take(32)),
        keys@ == other_keys@ <==> seed == other_seed,
{
    assert(keys@[0] == seed);
    assert(other_keys@[0] == other_seed);
    assert forall|i: int| 1 <= i < 32 implies #[trigger] keys@[i] == 0 by {}
}

/// The peer id of a node is made of its public key alone, the whole of it: nodes with the same
/// public key have the same peer id, and nodes with different ones do not.
pub proof fn law_peer_id_stands_for_the_public_key(
    keys: NodeKeys,
    peer: PeerId,
    other_keys: NodeKeys,
    other_peer: PeerId,
)
    requires
        keys@.len() == 64,
        other_keys@.len() == 64,
        call_ensures(NodeKeys::peer_id, (&keys,), peer),
        call_ensures(NodeKeys::peer_id, (&other_keys,), other_peer),
    ensures
        peer@.len() == 38,
        peer@.take(6) == seq![0u8, 36u8, 8u8, 1u8, 18u8, 32u8],
        peer@.skip(6) == keys@.skip(32),
        peer@ == other_peer@ <==> keys@.skip(32) == other_keys@.skip(32),
{
    assert(peer@.take(6) =~= seq![0u8, 36u8, 8u8, 1u8, 18u8, 32u8]);
    assert(peer@.skip(6) =~= keys@.skip(32));
    assert(other_peer@.skip(6) =~= other_keys@.skip(32));
}

/// A network that is made with a seed has the keys that the seed stands for; in any case the loop
/// is that of the node with these keys, nobody waits for anything in it, and the same seed gives
/// the same node.
pub proof fn law_seed_determines_the_node<E>(
    secret_key_seed: Option<u8>,
    parts: (NodeKeys, Client, EventLoop<E>),
    peer: PeerId,
    seed: u8,
    keys: NodeKeys,
)
    requires
        call_ensures(network::new::<E>, (secret_key_seed,), parts),
        call_ensures(NodeKeys::peer_id, (&parts.0,), peer),
        call_ensures(NodeKeys::from_seed, (seed,), keys),
    ensures
        secret_key_seed == Some(seed) ==> parts.0@ == keys@,
        parts.0@.len() == 64,
        parts.0@.skip(32) == ed25519_public(parts.0@.take(32)),
        parts.2@.local_peer_id == peer@,
        forall|p: Seq<u8>| !(#[trigger] parts.2@.pending_dial.contains_key(p)),
        forall|id: u64| !(#[trigger] parts.2@.pending_start_providing.contains_key(id)),
        forall|id: u64| !(#[trigger] parts.2@.pending_get_providers.contains_key(id)),
        forall|id: u64| !(#[trigger] parts.2@.pending_request_file.contains_key(id)),
        forall|id: u64| !(#[trigger] parts.2@.pending_request_lease.contains_key(id)),
{
}

/// An address that is extended by a peer keeps all its bytes, which the component that names the
/// peer follows; the peer is then read off it again.
pub proof fn law_extended_address_names_the_peer(
    address: Address,
    peer: PeerId,
    extended: Address,
    read: Option<PeerId>,
)
    requires
        call_ensures(Address::with_peer, (&address, &peer), extended),
        call_ensures(Address::last_peer, (&extended,), read),
    ensures
        ({
            let n = address@.len() as int;
            &&& extended@.len() == n + 3 + peer@.len()
            &&& extended@.take(n) == address@
            &&& extended@[n] == 0xa5 && extended@[n + 1] == 0x03
            &&& extended@[n + 2] == peer@.len() as u8
            &&& extended@.skip(n + 3) == peer@
        }),
        last_peer_id(extended@) == Some(peer@),
        read matches Some(same) && same@ == peer@,
{
    let n = address@.len() as int;
    assert(extended@.take(n) =~= address@);
    assert(extended@.skip(n + 3) =~= peer@);
}

/// What is read from bytes as an address, and written as bytes again, is the same bytes; copies are
/// the same, too.
pub proof fn law_address_is_its_bytes(
    bytes: Vec<u8>,
    read: Result<Address, AddressError>,
    address: Address,
    written: Vec<u8>,
    copy: Address,
    anywhere: Address,
)
    requires
        call_ensures(Address::from_bytes, (bytes,), read),
        call_ensures(Address::to_bytes, (&address,), written),
        call_ensures(Address::clone, (&address,), copy),
        call_ensures(Address::any, (), anywhere),
    ensures
        match read {
            Ok(a) => valid_address(bytes@) && a@ == bytes@,
            Err(error) => !valid_address(bytes@) && error == AddressError::InvalidBytes,
        },
        written@ == address@,
        copy@ == address@,
        anywhere@ == seq![4u8, 0u8, 0u8, 0u8, 0u8, 6u8, 0u8, 0u8],
{
}

/// A text is read as the address that libp2p takes it for, or refused where libp2p refuses it; an
/// address is shown as libp2p shows it. The address at which a node listens by default is read as
/// the very address that [`Address::any`] gives.
pub proof fn law_address_has_a_text(
    text: &str,
    read: Result<Address, AddressError>,
    address: Address,
    shown: String,
    anywhere: Address,
)
    requires
        call_ensures(Address::parse, (text,), read),
        call_ensures(Address::to_text, (&address,), shown),
        call_ensures(Address::any, (), anywhere),
    ensures
        match read {
            Ok(a) => address_of_text(text@) == Some(a@),
            Err(error) => address_of_text(text@) is None && error == AddressError::InvalidText,
        },
        text@ == "/ip4/0.0.0.0/tcp/0"@ ==> read is Ok && read->Ok_0@ == anywhere@,
        shown@ == address_text(address@),
{
}

/// Bytes are read as the peer id that libp2p takes them for, or given back where it takes them for
/// none; a peer id is shown as libp2p shows it.
pub proof fn law_peer_id_is_read_and_shown(
    bytes: Vec<u8>,
    read: Result<PeerId, Vec<u8>>,
    peer: PeerId,
    shown: String,
)
    requires
        call_ensures(PeerId::from_bytes, (bytes,), read),
        call_ensures(PeerId::to_text, (&peer,), shown),
    ensures
        match read {
            Ok(p) => peer_id_of_bytes(bytes@) == Some(p@) && valid_peer_id(p@),
            Err(given_back) => peer_id_of_bytes(bytes@) is None && given_back@ == bytes@,
        },
        shown@ == peer_id_text(peer@),
{
}

/// Random keys, too, are a secret key followed by the public key that belongs to it, and keys are
/// given out as they are.
pub proof fn law_keys_belong_together(keys: NodeKeys, some_keys: NodeKeys, bytes: Vec<u8>)
    requires
        call_ensures(NodeKeys::generate, (), keys),
        call_ensures(NodeKeys::to_bytes, (&some_keys,), bytes),
    ensures
        keys@.len() == 64,
        keys@.skip(32) == ed25519_public(keys@.take(32)),
        bytes@ == some_keys@,
{
}

/// A new loop is that of the very node, and nobody waits for anything in it.
pub proof fn law_new_loop_is_idle<E>(local_peer_id: PeerId, event_loop: EventLoop<E>)
    requires
        call_ensures(EventLoop::<E>::new, (local_peer_id,), event_loop),
    ensures
        event_loop@.local_peer_id == local_peer_id@,
        forall|p: Seq<u8>| !(#[trigger] event_loop@.pending_dial.contains_key(p)),
        forall|id: u64| !(#[trigger] event_loop@.pending_start_providing.contains_key(id)),
        forall|id: u64| !(#[trigger] event_loop@.pending_get_providers.contains_key(id)),
        forall|id: u64| !(#[trigger] event_loop@.pending_request_file.contains_key(id)),
        forall|id: u64| !(#[trigger] event_loop@.pending_request_lease.contains_key(id)),
{
}

/// What happens in one of the protocols is handed on as it is, and as of that protocol.
pub proof fn law_events_are_handed_on<E, C>(
    exchange: RequestResponseEvent<E, C>,
    first: ComposedEvent<E, C>,
    table: KademliaEvent,
    second: ComposedEvent<E, C>,
)
    requires
        call_ensures(
            <ComposedEvent<E, C> as From<RequestResponseEvent<E, C>>>::from,
            (exchange,),
            first,
        ),
        call_ensures(<ComposedEvent<E, C> as From<KademliaEvent>>::from, (table,), second),
    ensures
        first == ComposedEvent::<E, C>::RequestResponse(exchange),
        second == ComposedEvent::<E, C>::Kademlia(table),
{
}

/// A peer id is written in a form that is read as the same peer id; peer ids are the same exactly
/// when they are written the same.
pub proof fn law_peer_id_is_its_bytes(
    peer: PeerId,
    written: Vec<u8>,
    read: Result<PeerId, Vec<u8>>,
    other: PeerId,
    equal: bool,
    also_equal: bool,
    copy: PeerId,
)
    requires
        call_ensures(PeerId::to_bytes, (&peer,), written),
        call_ensures(PeerId::from_bytes, (written,), read),
        call_ensures(PeerId::same, (&peer, &other), equal),
        call_ensures(PeerId::eq, (&peer, &other), also_equal),
        call_ensures(PeerId::clone, (&peer,), copy),
    ensures
        read matches Ok(same) && same@ == peer@,
        equal == (peer@ == other@),
        also_equal == equal,
        copy@ == peer@,
{
}

/// A set holds exactly the peers that were put into it: after one more is put in, it holds that one
/// and what it held before, and so it is not empty.
pub proof fn law_set_holds_what_was_put_in(
    fresh: PeerSet,
    set: &mut PeerSet,
    peer: PeerId,
    added: bool,
    known: bool,
    sought: PeerId,
    before: bool,
    after: bool,
    empty: bool,
)
    requires
        call_ensures(PeerSet::new, (), fresh),
        call_ensures(PeerSet::insert, (set, peer), added),
        call_ensures(PeerSet::contains, (&*old(set), &peer), known),
        call_ensures(PeerSet::contains, (&*old(set), &sought), before),
        call_ensures(PeerSet::contains, (&*final(set), &sought), after),
        call_ensures(PeerSet::is_empty, (&*final(set),), empty),
    ensures
        forall|p: Seq<u8>| !(#[trigger] fresh@.contains(p)),
        added == !known,
        after == (before || sought@ == peer@),
        !empty,
{
    assert(final(set)@.contains(peer@));
}

/// A set that is put into another adds exactly its peers.
pub proof fn law_sets_add_up(set: &mut PeerSet, other: PeerSet, peer: Seq<u8>)
    requires
        call_ensures(PeerSet::extend, (set, other), ()),
    ensures
        final(set)@.contains(peer) <==> old(set)@.contains(peer) || other@.contains(peer),
{
}

/// The peers of a set are given out each once, all of them and no others.
pub proof fn law_set_gives_out_its_peers(set: PeerSet, peers: Vec<PeerId>, peer: Seq<u8>)
    requires
        call_ensures(PeerSet::into_peers, (set,), peers),
    ensures
        set@.contains(peer) <==> exists|i: int|
            0 <= i < peers@.len() && (#[trigger] peers@[i])@ == peer,
        forall|i: int, j: int|
            0 <= i < j < peers@.len() ==> (#[trigger] peers@[i])@ != (#[trigger] peers@[j])@,
{
    let all = crate::peer::peer_bytes(peers@);
    if set@.contains(peer) {
        let i = choose|i: int| 0 <= i < all.len() && all[i] == peer;
        assert(peers@[i]@ == peer);
    }
    if exists|i: int| 0 <= i < peers@.len() && (#[trigger] peers@[i])@ == peer {
        let i = choose|i: int| 0 <= i < peers@.len() && (#[trigger] peers@[i])@ == peer;
        assert(all[i] == peer);
        assert(all.contains(peer));
    }
    assert forall|i: int, j: int| 0 <= i < j < peers@.len() implies (#[trigger] peers@[i])@ != (
    #[trigger] peers@[j])@ by {
        assert(all[i] != all[j]);
    }
}

/// What is entered for a peer is what is taken out for that very peer, and once only; the entries
/// for other peers stay as they are.
pub proof fn law_table_gives_back_what_was_entered<S>(
    fresh: PeerTable<S>,
    entered: &mut PeerTable<S>,
    peer: PeerId,
    value: S,
    replaced: Option<S>,
    found: bool,
    taken_from: &mut PeerTable<S>,
    same: PeerId,
    taken: Option<S>,
    left: bool,
    other: Seq<u8>,
)
    requires
        same@ == peer@,
        other != peer@,
        call_ensures(PeerTable::<S>::new, (), fresh),
        call_ensures(PeerTable::<S>::insert, (entered, peer, value), replaced),
        call_ensures(PeerTable::<S>::contains_key, (&*final(entered), &same), found),
        old(taken_from)@ == final(entered)@,
        call_ensures(PeerTable::<S>::remove, (taken_from, &same), taken),
        call_ensures(PeerTable::<S>::contains_key, (&*final(taken_from), &same), left),
    ensures
        forall|p: Seq<u8>| !(#[trigger] fresh@.contains_key(p)),
        found,
        taken == Some(value),
        !left,
        final(taken_from)@.contains_key(other) == old(entered)@.contains_key(other),
        final(taken_from)@[other] == old(entered)@[other],
{
}

} // verus!
