//! Peers, sets of peers, and tables keyed by peers.

use vstd::prelude::*;
use vstd::slice::slice_to_vec;

verus! {

/// Whether bytes are the binary form in which a peer id is written: a multihash (a code, the
/// length of the digest, the digest) that is either a SHA-256 hash or an inlined public key of at
/// most 42 bytes.
pub open spec fn valid_peer_id(bytes: Seq<u8>) -> bool {
    &&& bytes.len() >= 2
    &&& bytes.len() == 2 + bytes[1]
    &&& bytes[1] <= 64
    &&& bytes[0] == 0x12 || (bytes[0] == 0 && bytes[1] <= 42)
}

/// The binary form in which the peer id is written that `libp2p::PeerId` reads from bytes, if it
/// reads one.
pub uninterp spec fn peer_id_of_bytes(bytes: Seq<u8>) -> Option<Seq<u8>>;

/// What `libp2p::PeerId` prints of the peer id with the given binary form.
pub uninterp spec fn peer_id_text(bytes: Seq<u8>) -> Seq<char>;

/// An error of `libp2p::PeerId::from_bytes`.
#[verifier::external_type_specification]
#[verifier::external_body]
pub struct ExPeerIdParseError(libp2p::identity::ParseError);

/// `libp2p::PeerId::from_bytes`, and the bytes of the peer id that it gives: what it makes of
/// bytes is named [`peer_id_of_bytes`]. What it makes is a binary form that [`valid_peer_id`]
/// describes, and such a form it keeps as it is. It also reads some bytes that are no such form:
/// a code or a length may be spelled in ten bytes, of whose last all but the lowest bit is lost.
/// Which bytes these are is not said here.
#[verifier::external_body]
fn peer_id_from_bytes(bytes: &Vec<u8>) -> (peer: Result<Vec<u8>, libp2p::identity::ParseError>)
    ensures
        match peer {
            Ok(b) => peer_id_of_bytes(bytes@) == Some(b@) && valid_peer_id(b@),
            Err(_) => peer_id_of_bytes(bytes@) is None,
        },
        valid_peer_id(bytes@) ==> peer is Ok && peer->Ok_0@ == bytes@,
{
    match libp2p::PeerId::from_bytes(bytes) {
        Ok(peer) => Ok(peer.to_bytes()),
        Err(e) => Err(e),
    }
}

/// The `Display` of `libp2p::PeerId`: its result is named [`peer_id_text`].
#[verifier::external_body]
fn peer_id_to_string(bytes: &Vec<u8>) -> (text: String)
    requires
        valid_peer_id(bytes@),
    ensures
        text@ == peer_id_text(bytes@),
{
    libp2p::PeerId::from_bytes(bytes).expect("a valid peer id").to_string()
}

/// The id of a peer.
#[derive(Debug)]
pub struct PeerId {
    bytes: Vec<u8>,
}

impl View for PeerId {
    type V = Seq<u8>;

    closed spec fn view(&self) -> Seq<u8> {
        self.bytes@
    }
}

impl PeerId {
    #[verifier::type_invariant]
    spec fn is_valid(&self) -> bool {
        valid_peer_id(self.bytes@)
    }

    /// Reads a peer id from bytes. The form in which it is written is read as it is. Bytes that
    /// are no peer id are given back.
    pub fn from_bytes(bytes: Vec<u8>) -> (peer: Result<PeerId, Vec<u8>>)
        ensures
            match peer {
                Ok(p) => peer_id_of_bytes(bytes@) == Some(p@) && valid_peer_id(p@),
                Err(b) => peer_id_of_bytes(bytes@) is None && b@ == bytes@,
            },
            valid_peer_id(bytes@) ==> peer is Ok && peer->Ok_0@ == bytes@,
    {
        match peer_id_from_bytes(&bytes) {
            Ok(bytes) => Ok(PeerId { bytes }),
            Err(_) => Err(bytes),
        }
    }

    /// The binary form in which the peer id is written.
    pub fn to_bytes(&self) -> (bytes: Vec<u8>)
        ensures
            bytes@ == self@,
            valid_peer_id(bytes@),
    {
        proof {
            use_type_invariant(self);
        }
        slice_to_vec(self.bytes.as_slice())
    }

    /// The text by which the peer id is shown.
    pub fn to_text(&self) -> (text: String)
        ensures
            text@ == peer_id_text(self@),
    {
        proof {
            use_type_invariant(self);
        }
        peer_id_to_string(&self.bytes)
    }

    /// Whether two peer ids are the same.
    pub fn same(&self, other: &PeerId) -> (equal: bool)
        ensures
            equal == (self@ == other@),
    {
        if self.bytes.len() != other.bytes.len() {
            return false;
        }
        let mut i: usize = 0;
        while i < self.bytes.len()
            invariant
                i <= self.bytes.len(),
                self.bytes.len() == other.bytes.len(),
                self.bytes@.take(i as int) == other.bytes@.take(i as int),
            decreases self.bytes.len() - i,
        {
            if self.bytes[i] != other.bytes[i] {
                assert(self@[i as int] != other@[i as int]);
                return false;
            }
            assert(self.bytes@.take(i + 1) == self.bytes@.take(i as int).push(self.bytes@[i as int]));
            assert(other.bytes@.take(i + 1) == other.bytes@.take(i as int).push(
                other.bytes@[i as int],
            ));
            i = i + 1;
        }
        assert(self.bytes@.take(i as int) == self.bytes@);
        assert(other.bytes@.take(i as int) == other.bytes@);
        true
    }
}

impl Clone for PeerId {
    fn clone(&self) -> (peer: PeerId)
        ensures
            peer@ == self@,
    {
        PeerId { bytes: self.to_bytes() }
    }
}

impl PartialEq for PeerId {
    fn eq(&self, other: &PeerId) -> (equal: bool) {
        self.same(other)
    }
}

impl vstd::std_specs::cmp::PartialEqSpecImpl for PeerId {
    open spec fn obeys_eq_spec() -> bool {
        true
    }

    open spec fn eq_spec(&self, other: &PeerId) -> bool {
        self@ == other@
    }
}

/// A set of peers.
#[derive(Debug)]
pub struct PeerSet {
    peers: Vec<PeerId>,
}

/// The binary forms of peers, in order.
pub open spec fn peer_bytes(peers: Seq<PeerId>) -> Seq<Seq<u8>> {
    Seq::new(peers.len(), |i: int| peers[i]@)
}

impl View for PeerSet {
    type V = Set<Seq<u8>>;

    closed spec fn view(&self) -> Set<Seq<u8>> {
        peer_bytes(self.peers@).to_set()
    }
}

impl PeerSet {
    #[verifier::type_invariant]
    spec fn is_valid(&self) -> bool {
        peer_bytes(self.peers@).no_duplicates()
    }

    /// The set without peers.
    pub fn new() -> (set: PeerSet)
        ensures
            set@ == Set::<Seq<u8>>::empty(),
    {
        let set = PeerSet { peers: Vec::new() };
        assert(peer_bytes(set.peers@).to_set() =~= Set::empty());
        set
    }

    /// Whether the set holds no peer.
    pub fn is_empty(&self) -> (empty: bool)
        ensures
            empty == (self@ == Set::<Seq<u8>>::empty()),
    {
        if self.peers.len() == 0 {
            assert(self@ =~= Set::empty());
            true
        } else {
            assert(peer_bytes(self.peers@)[0] == self.peers@[0]@);
            assert(self@.contains(self.peers@[0]@));
            false
        }
    }

    /// Whether the set holds a peer.
    pub fn contains(&self, peer: &PeerId) -> (found: bool)
        ensures
            found == self@.contains(peer@),
    {
        let mut i: usize = 0;
        while i < self.peers.len()
            invariant
                i <= self.peers.len(),
                forall|j: int| 0 <= j < i ==> (#[trigger] peer_bytes(self.peers@)[j]) != peer@,
            decreases self.peers.len() - i,
        {
            if self.peers[i].same(peer) {
                assert(peer_bytes(self.peers@)[i as int] == peer@);
                return true;
            }
            i = i + 1;
        }
        false
    }

    /// Adds a peer, and says whether it was not in the set before.
    pub fn insert(&mut self, peer: PeerId) -> (added: bool)
        ensures
            final(self)@ == old(self)@.insert(peer@),
            added == !old(self)@.contains(peer@),
    {
        proof {
            use_type_invariant(&*self);
        }
        if self.contains(&peer) {
            assert(self@.insert(peer@) =~= self@);
            return false;
        }
        let mut peers: Vec<PeerId> = Vec::new();
        std::mem::swap(&mut peers, &mut self.peers);
        let ghost before = peer_bytes(peers@);
        let ghost peer_view = peer@;
        peers.push(peer);
        proof {
            let after = peer_bytes(peers@);
            assert(after =~= before.push(peer_view));
            assert(!before.contains(peer_view));
            assert(after.no_duplicates());
            before.lemma_push_to_set_commute(peer_view);
        }
        self.peers = peers;
        true
    }

    /// Adds all peers of another set.
    pub fn extend(&mut self, other: PeerSet)
        ensures
            final(self)@ == old(self)@.union(other@),
    {
        let ghost before = self@;
        let ghost added = other@;
        let mut rest = other.into_peers();
        let ghost all = peer_bytes(rest@);
        while rest.len() > 0
            invariant
                peer_bytes(rest@) == all.take(rest.len() as int),
                rest.len() <= all.len(),
                self@ == before.union(all.skip(rest.len() as int).to_set()),
            decreases rest.len(),
        {
            let ghost n = rest.len() - 1;
            let ghost done = all.skip(n + 1);
            let ghost with_peer = peer_bytes(rest@);
            let peer = rest.pop().unwrap();
            proof {
                assert(with_peer[n] == peer@);
                assert(all.take(n + 1)[n] == all[n]);
                assert(all.skip(n) == seq![peer@] + done);
                assert forall|p: Seq<u8>| #[trigger] all.skip(n).contains(p) == (p == peer@
                    || done.contains(p)) by {
                    if p == peer@ {
                        assert(all.skip(n)[0] == p);
                    }
                    if done.contains(p) {
                        let k = choose|k: int| 0 <= k < done.len() && done[k] == p;
                        assert(all.skip(n)[k + 1] == p);
                    }
                }
                assert(before.union(all.skip(n).to_set()) =~= before.union(done.to_set()).insert(
                    peer@,
                ));
                assert(peer_bytes(rest@) == with_peer.take(n));
                assert(with_peer.take(n) == all.take(n));
            }
            self.insert(peer);
        }
        assert(all.skip(0) == all);
    }

    /// The peers of the set, each once.
    pub fn into_peers(self) -> (peers: Vec<PeerId>)
        ensures
            peer_bytes(peers@).no_duplicates(),
            peer_bytes(peers@).to_set() == self@,
    {
        proof {
            use_type_invariant(&self);
        }
        self.peers
    }
}

/// A table with at most one entry for each peer.
pub struct PeerTable<S> {
    entries: Vec<(PeerId, S)>,
}

impl<S> View for PeerTable<S> {
    type V = Map<Seq<u8>, S>;

    closed spec fn view(&self) -> Map<Seq<u8>, S> {
        table_of(self.entries@)
    }
}

/// The position of the entry for a peer among entries.
spec fn entry_of<S>(entries: Seq<(PeerId, S)>, peer: Seq<u8>) -> int {
    choose|i: int| 0 <= i < entries.len() && (#[trigger] entries[i]).0@ == peer
}

/// Whether there is an entry for a peer among entries.
spec fn has_entry<S>(entries: Seq<(PeerId, S)>, peer: Seq<u8>) -> bool {
    exists|i: int| 0 <= i < entries.len() && (#[trigger] entries[i]).0@ == peer
}

/// The table that entries for different peers make up.
spec fn table_of<S>(entries: Seq<(PeerId, S)>) -> Map<Seq<u8>, S> {
    Map::new(
        |peer: Seq<u8>| has_entry(entries, peer),
        |peer: Seq<u8>| entries[entry_of(entries, peer)].1,
    )
}

/// Whether entries are for different peers.
spec fn distinct<S>(entries: Seq<(PeerId, S)>) -> bool {
    forall|i: int, j: int|
        0 <= i < j < entries.len() ==> (#[trigger] entries[i]).0@ != (#[trigger] entries[j]).0@
}

/// An entry of a table is what the table holds for its peer.
proof fn lemma_entry<S>(entries: Seq<(PeerId, S)>, i: int)
    requires
        distinct(entries),
        0 <= i < entries.len(),
    ensures
        table_of(entries).contains_key(entries[i].0@),
        table_of(entries)[entries[i].0@] == entries[i].1,
{
    let peer = entries[i].0@;
    assert(has_entry(entries, peer));
    let k = entry_of(entries, peer);
    assert(0 <= k < entries.len() && entries[k].0@ == peer);
    assert(k == i);
}

/// An entry put behind the others adds a peer to the table.
proof fn lemma_push<S>(entries: Seq<(PeerId, S)>, entry: (PeerId, S))
    requires
        distinct(entries),
        !has_entry(entries, entry.0@),
    ensures
        distinct(entries.push(entry)),
        table_of(entries.push(entry)) == table_of(entries).insert(entry.0@, entry.1),
{
    let after = entries.push(entry);
    assert forall|i: int, j: int| 0 <= i < j < after.len() implies (#[trigger] after[i]).0@ != (
    #[trigger] after[j]).0@ by {
        assert(after[i] == entries[i]);
    }
    let want = table_of(entries).insert(entry.0@, entry.1);
    assert forall|peer: Seq<u8>| #[trigger] table_of(after).contains_key(peer)
        == want.contains_key(peer) by {
        if has_entry(entries, peer) {
            let k = entry_of(entries, peer);
            assert(after[k].0@ == peer);
        }
        if peer == entry.0@ {
            assert(after[entries.len() as int].0@ == peer);
        }
        if has_entry(after, peer) {
            let k = entry_of(after, peer);
            if k < entries.len() {
                assert(entries[k].0@ == peer);
            }
        }
    }
    assert forall|peer: Seq<u8>| #[trigger] table_of(after).contains_key(peer) implies table_of(
        after,
    )[peer] == want[peer] by {
        let k = entry_of(after, peer);
        lemma_entry(after, k);
        if k < entries.len() {
            assert(after[k] == entries[k]);
            lemma_entry(entries, k);
        }
    }
    assert(table_of(after) =~= want);
}

/// An entry taken out takes its peer out of the table.
proof fn lemma_remove<S>(entries: Seq<(PeerId, S)>, i: int)
    requires
        distinct(entries),
        0 <= i < entries.len(),
    ensures
        distinct(entries.remove(i)),
        table_of(entries.remove(i)) == table_of(entries).remove(entries[i].0@),
{
    let after = entries.remove(i);
    let gone = entries[i].0@;
    let want = table_of(entries).remove(gone);
    assert forall|a: int, b: int| 0 <= a < b < after.len() implies (#[trigger] after[a]).0@ != (
    #[trigger] after[b]).0@ by {
        let a0 = if a < i { a } else { a + 1 };
        let b0 = if b < i { b } else { b + 1 };
        assert(after[a] == entries[a0]);
        assert(after[b] == entries[b0]);
    }
    assert forall|peer: Seq<u8>| #[trigger] table_of(after).contains_key(peer)
        == want.contains_key(peer) by {
        if has_entry(after, peer) {
            let k = entry_of(after, peer);
            let k0 = if k < i { k } else { k + 1 };
            assert(after[k] == entries[k0]);
            assert(entries[k0].0@ == peer);
            assert(peer != gone);
        }
        if has_entry(entries, peer) && peer != gone {
            let k = entry_of(entries, peer);
            let k1 = if k < i { k } else { k - 1 };
            assert(after[k1] == entries[k]);
        }
    }
    assert forall|peer: Seq<u8>| #[trigger] table_of(after).contains_key(peer) implies table_of(
        after,
    )[peer] == want[peer] by {
        let k = entry_of(after, peer);
        let k0 = if k < i { k } else { k + 1 };
        lemma_entry(after, k);
        assert(after[k] == entries[k0]);
        lemma_entry(entries, k0);
    }
    assert(table_of(after) =~= want);
}

impl<S> PeerTable<S> {
    #[verifier::type_invariant]
    spec fn is_valid(&self) -> bool {
        distinct(self.entries@)
    }

    /// The table without entries.
    pub fn new() -> (table: PeerTable<S>)
        ensures
            table@ == Map::<Seq<u8>, S>::empty(),
    {
        let table = PeerTable { entries: Vec::new() };
        assert(table@ =~= Map::empty());
        table
    }

    /// The position of the entry for a peer, if there is one.
    fn find(&self, peer: &PeerId) -> (found: Option<usize>)
        ensures
            match found {
                Some(i) => i < self.entries.len() && self.entries@[i as int].0@ == peer@,
                None => !has_entry(self.entries@, peer@),
            },
    {
        let mut i: usize = 0;
        while i < self.entries.len()
            invariant
                i <= self.entries.len(),
                forall|j: int| 0 <= j < i ==> (#[trigger] self.entries@[j]).0@ != peer@,
            decreases self.entries.len() - i,
        {
            if self.entries[i].0.same(peer) {
                return Some(i);
            }
            i = i + 1;
        }
        None
    }

    /// Whether the table has an entry for a peer.
    pub fn contains_key(&self, peer: &PeerId) -> (found: bool)
        ensures
            found == self@.contains_key(peer@),
    {
        match self.find(peer) {
            Some(i) => {
                assert(self.entries@[i as int].0@ == peer@);
                true
            },
            None => false,
        }
    }

    /// Takes out the entry for a peer, if there is one.
    pub fn remove(&mut self, peer: &PeerId) -> (taken: Option<S>)
        ensures
            final(self)@ == old(self)@.remove(peer@),
            match taken {
                Some(s) => old(self)@.contains_key(peer@) && s == old(self)@[peer@],
                None => !old(self)@.contains_key(peer@),
            },
    {
        proof {
            use_type_invariant(&*self);
        }
        match self.find(peer) {
            Some(i) => {
                let mut entries: Vec<(PeerId, S)> = Vec::new();
                std::mem::swap(&mut entries, &mut self.entries);
                proof {
                    lemma_entry(entries@, i as int);
                    lemma_remove(entries@, i as int);
                }
                let entry = entries.remove(i);
                self.entries = entries;
                Some(entry.1)
            },
            None => {
                assert(self@.remove(peer@) =~= self@);
                None
            },
        }
    }

    /// Sets the entry for a peer, and gives back the one that it replaces.
    pub fn insert(&mut self, peer: PeerId, value: S) -> (replaced: Option<S>)
        ensures
            final(self)@ == old(self)@.insert(peer@, value),
            match replaced {
                Some(s) => old(self)@.contains_key(peer@) && s == old(self)@[peer@],
                None => !old(self)@.contains_key(peer@),
            },
    {
        let replaced = self.remove(&peer);
        proof {
            use_type_invariant(&*self);
        }
        let mut entries: Vec<(PeerId, S)> = Vec::new();
        std::mem::swap(&mut entries, &mut self.entries);
        proof {
            assert(!table_of(entries@).contains_key(peer@));
            lemma_push(entries@, (peer, value));
        }
        entries.push((peer, value));
        self.entries = entries;
        assert(self@ =~= old(self)@.insert(peer@, value));
        replaced
    }
}

} // verus!
