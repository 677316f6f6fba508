use file_exchange::peer::{PeerId, PeerSet, PeerTable};

fn peer(n: u8) -> PeerId {
    PeerId::from_bytes(vec![0, 2, 7, n]).unwrap()
}

#[test]
fn peer_id_is_a_short_key_or_a_hash() {
    let mut hash = vec![0x12, 32];
    hash.extend([9; 32]);
    assert_eq!(PeerId::from_bytes(hash.clone()).unwrap().to_bytes(), hash);
    assert_eq!(PeerId::from_bytes(vec![0, 1, 5]).unwrap().to_bytes(), vec![0, 1, 5]);
    assert_eq!(PeerId::from_bytes(vec![0, 0]).unwrap().to_bytes(), vec![0, 0]);
}

#[test]
fn other_bytes_are_no_peer_id() {
    for bytes in [
        vec![],
        vec![0],
        vec![0, 1],
        vec![0, 1, 5, 6],
        vec![0x13, 1, 5],
        vec![0x80, 0, 0],
        vec![0x92, 0x00, 1, 5],
    ] {
        assert_eq!(PeerId::from_bytes(bytes.clone()), Err(bytes));
    }
}

#[test]
fn longer_spelling_is_written_in_the_short_form() {
    let mut long_code = vec![0x92];
    long_code.extend([0x80; 8]);
    long_code.extend([0x02, 0x00]);
    assert!(libp2p::PeerId::from_bytes(&long_code).is_ok());
    assert_eq!(PeerId::from_bytes(long_code).unwrap().to_bytes(), vec![0x12, 0x00]);

    let mut long_length = vec![0x00, 0x81];
    long_length.extend([0x80; 8]);
    long_length.extend([0x02, 0x05]);
    let peer = PeerId::from_bytes(long_length).unwrap();
    assert!(peer == PeerId::from_bytes(vec![0, 1, 5]).unwrap());
}

#[test]
fn key_of_forty_two_bytes_is_the_longest() {
    let mut longest = vec![0, 42];
    longest.extend([1; 42]);
    assert!(PeerId::from_bytes(longest).is_ok());
    let mut longer = vec![0, 43];
    longer.extend([1; 43]);
    assert!(PeerId::from_bytes(longer).is_err());
    let mut hash = vec![0x12, 64];
    hash.extend([1; 64]);
    assert!(PeerId::from_bytes(hash).is_ok());
    let mut long_hash = vec![0x12, 65];
    long_hash.extend([1; 65]);
    assert!(PeerId::from_bytes(long_hash).is_err());
}

#[test]
fn peer_id_agrees_with_the_outside_one() {
    let outside: libp2p::PeerId =
        "12D3KooWPjceQrSwdWXPyLLeABRXmuqt69Rg3sBYbU1Nft9HyQ6X".parse().unwrap();
    let inside = PeerId::from_bytes(outside.to_bytes()).unwrap();
    assert_eq!(inside.to_text(), "12D3KooWPjceQrSwdWXPyLLeABRXmuqt69Rg3sBYbU1Nft9HyQ6X");
    assert_eq!(inside.to_bytes(), outside.to_bytes());
}

#[test]
fn same_bytes_are_the_same_peer() {
    assert!(peer(1) == peer(1));
    assert!(peer(1) != peer(2));
    assert!(!peer(1).same(&PeerId::from_bytes(vec![0, 1, 7]).unwrap()));
    assert!(peer(3).clone() == peer(3));
}

#[test]
fn set_holds_each_peer_once() {
    let mut set = PeerSet::new();
    assert!(set.is_empty());
    assert!(set.insert(peer(1)));
    assert!(set.insert(peer(2)));
    assert!(!set.insert(peer(1)));
    assert!(!set.is_empty());
    assert!(set.contains(&peer(2)));
    assert!(!set.contains(&peer(3)));
    assert_eq!(set.into_peers().len(), 2);
}

#[test]
fn set_takes_up_another() {
    let mut set = PeerSet::new();
    set.insert(peer(1));
    set.insert(peer(2));
    let mut other = PeerSet::new();
    other.insert(peer(2));
    other.insert(peer(3));
    set.extend(other);
    assert!(set.contains(&peer(1)) && set.contains(&peer(2)) && set.contains(&peer(3)));
    assert_eq!(set.into_peers().len(), 3);
}

#[test]
fn table_has_one_entry_for_each_peer() {
    let mut table = PeerTable::new();
    assert_eq!(table.insert(peer(1), "a"), None);
    assert_eq!(table.insert(peer(2), "b"), None);
    assert_eq!(table.insert(peer(3), "c"), None);
    assert_eq!(table.insert(peer(2), "d"), Some("b"));
    assert!(table.contains_key(&peer(2)));
    assert_eq!(table.remove(&peer(1)), Some("a"));
    assert_eq!(table.remove(&peer(1)), None);
    assert!(!table.contains_key(&peer(1)));
    assert_eq!(table.remove(&peer(2)), Some("d"));
    assert_eq!(table.remove(&peer(3)), Some("c"));
}
