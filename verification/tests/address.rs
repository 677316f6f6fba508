use file_exchange::address::{Address, AddressError};
use file_exchange::peer::PeerId;

const PEER: &str = "12D3KooWPjceQrSwdWXPyLLeABRXmuqt69Rg3sBYbU1Nft9HyQ6X";

fn peer() -> PeerId {
    let outside: libp2p::PeerId = PEER.parse().unwrap();
    PeerId::from_bytes(outside.to_bytes()).unwrap()
}

#[test]
fn any_address_is_the_unspecified_one() {
    assert_eq!(Address::any().to_bytes(), vec![4, 0, 0, 0, 0, 6, 0, 0]);
    assert_eq!(Address::any().to_text(), "/ip4/0.0.0.0/tcp/0");
}

#[test]
fn text_is_parsed() {
    let address = Address::parse("/ip4/127.0.0.1/tcp/40837").unwrap();
    assert_eq!(address.to_bytes(), vec![4, 127, 0, 0, 1, 6, 0x9f, 0x85]);
    assert_eq!(address.to_text(), "/ip4/127.0.0.1/tcp/40837");
    assert_eq!(address.clone().to_bytes(), address.to_bytes());
}

#[test]
fn other_text_is_no_address() {
    for text in ["ip4/127.0.0.1", "/ip4", "/ip4/1.2.3", "/nothing/1", "/p2p/x"] {
        assert!(matches!(Address::parse(text), Err(AddressError::InvalidText)));
    }
}

#[test]
fn bytes_are_read() {
    let address = Address::from_bytes(vec![4, 10, 0, 0, 7, 6, 0, 80]).unwrap();
    assert_eq!(address.to_text(), "/ip4/10.0.0.7/tcp/80");
}

#[test]
fn other_bytes_are_no_address() {
    for bytes in [vec![4, 10, 0, 0], vec![1], vec![6, 0], vec![0xa5, 0x03, 2, 1, 1]] {
        assert!(matches!(Address::from_bytes(bytes), Err(AddressError::InvalidBytes)));
    }
}

#[test]
fn peer_is_put_behind_the_address() {
    let extended = Address::any().with_peer(&peer());
    let mut bytes = vec![4, 0, 0, 0, 0, 6, 0, 0, 0xa5, 0x03, 38];
    bytes.extend(peer().to_bytes());
    assert_eq!(extended.to_bytes(), bytes);
    assert_eq!(extended.to_text(), format!("/ip4/0.0.0.0/tcp/0/p2p/{}", PEER));
    assert!(extended.last_peer() == Some(peer()));
}

#[test]
fn address_without_a_last_peer_names_none() {
    assert!(Address::any().last_peer().is_none());
    let relayed = Address::parse(&format!("/p2p/{}/p2p-circuit", PEER)).unwrap();
    assert!(relayed.last_peer().is_none());
    assert!(Address::from_bytes(vec![]).unwrap().last_peer().is_none());
}

#[test]
fn peer_is_appended_even_where_one_is_named() {
    let other = PeerId::from_bytes(vec![0, 1, 5]).unwrap();
    let twice = Address::any().with_peer(&peer()).with_peer(&other);
    assert!(twice.last_peer() == Some(other));
}

#[test]
fn last_peer_is_in_the_short_form() {
    let mut bytes = vec![4, 10, 0, 0, 7, 6, 0, 80, 0xa5, 0x03, 11, 0x92];
    bytes.extend([0x80; 8]);
    bytes.extend([0x02, 0x00]);
    let address = Address::from_bytes(bytes.clone()).unwrap();
    assert_eq!(address.last_peer().unwrap().to_bytes(), vec![0x12, 0x00]);
    assert_eq!(address.to_bytes(), bytes);
}
