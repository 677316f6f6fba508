use file_exchange::event_loop::EventLoop;
use file_exchange::identity::NodeKeys;
use file_exchange::network;

#[test]
fn seed_stands_for_a_secret_key() {
    let bytes = NodeKeys::from_seed(7).to_bytes();
    assert_eq!(bytes.len(), 64);
    assert_eq!(bytes[0], 7);
    assert!(bytes[1..32].iter().all(|b| *b == 0));
}

#[test]
fn seed_gives_a_fixed_peer_id() {
    let peer = NodeKeys::from_seed(1).peer_id();
    assert_eq!(peer.to_text(), "12D3KooWPjceQrSwdWXPyLLeABRXmuqt69Rg3sBYbU1Nft9HyQ6X");
    assert!(peer == NodeKeys::from_seed(1).peer_id());
    assert!(peer != NodeKeys::from_seed(2).peer_id());
}

#[test]
fn peer_id_is_the_inlined_public_key() {
    let keys = NodeKeys::from_seed(3);
    let mut expected = vec![0, 36, 8, 1, 18, 32];
    expected.extend(&keys.to_bytes()[32..]);
    assert_eq!(keys.peer_id().to_bytes(), expected);
}

#[test]
fn keys_agree_with_the_outside_ones() {
    let mut bytes = [0u8; 32];
    bytes[0] = 200;
    let outside = libp2p::identity::Keypair::ed25519_from_bytes(bytes).unwrap();
    let inside = NodeKeys::from_seed(200);
    assert_eq!(inside.peer_id().to_bytes(), outside.public().to_peer_id().to_bytes());
}

#[test]
fn random_keys_belong_together() {
    let keys = NodeKeys::generate();
    let mut bytes = keys.to_bytes();
    let outside = libp2p::identity::ed25519::Keypair::try_from_bytes(&mut bytes).unwrap();
    assert_eq!(outside.public().to_bytes(), keys.to_bytes()[32..]);
    assert!(keys.peer_id() != NodeKeys::generate().peer_id());
}

#[test]
fn network_is_made_of_the_keys() {
    let (keys, _, _): (_, _, EventLoop<String>) = network::new(Some(1));
    assert_eq!(keys.to_bytes(), NodeKeys::from_seed(1).to_bytes());
    let (random, _, _): (_, _, EventLoop<String>) = network::new(None);
    assert_eq!(random.to_bytes().len(), 64);
}
