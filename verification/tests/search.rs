use file_exchange::event::KademliaEvent;
use file_exchange::peer::{PeerId, PeerSet};
use file_exchange::search::{QueryProgress, Searches};

fn peer(n: u8) -> PeerId {
    PeerId::from_bytes(vec![0, 1, n]).unwrap()
}

fn set(peers: &[u8]) -> PeerSet {
    let mut set = PeerSet::new();
    for n in peers {
        set.insert(peer(*n));
    }
    set
}

fn found(peers: &[u8]) -> QueryProgress {
    QueryProgress::Found { providers: set(peers) }
}

#[test]
fn search_gives_all_that_it_found() {
    let mut searches = Searches::new();
    assert!(searches.progress(5, set(&[1, 2]), false).is_none());
    assert!(searches.progress(6, set(&[9]), false).is_none());
    assert!(searches.progress(5, set(&[2, 3]), false).is_none());
    let all = searches.progress(5, set(&[]), true).unwrap();
    assert!(all.contains(&peer(1)) && all.contains(&peer(2)) && all.contains(&peer(3)));
    assert_eq!(all.into_peers().len(), 3);
    let other = searches.progress(6, set(&[8]), true).unwrap();
    assert_eq!(other.into_peers().len(), 2);
}

#[test]
fn complete_search_begins_anew() {
    let mut searches = Searches::new();
    assert_eq!(searches.progress(1, set(&[1]), true).unwrap().into_peers().len(), 1);
    assert!(searches.progress(1, set(&[]), true).unwrap().is_empty());
}

#[test]
fn failed_search_is_forgotten() {
    let mut searches = Searches::new();
    assert!(searches.take(1, found(&[1]), false).is_none());
    assert!(searches.take(2, found(&[2]), false).is_none());
    let event = searches.take(1, QueryProgress::SearchFailed, true);
    assert!(matches!(event, Some(KademliaEvent::Other)));
    assert!(searches.progress(1, set(&[]), true).unwrap().is_empty());
    assert!(searches.progress(2, set(&[]), true).unwrap().contains(&peer(2)));
}

#[test]
fn advertisement_is_complete_whatever_its_result() {
    let mut searches = Searches::new();
    assert!(searches.take(7, found(&[1]), false).is_none());
    for last in [true, false] {
        let event = searches.take(7, QueryProgress::Advertised, last);
        assert!(matches!(event, Some(KademliaEvent::StartProviding { id: 7 })));
        let event = searches.take(7, QueryProgress::Other, last);
        assert!(matches!(event, Some(KademliaEvent::Other)));
    }
    assert!(searches.progress(7, set(&[]), true).unwrap().contains(&peer(1)));
}

#[test]
fn complete_search_is_reported_with_all_its_providers() {
    let mut searches = Searches::new();
    assert!(searches.take(3, found(&[1]), false).is_none());
    assert!(searches.take(4, found(&[9]), false).is_none());
    assert!(searches.take(3, found(&[2]), false).is_none());
    match searches.take(3, found(&[2, 5]), true) {
        Some(KademliaEvent::GetProviders { id, providers }) => {
            assert_eq!(id, 3);
            assert!(providers.contains(&peer(1)));
            assert!(providers.contains(&peer(2)));
            assert!(providers.contains(&peer(5)));
            assert_eq!(providers.into_peers().len(), 3);
        }
        _ => panic!(),
    }
    match searches.take(4, found(&[]), true) {
        Some(KademliaEvent::GetProviders { id, providers }) => {
            assert_eq!(id, 4);
            assert_eq!(providers.into_peers().len(), 1);
        }
        _ => panic!(),
    }
}
