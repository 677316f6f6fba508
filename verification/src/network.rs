//! The parts of which the network of a node is made.

use vstd::prelude::*;

use crate::command::Client;
use crate::event_loop::{EventLoop, LoopState};
use crate::identity::{ed25519_public, is_keypair, peer_id_of_public, seed_secret, NodeKeys};

verus! {

/// The keys of the node, the client to interact with the network from anywhere within the
/// application, and the loop that drives the network. With a seed the keys are always the same;
/// without one they are random.
pub fn new<E>(secret_key_seed: Option<u8>) -> (parts: (NodeKeys, Client, EventLoop<E>))
    ensures
        is_keypair(parts.0@),
        secret_key_seed matches Some(seed) ==> parts.0@ == seed_secret(seed) + ed25519_public(
            seed_secret(seed),
        ),
        parts.2@ == LoopState::<E>::start(peer_id_of_public(parts.0@.skip(32))),
        secret_key_seed matches Some(seed) ==> parts.2@.local_peer_id == peer_id_of_public(
            ed25519_public(seed_secret(seed)),
        ),
{
    // Create a public/private key pair, either random or based on a seed.
    let keys = match secret_key_seed {
        Some(seed) => NodeKeys::from_seed(seed),
        None => NodeKeys::generate(),
    };
    proof {
        if let Some(seed) = secret_key_seed {
            assert(keys@.take(32) == seed_secret(seed));
        }
    }
    let peer_id = keys.peer_id();
    (keys, Client {}, EventLoop::new(peer_id))
}

} // verus!
