//! The keys of a node, and the peer id that follows from them.

use vstd::prelude::*;
use vstd::slice::slice_to_vec;

use crate::peer::{valid_peer_id, PeerId};

verus! {

/// The public key that belongs to an Ed25519 secret key.
pub uninterp spec fn ed25519_public(secret: Seq<u8>) -> Seq<u8>;

/// The secret key that a seed stands for: the seed, followed by zeros.
pub open spec fn seed_secret(seed: u8) -> Seq<u8> {
    Seq::new(32, |i: int| if i == 0 { seed } else { 0u8 })
}

/// The peer id of the node with a public key: the key's protocol buffer encoding, which is
/// short enough to be inlined in place of its hash.
pub open spec fn peer_id_of_public(public: Seq<u8>) -> Seq<u8> {
    seq![0u8, 36u8, 8u8, 1u8, 18u8, 32u8] + public
}

/// Whether bytes are a secret key followed by the public key that belongs to it.
pub open spec fn is_keypair(bytes: Seq<u8>) -> bool {
    &&& bytes.len() == 64
    &&& bytes.skip(32) == ed25519_public(bytes.take(32))
}

/// An error of `libp2p::identity`.
#[verifier::external_type_specification]
#[verifier::external_body]
pub struct ExDecodingError(libp2p::identity::DecodingError);

/// `ed25519::SecretKey::try_from_bytes` and the `ed25519::Keypair` of that secret key, as
/// `Keypair::to_bytes` gives it: only the length of the bytes can be wrong; the keypair is the
/// secret key followed by the public key, which is named [`ed25519_public`].
#[verifier::external_body]
fn ed25519_keypair(secret: Vec<u8>) -> (keypair: Result<Vec<u8>, libp2p::identity::DecodingError>)
    ensures
        keypair is Ok <==> secret@.len() == 32,
        keypair matches Ok(k) ==> k@.len() == 64 && k@ == secret@ + ed25519_public(secret@),
{
    match libp2p::identity::ed25519::SecretKey::try_from_bytes(secret) {
        Ok(secret) => Ok(libp2p::identity::ed25519::Keypair::from(secret).to_bytes().to_vec()),
        Err(e) => Err(e),
    }
}

/// `ed25519::Keypair::generate`, the random keypair of `Keypair::generate_ed25519`, as
/// `Keypair::to_bytes` gives it. Nothing is said of the secret key; the public key is the one
/// that belongs to it.
#[verifier::external_body]
fn ed25519_generate() -> (keypair: Vec<u8>)
    ensures
        is_keypair(keypair@),
{
    libp2p::identity::ed25519::Keypair::generate().to_bytes().to_vec()
}

/// `PublicKey::to_peer_id` of the public key of an Ed25519 keypair: the peer id is made of the
/// public key alone.
#[verifier::external_body]
fn ed25519_peer_id(keypair: &Vec<u8>) -> (peer: Vec<u8>)
    requires
        is_keypair(keypair@),
    ensures
        peer@ == peer_id_of_public(keypair@.skip(32)),
{
    let mut bytes = keypair.clone();
    let keypair = libp2p::identity::ed25519::Keypair::try_from_bytes(&mut bytes);
    let keypair = libp2p::identity::Keypair::from(keypair.expect("a keypair"));
    keypair.public().to_peer_id().to_bytes()
}

/// The keys of a node.
pub struct NodeKeys {
    keypair: Vec<u8>,
}

impl View for NodeKeys {
    type V = Seq<u8>;

    closed spec fn view(&self) -> Seq<u8> {
        self.keypair@
    }
}

impl NodeKeys {
    #[verifier::type_invariant]
    spec fn is_valid(&self) -> bool {
        is_keypair(self.keypair@)
    }

    /// The keys that a seed stands for.
    pub fn from_seed(seed: u8) -> (keys: NodeKeys)
        ensures
            keys@ == seed_secret(seed) + ed25519_public(seed_secret(seed)),
            is_keypair(keys@),
    {
        let mut secret: Vec<u8> = Vec::new();
        secret.push(seed);
        while secret.len() < 32
            invariant
                1 <= secret.len() <= 32,
                secret@ == seed_secret(seed).take(secret.len() as int),
            decreases 32 - secret.len(),
        {
            secret.push(0);
        }
        assert(secret@ == seed_secret(seed));
        let keypair = ed25519_keypair(secret).unwrap();
        assert(keypair@.take(32) == seed_secret(seed));
        assert(keypair@.skip(32) == ed25519_public(seed_secret(seed)));
        NodeKeys { keypair }
    }

    /// New random keys.
    pub fn generate() -> (keys: NodeKeys)
        ensures
            is_keypair(keys@),
    {
        NodeKeys { keypair: ed25519_generate() }
    }

    /// The secret key followed by the public key.
    pub fn to_bytes(&self) -> (bytes: Vec<u8>)
        ensures
            bytes@ == self@,
            is_keypair(bytes@),
    {
        proof {
            use_type_invariant(self);
        }
        slice_to_vec(self.keypair.as_slice())
    }

    /// The peer id by which other nodes know the node.
    pub fn peer_id(&self) -> (peer: PeerId)
        ensures
            peer@ == peer_id_of_public(self@.skip(32)),
    {
        proof {
            use_type_invariant(self);
        }
        let bytes = ed25519_peer_id(&self.keypair);
        assert(valid_peer_id(bytes@));
        PeerId::from_bytes(bytes).unwrap()
    }
}

} // verus!
