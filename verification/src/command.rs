//! What the rest of the application asks of the network, and how.

use futures::channel::oneshot::Sender;
use vstd::prelude::*;

use crate::address::Address;
use crate::peer::{PeerId, PeerSet};

verus! {

/// The half of a channel of `futures` through which whoever asked for something is answered.
/// The library carries it to the answer; it never looks inside.
#[verifier::external_type_specification]
#[verifier::external_body]
#[verifier::reject_recursive_types(T)]
pub struct ExSender<T>(futures::channel::oneshot::Sender<T>);

/// Something asked of the network. `E` is the network's error, `C` the channel on which a
/// request from a peer is to be answered.
#[verifier::reject_recursive_types(E)]
#[allow(inconsistent_fields)]
pub enum Command<E, C> {
    /// Listen at an address.
    StartListening { addr: Address, sender: Sender<Result<(), E>> },
    /// Connect to a peer.
    Dial { peer_id: PeerId, peer_addr: Address, sender: Sender<Result<(), E>> },
    /// Advertise the local node as a provider of a file.
    StartProviding { file_name: String, sender: Sender<()> },
    /// Find the providers of a file.
    GetProviders { file_name: String, sender: Sender<PeerSet> },
    /// Ask a peer for a file.
    RequestFile { file_name: String, peer: PeerId, sender: Sender<Result<String, E>> },
    /// Answer a peer's request with a file.
    RespondFile { file: String, channel: C },
    /// Ask a peer for a lease.
    RequestLease { lease_number: String, peer: PeerId, sender: Sender<Result<String, E>> },
    /// Answer a peer's request with a lease.
    RespondLease { num_lease: String, channel: C },
    /// Advertise the local node as a root.
    BootRoot { up_root: String, sender: Sender<()> },
}

/// The commands by which the rest of the application speaks to the network.
#[derive(Debug, Clone, Copy)]
pub struct Client {}

impl Client {
    /// Listen for incoming connections on the given address.
    pub fn start_listening<E, C>(&self, addr: Address, sender: Sender<Result<(), E>>) -> (command:
        Command<E, C>)
        ensures
            command == (Command::<E, C>::StartListening { addr, sender }),
    {
        Command::StartListening { addr, sender }
    }

    /// Dial the given peer at the given address.
    pub fn dial<E, C>(
        &self,
        peer_id: PeerId,
        peer_addr: Address,
        sender: Sender<Result<(), E>>,
    ) -> (command: Command<E, C>)
        ensures
            command == (Command::<E, C>::Dial { peer_id, peer_addr, sender }),
    {
        Command::Dial { peer_id, peer_addr, sender }
    }

    /// Advertise the local node as the provider of the given file.
    pub fn start_providing<E, C>(&self, file_name: String, sender: Sender<()>) -> (command: Command<
        E,
        C,
    >)
        ensures
            command == (Command::<E, C>::StartProviding { file_name, sender }),
    {
        Command::StartProviding { file_name, sender }
    }

    /// Find the providers for the given file.
    pub fn get_providers<E, C>(&self, file_name: String, sender: Sender<PeerSet>) -> (command:
        Command<E, C>)
        ensures
            command == (Command::<E, C>::GetProviders { file_name, sender }),
    {
        Command::GetProviders { file_name, sender }
    }

    /// Request the content of the given file from the given peer.
    pub fn request_file<E, C>(
        &self,
        peer: PeerId,
        file_name: String,
        sender: Sender<Result<String, E>>,
    ) -> (command: Command<E, C>)
        ensures
            command == (Command::<E, C>::RequestFile { file_name, peer, sender }),
    {
        Command::RequestFile { file_name, peer, sender }
    }

    /// Respond with the provided file content to the given request.
    pub fn respond_file<E, C>(&self, file: String, channel: C) -> (command: Command<E, C>)
        ensures
            command == (Command::<E, C>::RespondFile { file, channel }),
    {
        Command::RespondFile { file, channel }
    }

    /// Request the lease with the given number from the given peer.
    pub fn request_lease<E, C>(
        &self,
        peer: PeerId,
        lease_number: String,
        sender: Sender<Result<String, E>>,
    ) -> (command: Command<E, C>)
        ensures
            command == (Command::<E, C>::RequestLease { lease_number, peer, sender }),
    {
        Command::RequestLease { lease_number, peer, sender }
    }

    /// Respond with the provided lease to the given request.
    pub fn respond_lease<E, C>(&self, num_lease: String, channel: C) -> (command: Command<E, C>)
        ensures
            command == (Command::<E, C>::RespondLease { num_lease, channel }),
    {
        Command::RespondLease { num_lease, channel }
    }

    /// Advertise the local node as the root of the given name.
    pub fn boot_root<E, C>(&self, up_root: String, sender: Sender<()>) -> (command: Command<E, C>)
        ensures
            command == (Command::<E, C>::BootRoot { up_root, sender }),
    {
        Command::BootRoot { up_root, sender }
    }
}

} // verus!
