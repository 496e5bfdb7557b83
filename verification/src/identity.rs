//! The identity of a node: its keypair and the address derived from the
//! public key.

use vstd::prelude::*;
use crate::peer::{is_peer_id, PeerAddress};

verus! {

#[verifier::external_type_specification]
#[verifier::external_body]
pub struct ExKeypair(libp2p::identity::Keypair);

/// The address that names the owner of a keypair: the bytes of the peer
/// identifier that `libp2p::identity::PublicKey::to_peer_id` derives from
/// its public half.
pub uninterp spec fn address_of(keys: libp2p::identity::Keypair) -> Seq<u8>;

/// Whether a keypair is an Ed25519 one (`libp2p::identity::Keypair::key_type`).
pub uninterp spec fn is_ed25519(keys: libp2p::identity::Keypair) -> bool;

/// Calls `libp2p::identity::Keypair::generate_ed25519`. The key is random:
/// all that is said of it is its kind.
#[verifier::external_body]
fn generate_keypair() -> (keys: libp2p::identity::Keypair)
    ensures
        is_ed25519(keys),
{
    libp2p::identity::Keypair::generate_ed25519()
}

/// Calls `libp2p::identity::PublicKey::to_peer_id` on the public half of the
/// keypair and `libp2p::PeerId::to_bytes` on the outcome. The outcome depends
/// on the keypair alone, and the bytes of a peer identifier parse as one.
#[verifier::external_body]
fn derive_address(keys: &libp2p::identity::Keypair) -> (bytes: Vec<u8>)
    ensures
        bytes@ == address_of(*keys),
        is_peer_id(bytes@),
{
    keys.public().to_peer_id().to_bytes()
}

/// A keypair together with the address that names its owner on the network.
pub struct NodeIdentity {
    keys: libp2p::identity::Keypair,
    address: PeerAddress,
}

impl NodeIdentity {
    #[verifier::type_invariant]
    spec fn named_by_its_keys(self) -> bool {
        self.address@ == address_of(self.keys)
    }

    /// The address of the node.
    pub closed spec fn spec_address(&self) -> PeerAddress {
        self.address
    }

    /// The keypair of the node.
    pub closed spec fn spec_keys(&self) -> libp2p::identity::Keypair {
        self.keys
    }

    /// Generates a fresh identity: a new Ed25519 keypair, and the address
    /// derived from its public half.
    pub fn generate() -> (identity: NodeIdentity)
        ensures
            is_ed25519(identity.spec_keys()),
            identity.spec_address()@ == address_of(identity.spec_keys()),
            is_peer_id(identity.spec_address()@),
    {
        NodeIdentity::from_keys(generate_keypair())
    }

    /// The identity that goes with a keypair: the address is derived from
    /// its public half.
    pub fn from_keys(keys: libp2p::identity::Keypair) -> (identity: NodeIdentity)
        ensures
            identity.spec_keys() == keys,
            identity.spec_address()@ == address_of(keys),
            is_peer_id(identity.spec_address()@),
    {
        let address = PeerAddress::from_peer_id_bytes(derive_address(&keys));
        NodeIdentity { keys, address }
    }

    /// The address of the node.
    pub fn address(&self) -> (address: &PeerAddress)
        ensures
            *address == self.spec_address(),
            address@ == address_of(self.spec_keys()),
    {
        proof {
            use_type_invariant(self);
        }
        &self.address
    }

    /// The keypair of the node.
    pub fn keys(&self) -> (keys: &libp2p::identity::Keypair)
        ensures
            *keys == self.spec_keys(),
    {
        &self.keys
    }
}

} // verus!
