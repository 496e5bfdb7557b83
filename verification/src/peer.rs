//! Peer addresses: the stable identifier of a node, held as the bytes of its
//! multihash.

use vstd::prelude::*;

verus! {

/// The code of the SHA-256 hash in a multihash.
pub const SHA256_CODE: u8 = 0x12;

/// The code of the identity hash in a multihash.
pub const IDENTITY_CODE: u8 = 0x00;

/// The longest digest a peer identifier can hold.
pub const MAX_DIGEST: u8 = 64;

/// The longest public key that a peer identifier holds as it is, unhashed.
pub const MAX_INLINE_KEY: u8 = 42;

/// Whether `bytes` is the byte form of a peer identifier: the code of a
/// hash, the length of the digest, and then exactly that many bytes. The hash
/// is SHA-256, or the identity hash over a key short enough to be held as it
/// is.
pub open spec fn is_peer_id(bytes: Seq<u8>) -> bool {
    &&& bytes.len() >= 2
    &&& bytes.len() == 2 + bytes[1]
    &&& ((bytes[0] == SHA256_CODE && bytes[1] <= MAX_DIGEST) || (bytes[0] == IDENTITY_CODE
        && bytes[1] <= MAX_INLINE_KEY))
}

/// Calls `libp2p::PeerId::from_bytes` and reports whether it accepted the
/// bytes. It accepts a multihash with nothing after it, both numbers in
/// their shortest form, whose code and length are as `is_peer_id` says.
#[verifier::external_body]
fn parses_as_peer_id(bytes: &Vec<u8>) -> (ok: bool)
    ensures
        ok == is_peer_id(bytes@),
{
    libp2p::PeerId::from_bytes(bytes.as_slice()).is_ok()
}

/// The address of a peer. Every value holds bytes that the peer-identifier
/// parser accepts.
#[derive(Debug)]
pub struct PeerAddress {
    bytes: Vec<u8>,
}

impl View for PeerAddress {
    type V = Seq<u8>;

    closed spec fn view(&self) -> Seq<u8> {
        self.bytes@
    }
}

impl PeerAddress {
    #[verifier::type_invariant]
    spec fn well_formed(self) -> bool {
        is_peer_id(self.bytes@)
    }

    /// Builds an address from the byte form of a peer identifier; `None`
    /// exactly when the bytes are not one.
    pub fn from_bytes(bytes: Vec<u8>) -> (address: Option<PeerAddress>)
        ensures
            address is Some <==> is_peer_id(bytes@),
            address matches Some(a) ==> a@ == bytes@,
    {
        if parses_as_peer_id(&bytes) {
            Some(PeerAddress::from_peer_id_bytes(bytes))
        } else {
            None
        }
    }

    /// Builds an address from bytes known to be those of a peer identifier.
    pub(crate) fn from_peer_id_bytes(bytes: Vec<u8>) -> (address: PeerAddress)
        requires
            is_peer_id(bytes@),
        ensures
            address@ == bytes@,
    {
        PeerAddress { bytes }
    }

    /// The byte form of the address.
    pub fn as_bytes(&self) -> (bytes: &Vec<u8>)
        ensures
            bytes@ == self@,
            is_peer_id(bytes@),
    {
        proof {
            use_type_invariant(self);
        }
        &self.bytes
    }

    /// A copy of the address.
    pub fn duplicate(&self) -> (copy: PeerAddress)
        ensures
            copy@ == self@,
    {
        proof {
            use_type_invariant(self);
        }
        PeerAddress { bytes: self.bytes.clone() }
    }

    /// Whether two addresses name the same peer.
    pub fn same_as(&self, other: &PeerAddress) -> (same: bool)
        ensures
            same == (self@ == other@),
    {
        if self.bytes.len() != other.bytes.len() {
            return false;
        }
        let mut i: usize = 0;
        while i < self.bytes.len()
            invariant
                i <= self.bytes.len(),
                self.bytes.len() == other.bytes.len(),
                self.bytes@.subrange(0, i as int) == other.bytes@.subrange(0, i as int),
            decreases self.bytes.len() - i,
        {
            if self.bytes[i] != other.bytes[i] {
                return false;
            }
            assert(self.bytes@.subrange(0, i + 1) == self.bytes@.subrange(0, i as int).push(
                self.bytes@[i as int],
            ));
            assert(other.bytes@.subrange(0, i + 1) == other.bytes@.subrange(0, i as int).push(
                other.bytes@[i as int],
            ));
            i = i + 1;
        }
        assert(self.bytes@ == self.bytes@.subrange(0, i as int));
        assert(other.bytes@ == other.bytes@.subrange(0, i as int));
        true
    }
}

} // verus!
