//! The transport factory: TCP, secured by a handshake that authenticates
//! both peers, and multiplexed into independent streams.

use vstd::prelude::*;
use libp2p::Transport;
use crate::identity::{is_ed25519, NodeIdentity};

verus! {

#[verifier::external_type_specification]
#[verifier::external_body]
#[verifier::reject_recursive_types(O)]
pub struct ExBoxed<O>(libp2p::core::transport::Boxed<O>);

#[verifier::external_type_specification]
#[verifier::external_body]
pub struct ExPeerId(libp2p::PeerId);

#[verifier::external_type_specification]
#[verifier::external_body]
pub struct ExStreamMuxerBox(libp2p::core::muxing::StreamMuxerBox);

#[verifier::external_type_specification]
#[verifier::external_body]
pub struct ExNoiseError(libp2p::noise::Error);

/// Why no transport could be built.
#[derive(Clone, Copy, Debug, PartialEq, Eq, Structural)]
pub enum TransportError {
    /// The handshake could not be set up from the node's keys.
    Handshake,
}

/// Whether the node's connections send small writes at once, without
/// waiting to fill a packet.
pub const NO_DELAY: bool = true;

/// Builds the transport with `libp2p`: `tcp::tokio::Transport::new`, upgraded
/// by `Transport::upgrade`, `authenticate` with `noise::Config::new` and
/// `multiplex` with `yamux::Config::default`, then `boxed`. Fails as
/// `noise::Config::new` does, which is when the keypair cannot sign the
/// handshake key; an Ed25519 keypair always can. Nothing is said of the
/// transport: building it opens no connection, and what it does on one is the
/// outside crate's.
#[verifier::external_body]
fn build_transport(keys: &libp2p::identity::Keypair, no_delay: bool) -> (transport: Result<
    libp2p::core::transport::Boxed<(libp2p::PeerId, libp2p::core::muxing::StreamMuxerBox)>,
    libp2p::noise::Error,
>)
    ensures
        is_ed25519(*keys) ==> transport is Ok,
{
    let handshake = libp2p::noise::Config::new(keys)?;
    let tcp = libp2p::tcp::tokio::Transport::new(libp2p::tcp::Config::default().nodelay(no_delay));
    Ok(
        tcp.upgrade(libp2p::core::upgrade::Version::V1).authenticate(handshake).multiplex(
            libp2p::yamux::Config::default(),
        ).boxed(),
    )
}

/// What a node makes of an attempt to build its transport: the transport as
/// it was built, or, whatever went wrong with the handshake, the one error
/// that aborts the start.
pub fn transport_or_failure(
    built: Result<
        libp2p::core::transport::Boxed<(libp2p::PeerId, libp2p::core::muxing::StreamMuxerBox)>,
        libp2p::noise::Error,
    >,
) -> (transport: Result<
    libp2p::core::transport::Boxed<(libp2p::PeerId, libp2p::core::muxing::StreamMuxerBox)>,
    TransportError,
>)
    ensures
        match built {
            Ok(made) => transport is Ok && transport->Ok_0 == made,
            Err(_) => transport is Err && transport->Err_0 == TransportError::Handshake,
        },
{
    match built {
        Ok(made) => Ok(made),
        Err(_) => Err(TransportError::Handshake),
    }
}

/// The secure, multiplexed transport of a node: every connection made through
/// it authenticates both sides by their keys, is encrypted, and carries any
/// number of independent streams. Small writes are sent at once.
///
/// An identity with an Ed25519 keypair, as every generated one has, always
/// gets its transport. For another keypair the handshake setup decides, and
/// the one error says that it failed; `transport_or_failure` says what is
/// made of either outcome.
pub fn make_transport(identity: &NodeIdentity) -> (transport: Result<
    libp2p::core::transport::Boxed<(libp2p::PeerId, libp2p::core::muxing::StreamMuxerBox)>,
    TransportError,
>)
    ensures
        is_ed25519(identity.spec_keys()) ==> transport is Ok,
        transport matches Err(error) ==> error == TransportError::Handshake,
{
    transport_or_failure(build_transport(identity.keys(), NO_DELAY))
}

} // verus!
