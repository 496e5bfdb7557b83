//! Starting a node: where it listens, and how a failed step is reported.
//! Every step is taken once, in order; a failure aborts the start.

use vstd::prelude::*;

verus! {

/// The steps of starting a node that can fail, in the order they are taken.
#[derive(Clone, Copy, Debug, PartialEq, Eq, Structural)]
pub enum StartupStep {
    /// Building the secure, multiplexed transport.
    Transport,
    /// Binding local-network discovery.
    Discovery,
    /// Putting discovery and the overlay together.
    Coordinator,
    /// Reading the address to listen on.
    ListenAddress,
    /// Binding the transport to that address.
    Listen,
}

impl StartupStep {
    /// What a failure of the step is reported as.
    pub open spec fn description(self) -> Seq<char> {
        match self {
            StartupStep::Transport => "Creating libp2p transport"@,
            StartupStep::Discovery => "Creating mDNS node discovery behaviour"@,
            StartupStep::Coordinator => "Creating node behaviour"@,
            StartupStep::ListenAddress => "Parsing listening address"@,
            StartupStep::Listen => "Starting to listen"@,
        }
    }

    /// What a failure of the step is reported as.
    pub fn describe(self) -> (text: &'static str)
        ensures
            text@ == self.description(),
    {
        match self {
            StartupStep::Transport => "Creating libp2p transport",
            StartupStep::Discovery => "Creating mDNS node discovery behaviour",
            StartupStep::Coordinator => "Creating node behaviour",
            StartupStep::ListenAddress => "Parsing listening address",
            StartupStep::Listen => "Starting to listen",
        }
    }
}

/// The address a node listens on: TCP on every local interface, on a port
/// that the operating system picks.
pub open spec fn listen_address_text() -> Seq<char> {
    "/ip4/0.0.0.0/tcp/0"@
}

/// The address a node listens on.
pub fn listen_address() -> (address: &'static str)
    ensures
        address@ == listen_address_text(),
{
    "/ip4/0.0.0.0/tcp/0"
}

} // verus!
