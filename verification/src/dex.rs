use vstd::prelude::*;

verus! {

/// Parameters needed to operate with the exchange network.
#[derive(Debug, Clone, PartialEq, Eq)]
pub struct ConnectionParams {
    /// The connection to the exchange used to transfer in/out, swap and hold assets.
    pub connection_id: String,
    /// The channel used to transfer assets in and out.
    /// It must be established over the same connection.
    pub transfer_channel: Ics20Channel,
}

/// Transfer-channel parameters.
#[derive(Debug, Clone, PartialEq, Eq)]
pub struct Ics20Channel {
    /// The id of the local endpoint.
    pub local_endpoint: String,
    /// The id of the remote endpoint.
    pub remote_endpoint: String,
}

} // verus!
