//! The types of the lightningd RPC client that the plugin hands to its methods.

use vstd::prelude::*;

verus! {

/// The RPC client of lightningd, carried opaquely.
#[verifier::external_type_specification]
#[verifier::external_body]
pub struct ExLightningRPC(clightningrpc::LightningRPC);

/// The network address of a peer, carried opaquely.
#[verifier::external_type_specification]
#[verifier::external_body]
pub struct ExNetworkAddress(clightningrpc::responses::NetworkAddress);

/// The RPC client that `clightningrpc::LightningRPC::new` builds for the UNIX
/// socket at this path. The constructor only records the path (and no
/// timeout); no connection is made until a request is sent, so the client
/// depends on the path alone.
pub uninterp spec fn rpc_client_for(sockpath: Seq<char>) -> clightningrpc::LightningRPC;

/// Creates the RPC client for the UNIX socket at `sockpath` by calling
/// `clightningrpc::LightningRPC::new`; the result is the client for that path.
#[verifier::external_body]
pub(crate) fn lightning_rpc_new(sockpath: &str) -> (r: clightningrpc::LightningRPC)
    ensures
        r == rpc_client_for(sockpath@),
{
    clightningrpc::LightningRPC::new(sockpath)
}

} // verus!
