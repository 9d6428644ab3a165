use crate::error::{SyncError, SyncErrorView};
use vstd::prelude::*;

verus! {

/// The Bitcoin network a wallet lives on.
#[derive(Debug, Clone, Copy, PartialEq, Eq, Structural)]
pub enum Network {
    Bitcoin,
    Testnet,
    Signet,
    Regtest,
}

/// Electrum endpoint used for the main network.
pub const BITCOIN_ENDPOINT: &'static str = "ssl://blockstream.info:700";

/// Electrum endpoint used for the test network.
pub const TESTNET_ENDPOINT: &'static str = "ssl://blockstream.info:993";

/// Whether a blockchain endpoint is known for `network`.
pub open spec fn supported(network: Network) -> bool {
    network == Network::Bitcoin || network == Network::Testnet
}

/// The endpoint of a supported network.
pub open spec fn endpoint_of(network: Network) -> Seq<char> {
    if network == Network::Bitcoin {
        BITCOIN_ENDPOINT@
    } else {
        TESTNET_ENDPOINT@
    }
}

/// Resolves the blockchain endpoint for `network`.
///
/// Only the main and the test network have one; every other network is a
/// configuration error.
pub fn bitcoin_endpoint(network: Network) -> (endpoint: Result<&'static str, SyncError>)
    ensures
        supported(network) ==> (endpoint matches Ok(url) && url@ == endpoint_of(network)),
        !supported(network) ==> (endpoint matches Err(e) && e@ == SyncErrorView::UnsupportedNetwork),
{
    match network {
        Network::Bitcoin => Ok(BITCOIN_ENDPOINT),
        Network::Testnet => Ok(TESTNET_ENDPOINT),
        _ => Err(SyncError::UnsupportedNetwork),
    }
}

} // verus!
