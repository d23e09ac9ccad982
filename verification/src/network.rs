use vstd::prelude::*;
use vstd::string::StringExecFns;

verus! {

/// A Solana cluster the RPC layer can point at.
#[derive(Clone, Copy, Debug, PartialEq, Eq, Structural)]
pub enum Network {
    Testnet,
    Devnet,
    Mainnet,
}

impl Network {
    /// The public RPC endpoint of this cluster.
    pub fn to_host(&self) -> (r: String)
        ensures
            *self is Testnet ==> r@ == "https://api.testnet.solana.com"@,
            *self is Devnet ==> r@ == "https://api.devnet.solana.com"@,
            *self is Mainnet ==> r@ == "https://api.mainnet-beta.solana.com"@,
    {
        match self {
            Network::Testnet => String::from_str("https://api.testnet.solana.com"),
            Network::Devnet => String::from_str("https://api.devnet.solana.com"),
            Network::Mainnet => String::from_str("https://api.mainnet-beta.solana.com"),
        }
    }
}

} // verus!
