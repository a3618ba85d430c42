use vstd::prelude::*;

use crate::error::VaultError;
use crate::text::{lowercase, lowercase_of, reads_as};

verus! {

/// A chain of the Ethereum family, as a request names it.
#[derive(Clone, Copy, Debug, PartialEq, Eq, Structural)]
pub enum EthereumChainId {
    Ethereum,
    EthereumClassic,
    Kovan,
    Goerli,
    Holesky,
    Sepolia,
    /// A chain known only by its numeric id; the vault keeps nothing for it.
    Custom(u64),
}

/// The identifier under which the storage keeps what belongs to one chain.
#[derive(Clone, Copy, Debug, PartialEq, Eq, Hash, Structural)]
pub enum Blockchain {
    Bitcoin,
    BitcoinTestnet,
    Ethereum,
    EthereumClassic,
    KovanTestnet,
    GoerliTestnet,
    HoleskyTestnet,
    SepoliaTestnet,
}

/// The chain that a lowercase token names, if it names one.
pub open spec fn chain_of_token(token: Seq<char>) -> Option<EthereumChainId> {
    if token == "eth"@ || token == "ethereum"@ || token == "eth-mainnet"@ {
        Some(EthereumChainId::Ethereum)
    } else if token == "kovan"@ {
        Some(EthereumChainId::Kovan)
    } else if token == "etc-mainnet"@ || token == "etc"@ || token == "ethereum-classic"@
        || token == "ethereum classic"@ {
        Some(EthereumChainId::EthereumClassic)
    } else if token == "goerli"@ {
        Some(EthereumChainId::Goerli)
    } else if token == "holesky"@ {
        Some(EthereumChainId::Holesky)
    } else if token == "sepolia"@ {
        Some(EthereumChainId::Sepolia)
    } else {
        None
    }
}

/// The storage identifier of a chain; a custom chain has none.
pub open spec fn blockchain_of(chain: EthereumChainId) -> Result<Blockchain, VaultError> {
    match chain {
        EthereumChainId::Ethereum => Ok(Blockchain::Ethereum),
        EthereumChainId::EthereumClassic => Ok(Blockchain::EthereumClassic),
        EthereumChainId::Kovan => Ok(Blockchain::KovanTestnet),
        EthereumChainId::Goerli => Ok(Blockchain::GoerliTestnet),
        EthereumChainId::Holesky => Ok(Blockchain::HoleskyTestnet),
        EthereumChainId::Sepolia => Ok(Blockchain::SepoliaTestnet),
        EthereumChainId::Custom(_) => Err(VaultError::UnsupportedChain),
    }
}

/// What a chain name resolves to: names are matched without regard to case,
/// and a name that matches nothing is an error, never a default chain.
pub open spec fn resolved_chain(name: Seq<char>) -> Result<Blockchain, VaultError> {
    match chain_of_token(lowercase_of(name)) {
        Some(chain) => blockchain_of(chain),
        None => Err(VaultError::UnsupportedChain),
    }
}

impl EthereumChainId {
    /// The chain that `token` names, where `token` is already in lowercase.
    pub fn from_token(token: &str) -> (chain: Option<EthereumChainId>)
        ensures
            chain == chain_of_token(token@),
    {
        if reads_as(token, "eth") || reads_as(token, "ethereum") || reads_as(token, "eth-mainnet") {
            Some(EthereumChainId::Ethereum)
        } else if reads_as(token, "kovan") {
            Some(EthereumChainId::Kovan)
        } else if reads_as(token, "etc-mainnet") || reads_as(token, "etc") || reads_as(
            token,
            "ethereum-classic",
        ) || reads_as(token, "ethereum classic") {
            Some(EthereumChainId::EthereumClassic)
        } else if reads_as(token, "goerli") {
            Some(EthereumChainId::Goerli)
        } else if reads_as(token, "holesky") {
            Some(EthereumChainId::Holesky)
        } else if reads_as(token, "sepolia") {
            Some(EthereumChainId::Sepolia)
        } else {
            None
        }
    }

    /// The chain that `name` names in any mix of upper and lower case.
    pub fn from_name(name: &str) -> (chain: Option<EthereumChainId>)
        ensures
            chain == chain_of_token(lowercase_of(name@)),
    {
        let token = lowercase(name);
        EthereumChainId::from_token(token.as_str())
    }
}

impl Blockchain {
    /// The storage identifier for `chain`.
    pub fn from_chain(chain: EthereumChainId) -> (blockchain: Result<Blockchain, VaultError>)
        ensures
            blockchain == blockchain_of(chain),
    {
        match chain {
            EthereumChainId::Ethereum => Ok(Blockchain::Ethereum),
            EthereumChainId::EthereumClassic => Ok(Blockchain::EthereumClassic),
            EthereumChainId::Kovan => Ok(Blockchain::KovanTestnet),
            EthereumChainId::Goerli => Ok(Blockchain::GoerliTestnet),
            EthereumChainId::Holesky => Ok(Blockchain::HoleskyTestnet),
            EthereumChainId::Sepolia => Ok(Blockchain::SepoliaTestnet),
            EthereumChainId::Custom(_) => Err(VaultError::UnsupportedChain),
        }
    }
}

/// Resolves a chain name to the identifier that chain-scoped storage is
/// kept under. Fails with `UnsupportedChain` for every name that is not a
/// known identifier.
pub fn resolve_chain(name: &str) -> (blockchain: Result<Blockchain, VaultError>)
    ensures
        blockchain == resolved_chain(name@),
{
    match EthereumChainId::from_name(name) {
        Some(chain) => Blockchain::from_chain(chain),
        None => Err(VaultError::UnsupportedChain),
    }
}

} // verus!
