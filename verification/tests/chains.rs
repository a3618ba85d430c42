use vault_access::{resolve_chain, Blockchain, EthereumChainId, VaultError};

#[test]
fn known_chain_names_resolve() {
    assert_eq!(resolve_chain("eth"), Ok(Blockchain::Ethereum));
    assert_eq!(resolve_chain("ethereum"), Ok(Blockchain::Ethereum));
    assert_eq!(resolve_chain("eth-mainnet"), Ok(Blockchain::Ethereum));
    assert_eq!(resolve_chain("etc"), Ok(Blockchain::EthereumClassic));
    assert_eq!(resolve_chain("etc-mainnet"), Ok(Blockchain::EthereumClassic));
    assert_eq!(resolve_chain("ethereum-classic"), Ok(Blockchain::EthereumClassic));
    assert_eq!(resolve_chain("ethereum classic"), Ok(Blockchain::EthereumClassic));
    assert_eq!(resolve_chain("kovan"), Ok(Blockchain::KovanTestnet));
    assert_eq!(resolve_chain("goerli"), Ok(Blockchain::GoerliTestnet));
    assert_eq!(resolve_chain("holesky"), Ok(Blockchain::HoleskyTestnet));
    assert_eq!(resolve_chain("sepolia"), Ok(Blockchain::SepoliaTestnet));
}

#[test]
fn chain_names_are_matched_without_case() {
    assert_eq!(resolve_chain("ETH"), Ok(Blockchain::Ethereum));
    assert_eq!(resolve_chain("Etc"), Ok(Blockchain::EthereumClassic));
    assert_eq!(resolve_chain("Ethereum Classic"), Ok(Blockchain::EthereumClassic));
    assert_eq!(EthereumChainId::from_name("SEPOLIA"), Some(EthereumChainId::Sepolia));
}

#[test]
fn tokens_are_matched_exactly() {
    assert_eq!(EthereumChainId::from_token("eth"), Some(EthereumChainId::Ethereum));
    assert_eq!(EthereumChainId::from_token("ETH"), None);
    assert_eq!(EthereumChainId::from_token("eth "), None);
    assert_eq!(EthereumChainId::from_token(""), None);
}

#[test]
fn unknown_chain_is_unsupported_not_defaulted() {
    assert_eq!(resolve_chain("doge"), Err(VaultError::UnsupportedChain));
    assert_eq!(resolve_chain(""), Err(VaultError::UnsupportedChain));
    assert_eq!(resolve_chain("bitcoin"), Err(VaultError::UnsupportedChain));
    assert_eq!(resolve_chain(" eth"), Err(VaultError::UnsupportedChain));
}

#[test]
fn custom_chain_has_no_storage_identifier() {
    assert_eq!(
        Blockchain::from_chain(EthereumChainId::Custom(1337)),
        Err(VaultError::UnsupportedChain)
    );
    assert_eq!(Blockchain::from_chain(EthereumChainId::Kovan), Ok(Blockchain::KovanTestnet));
}
