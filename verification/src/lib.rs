//! Access to a local vault of cryptocurrency keys.
//!
//! The vault keeps encrypted private keys, wallets that own addresses on a
//! blockchain, and an address book. This library is the layer between a
//! request and the vault: it resolves the chain of a request, finds the
//! wallet and the key behind an address, decides what the storage is asked
//! to do to import, replace or remove a record, tells a mnemonic seed from
//! a hardware one, and lists the addresses of a seed at a list of HD paths.
//!
//! The library reads no file and talks to no device. Its caller reads the
//! records, hands them over as plain values, and carries out what comes
//! back: a list of `StorageRequest`s, or the next `ListingStep` of an
//! `AddressListing`.
//!
//! Every function is verified against its contract, with these things
//! taken on trust: `str::to_lowercase` of the standard library (in
//! `text`), the HD path parser of the crate `hdpath` (in `hd_path`), and
//! equality, copying and random generation of `uuid::Uuid` (in `wallet`).

pub mod access;
pub mod addressbook;
pub mod chains;
pub mod error;
pub mod hd_path;
pub mod keystore;
pub mod listing;
pub mod search;
pub mod seeds;
pub mod text;
pub mod wallet;

pub use access::{MigrationConfig, StorageRequest, VaultConfig, WrappedVault};
pub use addressbook::{AddressBookmark, AddressRef, BookmarkDetails, NewAddressBookItem};
pub use chains::{resolve_chain, Blockchain, EthereumChainId};
pub use error::{ImportFault, VaultError};
pub use hd_path::{parse_hd_path, HDPath};
pub use keystore::{
    CipherId, CipherParamsJson, CoreCryptoJson, EthereumJsonV3File, KdfJson, KdfParamsJson, PrfJson,
};
pub use listing::{
    is_connected, list_addresses, list_ledger_address, list_mnemonic_address, AdapterState,
    AddressListing, HDPathAddress, ListingEvent, ListingStep,
};
pub use seeds::{
    AddressSource, MnemonicFields, MnemonicSeed, Seed, SeedDefinition, SeedDefinitionValue,
    SeedDescription, SeedReference,
};
pub use wallet::{AccountInfo, Address, AddressType, PrivateKeyHolder, Wallet, WalletAccount};
