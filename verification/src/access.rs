use vstd::prelude::*;

use crate::addressbook::{is_for_chain, points_to, AddressBookmark, NewAddressBookItem};
use crate::chains::{blockchain_of, chain_of_token, Blockchain, EthereumChainId};
use crate::error::{ImportFault, VaultError};
use crate::keystore::{keystore_fault, EthereumJsonV3File};
use crate::search::{
    first_where, lemma_filter_take_step, lemma_first_where_found, lemma_first_where_none,
};
use crate::text::lowercase_of;
use crate::wallet::{
    account_in, account_matches, account_wanted, accounts_of, address_of, fresh_id,
    holder_wanted, key_wanted, listed_wanted, owner_of, same_id, summary_of, wallet_holds,
    wallet_wanted, AccountInfo, Address, PrivateKeyHolder, Wallet, WalletAccount,
};
use uuid::Uuid;

verus! {

/// Which vault a request is about, and on which chain.
#[derive(Clone, Debug, PartialEq, Eq)]
pub struct VaultConfig {
    pub chain: Option<EthereumChainId>,
    pub dir: String,
    pub show_hidden: bool,
}

/// Where a vault that is to be migrated lives on disk.
#[derive(Clone, Debug, PartialEq, Eq)]
pub struct MigrationConfig {
    pub dir: String,
}

/// The chain-scoped view of one vault.
///
/// Nothing is kept between calls: every operation takes the records it
/// needs as the storage holds them at that moment, and hands back what it
/// found or what the storage is to do.
#[derive(Clone, Debug, PartialEq, Eq)]
pub struct WrappedVault {
    pub cfg: VaultConfig,
}

/// One thing that the storage service is asked to do.
///
/// Where an operation asks for several, they are done in the order given,
/// each only after the one before it succeeded. The storage has no way to
/// take them as one: a failure in the middle leaves the earlier ones done.
#[derive(Clone, Debug, PartialEq, Eq)]
pub enum StorageRequest {
    RemoveWallet(Uuid),
    AddWallet(Wallet),
    RemoveKey(Uuid),
    /// Encrypt a raw private key and store it as a new wallet.
    ImportRawKey { key: Vec<u8>, password: String, blockchain: Blockchain },
    /// Store the key of a keystore document as a new wallet.
    ImportKeystore { file: EthereumJsonV3File, blockchain: Blockchain },
    AddBookmark(AddressBookmark),
    RemoveBookmark(Uuid),
}

/// The directory that a request means: its own, or else the default.
pub open spec fn dir_of(dir: Option<String>, default_dir: String) -> String {
    match dir {
        Some(given) => given,
        None => default_dir,
    }
}

/// The configuration that the fields of a request give. A chain name that
/// is given must be a known one.
pub open spec fn config_of(
    dir: Option<String>,
    chain: Option<String>,
    default_dir: String,
) -> Result<VaultConfig, VaultError> {
    match chain {
        Some(name) => match chain_of_token(lowercase_of(name@)) {
            Some(id) => Ok(
                VaultConfig { chain: Some(id), dir: dir_of(dir, default_dir), show_hidden: false },
            ),
            None => Err(VaultError::UnsupportedChain),
        },
        None => Ok(VaultConfig { chain: None, dir: dir_of(dir, default_dir), show_hidden: false }),
    }
}

/// The bookmarks valid for `blockchain`, as a predicate.
pub open spec fn chain_wanted(blockchain: Blockchain) -> spec_fn(AddressBookmark) -> bool {
    |b: AddressBookmark| is_for_chain(b, blockchain)
}

/// The bookmarks valid for `blockchain` that point to `address`, as a
/// predicate.
pub open spec fn bookmark_wanted(address: Address, blockchain: Blockchain) -> spec_fn(
    AddressBookmark,
) -> bool {
    |b: AddressBookmark| is_for_chain(b, blockchain) && points_to(b, address)
}

/// The wallets that were read, without the gaps left by those that could
/// not be.
pub open spec fn loaded_of(loaded: Seq<Option<Wallet>>) -> Seq<Wallet> {
    loaded.filter(|w: Option<Wallet>| w is Some).map_values(|w: Option<Wallet>| w->0)
}

/// What the storage is asked to do to replace a wallet: remove the record
/// it holds under the wallet's identifier, then add the new one.
pub open spec fn update_of(wallet: Wallet) -> Seq<StorageRequest> {
    seq![StorageRequest::RemoveWallet(wallet.id), StorageRequest::AddWallet(wallet)]
}

/// What the storage is asked to do to remove the wallet that owns
/// `address`: remove the wallet record, then the record of its key. A
/// wallet with more or fewer than one account is not removed.
pub open spec fn removal_of(
    wallets: Seq<Wallet>,
    address: Address,
    blockchain: Blockchain,
) -> Result<Seq<StorageRequest>, VaultError> {
    match owner_of(wallets, address, blockchain) {
        Some(w) => if wallets[w].accounts@.len() == 1 {
            Ok(
                seq![
                    StorageRequest::RemoveWallet(wallets[w].id),
                    StorageRequest::RemoveKey(wallets[w].accounts@[0].key),
                ],
            )
        } else {
            Err(VaultError::UnsupportedOperation)
        },
        None => Err(VaultError::NotFound),
    }
}

/// The key record behind `address`: that of the account at `address` in
/// the wallet that owns it.
pub open spec fn private_key_of(
    wallets: Seq<Wallet>,
    keys: Seq<PrivateKeyHolder>,
    address: Address,
    blockchain: Blockchain,
) -> Result<PrivateKeyHolder, VaultError> {
    match owner_of(wallets, address, blockchain) {
        Some(w) => match account_in(wallets[w], address, blockchain) {
            Some(a) => match first_where(keys, key_wanted(wallets[w].accounts@[a].key)) {
                Some(k) => Ok(keys[k]),
                None => Err(VaultError::KeyMissing),
            },
            None => Err(VaultError::NotFound),
        },
        None => Err(VaultError::NotFound),
    }
}

/// The address of the wallet stored under `id`: that of its first account.
pub open spec fn wallet_address_of(wallets: Seq<Wallet>, id: Uuid) -> Result<Address, VaultError> {
    match first_where(wallets, wallet_wanted(id)) {
        Some(w) => if wallets[w].accounts@.len() == 0 {
            Err(VaultError::NotFound)
        } else {
            match address_of(wallets[w].accounts@[0]) {
                Some(address) => Ok(address),
                None => Err(VaultError::NotFound),
            }
        },
        None => Err(VaultError::NotFound),
    }
}

impl VaultConfig {
    /// The configuration of a request from its fields: the vault directory,
    /// or `default_dir` where none is given, and the chain, where one is
    /// given. Fails with `UnsupportedChain` for an unknown chain name.
    pub fn get_config(dir: Option<String>, chain: Option<String>, default_dir: String) -> (cfg:
        Result<VaultConfig, VaultError>)
        ensures
            cfg == config_of(dir, chain, default_dir),
    {
        let dir = match dir {
            Some(given) => given,
            None => default_dir,
        };
        match chain {
            Some(name) => match EthereumChainId::from_name(name.as_str()) {
                Some(id) => Ok(VaultConfig { chain: Some(id), dir, show_hidden: false }),
                None => Err(VaultError::UnsupportedChain),
            },
            None => Ok(VaultConfig { chain: None, dir, show_hidden: false }),
        }
    }
}

impl MigrationConfig {
    /// The configuration of a migration from the fields of its request.
    pub fn get_config(dir: Option<String>, default_dir: String) -> (cfg: MigrationConfig)
        ensures
            cfg.dir == dir_of(dir, default_dir),
    {
        let dir = match dir {
            Some(given) => given,
            None => default_dir,
        };
        MigrationConfig { dir }
    }
}

impl WrappedVault {
    /// The blockchain that this vault's operations are scoped to. There is
    /// none where the configuration names no chain, or a custom one.
    pub open spec fn blockchain(&self) -> Result<Blockchain, VaultError> {
        match self.cfg.chain {
            Some(chain) => blockchain_of(chain),
            None => Err(VaultError::UnsupportedChain),
        }
    }

    /// The view of the vault that `cfg` names.
    pub fn new(cfg: VaultConfig) -> (vault: WrappedVault)
        ensures
            vault.cfg == cfg,
    {
        WrappedVault { cfg }
    }

    /// The account of `w` at `addr` on `blockchain`.
    pub fn find_account<'a>(w: &'a Wallet, addr: &Address, blockchain: Blockchain) -> (account:
        Option<&'a WalletAccount>)
        ensures
            match account_in(*w, *addr, blockchain) {
                Some(i) => account == Some(&w.accounts@[i]),
                None => account is None,
            },
            account is Some <==> wallet_holds(*w, *addr, blockchain),
    {
        let ghost wanted = account_wanted(*addr, blockchain);
        let mut i: usize = 0;
        while i < w.accounts.len()
            invariant
                i <= w.accounts.len(),
                wanted == account_wanted(*addr, blockchain),
                forall|j: int| 0 <= j < i ==> !wanted(#[trigger] w.accounts@[j]),
            decreases w.accounts.len() - i,
        {
            if w.accounts[i].matches(addr, blockchain) {
                proof {
                    lemma_first_where_found(w.accounts@, wanted, i as int);
                }
                return Some(&w.accounts[i]);
            }
            i += 1;
        }
        proof {
            lemma_first_where_none(w.accounts@, wanted);
        }
        None
    }

    /// The blockchain that this vault's operations are scoped to. Fails
    /// with `UnsupportedChain` where there is none.
    pub fn get_blockchain(&self) -> (blockchain: Result<Blockchain, VaultError>)
        ensures
            blockchain == self.blockchain(),
    {
        match self.cfg.chain {
            Some(chain) => Blockchain::from_chain(chain),
            None => Err(VaultError::UnsupportedChain),
        }
    }

    /// The wallets of the vault, from what came of reading each: a wallet
    /// that could not be read is passed over.
    pub fn load_wallets(&self, loaded: Vec<Option<Wallet>>) -> (wallets: Vec<Wallet>)
        ensures
            wallets@ == loaded_of(loaded@),
    {
        let ghost read = |w: Option<Wallet>| w is Some;
        let ghost all = loaded@;
        let mut wallets: Vec<Wallet> = Vec::new();
        let mut loaded = loaded;
        let mut i: usize = 0;
        assert(all.take(0).filter(read) =~= Seq::<Option<Wallet>>::empty()) by {
            reveal(Seq::filter);
        }
        while i < loaded.len()
            invariant
                i <= loaded.len(),
                loaded@.len() == all.len(),
                forall|j: int| i <= j < all.len() ==> loaded@[j] == all[j],
                read == (|w: Option<Wallet>| w is Some),
                wallets@ == all.take(i as int).filter(read).map_values(|w: Option<Wallet>| w->0),
            decreases loaded.len() - i,
        {
            let ghost before = all.take(i as int).filter(read);
            proof {
                lemma_filter_take_step(all, read, i as int);
            }
            let mut slot: Option<Wallet> = None;
            std::mem::swap(&mut slot, &mut loaded[i]);
            match slot {
                Some(wallet) => {
                    wallets.push(wallet);
                    assert(before.push(all[i as int]).map_values(|w: Option<Wallet>| w->0)
                        =~= before.map_values(|w: Option<Wallet>| w->0).push(wallet));
                },
                None => {},
            }
            i += 1;
        }
        assert(all.take(i as int) =~= all);
        wallets
    }

    /// The accounts of this vault's chain: a summary of each wallet that
    /// has one account, and that one on the chain.
    pub fn list_accounts(&self, wallets: &Vec<Wallet>) -> (accounts: Result<
        Vec<AccountInfo>,
        VaultError,
    >)
        ensures
            match self.blockchain() {
                Ok(blockchain) => accounts matches Ok(list) && list@ == accounts_of(
                    wallets@,
                    blockchain,
                ),
                Err(e) => accounts matches Err(f) && f == e,
            },
    {
        let blockchain = match self.get_blockchain() {
            Ok(blockchain) => blockchain,
            Err(e) => {
                return Err(e);
            },
        };
        let ghost listed = listed_wanted(blockchain);
        let mut list: Vec<AccountInfo> = Vec::new();
        let mut i: usize = 0;
        assert(wallets@.take(0).filter(listed) =~= Seq::<Wallet>::empty()) by {
            reveal(Seq::filter);
        }
        while i < wallets.len()
            invariant
                i <= wallets.len(),
                listed == listed_wanted(blockchain),
                list@ == wallets@.take(i as int).filter(listed).map_values(
                    |w: Wallet| summary_of(w),
                ),
            decreases wallets.len() - i,
        {
            let ghost before = wallets@.take(i as int).filter(listed);
            proof {
                lemma_filter_take_step(wallets@, listed, i as int);
            }
            let wallet = &wallets[i];
            if wallet.accounts.len() == 1 && wallet.accounts[0].blockchain == blockchain {
                let label = match &wallet.label {
                    Some(text) => Some(text.clone()),
                    None => None,
                };
                let info = AccountInfo {
                    address: wallet.accounts[0].get_address(),
                    blockchain: wallet.accounts[0].blockchain,
                    label,
                };
                list.push(info);
                assert(before.push(wallets@[i as int]).map_values(|w: Wallet| summary_of(w))
                    =~= before.map_values(|w: Wallet| summary_of(w)).push(info));
            }
            i += 1;
        }
        assert(wallets@.take(i as int) =~= wallets@);
        Ok(list)
    }

    /// The wallet that owns `addr` on this vault's chain: the first with an
    /// account at that address on that chain, if there is one. An account
    /// at the same address on another chain does not count.
    pub fn get_wallet_by_addr<'a>(&self, wallets: &'a Vec<Wallet>, addr: &Address) -> (wallet:
        Result<Option<&'a Wallet>, VaultError>)
        ensures
            match self.blockchain() {
                Ok(blockchain) => match owner_of(wallets@, *addr, blockchain) {
                    Some(i) => wallet == Ok::<Option<&Wallet>, VaultError>(Some(&wallets@[i])),
                    None => wallet == Ok::<Option<&Wallet>, VaultError>(None),
                },
                Err(e) => wallet == Err::<Option<&Wallet>, VaultError>(e),
            },
    {
        let blockchain = match self.get_blockchain() {
            Ok(blockchain) => blockchain,
            Err(e) => {
                return Err(e);
            },
        };
        let ghost wanted = holder_wanted(*addr, blockchain);
        let mut i: usize = 0;
        while i < wallets.len()
            invariant
                i <= wallets.len(),
                self.blockchain() == Ok::<Blockchain, VaultError>(blockchain),
                wanted == holder_wanted(*addr, blockchain),
                forall|j: int| 0 <= j < i ==> !wanted(#[trigger] wallets@[j]),
            decreases wallets.len() - i,
        {
            if WrappedVault::find_account(&wallets[i], addr, blockchain).is_some() {
                proof {
                    assert(wanted(wallets@[i as int]));
                    lemma_first_where_found(wallets@, wanted, i as int);
                }
                return Ok(Some(&wallets[i]));
            }
            i += 1;
        }
        proof {
            lemma_first_where_none(wallets@, wanted);
        }
        Ok(None)
    }

    /// What the storage is asked to do to replace the record of `wallet`.
    ///
    /// The storage has no way to replace a record in place, so the old one
    /// is removed and the new one added. Between the two the wallet is
    /// absent, and if the second fails it stays so: two callers that update
    /// one wallet at a time can leave it doubled or gone.
    pub fn update(&self, wallet: Wallet) -> (requests: Vec<StorageRequest>)
        ensures
            requests@ == update_of(wallet),
    {
        let mut requests: Vec<StorageRequest> = Vec::new();
        requests.push(StorageRequest::RemoveWallet(wallet.id));
        requests.push(StorageRequest::AddWallet(wallet));
        assert(requests@ =~= update_of(wallet));
        requests
    }

    /// The key record behind `addr` on this vault's chain, among the
    /// records `keys` that the storage holds. Fails with `NotFound` where
    /// no wallet owns the address, and with `KeyMissing` where the wallet
    /// points to a key that the storage does not hold.
    pub fn get<'a>(
        &self,
        wallets: &Vec<Wallet>,
        keys: &'a Vec<PrivateKeyHolder>,
        addr: &Address,
    ) -> (key: Result<&'a PrivateKeyHolder, VaultError>)
        ensures
            match self.blockchain() {
                Ok(blockchain) => match private_key_of(wallets@, keys@, *addr, blockchain) {
                    Ok(found) => key matches Ok(k) && *k == found,
                    Err(e) => key matches Err(f) && f == e,
                },
                Err(e) => key matches Err(f) && f == e,
            },
    {
        let blockchain = match self.get_blockchain() {
            Ok(blockchain) => blockchain,
            Err(e) => {
                return Err(e);
            },
        };
        let wallet = match self.get_wallet_by_addr(wallets, addr) {
            Ok(Some(wallet)) => wallet,
            Ok(None) => {
                return Err(VaultError::NotFound);
            },
            Err(e) => {
                return Err(e);
            },
        };
        let account = match WrappedVault::find_account(wallet, addr, blockchain) {
            Some(account) => account,
            None => {
                return Err(VaultError::NotFound);
            },
        };
        match WrappedVault::find_key(keys, account.key) {
            Some(key) => Ok(key),
            None => Err(VaultError::KeyMissing),
        }
    }

    /// The key record that the storage holds under `id`, if it holds one.
    pub fn find_key<'a>(keys: &'a Vec<PrivateKeyHolder>, id: Uuid) -> (key: Option<
        &'a PrivateKeyHolder,
    >)
        ensures
            match first_where(keys@, key_wanted(id)) {
                Some(k) => key == Some(&keys@[k]),
                None => key is None,
            },
    {
        let ghost wanted = key_wanted(id);
        let mut i: usize = 0;
        while i < keys.len()
            invariant
                i <= keys.len(),
                wanted == key_wanted(id),
                forall|j: int| 0 <= j < i ==> !wanted(#[trigger] keys@[j]),
            decreases keys.len() - i,
        {
            if same_id(&keys[i].id, &id) {
                proof {
                    assert(wanted(keys@[i as int]));
                    lemma_first_where_found(keys@, wanted, i as int);
                }
                return Some(&keys[i]);
            }
            i += 1;
        }
        proof {
            lemma_first_where_none(keys@, wanted);
        }
        None
    }

    /// The address of the wallet stored under `id`: that of its first
    /// account. Fails with `NotFound` where there is no such wallet, or it
    /// has no account or no known address.
    pub fn get_wallet_address(&self, wallets: &Vec<Wallet>, id: Uuid) -> (address: Result<
        Address,
        VaultError,
    >)
        ensures
            address == wallet_address_of(wallets@, id),
    {
        let ghost wanted = wallet_wanted(id);
        let mut i: usize = 0;
        while i < wallets.len()
            invariant
                i <= wallets.len(),
                wanted == wallet_wanted(id),
                forall|j: int| 0 <= j < i ==> !wanted(#[trigger] wallets@[j]),
            decreases wallets.len() - i,
        {
            if same_id(&wallets[i].id, &id) {
                proof {
                    lemma_first_where_found(wallets@, wanted, i as int);
                }
                if wallets[i].accounts.len() == 0 {
                    return Err(VaultError::NotFound);
                }
                return match wallets[i].accounts[0].get_address() {
                    Some(address) => Ok(address),
                    None => Err(VaultError::NotFound),
                };
            }
            i += 1;
        }
        proof {
            lemma_first_where_none(wallets@, wanted);
        }
        Err(VaultError::NotFound)
    }

    /// What the storage is asked to do to remove the wallet that owns
    /// `addr` on this vault's chain, together with its key.
    ///
    /// Fails with `NotFound` where no wallet owns the address, and with
    /// `UnsupportedOperation` where the wallet does not have exactly one
    /// account: the storage is then asked for nothing. If the key cannot be
    /// removed after the wallet was, the key record stays behind with
    /// nothing pointing to it.
    pub fn remove(&self, wallets: &Vec<Wallet>, addr: &Address) -> (requests: Result<
        Vec<StorageRequest>,
        VaultError,
    >)
        ensures
            match self.blockchain() {
                Ok(blockchain) => match removal_of(wallets@, *addr, blockchain) {
                    Ok(plan) => requests matches Ok(list) && list@ == plan,
                    Err(e) => requests matches Err(f) && f == e,
                },
                Err(e) => requests matches Err(f) && f == e,
            },
    {
        let wallet = match self.get_wallet_by_addr(wallets, addr) {
            Ok(Some(wallet)) => wallet,
            Ok(None) => {
                return Err(VaultError::NotFound);
            },
            Err(e) => {
                return Err(e);
            },
        };
        if wallet.accounts.len() != 1 {
            return Err(VaultError::UnsupportedOperation);
        }
        let mut requests: Vec<StorageRequest> = Vec::new();
        requests.push(StorageRequest::RemoveWallet(wallet.id));
        requests.push(StorageRequest::RemoveKey(wallet.accounts[0].key));
        assert(requests@ =~= seq![
            StorageRequest::RemoveWallet(wallet.id),
            StorageRequest::RemoveKey(wallet.accounts@[0].key),
        ]);
        Ok(requests)
    }
    /// What the storage is asked to do to take in a raw private key for
    /// this vault's chain, encrypted under `password`. The label is not
    /// stored. Whether the key is a usable one is for the storage to say:
    /// see `imported`.
    pub fn import_pk(&self, pk: Vec<u8>, password: &str, label: Option<String>) -> (request:
        Result<StorageRequest, VaultError>)
        ensures
            match self.blockchain() {
                Ok(chain) => request matches Ok(
                    StorageRequest::ImportRawKey { key, password: secret, blockchain },
                ) && key@ == pk@ && secret@ == password@ && blockchain == chain,
                Err(e) => request matches Err(f) && f == e,
            },
    {
        match self.get_blockchain() {
            Ok(blockchain) => Ok(
                StorageRequest::ImportRawKey { key: pk, password: password.to_owned(), blockchain },
            ),
            Err(e) => Err(e),
        }
    }

    /// What the storage is asked to do to take in the key of a keystore
    /// document for this vault's chain. The document is checked first, and
    /// one that is not consistent in itself fails with `ImportError` and
    /// never reaches the storage.
    pub fn put(&self, pk: EthereumJsonV3File) -> (request: Result<StorageRequest, VaultError>)
        ensures
            match self.blockchain() {
                Ok(chain) => match keystore_fault(pk) {
                    Some(fault) => request matches Err(f) && f == VaultError::ImportError(fault),
                    None => request matches Ok(StorageRequest::ImportKeystore { file, blockchain })
                        && file == pk && blockchain == chain,
                },
                Err(e) => request matches Err(f) && f == e,
            },
    {
        let blockchain = match self.get_blockchain() {
            Ok(blockchain) => blockchain,
            Err(e) => {
                return Err(e);
            },
        };
        match pk.check() {
            Some(fault) => Err(VaultError::ImportError(fault)),
            None => Ok(StorageRequest::ImportKeystore { file: pk, blockchain }),
        }
    }

    /// The outcome of an import, from what the storage answered: the
    /// identifier of the new wallet, or `ImportError` where the storage
    /// refused the material.
    pub fn imported(reply: Option<Uuid>) -> (id: Result<Uuid, VaultError>)
        ensures
            id == match reply {
                Some(minted) => Ok::<Uuid, VaultError>(minted),
                None => Err::<Uuid, VaultError>(VaultError::ImportError(ImportFault::Rejected)),
            },
    {
        match reply {
            Some(minted) => Ok(minted),
            None => Err(VaultError::ImportError(ImportFault::Rejected)),
        }
    }

    /// The bookmarks that are valid for this vault's chain, in their
    /// stored order.
    pub fn list_addressbook<'a>(&self, all: &'a Vec<AddressBookmark>) -> (bookmarks: Result<
        Vec<&'a AddressBookmark>,
        VaultError,
    >)
        ensures
            match self.blockchain() {
                Ok(chain) => bookmarks matches Ok(list) && list@.map_values(
                    |b: &AddressBookmark| *b,
                ) == all@.filter(chain_wanted(chain)),
                Err(e) => bookmarks matches Err(f) && f == e,
            },
    {
        let blockchain = match self.get_blockchain() {
            Ok(blockchain) => blockchain,
            Err(e) => {
                return Err(e);
            },
        };
        let ghost wanted = chain_wanted(blockchain);
        let mut list: Vec<&'a AddressBookmark> = Vec::new();
        let mut i: usize = 0;
        assert(all@.take(0).filter(wanted) =~= Seq::<AddressBookmark>::empty()) by {
            reveal(Seq::filter);
        }
        assert(list@.map_values(|b: &AddressBookmark| *b) =~= Seq::<AddressBookmark>::empty());
        while i < all.len()
            invariant
                i <= all.len(),
                wanted == chain_wanted(blockchain),
                list@.map_values(|b: &AddressBookmark| *b) == all@.take(i as int).filter(wanted),
            decreases all.len() - i,
        {
            let ghost before = list@;
            proof {
                lemma_filter_take_step(all@, wanted, i as int);
            }
            if all[i].is_for(blockchain) {
                list.push(&all[i]);
                assert(list@.map_values(|b: &AddressBookmark| *b) =~= before.map_values(
                    |b: &AddressBookmark| *b,
                ).push(all@[i as int]));
            }
            i += 1;
        }
        assert(all@.take(i as int) =~= all@);
        Ok(list)
    }

    /// What the storage is asked to do to add `item` to the address book,
    /// as a bookmark for this vault's chain under a new identifier.
    pub fn add_to_addressbook(&self, item: NewAddressBookItem) -> (request: Result<
        StorageRequest,
        VaultError,
    >)
        ensures
            match self.blockchain() {
                Ok(chain) => request matches Ok(StorageRequest::AddBookmark(bookmark))
                    && bookmark.details.blockchains@ == seq![chain] && bookmark.details.label
                    == item.name && bookmark.details.description == item.description && points_to(
                    bookmark,
                    item.address,
                ),
                Err(e) => request matches Err(f) && f == e,
            },
    {
        match self.get_blockchain() {
            Ok(blockchain) => Ok(
                StorageRequest::AddBookmark(item.into_bookmark(fresh_id(), blockchain)),
            ),
            Err(e) => Err(e),
        }
    }

    /// What the storage is asked to do to remove the bookmark at `address`
    /// from the address book of this vault's chain: to remove the first
    /// bookmark that is valid for the chain and points to the address.
    /// Where there is none, the storage is asked for nothing.
    pub fn remove_addressbook_by_addr(
        &self,
        all: &Vec<AddressBookmark>,
        address: &Address,
    ) -> (request: Result<Option<StorageRequest>, VaultError>)
        ensures
            match self.blockchain() {
                Ok(chain) => match first_where(all@, bookmark_wanted(*address, chain)) {
                    Some(i) => request == Ok::<Option<StorageRequest>, VaultError>(
                        Some(StorageRequest::RemoveBookmark(all@[i].id)),
                    ),
                    None => request == Ok::<Option<StorageRequest>, VaultError>(None),
                },
                Err(e) => request == Err::<Option<StorageRequest>, VaultError>(e),
            },
    {
        let blockchain = match self.get_blockchain() {
            Ok(blockchain) => blockchain,
            Err(e) => {
                return Err(e);
            },
        };
        let ghost wanted = bookmark_wanted(*address, blockchain);
        let mut i: usize = 0;
        while i < all.len()
            invariant
                i <= all.len(),
                self.blockchain() == Ok::<Blockchain, VaultError>(blockchain),
                wanted == bookmark_wanted(*address, blockchain),
                forall|j: int| 0 <= j < i ==> !wanted(#[trigger] all@[j]),
            decreases all.len() - i,
        {
            if all[i].is_for(blockchain) && all[i].is_at(address) {
                proof {
                    assert(wanted(all@[i as int]));
                    lemma_first_where_found(all@, wanted, i as int);
                }
                return Ok(Some(StorageRequest::RemoveBookmark(all[i].id)));
            }
            i += 1;
        }
        proof {
            lemma_first_where_none(all@, wanted);
        }
        Ok(None)
    }

    /// Whether a bookmark was removed, from what the storage answered to
    /// the request, if it answered. A failure of the storage counts as
    /// nothing removed.
    pub fn bookmark_removed(reply: Option<bool>) -> (removed: bool)
        ensures
            removed == (reply == Some(true)),
    {
        match reply {
            Some(removed) => removed,
            None => false,
        }
    }
}

/// An address is not found through an account on another chain: where
/// every account at `address` is on a blockchain other than `blockchain`,
/// no wallet owns `address` on `blockchain`.
pub proof fn lemma_other_chain_is_not_found(
    wallets: Seq<Wallet>,
    address: Address,
    blockchain: Blockchain,
)
    requires
        forall|w: int, a: int|
            0 <= w < wallets.len() && 0 <= a < wallets[w].accounts@.len() && address_of(
                #[trigger] wallets[w].accounts@[a],
            ) == Some(address) ==> wallets[w].accounts@[a].blockchain != blockchain,
    ensures
        owner_of(wallets, address, blockchain) is None,
{
    lemma_first_where_none(wallets, holder_wanted(address, blockchain));
}

/// A wallet with two accounts or more is not removed: the removal fails
/// with `UnsupportedOperation`, and the storage is asked for nothing.
pub proof fn lemma_multi_account_wallet_is_kept(
    wallets: Seq<Wallet>,
    address: Address,
    blockchain: Blockchain,
)
    requires
        owner_of(wallets, address, blockchain) matches Some(w) && wallets[w].accounts@.len() >= 2,
    ensures
        removal_of(wallets, address, blockchain) == Err::<Seq<StorageRequest>, VaultError>(
            VaultError::UnsupportedOperation,
        ),
{
}

/// Every account that is listed for a blockchain is on that blockchain.
pub proof fn lemma_listed_accounts_are_on_chain(wallets: Seq<Wallet>, blockchain: Blockchain)
    ensures
        forall|i: int|
            0 <= i < accounts_of(wallets, blockchain).len() ==> (#[trigger] accounts_of(
                wallets,
                blockchain,
            )[i]).blockchain == blockchain,
{
    let listed = wallets.filter(listed_wanted(blockchain));
    assert forall|i: int| 0 <= i < accounts_of(wallets, blockchain).len() implies (
    #[trigger] accounts_of(wallets, blockchain)[i]).blockchain == blockchain by {
        wallets.lemma_filter_pred(listed_wanted(blockchain), i);
        assert(listed_wanted(blockchain)(listed[i]));
    }
}

/// A key that was taken in is the key that is found again.
///
/// Once the storage holds a new wallet with one account at `address` on
/// `blockchain`, and the record `key` that the account points to, the key
/// record behind `address` is `key`. This holds where `address` had no
/// owner on `blockchain` before and no record was stored under the
/// identifier of `key`: an earlier owner, or an earlier record, would be
/// found first.
pub proof fn lemma_imported_key_is_found(
    wallets: Seq<Wallet>,
    keys: Seq<PrivateKeyHolder>,
    wallet: Wallet,
    key: PrivateKeyHolder,
    address: Address,
    blockchain: Blockchain,
)
    requires
        wallet.accounts@.len() == 1,
        account_matches(wallet.accounts@[0], address, blockchain),
        wallet.accounts@[0].key == key.id,
        owner_of(wallets, address, blockchain) is None,
        first_where(keys, key_wanted(key.id)) is None,
    ensures
        private_key_of(wallets.push(wallet), keys.push(key), address, blockchain) == Ok::<
            PrivateKeyHolder,
            VaultError,
        >(key),
{
    let holder = holder_wanted(address, blockchain);
    let stored = wallets.push(wallet);
    lemma_first_where_none(wallets, holder);
    assert(holder(stored[wallets.len() as int]));
    assert forall|j: int| 0 <= j < wallets.len() implies !holder(#[trigger] stored[j]) by {
        assert(stored[j] == wallets[j]);
    }
    lemma_first_where_found(stored, holder, wallets.len() as int);

    let account = account_wanted(address, blockchain);
    assert(account(wallet.accounts@[0]));
    lemma_first_where_found(wallet.accounts@, account, 0);

    let record = key_wanted(key.id);
    let held = keys.push(key);
    lemma_first_where_none(keys, record);
    assert(record(held[keys.len() as int]));
    assert forall|j: int| 0 <= j < keys.len() implies !record(#[trigger] held[j]) by {
        assert(held[j] == keys[j]);
    }
    lemma_first_where_found(held, record, keys.len() as int);
}

} // verus!
