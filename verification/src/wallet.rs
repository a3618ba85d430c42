use vstd::prelude::*;

use crate::chains::Blockchain;
use crate::search::first_where;
use uuid::Uuid;

verus! {

/// `uuid::Uuid`, the identifier of every stored record. The library never
/// looks inside one: it hands identifiers on and compares them.
#[verifier::external_type_specification]
#[verifier::external_body]
pub struct ExUuid(uuid::Uuid);

/// `Clone` of `uuid::Uuid`, a `Copy` type. Trusted: the clone is the same
/// identifier.
pub assume_specification[ <uuid::Uuid as Clone>::clone ](id: &Uuid) -> (copy: Uuid)
    ensures
        copy == *id,
;

/// Calls `==` of `uuid::Uuid`. Trusted: two identifiers compare equal
/// exactly when they are the same identifier.
#[verifier::external_body]
pub(crate) fn same_id(left: &Uuid, right: &Uuid) -> (same: bool)
    ensures
        same == (*left == *right),
{
    left == right
}

/// Calls `uuid::Uuid::new_v4`. Nothing is claimed of the identifier: it is
/// drawn at random. The call panics where the operating system has no
/// random bytes to give.
#[verifier::external_body]
pub(crate) fn fresh_id() -> Uuid {
    Uuid::new_v4()
}

/// An Ethereum-style account address of 20 bytes.
#[derive(Clone, Copy, Debug, PartialEq, Eq, Hash)]
pub struct Address(pub [u8; 20]);

impl View for Address {
    type V = Seq<u8>;

    open spec fn view(&self) -> Seq<u8> {
        self.0@
    }
}

impl Address {
    /// Whether two addresses hold the same 20 bytes.
    pub fn is(&self, other: &Address) -> (same: bool)
        ensures
            same == (*self == *other),
            same == (self@ == other@),
    {
        let mut i: usize = 0;
        while i < 20
            invariant
                i <= 20,
                forall|j: int| 0 <= j < i ==> self.0[j] == other.0[j],
            decreases 20 - i,
        {
            if self.0[i] != other.0[i] {
                return false;
            }
            i += 1;
        }
        assert(self.0 =~= other.0);
        true
    }
}

/// The family of addresses an account belongs to, with the address itself
/// where it is known.
#[derive(Clone, Copy, Debug, PartialEq, Eq)]
pub enum AddressType {
    Ethereum(Option<Address>),
}

/// One account of a wallet: an address on one blockchain, backed by a
/// private key record that the storage holds under `key`.
#[derive(Clone, Copy, Debug, PartialEq, Eq)]
pub struct WalletAccount {
    pub address: AddressType,
    pub blockchain: Blockchain,
    pub key: Uuid,
}

/// A wallet: the accounts that belong together, in their stored order.
#[derive(Clone, Debug, PartialEq, Eq)]
pub struct Wallet {
    pub id: Uuid,
    pub label: Option<String>,
    pub accounts: Vec<WalletAccount>,
}

/// Encrypted key material as the storage keeps it. The bytes are opaque to
/// this layer.
#[derive(Clone, Debug, PartialEq, Eq)]
pub struct PrivateKeyHolder {
    pub id: Uuid,
    pub encrypted: Vec<u8>,
}

/// The summary of a single-account wallet.
#[derive(Clone, Debug, PartialEq, Eq)]
pub struct AccountInfo {
    pub address: Option<Address>,
    pub blockchain: Blockchain,
    pub label: Option<String>,
}

/// The address of an account, where it is known.
pub open spec fn address_of(account: WalletAccount) -> Option<Address> {
    match account.address {
        AddressType::Ethereum(address) => address,
    }
}

/// Whether an account is the one at `address` on `blockchain`. An address
/// on another blockchain is another account.
pub open spec fn account_matches(
    account: WalletAccount,
    address: Address,
    blockchain: Blockchain,
) -> bool {
    address_of(account) == Some(address) && account.blockchain == blockchain
}

/// Whether a wallet has an account at `address` on `blockchain`.
pub open spec fn wallet_holds(wallet: Wallet, address: Address, blockchain: Blockchain) -> bool {
    exists|i: int|
        0 <= i < wallet.accounts@.len() && account_matches(
            #[trigger] wallet.accounts@[i],
            address,
            blockchain,
        )
}

/// The accounts at `address` on `blockchain`, as a predicate.
pub open spec fn account_wanted(address: Address, blockchain: Blockchain) -> spec_fn(
    WalletAccount,
) -> bool {
    |a: WalletAccount| account_matches(a, address, blockchain)
}

/// The wallets with an account at `address` on `blockchain`, as a
/// predicate.
pub open spec fn holder_wanted(address: Address, blockchain: Blockchain) -> spec_fn(
    Wallet,
) -> bool {
    |w: Wallet| wallet_holds(w, address, blockchain)
}

/// The wallets stored under `id`, as a predicate.
pub open spec fn wallet_wanted(id: Uuid) -> spec_fn(Wallet) -> bool {
    |w: Wallet| w.id == id
}

/// The key records stored under `id`, as a predicate.
pub open spec fn key_wanted(id: Uuid) -> spec_fn(PrivateKeyHolder) -> bool {
    |k: PrivateKeyHolder| k.id == id
}

/// The position of the wallet that owns `address` on `blockchain`: the
/// first one that has such an account.
pub open spec fn owner_of(wallets: Seq<Wallet>, address: Address, blockchain: Blockchain) -> Option<
    int,
> {
    first_where(wallets, holder_wanted(address, blockchain))
}

/// The position in a wallet of its account at `address` on `blockchain`.
pub open spec fn account_in(wallet: Wallet, address: Address, blockchain: Blockchain) -> Option<
    int,
> {
    first_where(wallet.accounts@, account_wanted(address, blockchain))
}

/// Whether a wallet is shown in the list of accounts of `blockchain`: it
/// has one account, and that account is on `blockchain`. A wallet with
/// more accounts is left out whole rather than shown in part.
pub open spec fn is_listed(wallet: Wallet, blockchain: Blockchain) -> bool {
    wallet.accounts@.len() == 1 && wallet.accounts@[0].blockchain == blockchain
}

/// The wallets shown in the list of accounts of `blockchain`, as a
/// predicate.
pub open spec fn listed_wanted(blockchain: Blockchain) -> spec_fn(Wallet) -> bool {
    |w: Wallet| is_listed(w, blockchain)
}

/// The summary of a wallet by its first account.
pub open spec fn summary_of(wallet: Wallet) -> AccountInfo {
    AccountInfo {
        address: address_of(wallet.accounts@[0]),
        blockchain: wallet.accounts@[0].blockchain,
        label: wallet.label,
    }
}

/// The summaries of the wallets of `blockchain`, in their stored order.
pub open spec fn accounts_of(wallets: Seq<Wallet>, blockchain: Blockchain) -> Seq<AccountInfo> {
    wallets.filter(listed_wanted(blockchain)).map_values(|w: Wallet| summary_of(w))
}

impl WalletAccount {
    /// The address of this account, where it is known.
    pub fn get_address(&self) -> (address: Option<Address>)
        ensures
            address == address_of(*self),
    {
        match self.address {
            AddressType::Ethereum(address) => address,
        }
    }

    /// Whether this is the account at `address` on `blockchain`.
    pub fn matches(&self, address: &Address, blockchain: Blockchain) -> (found: bool)
        ensures
            found == account_matches(*self, *address, blockchain),
    {
        let at_address = match self.get_address() {
            Some(own) => own.is(address),
            None => false,
        };
        at_address && self.blockchain == blockchain
    }
}

} // verus!
