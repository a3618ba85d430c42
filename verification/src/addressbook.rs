use vstd::prelude::*;

use crate::chains::Blockchain;
use crate::wallet::Address;
use uuid::Uuid;

verus! {

/// The address that a bookmark points to.
#[derive(Clone, Copy, Debug, PartialEq, Eq, Hash)]
pub enum AddressRef {
    EthereumAddress(Address),
}

/// What a bookmark says: an address, the blockchains it is valid for, and
/// how the user describes it.
#[derive(Clone, Debug, PartialEq, Eq)]
pub struct BookmarkDetails {
    pub blockchains: Vec<Blockchain>,
    pub label: Option<String>,
    pub description: Option<String>,
    pub address: AddressRef,
}

/// An entry of the address book.
#[derive(Clone, Debug, PartialEq, Eq)]
pub struct AddressBookmark {
    pub id: Uuid,
    pub details: BookmarkDetails,
}

/// An entry that the user asks to add to the address book.
#[derive(Clone, Debug, PartialEq, Eq)]
pub struct NewAddressBookItem {
    pub name: Option<String>,
    pub description: Option<String>,
    pub address: Address,
}

/// Whether a bookmark is valid for `blockchain`.
pub open spec fn is_for_chain(bookmark: AddressBookmark, blockchain: Blockchain) -> bool {
    bookmark.details.blockchains@.contains(blockchain)
}

/// Whether a bookmark points to `address`.
pub open spec fn points_to(bookmark: AddressBookmark, address: Address) -> bool {
    bookmark.details.address == AddressRef::EthereumAddress(address)
}

impl AddressBookmark {
    /// Whether this bookmark is valid for `blockchain`.
    pub fn is_for(&self, blockchain: Blockchain) -> (valid: bool)
        ensures
            valid == is_for_chain(*self, blockchain),
    {
        let mut i: usize = 0;
        while i < self.details.blockchains.len()
            invariant
                i <= self.details.blockchains.len(),
                forall|j: int| 0 <= j < i ==> self.details.blockchains@[j] != blockchain,
            decreases self.details.blockchains.len() - i,
        {
            if self.details.blockchains[i] == blockchain {
                assert(self.details.blockchains@[i as int] == blockchain);
                return true;
            }
            i += 1;
        }
        false
    }

    /// Whether this bookmark points to `address`.
    pub fn is_at(&self, address: &Address) -> (at: bool)
        ensures
            at == points_to(*self, *address),
    {
        match self.details.address {
            AddressRef::EthereumAddress(own) => own.is(address),
        }
    }
}

impl NewAddressBookItem {
    /// The bookmark that stores this entry under `id`, valid for
    /// `blockchain` alone.
    pub fn into_bookmark(self, id: Uuid, blockchain: Blockchain) -> (bookmark: AddressBookmark)
        ensures
            bookmark.id == id,
            bookmark.details.blockchains@ == seq![blockchain],
            bookmark.details.label == self.name,
            bookmark.details.description == self.description,
            bookmark.details.address == AddressRef::EthereumAddress(self.address),
            forall|other: Blockchain| is_for_chain(bookmark, other) <==> other == blockchain,
    {
        let mut blockchains: Vec<Blockchain> = Vec::new();
        blockchains.push(blockchain);
        assert(blockchains@[0] == blockchain);
        AddressBookmark {
            id,
            details: BookmarkDetails {
                blockchains,
                label: self.name,
                description: self.description,
                address: AddressRef::EthereumAddress(self.address),
            },
        }
    }
}

} // verus!
