use uuid::Uuid;
use vault_access::{
    Address, AddressBookmark, AddressRef, Blockchain, BookmarkDetails, NewAddressBookItem,
    StorageRequest, VaultConfig, VaultError, WrappedVault,
};

fn address(fill: u8) -> Address {
    Address([fill; 20])
}

fn vault(chain: &str) -> WrappedVault {
    WrappedVault::new(
        VaultConfig::get_config(None, Some(String::from(chain)), String::from("/v")).unwrap(),
    )
}

fn bookmark(n: u128, fill: u8, blockchains: &[Blockchain]) -> AddressBookmark {
    AddressBookmark {
        id: Uuid::from_u128(n),
        details: BookmarkDetails {
            blockchains: blockchains.to_vec(),
            label: None,
            description: None,
            address: AddressRef::EthereumAddress(address(fill)),
        },
    }
}

/// What a storage does with a request on its address book.
fn apply(book: &mut Vec<AddressBookmark>, request: StorageRequest) -> bool {
    match request {
        StorageRequest::AddBookmark(bookmark) => {
            book.push(bookmark);
            true
        }
        StorageRequest::RemoveBookmark(id) => {
            let before = book.len();
            book.retain(|b| b.id != id);
            book.len() < before
        }
        _ => panic!("not a request on the address book"),
    }
}

fn item(fill: u8, name: &str) -> NewAddressBookItem {
    NewAddressBookItem { name: Some(String::from(name)), description: None, address: address(fill) }
}

#[test]
fn added_entry_is_listed_for_its_chain_alone() {
    let mut book: Vec<AddressBookmark> = Vec::new();
    let request = vault("eth").add_to_addressbook(item(0x10, "exchange")).unwrap();
    assert!(apply(&mut book, request));

    let on_eth = vault("eth").list_addressbook(&book).unwrap();
    assert_eq!(on_eth.len(), 1);
    assert_eq!(on_eth[0].details.address, AddressRef::EthereumAddress(address(0x10)));
    assert_eq!(on_eth[0].details.label, Some(String::from("exchange")));
    assert_eq!(on_eth[0].details.blockchains, vec![Blockchain::Ethereum]);
    assert_eq!(vault("etc").list_addressbook(&book), Ok(Vec::new()));
}

#[test]
fn removed_entry_is_no_longer_listed() {
    let mut book: Vec<AddressBookmark> = Vec::new();
    let eth = vault("eth");
    apply(&mut book, eth.add_to_addressbook(item(0x10, "a")).unwrap());
    apply(&mut book, eth.add_to_addressbook(item(0x20, "b")).unwrap());
    let request = eth.remove_addressbook_by_addr(&book, &address(0x10)).unwrap().unwrap();
    let removed = apply(&mut book, request);
    assert!(WrappedVault::bookmark_removed(Some(removed)));
    let left = eth.list_addressbook(&book).unwrap();
    assert_eq!(left.len(), 1);
    assert_eq!(left[0].details.address, AddressRef::EthereumAddress(address(0x20)));
    assert_eq!(eth.remove_addressbook_by_addr(&book, &address(0x10)), Ok(None));
}

#[test]
fn new_entries_get_identifiers_of_their_own() {
    let eth = vault("eth");
    let first = eth.add_to_addressbook(item(0x10, "a")).unwrap();
    let second = eth.add_to_addressbook(item(0x10, "a")).unwrap();
    match (first, second) {
        (StorageRequest::AddBookmark(a), StorageRequest::AddBookmark(b)) => {
            assert_ne!(a.id, b.id);
            assert_ne!(a.id, Uuid::nil());
            assert_eq!(a.id.get_version_num(), 4);
            assert_eq!(a.details, b.details);
        }
        _ => panic!("not a request to add a bookmark"),
    }
}

#[test]
fn bookmark_is_made_for_one_chain() {
    let made = item(0x33, "friend").into_bookmark(Uuid::from_u128(8), Blockchain::GoerliTestnet);
    assert_eq!(made.id, Uuid::from_u128(8));
    assert!(made.is_for(Blockchain::GoerliTestnet));
    assert!(!made.is_for(Blockchain::Ethereum));
    assert!(made.is_at(&address(0x33)));
    assert!(!made.is_at(&address(0x34)));
    assert_eq!(made.details.label, Some(String::from("friend")));
    assert_eq!(made.details.description, None);
}

#[test]
fn bookmarks_are_listed_by_chain_in_stored_order() {
    let book = vec![
        bookmark(1, 0x01, &[Blockchain::Ethereum]),
        bookmark(2, 0x02, &[Blockchain::EthereumClassic]),
        bookmark(3, 0x03, &[Blockchain::EthereumClassic, Blockchain::Ethereum]),
        bookmark(4, 0x04, &[]),
        bookmark(5, 0x01, &[Blockchain::Ethereum, Blockchain::Ethereum]),
    ];
    assert_eq!(vault("eth").list_addressbook(&book), Ok(vec![&book[0], &book[2], &book[4]]));
    assert_eq!(vault("etc").list_addressbook(&book), Ok(vec![&book[1], &book[2]]));
    assert_eq!(vault("kovan").list_addressbook(&book), Ok(Vec::new()));
}

#[test]
fn removal_takes_the_first_bookmark_of_the_chain_at_the_address() {
    let book = vec![
        bookmark(1, 0x01, &[Blockchain::EthereumClassic]),
        bookmark(2, 0x02, &[Blockchain::Ethereum]),
        bookmark(3, 0x01, &[Blockchain::KovanTestnet, Blockchain::Ethereum]),
        bookmark(4, 0x01, &[Blockchain::Ethereum]),
    ];
    assert_eq!(
        vault("eth").remove_addressbook_by_addr(&book, &address(0x01)),
        Ok(Some(StorageRequest::RemoveBookmark(Uuid::from_u128(3))))
    );
    assert_eq!(
        vault("etc").remove_addressbook_by_addr(&book, &address(0x01)),
        Ok(Some(StorageRequest::RemoveBookmark(Uuid::from_u128(1))))
    );
    assert_eq!(vault("etc").remove_addressbook_by_addr(&book, &address(0x02)), Ok(None));
    assert_eq!(vault("eth").remove_addressbook_by_addr(&book, &address(0x09)), Ok(None));
}

#[test]
fn one_of_two_bookmarks_at_an_address_stays_listed() {
    let mut book = vec![
        bookmark(1, 0x01, &[Blockchain::Ethereum]),
        bookmark(2, 0x01, &[Blockchain::Ethereum]),
    ];
    let request = vault("eth").remove_addressbook_by_addr(&book, &address(0x01)).unwrap().unwrap();
    assert!(apply(&mut book, request));
    assert_eq!(book, vec![bookmark(2, 0x01, &[Blockchain::Ethereum])]);
}

#[test]
fn failed_storage_counts_as_nothing_removed() {
    assert!(WrappedVault::bookmark_removed(Some(true)));
    assert!(!WrappedVault::bookmark_removed(Some(false)));
    assert!(!WrappedVault::bookmark_removed(None));
}

#[test]
fn address_book_calls_fail_without_a_chain() {
    let unscoped =
        WrappedVault::new(VaultConfig { chain: None, dir: String::new(), show_hidden: false });
    let book = vec![bookmark(1, 0x01, &[Blockchain::Ethereum])];
    assert_eq!(unscoped.list_addressbook(&book), Err(VaultError::UnsupportedChain));
    assert_eq!(unscoped.add_to_addressbook(item(1, "x")), Err(VaultError::UnsupportedChain));
    assert_eq!(
        unscoped.remove_addressbook_by_addr(&book, &address(0x01)),
        Err(VaultError::UnsupportedChain)
    );
}
