use bitcoin::bip32::{ChildNumber, DerivationPath, Xpriv};
use bitcoin::secp256k1::{PublicKey, Secp256k1};
use bitcoin::NetworkKind;
use hmac::Hmac;
use pbkdf2::pbkdf2;
use sha2::Sha512;
use sha3::{Digest, Keccak256};
use vault_access::{
    list_mnemonic_address, Address, AddressListing, HDPath, HDPathAddress, ListingEvent,
    ListingStep, MnemonicSeed, VaultError,
};

const PHRASE: &str =
    "abandon abandon abandon abandon abandon abandon abandon abandon abandon abandon abandon about";

/// The seed bytes of a phrase: PBKDF2 with HMAC-SHA512 over 2048 rounds.
fn seed_of(mnemonic: &MnemonicSeed) -> Vec<u8> {
    let salt = format!("mnemonic{}", mnemonic.password.as_deref().unwrap_or(""));
    let mut seed = vec![0u8; 64];
    pbkdf2::<Hmac<Sha512>>(mnemonic.value.as_bytes(), salt.as_bytes(), 2048, &mut seed).unwrap();
    seed
}

/// The address of the key at `path` below the master key of `seed`.
fn address_at(seed: &[u8], path: &HDPath) -> Option<Address> {
    let secp = Secp256k1::new();
    let children: Vec<ChildNumber> = path.values.iter().map(|raw| ChildNumber::from(*raw)).collect();
    let master = Xpriv::new_master(NetworkKind::Main, seed).ok()?;
    let key = master.derive_priv(&secp, &DerivationPath::from(children)).ok()?;
    let public = PublicKey::from_secret_key(&secp, &key.private_key);
    let hash = Keccak256::digest(&public.serialize_uncompressed()[1..]);
    let mut bytes = [0u8; 20];
    bytes.copy_from_slice(&hash[12..]);
    Some(Address(bytes))
}

fn run(mut listing: AddressListing, mnemonic: &MnemonicSeed) -> Result<Vec<HDPathAddress>, VaultError> {
    let seed = seed_of(mnemonic);
    let mut step = listing.step(ListingEvent::Start);
    loop {
        step = match step {
            ListingStep::Open => listing.step(ListingEvent::Opened),
            ListingStep::Derive(path) => match address_at(&seed, &path) {
                Some(address) => listing.step(ListingEvent::Address(address)),
                None => listing.step(ListingEvent::Failed),
            },
            ListingStep::Done(result) => return result,
            ListingStep::Wait => panic!("the listing waits for nothing"),
        };
    }
}

fn hex(address: &Address) -> String {
    let mut text = String::from("0x");
    for byte in address.0 {
        text.push_str(&format!("{:02x}", byte));
    }
    text
}

fn listed(paths: &[&str], password: Option<&str>) -> Vec<(String, String)> {
    let mnemonic =
        MnemonicSeed { value: String::from(PHRASE), password: password.map(String::from) };
    let all = paths.iter().map(|p| String::from(*p)).collect();
    let found = run(list_mnemonic_address(all, mnemonic.clone()), &mnemonic).unwrap();
    found.iter().map(|item| (item.hd_path.clone(), hex(&item.address))).collect()
}

#[test]
fn test_vector_phrase_gives_its_known_address() {
    assert_eq!(
        listed(&["m/44'/60'/0'/0/0"], None),
        vec![(
            String::from("m/44'/60'/0'/0/0"),
            String::from("0x9858effd232b4033e47d90003d41ec34ecaeda94"),
        )]
    );
}

#[test]
fn hardened_change_level_gives_an_address_of_its_own() {
    let found = listed(&["m/44'/60'/0'/0'/0", "m/44'/60'/0'/0/0", "m/44'/60'/0'/0'/0"], None);
    assert_eq!(
        found,
        vec![
            (
                String::from("m/44'/60'/0'/0'/0"),
                String::from("0xcba98362e199c41e1864d0923af9646d3a648451"),
            ),
            (
                String::from("m/44'/60'/0'/0/0"),
                String::from("0x9858effd232b4033e47d90003d41ec34ecaeda94"),
            ),
            (
                String::from("m/44'/60'/0'/0'/0"),
                String::from("0xcba98362e199c41e1864d0923af9646d3a648451"),
            ),
        ]
    );
}

#[test]
fn derivation_is_the_same_every_time() {
    let paths = ["m/44'/60'/0'/0'/0", "m/44'/61'/0'/0/0", "m/44'/60'/160720'/0/0"];
    let first = listed(&paths, None);
    assert_eq!(first.len(), 3);
    assert_eq!(first, listed(&paths, None));
    assert_eq!(first, listed(&paths, None));
}

#[test]
fn passphrase_changes_every_address() {
    let paths = ["m/44'/60'/0'/0/0", "m/44'/60'/0'/0/1"];
    let plain = listed(&paths, None);
    let secret = listed(&paths, Some("TREZOR"));
    assert_eq!(plain.len(), 2);
    assert_eq!(secret.len(), 2);
    assert_ne!(plain[0].1, secret[0].1);
    assert_ne!(plain[1].1, secret[1].1);
    assert_ne!(plain[0].1, plain[1].1);
}
