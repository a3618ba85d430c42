use vault_access::text::{check_blank, check_white_space};
use vault_access::{
    AddressSource, MnemonicFields, MnemonicSeed, Seed, SeedDefinition, SeedDefinitionValue,
    SeedDescription, SeedReference, VaultError,
};

fn text(value: &str) -> Option<String> {
    Some(String::from(value))
}

fn mnemonic(value: &str, password: Option<&str>) -> Option<MnemonicFields> {
    Some(MnemonicFields { value: text(value), password: password.map(String::from) })
}

const PHRASE: &str = "legal winner thank year wave sausage worth useful legal winner thank yellow";

#[test]
fn identifier_makes_a_reference() {
    let description = SeedDescription { id: text("seed-1"), seed_type: None, mnemonic: None };
    assert_eq!(
        Seed::from_description(description),
        Ok(Seed::Reference(SeedReference { id: String::from("seed-1") }))
    );
}

#[test]
fn identifier_wins_over_a_definition() {
    let description = SeedDescription {
        id: text("seed-1"),
        seed_type: text("mnemonic"),
        mnemonic: mnemonic(PHRASE, None),
    };
    assert_eq!(
        Seed::from_description(description),
        Ok(Seed::Reference(SeedReference { id: String::from("seed-1") }))
    );
}

#[test]
fn empty_identifier_is_still_a_reference() {
    let description = SeedDescription { id: text(""), seed_type: text("ledger"), mnemonic: None };
    assert_eq!(
        Seed::from_description(description),
        Ok(Seed::Reference(SeedReference { id: String::new() }))
    );
}

#[test]
fn mnemonic_type_makes_a_mnemonic_definition() {
    let description =
        SeedDescription { id: None, seed_type: text("mnemonic"), mnemonic: mnemonic(PHRASE, Some("secret")) };
    let expected = MnemonicSeed { value: String::from(PHRASE), password: text("secret") };
    assert_eq!(
        Seed::from_description(description),
        Ok(Seed::Definition(SeedDefinition { value: SeedDefinitionValue::Mnemonic(expected) }))
    );
}

#[test]
fn ledger_type_makes_a_ledger_definition() {
    let description = SeedDescription { id: None, seed_type: text("ledger"), mnemonic: None };
    assert_eq!(
        Seed::from_description(description),
        Ok(Seed::Definition(SeedDefinition { value: SeedDefinitionValue::Ledger }))
    );
}

#[test]
fn ledger_type_ignores_a_mnemonic_part() {
    assert_eq!(
        SeedDefinition::from_fields(text("ledger"), mnemonic(PHRASE, None)),
        Ok(SeedDefinition { value: SeedDefinitionValue::Ledger })
    );
}

#[test]
fn other_type_is_unsupported() {
    for kind in ["trezor", "", "Mnemonic", "LEDGER", "mnemonic ", "raw"] {
        assert_eq!(
            SeedDefinition::from_fields(text(kind), mnemonic(PHRASE, None)),
            Err(VaultError::UnsupportedSeedType),
            "{:?}",
            kind
        );
    }
}

#[test]
fn missing_type_is_unsupported() {
    assert_eq!(
        SeedDefinition::from_fields(None, mnemonic(PHRASE, None)),
        Err(VaultError::UnsupportedSeedType)
    );
    let description = SeedDescription { id: None, seed_type: None, mnemonic: None };
    assert_eq!(Seed::from_description(description), Err(VaultError::UnsupportedSeedType));
}

#[test]
fn mnemonic_without_phrase_is_unsupported() {
    assert_eq!(MnemonicSeed::from_fields(None), Err(VaultError::UnsupportedSeedType));
    assert_eq!(
        MnemonicSeed::from_fields(Some(MnemonicFields { value: None, password: text("x") })),
        Err(VaultError::UnsupportedSeedType)
    );
    assert_eq!(
        SeedDefinition::from_fields(text("mnemonic"), None),
        Err(VaultError::UnsupportedSeedType)
    );
}

#[test]
fn empty_password_is_no_passphrase() {
    let seed = MnemonicSeed::from_fields(mnemonic(PHRASE, Some(""))).unwrap();
    assert_eq!(seed.password, None);
    assert_eq!(seed.value, PHRASE);
}

#[test]
fn blank_password_is_no_passphrase() {
    for blank in [" ", "   ", "\t", " \n\r ", "\u{00A0}", "\u{2003}\u{3000}", "\u{0085}\u{1680}"] {
        let seed = MnemonicSeed::from_fields(mnemonic(PHRASE, Some(blank))).unwrap();
        assert_eq!(seed.password, None, "{:?}", blank);
    }
}

#[test]
fn password_with_content_is_kept_as_given() {
    for password in ["secret", " secret ", " a", "\u{200B}", "0", "\u{FEFF}"] {
        let seed = MnemonicSeed::from_fields(mnemonic(PHRASE, Some(password))).unwrap();
        assert_eq!(seed.password, text(password), "{:?}", password);
    }
}

#[test]
fn absent_password_is_no_passphrase() {
    let seed = MnemonicSeed::from_fields(mnemonic(PHRASE, None)).unwrap();
    assert_eq!(seed.password, None);
}

#[test]
fn white_space_is_what_the_standard_library_says() {
    let mut code: u32 = 0;
    while code <= 0x3100 {
        if let Some(c) = char::from_u32(code) {
            assert_eq!(check_white_space(c), c.is_whitespace(), "U+{:04X}", code);
        }
        code += 1;
    }
    assert!(!check_white_space('\u{FEFF}'));
    assert!(!check_white_space('\u{10FFFF}'));
}

#[test]
fn blank_is_empty_or_all_white_space() {
    assert!(check_blank(""));
    assert!(check_blank(" \t\n"));
    assert!(!check_blank(" x "));
    assert!(!check_blank("x"));
}

#[test]
fn reference_falls_back_to_the_device() {
    let seed = Seed::Reference(SeedReference { id: String::from("any") });
    assert_eq!(seed.into_source(), AddressSource::Ledger);
}

#[test]
fn definitions_go_to_their_own_engine() {
    let ledger = Seed::Definition(SeedDefinition { value: SeedDefinitionValue::Ledger });
    assert_eq!(ledger.into_source(), AddressSource::Ledger);
    let phrase = MnemonicSeed { value: String::from(PHRASE), password: None };
    let seed =
        Seed::Definition(SeedDefinition { value: SeedDefinitionValue::Mnemonic(phrase.clone()) });
    assert_eq!(seed.into_source(), AddressSource::Mnemonic(phrase));
}
