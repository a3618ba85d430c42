use vstd::prelude::*;

use crate::error::VaultError;
use crate::text::{check_blank, is_blank, reads_as};

verus! {

/// A seed that was registered before, named by its identifier.
#[derive(Clone, Debug, PartialEq, Eq)]
pub struct SeedReference {
    pub id: String,
}

/// A mnemonic phrase with its passphrase, if it has one.
#[derive(Clone, Debug, PartialEq, Eq)]
pub struct MnemonicSeed {
    pub value: String,
    pub password: Option<String>,
}

/// What an inline seed is made of.
#[derive(Clone, Debug, PartialEq, Eq)]
pub enum SeedDefinitionValue {
    Mnemonic(MnemonicSeed),
    /// A seed that never leaves its hardware device.
    Ledger,
}

/// A seed given inline with the request.
#[derive(Clone, Debug, PartialEq, Eq)]
pub struct SeedDefinition {
    pub value: SeedDefinitionValue,
}

/// The seed of a request. Seeds are inputs of a request and are not stored
/// by this layer.
#[derive(Clone, Debug, PartialEq, Eq)]
pub enum Seed {
    Reference(SeedReference),
    Definition(SeedDefinition),
}

/// The `mnemonic` part of a seed description, as the request gave it.
#[derive(Clone, Debug, PartialEq, Eq)]
pub struct MnemonicFields {
    pub value: Option<String>,
    pub password: Option<String>,
}

/// A seed description as the request gave it: each field that was present.
#[derive(Clone, Debug, PartialEq, Eq)]
pub struct SeedDescription {
    pub id: Option<String>,
    pub seed_type: Option<String>,
    pub mnemonic: Option<MnemonicFields>,
}

/// Where the addresses of a seed come from.
#[derive(Clone, Debug, PartialEq, Eq)]
pub enum AddressSource {
    /// Derived here from the mnemonic phrase.
    Mnemonic(MnemonicSeed),
    /// Asked from the attached hardware device.
    Ledger,
}

/// The passphrase that counts: an empty or blank one is none.
pub open spec fn normalized_password(password: Option<String>) -> Option<String> {
    match password {
        Some(p) => if is_blank(p@) {
            None
        } else {
            Some(p)
        },
        None => None,
    }
}

/// The mnemonic seed that the `mnemonic` part of a description gives. The
/// phrase is required.
pub open spec fn mnemonic_seed_of(fields: Option<MnemonicFields>) -> Result<
    MnemonicSeed,
    VaultError,
> {
    match fields {
        Some(given) => match given.value {
            Some(words) => Ok(
                MnemonicSeed { value: words, password: normalized_password(given.password) },
            ),
            None => Err(VaultError::UnsupportedSeedType),
        },
        None => Err(VaultError::UnsupportedSeedType),
    }
}

/// The inline seed that a type discriminator and the `mnemonic` part give.
pub open spec fn seed_definition_of(
    seed_type: Option<String>,
    mnemonic: Option<MnemonicFields>,
) -> Result<SeedDefinition, VaultError> {
    match seed_type {
        Some(kind) => if kind@ == "mnemonic"@ {
            match mnemonic_seed_of(mnemonic) {
                Ok(seed) => Ok(SeedDefinition { value: SeedDefinitionValue::Mnemonic(seed) }),
                Err(e) => Err(e),
            }
        } else if kind@ == "ledger"@ {
            Ok(SeedDefinition { value: SeedDefinitionValue::Ledger })
        } else {
            Err(VaultError::UnsupportedSeedType)
        },
        None => Err(VaultError::UnsupportedSeedType),
    }
}

/// The seed that a description stands for. An identifier makes it a
/// reference, whatever else is given.
pub open spec fn seed_of(description: SeedDescription) -> Result<Seed, VaultError> {
    match description.id {
        Some(id) => Ok(Seed::Reference(SeedReference { id })),
        None => match seed_definition_of(description.seed_type, description.mnemonic) {
            Ok(definition) => Ok(Seed::Definition(definition)),
            Err(e) => Err(e),
        },
    }
}

/// Where the addresses of `seed` come from. A reference is not looked up
/// among stored seeds: it falls back to the hardware device, whatever its
/// identifier.
pub open spec fn source_of(seed: Seed) -> AddressSource {
    match seed {
        Seed::Reference(_) => AddressSource::Ledger,
        Seed::Definition(definition) => match definition.value {
            SeedDefinitionValue::Mnemonic(mnemonic) => AddressSource::Mnemonic(mnemonic),
            SeedDefinitionValue::Ledger => AddressSource::Ledger,
        },
    }
}

impl MnemonicSeed {
    /// Reads the `mnemonic` part of a seed description. Fails with
    /// `UnsupportedSeedType` where the part or its phrase is missing.
    pub fn from_fields(fields: Option<MnemonicFields>) -> (seed: Result<MnemonicSeed, VaultError>)
        ensures
            seed == mnemonic_seed_of(fields),
    {
        match fields {
            Some(given) => match given.value {
                Some(words) => {
                    let password = match given.password {
                        Some(p) => if check_blank(p.as_str()) {
                            None
                        } else {
                            Some(p)
                        },
                        None => None,
                    };
                    Ok(MnemonicSeed { value: words, password })
                },
                None => Err(VaultError::UnsupportedSeedType),
            },
            None => Err(VaultError::UnsupportedSeedType),
        }
    }
}

impl SeedDefinition {
    /// Reads an inline seed from its type discriminator. Fails with
    /// `UnsupportedSeedType` for a missing or unknown discriminator.
    pub fn from_fields(seed_type: Option<String>, mnemonic: Option<MnemonicFields>) -> (definition:
        Result<SeedDefinition, VaultError>)
        ensures
            definition == seed_definition_of(seed_type, mnemonic),
    {
        match seed_type {
            Some(kind) => if reads_as(kind.as_str(), "mnemonic") {
                match MnemonicSeed::from_fields(mnemonic) {
                    Ok(seed) => Ok(SeedDefinition { value: SeedDefinitionValue::Mnemonic(seed) }),
                    Err(e) => Err(e),
                }
            } else if reads_as(kind.as_str(), "ledger") {
                Ok(SeedDefinition { value: SeedDefinitionValue::Ledger })
            } else {
                Err(VaultError::UnsupportedSeedType)
            },
            None => Err(VaultError::UnsupportedSeedType),
        }
    }
}

impl Seed {
    /// Classifies a seed description as a reference or an inline seed.
    pub fn from_description(description: SeedDescription) -> (seed: Result<Seed, VaultError>)
        ensures
            seed == seed_of(description),
    {
        match description.id {
            Some(id) => Ok(Seed::Reference(SeedReference { id })),
            None => match SeedDefinition::from_fields(description.seed_type, description.mnemonic) {
                Ok(definition) => Ok(Seed::Definition(definition)),
                Err(e) => Err(e),
            },
        }
    }

    /// Where the addresses of this seed come from.
    pub fn into_source(self) -> (source: AddressSource)
        ensures
            source == source_of(self),
    {
        match self {
            Seed::Reference(_) => AddressSource::Ledger,
            Seed::Definition(definition) => match definition.value {
                SeedDefinitionValue::Mnemonic(mnemonic) => AddressSource::Mnemonic(mnemonic),
                SeedDefinitionValue::Ledger => AddressSource::Ledger,
            },
        }
    }
}

} // verus!
