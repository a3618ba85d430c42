use vstd::prelude::*;

verus! {

/// What was wrong with key material that could not be imported.
#[derive(Clone, Copy, Debug, PartialEq, Eq, Structural)]
pub enum ImportFault {
    /// The keystore document is not of version 3.
    UnsupportedVersion,
    /// The cipher text is empty or is not an even run of hex digits.
    MalformedCipherText,
    /// The initialization vector is not 16 bytes of hex.
    MalformedIv,
    /// The salt is empty or is not an even run of hex digits.
    MalformedSalt,
    /// The authentication code is not 32 bytes of hex.
    MalformedMac,
    /// The parameters of the key derivation function cannot be used.
    MalformedKdf,
    /// The storage service refused the material.
    Rejected,
}

/// Every way in which a call into the vault layer can fail.
///
/// No failure is retried or swallowed: each reaches the caller as one of
/// these values.
#[derive(Clone, Copy, Debug, PartialEq, Eq, Structural)]
pub enum VaultError {
    /// The chain name is not one of the known identifiers.
    UnsupportedChain,
    /// The seed description is malformed or names an unknown kind of seed.
    UnsupportedSeedType,
    /// An HD path is malformed; the whole batch is given up.
    InvalidPath,
    /// No wallet, address or bookmark matches the request.
    NotFound,
    /// A wallet points to a key record that the storage no longer holds.
    KeyMissing,
    /// New key material was refused.
    ImportError(ImportFault),
    /// The hardware device failed in the middle of an operation.
    DeviceError,
    /// The request is well formed but deliberately not carried out.
    UnsupportedOperation,
}

} // verus!
