use vstd::prelude::*;

use crate::error::ImportFault;
use crate::wallet::Address;
use uuid::Uuid;

verus! {

/// The cipher that encrypts the key of a keystore document.
#[derive(Clone, Copy, Debug, PartialEq, Eq, Structural)]
pub enum CipherId {
    Aes128Ctr,
}

/// The parameters of the cipher: its initialization vector, in hex.
#[derive(Clone, Debug, PartialEq, Eq)]
pub struct CipherParamsJson {
    pub iv: String,
}

/// The pseudo-random function of PBKDF2.
#[derive(Clone, Copy, Debug, PartialEq, Eq, Structural)]
pub enum PrfJson {
    HmacSha256,
    HmacSha512,
}

/// The key derivation function that turns the password into a key.
#[derive(Clone, Copy, Debug, PartialEq, Eq, Structural)]
pub enum KdfJson {
    Pbkdf2 { prf: PrfJson, c: u32 },
    Scrypt { n: u32, r: u32, p: u32 },
}

/// The key derivation function with the length of the key it derives and
/// its salt, in hex.
#[derive(Clone, Debug, PartialEq, Eq)]
pub struct KdfParamsJson {
    pub kdf: KdfJson,
    pub dklen: usize,
    pub salt: String,
}

/// The encrypted key of a keystore document, with all that is needed to
/// decrypt it but the password. Cipher text and authentication code are in
/// hex.
#[derive(Clone, Debug, PartialEq, Eq)]
pub struct CoreCryptoJson {
    pub cipher: CipherId,
    pub cipher_text: String,
    pub cipher_params: CipherParamsJson,
    pub kdf_params: KdfParamsJson,
    pub mac: String,
}

/// A parsed keystore document of the portable version 3 format.
#[derive(Clone, Debug, PartialEq, Eq)]
pub struct EthereumJsonV3File {
    pub id: Uuid,
    pub version: u32,
    pub address: Option<Address>,
    pub crypto: CoreCryptoJson,
    pub name: Option<String>,
    pub description: Option<String>,
}

/// Bytes of an initialization vector.
pub const CIPHER_IV_BYTES: usize = 16;

/// Bytes of an authentication code.
pub const MAC_BYTES: usize = 32;

/// The least length of a derived key: one half keys the cipher, the other
/// the authentication code.
pub const MIN_DK_LENGTH: usize = 32;

/// Whether a character is a hex digit, in either case.
pub open spec fn is_hex_digit(c: char) -> bool {
    let code = c as u32;
    ||| 0x30 <= code <= 0x39
    ||| 0x41 <= code <= 0x46
    ||| 0x61 <= code <= 0x66
}

/// Whether a text writes whole bytes in hex.
pub open spec fn is_hex(text: Seq<char>) -> bool {
    &&& text.len() % 2 == 0
    &&& forall|i: int| 0 <= i < text.len() ==> is_hex_digit(#[trigger] text[i])
}

/// Whether a text writes at least one byte in hex.
pub open spec fn is_hex_data(text: Seq<char>) -> bool {
    text.len() > 0 && is_hex(text)
}

/// Whether a text writes exactly `count` bytes in hex.
pub open spec fn is_hex_of(text: Seq<char>, count: int) -> bool {
    text.len() == 2 * count && is_hex(text)
}

/// Whether a key can be derived with these parameters: at least one round
/// for PBKDF2; for scrypt a cost that is a power of two above one, and a
/// block size and a parallelization of at least one.
pub open spec fn kdf_usable(kdf: KdfJson) -> bool {
    match kdf {
        KdfJson::Pbkdf2 { prf, c } => c >= 1,
        KdfJson::Scrypt { n, r, p } => n >= 2 && n & ((n - 1) as u32) == 0 && r >= 1 && p >= 1,
    }
}

/// What is wrong with a keystore document, if anything is: the first fault
/// in the order of the checks. The authentication code itself needs the
/// password and is checked where the key is decrypted.
pub open spec fn keystore_fault(file: EthereumJsonV3File) -> Option<ImportFault> {
    let crypto = file.crypto;
    if file.version != 3 {
        Some(ImportFault::UnsupportedVersion)
    } else if !is_hex_data(crypto.cipher_text@) {
        Some(ImportFault::MalformedCipherText)
    } else if !is_hex_of(crypto.cipher_params.iv@, CIPHER_IV_BYTES as int) {
        Some(ImportFault::MalformedIv)
    } else if !(kdf_usable(crypto.kdf_params.kdf) && crypto.kdf_params.dklen >= MIN_DK_LENGTH) {
        Some(ImportFault::MalformedKdf)
    } else if !is_hex_data(crypto.kdf_params.salt@) {
        Some(ImportFault::MalformedSalt)
    } else if !is_hex_of(crypto.mac@, MAC_BYTES as int) {
        Some(ImportFault::MalformedMac)
    } else {
        None
    }
}

/// Whether `c` is a hex digit, in either case.
pub fn check_hex_digit(c: char) -> (hex: bool)
    ensures
        hex == is_hex_digit(c),
{
    let code: u32 = c as u32;
    (0x30 <= code && code <= 0x39) || (0x41 <= code && code <= 0x46) || (0x61 <= code && code
        <= 0x66)
}

/// The number of bytes that `text` writes in hex, if it writes whole bytes
/// in hex.
pub fn hex_length(text: &str) -> (count: Option<usize>)
    ensures
        count is Some <==> is_hex(text@),
        count matches Some(n) ==> 2 * n == text@.len(),
{
    let len = text.unicode_len();
    if len % 2 != 0 {
        return None;
    }
    for c in it: text.chars()
        invariant
            len == text@.len(),
            it.seq() == text@,
            forall|j: int| 0 <= j < it.index() ==> is_hex_digit(#[trigger] text@[j]),
    {
        if !check_hex_digit(c) {
            return None;
        }
    }
    Some(len / 2)
}

impl KdfJson {
    /// Whether a key can be derived with these parameters.
    pub fn is_usable(&self) -> (usable: bool)
        ensures
            usable == kdf_usable(*self),
    {
        match *self {
            KdfJson::Pbkdf2 { prf, c } => c >= 1,
            KdfJson::Scrypt { n, r, p } => n >= 2 && n & (n - 1) == 0 && r >= 1 && p >= 1,
        }
    }
}

impl EthereumJsonV3File {
    /// Checks that the document is consistent in itself: its version, the
    /// form and length of each hex field, and the parameters of its key
    /// derivation. Says what is wrong first, if anything is.
    pub fn check(&self) -> (fault: Option<ImportFault>)
        ensures
            fault == keystore_fault(*self),
    {
        if self.version != 3 {
            return Some(ImportFault::UnsupportedVersion);
        }
        match hex_length(self.crypto.cipher_text.as_str()) {
            Some(n) => if n == 0 {
                return Some(ImportFault::MalformedCipherText);
            },
            None => {
                return Some(ImportFault::MalformedCipherText);
            },
        }
        match hex_length(self.crypto.cipher_params.iv.as_str()) {
            Some(n) => if n != CIPHER_IV_BYTES {
                return Some(ImportFault::MalformedIv);
            },
            None => {
                return Some(ImportFault::MalformedIv);
            },
        }
        if !(self.crypto.kdf_params.kdf.is_usable() && self.crypto.kdf_params.dklen
            >= MIN_DK_LENGTH) {
            return Some(ImportFault::MalformedKdf);
        }
        match hex_length(self.crypto.kdf_params.salt.as_str()) {
            Some(n) => if n == 0 {
                return Some(ImportFault::MalformedSalt);
            },
            None => {
                return Some(ImportFault::MalformedSalt);
            },
        }
        match hex_length(self.crypto.mac.as_str()) {
            Some(n) => if n != MAC_BYTES {
                return Some(ImportFault::MalformedMac);
            },
            None => {
                return Some(ImportFault::MalformedMac);
            },
        }
        None
    }
}

} // verus!
