use vstd::prelude::*;
use vstd::utf8::encode_utf8;

use crate::error::VaultError;

verus! {

/// The bit that marks a child number as hardened.
pub const HARDENED: u32 = 0x8000_0000;

/// A hierarchical-deterministic path: the child numbers from the root down,
/// a hardened one with the bit `HARDENED` set.
#[derive(Clone, Debug, PartialEq, Eq)]
pub struct HDPath {
    pub values: Vec<u32>,
}

impl View for HDPath {
    type V = Seq<u32>;

    open spec fn view(&self) -> Seq<u32> {
        self.values@
    }
}

/// Whether a byte is an ASCII decimal digit.
pub open spec fn is_digit(byte: u8) -> bool {
    48 <= byte <= 57
}

/// The decimal value of the longest run of digits that ends just before
/// position `end`; 0 where no digit stands there.
pub open spec fn digit_run_value(bytes: Seq<u8>, end: int) -> nat
    decreases end,
{
    if end <= 0 || end > bytes.len() || !is_digit(bytes[end - 1]) {
        0
    } else {
        digit_run_value(bytes, end - 1) * 10 + (bytes[end - 1] - 48) as nat
    }
}

/// Whether every number written in `bytes` fits in 32 bits.
pub open spec fn numbers_fit(bytes: Seq<u8>) -> bool {
    forall|end: int| 0 <= end <= bytes.len() ==> #[trigger] digit_run_value(bytes, end) <= u32::MAX
}

/// What `hdpath::CustomHDPath` reads from a path in apostrophe notation:
/// the raw child numbers, or nothing where it rejects the text.
pub uninterp spec fn custom_path_of(text: Seq<char>) -> Option<Seq<u32>>;

/// The child numbers that a path text stands for. A text in which a number
/// exceeds 32 bits stands for no path.
pub open spec fn parsed_path(text: Seq<char>) -> Option<Seq<u32>> {
    if numbers_fit(encode_utf8(text)) {
        custom_path_of(text)
    } else {
        None
    }
}

/// Calls `hdpath::CustomHDPath::try_from` and hands out each element by
/// `PathValue::to_raw`. Trusted: the result is that parser's reading of
/// `text`. The parser adds up each number in 32 bits without a check, so
/// texts with a larger number are kept from it.
#[verifier::external_body]
fn read_custom_path(text: &str) -> (values: Option<Vec<u32>>)
    requires
        numbers_fit(encode_utf8(text@)),
    ensures
        custom_path_of(text@) == (match values {
            Some(v) => Some(v@),
            None => None,
        }),
{
    match hdpath::CustomHDPath::try_from(text) {
        Ok(path) => Some(path.0.iter().map(|value| value.to_raw()).collect()),
        Err(_) => None,
    }
}

/// Whether every number written in `bytes` fits in 32 bits.
pub fn check_numbers_fit(bytes: &[u8]) -> (fit: bool)
    ensures
        fit == numbers_fit(bytes@),
{
    let mut run: u32 = 0;
    let mut i: usize = 0;
    while i < bytes.len()
        invariant
            i <= bytes.len(),
            run == digit_run_value(bytes@, i as int),
            forall|end: int| 0 <= end <= i ==> #[trigger] digit_run_value(bytes@, end) <= u32::MAX,
        decreases bytes.len() - i,
    {
        let byte = bytes[i];
        if 48 <= byte && byte <= 57 {
            let digit: u64 = (byte - 48) as u64;
            let next: u64 = run as u64 * 10 + digit;
            assert(next == digit_run_value(bytes@, i + 1));
            if next > u32::MAX as u64 {
                return false;
            }
            run = next as u32;
        } else {
            assert(digit_run_value(bytes@, i + 1) == 0);
            run = 0;
        }
        i += 1;
    }
    true
}

/// Parses a path in apostrophe notation, such as `m/44'/60'/0'/0/0`.
/// Fails with `InvalidPath` on malformed syntax.
pub fn parse_hd_path(text: &str) -> (path: Result<HDPath, VaultError>)
    ensures
        match parsed_path(text@) {
            Some(values) => path matches Ok(p) && p@ == values,
            None => path == Err::<HDPath, VaultError>(VaultError::InvalidPath),
        },
{
    if !check_numbers_fit(text.as_bytes()) {
        return Err(VaultError::InvalidPath);
    }
    match read_custom_path(text) {
        Some(values) => Ok(HDPath { values }),
        None => Err(VaultError::InvalidPath),
    }
}

} // verus!
