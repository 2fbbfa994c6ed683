//! Node secrets: the REST API key and the Iroh secret key, as kept in the
//! configuration directory.

use vstd::prelude::*;
use rand_core::{OsRng, RngCore};
use crate::text::{trim, trimmed};

verus! {

/// Lowercase hexadecimal digit for `d < 16`.
pub open spec fn hex_digit(d: nat) -> char {
    if d < 10 {
        ((d + 48) as u32) as char
    } else {
        ((d + 87) as u32) as char
    }
}

/// Lowercase hexadecimal text of `bytes`, two digits per byte, high nibble first.
pub open spec fn spec_hex(bytes: Seq<u8>) -> Seq<char>
    decreases bytes.len(),
{
    if bytes.len() == 0 {
        Seq::empty()
    } else {
        spec_hex(bytes.drop_last()) + seq![
            hex_digit((bytes.last() / 16) as nat),
            hex_digit((bytes.last() % 16) as nat),
        ]
    }
}

/// Hex-encodes through `hex::encode`, which writes each byte as two lowercase
/// digits, high nibble first.
#[verifier::external_body]
fn hex_encode(bytes: &[u8]) -> (r: String)
    ensures
        r@ == spec_hex(bytes@),
{
    hex::encode(bytes)
}

/// `N` bytes from the operating system's random source, through `rand_core`'s
/// `OsRng::try_fill_bytes`, or `None` when that source fails. Random, so nothing
/// is promised of them, nor that the source works.
#[verifier::external_body]
fn os_random_bytes<const N: usize>() -> (r: Option<[u8; N]>) {
    let mut bytes = [0u8; N];
    OsRng.try_fill_bytes(&mut bytes).ok().map(|_| bytes)
}

/// Number of random bytes behind a freshly generated API key.
pub const API_KEY_BYTES: usize = 2;

/// Number of bytes of an Iroh secret key.
pub const IROH_KEY_BYTES: usize = 32;

/// The API key stored in a key file: its contents with surrounding whitespace removed.
pub fn api_key_from_file(contents: &str) -> (r: String)
    ensures
        r@ == trimmed(contents@),
{
    trim(contents)
}

/// The API key made from random bytes: their lowercase hex text.
pub fn api_key_from_bytes(bytes: [u8; 2]) -> (r: String)
    ensures
        r@ == spec_hex(bytes@),
{
    hex_encode(bytes.as_slice())
}

/// A fresh API key: the hex text of two random bytes, or `None` when the
/// operating system's random source fails.
pub fn generate_api_key() -> (r: Option<String>)
    ensures
        r matches Some(k) ==> exists|b: Seq<u8>| b.len() == API_KEY_BYTES && k@ == spec_hex(b),
{
    match os_random_bytes::<2>() {
        Some(bytes) => Some(api_key_from_bytes(bytes)),
        None => None,
    }
}

/// A stored key file that cannot be used.
#[derive(PartialEq, Eq, Clone, Copy, Debug)]
pub enum KeyFileError {
    /// The Iroh key file does not hold exactly 32 bytes.
    WrongLength,
}

impl KeyFileError {
    /// The message reported for this error.
    pub fn message(&self) -> (r: &'static str)
        ensures
            r@ == "iroh key file has wrong length"@,
    {
        match self {
            KeyFileError::WrongLength => "iroh key file has wrong length",
        }
    }
}

/// The Iroh secret key stored in a key file, which must hold exactly 32 bytes.
pub fn iroh_key_from_file(contents: &Vec<u8>) -> (r: Result<[u8; 32], KeyFileError>)
    ensures
        r is Ok <==> contents@.len() == IROH_KEY_BYTES,
        r matches Ok(k) ==> k@ == contents@,
        r matches Err(e) ==> e == KeyFileError::WrongLength,
{
    if contents.len() != IROH_KEY_BYTES {
        return Err(KeyFileError::WrongLength);
    }
    let mut key = [0u8; 32];
    let mut k: usize = 0;
    while k < 32
        invariant
            contents@.len() == 32,
            k <= 32,
            forall|j: int| 0 <= j < k ==> key@[j] == contents@[j],
        decreases 32 - k,
    {
        key[k] = contents[k];
        k = k + 1;
    }
    assert(key@ =~= contents@);
    Ok(key)
}

/// Fresh random bytes for a new Iroh secret key, or `None` when the operating
/// system's random source fails.
pub fn generate_iroh_key_bytes() -> (r: Option<[u8; 32]>) {
    os_random_bytes::<32>()
}

} // verus!
