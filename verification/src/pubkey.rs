//! Public keys of accounts: 32 bytes, written in base 58.
//!
//! Reading and writing the text is the work of `solana_sdk`.

use vstd::prelude::*;

verus! {

/// The bytes that `solana_sdk` reads from the text of a public key, where
/// it accepts the text.
pub uninterp spec fn pubkey_decode(text: Seq<char>) -> Option<Seq<u8>>;

/// The text that `solana_sdk` writes for the bytes of a public key.
pub uninterp spec fn pubkey_encode(bytes: Seq<u8>) -> Seq<char>;

/// Calls `Pubkey::from_str` of `solana_sdk` and hands out the bytes of the
/// key that it read, or nothing where it refused the text.
#[verifier::external_body]
fn decode_pubkey(text: &str) -> (r: Option<[u8; 32]>)
    ensures
        match r {
            Some(bytes) => pubkey_decode(text@) == Some(bytes@),
            None => pubkey_decode(text@) is None,
        },
{
    match <solana_sdk::pubkey::Pubkey as std::str::FromStr>::from_str(text) {
        Ok(key) => Some(key.to_bytes()),
        Err(_) => None,
    }
}

/// Calls `to_string` on the `Pubkey` of `solana_sdk` that holds `bytes`.
#[verifier::external_body]
fn encode_pubkey(bytes: &[u8; 32]) -> (text: String)
    ensures
        text@ == pubkey_encode(bytes@),
{
    solana_sdk::pubkey::Pubkey::new_from_array(*bytes).to_string()
}

/// The public key of an account.
#[derive(Clone, Copy, Debug)]
pub struct Pubkey {
    bytes: [u8; 32],
}

impl View for Pubkey {
    type V = Seq<u8>;

    closed spec fn view(&self) -> Seq<u8> {
        self.bytes@
    }
}

impl Pubkey {
    /// The key that holds `bytes`.
    pub fn new_from_array(bytes: [u8; 32]) -> (r: Pubkey)
        ensures
            r@ == bytes@,
    {
        Pubkey { bytes }
    }

    /// The bytes of the key.
    pub fn to_bytes(&self) -> (r: [u8; 32])
        ensures
            r@ == self@,
    {
        self.bytes
    }

    /// Reads a key from its text; `None` where the text is not that of a
    /// key.
    pub fn from_str(text: &str) -> (r: Option<Pubkey>)
        ensures
            match r {
                Some(key) => pubkey_decode(text@) == Some(key@),
                None => pubkey_decode(text@) is None,
            },
    {
        match decode_pubkey(text) {
            Some(bytes) => Some(Pubkey { bytes }),
            None => None,
        }
    }

    /// The text of the key.
    pub fn to_string(&self) -> (r: String)
        ensures
            r@ == pubkey_encode(self@),
    {
        encode_pubkey(&self.bytes)
    }
}

} // verus!
