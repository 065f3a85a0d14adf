//! What the library takes from the hosting platform: identities and the hash
//! function.
use vstd::prelude::*;

verus! {

/// The longest text, in characters, that one host budget can hash: at most
/// four bytes each, at about 55 budgeted instructions a byte, well inside
/// the 100 million instructions of a fresh host.
pub const MAX_HASHED_CHARS: usize = 262_144;

/// An authenticated principal, numbered by the host's directory of accounts.
#[derive(Clone, Copy, Debug, PartialEq, Eq, Structural)]
pub struct Identity {
    pub id: u64,
}

/// The SHA-256 digest of the UTF-8 encoding of a text.
pub uninterp spec fn sha256_of(text: Seq<char>) -> Seq<u8>;

/// Relies on `soroban_sdk::crypto::Crypto::sha256`: a fresh host hashes the
/// text's UTF-8 bytes; the digest depends on the text alone. The host
/// panics once its budget is spent, which the bound on the length rules out.
#[verifier::external_body]
pub(crate) fn sha256_digest(text: &String) -> (r: [u8; 32])
    requires
        text@.len() <= MAX_HASHED_CHARS,
    ensures
        r@ == sha256_of(text@),
{
    let env = soroban_sdk::Env::default();
    let bytes = soroban_sdk::Bytes::from_slice(&env, text.as_bytes());
    env.crypto().sha256(&bytes).to_array()
}

} // verus!
