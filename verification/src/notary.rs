//! The notary's public key, which the guest reads as PEM text and checks
//! the session proof against.

use p256::pkcs8::DecodePublicKey;
use vstd::prelude::*;

verus! {

/// The P-256 public key that a PEM text holds, as its SEC1 encoding, or
/// `None` where the text is not a PEM-encoded P-256 public key.
pub uninterp spec fn spec_notary_key_sec1(pem: Seq<char>) -> Option<Seq<u8>>;

/// Parses a PEM-encoded P-256 public key:
/// `p256::PublicKey::from_public_key_pem`, the key then written out with
/// `PublicKey::to_sec1_bytes`.
///
/// Trusted: the result is the named parse of the text. Where a key comes
/// out, it is the uncompressed SEC1 point, 65 bytes that begin with 0x04,
/// as p256 does not compress points.
#[verifier::external_body]
fn notary_key_from_pem(pem: &str) -> (key: Option<Vec<u8>>)
    ensures
        match key {
            Some(k) => spec_notary_key_sec1(pem@) == Some(k@) && k@.len() == 65 && k@[0] == 4,
            None => spec_notary_key_sec1(pem@) is None,
        },
{
    match p256::PublicKey::from_public_key_pem(pem) {
        Ok(k) => Some(k.to_sec1_bytes().to_vec()),
        Err(_) => None,
    }
}

/// Why the notary's key was refused.
#[derive(Debug, Clone, Copy, PartialEq, Eq, Structural)]
pub enum NotaryKeyError {
    /// The text is not a PEM-encoded P-256 public key.
    InvalidPublicKey,
}

/// What the guest does with the parse of the notary's key: a key goes on
/// to check the session against, and no key is refused.
pub fn accept_notary_key(parsed: Option<Vec<u8>>) -> (key: Result<Vec<u8>, NotaryKeyError>)
    ensures
        match parsed {
            Some(k) => key == Ok::<Vec<u8>, NotaryKeyError>(k),
            None => key == Err::<Vec<u8>, NotaryKeyError>(NotaryKeyError::InvalidPublicKey),
        },
{
    match parsed {
        Some(k) => Ok(k),
        None => Err(NotaryKeyError::InvalidPublicKey),
    }
}

/// The notary's public key from its PEM text, as its SEC1 encoding; an
/// error where the text does not hold a P-256 public key.
pub fn parse_notary_key(pem: &str) -> (key: Result<Vec<u8>, NotaryKeyError>)
    ensures
        match key {
            Ok(k) => spec_notary_key_sec1(pem@) == Some(k@) && k@.len() == 65 && k@[0] == 4,
            Err(e) => e == NotaryKeyError::InvalidPublicKey && spec_notary_key_sec1(pem@) is None,
        },
{
    let parsed = notary_key_from_pem(pem);
    accept_notary_key(parsed)
}

} // verus!
