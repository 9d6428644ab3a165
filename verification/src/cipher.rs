use crate::nip04::framed;
use nostr_sdk::secp256k1::{SecretKey, XOnlyPublicKey};
use std::str::FromStr;
use vstd::prelude::*;

verus! {

/// `nostr::nips::nip04::Error`, the error of the NIP-04 functions. Nothing
/// is read from it: a value of it only tells that the call failed.
#[verifier::external_type_specification]
#[verifier::external_body]
pub struct ExCipherError(nostr_sdk::nips::nip04::Error);

/// The plaintext that NIP-04 decryption yields for a secret key, a public key
/// (both hexadecimal) and an encrypted content, or `None` where it rejects
/// them.
pub uninterp spec fn nip04_plaintext(
    secret_key: Seq<char>,
    public_key: Seq<char>,
    content: Seq<char>,
) -> Option<Seq<char>>;

/// Calls `nostr::nips::nip04::decrypt` on the keys that the two hexadecimal
/// strings spell.
///
/// The contract claims that the call is a function of its three arguments:
/// it succeeds exactly where [`nip04_plaintext`] is defined, with that text.
/// A key that cannot be read counts as a rejection. The frame is demanded
/// because the outside function aborts on an initialisation vector that is
/// not 16 bytes long.
#[verifier::external_body]
pub(crate) fn nip04_decrypt(secret_key: &str, public_key: &str, content: &str) -> (outcome: Result<
    String,
    nostr_sdk::nips::nip04::Error,
>)
    requires
        framed(content@),
    ensures
        match outcome {
            Ok(text) => nip04_plaintext(secret_key@, public_key@, content@) == Some(text@),
            Err(_) => nip04_plaintext(secret_key@, public_key@, content@) is None,
        },
{
    let secret_key = SecretKey::from_str(secret_key)?;
    let public_key = XOnlyPublicKey::from_str(public_key)?;
    nostr_sdk::nips::nip04::decrypt(&secret_key, &public_key, content)
}

} // verus!
