use crate::cipher::{nip04_decrypt, nip04_plaintext};
use crate::error::{SyncError, SyncErrorView};
use crate::event::{SharedKey, SharedKeyView};
use vstd::prelude::*;
use vstd::string::*;

verus! {

/// Number of characters of the separator and the initialisation vector.
pub const FRAME_LENGTH: usize = 28;

/// A character of the standard base64 alphabet, padding excluded.
pub open spec fn is_base64_symbol(c: char) -> bool {
    ||| 'A' <= c <= 'Z'
    ||| 'a' <= c <= 'z'
    ||| '0' <= c <= '9'
    ||| c == '+'
    ||| c == '/'
}

/// Whether `content` ends in `?iv=` followed by the canonical spelling of a
/// 16-byte initialisation vector: 22 base64 symbols and two padding signs.
pub open spec fn framed(content: Seq<char>) -> bool {
    let start = content.len() - FRAME_LENGTH;
    &&& content.len() >= FRAME_LENGTH
    &&& content[start] == '?'
    &&& content[start + 1] == 'i'
    &&& content[start + 2] == 'v'
    &&& content[start + 3] == '='
    &&& forall|i: int| start + 4 <= i < content.len() - 2 ==> is_base64_symbol(#[trigger] content[i])
    &&& content[content.len() - 2] == '='
    &&& content[content.len() - 1] == '='
}

/// Tells whether `c` belongs to the standard base64 alphabet.
pub fn base64_symbol(c: char) -> (yes: bool)
    ensures
        yes == is_base64_symbol(c),
{
    (c >= 'A' && c <= 'Z') || (c >= 'a' && c <= 'z') || (c >= '0' && c <= '9') || c == '+'
        || c == '/'
}

/// Checks the frame of an encrypted content.
pub fn is_framed(content: &str) -> (yes: bool)
    ensures
        yes == framed(content@),
{
    let length = content.unicode_len();
    if length < FRAME_LENGTH {
        return false;
    }
    let start = length - FRAME_LENGTH;
    if content.get_char(start) != '?' || content.get_char(start + 1) != 'i' || content.get_char(
        start + 2,
    ) != 'v' || content.get_char(start + 3) != '=' {
        return false;
    }
    if content.get_char(length - 2) != '=' || content.get_char(length - 1) != '=' {
        return false;
    }
    let mut index = start + 4;
    while index < length - 2
        invariant
            length == content@.len(),
            length >= FRAME_LENGTH,
            start == length - FRAME_LENGTH,
            start + 4 <= index <= length - 2,
            forall|i: int| start + 4 <= i < index ==> is_base64_symbol(#[trigger] content@[i]),
        decreases length - index,
    {
        if !base64_symbol(content.get_char(index)) {
            return false;
        }
        index = index + 1;
    }
    true
}

/// What decrypting `content` under `key` gives.
pub open spec fn decrypted(key: SharedKeyView, content: Seq<char>) -> Result<Seq<char>, SyncErrorView> {
    match key.secret_key {
        None => Err(SyncErrorView::MissingSecretKey),
        Some(secret) => if !framed(content) {
            Err(SyncErrorView::InvalidContent)
        } else {
            match nip04_plaintext(secret, key.public_key, content) {
                Some(text) => Ok(text),
                None => Err(SyncErrorView::Decrypt),
            }
        },
    }
}

/// Spells out the view of a decryption outcome.
pub open spec fn outcome_view(outcome: Result<String, SyncError>) -> Result<Seq<char>, SyncErrorView> {
    match outcome {
        Ok(text) => Ok(text@),
        Err(e) => Err(e@),
    }
}

/// Opens the encrypted content of a policy event with its shared key.
///
/// Fails without calling the cipher where the key has no secret part or the
/// content is not framed; otherwise the cipher decides.
pub fn decrypt_content(key: &SharedKey, content: &str) -> (outcome: Result<String, SyncError>)
    ensures
        outcome_view(outcome) == decrypted(key@, content@),
{
    match &key.secret_key {
        None => Err(SyncError::MissingSecretKey),
        Some(secret) => {
            if !is_framed(content) {
                Err(SyncError::InvalidContent)
            } else {
                match nip04_decrypt(secret.as_str(), key.public_key.as_str(), content) {
                    Ok(text) => Ok(text),
                    Err(_) => Err(SyncError::Decrypt),
                }
            }
        },
    }
}

} // verus!
