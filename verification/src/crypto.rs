//! AES-128 in CBC mode with PKCS#7 padding, under the key and IV that every
//! chat program shares, and the UTF-8 framing of chat text.
use vstd::prelude::*;
use vstd::utf8::*;
use aes::Aes128;
use block_modes::block_padding::Pkcs7;
use block_modes::{BlockMode, BlockModeError, Cbc, InvalidKeyIvLength};

verus! {

/// The AES-128 key shared by the chat client and server.
pub const KEY: [u8; 16] = [
    0x00u8, 0x01u8, 0x02u8, 0x03u8, 0x04u8, 0x05u8, 0x06u8, 0x07u8,
    0x08u8, 0x09u8, 0x0au8, 0x0bu8, 0x0cu8, 0x0du8, 0x0eu8, 0x0fu8,
];

/// The CBC initialisation vector shared by the chat client and server.
pub const IV: [u8; 16] = [
    0xf0u8, 0xf1u8, 0xf2u8, 0xf3u8, 0xf4u8, 0xf5u8, 0xf6u8, 0xf7u8,
    0xf8u8, 0xf9u8, 0xfau8, 0xfbu8, 0xfcu8, 0xfdu8, 0xfeu8, 0xffu8,
];

#[verifier::external_type_specification]
#[verifier::external_body]
pub struct ExInvalidKeyIvLength(InvalidKeyIvLength);

#[verifier::external_type_specification]
#[verifier::external_body]
pub struct ExBlockModeError(BlockModeError);

/// What `Cbc::<Aes128, Pkcs7>::encrypt_vec` returns for a key, an IV and a
/// plaintext.
pub uninterp spec fn aes128_cbc_pkcs7_encrypt(key: Seq<u8>, iv: Seq<u8>, plaintext: Seq<u8>) -> Seq<u8>;

/// What `Cbc::<Aes128, Pkcs7>::decrypt_vec` returns for a key, an IV and a
/// ciphertext: `None` where it reports a `BlockModeError`.
pub uninterp spec fn aes128_cbc_pkcs7_decrypt(key: Seq<u8>, iv: Seq<u8>, ciphertext: Seq<u8>) -> Option<Seq<u8>>;

/// Length of a PKCS#7-padded message of `n` bytes: always at least one byte of
/// padding, up to the next multiple of the block size.
pub open spec fn padded_len(n: nat) -> nat {
    ((n / 16) + 1) * 16
}

/// Calls `Cbc::<Aes128, Pkcs7>::new_from_slices` and then `encrypt_vec`.
/// Claimed, from block-modes 0.8.1 and cipher 0.3.0: construction fails
/// exactly when the key or the IV is not 16 bytes long; the ciphertext is the
/// named result and is the plaintext's length rounded up to the next multiple
/// of 16 bytes (PKCS#7 always adds at least one byte).
#[verifier::external_body]
fn cbc_encrypt_vec(key: &[u8], iv: &[u8], plaintext: &[u8]) -> (res: Result<Vec<u8>, InvalidKeyIvLength>)
    ensures
        res is Ok <==> (key@.len() == 16 && iv@.len() == 16),
        res matches Ok(ct) ==> ct@ == aes128_cbc_pkcs7_encrypt(key@, iv@, plaintext@),
        res matches Ok(ct) ==> ct@.len() == padded_len(plaintext@.len()),
{
    match Cbc::<Aes128, Pkcs7>::new_from_slices(key, iv) {
        Ok(cipher) => Ok(cipher.encrypt_vec(plaintext)),
        Err(e) => Err(e),
    }
}

/// Calls `Cbc::<Aes128, Pkcs7>::new_from_slices` and then `decrypt_vec`.
/// Claimed, from block-modes 0.8.1, block-padding 0.2.1 and cipher 0.3.0:
/// construction fails exactly when the key or the IV is not 16 bytes long;
/// decryption is the named result; it fails on a ciphertext that is empty or
/// whose length is not a multiple of 16, and otherwise yields a shorter
/// plaintext; it gives back the plaintext of any ciphertext that
/// `encrypt_vec` produced under the same key and IV. The block cipher itself
/// is left unsaid.
#[verifier::external_body]
fn cbc_decrypt_vec(key: &[u8], iv: &[u8], ciphertext: &[u8])
    -> (res: Result<Result<Vec<u8>, BlockModeError>, InvalidKeyIvLength>)
    ensures
        res is Ok <==> (key@.len() == 16 && iv@.len() == 16),
        res matches Ok(inner) ==> (match inner {
            Ok(pt) => aes128_cbc_pkcs7_decrypt(key@, iv@, ciphertext@) == Some(pt@),
            Err(_) => aes128_cbc_pkcs7_decrypt(key@, iv@, ciphertext@) is None,
        }),
        res is Ok && (ciphertext@.len() == 0 || ciphertext@.len() % 16 != 0)
            ==> aes128_cbc_pkcs7_decrypt(key@, iv@, ciphertext@) is None,
        res matches Ok(Ok(pt)) ==> pt@.len() < ciphertext@.len(),
        res is Ok ==> forall|m: Seq<u8>| ciphertext@ == #[trigger] aes128_cbc_pkcs7_encrypt(key@, iv@, m)
            ==> aes128_cbc_pkcs7_decrypt(key@, iv@, ciphertext@) == Some(m),
{
    match Cbc::<Aes128, Pkcs7>::new_from_slices(key, iv) {
        Ok(cipher) => Ok(cipher.decrypt_vec(ciphertext)),
        Err(e) => Err(e),
    }
}

/// The ciphertext that `chiffrer` sends for the text `s`.
pub open spec fn encrypted_text(s: Seq<char>) -> Seq<u8> {
    aes128_cbc_pkcs7_encrypt(KEY@, IV@, encode_utf8(s))
}

/// Encrypts a chat message: its UTF-8 bytes under the shared key and IV.
pub fn chiffrer(user_buffer: String) -> (ct: Vec<u8>)
    ensures
        ct@ == encrypted_text(user_buffer@),
        ct@.len() == padded_len(encode_utf8(user_buffer@).len()),
{
    let key = KEY;
    let iv = IV;
    let bytes: &[u8] = user_buffer.as_str().as_bytes();
    match cbc_encrypt_vec(&key, &iv, bytes) {
        Ok(ct) => ct,
        Err(_) => {
            assert(false);
            Vec::new()
        },
    }
}

/// Why a received ciphertext could not be turned back into chat text.
#[derive(Debug, Clone, Copy, PartialEq, Eq, Structural)]
pub enum DecryptError {
    /// The ciphertext is not a whole number of blocks, or its padding is malformed.
    Cipher,
    /// The plaintext is not valid UTF-8.
    Utf8,
}

/// Calls `String::from_utf8`. Claimed, from std's documentation: it fails
/// exactly when the bytes are not valid UTF-8, and otherwise the string holds
/// the characters that the bytes encode.
#[verifier::external_body]
fn string_from_utf8(bytes: Vec<u8>) -> (res: Option<String>)
    ensures
        res is Some <==> valid_utf8(bytes@),
        res matches Some(s) ==> s@ == decode_utf8(bytes@),
{
    String::from_utf8(bytes).ok()
}

/// Calls `std::str::from_utf8`. Claimed, from std's documentation: it fails
/// exactly when the bytes are not valid UTF-8, and otherwise the string slice
/// holds the characters that the bytes encode.
#[verifier::external_body]
pub(crate) fn str_from_utf8(bytes: &[u8]) -> (res: Option<&str>)
    ensures
        res is Some <==> valid_utf8(bytes@),
        res matches Some(s) ==> s@ == decode_utf8(bytes@),
{
    std::str::from_utf8(bytes).ok()
}

/// What decrypting `ct` under the shared key and IV and reading the result as
/// UTF-8 gives: the text, or the step that failed.
pub open spec fn decrypted_text(ct: Seq<u8>) -> Result<Seq<char>, DecryptError> {
    match aes128_cbc_pkcs7_decrypt(KEY@, IV@, ct) {
        None => Err(DecryptError::Cipher),
        Some(pt) => if valid_utf8(pt) {
            Ok(decode_utf8(pt))
        } else {
            Err(DecryptError::Utf8)
        },
    }
}

/// The text, or the error, that a decryption returned, as plain values.
pub open spec fn text_view(r: Result<String, DecryptError>) -> Result<Seq<char>, DecryptError> {
    match r {
        Ok(s) => Ok(s@),
        Err(e) => Err(e),
    }
}

/// Decrypts a received chat message under the shared key and IV and reads it
/// as UTF-8. It is called only on a ciphertext that decrypts to text (test it
/// with `try_dechiffrer`): such a ciphertext is a non-empty whole number of
/// blocks, longer than the text's UTF-8 bytes.
pub fn dechiffrer(client_buffer: &[u8]) -> (res: String)
    requires
        decrypted_text(client_buffer@) is Ok,
    ensures
        Ok::<Seq<char>, DecryptError>(res@) == decrypted_text(client_buffer@),
        client_buffer@.len() >= 16,
        client_buffer@.len() % 16 == 0,
        encode_utf8(res@).len() < client_buffer@.len(),
        forall|s: Seq<char>| client_buffer@ == #[trigger] encrypted_text(s) ==> res@ == s,
{
    broadcast use encode_utf8_valid_utf8, encode_utf8_decode_utf8;
    let key = KEY;
    let iv = IV;
    match cbc_decrypt_vec(&key, &iv, client_buffer) {
        Ok(Ok(pt)) => {
            let ghost bytes = pt@;
            match string_from_utf8(pt) {
                Some(s) => {
                    proof {
                        decode_utf8_encode_utf8(bytes);
                    }
                    s
                },
                None => {
                    assert(false);
                    String::new()
                },
            }
        },
        _ => {
            assert(false);
            String::new()
        },
    }
}

/// Decrypts a received chat message when it decrypts to UTF-8 text, and
/// otherwise says which step failed. Whatever `chiffrer` produced comes back
/// unchanged.
pub fn try_dechiffrer(client_buffer: &[u8]) -> (res: Result<String, DecryptError>)
    ensures
        text_view(res) == decrypted_text(client_buffer@),
        forall|s: Seq<char>| client_buffer@ == #[trigger] encrypted_text(s) ==> text_view(res) == Ok::<Seq<char>, DecryptError>(s),
{
    broadcast use encode_utf8_valid_utf8, encode_utf8_decode_utf8;
    let key = KEY;
    let iv = IV;
    match cbc_decrypt_vec(&key, &iv, client_buffer) {
        Ok(Ok(pt)) => {
            if str_from_utf8(pt.as_slice()).is_some() {
                Ok(dechiffrer(client_buffer))
            } else {
                Err(DecryptError::Utf8)
            }
        },
        Ok(Err(_)) => Err(DecryptError::Cipher),
        Err(_) => {
            assert(false);
            Err(DecryptError::Cipher)
        },
    }
}

} // verus!
