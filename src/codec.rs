//! The save-file container: a 16-byte IV, then the payload encrypted with
//! AES-128 in CBC mode with PKCS#7 padding, under a key derived from the
//! passphrase by PBKDF2 (HMAC-SHA-1, 100 rounds, the IV as salt). The
//! decrypted payload may itself be gzip-compressed.

use vstd::prelude::*;
use vstd::string::StringSliceAdditionalSpecFns;
use cbc::cipher::block_padding::Pkcs7;
use cbc::cipher::{BlockDecryptMut, KeyIvInit};

verus! {

pub const IV_LEN: usize = 16;

pub const KEY_LEN: usize = 16;

pub const KEY_ROUNDS: u32 = 100;

#[derive(PartialEq, Eq, Structural, Clone, Copy, Debug)]
pub enum DecryptError {
    /// The file is shorter than its IV.
    TooShort,
    /// The ciphertext is not whole blocks, or its padding is malformed.
    BadCipherText,
    /// The payload announces gzip but does not decompress.
    BadCompression,
}

/// The key PBKDF2 with HMAC-SHA-1 derives.
pub uninterp spec fn pbkdf2_sha1_of(password: Seq<u8>, salt: Seq<u8>, rounds: u32, len: usize) -> Seq<u8>;

/// What AES-128-CBC decryption with PKCS#7 unpadding gives; none where it
/// fails.
pub uninterp spec fn aes128_cbc_decrypt_of(key: Seq<u8>, iv: Seq<u8>, data: Seq<u8>) -> Option<Seq<u8>>;

/// What decompressing a gzip stream gives; none where it fails.
pub uninterp spec fn gunzip_of(data: Seq<u8>) -> Option<Seq<u8>>;

/// Relies on `pbkdf2::pbkdf2_hmac` with `sha1::Sha1`, which fills a buffer of
/// `len` bytes with the key derived from the password and salt.
#[verifier::external_body]
fn derive_key(password: &[u8], salt: &[u8], rounds: u32, len: usize) -> (r: Vec<u8>)
    ensures
        r@ == pbkdf2_sha1_of(password@, salt@, rounds, len),
        r@.len() == len,
{
    let mut key = vec![0u8; len];
    pbkdf2::pbkdf2_hmac::<sha1::Sha1>(password, salt, rounds, &mut key);
    key
}

/// Relies on `cbc::Decryptor::<aes::Aes128>`: `new_from_slices` refuses a key
/// or IV that is not 16 bytes, and `decrypt_padded_mut::<Pkcs7>` refuses data
/// that is not whole blocks or whose padding is malformed.
#[verifier::external_body]
fn aes_cbc_decrypt(key: &[u8], iv: &[u8], data: &[u8]) -> (r: Option<Vec<u8>>)
    ensures
        match r {
            Some(v) => aes128_cbc_decrypt_of(key@, iv@, data@) == Some(v@),
            None => aes128_cbc_decrypt_of(key@, iv@, data@) is None,
        },
{
    let decryptor = match cbc::Decryptor::<aes::Aes128>::new_from_slices(key, iv) {
        Ok(d) => d,
        Err(_) => return None,
    };
    let mut buf = data.to_vec();
    match decryptor.decrypt_padded_mut::<Pkcs7>(&mut buf) {
        Ok(plain) => Some(plain.to_vec()),
        Err(_) => None,
    }
}

/// Relies on `flate2::read::GzDecoder`, read to its end: the decompressed
/// bytes, or an error for a malformed stream.
#[verifier::external_body]
fn gunzip(data: &[u8]) -> (r: Option<Vec<u8>>)
    ensures
        match r {
            Some(v) => gunzip_of(data@) == Some(v@),
            None => gunzip_of(data@) is None,
        },
{
    let mut out = Vec::new();
    match std::io::Read::read_to_end(&mut flate2::read::GzDecoder::new(data), &mut out) {
        Ok(_) => Some(out),
        Err(_) => None,
    }
}

/// The payload starts with the gzip magic bytes.
pub open spec fn gzip_framed(p: Seq<u8>) -> bool {
    p.len() >= 2 && p[0] == 0x1f && p[1] == 0x8b
}

/// The IV and the ciphertext of a container; none for a file shorter than
/// its IV.
pub open spec fn container_parts(file: Seq<u8>) -> Option<(Seq<u8>, Seq<u8>)> {
    if file.len() < IV_LEN {
        None
    } else {
        Some((file.take(IV_LEN as int), file.skip(IV_LEN as int)))
    }
}

/// The payload of a decrypted container: decompressed where it is gzip.
pub open spec fn payload_of(plain: Seq<u8>) -> Result<Seq<u8>, DecryptError> {
    if gzip_framed(plain) {
        match gunzip_of(plain) {
            Some(q) => Ok(q),
            None => Err(DecryptError::BadCompression),
        }
    } else {
        Ok(plain)
    }
}

/// What decrypting a container file under a passphrase gives.
pub open spec fn es3_plaintext(file: Seq<u8>, password: Seq<u8>) -> Result<Seq<u8>, DecryptError> {
    match container_parts(file) {
        None => Err(DecryptError::TooShort),
        Some((iv, data)) => match aes128_cbc_decrypt_of(
            pbkdf2_sha1_of(password, iv, KEY_ROUNDS, KEY_LEN),
            iv,
            data,
        ) {
            None => Err(DecryptError::BadCipherText),
            Some(plain) => payload_of(plain),
        },
    }
}

/// Whether a payload is gzip-compressed.
pub fn is_gzip(p: &[u8]) -> (r: bool)
    ensures
        r == gzip_framed(p@),
{
    p.len() >= 2 && p[0] == 0x1f && p[1] == 0x8b
}

/// Splits a container into its IV and its ciphertext.
pub fn split_container(file: &[u8]) -> (r: Option<(Vec<u8>, Vec<u8>)>)
    ensures
        match container_parts(file@) {
            None => r is None,
            Some((iv, data)) => r matches Some((v, d)) && v@ == iv && d@ == data,
        },
{
    if file.len() < IV_LEN {
        return None;
    }
    let mut iv: Vec<u8> = Vec::new();
    let mut data: Vec<u8> = Vec::new();
    let mut i: usize = 0;
    while i < file.len()
        invariant
            IV_LEN <= file@.len(),
            i <= file@.len(),
            iv@ == file@.take(if i < IV_LEN { i as int } else { IV_LEN as int }),
            i <= IV_LEN ==> data@.len() == 0,
            i > IV_LEN ==> data@ == file@.subrange(IV_LEN as int, i as int),
        decreases file@.len() - i,
    {
        if i < IV_LEN {
            iv.push(file[i]);
            assert(iv@ =~= file@.take(i + 1));
        } else {
            data.push(file[i]);
            assert(data@ =~= file@.subrange(IV_LEN as int, i + 1));
        }
        i = i + 1;
    }
    assert(data@ =~= file@.skip(IV_LEN as int));
    Some((iv, data))
}

/// The payload of a decrypted container, decompressed where it is gzip.
pub fn decode_payload(plain: Vec<u8>) -> (r: Result<Vec<u8>, DecryptError>)
    ensures
        match payload_of(plain@) {
            Ok(q) => r matches Ok(v) && v@ == q,
            Err(e) => r == Err::<Vec<u8>, DecryptError>(e),
        },
{
    if is_gzip(plain.as_slice()) {
        match gunzip(plain.as_slice()) {
            Some(q) => Ok(q),
            None => Err(DecryptError::BadCompression),
        }
    } else {
        Ok(plain)
    }
}

/// Decrypts the content of a save file under the passphrase.
pub fn decrypt_es3(file: &[u8], password: &str) -> (r: Result<Vec<u8>, DecryptError>)
    ensures
        match es3_plaintext(file@, password.spec_bytes()) {
            Ok(q) => r matches Ok(v) && v@ == q,
            Err(e) => r == Err::<Vec<u8>, DecryptError>(e),
        },
{
    let (iv, data) = match split_container(file) {
        None => return Err(DecryptError::TooShort),
        Some(parts) => parts,
    };
    let key = derive_key(password.as_bytes(), iv.as_slice(), KEY_ROUNDS, KEY_LEN);
    match aes_cbc_decrypt(key.as_slice(), iv.as_slice(), data.as_slice()) {
        None => Err(DecryptError::BadCipherText),
        Some(plain) => decode_payload(plain),
    }
}

impl DecryptError {
    /// The error as text.
    pub fn message(&self) -> (r: &'static str)
        ensures
            r@ == match self {
                DecryptError::TooShort => "file is shorter than its IV"@,
                DecryptError::BadCipherText => "ciphertext or padding is malformed"@,
                DecryptError::BadCompression => "payload does not decompress"@,
            },
    {
        match self {
            DecryptError::TooShort => "file is shorter than its IV",
            DecryptError::BadCipherText => "ciphertext or padding is malformed",
            DecryptError::BadCompression => "payload does not decompress",
        }
    }
}

} // verus!
