//! Sealed text: a value encrypted with XChaCha20-Poly1305 and written as
//! one line of text.
//!
//! A sealed text is the prefix `v1:` followed by the standard base64 of a
//! blob: one version byte, the 24-byte nonce, and the ciphertext with its
//! 16-byte tag.

use vstd::prelude::*;
use vstd::slice::slice_subrange;
use vstd::string::StringExecFns;
use vstd::utf8::{decode_utf8, encode_utf8, valid_utf8};
use crate::shared::text::{is_ascii_graphic, stands_trimmed, strip_prefix, trim, trimmed};

verus! {

/// The version byte of a sealed blob.
pub const ENC_VERSION: u8 = 1;

/// The number of bytes of a nonce.
pub const NONCE_LEN: usize = 24;

/// The number of bytes of an authentication tag.
pub const TAG_LEN: usize = 16;

/// The number of bytes of a key.
pub const KEY_LEN: usize = 32;

/// Why a value could not be sealed or opened.
#[derive(Debug, Clone, Copy, PartialEq, Eq)]
pub enum CryptoError {
    /// The environment variable that holds the key is not set.
    MissingKey(&'static str),
    /// The key is not the base64 of 32 bytes.
    InvalidKey,
    /// The text is not a sealed text.
    InvalidFormat,
    /// The ciphertext was not made with this key and this associated data,
    /// or was changed.
    DecryptFailed,
    EncryptFailed,
}

/// A 32-byte key for XChaCha20-Poly1305.
pub struct EncryptionKey {
    bytes: [u8; 32],
}

impl View for EncryptionKey {
    type V = Seq<u8>;

    closed spec fn view(&self) -> Seq<u8> {
        self.bytes@
    }
}

/// The standard base64 text of `bytes`, with padding.
pub uninterp spec fn base64_encoded(bytes: Seq<u8>) -> Seq<char>;

/// The bytes that a standard base64 text stands for; none where the text is
/// not base64.
pub uninterp spec fn base64_decoded(text: Seq<char>) -> Option<Seq<u8>>;

/// The ciphertext and tag that XChaCha20-Poly1305 makes of `message` under
/// `key`, `nonce` and the associated data `aad`; none where the message is
/// too long to be sealed.
pub uninterp spec fn xchacha20poly1305_sealed(
    key: Seq<u8>,
    nonce: Seq<u8>,
    aad: Seq<u8>,
    message: Seq<u8>,
) -> Option<Seq<u8>>;

/// The message that XChaCha20-Poly1305 recovers from `sealed` under `key`,
/// `nonce` and the associated data `aad`; none where the tag does not fit.
pub uninterp spec fn xchacha20poly1305_opened(
    key: Seq<u8>,
    nonce: Seq<u8>,
    aad: Seq<u8>,
    sealed: Seq<u8>,
) -> Option<Seq<u8>>;

/// Calls `Engine::encode` of base64's `STANDARD` engine. The contract names
/// the text and claims of it what the encoding gives: four visible ASCII
/// characters for every three bytes begun, and a text that decodes to the
/// bytes again.
#[verifier::external_body]
fn base64_encode(bytes: &[u8]) -> (text: String)
    requires
        bytes@.len() / 3 * 4 + 4 <= usize::MAX,
    ensures
        text@ == base64_encoded(bytes@),
        text@.len() == (bytes@.len() + 2) / 3 * 4,
        forall|i: int| 0 <= i < text@.len() ==> is_ascii_graphic(#[trigger] text@[i]),
        base64_decoded(text@) == Some(bytes@),
{
    base64::Engine::encode(&base64::engine::general_purpose::STANDARD, bytes)
}

/// Calls `Engine::decode` of base64's `STANDARD` engine. The contract names
/// the bytes.
#[verifier::external_body]
fn base64_decode(text: &str) -> (bytes: Option<Vec<u8>>)
    ensures
        match bytes {
            Some(b) => base64_decoded(text@) == Some(b@),
            None => base64_decoded(text@) is None,
        },
{
    base64::Engine::decode(&base64::engine::general_purpose::STANDARD, text).ok()
}

/// Calls `try_fill_bytes` of the operating system's random source on 24
/// bytes. Nothing is known of the bytes; none where the source fails.
#[verifier::external_body]
fn random_nonce() -> (nonce: Option<[u8; 24]>) {
    let mut bytes = [0u8; 24];
    match rand::RngCore::try_fill_bytes(&mut rand::rngs::OsRng, &mut bytes) {
        Ok(_) => Some(bytes),
        Err(_) => None,
    }
}

/// Calls `XChaCha20Poly1305::new` and `Aead::encrypt`. The contract names
/// the result and claims of it what the construction gives: the ciphertext
/// is as long as the message, the tag adds sixteen bytes, and what was
/// sealed opens again under the same key, nonce and associated data.
#[verifier::external_body]
fn seal(key: &[u8; 32], nonce: &[u8; 24], aad: &[u8], message: &[u8]) -> (sealed: Option<Vec<u8>>)
    ensures
        match sealed {
            Some(s) => xchacha20poly1305_sealed(key@, nonce@, aad@, message@) == Some(s@)
                && s@.len() == message@.len() + TAG_LEN && xchacha20poly1305_opened(
                key@,
                nonce@,
                aad@,
                s@,
            ) == Some(message@),
            None => xchacha20poly1305_sealed(key@, nonce@, aad@, message@) is None,
        },
{
    let cipher = <chacha20poly1305::XChaCha20Poly1305 as chacha20poly1305::KeyInit>::new(
        chacha20poly1305::Key::from_slice(key),
    );
    let payload = chacha20poly1305::aead::Payload { msg: message, aad };
    let nonce = chacha20poly1305::XNonce::from_slice(nonce);
    chacha20poly1305::aead::Aead::encrypt(&cipher, nonce, payload).ok()
}

/// Calls `XChaCha20Poly1305::new` and `Aead::decrypt`. The contract names
/// the result.
#[verifier::external_body]
fn open(key: &[u8; 32], nonce: &[u8], aad: &[u8], sealed: &[u8]) -> (message: Option<Vec<u8>>)
    requires
        nonce@.len() == NONCE_LEN,
    ensures
        match message {
            Some(m) => xchacha20poly1305_opened(key@, nonce@, aad@, sealed@) == Some(m@),
            None => xchacha20poly1305_opened(key@, nonce@, aad@, sealed@) is None,
        },
{
    let cipher = <chacha20poly1305::XChaCha20Poly1305 as chacha20poly1305::KeyInit>::new(
        chacha20poly1305::Key::from_slice(key),
    );
    let payload = chacha20poly1305::aead::Payload { msg: sealed, aad };
    let nonce = chacha20poly1305::XNonce::from_slice(nonce);
    chacha20poly1305::aead::Aead::decrypt(&cipher, nonce, payload).ok()
}

/// Calls `Zeroize::zeroize` on a vector of bytes: every byte is overwritten
/// with zero and the vector is left empty.
#[verifier::external_body]
fn wipe(bytes: &mut Vec<u8>)
    ensures
        final(bytes)@.len() == 0,
{
    zeroize::Zeroize::zeroize(bytes);
}

/// Calls `Zeroize::zeroize` on the 32 bytes of a key: every byte is
/// overwritten with zero.
#[verifier::external_body]
fn wipe_key(bytes: &mut [u8; 32])
    ensures
        forall|i: int| 0 <= i < 32 ==> final(bytes)@[i] == 0,
    opens_invariants none
    no_unwind
{
    zeroize::Zeroize::zeroize(bytes);
}

/// Calls `String::from_utf8`. The contract claims what the documentation
/// says: the text that the bytes encode, and none where they encode none.
#[verifier::external_body]
fn text_of_utf8(bytes: Vec<u8>) -> (text: Option<String>)
    ensures
        match text {
            Some(t) => valid_utf8(bytes@) && t@ == decode_utf8(bytes@),
            None => !valid_utf8(bytes@),
        },
{
    String::from_utf8(bytes).ok()
}

impl Drop for EncryptionKey {
    /// Wipes the key when it goes out of use.
    fn drop(&mut self)
        ensures
            forall|i: int| 0 <= i < KEY_LEN ==> final(self)@[i] == 0,
        opens_invariants none
        no_unwind
    {
        wipe_key(&mut self.bytes);
    }
}

impl EncryptionKey {
    /// The key made of `bytes`.
    pub fn from_bytes(bytes: [u8; 32]) -> (key: EncryptionKey)
        ensures
            key@ == bytes@,
    {
        EncryptionKey { bytes }
    }

    /// What [`EncryptionKey::from_env_b64`] makes of the value of the
    /// variable `var`: the 32 bytes that the trimmed value is the base64 of.
    pub open spec fn from_env_b64_spec(var: &'static str, raw: Option<Seq<char>>) -> Result<
        Seq<u8>,
        CryptoError,
    > {
        match raw {
            None => Err(CryptoError::MissingKey(var)),
            Some(text) => match base64_decoded(trimmed(text)) {
                Some(bytes) => if bytes.len() == KEY_LEN {
                    Ok(bytes)
                } else {
                    Err(CryptoError::InvalidKey)
                },
                None => Err(CryptoError::InvalidKey),
            },
        }
    }

    /// Reads a key from the value of the environment variable `var`: the
    /// base64 of 32 bytes, or nothing where the variable is not set. The
    /// decoded bytes are wiped once the key holds them.
    pub fn from_env_b64(var: &'static str, raw: Option<&str>) -> (r: Result<
        EncryptionKey,
        CryptoError,
    >)
        ensures
            match r {
                Ok(key) => Self::from_env_b64_spec(var, raw.deep_view()) == Ok::<
                    Seq<u8>,
                    CryptoError,
                >(key@),
                Err(e) => Self::from_env_b64_spec(var, raw.deep_view()) == Err::<
                    Seq<u8>,
                    CryptoError,
                >(e),
            },
    {
        let raw = match raw {
            Some(raw) => raw,
            None => return Err(CryptoError::MissingKey(var)),
        };
        let mut bytes = match base64_decode(trim(raw)) {
            Some(bytes) => bytes,
            None => return Err(CryptoError::InvalidKey),
        };
        if bytes.len() != 32 {
            wipe(&mut bytes);
            return Err(CryptoError::InvalidKey);
        }
        let mut k: [u8; 32] = [0u8; 32];
        let mut i: usize = 0;
        while i < 32
            invariant
                i <= 32,
                bytes@.len() == 32,
                forall|j: int| 0 <= j < i ==> k@[j] == bytes@[j],
            decreases 32 - i,
        {
            k[i] = bytes[i];
            i += 1;
        }
        assert(k@ =~= bytes@);
        wipe(&mut bytes);
        Ok(EncryptionKey { bytes: k })
    }
}

/// The blob of a sealed value: the version byte, the nonce, the ciphertext
/// with its tag.
pub open spec fn blob_of(nonce: Seq<u8>, sealed: Seq<u8>) -> Seq<u8> {
    seq![ENC_VERSION] + nonce + sealed
}

/// The sealed text of `plaintext` under `key`, `aad` and `nonce`; none
/// where the message cannot be sealed.
pub open spec fn sealed_text(key: Seq<u8>, nonce: Seq<u8>, aad: Seq<u8>, plaintext: Seq<u8>)
    -> Option<Seq<char>> {
    match xchacha20poly1305_sealed(key, nonce, aad, plaintext) {
        Some(sealed) => Some("v1:"@ + base64_encoded(blob_of(nonce, sealed))),
        None => None,
    }
}

/// What a text opens to under `key` and `aad`, taken as it stands.
///
/// It must start with `v1:`; what follows must be the base64 of a blob of
/// at least 41 bytes whose first byte is the version. The next 24 bytes are
/// the nonce, the rest is the ciphertext with its tag.
pub open spec fn opened_as_it_stands(key: Seq<u8>, aad: Seq<u8>, s: Seq<char>) -> Result<
    Seq<u8>,
    CryptoError,
> {
    if !"v1:"@.is_prefix_of(s) {
        Err(CryptoError::InvalidFormat)
    } else {
        match base64_decoded(s.skip(3)) {
            None => Err(CryptoError::InvalidFormat),
            Some(blob) => if blob.len() < 1 + NONCE_LEN + TAG_LEN {
                Err(CryptoError::InvalidFormat)
            } else if blob[0] != ENC_VERSION {
                Err(CryptoError::InvalidFormat)
            } else {
                match xchacha20poly1305_opened(
                    key,
                    blob.subrange(1, 1 + NONCE_LEN as int),
                    aad,
                    blob.skip(1 + NONCE_LEN as int),
                ) {
                    Some(plaintext) => Ok(plaintext),
                    None => Err(CryptoError::DecryptFailed),
                }
            },
        }
    }
}

/// What a sealed text opens to under `key` and `aad`: white space around it
/// is ignored.
pub open spec fn opened_text(key: Seq<u8>, aad: Seq<u8>, enc: Seq<char>) -> Result<
    Seq<u8>,
    CryptoError,
> {
    opened_as_it_stands(key, aad, trimmed(enc))
}

/// Seals bytes under a given nonce into one line of text.
///
/// The text is the sealed text of the bytes under that nonce, and nothing
/// else. It begins and ends with a visible character, and it opens again to
/// the bytes under the same key and the same `aad`.
pub fn seal_text(key: &EncryptionKey, nonce: &[u8; 24], aad: &[u8], plaintext: &[u8]) -> (r: Result<
    String,
    CryptoError,
>)
    requires
        plaintext@.len() + 64 <= usize::MAX / 2,
    ensures
        match sealed_text(key@, nonce@, aad@, plaintext@) {
            Some(sealed) => r matches Ok(text) && text@ == sealed,
            None => r == Err::<String, CryptoError>(CryptoError::EncryptFailed),
        },
        r matches Ok(text) ==> stands_trimmed(text@) && opened_as_it_stands(key@, aad@, text@)
            == Ok::<Seq<u8>, CryptoError>(plaintext@),
{
    let ciphertext = match seal(&key.bytes, nonce, aad, plaintext) {
        Some(ciphertext) => ciphertext,
        None => return Err(CryptoError::EncryptFailed),
    };
    let mut blob: Vec<u8> = Vec::with_capacity(1 + NONCE_LEN + ciphertext.len());
    blob.push(ENC_VERSION);
    let mut i: usize = 0;
    while i < NONCE_LEN
        invariant
            i <= NONCE_LEN,
            blob@ == seq![ENC_VERSION] + nonce@.subrange(0, i as int),
        decreases NONCE_LEN - i,
    {
        blob.push(nonce[i]);
        assert(blob@ =~= seq![ENC_VERSION] + nonce@.subrange(0, i + 1));
        i += 1;
    }
    assert(nonce@.subrange(0, NONCE_LEN as int) =~= nonce@);
    let mut j: usize = 0;
    while j < ciphertext.len()
        invariant
            j <= ciphertext.len(),
            blob@ == seq![ENC_VERSION] + nonce@ + ciphertext@.subrange(0, j as int),
        decreases ciphertext.len() - j,
    {
        blob.push(ciphertext[j]);
        assert(blob@ =~= seq![ENC_VERSION] + nonce@ + ciphertext@.subrange(0, j + 1));
        j += 1;
    }
    assert(ciphertext@.subrange(0, ciphertext@.len() as int) =~= ciphertext@);
    let encoded = base64_encode(blob.as_slice());
    let mut text = String::from_str("v1:");
    text.append(encoded.as_str());
    proof {
        reveal_strlit("v1:");
        assert(blob@.len() == 1 + NONCE_LEN + ciphertext@.len());
        assert(encoded@.len() > 0);
        assert(text@.subrange(0, 3) =~= "v1:"@);
        assert("v1:"@.is_prefix_of(text@));
        assert(text@.skip(3) =~= encoded@);
        assert(text@.last() == encoded@.last());
        assert(blob@[0] == ENC_VERSION);
        assert(blob@.subrange(1, 1 + NONCE_LEN as int) =~= nonce@);
        assert(blob@.skip(1 + NONCE_LEN as int) =~= ciphertext@);
    }
    Ok(text)
}

/// Seals bytes into one line of text that can be stored. Every call draws a
/// fresh nonce, so sealing the same bytes twice gives two texts.
///
/// `aad` is data that the text is bound to without holding it: opening
/// needs the same `aad`.
pub fn encrypt_to_string(key: &EncryptionKey, aad: &[u8], plaintext: &[u8]) -> (r: Result<
    String,
    CryptoError,
>)
    requires
        plaintext@.len() + 64 <= usize::MAX / 2,
    ensures
        match r {
            Ok(text) => {
                &&& exists|nonce: Seq<u8>|
                    nonce.len() == NONCE_LEN && #[trigger] sealed_text(
                        key@,
                        nonce,
                        aad@,
                        plaintext@,
                    ) == Some(text@)
                &&& stands_trimmed(text@)
                &&& opened_as_it_stands(key@, aad@, text@) == Ok::<Seq<u8>, CryptoError>(
                    plaintext@,
                )
            },
            Err(e) => e == CryptoError::EncryptFailed,
        },
{
    let nonce_bytes = match random_nonce() {
        Some(nonce) => nonce,
        None => return Err(CryptoError::EncryptFailed),
    };
    let r = seal_text(key, &nonce_bytes, aad, plaintext);
    proof {
        if r is Ok {
            assert(sealed_text(key@, nonce_bytes@, aad@, plaintext@) == Some(r->Ok_0@));
        }
    }
    r
}

/// Opens a sealed text. It opens only under the key and the `aad` that it
/// was sealed with.
pub fn decrypt_from_string(key: &EncryptionKey, aad: &[u8], enc: &str) -> (r: Result<
    Vec<u8>,
    CryptoError,
>)
    ensures
        match r {
            Ok(plaintext) => opened_text(key@, aad@, enc@) == Ok::<Seq<u8>, CryptoError>(
                plaintext@,
            ),
            Err(e) => opened_text(key@, aad@, enc@) == Err::<Seq<u8>, CryptoError>(e),
        },
        stands_trimmed(enc@) ==> opened_text(key@, aad@, enc@) == opened_as_it_stands(
            key@,
            aad@,
            enc@,
        ),
{
    let s = trim(enc);
    proof {
        reveal_strlit("v1:");
    }
    let b64 = match strip_prefix(s, "v1:") {
        Some(rest) => rest,
        None => return Err(CryptoError::InvalidFormat),
    };
    assert(b64@ =~= s@.skip(3));
    assert("v1:"@.is_prefix_of(s@)) by {
        assert(s@.subrange(0, 3) =~= "v1:"@);
    }
    let blob = match base64_decode(b64) {
        Some(blob) => blob,
        None => return Err(CryptoError::InvalidFormat),
    };
    if blob.len() < 1 + NONCE_LEN + TAG_LEN {
        return Err(CryptoError::InvalidFormat);
    }
    if blob[0] != ENC_VERSION {
        return Err(CryptoError::InvalidFormat);
    }
    let nonce = slice_subrange(blob.as_slice(), 1, 1 + NONCE_LEN);
    let ciphertext = slice_subrange(blob.as_slice(), 1 + NONCE_LEN, blob.len());
    assert(ciphertext@ =~= blob@.skip(1 + NONCE_LEN as int));
    match open(&key.bytes, nonce, aad, ciphertext) {
        Some(plaintext) => Ok(plaintext),
        None => Err(CryptoError::DecryptFailed),
    }
}

/// Seals a text.
pub fn encrypt_string(key: &EncryptionKey, aad: &[u8], plain: &str) -> (r: Result<
    String,
    CryptoError,
>)
    requires
        encode_utf8(plain@).len() + 64 <= usize::MAX / 2,
    ensures
        match r {
            Ok(text) => {
                &&& exists|nonce: Seq<u8>|
                    nonce.len() == NONCE_LEN && #[trigger] sealed_text(
                        key@,
                        nonce,
                        aad@,
                        encode_utf8(plain@),
                    ) == Some(text@)
                &&& stands_trimmed(text@)
                &&& opened_as_it_stands(key@, aad@, text@) == Ok::<Seq<u8>, CryptoError>(
                    encode_utf8(plain@),
                )
            },
            Err(e) => e == CryptoError::EncryptFailed,
        },
{
    encrypt_to_string(key, aad, plain.as_bytes())
}

/// What [`decrypt_to_string`] gives: what the sealed text opens to, read as
/// UTF-8.
pub open spec fn opened_string(key: Seq<u8>, aad: Seq<u8>, enc: Seq<char>) -> Result<
    Seq<char>,
    CryptoError,
> {
    match opened_text(key, aad, enc) {
        Err(e) => Err(e),
        Ok(bytes) => if valid_utf8(bytes) {
            Ok(decode_utf8(bytes))
        } else {
            Err(CryptoError::InvalidFormat)
        },
    }
}

/// Opens a sealed text that holds a text.
pub fn decrypt_to_string(key: &EncryptionKey, aad: &[u8], enc: &str) -> (r: Result<
    String,
    CryptoError,
>)
    ensures
        match r {
            Ok(text) => opened_string(key@, aad@, enc@) == Ok::<Seq<char>, CryptoError>(text@),
            Err(e) => opened_string(key@, aad@, enc@) == Err::<Seq<char>, CryptoError>(e),
        },
{
    match decrypt_from_string(key, aad, enc) {
        Err(e) => Err(e),
        Ok(bytes) => match text_of_utf8(bytes) {
            Some(text) => Ok(text),
            None => Err(CryptoError::InvalidFormat),
        },
    }
}

} // verus!
