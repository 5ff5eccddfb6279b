//! The ephemeral wrapping key pair (RSA with OAEP over SHA-256) and the
//! authenticated cipher (AES-256-GCM) that protects the secret payload.

use vstd::prelude::*;
use vstd::slice::slice_to_vec;
use crate::error::AgentError;
use crate::encoding::{base64_bytes, base64_encode, base64_fits, base64_text, fits_base64};

verus! {

/// Length of an AES-256 key in bytes.
pub const AES_KEY_LEN: usize = 32;

/// Length of the AES-GCM initialization vector in bytes.
pub const AES_IV_LEN: usize = 12;

/// Length of the AES-GCM integrity tag in bytes.
pub const AES_TAG_LEN: usize = 16;

/// The longest plaintext, in bytes, that AES-GCM encrypts under one
/// initialization vector.
pub const AES_MAX_PLAINTEXT_LEN: u64 = 0x10_0000_0000;

/// The bytes that OAEP over SHA-256 adds to a message: twice the hash's
/// length and two more.
pub const OAEP_SHA256_OVERHEAD: usize = 66;

/// The length in bytes of the modulus of the public key with the given
/// PKCS#1 DER encoding; `None` where the bytes hold no key that is accepted.
pub uninterp spec fn rsa_public_size(public_der: Seq<u8>) -> Option<usize>;

/// What OAEP decryption (SHA-256 for the hash and the mask, no label) under the
/// private key with the given PKCS#1 DER encoding makes of a ciphertext:
/// the message, or `None` where the key or the ciphertext is refused.
pub uninterp spec fn rsa_oaep_sha256_open(private_der: Seq<u8>, ciphertext: Seq<u8>) -> Option<
    Seq<u8>,
>;

/// The ciphertext and tag that AES-256-GCM, without associated data, gives
/// for a key, an initialization vector and a plaintext; `None` where the
/// plaintext is too long.
pub uninterp spec fn aes256_gcm_seal(key: Seq<u8>, iv: Seq<u8>, plaintext: Seq<u8>) -> Option<
    (Seq<u8>, Seq<u8>),
>;

/// The plaintext that AES-256-GCM, without associated data, recovers from a
/// ciphertext and its tag; `None` where the tag does not fit.
pub uninterp spec fn aes256_gcm_open(
    key: Seq<u8>,
    iv: Seq<u8>,
    ciphertext: Seq<u8>,
    tag: Seq<u8>,
) -> Option<Seq<u8>>;

/// Whether a wrapping key of this many bits may be generated.
pub open spec fn valid_key_bits(bits: usize) -> bool {
    bits == 2048 || bits == 3072 || bits == 4096
}

/// What a cryptographic operation's outcome becomes for the caller: the
/// bytes, or `CryptoError`.
pub open spec fn crypto_outcome_spec(outcome: Option<Seq<u8>>) -> Result<Seq<u8>, AgentError> {
    match outcome {
        Some(bytes) => Ok(bytes),
        None => Err(AgentError::CryptoError),
    }
}

/// A `Result` of bytes seen through the view of its bytes.
pub open spec fn bytes_result_view(r: Result<Vec<u8>, AgentError>) -> Result<Seq<u8>, AgentError> {
    match r {
        Ok(v) => Ok(v@),
        Err(e) => Err(e),
    }
}

/// What authenticated decryption owes: the plaintext where key, initialization
/// vector and tag have their lengths and the tag fits, nothing otherwise.
pub open spec fn aes_decrypt_spec(key: Seq<u8>, iv: Seq<u8>, ciphertext: Seq<u8>, tag: Seq<u8>)
    -> Option<Seq<u8>> {
    if key.len() == AES_KEY_LEN && iv.len() == AES_IV_LEN && tag.len() == AES_TAG_LEN {
        aes256_gcm_open(key, iv, ciphertext, tag)
    } else {
        None
    }
}

/// Whether a message can be encrypted to a public key: the key is one, and
/// its modulus has room for the message and the padding.
pub open spec fn rsa_encrypt_accepts(public_der: Seq<u8>, message: Seq<u8>) -> bool {
    rsa_public_size(public_der) matches Some(size) && message.len() + OAEP_SHA256_OVERHEAD <= size
}

/// Whether authenticated encryption accepts these lengths.
pub open spec fn aes_encrypt_accepts(key: Seq<u8>, iv: Seq<u8>, plaintext: Seq<u8>) -> bool {
    key.len() == AES_KEY_LEN && iv.len() == AES_IV_LEN && plaintext.len() <= AES_MAX_PLAINTEXT_LEN
}

/// Generates a key with `RsaPrivateKey::new` of the rsa crate from the
/// thread's random generator, and encodes it and its public half as PKCS#1
/// DER. Trusted: the key is random and the generation may fail, which
/// becomes `None`, as does a failed encoding; but a key that comes back has
/// a modulus of exactly the bits asked for (the generator draws again until
/// it has), and its public encoding holds that modulus.
#[verifier::external_body]
fn rsa_generate(bits: usize) -> (pair: Option<(Vec<u8>, Vec<u8>)>)
    requires
        valid_key_bits(bits),
    ensures
        pair matches Some((public_der, _)) ==> rsa_public_size(public_der@) == Some(
            (bits / 8) as usize,
        ),
{
    let private_key = rsa::RsaPrivateKey::new(&mut rand::thread_rng(), bits).ok()?;
    let public_key = rsa::RsaPublicKey::from(&private_key);
    let public_der = rsa::pkcs1::EncodeRsaPublicKey::to_pkcs1_der(&public_key).ok()?;
    let private_der = rsa::pkcs1::EncodeRsaPrivateKey::to_pkcs1_der(&private_key).ok()?;
    Some((public_der.as_bytes().to_vec(), private_der.as_bytes().to_vec()))
}

/// Calls `RsaPublicKey::encrypt` of the rsa crate with OAEP over SHA-256 and
/// the thread's random generator, on the key that the PKCS#1 DER bytes hold.
/// Trusted: the ciphertext is random, so it has no name; but the call
/// succeeds exactly where the bytes hold a key and the message is no longer
/// than the modulus less the padding, and the ciphertext is as long as the
/// modulus. A key that is not read or a refused message becomes `None`. The
/// crate adds the padding's length to the message's unchecked, so a message
/// for which that sum overflows is left out.
#[verifier::external_body]
fn rsa_oaep_seal(public_der: &[u8], message: &[u8]) -> (ciphertext: Option<Vec<u8>>)
    requires
        message@.len() + OAEP_SHA256_OVERHEAD <= usize::MAX,
    ensures
        ciphertext is Some <==> rsa_encrypt_accepts(public_der@, message@),
        ciphertext matches Some(c) ==> (rsa_public_size(public_der@) matches Some(size)
            && c@.len() == size),
{
    let public_key = <rsa::RsaPublicKey as rsa::pkcs1::DecodeRsaPublicKey>::from_pkcs1_der(
        public_der,
    ).ok()?;
    public_key.encrypt(&mut rand::thread_rng(), rsa::Oaep::new::<rsa::sha2::Sha256>(), message).ok()
}

/// Calls `RsaPrivateKey::decrypt` of the rsa crate with OAEP over SHA-256, on
/// the key that the PKCS#1 DER bytes hold. Trusted: the outcome is a function
/// of the key's encoding and the ciphertext alone (this entry point uses no
/// blinding); a key that does not parse or a refused ciphertext becomes `None`.
#[verifier::external_body]
fn rsa_oaep_open(private_der: &[u8], ciphertext: &[u8]) -> (message: Option<Vec<u8>>)
    ensures
        match rsa_oaep_sha256_open(private_der@, ciphertext@) {
            Some(m) => message matches Some(v) && v@ == m,
            None => message is None,
        },
{
    let private_key = <rsa::RsaPrivateKey as rsa::pkcs1::DecodeRsaPrivateKey>::from_pkcs1_der(
        private_der,
    ).ok()?;
    private_key.decrypt(rsa::Oaep::new::<rsa::sha2::Sha256>(), ciphertext).ok()
}

/// Calls `encrypt_in_place_detached` of the aes-gcm crate's `Aes256Gcm`, with
/// empty associated data. Trusted: ciphertext and tag are a function of key,
/// initialization vector and plaintext; the call is refused exactly for a
/// plaintext above the mode's limit, and then leaves the buffer as it was;
/// the ciphertext is as long as the plaintext, the tag has 16 bytes, and
/// decryption of the two under the same key and vector gives the plaintext,
/// while decryption of the ciphertext with any other tag of 16 bytes is
/// refused (decryption computes the tag anew and compares).
#[verifier::external_body]
fn aes_gcm_seal_in_place(key: &[u8], iv: &[u8], buffer: &mut Vec<u8>) -> (tag: Option<Vec<u8>>)
    requires
        key@.len() == AES_KEY_LEN,
        iv@.len() == AES_IV_LEN,
    ensures
        match aes256_gcm_seal(key@, iv@, old(buffer)@) {
            Some((c, t)) => tag matches Some(v) && v@ == t && final(buffer)@ == c,
            None => tag is None && final(buffer)@ == old(buffer)@,
        },
        tag is Some <==> old(buffer)@.len() <= AES_MAX_PLAINTEXT_LEN,
        tag matches Some(v) ==> {
            &&& v@.len() == AES_TAG_LEN
            &&& final(buffer)@.len() == old(buffer)@.len()
            &&& aes256_gcm_open(key@, iv@, final(buffer)@, v@) == Some(old(buffer)@)
            &&& forall|other: Seq<u8>|
                other.len() == AES_TAG_LEN && other != v@ ==> (#[trigger] aes256_gcm_open(
                    key@,
                    iv@,
                    final(buffer)@,
                    other,
                )) is None
        },
{
    let cipher = <aes_gcm::Aes256Gcm as aes_gcm::aead::KeyInit>::new(
        aes_gcm::Key::<aes_gcm::Aes256Gcm>::from_slice(key),
    );
    let nonce = aes_gcm::Nonce::from_slice(iv);
    aes_gcm::aead::AeadInPlace::encrypt_in_place_detached(
        &cipher,
        nonce,
        b"",
        buffer.as_mut_slice(),
    ).ok().map(|tag| tag.to_vec())
}

/// Calls `decrypt_in_place_detached` of the aes-gcm crate's `Aes256Gcm`, with
/// empty associated data. Trusted: whether the tag fits, and the plaintext, are
/// a function of key, initialization vector, ciphertext and tag; on success
/// the buffer holds the plaintext, of the ciphertext's length, and on failure
/// it is left as it was.
#[verifier::external_body]
fn aes_gcm_open_in_place(key: &[u8], iv: &[u8], buffer: &mut Vec<u8>, tag: &[u8]) -> (ok: bool)
    requires
        key@.len() == AES_KEY_LEN,
        iv@.len() == AES_IV_LEN,
        tag@.len() == AES_TAG_LEN,
    ensures
        match aes256_gcm_open(key@, iv@, old(buffer)@, tag@) {
            Some(p) => ok && final(buffer)@ == p,
            None => !ok && final(buffer)@ == old(buffer)@,
        },
        final(buffer)@.len() == old(buffer)@.len(),
{
    let cipher = <aes_gcm::Aes256Gcm as aes_gcm::aead::KeyInit>::new(
        aes_gcm::Key::<aes_gcm::Aes256Gcm>::from_slice(key),
    );
    let nonce = aes_gcm::Nonce::from_slice(iv);
    aes_gcm::aead::AeadInPlace::decrypt_in_place_detached(
        &cipher,
        nonce,
        b"",
        buffer.as_mut_slice(),
        aes_gcm::Tag::from_slice(tag),
    ).is_ok()
}

/// What the caller gets for the outcome of a cryptographic operation: the
/// bytes, or `CryptoError` where there are none.
pub fn crypto_outcome(outcome: Option<Vec<u8>>) -> (r: Result<Vec<u8>, AgentError>)
    ensures
        bytes_result_view(r) == crypto_outcome_spec(
            match outcome {
                Some(v) => Some(v@),
                None => None,
            },
        ),
{
    match outcome {
        Some(bytes) => Ok(bytes),
        None => Err(AgentError::CryptoError),
    }
}

/// An ephemeral RSA key pair, held as the PKCS#1 DER encodings of its two
/// halves. It is made once per provisioning attempt and never stored; only
/// the public half leaves the process.
pub struct RsaKey {
    public_der: Vec<u8>,
    private_der: Vec<u8>,
}

impl RsaKey {
    /// The public half's PKCS#1 DER encoding.
    pub closed spec fn public_der(&self) -> Seq<u8> {
        self.public_der@
    }

    /// The private half's PKCS#1 DER encoding.
    pub closed spec fn private_der(&self) -> Seq<u8> {
        self.private_der@
    }

    /// The key pair for what a generation gave: the two encodings, or
    /// `CryptoError` where the generation failed.
    pub fn from_generated(outcome: Option<(Vec<u8>, Vec<u8>)>) -> (r: Result<RsaKey, AgentError>)
        ensures
            match outcome {
                Some((public_der, private_der)) => r matches Ok(key) && key.public_der()
                    == public_der@ && key.private_der() == private_der@,
                None => r matches Err(e) && e == AgentError::CryptoError,
            },
    {
        match outcome {
            Some((public_der, private_der)) => Ok(RsaKey { public_der, private_der }),
            None => Err(AgentError::CryptoError),
        }
    }

    /// Encrypts a message to the public half with OAEP over SHA-256. The
    /// padding is random, so the ciphertext differs from call to call. It
    /// succeeds exactly where the public encoding holds a key whose modulus
    /// has room for the message and the 66 bytes of padding, and the
    /// ciphertext is then as long as the modulus; otherwise the result is
    /// `CryptoError`.
    pub fn encrypt(&self, message: &[u8]) -> (r: Result<Vec<u8>, AgentError>)
        ensures
            r is Ok <==> rsa_encrypt_accepts(self.public_der(), message@),
            r matches Ok(ciphertext) ==> (rsa_public_size(self.public_der()) matches Some(size)
                && ciphertext@.len() == size),
            r matches Err(e) ==> e == AgentError::CryptoError,
    {
        if message.len() > usize::MAX - OAEP_SHA256_OVERHEAD {
            return Err(AgentError::CryptoError);
        }
        crypto_outcome(rsa_oaep_seal(self.public_der.as_slice(), message))
    }

    /// Decrypts a message with the private half, with OAEP over SHA-256.
    /// Gives the message, or `CryptoError` where padding or format do not
    /// fit; never a part of a message.
    pub fn decrypt(&self, encrypted_message: &[u8]) -> (r: Result<Vec<u8>, AgentError>)
        ensures
            bytes_result_view(r) == crypto_outcome_spec(
                rsa_oaep_sha256_open(self.private_der(), encrypted_message@),
            ),
    {
        crypto_outcome(rsa_oaep_open(self.private_der.as_slice(), encrypted_message))
    }

    /// The public half in its fixed binary encoding, PKCS#1 DER.
    pub fn public_key_to_der(&self) -> (r: Result<Vec<u8>, AgentError>)
        ensures
            r matches Ok(der) && der@ == self.public_der(),
    {
        Ok(slice_to_vec(self.public_der.as_slice()))
    }

    /// The public half for transport: its DER encoding as standard base64.
    /// The same key always gives the same text, and decoding the text gives
    /// the encoding back. Only an encoding too long for its text to be
    /// counted, which no key of the three sizes has, gives `CryptoError`.
    pub fn public_key_to_base64(&self) -> (r: Result<String, AgentError>)
        ensures
            base64_fits(self.public_der().len()) ==> {
                &&& r matches Ok(text)
                &&& text@ == base64_text(self.public_der())
                &&& base64_bytes(text@) == Some(self.public_der())
            },
            !base64_fits(self.public_der().len()) ==> r == Err::<String, AgentError>(
                AgentError::CryptoError,
            ),
    {
        if !fits_base64(self.public_der.len()) {
            return Err(AgentError::CryptoError);
        }
        Ok(base64_encode(self.public_der.as_slice()))
    }

    /// Unwraps the symmetric key that the broker wrapped to the public half.
    pub fn unwrap_key(&self, encrypted_key: &[u8]) -> (r: Result<Vec<u8>, AgentError>)
        ensures
            bytes_result_view(r) == crypto_outcome_spec(
                rsa_oaep_sha256_open(self.private_der(), encrypted_key@),
            ),
    {
        self.decrypt(encrypted_key)
    }
}

/// Generates a key pair of the given size. Any size but 2048, 3072 and 4096
/// bits is refused with `InvalidParameter`, before anything is generated; for
/// those three the outcome is the generator's: a key whose modulus has
/// exactly that many bits, or `CryptoError`.
pub fn generate_key_pair(key_bits: usize) -> (r: Result<RsaKey, AgentError>)
    ensures
        !valid_key_bits(key_bits) ==> (r matches Err(e) && e == AgentError::InvalidParameter),
        valid_key_bits(key_bits) ==> (r matches Err(e) ==> e == AgentError::CryptoError),
        r matches Ok(key) ==> rsa_public_size(key.public_der()) == Some((key_bits / 8) as usize),
{
    if key_bits != 2048 && key_bits != 3072 && key_bits != 4096 {
        return Err(AgentError::InvalidParameter);
    }
    RsaKey::from_generated(rsa_generate(key_bits))
}

/// Generates the wrapping key pair of a provisioning attempt. Whether a key
/// comes back is the generator's to say; one that does has a modulus of 2048
/// bits, which are 256 bytes, so that a symmetric key of 32 bytes can be
/// wrapped to it. A failed generation is a `CryptoError`.
pub fn generate_wrapping_key() -> (r: Result<RsaKey, AgentError>)
    ensures
        r matches Ok(key) ==> rsa_public_size(key.public_der()) == Some(256usize),
        r matches Err(e) ==> e == AgentError::CryptoError,
{
    generate_key_pair(2048)
}

/// Authenticated decryption with AES-256-GCM. The key must have 32 bytes, the
/// initialization vector 12 and the tag 16, and the tag must fit this key,
/// vector and ciphertext: then the plaintext is returned and also replaces the
/// ciphertext in the buffer. In every other case the result is `CryptoError`
/// and the buffer is untouched, so that no plaintext byte gets out.
pub fn decrypt_secret_with_aes_key(
    aes_key: &[u8],
    iv: &[u8],
    ciphertext: &mut Vec<u8>,
    tag: &[u8],
) -> (r: Result<Vec<u8>, AgentError>)
    ensures
        bytes_result_view(r) == crypto_outcome_spec(
            aes_decrypt_spec(aes_key@, iv@, old(ciphertext)@, tag@),
        ),
        r matches Ok(plaintext) ==> final(ciphertext)@ == plaintext@,
        r is Err ==> final(ciphertext)@ == old(ciphertext)@,
{
    if aes_key.len() != AES_KEY_LEN {
        return Err(AgentError::CryptoError);
    }
    if iv.len() != AES_IV_LEN {
        return Err(AgentError::CryptoError);
    }
    if tag.len() != AES_TAG_LEN {
        return Err(AgentError::CryptoError);
    }
    if aes_gcm_open_in_place(aes_key, iv, ciphertext, tag) {
        Ok(slice_to_vec(ciphertext.as_slice()))
    } else {
        Err(AgentError::CryptoError)
    }
}

/// Authenticated encryption with AES-256-GCM, the inverse of
/// `decrypt_secret_with_aes_key`. It succeeds exactly where the key has 32
/// bytes, the initialization vector 12 and the plaintext is within the mode's
/// limit; the ciphertext, as long as the plaintext, then also replaces the
/// plaintext in the buffer. Decrypting the returned ciphertext and tag under
/// the same key and vector gives the plaintext back, and decrypting the
/// ciphertext with any other tag gives nothing.
pub fn encrypt_secret_with_aes_key(aes_key: &[u8], iv: &[u8], plaintext: &mut Vec<u8>) -> (r:
    Result<(Vec<u8>, Vec<u8>), AgentError>)
    ensures
        r is Ok <==> aes_encrypt_accepts(aes_key@, iv@, old(plaintext)@),
        r matches Err(e) ==> (e == AgentError::CryptoError && final(plaintext)@ == old(plaintext)@),
        r matches Ok((c, t)) ==> {
            &&& aes256_gcm_seal(aes_key@, iv@, old(plaintext)@) == Some((c@, t@))
            &&& final(plaintext)@ == c@
            &&& c@.len() == old(plaintext)@.len()
            &&& t@.len() == AES_TAG_LEN
            &&& aes_decrypt_spec(aes_key@, iv@, c@, t@) == Some(old(plaintext)@)
            &&& forall|other: Seq<u8>|
                other != t@ ==> (#[trigger] aes_decrypt_spec(aes_key@, iv@, c@, other)) is None
        },
{
    if aes_key.len() != AES_KEY_LEN {
        return Err(AgentError::CryptoError);
    }
    if iv.len() != AES_IV_LEN {
        return Err(AgentError::CryptoError);
    }
    match aes_gcm_seal_in_place(aes_key, iv, plaintext) {
        Some(tag) => Ok((slice_to_vec(plaintext.as_slice()), tag)),
        None => Err(AgentError::CryptoError),
    }
}

} // verus!
