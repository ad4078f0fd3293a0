//! The vault's master-key manager.
//!
//! A [`Signer`] holds the master keypair in its armored (transportable) text
//! form together with the passphrase that locks its private half. Encryption
//! reads only the key's public parameters and needs no passphrase; every
//! private-half operation parses and unlocks the key transiently inside the
//! call that needs it — the unlocked key never outlives one operation. The
//! OpenPGP parsing, unlocking and the raw RSA operations are delegated to the
//! `pgp` and `rsa` crates behind trusted wrappers; everything above them is
//! verified.

use vstd::prelude::*;

use pgp::types::SecretKeyTrait;
use pgp::Deserializable;
use rsa::PublicKey;
use rsa::PublicKeyParts;

use crate::errors::VaultError;

verus! {

/// The armored key material of the `pgp` crate's `SecretKey`, kept opaque: it
/// is generated, then signed into its armored form, and never inspected.
#[verifier::external_type_specification]
#[verifier::external_body]
pub struct ExSecretKey(pgp::composed::SecretKey);

/// Whether `pgp`'s `SignedSecretKey::from_string` parses this armored text as
/// a signed secret key. A function of the text alone.
pub uninterp spec fn valid_armored_key(armored: Seq<char>) -> bool;

/// Whether the self-signature of the key parsed from this armored text
/// verifies (`pgp`'s `SignedSecretKey::verify`). Meaningful only where
/// [`valid_armored_key`] holds. A function of the text alone.
pub uninterp spec fn verified_armored_key(armored: Seq<char>) -> bool;

/// Whether this passphrase unlocks the private half of the key parsed from
/// this armored text (`pgp`'s `SignedSecretKey::unlock`). A key whose secret
/// parameters are stored unprotected unlocks under any passphrase. Meaningful
/// only where [`valid_armored_key`] holds. A function of its arguments alone.
pub uninterp spec fn key_unlocks(armored: Seq<char>, pass: Seq<char>) -> bool;

/// The RSA PKCS#1 v1.5 decryption of `data` under the private key parsed from
/// this armored text: `None` when the padding check fails (for example when
/// the ciphertext was produced under a different key) or when the key is not
/// an RSA key. Decryption is deterministic: a function of its arguments alone.
pub uninterp spec fn decrypt_of(armored: Seq<char>, data: Seq<u8>) -> Option<Seq<u8>>;

/// Whether the public parameters of the key parsed from this armored text
/// are an RSA pair that the `rsa` crate accepts (`RSAPublicKey::new`: an
/// exponent within its bounds). A function of the text alone; no unlock and
/// no passphrase is involved.
pub uninterp spec fn rsa_pub_ok(armored: Seq<char>) -> bool;

/// The RSA modulus size in bytes of the key parsed from this armored text
/// (`rsa`'s `PublicKeyParts::size`). Ciphertexts under the key have exactly
/// this length. A function of the text alone.
pub uninterp spec fn modulus_bytes_of(armored: Seq<char>) -> nat;

/// Whether RSA PKCS#1 v1.5 encryption of `data` under the public half of the
/// key parsed from this armored text succeeds: the key must be an acceptable
/// RSA key and the message must fit the modulus with the scheme's eleven
/// bytes of overhead. A public-key operation: no passphrase is involved, and
/// success does not depend on the random padding.
pub open spec fn encryptable(armored: Seq<char>, data: Seq<u8>) -> bool {
    rsa_pub_ok(armored) && data.len() + 11 <= modulus_bytes_of(armored)
}

/// The view of an optional passphrase: an absent passphrase reads as empty.
pub open spec fn pass_view(p: Option<String>) -> Seq<char> {
    match p {
        Some(s) => s@,
        None => Seq::empty(),
    }
}

/// Relies on `pgp`'s `SignedSecretKey::from_string`: it parses exactly the
/// well-formed armored signed secret keys.
#[verifier::external_body]
fn parse_check(armored: &str) -> (r: bool)
    ensures
        r == valid_armored_key(armored@),
{
    pgp::composed::SignedSecretKey::from_string(armored).is_ok()
}

/// Relies on `pgp`'s `SignedSecretKey::verify`: it accepts exactly the keys
/// whose self-signatures check out.
#[verifier::external_body]
fn verify_check(armored: &str) -> (r: bool)
    requires
        valid_armored_key(armored@),
    ensures
        r == verified_armored_key(armored@),
{
    match pgp::composed::SignedSecretKey::from_string(armored) {
        Ok((key, _)) => key.verify().is_ok(),
        Err(_) => false,
    }
}

/// Relies on `pgp`'s `SignedSecretKey::unlock`: it succeeds exactly when the
/// passphrase decrypts the secret parameters (always, for an unprotected
/// key), without mutating the key.
#[verifier::external_body]
fn unlock_check(armored: &str, pass: &str) -> (r: bool)
    requires
        valid_armored_key(armored@),
    ensures
        r == key_unlocks(armored@, pass@),
{
    match pgp::composed::SignedSecretKey::from_string(armored) {
        Ok((key, _)) => key.unlock(|| pass.to_string(), |_| Ok(())).is_ok(),
        Err(_) => false,
    }
}

/// Relies on `rsa`'s `RSAPrivateKey::decrypt` (PKCS#1 v1.5), reached through
/// `pgp`'s `SignedSecretKey::unlock`: deterministic decryption that fails
/// exactly on padding/format violations.
#[verifier::external_body]
fn rsa_decrypt(armored: &str, pass: &str, data: &[u8]) -> (r: Option<Vec<u8>>)
    requires
        valid_armored_key(armored@),
        key_unlocks(armored@, pass@),
    ensures
        match r {
            Some(p) => decrypt_of(armored@, data@) == Some(p@),
            None => decrypt_of(armored@, data@) is None,
        },
{
    let (key, _) = match pgp::composed::SignedSecretKey::from_string(armored) {
        Ok(v) => v,
        Err(_) => return None,
    };
    let mut plain: Option<Vec<u8>> = None;
    let _ = key.unlock(|| pass.to_string(), |repr| {
        if let pgp::types::SecretKeyRepr::RSA(k) = repr {
            plain = k.decrypt(rsa::PaddingScheme::new_pkcs1v15_encrypt(), data).ok();
        }
        Ok(())
    });
    plain
}

/// Relies on the primary key's `public_params` (`pgp`) and on `rsa`'s
/// `RSAPublicKey::new` and `PublicKeyParts::size`: the modulus size in bytes
/// of the key's public half, read without any unlock, `None` exactly when
/// the parameters are not an RSA pair that `rsa` accepts.
#[verifier::external_body]
fn rsa_modulus_bytes(armored: &str) -> (r: Option<usize>)
    requires
        valid_armored_key(armored@),
    ensures
        r is Some <==> rsa_pub_ok(armored@),
        r matches Some(k) ==> k as nat == modulus_bytes_of(armored@),
{
    let (key, _) = match pgp::composed::SignedSecretKey::from_string(armored) {
        Ok(v) => v,
        Err(_) => return None,
    };
    match key.primary_key.public_params() {
        pgp::types::PublicParams::RSA { n, e } => match rsa::RSAPublicKey::new(
            rsa::BigUint::from_bytes_be(n.as_bytes()),
            rsa::BigUint::from_bytes_be(e.as_bytes()),
        ) {
            Ok(pk) => Some(pk.size()),
            Err(_) => None,
        },
        _ => None,
    }
}

/// Relies on `rsa`'s `RSAPublicKey::encrypt` (PKCS#1 v1.5) over the public
/// parameters read from the armored text, without any unlock: for a message
/// that fits the modulus it returns a modulus-sized ciphertext, randomly
/// padded, and decryption under the private half of the same key — whenever
/// some passphrase unlocks one whose parameters the unlock validated —
/// restores exactly the message.
#[verifier::external_body]
fn rsa_encrypt(armored: &str, data: &[u8]) -> (r: Vec<u8>)
    requires
        valid_armored_key(armored@),
        rsa_pub_ok(armored@),
        data@.len() + 11 <= modulus_bytes_of(armored@),
    ensures
        r@.len() == modulus_bytes_of(armored@),
        (exists|p: Seq<char>| key_unlocks(armored@, p)) ==> decrypt_of(armored@, r@) == Some(
            data@,
        ),
{
    let (key, _) = pgp::composed::SignedSecretKey::from_string(armored)
        .expect("an armored key: checked by the caller");
    let pk = match key.primary_key.public_params() {
        pgp::types::PublicParams::RSA { n, e } => rsa::RSAPublicKey::new(
            rsa::BigUint::from_bytes_be(n.as_bytes()),
            rsa::BigUint::from_bytes_be(e.as_bytes()),
        ).ok(),
        _ => None,
    }.expect("an RSA public key: checked by the caller");
    let pad = rsa::PaddingScheme::new_pkcs1v15_encrypt();
    pk.encrypt(&mut rand::thread_rng(), pad, data).expect("a fitting message: checked by the caller")
}

/// Relies on `pgp`'s `SecretKeyParamsBuilder` and `SecretKeyParams::generate`:
/// a fresh RSA keypair of the requested size, locked under the passphrase.
/// The result is random, so nothing is assumed of it.
#[verifier::external_body]
fn pgp_generate(bits: u32, passphrase: Option<String>, user_id: &str) -> (r: Option<
    pgp::composed::SecretKey,
>) {
    let mut b = pgp::composed::SecretKeyParamsBuilder::default();
    b.key_type(pgp::composed::KeyType::Rsa(bits)).can_create_certificates(true).can_sign(true)
        .primary_user_id(user_id.into())
        .preferred_symmetric_algorithms(vec![
            pgp::crypto::SymmetricKeyAlgorithm::AES256, pgp::crypto::SymmetricKeyAlgorithm::AES192,
            pgp::crypto::SymmetricKeyAlgorithm::AES128].into())
        .preferred_hash_algorithms(vec![
            pgp::crypto::HashAlgorithm::SHA2_256, pgp::crypto::HashAlgorithm::SHA2_384,
            pgp::crypto::HashAlgorithm::SHA2_512, pgp::crypto::HashAlgorithm::SHA2_224,
            pgp::crypto::HashAlgorithm::SHA1].into())
        .preferred_compression_algorithms(vec![
            pgp::types::CompressionAlgorithm::ZLIB, pgp::types::CompressionAlgorithm::ZIP].into())
        .passphrase(passphrase);
    b.build().ok()?.generate().ok()
}

/// Relies on `pgp`'s `SecretKey::sign` and `to_armored_string`: signing
/// unlocks the key with the given passphrase and self-signs it; the armored
/// text of the result parses back, its self-signature verifies, and the same
/// passphrase still unlocks it.
#[verifier::external_body]
fn pgp_sign_and_armor(sk: pgp::composed::SecretKey, pass: &str) -> (r: Option<String>)
    ensures
        match r {
            Some(armored) => valid_armored_key(armored@) && verified_armored_key(armored@)
                && key_unlocks(armored@, pass@),
            None => true,
        },
{
    let signed = sk.sign(|| pass.to_string()).ok()?;
    signed.to_armored_string(None).ok()
}

/// The passphrase as a string slice; an absent passphrase reads as empty.
fn pass_as_str(p: &Option<String>) -> (r: &str)
    ensures
        r@ == pass_view(*p),
{
    proof {
        reveal_strlit("");
        assert(""@ =~= Seq::<char>::empty());
    }
    match p {
        Some(s) => s.as_str(),
        None => "",
    }
}

/// The master-key manager: the signed keypair in armored text form, and the
/// passphrase under which its private half is locked.
pub struct Signer {
    pub signing_key: String,
    pub passphrase: Option<String>,
}

impl Signer {
    /// The armored key text, as a character sequence.
    pub open spec fn key_view(self) -> Seq<char> {
        self.signing_key@
    }

    /// The stored passphrase, read as empty when absent.
    pub open spec fn pass_seq(self) -> Seq<char> {
        pass_view(self.passphrase)
    }

    /// The key parses and the stored passphrase unlocks its private half.
    pub open spec fn is_unlockable(self) -> bool {
        valid_armored_key(self.key_view()) && key_unlocks(self.key_view(), self.pass_seq())
    }

    /// A signer over the given armored key and passphrase. Nothing is
    /// validated here; each operation checks what it needs and fails closed.
    pub fn new(signing_key: String, passphrase: Option<String>) -> (r: Self)
        ensures
            r.signing_key@ == signing_key@,
            r.passphrase == passphrase,
    {
        Signer { signing_key, passphrase }
    }

    /// Check that a passphrase unlocks the key in this armored text, without
    /// mutating anything: `Ok` exactly when the text parses and the
    /// passphrase unlocks it; `KeyFormat` when it does not parse,
    /// `WrongPassphrase` otherwise.
    pub fn verify_key_passphrase(armored: &str, passphrase: Option<String>) -> (r: Result<
        (),
        VaultError,
    >)
        ensures
            r is Ok <==> valid_armored_key(armored@) && key_unlocks(
                armored@,
                pass_view(passphrase),
            ),
            r matches Err(e) ==> e == (if !valid_armored_key(armored@) {
                VaultError::KeyFormat
            } else {
                VaultError::WrongPassphrase
            }),
    {
        if !parse_check(armored) {
            return Err(VaultError::KeyFormat);
        }
        if unlock_check(armored, pass_as_str(&passphrase)) {
            Ok(())
        } else {
            Err(VaultError::WrongPassphrase)
        }
    }

    /// Parse armored key text and check its self-signature: `Ok` with the
    /// same text exactly when it parses and verifies, `KeyFormat` otherwise.
    pub fn parse_signed_secret_from_string(key: String) -> (r: Result<String, VaultError>)
        ensures
            r matches Ok(a) ==> a@ == key@,
            r is Ok <==> valid_armored_key(key@) && verified_armored_key(key@),
            r matches Err(e) ==> e == VaultError::KeyFormat,
    {
        if parse_check(key.as_str()) && verify_check(key.as_str()) {
            Ok(key)
        } else {
            Err(VaultError::KeyFormat)
        }
    }

    /// Generate a fresh RSA keypair of the given size, locked under the
    /// passphrase. `None` when the cryptographic backend fails to produce a
    /// key. The result is random; its properties are established by
    /// [`Signer::sign_key`], which turns it into armored text.
    pub fn generate_key(bits: u32, passphrase: Option<String>) -> Option<pgp::composed::SecretKey> {
        pgp_generate(bits, passphrase, "Me <me@mail.com>")
    }

    /// Self-sign a generated key and render it as armored text. On success
    /// the text parses, its self-signature verifies, and the same passphrase
    /// unlocks it; signing fails (with `WrongPassphrase`) when the passphrase
    /// does not unlock the key being signed.
    pub fn sign_key(sk: pgp::composed::SecretKey, passphrase: Option<String>) -> (r: Result<
        String,
        VaultError,
    >)
        ensures
            r matches Ok(armored) ==> valid_armored_key(armored@) && verified_armored_key(armored@)
                && key_unlocks(armored@, pass_view(passphrase)),
            r matches Err(e) ==> e == VaultError::WrongPassphrase,
    {
        match pgp_sign_and_armor(sk, pass_as_str(&passphrase)) {
            Some(a) => Ok(a),
            None => Err(VaultError::WrongPassphrase),
        }
    }

    /// Encrypt plaintext under the key's public half: a public-key operation
    /// that reads only the key's public parameters, needs no passphrase and
    /// never reports `WrongPassphrase`. Succeeds if and only if the key
    /// parses and the message fits its modulus; the ciphertext is
    /// modulus-sized and randomized, and decrypting it under this key — with
    /// any passphrase that unlocks it — gives back exactly `data`.
    pub fn encrypt(&self, data: &[u8]) -> (r: Result<Vec<u8>, VaultError>)
        ensures
            r is Ok <==> valid_armored_key(self.key_view()) && encryptable(
                self.key_view(),
                data@,
            ),
            r matches Ok(c) ==> c@.len() == modulus_bytes_of(self.key_view()) && ((exists|
                p: Seq<char>,
            |
                key_unlocks(self.key_view(), p)) ==> decrypt_of(self.key_view(), c@) == Some(
                data@,
            )),
            r matches Err(e) ==> e == spec_encrypt_err(*self, data@),
    {
        if !parse_check(self.signing_key.as_str()) {
            return Err(VaultError::KeyFormat);
        }
        let k = match rsa_modulus_bytes(self.signing_key.as_str()) {
            Some(k) => k,
            None => {
                return Err(VaultError::Encrypt);
            },
        };
        if k < 11 || data.len() > k - 11 {
            return Err(VaultError::Encrypt);
        }
        Ok(rsa_encrypt(self.signing_key.as_str(), data))
    }

    /// Decrypt a ciphertext with the private half, unlocked transiently with
    /// the stored passphrase. The outcome is exactly [`spec_decrypt`]: the
    /// plaintext where the key parses, the passphrase unlocks it and the
    /// padding checks out; the matching error otherwise. An incorrect
    /// passphrase fails closed with `WrongPassphrase`, never with a value.
    pub fn decrypt(&self, data: &[u8]) -> (r: Result<Vec<u8>, VaultError>)
        ensures
            match r {
                Ok(p) => spec_decrypt(*self, data@) == Ok::<Seq<u8>, VaultError>(p@),
                Err(e) => spec_decrypt(*self, data@) == Err::<Seq<u8>, VaultError>(e),
            },
    {
        if !parse_check(self.signing_key.as_str()) {
            return Err(VaultError::KeyFormat);
        }
        let pass = pass_as_str(&self.passphrase);
        if !unlock_check(self.signing_key.as_str(), pass) {
            return Err(VaultError::WrongPassphrase);
        }
        match rsa_decrypt(self.signing_key.as_str(), pass, data) {
            Some(p) => Ok(p),
            None => Err(VaultError::Decrypt),
        }
    }

    /// Serialize the private key to its transportable armored form: the
    /// stored text itself, released only after checking that the stored
    /// passphrase unlocks the key. Fails with `WrongPassphrase` (or
    /// `KeyFormat` for text that does not parse) instead of exporting.
    pub fn export_private_key(&self) -> (r: Result<String, VaultError>)
        ensures
            r matches Ok(a) ==> a@ == self.key_view() && self.is_unlockable(),
            r is Ok <==> self.is_unlockable(),
            r matches Err(e) ==> e == (if !valid_armored_key(self.key_view()) {
                VaultError::KeyFormat
            } else {
                VaultError::WrongPassphrase
            }),
    {
        if !parse_check(self.signing_key.as_str()) {
            return Err(VaultError::KeyFormat);
        }
        if !unlock_check(self.signing_key.as_str(), pass_as_str(&self.passphrase)) {
            return Err(VaultError::WrongPassphrase);
        }
        Ok(self.signing_key.clone())
    }
}

/// The error `Signer::encrypt` reports: `KeyFormat` for text that does not
/// parse, `Encrypt` when the key is not an acceptable RSA key or the message
/// does not fit its modulus. Never `WrongPassphrase`: encryption is a
/// public-key operation.
pub open spec fn spec_encrypt_err(s: Signer, data: Seq<u8>) -> VaultError {
    if !valid_armored_key(s.key_view()) {
        VaultError::KeyFormat
    } else {
        VaultError::Encrypt
    }
}

/// The exact outcome of `Signer::decrypt` on a given ciphertext.
pub open spec fn spec_decrypt(s: Signer, data: Seq<u8>) -> Result<Seq<u8>, VaultError> {
    if !valid_armored_key(s.key_view()) {
        Err(VaultError::KeyFormat)
    } else if !key_unlocks(s.key_view(), s.pass_seq()) {
        Err(VaultError::WrongPassphrase)
    } else {
        match decrypt_of(s.key_view(), data) {
            Some(p) => Ok(p),
            None => Err(VaultError::Decrypt),
        }
    }
}

/// Law (round trip): a ciphertext produced by [`Signer::encrypt`] — whose
/// contract gives `decrypt_of(key, c) == Some(p)` — decrypts under the same
/// unlockable signer to exactly the original plaintext.
pub proof fn lemma_decrypt_after_encrypt(s: Signer, p: Seq<u8>, c: Seq<u8>)
    requires
        s.is_unlockable(),
        decrypt_of(s.key_view(), c) == Some(p),
    ensures
        spec_decrypt(s, c) == Ok::<Seq<u8>, VaultError>(p),
{
}

/// Law (fail closed): under a passphrase that does not unlock the key,
/// decryption of any ciphertext fails with `WrongPassphrase` and never
/// returns a value.
pub proof fn lemma_wrong_passphrase_fails(s: Signer, c: Seq<u8>)
    requires
        valid_armored_key(s.key_view()),
        !key_unlocks(s.key_view(), s.pass_seq()),
    ensures
        spec_decrypt(s, c) == Err::<Seq<u8>, VaultError>(VaultError::WrongPassphrase),
{
}

} // verus!
