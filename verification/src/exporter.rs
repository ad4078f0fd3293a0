//! The backup codec: password-based wrapping of the exported master-key
//! material, and the export pipeline that feeds a bundle to its sink.
//!
//! A bundle is `AES-256-CBC(key = PBKDF2-HMAC-SHA256(passphrase, salt, 256),
//! iv, PKCS-padded material)` with a fixed all-zero 16-byte salt and IV. The
//! fixed salt and IV make wrapping deterministic and are a compatibility
//! requirement of the existing bundle format — a documented weakness (they
//! expose the passphrase to precomputed dictionary attack), kept so that
//! existing bundles keep importing.

use vstd::prelude::*;

use crypto::buffer::{ReadBuffer, WriteBuffer};

use crate::errors::VaultError;
use crate::signer::{valid_armored_key, Signer};
use crate::store::ExportSink;

verus! {

/// The 32-byte key that PBKDF2 with HMAC-SHA256 derives from a passphrase,
/// salt and iteration count, as `rust-crypto`'s `pbkdf2` computes it. A
/// function of its arguments alone.
pub uninterp spec fn kdf32_of(pass: Seq<char>, salt: Seq<u8>, iterations: u32) -> Seq<u8>;

/// AES-256-CBC encryption with PKCS padding, as `rust-crypto`'s
/// `aes::cbc_encryptor` computes it. A function of its arguments alone.
pub uninterp spec fn aes_enc_of(key: Seq<u8>, iv: Seq<u8>, data: Seq<u8>) -> Seq<u8>;

/// Raw AES-256-CBC decryption (no padding interpretation), as `rust-crypto`'s
/// `aes::cbc_decryptor` with `NoPadding` computes it on a whole number of
/// blocks. A function of its arguments alone; meaningful only where the input
/// length is a multiple of the 16-byte block size.
pub uninterp spec fn aes_raw_dec_of(key: Seq<u8>, iv: Seq<u8>, data: Seq<u8>) -> Seq<u8>;

/// `n` zero bytes: the fixed salt and initialization vector of the format.
pub open spec fn zero_bytes(n: nat) -> Seq<u8> {
    Seq::new(n, |i| 0u8)
}

/// The symmetric key the export format derives from a passphrase: PBKDF2 with
/// HMAC-SHA256, a fixed all-zero 16-byte salt and 256 iterations.
pub open spec fn export_key_of(pass: Seq<char>) -> Seq<u8> {
    kdf32_of(pass, zero_bytes(16), 256)
}

/// The number of PKCS padding bytes appended to material of length `n`:
/// enough to reach the next multiple of the 16-byte block size, a full block
/// when `n` is already a multiple. Always between 1 and 16.
pub open spec fn pad_len(n: nat) -> nat {
    (16 - n % 16) as nat
}

/// Material with its PKCS padding: `pad_len` copies of the pad length itself,
/// appended.
pub open spec fn pkcs_pad(m: Seq<u8>) -> Seq<u8> {
    m + Seq::new(pad_len(m.len()), |i| pad_len(m.len()) as u8)
}

/// Validating and removing PKCS padding: the final byte names the pad length,
/// which must be between 1 and 16, fit inside the data, and fill its whole
/// extent with copies of itself. `None` on any violation (in particular on
/// empty data).
pub open spec fn pkcs_unpad(p: Seq<u8>) -> Option<Seq<u8>> {
    if p.len() == 0 {
        None
    } else {
        let v = p.last() as int;
        if 1 <= v && v <= 16 && v <= p.len() && (forall|i: int|
            p.len() - v <= i < p.len() ==> p[i] == p.last()) {
            Some(p.take(p.len() - v))
        } else {
            None
        }
    }
}

/// Padding then unpadding gives the material back, whatever it was.
pub proof fn lemma_unpad_of_pad(m: Seq<u8>)
    ensures
        pkcs_unpad(pkcs_pad(m)) == Some(m),
{
    let p = pkcs_pad(m);
    let v = pad_len(m.len());
    assert(1 <= v <= 16);
    assert(p.len() == m.len() + v);
    assert(p.last() == v as u8);
    assert(forall|i: int| p.len() - v <= i < p.len() ==> p[i] == p.last());
    assert(p.take(p.len() - v as int) =~= m);
}

/// What wrapping material under an export passphrase produces.
pub open spec fn wrap_of(m: Seq<u8>, pass: Seq<char>) -> Seq<u8> {
    aes_enc_of(export_key_of(pass), zero_bytes(16), m)
}

/// What unwrapping a bundle under an export passphrase produces: the raw
/// block decryption where the length permits one, then padding validation.
/// `None` exactly when the length or the padding is invalid — the
/// padding/format check that decides `WrongExportPassphrase`. The empty
/// bundle carries empty material: the cipher backend emits no padding block
/// for empty input, so that is what wrapping empty material produces — a
/// quirk of the existing format, kept for compatibility.
pub open spec fn unwrap_of(c: Seq<u8>, pass: Seq<char>) -> Option<Seq<u8>> {
    if c.len() == 0 {
        Some(Seq::empty())
    } else if c.len() % 16 == 0 {
        pkcs_unpad(aes_raw_dec_of(export_key_of(pass), zero_bytes(16), c))
    } else {
        None
    }
}

/// Relies on `rust-crypto`'s `pbkdf2` with `Hmac<Sha256>`: a deterministic
/// 32-byte derived key. `pbkdf2` asserts a positive iteration count.
#[verifier::external_body]
fn pbkdf2_sha256(password: &str, salt: &[u8], iterations: u32) -> (r: Vec<u8>)
    requires
        iterations > 0,
    ensures
        r@ == kdf32_of(password@, salt@, iterations),
        r@.len() == 32,
{
    let mut mac = crypto::hmac::Hmac::new(crypto::sha2::Sha256::new(), password.as_bytes());
    let mut key = [0u8; 32];
    crypto::pbkdf2::pbkdf2(&mut mac, salt, iterations, &mut key);
    key.to_vec()
}

/// Relies on `rust-crypto`'s `aes::cbc_encryptor` with PKCS padding: with a
/// 32-byte key and 16-byte IV it always succeeds. For non-empty input it
/// emits one ciphertext block per block of padded input, and raw CBC
/// decryption under the same key and IV restores exactly the PKCS-padded
/// input; for empty input its engine returns before any padding is applied
/// and the ciphertext is empty.
#[verifier::external_body]
fn aes256_cbc_encrypt(data: &[u8], key: &[u8], iv: &[u8]) -> (r: Vec<u8>)
    requires
        key@.len() == 32,
        iv@.len() == 16,
    ensures
        r@ == aes_enc_of(key@, iv@, data@),
        data@.len() == 0 ==> r@.len() == 0,
        data@.len() > 0 ==> r@.len() == pkcs_pad(data@).len() && aes_raw_dec_of(key@, iv@, r@)
            == pkcs_pad(data@),
{
    let mut enc = crypto::aes::cbc_encryptor(
        crypto::aes::KeySize::KeySize256, key, iv, crypto::blockmodes::PkcsPadding);
    let mut out = Vec::<u8>::new();
    let mut rb = crypto::buffer::RefReadBuffer::new(data);
    let mut buf = [0u8; 4096];
    loop {
        let mut wb = crypto::buffer::RefWriteBuffer::new(&mut buf);
        let res = enc.encrypt(&mut rb, &mut wb, true).expect("aes-cbc encryption");
        out.extend(wb.take_read_buffer().take_remaining().iter().copied());
        if let crypto::buffer::BufferResult::BufferUnderflow = res { break; }
    }
    out
}

/// Relies on `rust-crypto`'s `aes::cbc_decryptor` with `NoPadding`: raw
/// block decryption, which errors exactly when the input is not a whole
/// number of 16-byte blocks and otherwise restores one plaintext byte per
/// ciphertext byte. The padding itself is validated and stripped afterwards,
/// in verified code ([`strip_pkcs_padding`]).
#[verifier::external_body]
fn aes256_cbc_decrypt_raw(data: &[u8], key: &[u8], iv: &[u8]) -> (r: Option<Vec<u8>>)
    requires
        key@.len() == 32,
        iv@.len() == 16,
    ensures
        r is Some <==> data@.len() % 16 == 0,
        r matches Some(p) ==> p@ == aes_raw_dec_of(key@, iv@, data@) && p@.len() == data@.len(),
{
    let mut dec = crypto::aes::cbc_decryptor(
        crypto::aes::KeySize::KeySize256, key, iv, crypto::blockmodes::NoPadding);
    let mut out = Vec::<u8>::new();
    let mut rb = crypto::buffer::RefReadBuffer::new(data);
    let mut buf = [0u8; 4096];
    loop {
        let mut wb = crypto::buffer::RefWriteBuffer::new(&mut buf);
        let res = match dec.decrypt(&mut rb, &mut wb, true) { Ok(v) => v, Err(_) => return None };
        out.extend(wb.take_read_buffer().take_remaining().iter().copied());
        if let crypto::buffer::BufferResult::BufferUnderflow = res { break; }
    }
    Some(out)
}

/// Validate and remove the PKCS padding of decrypted data: exactly
/// [`pkcs_unpad`].
fn strip_pkcs_padding(data: Vec<u8>) -> (r: Option<Vec<u8>>)
    ensures
        match r {
            Some(q) => pkcs_unpad(data@) == Some(q@),
            None => pkcs_unpad(data@) is None,
        },
{
    let n = data.len();
    if n == 0 {
        return None;
    }
    let v = data[n - 1];
    if v == 0 || v > 16 {
        return None;
    }
    let pad = v as usize;
    if pad > n {
        return None;
    }
    let mut i: usize = n - pad;
    while i < n
        invariant
            n == data@.len(),
            1 <= pad <= 16,
            pad <= n <= usize::MAX,
            n - pad <= i <= n,
            v == data@.last(),
            pad == v as nat,
            forall|j: int| n - pad <= j < i ==> data@[j] == data@.last(),
        decreases n - i,
    {
        if data[i] != v {
            return None;
        }
        i += 1;
    }
    let ghost orig = data@;
    let mut out = data;
    out.truncate(n - pad);
    proof {
        assert(out@ =~= orig.take(orig.len() - v as int));
    }
    Some(out)
}

/// A 16-byte all-zero buffer: the format's fixed salt and IV.
fn fixed_zeros() -> (r: Vec<u8>)
    ensures
        r@ == zero_bytes(16),
{
    let r = vec![0u8; 16];
    proof {
        assert(r@ =~= zero_bytes(16));
    }
    r
}

/// Derive the export format's symmetric key from the master password:
/// PBKDF2-HMAC-SHA256 over the fixed zero salt, 256 iterations, 256-bit key.
pub fn hash_master_password(master_password: &str) -> (r: Vec<u8>)
    ensures
        r@ == export_key_of(master_password@),
        r@.len() == 32,
{
    let salt = fixed_zeros();
    pbkdf2_sha256(master_password, salt.as_slice(), 256)
}

/// Wrap exported private-key material (armored text) under an export
/// passphrase. Deterministic by format: the result is exactly
/// [`wrap_of`] over the material's UTF-8 bytes — the next whole multiple of
/// the block size above the material length, or empty for empty material —
/// and unwrapping it under the same passphrase gives those bytes back.
pub fn export_private_key_bytes(plain: String, master_password: String) -> (r: Result<
    Vec<u8>,
    VaultError,
>)
    ensures
        r is Ok,
        r matches Ok(c) ==> c@ == wrap_of(vstd::utf8::encode_utf8(plain@), master_password@)
            && unwrap_of(c@, master_password@) == Some(vstd::utf8::encode_utf8(plain@)),
        r matches Ok(c) ==> c@.len() == (if vstd::utf8::encode_utf8(plain@).len() == 0 {
            0int
        } else {
            ((vstd::utf8::encode_utf8(plain@).len() / 16 + 1) * 16) as int
        }),
{
    let key = hash_master_password(master_password.as_str());
    let iv = fixed_zeros();
    let c = aes256_cbc_encrypt(plain.as_str().as_bytes(), key.as_slice(), iv.as_slice());
    proof {
        let m = vstd::utf8::encode_utf8(plain@);
        if m.len() == 0 {
            assert(m =~= Seq::<u8>::empty());
        } else {
            vstd::arithmetic::div_mod::lemma_fundamental_div_mod(m.len() as int, 16);
            assert(c@.len() == (m.len() / 16 + 1) * 16);
            vstd::arithmetic::div_mod::lemma_mod_multiples_basic((m.len() / 16 + 1) as int, 16);
            assert(c@.len() % 16 == 0);
            lemma_unpad_of_pad(m);
        }
    }
    Ok(c)
}

/// The exact outcome of unwrapping a bundle under an export passphrase.
pub open spec fn spec_import(c: Seq<u8>, pass: Seq<char>) -> Result<Seq<u8>, VaultError> {
    match unwrap_of(c, pass) {
        Some(p) => Ok(p),
        None => Err(VaultError::WrongExportPassphrase),
    }
}

/// Unwrap an export bundle under an export passphrase: raw block decryption,
/// then padding validation in verified code. The wrapped material where both
/// succeed, `WrongExportPassphrase` where the length or the padding is
/// invalid after decryption. The empty bundle carries empty material, as
/// [`unwrap_of`] says.
pub fn import_private_key_bytes(encrypted: Vec<u8>, master_password: String) -> (r: Result<
    Vec<u8>,
    VaultError,
>)
    ensures
        match r {
            Ok(p) => spec_import(encrypted@, master_password@) == Ok::<Seq<u8>, VaultError>(p@),
            Err(e) => spec_import(encrypted@, master_password@) == Err::<Seq<u8>, VaultError>(e),
        },
{
    if encrypted.is_empty() {
        return Ok(Vec::new());
    }
    let key = hash_master_password(master_password.as_str());
    let iv = fixed_zeros();
    let padded = match aes256_cbc_decrypt_raw(encrypted.as_slice(), key.as_slice(), iv.as_slice()) {
        Some(p) => p,
        None => {
            return Err(VaultError::WrongExportPassphrase);
        },
    };
    match strip_pkcs_padding(padded) {
        Some(p) => Ok(p),
        None => Err(VaultError::WrongExportPassphrase),
    }
}

/// Law (backup round trip): a bundle for which unwrapping is known to succeed
/// — as [`export_private_key_bytes`] guarantees of everything it produces —
/// imports to exactly the wrapped material.
pub proof fn lemma_unwrap_after_wrap(c: Seq<u8>, m: Seq<u8>, e: Seq<char>)
    requires
        unwrap_of(c, e) == Some(m),
    ensures
        spec_import(c, e) == Ok::<Seq<u8>, VaultError>(m),
{
}

/// Export the master key as a password-protected bundle: serialize the
/// private key (checking the signer's own passphrase), wrap it under the
/// export passphrase, and hand the bundle to the sink at the chosen path.
/// A signer that does not unlock fails closed before anything is written.
pub fn export_private_key<X: ExportSink>(
    signer: &Signer,
    master_password: String,
    export_file_name: &str,
    sink: &mut X,
) -> (r: Result<(), VaultError>)
    ensures
        !signer.is_unlockable() ==> r == Err::<(), VaultError>(
            if !valid_armored_key(signer.key_view()) {
                VaultError::KeyFormat
            } else {
                VaultError::WrongPassphrase
            },
        ),
        signer.is_unlockable() ==> r is Ok || r == Err::<(), VaultError>(VaultError::Storage),
{
    let armored = signer.export_private_key()?;
    let bundle = match export_private_key_bytes(armored, master_password) {
        Ok(b) => b,
        Err(_) => return Err(VaultError::Encrypt),
    };
    match sink.save(export_file_name, bundle.as_slice()) {
        Ok(()) => Ok(()),
        Err(_) => Err(VaultError::Storage),
    }
}

} // verus!
