//! Error kinds surfaced by the vault and the page state machine.

use vstd::prelude::*;

verus! {

/// Every failure the vault core can report.
///
/// - `WrongPassphrase`: the master key's passphrase did not unlock it.
/// - `KeyFormat`: key material was malformed or its self-signature did not
///   verify.
/// - `Encrypt` / `Decrypt`: a cryptographic failure distinct from a wrong
///   passphrase (for example a ciphertext encrypted under a different key).
/// - `WrongExportPassphrase`: an export bundle failed padding/format
///   validation after decryption.
/// - `Storage`: an I/O failure reported by the secret store collaborator.
/// - `InvalidSelection`: a list selection index was out of bounds; the state
///   machine's invariants prevent this, but it is handled defensively.
#[derive(Debug, Clone, Copy, PartialEq, Eq, Structural)]
pub enum VaultError {
    WrongPassphrase,
    KeyFormat,
    Encrypt,
    Decrypt,
    WrongExportPassphrase,
    Storage,
    InvalidSelection,
}

impl VaultError {
    /// A short human-readable description, for the collaborating UI layer.
    pub fn describe(&self) -> (r: &'static str)
        ensures
            r@ == spec_describe(*self),
    {
        match self {
            VaultError::WrongPassphrase => "wrong passphrase",
            VaultError::KeyFormat => "malformed or unverifiable key",
            VaultError::Encrypt => "encryption failed",
            VaultError::Decrypt => "decryption failed",
            VaultError::WrongExportPassphrase => "wrong export passphrase",
            VaultError::Storage => "storage failure",
            VaultError::InvalidSelection => "selection out of bounds",
        }
    }
}

/// The description each error kind carries.
pub open spec fn spec_describe(e: VaultError) -> Seq<char> {
    match e {
        VaultError::WrongPassphrase => "wrong passphrase"@,
        VaultError::KeyFormat => "malformed or unverifiable key"@,
        VaultError::Encrypt => "encryption failed"@,
        VaultError::Decrypt => "decryption failed"@,
        VaultError::WrongExportPassphrase => "wrong export passphrase"@,
        VaultError::Storage => "storage failure"@,
        VaultError::InvalidSelection => "selection out of bounds"@,
    }
}

} // verus!
