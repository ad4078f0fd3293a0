//! Collaborator contracts: the interfaces the vault core needs from its
//! environment. The core never performs I/O itself; it encrypts before
//! calling [`SecretStore::write`] and decrypts after [`SecretStore::read`],
//! so no collaborator ever sees plaintext at rest.
//!
//! These traits are implemented outside the verified core (by the file-system
//! and clipboard layers, and by in-memory doubles in tests). Nothing is
//! assumed of their behaviour: every result is handled, and a failure
//! surfaces as [`VaultError::Storage`] rather than stopping the event loop.

use vstd::prelude::*;

use crate::errors::VaultError;

verus! {

/// A named blob store: one independently encrypted blob per secret name.
pub trait SecretStore {
    /// The names of all stored secrets.
    fn list(&mut self) -> Result<Vec<String>, VaultError>;

    /// The ciphertext stored under `name`.
    fn read(&mut self, name: &str) -> Result<Vec<u8>, VaultError>;

    /// Store `data` under `name`, replacing any previous blob.
    fn write(&mut self, name: &str, data: &[u8]) -> Result<(), VaultError>;

    /// Remove the blob stored under `name`.
    fn delete(&mut self, name: &str) -> Result<(), VaultError>;
}

/// The clipboard collaborator: receives decrypted secrets on request.
pub trait Clipboard {
    /// Place `contents` on the clipboard.
    fn set_contents(&mut self, contents: String) -> Result<(), VaultError>;
}

/// The sink that receives an export bundle, at an operator-chosen location.
pub trait ExportSink {
    /// Write the bundle bytes to `path`.
    fn save(&mut self, path: &str, data: &[u8]) -> Result<(), VaultError>;
}

} // verus!
