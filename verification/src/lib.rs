//! A terminal credential vault: secrets are individually encrypted under an
//! operator-held asymmetric master key, navigated through a paged terminal
//! interface, and the master key itself can be exported as a password-protected
//! backup bundle.
//!
//! The crate is organised around three verified cores:
//! - the key ring ([`signer`]): master-key lifecycle and per-secret
//!   encryption/decryption, delegating the raw cryptography to the `pgp` and
//!   `rsa` crates behind trusted wrappers;
//! - the backup codec ([`exporter`]): password-based wrapping of the exported
//!   master-key material (PBKDF2 key stretching plus AES-256-CBC);
//! - the page state machine ([`app`], [`state`], [`events`]): a single-threaded
//!   reducer that turns key events into page transitions and vault operations.
//!
//! File and terminal I/O, rendering and the clipboard are collaborators that
//! the state machine reaches only through the traits in [`store`].

pub mod app;
pub mod config;
pub mod errors;
pub mod events;
pub mod exporter;
pub mod help;
pub mod password;
pub mod signer;
pub mod state;
pub mod store;
pub mod text;

pub use errors::VaultError;
