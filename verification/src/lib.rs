//! Locates an encrypted, file-based secret store on disk and enumerates the
//! recipient identities authorized to decrypt its entries, and defines a
//! capability abstraction over a cryptographic key-management backend so that
//! store logic can be exercised without a real keyring.

pub mod keys;
pub mod store;

pub use store::get_recipients;
pub use store::get_root;
