//! A local secrets vault: credential records encrypted at rest under a key
//! derived from a master password.

pub mod codec;
pub mod creator;
pub mod crypto;
pub mod encoding;
pub mod manager;
pub mod secret;
pub mod vault;
