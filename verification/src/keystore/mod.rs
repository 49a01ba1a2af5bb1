//! A store of keys and secrets that programs plug in, and the typed keys that
//! live in it.
pub mod call_laws;
pub mod calls;
pub mod key_laws;
pub mod keys;
pub mod laws;
pub mod store;
pub mod types;
