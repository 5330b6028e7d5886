pub mod bytes;
pub mod crypto;
pub mod dispatch;
pub mod engine;
pub mod error;
pub mod keys;
pub mod store;
