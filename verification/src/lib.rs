//! A minimal relay for account-abstraction operations: one submitted
//! operation is packaged into a call on the entry point contract, signed by
//! the bundler's account and wrapped into a bundle for a private relay.
pub mod bundle;
pub mod bundler;
pub mod cors;
pub mod error;
pub mod eth;
pub mod methods;
pub mod operation;
pub mod packager;
pub mod primitives;
pub mod server;
pub mod signing;
pub mod transaction;
