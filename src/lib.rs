//! Template hashes for OP_CHECKTEMPLATEVERIFY (BIP-119), the locking scripts and
//! addresses built on them, and the chains of transactions that spend them.
pub mod encoding;
pub mod hashing;
pub mod transaction;
pub mod error;
pub mod tmplhash;
pub mod network;
pub mod script;
pub mod ctv;
/// Useful utility functions.
pub mod util;

pub use crate::ctv::{Context, Fields, Output, TxType};
pub use crate::error::Error;
pub use crate::network::Network;
pub use crate::tmplhash::TemplateHash;
pub use crate::transaction::{Transaction, TxIn, TxOut};
