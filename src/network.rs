//! The Bitcoin networks that addresses are rendered for.
use vstd::prelude::*;

verus! {

/// A Bitcoin network. It is not committed to by a template hash; it only decides
/// which addresses are accepted and how addresses are written.
#[derive(Debug, Clone, Copy, PartialEq, Eq, Hash, Structural)]
pub enum Network {
    Bitcoin,
    Testnet,
    Testnet4,
    Signet,
    Regtest,
}

} // verus!
