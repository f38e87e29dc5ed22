//! The ways in which building a template's outputs, scripts or spends can fail.
use vstd::prelude::*;

verus! {

/// Why a template could not be hashed, locked or spent.
#[derive(Debug, Clone, Copy, PartialEq, Eq, Structural)]
pub enum Error {
    /// A spend was asked of a template with no sequences.
    MissingSequence,
    /// A spend was asked of a template that commits to an input index other than that
    /// of the spending transaction's single input.
    InputIndexOutOfRange,
    /// A data payload is too long for a single push.
    BitcoinStackItemSize,
    /// An address does not parse, or belongs to another network.
    BitcoinAddress,
    /// The taproot tree over the internal key could not be built.
    TaprootBuilderError,
}

impl Error {
    /// A short description of the error.
    pub fn message(&self) -> (r: &'static str)
        ensures
            *self == Error::MissingSequence ==> r@ == "Missing sequence"@,
            *self == Error::InputIndexOutOfRange ==> r@ == "Input index out of range"@,
            *self == Error::BitcoinStackItemSize ==> r@ == "Data too long for a single push"@,
            *self == Error::BitcoinAddress ==> r@ == "Address invalid for the network"@,
            *self == Error::TaprootBuilderError ==> r@ == "Taproot not finalizable"@,
    {
        match self {
            Error::MissingSequence => "Missing sequence",
            Error::InputIndexOutOfRange => "Input index out of range",
            Error::BitcoinStackItemSize => "Data too long for a single push",
            Error::BitcoinAddress => "Address invalid for the network",
            Error::TaprootBuilderError => "Taproot not finalizable",
        }
    }
}

} // verus!
