//! The supported instruments and the two hold-gesture kinds.

use vstd::prelude::*;

verus! {

/// An instrument that an attestation can be produced for.
#[derive(Clone, Copy, Debug, PartialEq, Eq, Structural)]
pub enum Asset {
    BTC,
    ETH,
    SOL,
}

/// The ticker symbol of an asset, as a sequence of characters.
pub open spec fn spec_symbol(a: Asset) -> Seq<char> {
    match a {
        Asset::BTC => "BTC"@,
        Asset::ETH => "ETH"@,
        Asset::SOL => "SOL"@,
    }
}

impl Asset {
    /// The ticker symbol of the asset.
    pub fn symbol(&self) -> (r: &'static str)
        ensures
            r@ == spec_symbol(*self),
    {
        match self {
            Asset::BTC => "BTC",
            Asset::ETH => "ETH",
            Asset::SOL => "SOL",
        }
    }
}

/// The two independent hold-to-confirm gestures. They share no timer state:
/// each has its own progress counter and holding flag.
#[derive(Clone, Copy, Debug, PartialEq, Eq, Structural)]
pub enum HoldKind {
    /// The third-vector gesture that reveals the session.
    Reveal,
    /// The gesture that authorizes one attestation.
    Sign,
}

} // verus!
