//! Chain identity and asset identity.

use vstd::prelude::*;

verus! {

/// A blockchain network that the library can serve.
#[derive(Clone, Copy, Debug, PartialEq, Eq, Hash, Structural)]
pub enum Chain {
    Bitcoin,
    Ethereum,
    Solana,
    Aptos,
}

/// Identifies a chain's native asset (`token_id` is `None`) or one token
/// contract on that chain.
#[derive(Clone, Debug, PartialEq, Eq)]
pub struct AssetId {
    pub chain: Chain,
    pub token_id: Option<String>,
}

pub struct AssetIdView {
    pub chain: Chain,
    pub token_id: Option<Seq<char>>,
}

impl View for AssetId {
    type V = AssetIdView;

    open spec fn view(&self) -> AssetIdView {
        AssetIdView {
            chain: self.chain,
            token_id: match self.token_id {
                Some(t) => Some(t@),
                None => None,
            },
        }
    }
}

/// The identity of `chain`'s native asset.
pub open spec fn native_asset(chain: Chain) -> AssetIdView {
    AssetIdView { chain, token_id: None }
}

impl AssetId {
    /// The native asset of `chain`.
    pub fn from_chain(chain: Chain) -> (r: AssetId)
        ensures
            r@ == native_asset(chain),
    {
        AssetId { chain, token_id: None }
    }
}

} // verus!
