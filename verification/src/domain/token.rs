//! Metadata of a token contract.

use vstd::prelude::*;

verus! {

/// Name, symbol and decimal scale of a token contract.
#[derive(Debug, Clone, PartialEq, Eq)]
pub struct TokenInfo {
    pub name: String,
    pub symbol: String,
    pub decimals: i32,
}

/// A `TokenInfo` with its texts as sequences of characters.
pub struct TokenFacts {
    pub name: Seq<char>,
    pub symbol: Seq<char>,
    pub decimals: int,
}

impl View for TokenInfo {
    type V = TokenFacts;

    open spec fn view(&self) -> TokenFacts {
        TokenFacts { name: self.name@, symbol: self.symbol@, decimals: self.decimals as int }
    }
}

impl TokenInfo {
    /// Bundles the three values read from a token contract.
    pub fn new(name: String, symbol: String, decimals: i32) -> (info: TokenInfo)
        ensures
            info.name == name,
            info.symbol == symbol,
            info.decimals == decimals,
    {
        TokenInfo { name, symbol, decimals }
    }
}

} // verus!
