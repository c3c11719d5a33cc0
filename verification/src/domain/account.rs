//! The balance of one wallet, as shown to callers.

use vstd::prelude::*;

verus! {

/// A wallet address as the caller supplied it, and its balance as display
/// text.
#[derive(Debug, Clone, PartialEq, Eq)]
pub struct AccountBalance {
    pub address: String,
    pub balance: String,
}

/// An `AccountBalance` with its texts as sequences of characters.
pub struct AccountEntry {
    pub address: Seq<char>,
    pub balance: Seq<char>,
}

impl View for AccountBalance {
    type V = AccountEntry;

    open spec fn view(&self) -> AccountEntry {
        AccountEntry { address: self.address@, balance: self.balance@ }
    }
}

impl AccountBalance {
    /// Pairs an address with its balance text.
    pub fn new(address: String, balance: String) -> (entry: AccountBalance)
        ensures
            entry.address == address,
            entry.balance == balance,
    {
        AccountBalance { address, balance }
    }
}

/// The views of a list of balances, in order.
pub open spec fn entries(balances: Seq<AccountBalance>) -> Seq<AccountEntry> {
    Seq::new(balances.len(), |i: int| balances[i]@)
}

} // verus!
