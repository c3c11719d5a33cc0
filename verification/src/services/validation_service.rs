//! The self-check at start-up: the balances of known users, looked up once
//! and reported line by line.

use crate::domain::account::{AccountBalance, AccountEntry};
use crate::services::blockchain_service::BlockchainService;
use std::sync::Arc;
use vstd::prelude::*;
use vstd::string::*;

verus! {

/// The self-check, around the facade that it asks.
pub struct ValidationService {
    pub blockchain_service: Arc<BlockchainService>,
}

/// A line of the report: who, how much, of what.
pub open spec fn report_line(who: Seq<char>, balance: Seq<char>, symbol: Seq<char>) -> Seq<char> {
    who + ": "@ + balance + " "@ + symbol
}

/// The report of one user's balances: for each balance in order two lines,
/// the first under the wallet's address and the second under the user's name.
pub open spec fn report_lines(
    user: Seq<char>,
    balances: Seq<AccountEntry>,
    symbol: Seq<char>,
) -> Seq<Seq<char>> {
    Seq::new(
        2 * balances.len(),
        |i: int|
            report_line(
                if i % 2 == 0 {
                    balances[i / 2].address
                } else {
                    user
                },
                balances[i / 2].balance,
                symbol,
            ),
    )
}

/// The views of a list of lines, in order.
pub open spec fn lines(list: Seq<String>) -> Seq<Seq<char>> {
    Seq::new(list.len(), |i: int| list[i]@)
}

/// One line of the report.
fn line(who: &str, balance: &str, symbol: &str) -> (text: String)
    ensures
        text@ == report_line(who@, balance@, symbol@),
{
    String::from_str(who).concat(": ").concat(balance).concat(" ").concat(symbol)
}

impl ValidationService {
    /// The token contract that the self-check asks about.
    pub const CONTRACT_ADDRESS: &'static str = "0x0000000000000000000000000000000000001111";

    /// The self-check around a facade.
    pub fn new(blockchain_service: BlockchainService) -> (service: ValidationService)
        ensures
            *service.blockchain_service == blockchain_service,
    {
        ValidationService { blockchain_service: Arc::new(blockchain_service) }
    }

    /// The lines that report one user's balances of a token.
    pub fn report(user: &str, balances: &Vec<AccountBalance>, symbol: &str) -> (report: Vec<
        String,
    >)
        ensures
            lines(report@) == report_lines(
                user@,
                Seq::new(balances.len() as nat, |i: int| balances[i]@),
                symbol@,
            ),
    {
        let ghost entries = Seq::new(balances.len() as nat, |i: int| balances[i]@);
        let mut report: Vec<String> = Vec::new();
        let mut i: usize = 0;
        while i < balances.len()
            invariant
                i <= balances.len(),
                entries == Seq::new(balances.len() as nat, |i: int| balances[i]@),
                report.len() == 2 * i,
                forall|k: int|
                    0 <= k < report.len() ==> (#[trigger] report[k])@ == report_lines(
                        user@,
                        entries,
                        symbol@,
                    )[k],
            decreases balances.len() - i,
        {
            let entry = &balances[i];
            report.push(line(entry.address.as_str(), entry.balance.as_str(), symbol));
            report.push(line(user, entry.balance.as_str(), symbol));
            i = i + 1;
        }
        assert(lines(report@) =~= report_lines(user@, entries, symbol@));
        report
    }
}

} // verus!
