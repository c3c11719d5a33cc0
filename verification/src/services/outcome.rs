//! What a balance lookup comes to as a whole, and what holds of it.

use crate::domain::account::AccountEntry;
use crate::domain::address::is_canonical_address;
use crate::domain::amount::{overflow_text, scale_in_range, scaled_text};
use crate::error::ServiceFault;
use crate::services::ethereum::{invalid_address, BatchMove, BatchState};
use vstd::prelude::*;

verus! {

/// What one wallet comes to, given the chain's answer to the read of its
/// balance: its entry, or the first thing that fails of the address, the read
/// and the scaling.
pub open spec fn wallet_outcome(
    wallet: Seq<char>,
    reply: Result<nat, Seq<char>>,
    decimals: int,
) -> Result<AccountEntry, ServiceFault> {
    if !is_canonical_address(wallet) {
        Err(invalid_address(wallet))
    } else {
        match reply {
            Err(cause) => Err(ServiceFault::Contract(cause)),
            Ok(amount) => if !scale_in_range(decimals) {
                Err(ServiceFault::Conversion(overflow_text()))
            } else {
                Ok(AccountEntry { address: wallet, balance: scaled_text(amount, decimals as nat) })
            },
        }
    }
}

/// What a list of wallets comes to, `replies[i]` being the chain's answer for
/// the wallet at `i`: the entries of all of them in order, or the failure of
/// the first wallet that has one.
pub open spec fn balances_outcome(
    wallets: Seq<Seq<char>>,
    replies: Seq<Result<nat, Seq<char>>>,
    decimals: int,
) -> Result<Seq<AccountEntry>, ServiceFault>
    decreases wallets.len(),
{
    if wallets.len() == 0 {
        Ok(Seq::empty())
    } else {
        match balances_outcome(wallets.drop_last(), replies, decimals) {
            Err(fault) => Err(fault),
            Ok(found) => match wallet_outcome(
                wallets.last(),
                replies[wallets.len() - 1],
                decimals,
            ) {
                Err(fault) => Err(fault),
                Ok(entry) => Ok(found.push(entry)),
            },
        }
    }
}

/// What a lookup comes to when it is carried on from a state, move by move,
/// each read answered by the reply at the wallet's place.
pub open spec fn run(state: BatchState, replies: Seq<Result<nat, Seq<char>>>) -> Result<
    Seq<AccountEntry>,
    ServiceFault,
>
    decreases state.wallets.len() - state.balances.len(),
{
    match state.step() {
        BatchMove::Finished(balances) => Ok(balances),
        BatchMove::Failed(fault) => Err(fault),
        BatchMove::Query(_) => match state.resumed(replies[state.balances.len() as int]) {
            Err(fault) => Err(fault),
            Ok(next) => run(next, replies),
        },
    }
}

/// A failure among the first wallets is the failure of the whole list.
proof fn lemma_failure_persists(
    wallets: Seq<Seq<char>>,
    replies: Seq<Result<nat, Seq<char>>>,
    decimals: int,
    k: int,
)
    requires
        0 <= k <= wallets.len(),
        balances_outcome(wallets.take(k), replies, decimals) is Err,
    ensures
        balances_outcome(wallets, replies, decimals) == balances_outcome(
            wallets.take(k),
            replies,
            decimals,
        ),
    decreases wallets.len() - k,
{
    if k == wallets.len() {
        assert(wallets.take(k) =~= wallets);
    } else {
        assert(wallets.drop_last().take(k) =~= wallets.take(k));
        lemma_failure_persists(wallets.drop_last(), replies, decimals, k);
    }
}

/// Carried on from any state whose balances are those of the wallets before
/// it, a lookup comes to what the whole list comes to.
proof fn lemma_run_from(state: BatchState, replies: Seq<Result<nat, Seq<char>>>)
    requires
        state.balances.len() <= state.wallets.len(),
        balances_outcome(
            state.wallets.take(state.balances.len() as int),
            replies,
            state.decimals,
        ) == Ok::<_, ServiceFault>(state.balances),
    ensures
        run(state, replies) == balances_outcome(state.wallets, replies, state.decimals),
    decreases state.wallets.len() - state.balances.len(),
{
    let k = state.balances.len() as int;
    let wallets = state.wallets;
    if k >= wallets.len() {
        assert(wallets.take(k) =~= wallets);
    } else {
        let upto = wallets.take(k + 1);
        assert(upto.drop_last() =~= wallets.take(k));
        assert(upto.last() == wallets[k]);
        let here = wallet_outcome(wallets[k], replies[k], state.decimals);
        match here {
            Err(fault) => {
                assert(balances_outcome(upto, replies, state.decimals) == Err::<
                    Seq<AccountEntry>,
                    _,
                >(fault));
                lemma_failure_persists(wallets, replies, state.decimals, k + 1);
            },
            Ok(entry) => {
                let next = state.resumed(replies[k])->Ok_0;
                assert(next.balances == state.balances.push(entry));
                assert(balances_outcome(upto, replies, state.decimals) == Ok::<_, ServiceFault>(
                    next.balances,
                ));
                lemma_run_from(next, replies);
            },
        }
    }
}

/// Move by move, a lookup that starts with no balance comes to the entries
/// of all wallets in order, or to the failure of the first wallet that has
/// one.
pub proof fn lemma_run_is_outcome(
    decimals: int,
    contract: Seq<u8>,
    wallets: Seq<Seq<char>>,
    replies: Seq<Result<nat, Seq<char>>>,
)
    ensures
        run(BatchState::initial(decimals, contract, wallets), replies) == balances_outcome(
            wallets,
            replies,
            decimals,
        ),
{
    let state = BatchState::initial(decimals, contract, wallets);
    assert(wallets.take(0) =~= Seq::<Seq<char>>::empty());
    lemma_run_from(state, replies);
}

/// A lookup succeeds only as a whole: there is a result exactly when every
/// wallet has an entry, and it then holds the entry of each wallet at the
/// wallet's place.
pub proof fn lemma_all_or_nothing(
    wallets: Seq<Seq<char>>,
    replies: Seq<Result<nat, Seq<char>>>,
    decimals: int,
)
    ensures
        balances_outcome(wallets, replies, decimals) is Ok <==> (forall|i: int|
            0 <= i < wallets.len() ==> (#[trigger] wallet_outcome(
                wallets[i],
                replies[i],
                decimals,
            )) is Ok),
        balances_outcome(wallets, replies, decimals) matches Ok(found) ==> {
            &&& found.len() == wallets.len()
            &&& forall|i: int|
                0 <= i < wallets.len() ==> wallet_outcome(wallets[i], replies[i], decimals) == Ok::<
                    _,
                    ServiceFault,
                >(#[trigger] found[i])
        },
    decreases wallets.len(),
{
    if wallets.len() > 0 {
        let front = wallets.drop_last();
        lemma_all_or_nothing(front, replies, decimals);
        let last = wallets.len() - 1;
        if balances_outcome(wallets, replies, decimals) is Ok {
            assert forall|i: int| 0 <= i < wallets.len() implies (#[trigger] wallet_outcome(
                wallets[i],
                replies[i],
                decimals,
            )) is Ok by {
                if i < last {
                    assert(front[i] == wallets[i]);
                    assert(wallet_outcome(front[i], replies[i], decimals) is Ok);
                }
            }
            let found = balances_outcome(wallets, replies, decimals)->Ok_0;
            let before = balances_outcome(front, replies, decimals)->Ok_0;
            let entry = wallet_outcome(wallets.last(), replies[last], decimals)->Ok_0;
            assert(found == before.push(entry));
            assert(before.len() == front.len());
            assert forall|i: int| 0 <= i < wallets.len() implies wallet_outcome(
                wallets[i],
                replies[i],
                decimals,
            ) == Ok::<_, ServiceFault>(#[trigger] found[i]) by {
                if i < last {
                    assert(found[i] == before[i]);
                    assert(front[i] == wallets[i]);
                } else {
                    assert(found[i] == entry);
                }
            }
        } else {
            if forall|i: int|
                0 <= i < wallets.len() ==> (#[trigger] wallet_outcome(
                    wallets[i],
                    replies[i],
                    decimals,
                )) is Ok {
                assert(wallet_outcome(wallets[last], replies[last], decimals) is Ok);
                assert forall|i: int| 0 <= i < front.len() implies (#[trigger] wallet_outcome(
                    front[i],
                    replies[i],
                    decimals,
                )) is Ok by {
                    assert(front[i] == wallets[i]);
                    assert(wallet_outcome(wallets[i], replies[i], decimals) is Ok);
                }
                assert(false);
            }
        }
    }
}

/// Every balance of a result is the raw balance that the chain gave for the
/// wallet at its place, scaled by the one number of decimals that the lookup
/// was begun with, under the wallet's text as the caller wrote it.
pub proof fn lemma_every_balance_scaled_alike(
    wallets: Seq<Seq<char>>,
    replies: Seq<Result<nat, Seq<char>>>,
    decimals: int,
    i: int,
)
    requires
        balances_outcome(wallets, replies, decimals) is Ok,
        0 <= i < wallets.len(),
    ensures
        scale_in_range(decimals),
        is_canonical_address(wallets[i]),
        replies[i] is Ok,
        balances_outcome(wallets, replies, decimals)->Ok_0.len() == wallets.len(),
        balances_outcome(wallets, replies, decimals)->Ok_0[i] == (AccountEntry {
            address: wallets[i],
            balance: scaled_text(replies[i]->Ok_0, decimals as nat),
        }),
{
    lemma_all_or_nothing(wallets, replies, decimals);
    let found = balances_outcome(wallets, replies, decimals)->Ok_0;
    assert(wallet_outcome(wallets[i], replies[i], decimals) == Ok::<_, ServiceFault>(found[i]));
}

/// A lookup fails fast: the first wallet that has a failure decides, whatever
/// the wallets before it came to, and nothing of them is in the outcome.
pub proof fn lemma_first_failure_decides(
    wallets: Seq<Seq<char>>,
    replies: Seq<Result<nat, Seq<char>>>,
    decimals: int,
    at: int,
)
    requires
        0 <= at < wallets.len(),
        wallet_outcome(wallets[at], replies[at], decimals) is Err,
        forall|i: int|
            0 <= i < at ==> (#[trigger] wallet_outcome(wallets[i], replies[i], decimals)) is Ok,
    ensures
        balances_outcome(wallets, replies, decimals) == Err::<Seq<AccountEntry>, _>(
            wallet_outcome(wallets[at], replies[at], decimals)->Err_0,
        ),
{
    let upto = wallets.take(at + 1);
    let before = wallets.take(at);
    assert(upto.drop_last() =~= before);
    assert(upto.last() == wallets[at]);
    lemma_all_or_nothing(before, replies, decimals);
    assert forall|i: int| 0 <= i < before.len() implies (#[trigger] wallet_outcome(
        before[i],
        replies[i],
        decimals,
    )) is Ok by {
        assert(before[i] == wallets[i]);
        assert(wallet_outcome(wallets[i], replies[i], decimals) is Ok);
    }
    lemma_failure_persists(wallets, replies, decimals, at + 1);
}

/// With no wallet to look at, a lookup is finished at its first move, with
/// no balance and no failure.
pub proof fn lemma_no_wallets(decimals: int, contract: Seq<u8>, replies: Seq<Result<nat, Seq<char>>>)
    ensures
        BatchState::initial(decimals, contract, Seq::empty()).step() == BatchMove::Finished(
            Seq::empty(),
        ),
        balances_outcome(Seq::empty(), replies, decimals) == Ok::<_, ServiceFault>(
            Seq::<AccountEntry>::empty(),
        ),
{
}

} // verus!
