//! The adapter for Ethereum-compatible chains: what to read from a token
//! contract, in which order, and what to make of the answers. The reads
//! themselves are made by the caller, who hands each answer back.

use crate::domain::account::{entries, AccountBalance, AccountEntry};
use crate::domain::address::{
    address_bytes, is_canonical_address, rejection_diagnostic, Address,
};
use crate::domain::amount::{overflow_text, scale_in_range, scaled_text, RawBalance};
use crate::domain::token::{TokenFacts, TokenInfo};
use crate::error::{BlockchainServiceError, ServiceFault};
use crate::services::blockchain_service::BlockchainAdapter;
use vstd::prelude::*;

verus! {

/// A read-only call of the standard token interface.
#[derive(Debug, Clone, Copy, PartialEq, Eq)]
pub enum ContractCall {
    /// `symbol()` of the contract.
    Symbol { contract: Address },
    /// `decimals()` of the contract.
    Decimals { contract: Address },
    /// `name()` of the contract.
    Name { contract: Address },
    /// `balanceOf(owner)` of the contract.
    BalanceOf { contract: Address, owner: Address },
}

/// The fault that a rejected address text is reported with.
pub open spec fn invalid_address(raw: Seq<char>) -> ServiceFault {
    ServiceFault::InvalidAddress { raw, diagnostic: rejection_diagnostic(raw) }
}

/// A token lookup that waits for the contract's symbol.
#[derive(Debug)]
pub struct SymbolPending {
    pub contract: Address,
}

/// A token lookup that has the symbol and waits for the decimals.
#[derive(Debug)]
pub struct DecimalsPending {
    pub contract: Address,
    pub symbol: String,
}

/// A token lookup that has symbol and decimals and waits for the name.
#[derive(Debug)]
pub struct NamePending {
    pub contract: Address,
    pub symbol: String,
    pub decimals: u8,
}

/// An answer of the chain that is a raw amount, by its view.
pub open spec fn amount_reply(reply: Result<RawBalance, String>) -> Result<nat, Seq<char>> {
    match reply {
        Ok(amount) => Ok(amount@),
        Err(cause) => Err(cause@),
    }
}

impl SymbolPending {
    /// The read that this stage waits for.
    pub fn call(&self) -> (c: ContractCall)
        ensures
            c == (ContractCall::Symbol { contract: self.contract }),
    {
        ContractCall::Symbol { contract: self.contract }
    }

    /// Takes the answer to `symbol()`. A failed read ends the lookup with a
    /// contract error that holds its cause.
    pub fn resume(self, reply: Result<String, String>) -> (r: Result<
        DecimalsPending,
        BlockchainServiceError,
    >)
        ensures
            match reply {
                Ok(symbol) => r matches Ok(next) && next.contract == self.contract && next.symbol@
                    == symbol@,
                Err(cause) => r matches Err(e) && e@ == ServiceFault::Contract(cause@),
            },
    {
        match reply {
            Ok(symbol) => Ok(DecimalsPending { contract: self.contract, symbol }),
            Err(cause) => Err(BlockchainServiceError::EthContractError(cause)),
        }
    }
}

impl DecimalsPending {
    /// The read that this stage waits for.
    pub fn call(&self) -> (c: ContractCall)
        ensures
            c == (ContractCall::Decimals { contract: self.contract }),
    {
        ContractCall::Decimals { contract: self.contract }
    }

    /// Takes the answer to `decimals()`. A failed read ends the lookup with a
    /// contract error that holds its cause.
    pub fn resume(self, reply: Result<u8, String>) -> (r: Result<
        NamePending,
        BlockchainServiceError,
    >)
        ensures
            match reply {
                Ok(decimals) => r matches Ok(next) && next.contract == self.contract
                    && next.symbol@ == self.symbol@ && next.decimals == decimals,
                Err(cause) => r matches Err(e) && e@ == ServiceFault::Contract(cause@),
            },
    {
        match reply {
            Ok(decimals) => Ok(
                NamePending { contract: self.contract, symbol: self.symbol, decimals },
            ),
            Err(cause) => Err(BlockchainServiceError::EthContractError(cause)),
        }
    }
}

impl NamePending {
    /// The read that this stage waits for.
    pub fn call(&self) -> (c: ContractCall)
        ensures
            c == (ContractCall::Name { contract: self.contract }),
    {
        ContractCall::Name { contract: self.contract }
    }

    /// Takes the answer to `name()` and completes the lookup: the token's
    /// name and symbol as the contract gave them, and its decimals widened to
    /// a signed integer. A failed read ends the lookup with a contract error
    /// that holds its cause.
    pub fn resume(self, reply: Result<String, String>) -> (r: Result<
        TokenInfo,
        BlockchainServiceError,
    >)
        ensures
            match reply {
                Ok(name) => r matches Ok(info) && info@ == (TokenFacts {
                    name: name@,
                    symbol: self.symbol@,
                    decimals: self.decimals as int,
                }),
                Err(cause) => r matches Err(e) && e@ == ServiceFault::Contract(cause@),
            },
    {
        match reply {
            Ok(name) => Ok(TokenInfo::new(name, self.symbol, self.decimals as i32)),
            Err(cause) => Err(BlockchainServiceError::EthContractError(cause)),
        }
    }
}

/// Whether a text parses as the URL of a node's endpoint.
pub uninterp spec fn endpoint_parses(url: Seq<char>) -> bool;

/// Asks `TryFrom<&str>` of `ethers::providers::Provider<Http>` whether it
/// takes a text: it does when the text parses as a URL. Nothing is sent to
/// the node, and the answer depends on the text alone.
#[verifier::external_body]
pub(crate) fn parses_as_endpoint(url: &str) -> (b: bool)
    ensures
        b == endpoint_parses(url@),
{
    ethers::providers::Provider::<ethers::providers::Http>::try_from(url).is_ok()
}

/// The adapter for one Ethereum-compatible network, bound to the endpoint of
/// its node.
#[derive(Debug)]
pub struct EthereumClient {
    pub provider_url: String,
}

impl EthereumClient {
    /// An adapter bound to the node at `provider_url`, which must parse as a
    /// URL.
    pub fn new(provider_url: &str) -> (client: EthereumClient)
        requires
            endpoint_parses(provider_url@),
        ensures
            client.provider_url@ == provider_url@,
    {
        EthereumClient { provider_url: String::from_str(provider_url) }
    }

    /// An adapter bound to the node at `provider_url`, if that parses as a
    /// URL; none if it does not.
    pub fn try_new(provider_url: &str) -> (r: Option<EthereumClient>)
        ensures
            r is Some <==> endpoint_parses(provider_url@),
            r matches Some(client) ==> client.provider_url@ == provider_url@,
    {
        if parses_as_endpoint(provider_url) {
            Some(EthereumClient::new(provider_url))
        } else {
            None
        }
    }
}

/// The views of a list of texts, in order.
pub open spec fn texts(list: Seq<String>) -> Seq<Seq<char>> {
    Seq::new(list.len(), |i: int| list[i]@)
}

/// A balance lookup over a list of wallets, as far as it has come: the scale
/// of the token, its contract, the wallets as the caller wrote them, and the
/// balances found so far, one for each wallet from the first on.
pub struct BatchState {
    pub decimals: int,
    pub contract: Seq<u8>,
    pub wallets: Seq<Seq<char>>,
    pub balances: Seq<AccountEntry>,
}

/// What a balance lookup does next.
pub enum BatchMove {
    /// Every wallet has its balance: the list is the result.
    Finished(Seq<AccountEntry>),
    /// The lookup is given up, and nothing of it is kept.
    Failed(ServiceFault),
    /// The balance of this owner is to be read from the contract.
    Query(Seq<u8>),
}

impl BatchState {
    /// The state before any wallet has been looked at.
    pub open spec fn initial(decimals: int, contract: Seq<u8>, wallets: Seq<Seq<char>>) -> BatchState {
        BatchState { decimals, contract, wallets, balances: Seq::empty() }
    }

    /// Whether the balances found so far belong to the first wallets, in
    /// order.
    pub open spec fn well_formed(self) -> bool {
        &&& self.balances.len() <= self.wallets.len()
        &&& forall|i: int|
            0 <= i < self.balances.len() ==> (#[trigger] self.balances[i]).address
                == self.wallets[i]
    }

    /// The wallet whose turn it is.
    pub open spec fn next_wallet(self) -> Seq<char> {
        self.wallets[self.balances.len() as int]
    }

    /// The next move: the result when no wallet is left, else the wallet
    /// whose turn it is: a failure if it is no address, a read of its balance
    /// if it is one.
    pub open spec fn step(self) -> BatchMove {
        if self.balances.len() >= self.wallets.len() {
            BatchMove::Finished(self.balances)
        } else if !is_canonical_address(self.next_wallet()) {
            BatchMove::Failed(invalid_address(self.next_wallet()))
        } else {
            BatchMove::Query(address_bytes(self.next_wallet()))
        }
    }

    /// The state after the chain has answered the read for the wallet whose
    /// turn it is: its balance scaled by the token's decimals is added to the
    /// list, under the wallet's text as the caller wrote it. A failed read or
    /// a scale out of range ends the lookup.
    pub open spec fn resumed(self, reply: Result<nat, Seq<char>>) -> Result<
        BatchState,
        ServiceFault,
    > {
        match reply {
            Err(cause) => Err(ServiceFault::Contract(cause)),
            Ok(amount) => if !scale_in_range(self.decimals) {
                Err(ServiceFault::Conversion(overflow_text()))
            } else {
                Ok(
                    BatchState {
                        balances: self.balances.push(
                            AccountEntry {
                                address: self.next_wallet(),
                                balance: scaled_text(amount, self.decimals as nat),
                            },
                        ),
                        ..self
                    },
                )
            },
        }
    }
}

/// A balance lookup between two reads.
#[derive(Debug)]
pub struct BalanceBatch {
    token: TokenInfo,
    contract: Address,
    wallets: Vec<String>,
    balances: Vec<AccountBalance>,
}

/// A balance lookup that waits for the balance of one owner.
#[derive(Debug)]
pub struct BalanceQuery {
    batch: BalanceBatch,
    owner: Address,
}

/// The next move of a balance lookup, with what it takes to make it.
#[derive(Debug)]
pub enum BatchStep {
    /// Every wallet has its balance.
    Finished(Vec<AccountBalance>),
    /// The lookup is given up.
    Failed(BlockchainServiceError),
    /// A balance is to be read, and the answer handed to the query.
    Query(BalanceQuery),
}

impl View for BalanceBatch {
    type V = BatchState;

    closed spec fn view(&self) -> BatchState {
        BatchState {
            decimals: self.token.decimals as int,
            contract: self.contract@,
            wallets: texts(self.wallets@),
            balances: entries(self.balances@),
        }
    }
}

impl BalanceBatch {
    #[verifier::type_invariant]
    spec fn consistent(self) -> bool {
        self@.well_formed()
    }

    /// The token whose balances are looked up.
    pub closed spec fn token(self) -> TokenInfo {
        self.token
    }

    /// The next move of the lookup. With no wallet left it is finished, and
    /// the balances are the result. Else the wallet whose turn it is is
    /// validated: if it is no address the lookup fails, and the balances found
    /// so far are dropped; if it is one, its balance is to be read.
    pub fn advance(self) -> (step: BatchStep)
        ensures
            self@.well_formed(),
            step@ == self@.step(),
            step matches BatchStep::Query(query) ==> query.batch() == self,
    {
        proof {
            use_type_invariant(&self);
        }
        let done = self.balances.len();
        if done >= self.wallets.len() {
            return BatchStep::Finished(self.balances);
        }
        assert(self@.next_wallet() == self.wallets@[done as int]@);
        match Address::validate(self.wallets[done].as_str()) {
            Ok(owner) => BatchStep::Query(BalanceQuery { batch: self, owner }),
            Err(e) => BatchStep::Failed(e),
        }
    }
}

impl BatchStep {
    /// The move, by the views of what it holds.
    pub open spec fn view(&self) -> BatchMove {
        match *self {
            BatchStep::Finished(balances) => BatchMove::Finished(entries(balances@)),
            BatchStep::Failed(e) => BatchMove::Failed(e@),
            BatchStep::Query(query) => BatchMove::Query(query.owner()@),
        }
    }
}

impl BalanceQuery {
    #[verifier::type_invariant]
    spec fn consistent(self) -> bool {
        &&& self.batch@.well_formed()
        &&& self.batch@.balances.len() < self.batch@.wallets.len()
        &&& is_canonical_address(self.batch@.next_wallet())
        &&& self.owner@ == address_bytes(self.batch@.next_wallet())
    }

    /// The lookup that the query belongs to.
    pub closed spec fn batch(self) -> BalanceBatch {
        self.batch
    }

    /// The owner whose balance is asked for.
    pub closed spec fn owner(self) -> Address {
        self.owner
    }

    /// The read that the query waits for: `balanceOf` of the token contract,
    /// for the wallet whose turn it is.
    pub fn call(&self) -> (c: ContractCall)
        ensures
            c matches ContractCall::BalanceOf { contract, owner } && contract@
                == self.batch()@.contract && owner == self.owner(),
            self.owner()@ == address_bytes(self.batch()@.next_wallet()),
    {
        proof {
            use_type_invariant(self);
        }
        ContractCall::BalanceOf { contract: self.batch.contract, owner: self.owner }
    }

    /// Takes the answer to the read. A balance is scaled by the token's
    /// decimals and added to the list under the wallet's text as the caller
    /// wrote it. A failed read ends the lookup with a contract error that
    /// holds its cause, a scale out of range with a conversion error.
    pub fn resume(self, reply: Result<RawBalance, String>) -> (r: Result<
        BalanceBatch,
        BlockchainServiceError,
    >)
        ensures
            match self.batch()@.resumed(amount_reply(reply)) {
                Ok(state) => r matches Ok(batch) && batch@ == state && state.well_formed()
                    && batch.token() == self.batch().token(),
                Err(fault) => r matches Err(e) && e@ == fault,
            },
    {
        proof {
            use_type_invariant(&self);
        }
        let BalanceQuery { batch, owner: _ } = self;
        let amount = match reply {
            Ok(amount) => amount,
            Err(cause) => {
                return Err(BlockchainServiceError::EthContractError(cause));
            },
        };
        let text = match amount.format_units(batch.token.decimals) {
            Ok(text) => text,
            Err(e) => {
                return Err(e);
            },
        };
        let BalanceBatch { token, contract, wallets, mut balances } = batch;
        let ghost before = entries(balances@);
        let address = wallets[balances.len()].clone();
        balances.push(AccountBalance::new(address, text));
        assert(entries(balances@) =~= before.push(
            AccountEntry {
                address: texts(wallets@)[before.len() as int],
                balance: scaled_text(amount@, token.decimals as nat),
            },
        ));
        Ok(BalanceBatch { token, contract, wallets, balances })
    }
}

impl BlockchainAdapter for EthereumClient {
    fn get_token_by_address(&self, token_address: &str) -> (r: Result<
        SymbolPending,
        BlockchainServiceError,
    >)
    {
        match Address::validate(token_address) {
            Ok(contract) => Ok(SymbolPending { contract }),
            Err(e) => Err(e),
        }
    }

    fn get_account_balance(
        &self,
        resolution: Result<TokenInfo, BlockchainServiceError>,
        token_address: &str,
        wallet_addresses: Vec<String>,
    ) -> (r: Result<BalanceBatch, BlockchainServiceError>)
    {
        let token = match resolution {
            Ok(token) => token,
            Err(failure) => {
                return Err(failure);
            },
        };
        let contract = match Address::validate(token_address) {
            Ok(contract) => contract,
            Err(e) => {
                return Err(e);
            },
        };
        let balances: Vec<AccountBalance> = Vec::new();
        assert(entries(balances@) =~= Seq::<AccountEntry>::empty());
        Ok(BalanceBatch { token, contract, wallets: wallet_addresses, balances })
    }
}

} // verus!
