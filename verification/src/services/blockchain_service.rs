//! The facade over the chain adapters: one adapter for each supported chain,
//! picked by the chain's identifier.

use crate::domain::address::{address_bytes, is_canonical_address};
use crate::domain::token::TokenInfo;
use crate::environment::config::AppConfig;
use crate::error::BlockchainServiceError;
use crate::services::ethereum::{
    endpoint_parses, invalid_address, parses_as_endpoint, texts, BalanceBatch, BatchState,
    EthereumClient, SymbolPending,
};
use vstd::prelude::*;

verus! {

/// The chains that the facade can be asked about.
#[derive(Debug, Clone, Copy, PartialEq, Eq)]
pub enum BlockchainType {
    Ethereum,
}

/// What the adapter of every chain of the Ethereum family can do: begin the
/// lookup of a token's metadata, and begin the lookup of the balances of a
/// list of wallets. The chains of this family share the form of an address
/// and the token interface, so one contract holds of all their adapters.
pub trait BlockchainAdapter {
    /// Begins the lookup of a token's metadata. The address is validated
    /// first: with one that is not canonical nothing is read from the chain.
    fn get_token_by_address(&self, token_address: &str) -> (r: Result<
        SymbolPending,
        BlockchainServiceError,
    >)
        ensures
            is_canonical_address(token_address@) ==> (r matches Ok(stage) && stage.contract@
                == address_bytes(token_address@)),
            !is_canonical_address(token_address@) ==> (r matches Err(e) && e@ == invalid_address(
                token_address@,
            )),
    ;

    /// Begins the lookup of the balances of a list of wallets, given what the
    /// lookup of the token's metadata came to. A failed metadata lookup ends
    /// this one with the same failure, before any wallet is looked at. The
    /// token address is validated once more, for the contract that the
    /// balances are read from.
    fn get_account_balance(
        &self,
        resolution: Result<TokenInfo, BlockchainServiceError>,
        token_address: &str,
        wallet_addresses: Vec<String>,
    ) -> (r: Result<BalanceBatch, BlockchainServiceError>)
        ensures
            match resolution {
                Err(failure) => r matches Err(e) && e == failure,
                Ok(token) => if is_canonical_address(token_address@) {
                    r matches Ok(batch) && batch.token() == token && batch@ == BatchState::initial(
                        token.decimals as int,
                        address_bytes(token_address@),
                        texts(wallet_addresses@),
                    )
                } else {
                    r matches Err(e) && e@ == invalid_address(token_address@)
                },
            },
    ;
}

/// The adapter of one chain, picked from the set of supported chains.
#[derive(Debug, Clone, Copy)]
pub enum ChainClient<'a> {
    Ethereum(&'a EthereumClient),
}

impl<'a> BlockchainAdapter for ChainClient<'a> {
    fn get_token_by_address(&self, token_address: &str) -> (r: Result<
        SymbolPending,
        BlockchainServiceError,
    >) {
        match self {
            ChainClient::Ethereum(client) => client.get_token_by_address(token_address),
        }
    }

    fn get_account_balance(
        &self,
        resolution: Result<TokenInfo, BlockchainServiceError>,
        token_address: &str,
        wallet_addresses: Vec<String>,
    ) -> (r: Result<BalanceBatch, BlockchainServiceError>) {
        match self {
            ChainClient::Ethereum(client) => client.get_account_balance(
                resolution,
                token_address,
                wallet_addresses,
            ),
        }
    }
}

/// The facade: it owns the adapter of each supported chain.
#[derive(Debug)]
pub struct BlockchainService {
    pub eth_client: EthereumClient,
}

impl BlockchainService {
    /// A facade whose adapters are bound to the endpoints of the
    /// configuration, each of which must parse as a URL.
    pub fn new(app_config: &AppConfig) -> (service: BlockchainService)
        requires
            endpoint_parses(app_config.environment.provider_url@),
        ensures
            service.eth_client.provider_url@ == app_config.environment.provider_url@,
    {
        BlockchainService {
            eth_client: EthereumClient::new(app_config.environment.provider_url.as_str()),
        }
    }

    /// A facade whose adapters are bound to the endpoints of the
    /// configuration, if each parses as a URL; none if one does not.
    pub fn try_new(app_config: &AppConfig) -> (r: Option<BlockchainService>)
        ensures
            r is Some <==> endpoint_parses(app_config.environment.provider_url@),
            r matches Some(service) ==> service.eth_client.provider_url@
                == app_config.environment.provider_url@,
    {
        if parses_as_endpoint(app_config.environment.provider_url.as_str()) {
            Some(BlockchainService::new(app_config))
        } else {
            None
        }
    }

    /// The adapter of a chain: for every supported chain there is one, and it
    /// is the one that the facade owns.
    pub fn get_blockchain_client(&self, blockchain: BlockchainType) -> (client: ChainClient<'_>)
        ensures
            match blockchain {
                BlockchainType::Ethereum => client == ChainClient::Ethereum(&self.eth_client),
            },
    {
        match blockchain {
            BlockchainType::Ethereum => ChainClient::Ethereum(&self.eth_client),
        }
    }
}

} // verus!
