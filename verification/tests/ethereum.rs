use blockchain_facade::domain::account::AccountBalance;
use blockchain_facade::domain::address::Address;
use blockchain_facade::domain::amount::RawBalance;
use blockchain_facade::domain::token::TokenInfo;
use blockchain_facade::error::BlockchainServiceError;
use blockchain_facade::services::blockchain_service::BlockchainAdapter;
use blockchain_facade::services::ethereum::{BatchStep, ContractCall, EthereumClient};

const TOKEN: &str = "0x0000000000000000000000000000000000001111";
const WALLET_A: &str = "0xAb5801a7D398351b8bE11C439e05C5B3259aeC9B";
const WALLET_B: &str = "0x00000000219ab540356cBB839Cbe05303d7705Fa";
const WALLET_C: &str = "0x000000000000000000000000000000000000dEaD";

/// A chain that answers from fixed values and counts what it is asked.
struct MockChain {
    symbol: Result<String, String>,
    decimals: Result<u8, String>,
    name: Result<String, String>,
    balances: Vec<(Address, Result<RawBalance, String>)>,
    calls: Vec<ContractCall>,
}

impl MockChain {
    fn new(name: &str, symbol: &str, decimals: u8) -> MockChain {
        MockChain {
            symbol: Ok(symbol.to_string()),
            decimals: Ok(decimals),
            name: Ok(name.to_string()),
            balances: Vec::new(),
            calls: Vec::new(),
        }
    }

    fn holding(mut self, wallet: &str, amount: u64) -> MockChain {
        let owner = Address::validate(wallet).unwrap();
        self.balances.push((owner, Ok(RawBalance::new([amount, 0, 0, 0]))));
        self
    }

    fn failing_for(mut self, wallet: &str, cause: &str) -> MockChain {
        let owner = Address::validate(wallet).unwrap();
        self.balances.push((owner, Err(cause.to_string())));
        self
    }

    fn balance_of(&mut self, call: ContractCall) -> Result<RawBalance, String> {
        self.calls.push(call);
        match call {
            ContractCall::BalanceOf { owner, .. } => self
                .balances
                .iter()
                .find(|(known, _)| *known == owner)
                .map(|(_, reply)| reply.clone())
                .unwrap_or(Ok(RawBalance::new([0, 0, 0, 0]))),
            other => panic!("unexpected call {:?}", other),
        }
    }
}

fn resolve(
    client: &EthereumClient,
    chain: &mut MockChain,
    token_address: &str,
) -> Result<TokenInfo, BlockchainServiceError> {
    let stage = client.get_token_by_address(token_address)?;
    chain.calls.push(stage.call());
    let stage = stage.resume(chain.symbol.clone())?;
    chain.calls.push(stage.call());
    let stage = stage.resume(chain.decimals.clone())?;
    chain.calls.push(stage.call());
    stage.resume(chain.name.clone())
}

fn aggregate(
    client: &EthereumClient,
    chain: &mut MockChain,
    token_address: &str,
    wallets: &[&str],
) -> Result<Vec<AccountBalance>, BlockchainServiceError> {
    let resolution = resolve(client, chain, token_address);
    let wallets: Vec<String> = wallets.iter().map(|w| w.to_string()).collect();
    let mut batch = client.get_account_balance(resolution, token_address, wallets)?;
    loop {
        match batch.advance() {
            BatchStep::Finished(balances) => return Ok(balances),
            BatchStep::Failed(e) => return Err(e),
            BatchStep::Query(query) => {
                let reply = chain.balance_of(query.call());
                batch = query.resume(reply)?;
            }
        }
    }
}

fn client() -> EthereumClient {
    EthereumClient::new("http://localhost:8545")
}

fn token_contract() -> Address {
    Address::validate(TOKEN).unwrap()
}

#[test]
fn client_keeps_its_endpoint() {
    assert_eq!(client().provider_url, "http://localhost:8545");
}

#[test]
fn an_endpoint_that_parses_gives_a_client() {
    for url in ["http://localhost:8080", "http://localhost:8545", "https://node.example/rpc?key=1"] {
        let client = EthereumClient::try_new(url).unwrap();
        assert_eq!(client.provider_url, url);
    }
}

#[test]
fn an_endpoint_that_is_no_url_gives_none() {
    for url in ["", "not a url", "/relative/path", "http://", "://missing-scheme"] {
        assert!(EthereumClient::try_new(url).is_none(), "{:?}", url);
    }
}

#[test]
fn token_lookup_reads_symbol_decimals_and_name() {
    let mut chain = MockChain::new("Mock", "MTK", 6);
    let info = resolve(&client(), &mut chain, TOKEN).unwrap();
    assert_eq!(info, TokenInfo::new("Mock".to_string(), "MTK".to_string(), 6));
    let contract = token_contract();
    assert_eq!(
        chain.calls,
        vec![
            ContractCall::Symbol { contract },
            ContractCall::Decimals { contract },
            ContractCall::Name { contract },
        ]
    );
}

#[test]
fn decimals_are_widened_as_they_are() {
    let mut chain = MockChain::new("Wide", "W", 255);
    assert_eq!(resolve(&client(), &mut chain, TOKEN).unwrap().decimals, 255);
    let mut chain = MockChain::new("None", "N", 0);
    assert_eq!(resolve(&client(), &mut chain, TOKEN).unwrap().decimals, 0);
}

#[test]
fn invalid_token_address_never_reaches_the_chain() {
    for raw in ["", "0xValidToken", "not-an-address", "0000000000000000000000000000000000001111"] {
        let mut chain = MockChain::new("Mock", "MTK", 6);
        let result = resolve(&client(), &mut chain, raw);
        assert!(
            matches!(&result, Err(BlockchainServiceError::InvalidAddress { raw: said, .. }) if said == raw)
        );
        assert!(chain.calls.is_empty());
    }
}

#[test]
fn a_failed_read_ends_the_token_lookup() {
    let contract = token_contract();

    let mut chain = MockChain::new("Mock", "MTK", 6);
    chain.symbol = Err("symbol reverted".to_string());
    assert_eq!(
        resolve(&client(), &mut chain, TOKEN),
        Err(BlockchainServiceError::EthContractError("symbol reverted".to_string()))
    );
    assert_eq!(chain.calls, vec![ContractCall::Symbol { contract }]);

    let mut chain = MockChain::new("Mock", "MTK", 6);
    chain.decimals = Err("decimals reverted".to_string());
    assert_eq!(
        resolve(&client(), &mut chain, TOKEN),
        Err(BlockchainServiceError::EthContractError("decimals reverted".to_string()))
    );
    assert_eq!(chain.calls.len(), 2);

    let mut chain = MockChain::new("Mock", "MTK", 6);
    chain.name = Err("connection refused".to_string());
    assert_eq!(
        resolve(&client(), &mut chain, TOKEN),
        Err(BlockchainServiceError::EthContractError("connection refused".to_string()))
    );
    assert_eq!(chain.calls.len(), 3);
}

#[test]
fn the_first_failed_read_decides() {
    let mut chain = MockChain::new("Mock", "MTK", 6);
    chain.symbol = Err("first".to_string());
    chain.decimals = Err("second".to_string());
    chain.name = Err("third".to_string());
    assert_eq!(
        resolve(&client(), &mut chain, TOKEN),
        Err(BlockchainServiceError::EthContractError("first".to_string()))
    );
}

#[test]
fn balances_are_scaled_by_the_tokens_decimals() {
    let mut chain =
        MockChain::new("Mock", "MTK", 6).holding(WALLET_A, 1_500_000).holding(WALLET_B, 0);
    let balances = aggregate(&client(), &mut chain, TOKEN, &[WALLET_A, WALLET_B]).unwrap();
    assert_eq!(
        balances,
        vec![
            AccountBalance::new(WALLET_A.to_string(), "1.5".to_string()),
            AccountBalance::new(WALLET_B.to_string(), "0".to_string()),
        ]
    );
}

#[test]
fn every_balance_of_a_request_has_the_same_scale() {
    for decimals in [0u8, 1, 6, 18] {
        let mut chain = MockChain::new("Mock", "MTK", decimals)
            .holding(WALLET_A, 123_456_789)
            .holding(WALLET_B, 1)
            .holding(WALLET_C, 1_000_000_000_000_000_000);
        let balances =
            aggregate(&client(), &mut chain, TOKEN, &[WALLET_A, WALLET_B, WALLET_C]).unwrap();
        let expected: Vec<String> = [123_456_789u64, 1, 1_000_000_000_000_000_000]
            .iter()
            .map(|raw| RawBalance::new([*raw, 0, 0, 0]).format_units(decimals as i32).unwrap())
            .collect();
        let found: Vec<String> = balances.iter().map(|b| b.balance.clone()).collect();
        assert_eq!(found, expected);
    }
}

#[test]
fn balances_come_in_the_order_of_the_wallets() {
    let mut chain = MockChain::new("Mock", "MTK", 2)
        .holding(WALLET_A, 100)
        .holding(WALLET_B, 250)
        .holding(WALLET_C, 375);
    let balances =
        aggregate(&client(), &mut chain, TOKEN, &[WALLET_C, WALLET_A, WALLET_B, WALLET_A]).unwrap();
    let found: Vec<(&str, &str)> =
        balances.iter().map(|b| (b.address.as_str(), b.balance.as_str())).collect();
    assert_eq!(
        found,
        vec![(WALLET_C, "3.75"), (WALLET_A, "1"), (WALLET_B, "2.5"), (WALLET_A, "1")]
    );
    let contract = token_contract();
    let asked: Vec<ContractCall> = chain.calls[3..].to_vec();
    assert_eq!(
        asked,
        vec![
            ContractCall::BalanceOf { contract, owner: Address::validate(WALLET_C).unwrap() },
            ContractCall::BalanceOf { contract, owner: Address::validate(WALLET_A).unwrap() },
            ContractCall::BalanceOf { contract, owner: Address::validate(WALLET_B).unwrap() },
            ContractCall::BalanceOf { contract, owner: Address::validate(WALLET_A).unwrap() },
        ]
    );
}

#[test]
fn the_address_is_echoed_as_the_caller_wrote_it() {
    let lower = WALLET_A.to_lowercase();
    let mut chain = MockChain::new("Mock", "MTK", 6).holding(WALLET_A, 2_000_000);
    let balances = aggregate(&client(), &mut chain, TOKEN, &[&lower, WALLET_A]).unwrap();
    assert_eq!(balances[0], AccountBalance::new(lower.clone(), "2".to_string()));
    assert_eq!(balances[1], AccountBalance::new(WALLET_A.to_string(), "2".to_string()));
}

#[test]
fn an_invalid_wallet_fails_the_whole_batch() {
    let mut chain = MockChain::new("Mock", "MTK", 6)
        .holding(WALLET_A, 1_500_000)
        .holding(WALLET_C, 7_000_000);
    let result = aggregate(&client(), &mut chain, TOKEN, &[WALLET_A, "not-an-address", WALLET_C]);
    assert_eq!(
        result,
        Err(BlockchainServiceError::InvalidAddress {
            raw: "not-an-address".to_string(),
            diagnostic: Some("Invalid character 'n' at position 0".to_string()),
        })
    );
    let balance_reads = chain
        .calls
        .iter()
        .filter(|call| matches!(call, ContractCall::BalanceOf { .. }))
        .count();
    assert_eq!(balance_reads, 1);
}

#[test]
fn an_invalid_first_wallet_reads_no_balance() {
    let mut chain = MockChain::new("Mock", "MTK", 6);
    let result = aggregate(&client(), &mut chain, TOKEN, &["0xA", WALLET_B]);
    assert!(matches!(result, Err(BlockchainServiceError::InvalidAddress { .. })));
    assert_eq!(chain.calls.len(), 3);
}

#[test]
fn no_wallets_give_an_empty_result() {
    let mut chain = MockChain::new("Mock", "MTK", 6);
    assert_eq!(aggregate(&client(), &mut chain, TOKEN, &[]), Ok(Vec::new()));
    assert_eq!(chain.calls.len(), 3);
}

#[test]
fn no_wallets_still_need_the_token() {
    let mut chain = MockChain::new("Mock", "MTK", 6);
    chain.decimals = Err("no such contract".to_string());
    assert_eq!(
        aggregate(&client(), &mut chain, TOKEN, &[]),
        Err(BlockchainServiceError::EthContractError("no such contract".to_string()))
    );
}

#[test]
fn a_failed_token_lookup_looks_at_no_wallet() {
    let mut chain = MockChain::new("Mock", "MTK", 6);
    chain.name = Err("timeout".to_string());
    let result = aggregate(&client(), &mut chain, TOKEN, &["not-an-address", WALLET_A]);
    assert_eq!(result, Err(BlockchainServiceError::EthContractError("timeout".to_string())));
    assert_eq!(chain.calls.len(), 3);
}

#[test]
fn a_failed_balance_read_fails_the_whole_batch() {
    let mut chain = MockChain::new("Mock", "MTK", 6)
        .holding(WALLET_A, 1)
        .failing_for(WALLET_B, "execution reverted")
        .holding(WALLET_C, 3);
    let result = aggregate(&client(), &mut chain, TOKEN, &[WALLET_A, WALLET_B, WALLET_C]);
    assert_eq!(
        result,
        Err(BlockchainServiceError::EthContractError("execution reverted".to_string()))
    );
    assert_eq!(chain.calls.len(), 5);
}

#[test]
fn decimals_out_of_range_fail_the_conversion() {
    let mut chain = MockChain::new("Deep", "DP", 78).holding(WALLET_A, 1);
    assert_eq!(
        aggregate(&client(), &mut chain, TOKEN, &[WALLET_A]),
        Err(BlockchainServiceError::EthConversionError("Overflow parsing string".to_string()))
    );
    let mut chain = MockChain::new("Deep", "DP", 77).holding(WALLET_A, 1);
    assert!(aggregate(&client(), &mut chain, TOKEN, &[WALLET_A]).is_ok());
    let mut chain = MockChain::new("Deep", "DP", 78);
    assert_eq!(aggregate(&client(), &mut chain, TOKEN, &[]), Ok(Vec::new()));
}

#[test]
fn the_token_address_is_validated_again_for_the_balances() {
    let token = TokenInfo::new("Mock".to_string(), "MTK".to_string(), 6);
    let result = client().get_account_balance(Ok(token), "0xValidToken", vec![WALLET_A.to_string()]);
    assert!(matches!(
        result,
        Err(BlockchainServiceError::InvalidAddress { raw, .. }) if raw == "0xValidToken"
    ));
}

#[test]
fn a_query_asks_the_token_contract_for_the_wallet() {
    let token = TokenInfo::new("Mock".to_string(), "MTK".to_string(), 6);
    let batch = client().get_account_balance(Ok(token), TOKEN, vec![WALLET_B.to_string()]).unwrap();
    match batch.advance() {
        BatchStep::Query(query) => {
            assert_eq!(
                query.call(),
                ContractCall::BalanceOf {
                    contract: token_contract(),
                    owner: Address::validate(WALLET_B).unwrap(),
                }
            );
            let batch = query.resume(Ok(RawBalance::new([2_500_000, 0, 0, 0]))).unwrap();
            match batch.advance() {
                BatchStep::Finished(balances) => assert_eq!(
                    balances,
                    vec![AccountBalance::new(WALLET_B.to_string(), "2.5".to_string())]
                ),
                other => panic!("expected the result, got {:?}", other),
            }
        }
        other => panic!("expected a query, got {:?}", other),
    }
}
