use pinned_state::primitives::{H160, U256};
use pinned_state::provider::{
    decode_data, decode_quantity, ConfigError, FetchError, Provider, Request,
};
use pinned_state::text::strip_hex_prefix;

fn provider() -> Provider {
    Provider::from_env(Some("http://localhost:8545".to_string()), None).unwrap()
}

fn token() -> H160 {
    H160([
        0xde, 0xf1, 0xca, 0x1f, 0xb7, 0xfb, 0xcd, 0xc7, 0x77, 0x52, 0x0a, 0xa7, 0xf3, 0x96, 0xb4,
        0xe0, 0x15, 0xf4, 0x97, 0xab,
    ])
}

fn expected(method: &'static str, params: &[&str]) -> Request {
    Request {
        url: "http://localhost:8545".to_string(),
        id: 42,
        jsonrpc: "2.0",
        method,
        params: params.iter().map(|p| p.to_string()).collect(),
    }
}

#[test]
fn from_env_prefers_the_node_url() {
    let provider =
        Provider::from_env(Some("http://node".to_string()), Some("project".to_string())).unwrap();
    assert_eq!(provider.url(), "http://node");
}

#[test]
fn from_env_builds_the_hosted_url_from_the_project() {
    let provider = Provider::from_env(None, Some("abc123".to_string())).unwrap();
    assert_eq!(provider.url(), "https://mainnet.infura.io/v3/abc123");
}

#[test]
fn from_env_without_either_is_a_configuration_error() {
    assert_eq!(Provider::from_env(None, None), Err(ConfigError::MissingEndpoint));
    assert_eq!(
        ConfigError::MissingEndpoint.message(),
        "missing NODE_URL or INFURA_PROJECT_ID environment variable"
    );
}

#[test]
fn block_number_has_no_parameters() {
    assert_eq!(provider().block_number(), expected("eth_blockNumber", &[]));
}

#[test]
fn get_balance_names_account_then_block() {
    assert_eq!(
        provider().get_balance(token(), U256::from_u64(95)),
        expected("eth_getBalance", &["0xdef1ca1fb7fbcdc777520aa7f396b4e015f497ab", "0x5f"])
    );
}

#[test]
fn get_code_names_account_then_block() {
    assert_eq!(
        provider().get_code(token(), U256::from_u64(0)),
        expected("eth_getCode", &["0xdef1ca1fb7fbcdc777520aa7f396b4e015f497ab", "0x0"])
    );
}

#[test]
fn get_transaction_count_names_account_then_block() {
    assert_eq!(
        provider().get_transaction_count(H160([0; 20]), U256::from_u64(0x1234)),
        expected(
            "eth_getTransactionCount",
            &["0x0000000000000000000000000000000000000000", "0x1234"]
        )
    );
}

#[test]
fn get_storage_at_names_account_slot_and_block() {
    assert_eq!(
        provider().get_storage_at(token(), U256([0, 0, 0, 1 << 63]), U256::from_u64(16)),
        expected(
            "eth_getStorageAt",
            &[
                "0xdef1ca1fb7fbcdc777520aa7f396b4e015f497ab",
                "0x8000000000000000000000000000000000000000000000000000000000000000",
                "0x10",
            ]
        )
    );
}

#[test]
fn quantities_are_written_without_leading_zeros() {
    let request = provider().get_balance(H160([0xff; 20]), U256([0, 1, 0, 0]));
    assert_eq!(request.params[0], "0xffffffffffffffffffffffffffffffffffffffff");
    assert_eq!(request.params[1], "0x10000000000000000");
    let request = provider().get_balance(H160([0x01; 20]), U256([0x0abc, 0, 0, 0]));
    assert_eq!(request.params[0], "0x0101010101010101010101010101010101010101");
    assert_eq!(request.params[1], "0xabc");
}

#[test]
fn decode_quantity_reads_hexadecimal() {
    assert_eq!(decode_quantity("0x64"), Ok(U256([100, 0, 0, 0])));
    assert_eq!(decode_quantity("0x0"), Ok(U256::zero()));
    assert_eq!(decode_quantity("0xDE0B6B3A7640000"), Ok(U256([1_000_000_000_000_000_000, 0, 0, 0])));
    assert_eq!(
        decode_quantity("0xffffffffffffffffffffffffffffffffffffffffffffffffffffffffffffffff"),
        Ok(U256([u64::MAX; 4]))
    );
    assert_eq!(
        decode_quantity("0x0000000000000000000000000000000000000000000000010000000000000002"),
        Ok(U256([2, 1, 0, 0]))
    );
}

#[test]
fn decode_quantity_refuses_what_is_no_number() {
    assert_eq!(decode_quantity("0x"), Err(FetchError::InvalidQuantity));
    assert_eq!(decode_quantity(""), Err(FetchError::InvalidQuantity));
    assert_eq!(decode_quantity("0xzz"), Err(FetchError::InvalidQuantity));
    assert_eq!(
        decode_quantity("0x10000000000000000000000000000000000000000000000000000000000000000"),
        Err(FetchError::InvalidQuantity)
    );
}

#[test]
fn decode_data_reads_pairs_of_digits() {
    assert_eq!(decode_data("0x"), Ok(vec![]));
    assert_eq!(decode_data("0x0aFf"), Ok(vec![0x0a, 0xff]));
    assert_eq!(decode_data("0x6004355460005260206000f3").map(|code| code.len()), Ok(12));
}

#[test]
fn decode_data_without_prefix_is_refused() {
    assert_eq!(decode_data("0aff"), Err(FetchError::MissingPrefix));
    assert_eq!(decode_data(""), Err(FetchError::MissingPrefix));
    assert_eq!(decode_data("0"), Err(FetchError::MissingPrefix));
    assert_eq!(decode_data("0X0a"), Err(FetchError::MissingPrefix));
}

#[test]
fn decode_data_with_bad_digits_is_refused() {
    assert_eq!(decode_data("0xabc"), Err(FetchError::InvalidHex));
    assert_eq!(decode_data("0x0g"), Err(FetchError::InvalidHex));
    assert_eq!(decode_data("0x0x00"), Err(FetchError::InvalidHex));
    assert_eq!(decode_data("0x\u{e9}\u{e9}"), Err(FetchError::InvalidHex));
}

#[test]
fn strip_hex_prefix_takes_two_characters() {
    assert_eq!(strip_hex_prefix("0xabc"), Some("abc"));
    assert_eq!(strip_hex_prefix("0x"), Some(""));
    assert_eq!(strip_hex_prefix("0x\u{e9}"), Some("\u{e9}"));
    assert_eq!(strip_hex_prefix("abc"), None);
    assert_eq!(strip_hex_prefix("0"), None);
    assert_eq!(strip_hex_prefix("x0"), None);
}
