//! The remote data source: which endpoint is asked, what each query looks
//! like on the wire, and how the text of a reply is read.

use crate::primitives::{H160, U256};
use crate::text::{
    address_to_text, data_text, has_hex_prefix, hex_decode, hex_number, hex_pairs_bytes,
    is_hex_pairs, is_plain_quantity, quantity_from_text, quantity_text, quantity_to_text,
    quantity_value, strip_hex_prefix, without_hex_prefix,
};
use vstd::prelude::*;
use vstd::string::StringExecFns;

verus! {

/// The environment variable that holds the URL of the endpoint.
pub const NODE_URL: &'static str = "NODE_URL";

/// The environment variable that holds the identifier of the project whose
/// hosted endpoint is used where no URL is given.
pub const INFURA_PROJECT_ID: &'static str = "INFURA_PROJECT_ID";

/// Why no endpoint could be chosen.
#[derive(Clone, Copy, Debug, PartialEq, Eq, Structural)]
pub enum ConfigError {
    /// Neither an endpoint URL nor a project identifier was given.
    MissingEndpoint,
}

impl ConfigError {
    /// The message shown when start-up is given up.
    pub fn message(&self) -> (r: &'static str)
        ensures
            r@ == "missing NODE_URL or INFURA_PROJECT_ID environment variable"@,
    {
        "missing NODE_URL or INFURA_PROJECT_ID environment variable"
    }
}

/// Why a remote query gave no value.
#[derive(Clone, Copy, Debug, PartialEq, Eq, Structural)]
pub enum FetchError {
    /// The exchange with the endpoint failed, or its reply held no result.
    Transport,
    /// A byte string in a reply did not open with `0x`.
    MissingPrefix,
    /// A byte string in a reply was not made of pairs of hexadecimal digits.
    InvalidHex,
    /// A number in a reply could not be read as a 256-bit word.
    InvalidQuantity,
    /// A transaction count in a reply did not fit in 64 bits.
    NonceOverflow,
}

/// The endpoint that remote queries are sent to.
#[derive(Debug, PartialEq, Eq)]
pub struct Provider {
    url: String,
}

/// One query as it goes on the wire, with the endpoint it goes to.
#[derive(Debug, PartialEq, Eq)]
pub struct Request {
    pub url: String,
    pub id: u64,
    pub jsonrpc: &'static str,
    pub method: &'static str,
    pub params: Vec<String>,
}

/// What a query holds, as mathematical values.
pub struct RequestView {
    pub url: Seq<char>,
    pub id: nat,
    pub jsonrpc: Seq<char>,
    pub method: Seq<char>,
    pub params: Seq<Seq<char>>,
}

impl View for Request {
    type V = RequestView;

    open spec fn view(&self) -> RequestView {
        RequestView {
            url: self.url@,
            id: self.id as nat,
            jsonrpc: self.jsonrpc@,
            method: self.method@,
            params: Seq::new(self.params@.len(), |i: int| self.params@[i]@),
        }
    }
}

impl Clone for Request {
    fn clone(&self) -> (r: Self)
        ensures
            r@ == self@,
    {
        let mut params: Vec<String> = Vec::new();
        let mut i: usize = 0;
        while i < self.params.len()
            invariant
                i <= self.params@.len(),
                params@.len() == i,
                forall|j: int| 0 <= j < i ==> params@[j]@ == self.params@[j]@,
            decreases self.params@.len() - i,
        {
            params.push(self.params[i].clone());
            i += 1;
        }
        let r = Request {
            url: self.url.clone(),
            id: self.id,
            jsonrpc: self.jsonrpc,
            method: self.method,
            params,
        };
        assert(r@.params =~= self@.params);
        r
    }
}

/// What reading a reply as a byte string gives: the bytes behind the `0x`
/// prefix, or the reason why there are none.
pub open spec fn decoded_data(reply: Seq<char>) -> Result<Seq<u8>, FetchError> {
    if !has_hex_prefix(reply) {
        Err(FetchError::MissingPrefix)
    } else if !is_hex_pairs(reply.skip(2)) {
        Err(FetchError::InvalidHex)
    } else {
        Ok(hex_pairs_bytes(reply.skip(2)))
    }
}

/// What reading a reply as a number gives: for one to sixty-four
/// hexadecimal digits, with or without `0x` before them, the number that
/// they spell; for any other text what the word type makes of it, or the
/// refusal.
pub open spec fn decoded_quantity(reply: Seq<char>) -> Result<nat, FetchError> {
    if is_plain_quantity(reply) {
        Ok(hex_number(without_hex_prefix(reply)))
    } else {
        match quantity_value(reply) {
            Some(value) => Ok(value),
            None => Err(FetchError::InvalidQuantity),
        }
    }
}

/// Reads the text of a reply as a byte string.
pub fn decode_data(reply: &str) -> (r: Result<Vec<u8>, FetchError>)
    ensures
        match r {
            Ok(bytes) => decoded_data(reply@) == Ok::<Seq<u8>, FetchError>(bytes@),
            Err(error) => decoded_data(reply@) == Err::<Seq<u8>, FetchError>(error),
        },
{
    match strip_hex_prefix(reply) {
        None => Err(FetchError::MissingPrefix),
        Some(digits) => match hex_decode(digits) {
            Ok(bytes) => Ok(bytes),
            Err(_) => Err(FetchError::InvalidHex),
        },
    }
}

/// Reads the text of a reply as a number.
pub fn decode_quantity(reply: &str) -> (r: Result<U256, FetchError>)
    ensures
        match r {
            Ok(value) => decoded_quantity(reply@) == Ok::<nat, FetchError>(value@),
            Err(error) => decoded_quantity(reply@) == Err::<nat, FetchError>(error),
        },
{
    match quantity_from_text(reply) {
        Ok(value) => Ok(value),
        Err(_) => Err(FetchError::InvalidQuantity),
    }
}

impl Provider {
    /// The URL of the endpoint.
    pub closed spec fn endpoint(&self) -> Seq<char> {
        self.url@
    }

    /// The query with the given method and parameters, as this provider
    /// sends it.
    pub open spec fn request(&self, method: Seq<char>, params: Seq<Seq<char>>) -> RequestView {
        RequestView { url: self.endpoint(), id: 42, jsonrpc: "2.0"@, method, params }
    }

    /// Chooses the endpoint: the URL where one is given, else the hosted
    /// endpoint of the given project.
    pub fn from_env(node_url: Option<String>, infura_project_id: Option<String>) -> (r: Result<
        Provider,
        ConfigError,
    >)
        ensures
            match (node_url, infura_project_id) {
                (Some(url), _) => r is Ok && r.unwrap().endpoint() == url@,
                (None, Some(id)) => r is Ok && r.unwrap().endpoint()
                    == "https://mainnet.infura.io/v3/"@ + id@,
                (None, None) => r == Err::<Provider, ConfigError>(ConfigError::MissingEndpoint),
            },
    {
        match node_url {
            Some(url) => Ok(Provider { url }),
            None => match infura_project_id {
                Some(id) => {
                    let url = String::from_str("https://mainnet.infura.io/v3/").concat(
                        id.as_str(),
                    );
                    Ok(Provider { url })
                },
                None => Err(ConfigError::MissingEndpoint),
            },
        }
    }

    /// The URL of the endpoint.
    pub fn url(&self) -> (r: &str)
        ensures
            r@ == self.endpoint(),
    {
        self.url.as_str()
    }

    /// The query for the height of the chain's head.
    pub fn block_number(&self) -> (r: Request)
        ensures
            r@ == self.request("eth_blockNumber"@, seq![]),
    {
        let r = Request {
            url: self.url.clone(),
            id: 42,
            jsonrpc: "2.0",
            method: "eth_blockNumber",
            params: Vec::new(),
        };
        assert(r@.params =~= seq![]);
        r
    }

    /// The query for an account's balance at a block.
    pub fn get_balance(&self, account: H160, block: U256) -> (r: Request)
        ensures
            r@ == self.request("eth_getBalance"@, seq![data_text(account@), quantity_text(block@)]),
    {
        self.account_query("eth_getBalance", account, block)
    }

    /// The query for an account's code at a block.
    pub fn get_code(&self, account: H160, block: U256) -> (r: Request)
        ensures
            r@ == self.request("eth_getCode"@, seq![data_text(account@), quantity_text(block@)]),
    {
        self.account_query("eth_getCode", account, block)
    }

    /// The query for the number of transactions an account has sent up to a
    /// block.
    pub fn get_transaction_count(&self, account: H160, block: U256) -> (r: Request)
        ensures
            r@ == self.request(
                "eth_getTransactionCount"@,
                seq![data_text(account@), quantity_text(block@)],
            ),
    {
        self.account_query("eth_getTransactionCount", account, block)
    }

    /// The query for one storage slot of an account at a block.
    pub fn get_storage_at(&self, account: H160, position: U256, block: U256) -> (r: Request)
        ensures
            r@ == self.request(
                "eth_getStorageAt"@,
                seq![data_text(account@), quantity_text(position@), quantity_text(block@)],
            ),
    {
        let mut params: Vec<String> = Vec::new();
        params.push(address_to_text(&account));
        params.push(quantity_to_text(&position));
        params.push(quantity_to_text(&block));
        let r = Request {
            url: self.url.clone(),
            id: 42,
            jsonrpc: "2.0",
            method: "eth_getStorageAt",
            params,
        };
        assert(r@.params =~= seq![
            data_text(account@),
            quantity_text(position@),
            quantity_text(block@),
        ]);
        r
    }

    /// A query about one account at a block.
    fn account_query(&self, method: &'static str, account: H160, block: U256) -> (r: Request)
        ensures
            r@ == self.request(method@, seq![data_text(account@), quantity_text(block@)]),
    {
        let mut params: Vec<String> = Vec::new();
        params.push(address_to_text(&account));
        params.push(quantity_to_text(&block));
        let r = Request { url: self.url.clone(), id: 42, jsonrpc: "2.0", method, params };
        assert(r@.params =~= seq![data_text(account@), quantity_text(block@)]);
        r
    }
}

} // verus!
