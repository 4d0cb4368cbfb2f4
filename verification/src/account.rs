//! Account records, and the three-step exchange that loads one from the
//! remote endpoint.

use crate::primitives::{H160, H256, U256};
use crate::provider::{
    decode_data, decode_quantity, decoded_data, decoded_quantity, FetchError, Provider, Request,
    RequestView,
};
use crate::text::{data_text, quantity_text};
use vstd::prelude::*;

verus! {

/// The hash that `revm` gives to raw bytecode: the Keccak-256 hash of its
/// bytes. Nothing is proved of its value.
pub uninterp spec fn keccak256(bytes: Seq<u8>) -> Seq<u8>;

/// The hash that stands for "no code": the Keccak-256 hash of the empty byte
/// string.
pub open spec fn empty_code_hash() -> Seq<u8> {
    seq![
        0xc5u8, 0xd2, 0x46, 0x01, 0x86, 0xf7, 0x23, 0x3c, 0x92, 0x7e, 0x7d, 0xb2, 0xdc, 0xc7, 0x03,
        0xc0, 0xe5, 0x00, 0xb6, 0x53, 0xca, 0x82, 0x27, 0x3b, 0x7b, 0xfa, 0xd8, 0x04, 0x5d, 0x85,
        0xa4, 0x70,
    ]
}

/// Reads the constant `revm::KECCAK_EMPTY`. Trusted: it holds these
/// thirty-two bytes.
#[verifier::external_body]
fn keccak_empty() -> (hash: H256)
    ensures
        hash@ == empty_code_hash(),
{
    H256(revm::KECCAK_EMPTY.0)
}

/// Calls `revm::Bytecode::new_raw` on a copy of the bytes and
/// `revm::Bytecode::hash` on what it gives. Trusted: the hash depends on the
/// bytes alone.
#[verifier::external_body]
fn bytecode_hash(code: &Vec<u8>) -> (hash: H256)
    ensures
        hash@ == keccak256(code@),
{
    H256(revm::Bytecode::new_raw(code.clone().into()).hash().0)
}

/// What is known of one account at the pinned block.
#[derive(Debug, PartialEq, Eq)]
pub struct AccountInfo {
    pub balance: U256,
    pub nonce: u64,
    pub code_hash: H256,
    pub code: Option<Vec<u8>>,
}

/// An account record as mathematical values.
pub struct AccountInfoView {
    pub balance: nat,
    pub nonce: nat,
    pub code_hash: Seq<u8>,
    pub code: Option<Seq<u8>>,
}

impl AccountInfoView {
    /// The record that stands in for an account that could not be loaded:
    /// no balance, no transactions, no code.
    pub open spec fn empty() -> AccountInfoView {
        AccountInfoView { balance: 0, nonce: 0, code_hash: empty_code_hash(), code: None }
    }
}

impl View for AccountInfo {
    type V = AccountInfoView;

    open spec fn view(&self) -> AccountInfoView {
        AccountInfoView {
            balance: self.balance@,
            nonce: self.nonce as nat,
            code_hash: self.code_hash@,
            code: match self.code {
                Some(bytes) => Some(bytes@),
                None => None,
            },
        }
    }
}

impl Clone for AccountInfo {
    fn clone(&self) -> (r: Self)
        ensures
            r@ == self@,
    {
        let code = match &self.code {
            Some(bytes) => {
                let copy = bytes.clone();
                assert(copy@ =~= bytes@);
                Some(copy)
            },
            None => None,
        };
        AccountInfo { balance: self.balance, nonce: self.nonce, code_hash: self.code_hash, code }
    }
}

impl Default for AccountInfo {
    fn default() -> (r: Self)
        ensures
            r@ == AccountInfoView::empty(),
    {
        AccountInfo { balance: U256::zero(), nonce: 0, code_hash: keccak_empty(), code: None }
    }
}

/// The record that three answers make: empty code counts as no code and
/// takes the empty-code hash; a transaction count beyond 64 bits makes none.
pub open spec fn assembled(code: Seq<u8>, balance: nat, nonce: nat) -> Result<
    AccountInfoView,
    FetchError,
> {
    if nonce > u64::MAX {
        Err(FetchError::NonceOverflow)
    } else if code.len() == 0 {
        Ok(AccountInfoView { balance, nonce, code_hash: empty_code_hash(), code: None })
    } else {
        Ok(AccountInfoView { balance, nonce, code_hash: keccak256(code), code: Some(code) })
    }
}

/// The view of the outcome of a load.
pub open spec fn outcome_view(outcome: Result<AccountInfo, FetchError>) -> Result<
    AccountInfoView,
    FetchError,
> {
    match outcome {
        Ok(info) => Ok(info@),
        Err(error) => Err(error),
    }
}

impl AccountInfo {
    /// Builds the record from an account's code, balance and transaction
    /// count.
    pub fn assemble(code: Vec<u8>, balance: U256, nonce: U256) -> (r: Result<
        AccountInfo,
        FetchError,
    >)
        ensures
            outcome_view(r) == assembled(code@, balance@, nonce@),
    {
        if !nonce.fits_u64() {
            return Err(FetchError::NonceOverflow);
        }
        let nonce = nonce.as_u64();
        if code.len() == 0 {
            Ok(AccountInfo { balance, nonce, code_hash: keccak_empty(), code: None })
        } else {
            let code_hash = bytecode_hash(&code);
            Ok(AccountInfo { balance, nonce, code_hash, code: Some(code) })
        }
    }
}

/// A load of one account in progress: which answer is awaited, and what the
/// earlier answers held.
#[derive(Debug, PartialEq, Eq)]
pub enum AccountLoad {
    /// The code is awaited.
    Code { address: H160, block: U256 },
    /// The balance is awaited.
    Balance { address: H160, block: U256, code: Vec<u8> },
    /// The transaction count is awaited.
    Nonce { address: H160, block: U256, code: Vec<u8>, balance: U256 },
}

/// A load in progress as mathematical values.
pub enum AccountLoadView {
    Code { address: Seq<u8>, block: nat },
    Balance { address: Seq<u8>, block: nat, code: Seq<u8> },
    Nonce { address: Seq<u8>, block: nat, code: Seq<u8>, balance: nat },
}

/// Where a load stands after an answer: it awaits the next one, or it has
/// ended with a record or with the reason why there is none.
#[derive(Debug, PartialEq, Eq)]
pub enum Loading {
    Next(AccountLoad),
    Done(Result<AccountInfo, FetchError>),
}

/// `Loading` as mathematical values.
pub enum LoadingView {
    Next(AccountLoadView),
    Done(Result<AccountInfoView, FetchError>),
}

impl View for AccountLoad {
    type V = AccountLoadView;

    open spec fn view(&self) -> AccountLoadView {
        match *self {
            AccountLoad::Code { address, block } => AccountLoadView::Code {
                address: address@,
                block: block@,
            },
            AccountLoad::Balance { address, block, code } => AccountLoadView::Balance {
                address: address@,
                block: block@,
                code: code@,
            },
            AccountLoad::Nonce { address, block, code, balance } => AccountLoadView::Nonce {
                address: address@,
                block: block@,
                code: code@,
                balance: balance@,
            },
        }
    }
}

impl View for Loading {
    type V = LoadingView;

    open spec fn view(&self) -> LoadingView {
        match *self {
            Loading::Next(load) => LoadingView::Next(load@),
            Loading::Done(outcome) => LoadingView::Done(outcome_view(outcome)),
        }
    }
}

/// The view of an answer: its text, or the failure of the exchange.
pub open spec fn reply_view(reply: Option<&str>) -> Option<Seq<char>> {
    match reply {
        Some(text) => Some(text@),
        None => None,
    }
}

impl AccountLoadView {
    /// The load of an account at a block before any answer.
    pub open spec fn start(address: Seq<u8>, block: nat) -> AccountLoadView {
        AccountLoadView::Code { address, block }
    }

    /// The account that is loaded.
    pub open spec fn address(self) -> Seq<u8> {
        match self {
            AccountLoadView::Code { address, .. } => address,
            AccountLoadView::Balance { address, .. } => address,
            AccountLoadView::Nonce { address, .. } => address,
        }
    }

    /// The block at which it is loaded.
    pub open spec fn block(self) -> nat {
        match self {
            AccountLoadView::Code { block, .. } => block,
            AccountLoadView::Balance { block, .. } => block,
            AccountLoadView::Nonce { block, .. } => block,
        }
    }

    /// The method of the query that brings the awaited answer.
    pub open spec fn method(self) -> Seq<char> {
        match self {
            AccountLoadView::Code { .. } => "eth_getCode"@,
            AccountLoadView::Balance { .. } => "eth_getBalance"@,
            AccountLoadView::Nonce { .. } => "eth_getTransactionCount"@,
        }
    }

    /// The query that brings the awaited answer: about this account, at this
    /// block.
    pub open spec fn request(self, provider: Provider) -> RequestView {
        provider.request(
            self.method(),
            seq![data_text(self.address()), quantity_text(self.block())],
        )
    }

    /// Where the load stands after the awaited answer. A failed exchange or
    /// an answer that cannot be read ends it at once.
    pub open spec fn advance(self, reply: Option<Seq<char>>) -> LoadingView {
        match reply {
            None => LoadingView::Done(Err(FetchError::Transport)),
            Some(text) => match self {
                AccountLoadView::Code { address, block } => match decoded_data(text) {
                    Ok(code) => LoadingView::Next(
                        AccountLoadView::Balance { address, block, code },
                    ),
                    Err(error) => LoadingView::Done(Err(error)),
                },
                AccountLoadView::Balance { address, block, code } => match decoded_quantity(
                    text,
                ) {
                    Ok(balance) => LoadingView::Next(
                        AccountLoadView::Nonce { address, block, code, balance },
                    ),
                    Err(error) => LoadingView::Done(Err(error)),
                },
                AccountLoadView::Nonce { address, block, code, balance } => match decoded_quantity(
                    text,
                ) {
                    Ok(nonce) => LoadingView::Done(assembled(code, balance, nonce)),
                    Err(error) => LoadingView::Done(Err(error)),
                },
            },
        }
    }
}

impl AccountLoad {
    /// Begins the load of an account at a block.
    pub fn new(address: H160, block: U256) -> (r: AccountLoad)
        ensures
            r@ == AccountLoadView::start(address@, block@),
    {
        AccountLoad::Code { address, block }
    }

    /// The query to send now.
    pub fn request(&self, provider: &Provider) -> (r: Request)
        ensures
            r@ == self@.request(*provider),
    {
        match self {
            AccountLoad::Code { address, block } => provider.get_code(*address, *block),
            AccountLoad::Balance { address, block, .. } => provider.get_balance(*address, *block),
            AccountLoad::Nonce { address, block, .. } => provider.get_transaction_count(
                *address,
                *block,
            ),
        }
    }

    /// Takes the answer to the query last sent: the text of its result, or
    /// `None` where the exchange failed.
    pub fn advance(self, reply: Option<&str>) -> (r: Loading)
        ensures
            r@ == self@.advance(reply_view(reply)),
    {
        let text = match reply {
            Some(text) => text,
            None => {
                return Loading::Done(Err(FetchError::Transport));
            },
        };
        match self {
            AccountLoad::Code { address, block } => match decode_data(text) {
                Ok(code) => Loading::Next(AccountLoad::Balance { address, block, code }),
                Err(error) => Loading::Done(Err(error)),
            },
            AccountLoad::Balance { address, block, code } => match decode_quantity(text) {
                Ok(balance) => Loading::Next(AccountLoad::Nonce { address, block, code, balance }),
                Err(error) => Loading::Done(Err(error)),
            },
            AccountLoad::Nonce { address, block, code, balance } => match decode_quantity(text) {
                Ok(nonce) => Loading::Done(AccountInfo::assemble(code, balance, nonce)),
                Err(error) => Loading::Done(Err(error)),
            },
        }
    }
}

} // verus!
