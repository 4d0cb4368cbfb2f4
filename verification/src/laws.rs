//! What holds of the cache over its whole life, whatever arrives from the
//! remote endpoint and in whatever order.

use crate::account::{assembled, AccountInfoView, AccountLoadView, LoadingView};
use crate::primitives::{H160, U256};
use crate::provider::{decoded_data, decoded_quantity, FetchError, Provider};
use crate::text::{
    data_text, decoded_address, lemma_data_text_reads_back, lemma_quantity_text_reads_back,
    lemma_word_below_pow16_64, quantity_text,
};
use crate::state::StateView;
use vstd::prelude::*;

verus! {

/// Something that arrives at the cache: the outcome of the load of an
/// account, or of the fetch of a storage slot.
pub enum Arrival {
    Account { address: Seq<u8>, loaded: Result<AccountInfoView, FetchError> },
    Storage { address: Seq<u8>, index: nat, fetched: Result<nat, FetchError> },
}

/// What a run of repeated lookups of one account comes to: the cache after
/// them, the answers in order, and the number of loads that were run.
pub struct Lookups {
    pub state: StateView,
    pub answers: Seq<AccountInfoView>,
    pub loads: nat,
}

/// What a run of repeated lookups of one storage slot comes to: the cache
/// after them, the answers in order, and the number of fetches that were
/// made.
pub struct SlotLookups {
    pub state: StateView,
    pub answers: Seq<nat>,
    pub fetches: nat,
}

impl StateView {
    /// The cache after one arrival.
    pub open spec fn receive(self, arrival: Arrival) -> StateView {
        match arrival {
            Arrival::Account { address, loaded } => self.fill_account(address, loaded),
            Arrival::Storage { address, index, fetched } => self.fill_storage(
                address,
                index,
                fetched,
            ),
        }
    }

    /// The cache after a sequence of arrivals, first to last.
    pub open spec fn receive_all(self, arrivals: Seq<Arrival>) -> StateView
        decreases arrivals.len(),
    {
        if arrivals.len() == 0 {
            self
        } else {
            self.receive_all(arrivals.drop_last()).receive(arrivals.last())
        }
    }

    /// One lookup of an account after another, as many as `outcomes` is
    /// long. A lookup that finds the account cached answers from the cache;
    /// one that does not runs a load, whose outcome is the entry of
    /// `outcomes` at that lookup's place, and answers with what then enters
    /// the cache.
    pub open spec fn look_up_account(
        self,
        address: Seq<u8>,
        outcomes: Seq<Result<AccountInfoView, FetchError>>,
    ) -> Lookups
        decreases outcomes.len(),
    {
        if outcomes.len() == 0 {
            Lookups { state: self, answers: Seq::empty(), loads: 0 }
        } else {
            let before = self.look_up_account(address, outcomes.drop_last());
            if before.state.accounts.contains_key(address) {
                Lookups {
                    state: before.state,
                    answers: before.answers.push(before.state.accounts[address]),
                    loads: before.loads,
                }
            } else {
                let state = before.state.fill_account(address, outcomes.last());
                Lookups {
                    state,
                    answers: before.answers.push(state.accounts[address]),
                    loads: before.loads + 1,
                }
            }
        }
    }

    /// One lookup of a storage slot after another, as `look_up_account` does
    /// for an account.
    pub open spec fn look_up_storage(
        self,
        address: Seq<u8>,
        index: nat,
        outcomes: Seq<Result<nat, FetchError>>,
    ) -> SlotLookups
        decreases outcomes.len(),
    {
        if outcomes.len() == 0 {
            SlotLookups { state: self, answers: Seq::empty(), fetches: 0 }
        } else {
            let before = self.look_up_storage(address, index, outcomes.drop_last());
            if before.state.storage.contains_key((address, index)) {
                SlotLookups {
                    state: before.state,
                    answers: before.answers.push(before.state.storage[(address, index)]),
                    fetches: before.fetches,
                }
            } else {
                let state = before.state.fill_storage(address, index, outcomes.last());
                SlotLookups {
                    state,
                    answers: before.answers.push(state.storage[(address, index)]),
                    fetches: before.fetches + 1,
                }
            }
        }
    }
}

/// However often an account is looked up, and whatever the loads would
/// bring, every lookup gets the same answer, which is the record that the
/// cache then holds, and a load is run once if the account was not cached
/// before the first lookup and never if it was.
pub proof fn law_account_loaded_once(
    state: StateView,
    address: Seq<u8>,
    outcomes: Seq<Result<AccountInfoView, FetchError>>,
)
    ensures
        ({
            let run = state.look_up_account(address, outcomes);
            &&& run.answers.len() == outcomes.len()
            &&& forall|i: int, j: int|
                0 <= i < run.answers.len() && 0 <= j < run.answers.len()
                    ==> #[trigger] run.answers[i] == #[trigger] run.answers[j]
            &&& forall|i: int|
                0 <= i < run.answers.len() ==> #[trigger] run.answers[i]
                    == run.state.accounts[address]
            &&& run.loads == if state.accounts.contains_key(address) || outcomes.len() == 0 {
                0nat
            } else {
                1nat
            }
            &&& run.state == if state.accounts.contains_key(address) || outcomes.len() == 0 {
                state
            } else {
                state.fill_account(address, outcomes[0])
            }
        }),
    decreases outcomes.len(),
{
    if outcomes.len() > 0 {
        law_account_loaded_once(state, address, outcomes.drop_last());
        if outcomes.len() > 1 {
            assert(outcomes.drop_last()[0] == outcomes[0]);
        }
    }
}

/// However often a storage slot is looked up, and whatever the fetches would
/// bring, every lookup gets the same answer, which is the value that the
/// cache then holds, and a fetch is made once if the slot was not cached
/// before the first lookup and never if it was.
pub proof fn law_storage_fetched_once(
    state: StateView,
    address: Seq<u8>,
    index: nat,
    outcomes: Seq<Result<nat, FetchError>>,
)
    ensures
        ({
            let run = state.look_up_storage(address, index, outcomes);
            &&& run.answers.len() == outcomes.len()
            &&& forall|i: int, j: int|
                0 <= i < run.answers.len() && 0 <= j < run.answers.len()
                    ==> #[trigger] run.answers[i] == #[trigger] run.answers[j]
            &&& forall|i: int|
                0 <= i < run.answers.len() ==> #[trigger] run.answers[i] == run.state.storage[(
                    address,
                    index,
                )]
            &&& run.fetches == if state.storage.contains_key((address, index)) || outcomes.len()
                == 0 {
                0nat
            } else {
                1nat
            }
            &&& run.state == if state.storage.contains_key((address, index)) || outcomes.len()
                == 0 {
                state
            } else {
                state.fill_storage(address, index, outcomes[0])
            }
        }),
    decreases outcomes.len(),
{
    if outcomes.len() > 0 {
        law_storage_fetched_once(state, address, index, outcomes.drop_last());
        if outcomes.len() > 1 {
            assert(outcomes.drop_last()[0] == outcomes[0]);
        }
    }
}

/// An account record that is cached stays cached and unchanged, whatever
/// arrives later.
pub proof fn law_cached_account_stays(state: StateView, address: Seq<u8>, arrivals: Seq<Arrival>)
    requires
        state.accounts.contains_key(address),
    ensures
        state.receive_all(arrivals).accounts.contains_key(address),
        state.receive_all(arrivals).accounts[address] == state.accounts[address],
    decreases arrivals.len(),
{
    if arrivals.len() > 0 {
        law_cached_account_stays(state, address, arrivals.drop_last());
    }
}

/// A storage value that is cached stays cached and unchanged, whatever
/// arrives later.
pub proof fn law_cached_storage_stays(
    state: StateView,
    address: Seq<u8>,
    index: nat,
    arrivals: Seq<Arrival>,
)
    requires
        state.storage.contains_key((address, index)),
    ensures
        state.receive_all(arrivals).storage.contains_key((address, index)),
        state.receive_all(arrivals).storage[(address, index)] == state.storage[(address, index)],
    decreases arrivals.len(),
{
    if arrivals.len() > 0 {
        law_cached_storage_stays(state, address, index, arrivals.drop_last());
    }
}

/// What arrives for one storage slot touches no other slot, of the same
/// account or of another, and no account record: each of those is cached
/// after it exactly if it was before, with the same value.
pub proof fn law_storage_fill_is_local(
    state: StateView,
    address: Seq<u8>,
    index: nat,
    fetched: Result<nat, FetchError>,
    other_address: Seq<u8>,
    other_index: nat,
)
    requires
        other_address != address || other_index != index,
    ensures
        ({
            let after = state.fill_storage(address, index, fetched);
            &&& after.storage.contains_key((other_address, other_index))
                == state.storage.contains_key((other_address, other_index))
            &&& state.storage.contains_key((other_address, other_index)) ==> after.storage[(
                other_address,
                other_index,
            )] == state.storage[(other_address, other_index)]
            &&& after.accounts == state.accounts
            &&& after.block == state.block
        }),
{
}

/// What arrives for one account touches no other account and no storage
/// slot.
pub proof fn law_account_fill_is_local(
    state: StateView,
    address: Seq<u8>,
    loaded: Result<AccountInfoView, FetchError>,
    other_address: Seq<u8>,
)
    requires
        other_address != address,
    ensures
        ({
            let after = state.fill_account(address, loaded);
            &&& after.accounts.contains_key(other_address) == state.accounts.contains_key(
                other_address,
            )
            &&& state.accounts.contains_key(other_address) ==> after.accounts[other_address]
                == state.accounts[other_address]
            &&& after.storage == state.storage
            &&& after.block == state.block
        }),
{
}

/// No failure that was noted is ever lost or changed, whatever arrives: the
/// list of failures only grows at its end.
pub proof fn law_failures_are_kept(state: StateView, arrivals: Seq<Arrival>)
    ensures
        state.failures.is_prefix_of(state.receive_all(arrivals).failures),
    decreases arrivals.len(),
{
    if arrivals.len() > 0 {
        law_failures_are_kept(state, arrivals.drop_last());
    }
}

/// The pinned block never moves, whatever arrives.
pub proof fn law_block_stays_pinned(state: StateView, arrivals: Seq<Arrival>)
    ensures
        state.receive_all(arrivals).block == state.block,
    decreases arrivals.len(),
{
    if arrivals.len() > 0 {
        law_block_stays_pinned(state, arrivals.drop_last());
    }
}

/// Every query of a load is about the account and the block that the load
/// began with: a step that goes on keeps both, and the query of each step
/// names them.
pub proof fn law_load_keeps_account_and_block(
    load: AccountLoadView,
    reply: Option<Seq<char>>,
    provider: Provider,
)
    ensures
        load.request(provider).params == seq![
            data_text(load.address()),
            quantity_text(load.block()),
        ],
        match load.advance(reply) {
            LoadingView::Next(next) => next.address() == load.address() && next.block()
                == load.block(),
            LoadingView::Done(_) => true,
        },
{
}

/// A load asks for the code first, then for the balance, then for the
/// transaction count. Where all three answers can be read it ends, after the
/// third, with the record that they make, or with the refusal of a count
/// beyond 64 bits.
pub proof fn law_load_takes_three_answers(
    address: Seq<u8>,
    block: nat,
    code: Seq<char>,
    balance: Seq<char>,
    nonce: Seq<char>,
)
    ensures
        AccountLoadView::start(address, block).method() == "eth_getCode"@,
        match (decoded_data(code), decoded_quantity(balance), decoded_quantity(nonce)) {
            (Ok(code_bytes), Ok(balance_value), Ok(nonce_value)) => {
                &&& AccountLoadView::start(address, block).advance(Some(code))
                    matches LoadingView::Next(second)
                &&& second.method() == "eth_getBalance"@
                &&& second.advance(Some(balance)) matches LoadingView::Next(third)
                &&& third.method() == "eth_getTransactionCount"@
                &&& third.advance(Some(nonce)) == LoadingView::Done(
                    assembled(code_bytes, balance_value, nonce_value),
                )
            },
            _ => true,
        },
{
}

/// A load ends at the first answer that fails to come or cannot be read,
/// with the reason, and asks for nothing more.
pub proof fn law_load_ends_at_first_failure(load: AccountLoadView, reply: Option<Seq<char>>)
    ensures
        match reply {
            None => load.advance(reply) == LoadingView::Done(Err(FetchError::Transport)),
            Some(text) => match load {
                AccountLoadView::Code { .. } => match decoded_data(text) {
                    Err(error) => load.advance(reply) == LoadingView::Done(Err(error)),
                    Ok(_) => load.advance(reply) is Next,
                },
                AccountLoadView::Balance { .. } => match decoded_quantity(text) {
                    Err(error) => load.advance(reply) == LoadingView::Done(Err(error)),
                    Ok(_) => load.advance(reply) is Next,
                },
                AccountLoadView::Nonce { .. } => match decoded_quantity(text) {
                    Err(error) => load.advance(reply) == LoadingView::Done(Err(error)),
                    Ok(_) => load.advance(reply) is Done,
                },
            },
        },
{
}

/// A failed load or fetch, for an account or a slot that is not cached,
/// leaves the default in the cache: no balance, no transactions and no code
/// for an account, zero for a slot.
pub proof fn law_failure_gives_default(
    state: StateView,
    address: Seq<u8>,
    index: nat,
    error: FetchError,
)
    ensures
        !state.accounts.contains_key(address) ==> state.fill_account(
            address,
            Err(error),
        ).accounts[address] == AccountInfoView::empty(),
        !state.storage.contains_key((address, index)) ==> state.fill_storage(
            address,
            index,
            Err(error),
        ).storage[(address, index)] == 0,
        AccountInfoView::empty().balance == 0,
        AccountInfoView::empty().nonce == 0,
        AccountInfoView::empty().code.is_none(),
{
}

/// What is written for a word is read back as that word.
pub proof fn law_quantity_reads_back(word: U256)
    ensures
        decoded_quantity(quantity_text(word@)) == Ok::<nat, FetchError>(word@),
{
    lemma_word_below_pow16_64(word);
    lemma_quantity_text_reads_back(word@);
}

/// What is written for a byte string is read back as those bytes.
pub proof fn law_data_reads_back(bytes: Seq<u8>)
    ensures
        decoded_data(data_text(bytes)) == Ok::<Seq<u8>, FetchError>(bytes),
{
    lemma_data_text_reads_back(bytes);
}

/// What is written for an address is read back as that address.
pub proof fn law_address_reads_back(address: H160)
    ensures
        decoded_address(data_text(address@)) == Some(address@),
{
    lemma_data_text_reads_back(address@);
}

} // verus!
