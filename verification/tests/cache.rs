use pinned_state::account::{AccountInfo, AccountLoad};
use pinned_state::primitives::{H160, H256, U256};
use pinned_state::provider::{FetchError, Provider};
use pinned_state::state::{AccountLookup, Failure, SAFETY_MARGIN, State, StorageLookup, Unsupported};

fn endpoint() -> Provider {
    Provider::from_env(Some("http://node".to_string()), None).unwrap()
}

fn pinned_at_95() -> State {
    State::new(endpoint(), U256::from_u64(100))
}

fn alice() -> H160 {
    H160([0xa1; 20])
}

fn bob() -> H160 {
    H160([0xb0; 20])
}

fn rich() -> AccountInfo {
    AccountInfo::assemble(vec![0x60, 0x00], U256::from_u64(1000), U256::from_u64(3)).unwrap()
}

fn poor() -> AccountInfo {
    AccountInfo::assemble(vec![], U256::from_u64(1), U256::from_u64(0)).unwrap()
}

#[test]
fn the_block_is_pinned_five_behind_the_head() {
    assert_eq!(SAFETY_MARGIN, 5);
    assert_eq!(pinned_at_95().block(), U256::from_u64(95));
    assert_eq!(State::new(endpoint(), U256::from_u64(5)).block(), U256::zero());
    assert_eq!(State::new(endpoint(), U256([4, 1, 0, 0])).block(), U256([u64::MAX, 0, 0, 0]));
}

#[test]
fn pinned_block_needs_a_chain_of_five_blocks() {
    assert_eq!(State::pinned_block(U256::from_u64(100)), Some(U256::from_u64(95)));
    assert_eq!(State::pinned_block(U256::from_u64(5)), Some(U256::zero()));
    assert_eq!(State::pinned_block(U256::from_u64(4)), None);
    assert_eq!(State::pinned_block(U256::zero()), None);
}

#[test]
fn a_new_cache_keeps_its_endpoint_and_knows_nothing() {
    let state = pinned_at_95();
    assert_eq!(state.provider(), &endpoint());
    assert!(state.failures().is_empty());
    assert!(matches!(state.basic(alice()), AccountLookup::Miss(_)));
    assert!(matches!(state.storage(alice(), U256::zero()), StorageLookup::Miss(_)));
}

#[test]
fn a_missing_account_asks_for_a_load_at_the_pinned_block() {
    let state = pinned_at_95();
    assert_eq!(
        state.basic(alice()),
        AccountLookup::Miss(AccountLoad::Code { address: alice(), block: U256::from_u64(95) })
    );
}

#[test]
fn a_missing_slot_asks_for_a_fetch_at_the_pinned_block() {
    let state = pinned_at_95();
    assert_eq!(
        state.storage(alice(), U256::from_u64(7)),
        StorageLookup::Miss(endpoint().get_storage_at(alice(), U256::from_u64(7), U256::from_u64(95)))
    );
    match state.storage(alice(), U256::from_u64(7)) {
        StorageLookup::Miss(request) => assert_eq!(request.params[2], "0x5f"),
        StorageLookup::Hit(value) => panic!("cached: {:?}", value),
    }
}

#[test]
fn an_account_is_loaded_once_and_answered_alike_ever_after() {
    let mut state = pinned_at_95();
    let first = state.fill_basic(alice(), Ok(rich()));
    assert_eq!(first, rich());
    for _ in 0..10 {
        assert_eq!(state.basic(alice()), AccountLookup::Hit(rich()));
    }
    assert_eq!(state.fill_basic(alice(), Ok(poor())), rich());
    assert_eq!(state.fill_basic(alice(), Err(FetchError::Transport)), rich());
    assert_eq!(state.basic(alice()), AccountLookup::Hit(rich()));
    assert!(state.failures().is_empty());
}

#[test]
fn a_slot_is_fetched_once_and_answered_alike_ever_after() {
    let mut state = pinned_at_95();
    let slot = U256([1, 2, 3, 4]);
    assert_eq!(state.fill_storage(alice(), slot, Ok(U256::from_u64(77))), U256::from_u64(77));
    for _ in 0..10 {
        assert_eq!(state.storage(alice(), slot), StorageLookup::Hit(U256::from_u64(77)));
    }
    assert_eq!(state.fill_storage(alice(), slot, Ok(U256::from_u64(78))), U256::from_u64(77));
    assert_eq!(
        state.fill_storage(alice(), slot, Err(FetchError::InvalidQuantity)),
        U256::from_u64(77)
    );
    assert_eq!(state.storage(alice(), slot), StorageLookup::Hit(U256::from_u64(77)));
    assert!(state.failures().is_empty());
}

#[test]
fn slots_do_not_touch_each_other() {
    let mut state = pinned_at_95();
    state.fill_storage(alice(), U256::from_u64(1), Ok(U256::from_u64(10)));
    assert!(matches!(state.storage(alice(), U256::from_u64(2)), StorageLookup::Miss(_)));
    assert!(matches!(state.storage(bob(), U256::from_u64(1)), StorageLookup::Miss(_)));
    assert!(matches!(state.storage(alice(), U256([1, 1, 0, 0])), StorageLookup::Miss(_)));
    assert!(matches!(state.basic(alice()), AccountLookup::Miss(_)));

    state.fill_storage(alice(), U256::from_u64(2), Ok(U256::from_u64(20)));
    state.fill_storage(bob(), U256::from_u64(1), Ok(U256::from_u64(30)));
    assert_eq!(state.storage(alice(), U256::from_u64(1)), StorageLookup::Hit(U256::from_u64(10)));
    assert_eq!(state.storage(alice(), U256::from_u64(2)), StorageLookup::Hit(U256::from_u64(20)));
    assert_eq!(state.storage(bob(), U256::from_u64(1)), StorageLookup::Hit(U256::from_u64(30)));
}

#[test]
fn accounts_do_not_touch_each_other() {
    let mut state = pinned_at_95();
    state.fill_basic(alice(), Ok(rich()));
    assert!(matches!(state.basic(bob()), AccountLookup::Miss(_)));
    assert!(matches!(state.storage(alice(), U256::zero()), StorageLookup::Miss(_)));
    state.fill_basic(bob(), Ok(poor()));
    assert_eq!(state.basic(alice()), AccountLookup::Hit(rich()));
    assert_eq!(state.basic(bob()), AccountLookup::Hit(poor()));
}

#[test]
fn the_block_never_moves() {
    let mut state = pinned_at_95();
    state.fill_basic(alice(), Ok(rich()));
    state.fill_basic(bob(), Err(FetchError::Transport));
    state.fill_storage(alice(), U256::from_u64(1), Ok(U256::from_u64(10)));
    state.fill_storage(bob(), U256::from_u64(1), Err(FetchError::Transport));
    assert_eq!(state.block(), U256::from_u64(95));
    let carol = H160([0xca; 20]);
    assert_eq!(
        state.basic(carol),
        AccountLookup::Miss(AccountLoad::Code { address: carol, block: U256::from_u64(95) })
    );
    match state.storage(carol, U256::zero()) {
        StorageLookup::Miss(request) => assert_eq!(request.params[2], "0x5f"),
        StorageLookup::Hit(value) => panic!("cached: {:?}", value),
    }
}

#[test]
fn a_failed_load_gives_the_empty_record_and_is_noted() {
    let mut state = pinned_at_95();
    let answer = state.fill_basic(alice(), Err(FetchError::Transport));
    assert_eq!(answer.balance, U256::zero());
    assert_eq!(answer.nonce, 0);
    assert_eq!(answer.code, None);
    assert_eq!(answer.code_hash, H256(revm::KECCAK_EMPTY.0));
    assert_eq!(state.basic(alice()), AccountLookup::Hit(AccountInfo::default()));
    assert_eq!(
        state.failures(),
        &vec![Failure { address: alice(), index: None, error: FetchError::Transport }]
    );
}

#[test]
fn a_failed_fetch_gives_zero_and_is_noted() {
    let mut state = pinned_at_95();
    let slot = U256::from_u64(9);
    assert_eq!(state.fill_storage(alice(), slot, Err(FetchError::InvalidQuantity)), U256::zero());
    assert_eq!(state.storage(alice(), slot), StorageLookup::Hit(U256::zero()));
    assert_eq!(
        state.failures(),
        &vec![Failure { address: alice(), index: Some(slot), error: FetchError::InvalidQuantity }]
    );
}

#[test]
fn failures_are_kept_in_order() {
    let mut state = pinned_at_95();
    state.fill_basic(alice(), Err(FetchError::MissingPrefix));
    state.fill_storage(bob(), U256::from_u64(1), Err(FetchError::Transport));
    state.fill_basic(bob(), Err(FetchError::NonceOverflow));
    state.fill_basic(alice(), Err(FetchError::InvalidHex));
    assert_eq!(
        state.failures(),
        &vec![
            Failure { address: alice(), index: None, error: FetchError::MissingPrefix },
            Failure { address: bob(), index: Some(U256::from_u64(1)), error: FetchError::Transport },
            Failure { address: bob(), index: None, error: FetchError::NonceOverflow },
        ]
    );
}

#[test]
fn code_by_hash_is_not_supported() {
    let mut state = pinned_at_95();
    state.fill_basic(alice(), Ok(rich()));
    assert_eq!(state.code_by_hash(rich().code_hash), Err(Unsupported::CodeByHash));
    assert_eq!(state.code_by_hash(H256([0; 32])), Err(Unsupported::CodeByHash));
    assert_eq!(Unsupported::CodeByHash.message(), "code lookup by hash is not supported");
    assert_eq!(state.basic(alice()), AccountLookup::Hit(rich()));
}

#[test]
fn block_hash_is_not_supported() {
    let mut state = pinned_at_95();
    assert_eq!(state.block_hash(U256::from_u64(95)), Err(Unsupported::BlockHash));
    assert_eq!(state.block_hash(U256::zero()), Err(Unsupported::BlockHash));
    assert_eq!(Unsupported::BlockHash.message(), "block hash lookup is not supported");
    assert_eq!(state.block(), U256::from_u64(95));
}

#[test]
fn many_entries_are_each_found_again() {
    let mut state = pinned_at_95();
    for i in 0..50u8 {
        let address = H160([i; 20]);
        let number = U256::from_u64(i as u64);
        state.fill_storage(address, number, Ok(U256::from_u64(1000 + i as u64)));
        state.fill_basic(address, AccountInfo::assemble(vec![i], number, U256::zero()));
    }
    for i in 0..50u8 {
        assert_eq!(
            state.storage(H160([i; 20]), U256::from_u64(i as u64)),
            StorageLookup::Hit(U256::from_u64(1000 + i as u64))
        );
        match state.basic(H160([i; 20])) {
            AccountLookup::Hit(info) => assert_eq!(info.code, Some(vec![i])),
            AccountLookup::Miss(load) => panic!("not cached: {:?}", load),
        }
    }
}
