use pinned_state::primitives::{H160, U256};
use pinned_state::provider::Provider;
use pinned_state::state::{StorageLookup};
use pinned_state::vm::{CallError, Return, TransactOut, Vm};

fn machine() -> Vm {
    let provider = Provider::from_env(Some("http://node".to_string()), None).unwrap();
    Vm::new(provider, U256::from_u64(100))
}

fn token() -> H160 {
    H160([
        0xde, 0xf1, 0xca, 0x1f, 0xb7, 0xfb, 0xcd, 0xc7, 0x77, 0x52, 0x0a, 0xa7, 0xf3, 0x96, 0xb4,
        0xe0, 0x15, 0xf4, 0x97, 0xab,
    ])
}

#[test]
fn a_new_machine_has_no_call_bound() {
    let vm = machine();
    assert_eq!(vm.transact_to(), None);
    assert!(vm.data().is_empty());
    assert_eq!(vm.state().block(), U256::from_u64(95));
}

#[test]
fn call_binds_target_and_payload() {
    let mut vm = machine();
    {
        let call = vm.call(token(), vec![1, 2, 3]);
        assert_eq!(call.0.transact_to(), Some(token()));
        assert_eq!(call.0.data(), &vec![1, 2, 3]);
    }
    assert_eq!(vm.transact_to(), Some(token()));
    assert_eq!(vm.data(), &vec![1, 2, 3]);
}

#[test]
fn call_s_reads_address_and_payload() {
    let mut vm = machine();
    let bound = vm
        .call_s(
            "0xDEf1CA1fb7FBcDC777520aa7f396b4E015F497aB",
            "0x70a082310000000000000000000000009008d19f58aabd9ed0d60971565aa8510560ab41",
        )
        .map(|call| (call.0.transact_to(), call.0.data().clone()));
    let mut payload = vec![0x70, 0xa0, 0x82, 0x31];
    payload.extend_from_slice(&[0u8; 12]);
    payload.extend_from_slice(&[
        0x90, 0x08, 0xd1, 0x9f, 0x58, 0xaa, 0xbd, 0x9e, 0xd0, 0xd6, 0x09, 0x71, 0x56, 0x5a, 0xa8,
        0x51, 0x05, 0x60, 0xab, 0x41,
    ]);
    assert_eq!(bound, Ok((Some(token()), payload)));
}

#[test]
fn call_s_takes_an_address_without_prefix() {
    let mut vm = machine();
    let bound = vm
        .call_s("def1ca1fb7fbcdc777520aa7f396b4e015f497ab", "0x")
        .map(|call| (call.0.transact_to(), call.0.data().clone()));
    assert_eq!(bound, Ok((Some(token()), vec![])));
}

#[test]
fn call_s_refuses_a_bad_address_first() {
    let mut vm = machine();
    assert_eq!(vm.call_s("0x1234", "nothex").err(), Some(CallError::InvalidAddress));
    assert_eq!(vm.call_s("", "0x").err(), Some(CallError::InvalidAddress));
    assert_eq!(
        vm.call_s("0xDEf1CA1fb7FBcDC777520aa7f396b4E015F497aBcd", "0x").err(),
        Some(CallError::InvalidAddress)
    );
    assert_eq!(
        vm.call_s("0xZZf1CA1fb7FBcDC777520aa7f396b4E015F497aB", "0x").err(),
        Some(CallError::InvalidAddress)
    );
    assert_eq!(vm.transact_to(), None);
}

#[test]
fn call_s_refuses_a_payload_without_prefix() {
    let mut vm = machine();
    assert_eq!(
        vm.call_s("0xDEf1CA1fb7FBcDC777520aa7f396b4E015F497aB", "70a08231").err(),
        Some(CallError::MissingPrefix)
    );
    assert_eq!(CallError::MissingPrefix.message(), "missing 0x- prefix");
    assert_eq!(vm.transact_to(), None);
}

#[test]
fn call_s_refuses_a_payload_of_bad_digits() {
    let mut vm = machine();
    assert_eq!(
        vm.call_s("0xDEf1CA1fb7FBcDC777520aa7f396b4E015F497aB", "0x70a").err(),
        Some(CallError::InvalidHex)
    );
    assert_eq!(
        vm.call_s("0xDEf1CA1fb7FBcDC777520aa7f396b4E015F497aB", "0x70zz").err(),
        Some(CallError::InvalidHex)
    );
    assert_eq!(vm.transact_to(), None);
    assert!(vm.data().is_empty());
}

#[test]
fn a_failed_call_s_keeps_the_earlier_call() {
    let mut vm = machine();
    vm.call(token(), vec![9]);
    assert!(vm.call_s("0x00", "0x").is_err());
    assert_eq!(vm.transact_to(), Some(token()));
    assert_eq!(vm.data(), &vec![9]);
}

#[test]
fn execute_gives_output_and_gas_of_a_returned_call() {
    let mut vm = machine();
    let mut call = vm.call(token(), vec![]);
    assert_eq!(
        call.execute(Return::Return, TransactOut::Call(vec![0xaa, 0xbb]), 21064),
        Ok((vec![0xaa, 0xbb], U256([21064, 0, 0, 0])))
    );
    assert_eq!(
        call.execute(Return::Return, TransactOut::Call(vec![]), u64::MAX),
        Ok((vec![], U256([u64::MAX, 0, 0, 0])))
    );
}

#[test]
fn execute_reports_a_call_that_did_not_return() {
    let mut vm = machine();
    let mut call = vm.call(token(), vec![]);
    for ret in [
        Return::Continue,
        Return::Stop,
        Return::SelfDestruct,
        Return::Revert,
        Return::CallTooDeep,
        Return::OutOfFund,
        Return::OutOfGas,
        Return::OpcodeNotFound,
        Return::CallNotAllowedInsideStatic,
        Return::InvalidOpcode,
        Return::InvalidJump,
        Return::InvalidMemoryRange,
        Return::NotActivated,
        Return::StackUnderflow,
        Return::StackOverflow,
        Return::OutOfOffset,
        Return::FatalNotSupported,
        Return::GasMaxFeeGreaterThanPriorityFee,
        Return::GasPriceLessThenBasefee,
        Return::CallerGasLimitMoreThenBlock,
        Return::RejectCallerWithCode,
        Return::LackOfFundForGasLimit,
        Return::CreateCollision,
        Return::OverflowPayment,
        Return::Precompile,
        Return::CreateContractLimit,
        Return::CreateContractWithEF,
    ] {
        assert_eq!(
            call.execute(ret, TransactOut::Call(vec![1]), 5),
            Err(CallError::ExecutionFailed)
        );
        assert_eq!(call.execute(ret, TransactOut::Empty, 5), Err(CallError::ExecutionFailed));
    }
    assert_eq!(CallError::ExecutionFailed.message(), "call execution failed");
}

#[test]
fn execute_reports_output_that_is_not_of_a_call() {
    let mut vm = machine();
    let mut call = vm.call(token(), vec![]);
    assert_eq!(call.execute(Return::Return, TransactOut::Empty, 5), Err(CallError::UnexpectedOutput));
    assert_eq!(
        call.execute(Return::Return, TransactOut::Create(vec![1], Some(token())), 5),
        Err(CallError::UnexpectedOutput)
    );
    assert_eq!(CallError::UnexpectedOutput.message(), "unexpected transaction output");
}

#[test]
fn execute_leaves_the_machine_as_it_was() {
    let mut vm = machine();
    vm.state_mut().fill_storage(token(), U256::from_u64(1), Ok(U256::from_u64(2)));
    {
        let mut call = vm.call(token(), vec![4, 5]);
        let _ = call.execute(Return::Return, TransactOut::Call(vec![1]), 5);
        let _ = call.execute(Return::Revert, TransactOut::Empty, 5);
    }
    assert_eq!(vm.transact_to(), Some(token()));
    assert_eq!(vm.data(), &vec![4, 5]);
    assert_eq!(vm.state().storage(token(), U256::from_u64(1)), StorageLookup::Hit(U256::from_u64(2)));
}

#[test]
fn the_cache_is_reached_through_the_machine() {
    let mut vm = machine();
    vm.call(token(), vec![1]);
    vm.state_mut().fill_storage(token(), U256::zero(), Ok(U256::from_u64(3)));
    assert_eq!(vm.state().storage(token(), U256::zero()), StorageLookup::Hit(U256::from_u64(3)));
    assert_eq!(vm.transact_to(), Some(token()));
    assert_eq!(vm.data(), &vec![1]);
}
