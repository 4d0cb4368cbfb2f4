//! The call session: which call is bound to the machine, and what a run of
//! the engine on it means for the caller.

use crate::primitives::{H160, U256};
use crate::provider::{decode_data, decoded_data, FetchError, Provider};
use crate::state::{State, StateView, SAFETY_MARGIN};
use crate::text::{decode_address, decoded_address};
use vstd::prelude::*;

verus! {

/// How a run of the engine ended, in the engine's own terms.
#[derive(Clone, Copy, Debug, PartialEq, Eq, Structural)]
pub enum Return {
    Continue,
    Stop,
    Return,
    SelfDestruct,
    Revert,
    CallTooDeep,
    OutOfFund,
    OutOfGas,
    OpcodeNotFound,
    CallNotAllowedInsideStatic,
    InvalidOpcode,
    InvalidJump,
    InvalidMemoryRange,
    NotActivated,
    StackUnderflow,
    StackOverflow,
    OutOfOffset,
    FatalNotSupported,
    GasMaxFeeGreaterThanPriorityFee,
    GasPriceLessThenBasefee,
    CallerGasLimitMoreThenBlock,
    RejectCallerWithCode,
    LackOfFundForGasLimit,
    CreateCollision,
    OverflowPayment,
    Precompile,
    CreateContractLimit,
    CreateContractWithEF,
}

/// What a run of the engine produced.
#[derive(Debug, PartialEq, Eq)]
pub enum TransactOut {
    /// Nothing.
    Empty,
    /// The output of a call.
    Call(Vec<u8>),
    /// The code of a created contract, and its address where it has one.
    Create(Vec<u8>, Option<H160>),
}

/// Why a call gave no output.
#[derive(Clone, Copy, Debug, PartialEq, Eq, Structural)]
pub enum CallError {
    /// The target is not the text of an address.
    InvalidAddress,
    /// The payload does not open with `0x`.
    MissingPrefix,
    /// The payload is not made of pairs of hexadecimal digits.
    InvalidHex,
    /// The engine ended the call in another way than by returning.
    ExecutionFailed,
    /// The engine returned, but not with the output of a call.
    UnexpectedOutput,
}

impl CallError {
    /// The message shown when the call is given up.
    pub fn message(&self) -> (r: &'static str)
        ensures
            r@ == match *self {
                CallError::InvalidAddress => "invalid address"@,
                CallError::MissingPrefix => "missing 0x- prefix"@,
                CallError::InvalidHex => "invalid hex data"@,
                CallError::ExecutionFailed => "call execution failed"@,
                CallError::UnexpectedOutput => "unexpected transaction output"@,
            },
    {
        match self {
            CallError::InvalidAddress => "invalid address",
            CallError::MissingPrefix => "missing 0x- prefix",
            CallError::InvalidHex => "invalid hex data",
            CallError::ExecutionFailed => "call execution failed",
            CallError::UnexpectedOutput => "unexpected transaction output",
        }
    }
}

/// The target and the payload that two texts name: the first read as an
/// address, the second as a byte string. The address is read first.
pub open spec fn parsed_call(to: Seq<char>, data: Seq<char>) -> Result<
    (Seq<u8>, Seq<u8>),
    CallError,
> {
    match decoded_address(to) {
        None => Err(CallError::InvalidAddress),
        Some(target) => match decoded_data(data) {
            Ok(payload) => Ok((target, payload)),
            Err(FetchError::MissingPrefix) => Err(CallError::MissingPrefix),
            Err(_) => Err(CallError::InvalidHex),
        },
    }
}

/// What a run of the engine means for the caller: output and gas where it
/// ended by returning, with the output of a call; else the reason why not.
/// Only `Return::Return` counts as returning: a run that stopped without
/// output, reverted or failed is a failed execution. How the run ended is
/// looked at first.
pub open spec fn executed(ret: Return, out: TransactOut, gas: u64) -> Result<
    (Seq<u8>, nat),
    CallError,
> {
    if ret != Return::Return {
        Err(CallError::ExecutionFailed)
    } else {
        match out {
            TransactOut::Call(output) => Ok((output@, gas as nat)),
            _ => Err(CallError::UnexpectedOutput),
        }
    }
}

/// The engine's side of a benchmark: the cache it reads the chain from, and
/// the call that is to be run.
#[derive(Debug)]
pub struct Vm {
    state: State,
    to: Option<H160>,
    data: Vec<u8>,
}

/// One call bound to a machine, ready to be run any number of times.
pub struct Call<'vm>(pub &'vm mut Vm);

impl Vm {
    /// The cache behind the machine.
    pub closed spec fn cache(&self) -> State {
        self.state
    }

    /// The address that the pending call goes to, where one is set.
    pub closed spec fn target(&self) -> Option<Seq<u8>> {
        match self.to {
            Some(to) => Some(to@),
            None => None,
        }
    }

    /// The payload of the pending call.
    pub closed spec fn payload(&self) -> Seq<u8> {
        self.data@
    }

    /// A machine over an empty cache for a chain whose head is at `head`,
    /// with no call bound yet.
    pub fn new(provider: Provider, head: U256) -> (r: Vm)
        requires
            head@ >= SAFETY_MARGIN,
        ensures
            r.cache()@ == StateView::pinned((head@ - SAFETY_MARGIN) as nat),
            r.cache().endpoint() == provider,
            r.target().is_none(),
            r.payload() == Seq::<u8>::empty(),
    {
        Vm { state: State::new(provider, head), to: None, data: Vec::new() }
    }

    /// Binds a call to the machine: from now on it runs `data` against `to`.
    pub fn call(&mut self, to: H160, data: Vec<u8>) -> (r: Call<'_>)
        ensures
            r.0.cache() == old(self).cache(),
            r.0.target() == Some(to@),
            r.0.payload() == data@,
            *final(self) == *final(r.0),
    {
        self.to = Some(to);
        self.data = data;
        Call(self)
    }

    /// Binds the call that two texts name: the target as the text of an
    /// address, the payload as hexadecimal digits behind `0x`. Where either
    /// cannot be read, the machine stays as it was.
    pub fn call_s(&mut self, to: &str, data: &str) -> (r: Result<Call<'_>, CallError>)
        ensures
            match r {
                Ok(call) => {
                    &&& parsed_call(to@, data@) == Ok::<(Seq<u8>, Seq<u8>), CallError>(
                        (call.0.target().unwrap(), call.0.payload()),
                    )
                    &&& call.0.target().is_some()
                    &&& call.0.cache() == old(self).cache()
                    &&& *final(self) == *final(call.0)
                },
                Err(error) => parsed_call(to@, data@) == Err::<(Seq<u8>, Seq<u8>), CallError>(
                    error,
                ) && *final(self) == *old(self),
            },
    {
        let target = match decode_address(to) {
            Some(target) => target,
            None => {
                return Err(CallError::InvalidAddress);
            },
        };
        let payload = match decode_data(data) {
            Ok(payload) => payload,
            Err(FetchError::MissingPrefix) => {
                return Err(CallError::MissingPrefix);
            },
            Err(_) => {
                return Err(CallError::InvalidHex);
            },
        };
        Ok(self.call(target, payload))
    }

    /// The cache behind the machine.
    pub fn state(&self) -> (r: &State)
        ensures
            *r == self.cache(),
    {
        &self.state
    }

    /// The cache behind the machine, to be filled while the engine runs.
    /// The bound call stays as it is.
    pub fn state_mut(&mut self) -> (r: &mut State)
        ensures
            *r == old(self).cache(),
            final(self).cache() == *final(r),
            final(self).target() == old(self).target(),
            final(self).payload() == old(self).payload(),
    {
        &mut self.state
    }

    /// The address that the pending call goes to, where one is set.
    pub fn transact_to(&self) -> (r: Option<H160>)
        ensures
            match r {
                Some(to) => self.target() == Some(to@),
                None => self.target().is_none(),
            },
    {
        self.to
    }

    /// The payload of the pending call.
    pub fn data(&self) -> (r: &Vec<u8>)
        ensures
            r@ == self.payload(),
    {
        &self.data
    }
}

impl<'vm> Call<'vm> {
    /// Reads the outcome of one run of the engine on this call: the output
    /// and the gas used where the call returned with output, else the
    /// reason why there is none. The machine does not change.
    pub fn execute(&mut self, ret: Return, out: TransactOut, gas: u64) -> (r: Result<
        (Vec<u8>, U256),
        CallError,
    >)
        ensures
            *final(self) == *old(self),
            match r {
                Ok((output, used)) => executed(ret, out, gas) == Ok::<(Seq<u8>, nat), CallError>(
                    (output@, used@),
                ),
                Err(error) => executed(ret, out, gas) == Err::<(Seq<u8>, nat), CallError>(error),
            },
    {
        match ret {
            Return::Return => match out {
                TransactOut::Call(output) => Ok((output, U256::from_u64(gas))),
                _ => Err(CallError::UnexpectedOutput),
            },
            _ => Err(CallError::ExecutionFailed),
        }
    }
}

} // verus!
