use vstd::prelude::*;
use crate::dispatch::{charged, charged_weight, DispatchClass, DispatchInfo, Pays, Weight};
use crate::checked_extrinsic::{Dispatchable, GetDispatchInfo, Hook, HookLog};
use core::marker::PhantomData;

verus! {

/// Why a precompile stopped.
#[derive(Clone, Copy, Debug, PartialEq, Eq, Structural)]
pub enum ExitError {
    OutOfGas,
    DecodeFailed,
    InvalidCall,
    DispatchFailed,
}

/// The EVM side of a precompile call: its input, its gas, who called, and the
/// gas meter.
pub trait PrecompileHandle {
    spec fn input_spec(&self) -> Vec<u8>;

    spec fn gas_limit_spec(&self) -> Option<u64>;

    spec fn caller_spec(&self) -> [u8; 20];

    spec fn record_cost_spec(&self, cost: u64) -> Result<(), ExitError>;

    /// The handle after it was charged `cost`.
    spec fn charged_spec(&self, cost: u64) -> Self where Self: Sized;

    fn input(&self) -> (r: Vec<u8>)
        ensures
            r == self.input_spec(),
    ;

    fn gas_limit(&self) -> (r: Option<u64>)
        ensures
            r == self.gas_limit_spec(),
    ;

    fn caller(&self) -> (r: [u8; 20])
        ensures
            r == self.caller_spec(),
    ;

    fn record_cost(&mut self, cost: u64) -> (r: Result<(), ExitError>) where Self: Sized
        ensures
            r == old(self).record_cost_spec(cost),
            *final(self) == old(self).charged_spec(cost),
    ;
}

/// What the runtime supplies to run one of its calls from the EVM.
pub trait DispatchRuntime<Call> {
    spec fn decode_call_spec(input: Vec<u8>) -> Option<Call>;

    spec fn gas_to_weight_spec(gas: u64) -> Weight;

    spec fn weight_to_gas_spec(weight: Weight) -> u64;

    spec fn into_account_id_spec(address: [u8; 20]) -> [u8; 32];

    fn decode_call(input: &Vec<u8>) -> (r: Option<Call>)
        ensures
            r == Self::decode_call_spec(*input),
    ;

    fn gas_to_weight(gas: u64) -> (r: Weight)
        ensures
            r == Self::gas_to_weight_spec(gas),
    ;

    fn weight_to_gas(weight: Weight) -> (r: u64)
        ensures
            r == Self::weight_to_gas_spec(weight),
    ;

    fn into_account_id(address: [u8; 20]) -> (r: [u8; 32])
        ensures
            r == Self::into_account_id_spec(address),
    ;
}

/// A precompile that runs a runtime call, given SCALE-encoded as its input, on
/// behalf of the EVM caller.
pub struct Dispatch<T> {
    _marker: PhantomData<T>,
}

/// Whether a call may run from the EVM: it must pay fees and be of the normal
/// class; under a gas limit, its declared weight must stay below what the limit buys.
pub open spec fn admission(info: DispatchInfo, limit_weight: Option<Weight>) -> Result<(), ExitError> {
    if !(info.pays_fee == Pays::Yes && info.class == DispatchClass::Normal) {
            Err(ExitError::InvalidCall)
        } else {
            match limit_weight {
                Some(w) => if info.weight.ref_time < w.ref_time && info.weight.proof_size
                    < w.proof_size {
                    Ok(())
                } else {
                    Err(ExitError::OutOfGas)
                },
                None => Ok(()),
            }
        }
}

pub fn admit_call(info: &DispatchInfo, limit_weight: Option<Weight>) -> (r: Result<(), ExitError>)
    ensures
        r == admission(*info, limit_weight),
{
    let valid_call = info.pays_fee == Pays::Yes && info.class == DispatchClass::Normal;
    if !valid_call {
        return Err(ExitError::InvalidCall);
    }
    match limit_weight {
        Some(w) => {
            if info.weight.all_lt(&w) {
                Ok(())
            } else {
                Err(ExitError::OutOfGas)
            }
        },
        None => Ok(()),
    }
}

impl<T> Dispatch<T> {
    /// Decodes the call, admits it, runs it as the caller's mapped account, and
    /// charges the gas for the weight it reports (or else declared).
    pub fn execute<Call, H: PrecompileHandle>(handle: &mut H, log: &mut HookLog) -> (r: Result<
        (),
        ExitError,
    >) where
        T: DispatchRuntime<Call>,
        Call: Dispatchable<[u8; 32]> + GetDispatchInfo,

        ensures
            match T::decode_call_spec(old(handle).input_spec()) {
                None => r == Err::<(), ExitError>(ExitError::DecodeFailed),
                Some(call) => {
                    let info = call.get_dispatch_info_spec();
                    let limit = match old(handle).gas_limit_spec() {
                        Some(gas) => Some(T::gas_to_weight_spec(gas)),
                        None => None,
                    };
                    match admission(info, limit) {
                        Err(e) => r == Err::<(), ExitError>(e),
                        Ok(()) => match call.dispatch_spec(
                            Some(T::into_account_id_spec(old(handle).caller_spec())),
                        ) {
                            Err(_) => r == Err::<(), ExitError>(ExitError::DispatchFailed)
                                && *final(handle) == *old(handle),
                            Ok(post_info) => r == old(handle).record_cost_spec(
                                T::weight_to_gas_spec(charged(info, post_info)),
                            ) && *final(handle) == old(handle).charged_spec(
                                T::weight_to_gas_spec(charged(info, post_info)),
                            ),
                        },
                    }
                },
            },
            // The handle is charged only after a successful dispatch.
            T::decode_call_spec(old(handle).input_spec()) is None ==> *final(handle) == *old(handle),
            ({
                match T::decode_call_spec(old(handle).input_spec()) {
                    None => true,
                    Some(call) => {
                        let limit = match old(handle).gas_limit_spec() {
                            Some(gas) => Some(T::gas_to_weight_spec(gas)),
                            None => None,
                        };
                        admission(call.get_dispatch_info_spec(), limit) is Err ==> *final(handle)
                            == *old(handle)
                    },
                }
            }),
            // The call is dispatched once, and only once it was decoded and admitted.
            final(log).events@ == old(log).events@ + match T::decode_call_spec(old(handle).input_spec()) {
                None => Seq::<Hook>::empty(),
                Some(call) => {
                    let limit = match old(handle).gas_limit_spec() {
                        Some(gas) => Some(T::gas_to_weight_spec(gas)),
                        None => None,
                    };
                    if admission(call.get_dispatch_info_spec(), limit) is Err {
                        Seq::<Hook>::empty()
                    } else {
                        seq![Hook::Dispatch]
                    }
                },
            },
    {
        let input = handle.input();
        let target_gas = handle.gas_limit();
        let caller = handle.caller();
        let call = match T::decode_call(&input) {
            Some(c) => c,
            None => {
                return Err(ExitError::DecodeFailed);
            },
        };
        let info = call.get_dispatch_info();
        let limit_weight = match target_gas {
            Some(gas) => Some(T::gas_to_weight(gas)),
            None => None,
        };
        if let Err(e) = admit_call(&info, limit_weight) {
            return Err(e);
        }
        let origin = T::into_account_id(caller);
        match call.dispatch(Some(origin), log) {
            Ok(post_info) => {
                let cost = T::weight_to_gas(charged_weight(&info, &post_info));
                handle.record_cost(cost)
            },
            Err(_) => Err(ExitError::DispatchFailed),
        }
    }
}

} // verus!
