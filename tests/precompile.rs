use evm_core::{
    admit_call, charged_weight, Dispatch, DispatchClass, DispatchError, DispatchErrorWithPostInfo,
    DispatchInfo, DispatchResultWithPostInfo, DispatchRuntime, Dispatchable, ExitError, GetDispatchInfo,
    Hook, HookLog, Pays, PostDispatchInfo, PrecompileHandle, Weight,
};

/// A call encoded as: class byte, pays byte, declared ref time, reported ref time
/// (0 for none), and whether it succeeds.
struct RuntimeCall {
    info: DispatchInfo,
    actual: Option<Weight>,
    succeeds: bool,
}

impl GetDispatchInfo for RuntimeCall {
    fn get_dispatch_info_spec(&self) -> DispatchInfo {
        self.get_dispatch_info()
    }

    fn get_dispatch_info(&self) -> DispatchInfo {
        self.info
    }
}

impl Dispatchable<[u8; 32]> for RuntimeCall {
    fn dispatch(self, origin: Option<[u8; 32]>, log: &mut HookLog) -> DispatchResultWithPostInfo {
        log.record(Hook::Dispatch);
        self.dispatch_spec(origin)
    }

    fn dispatch_spec(self, origin: Option<[u8; 32]>) -> DispatchResultWithPostInfo {
        let post_info = PostDispatchInfo { actual_weight: self.actual, pays_fee: Pays::Yes };
        if self.succeeds && origin == Some([0xaa; 32]) {
            Ok(post_info)
        } else {
            Err(DispatchErrorWithPostInfo { post_info, error: DispatchError::BadOrigin })
        }
    }
}

struct Runtime;

impl DispatchRuntime<RuntimeCall> for Runtime {
    fn decode_call_spec(input: Vec<u8>) -> Option<RuntimeCall> {
        Self::decode_call(&input)
    }

    fn gas_to_weight_spec(gas: u64) -> Weight {
        Self::gas_to_weight(gas)
    }

    fn weight_to_gas_spec(weight: Weight) -> u64 {
        Self::weight_to_gas(weight)
    }

    fn into_account_id_spec(address: [u8; 20]) -> [u8; 32] {
        Self::into_account_id(address)
    }

    fn decode_call(input: &Vec<u8>) -> Option<RuntimeCall> {
        if input.len() != 5 {
            return None;
        }
        let class = match input[0] {
            0 => DispatchClass::Normal,
            1 => DispatchClass::Operational,
            _ => DispatchClass::Mandatory,
        };
        let pays_fee = if input[1] == 1 { Pays::Yes } else { Pays::No };
        Some(RuntimeCall {
            info: DispatchInfo { weight: Weight::from_parts(input[2] as u64, 0), class, pays_fee },
            actual: if input[3] == 0 { None } else { Some(Weight::from_parts(input[3] as u64, 0)) },
            succeeds: input[4] == 1,
        })
    }

    fn gas_to_weight(gas: u64) -> Weight {
        Weight::from_parts(gas / 2, 1)
    }

    fn weight_to_gas(weight: Weight) -> u64 {
        weight.ref_time * 2
    }

    fn into_account_id(_address: [u8; 20]) -> [u8; 32] {
        [0xaa; 32]
    }
}

struct Handle {
    input: Vec<u8>,
    gas_limit: Option<u64>,
    used: u64,
}

impl PrecompileHandle for Handle {
    fn input_spec(&self) -> Vec<u8> {
        self.input()
    }

    fn gas_limit_spec(&self) -> Option<u64> {
        self.gas_limit()
    }

    fn caller_spec(&self) -> [u8; 20] {
        self.caller()
    }

    fn record_cost_spec(&self, cost: u64) -> Result<(), ExitError> {
        match self.gas_limit {
            Some(limit) if self.used + cost > limit => Err(ExitError::OutOfGas),
            _ => Ok(()),
        }
    }

    fn charged_spec(&self, cost: u64) -> Self {
        let used = if self.record_cost_spec(cost).is_ok() { self.used + cost } else { self.used };
        Handle { input: self.input.clone(), gas_limit: self.gas_limit, used }
    }

    fn input(&self) -> Vec<u8> {
        self.input.clone()
    }

    fn gas_limit(&self) -> Option<u64> {
        self.gas_limit
    }

    fn caller(&self) -> [u8; 20] {
        [1; 20]
    }

    fn record_cost(&mut self, cost: u64) -> Result<(), ExitError> {
        let r = self.record_cost_spec(cost);
        *self = self.charged_spec(cost);
        r
    }
}

fn run(input: Vec<u8>, gas_limit: Option<u64>) -> (Result<(), ExitError>, u64) {
    let mut handle = Handle { input, gas_limit, used: 0 };
    let r = Dispatch::<Runtime>::execute::<RuntimeCall, Handle>(&mut handle, &mut HookLog::new());
    (r, handle.used)
}

fn info(class: DispatchClass, pays_fee: Pays, ref_time: u64) -> DispatchInfo {
    DispatchInfo { weight: Weight::from_parts(ref_time, 0), class, pays_fee }
}

#[test]
fn admit_call_rules() {
    assert_eq!(admit_call(&info(DispatchClass::Normal, Pays::Yes, 10), None), Ok(()));
    assert_eq!(admit_call(&info(DispatchClass::Normal, Pays::No, 10), None), Err(ExitError::InvalidCall));
    assert_eq!(admit_call(&info(DispatchClass::Operational, Pays::Yes, 10), None), Err(ExitError::InvalidCall));
    let limit = Some(Weight::from_parts(11, 1));
    assert_eq!(admit_call(&info(DispatchClass::Normal, Pays::Yes, 10), limit), Ok(()));
    let limit = Some(Weight::from_parts(10, 1));
    assert_eq!(admit_call(&info(DispatchClass::Normal, Pays::Yes, 10), limit), Err(ExitError::OutOfGas));
}

#[test]
fn charged_weight_prefers_reported() {
    let i = info(DispatchClass::Normal, Pays::Yes, 10);
    let reported = PostDispatchInfo { actual_weight: Some(Weight::from_parts(3, 0)), pays_fee: Pays::Yes };
    assert_eq!(charged_weight(&i, &reported), Weight::from_parts(3, 0));
    let silent = PostDispatchInfo { actual_weight: None, pays_fee: Pays::Yes };
    assert_eq!(charged_weight(&i, &silent), Weight::from_parts(10, 0));
}

#[test]
fn execute_charges_reported_weight() {
    assert_eq!(run(vec![0, 1, 10, 4, 1], Some(100)), (Ok(()), 8));
    assert_eq!(run(vec![0, 1, 10, 0, 1], None), (Ok(()), 20));
}

#[test]
fn execute_rejects_bad_input_and_calls() {
    assert_eq!(run(vec![0, 1], None).0, Err(ExitError::DecodeFailed));
    assert_eq!(run(vec![1, 1, 10, 0, 1], None).0, Err(ExitError::InvalidCall));
    assert_eq!(run(vec![0, 0, 10, 0, 1], None).0, Err(ExitError::InvalidCall));
    assert_eq!(run(vec![0, 1, 50, 0, 1], Some(100)).0, Err(ExitError::OutOfGas));
    assert_eq!(run(vec![0, 1, 10, 0, 0], None), (Err(ExitError::DispatchFailed), 0));
}

#[test]
fn execute_dispatches_only_admitted_calls() {
    let mut handle = Handle { input: vec![0, 1, 10, 0, 1], gas_limit: None, used: 0 };
    let mut log = HookLog::new();
    assert_eq!(Dispatch::<Runtime>::execute::<RuntimeCall, Handle>(&mut handle, &mut log), Ok(()));
    assert_eq!(log.events, vec![Hook::Dispatch]);

    let mut handle = Handle { input: vec![1, 1, 10, 0, 1], gas_limit: None, used: 0 };
    let mut log = HookLog::new();
    assert_eq!(
        Dispatch::<Runtime>::execute::<RuntimeCall, Handle>(&mut handle, &mut log),
        Err(ExitError::InvalidCall)
    );
    assert!(log.events.is_empty());
    assert_eq!(handle.used, 0);
}
