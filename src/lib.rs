//! Core rules of an EVM-compatible ledger: a congestion-driven base fee,
//! a two-space account identity, and the validate/apply pipeline of checked
//! extrinsics.

pub mod u256;
pub mod permill;
pub mod base_fee;
pub mod account;
pub mod dispatch;
pub mod validity;
pub mod checked_extrinsic;
pub mod precompile;

pub use u256::U256;
pub use permill::Permill;
pub use base_fee::{BaseFee, BaseFeeThreshold, Thresholds};
pub use account::{BasicCrossAccountId, BasicCrossAccountIdRepr, Config, DecodeError};
pub use dispatch::{
    charged_weight, post_dispatch_input, DispatchClass, DispatchError, DispatchErrorWithPostInfo,
    DispatchInfo, DispatchResultWithPostInfo, Pays, PostDispatchInfo, Weight,
};
pub use validity::{
    InvalidTransaction, TransactionSource, TransactionValidity, TransactionValidityError,
    UnknownTransaction, ValidTransaction,
};
pub use checked_extrinsic::{
    merge_bare_validity, self_contained_dispatch, self_contained_pre_dispatch, self_contained_validity,
    settle, ApplyExtrinsicResultWithInfo, CheckedExtrinsic, CheckedFormat, Dispatchable,
    GetDispatchInfo, Hook, HookLog, SelfContainedCall, TransactionExtension, ValidateUnsigned,
};
pub use precompile::{admit_call, Dispatch, DispatchRuntime, ExitError, PrecompileHandle};
