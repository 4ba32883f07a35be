use vstd::prelude::*;
use crate::dispatch::{
    post_dispatch_args, post_dispatch_input, DispatchError, DispatchInfo, DispatchResultWithPostInfo, PostDispatchInfo,
};
use crate::validity::{
    combined, InvalidTransaction, TransactionSource, TransactionValidity, TransactionValidityError,
    ValidTransaction,
};

verus! {

pub type ApplyExtrinsicResultWithInfo = Result<DispatchResultWithPostInfo, TransactionValidityError>;

/// A collaborator hook, as recorded when it runs.
#[derive(Clone, Copy, Debug, PartialEq, Eq, Structural)]
pub enum Hook {
    ValidateUnsigned,
    InherentPreDispatch,
    ValidateOnly,
    DispatchTransaction,
    BareValidate,
    BareValidateAndPrepare,
    BarePostDispatch,
    Dispatch,
    ValidateSelfContained,
    PreDispatchSelfContained,
    ApplySelfContained,
}

/// The record of the collaborator hooks that ran, in order. Each hook is
/// handed the log and appends its own entry, once per run.
#[derive(Clone, Debug, PartialEq, Eq)]
pub struct HookLog {
    pub events: Vec<Hook>,
}

impl HookLog {
    pub fn new() -> (r: HookLog)
        ensures
            r.events@ == Seq::<Hook>::empty(),
    {
        HookLog { events: Vec::new() }
    }

    /// Records that `hook` ran.
    pub fn record(&mut self, hook: Hook)
        ensures
            final(self).events@ == old(self).events@.push(hook),
    {
        self.events.push(hook);
    }
}

/// Validation of transactions that carry no signature (inherents).
pub trait ValidateUnsigned<Call> {
    spec fn validate_unsigned_spec(source: TransactionSource, call: Call) -> TransactionValidity;

    spec fn pre_dispatch_spec(call: Call) -> Result<(), TransactionValidityError>;

    fn validate_unsigned(source: TransactionSource, call: &Call, log: &mut HookLog) -> (r: TransactionValidity)
        ensures
            r == Self::validate_unsigned_spec(source, *call),
            final(log).events@ == old(log).events@.push(Hook::ValidateUnsigned),
    ;

    fn pre_dispatch(call: &Call, log: &mut HookLog) -> (r: Result<(), TransactionValidityError>)
        ensures
            r == Self::pre_dispatch_spec(*call),
            final(log).events@ == old(log).events@.push(Hook::InherentPreDispatch),
    ;
}

/// The pipeline of checks and charges that wraps a signed or general transaction.
pub trait TransactionExtension<Call, AccountId> {
    spec fn validate_only_spec(
        &self,
        origin: Option<AccountId>,
        call: Call,
        info: DispatchInfo,
        len: usize,
    ) -> TransactionValidity;

    spec fn dispatch_transaction_spec(
        self,
        origin: Option<AccountId>,
        call: Call,
        info: DispatchInfo,
        len: usize,
    ) -> ApplyExtrinsicResultWithInfo;

    spec fn bare_validate_spec(call: Call, info: DispatchInfo, len: usize) -> TransactionValidity;

    spec fn bare_validate_and_prepare_spec(call: Call, info: DispatchInfo, len: usize) -> Result<
        (),
        TransactionValidityError,
    >;

    spec fn bare_post_dispatch_spec(
        info: DispatchInfo,
        post_info: PostDispatchInfo,
        len: usize,
        result: Result<(), DispatchError>,
    ) -> Result<(), TransactionValidityError>;

    fn validate_only(
        &self,
        origin: Option<AccountId>,
        call: &Call,
        info: &DispatchInfo,
        len: usize,
        log: &mut HookLog,
    ) -> (r: TransactionValidity)
        ensures
            r == self.validate_only_spec(origin, *call, *info, len),
            final(log).events@ == old(log).events@.push(Hook::ValidateOnly),
    ;

    /// Validates, prepares, dispatches and settles in one step.
    fn dispatch_transaction(
        self,
        origin: Option<AccountId>,
        call: Call,
        info: &DispatchInfo,
        len: usize,
        log: &mut HookLog,
    ) -> (r: ApplyExtrinsicResultWithInfo)
        ensures
            r == self.dispatch_transaction_spec(origin, call, *info, len),
            final(log).events@ == old(log).events@.push(Hook::DispatchTransaction),
    ;

    fn bare_validate(call: &Call, info: &DispatchInfo, len: usize, log: &mut HookLog) -> (r: TransactionValidity)
        ensures
            r == Self::bare_validate_spec(*call, *info, len),
            final(log).events@ == old(log).events@.push(Hook::BareValidate),
    ;

    fn bare_validate_and_prepare(
        call: &Call,
        info: &DispatchInfo,
        len: usize,
        log: &mut HookLog,
    ) -> (r: Result<
        (),
        TransactionValidityError,
    >)
        ensures
            r == Self::bare_validate_and_prepare_spec(*call, *info, len),
            final(log).events@ == old(log).events@.push(Hook::BareValidateAndPrepare),
    ;

    fn bare_post_dispatch(
        info: &DispatchInfo,
        post_info: &mut PostDispatchInfo,
        len: usize,
        result: &Result<(), DispatchError>,
        log: &mut HookLog,
    ) -> (r: Result<(), TransactionValidityError>)
        ensures
            r == Self::bare_post_dispatch_spec(*info, *old(post_info), len, *result),
            final(log).events@ == old(log).events@.push(Hook::BarePostDispatch),
    ;
}

/// A call that can run under an origin: an account, or none.
pub trait Dispatchable<AccountId> {
    spec fn dispatch_spec(self, origin: Option<AccountId>) -> DispatchResultWithPostInfo;

    fn dispatch(self, origin: Option<AccountId>, log: &mut HookLog) -> (r: DispatchResultWithPostInfo)
        ensures
            r == self.dispatch_spec(origin),
            final(log).events@ == old(log).events@.push(Hook::Dispatch),
    ;
}

/// A call that carries its own proof of origin. `None` from any of these says
/// the call is not self-contained after all.
pub trait SelfContainedCall<SignedInfo> {
    spec fn validate_self_contained_spec(
        &self,
        info: SignedInfo,
        dispatch_info: DispatchInfo,
        len: usize,
    ) -> Option<TransactionValidity>;

    spec fn pre_dispatch_self_contained_spec(
        &self,
        info: SignedInfo,
        dispatch_info: DispatchInfo,
        len: usize,
    ) -> Option<Result<(), TransactionValidityError>>;

    spec fn apply_self_contained_spec(self, info: SignedInfo) -> Option<DispatchResultWithPostInfo>;

    fn validate_self_contained(
        &self,
        info: &SignedInfo,
        dispatch_info: &DispatchInfo,
        len: usize,
        log: &mut HookLog,
    ) -> (r: Option<TransactionValidity>)
        ensures
            r == self.validate_self_contained_spec(*info, *dispatch_info, len),
            final(log).events@ == old(log).events@.push(Hook::ValidateSelfContained),
    ;

    fn pre_dispatch_self_contained(
        &self,
        info: &SignedInfo,
        dispatch_info: &DispatchInfo,
        len: usize,
        log: &mut HookLog,
    ) -> (r: Option<Result<(), TransactionValidityError>>)
        ensures
            r == self.pre_dispatch_self_contained_spec(*info, *dispatch_info, len),
            final(log).events@ == old(log).events@.push(Hook::PreDispatchSelfContained),
    ;

    fn apply_self_contained(self, info: SignedInfo, log: &mut HookLog) -> (r: Option<DispatchResultWithPostInfo>)
        ensures
            r == self.apply_self_contained_spec(info),
            final(log).events@ == old(log).events@.push(Hook::ApplySelfContained),
    ;
}

/// A call that declares its weight, class and fee liability.
pub trait GetDispatchInfo {
    spec fn get_dispatch_info_spec(&self) -> DispatchInfo;

    fn get_dispatch_info(&self) -> (r: DispatchInfo)
        ensures
            r == self.get_dispatch_info_spec(),
    ;
}

/// How a checked extrinsic is authorised.
#[derive(Clone, Debug, PartialEq, Eq)]
pub enum CheckedFormat<AccountId, Extension, SelfContainedSignedInfo> {
    /// No signer and no extension: an inherent.
    Bare,
    /// Signed by an account, with its extension.
    Signed(AccountId, Extension),
    /// No signer, but checked by an extension.
    General(Extension),
    /// The call carries its own proof, recovered into this info.
    SelfContained(SelfContainedSignedInfo),
}

/// An extrinsic whose signature, if any, has been checked.
#[derive(Clone, Debug, PartialEq, Eq)]
pub struct CheckedExtrinsic<AccountId, Call, Extension, SelfContainedSignedInfo> {
    pub format: CheckedFormat<AccountId, Extension, SelfContainedSignedInfo>,
    pub function: Call,
}

pub open spec fn bad_proof() -> TransactionValidityError {
    TransactionValidityError::Invalid(InvalidTransaction::BadProof)
}

/// The validity of a bare extrinsic whose inherent check passed with
/// `inherent`: the legacy check's error, or its result merged with `inherent`.
pub fn merge_bare_validity(inherent: ValidTransaction, legacy: TransactionValidity) -> (r:
    TransactionValidity)
    ensures
        match legacy {
            Err(e) => r == Err::<ValidTransaction, TransactionValidityError>(e),
            Ok(l) => r is Ok && combined(l, inherent, r->Ok_0),
        },
{
    match legacy {
        Err(e) => Err(e),
        Ok(l) => Ok(l.combine_with(inherent)),
    }
}

/// The validity of a self-contained extrinsic from what its call answered: a
/// call that declines is a bad proof.
pub fn self_contained_validity(answer: Option<TransactionValidity>) -> (r: TransactionValidity)
    ensures
        r == match answer {
            Some(v) => v,
            None => Err(bad_proof()),
        },
{
    match answer {
        Some(v) => v,
        None => Err(TransactionValidityError::Invalid(InvalidTransaction::BadProof)),
    }
}

/// The outcome of a self-contained call's pre-dispatch check: a call that
/// declines is a bad proof.
pub fn self_contained_pre_dispatch(answer: Option<Result<(), TransactionValidityError>>) -> (r:
    Result<(), TransactionValidityError>)
    ensures
        r == match answer {
            Some(v) => v,
            None => Err(bad_proof()),
        },
{
    match answer {
        Some(v) => v,
        None => Err(TransactionValidityError::Invalid(InvalidTransaction::BadProof)),
    }
}

/// The dispatch result of a self-contained call: a call that declines is a bad proof.
pub fn self_contained_dispatch(answer: Option<DispatchResultWithPostInfo>) -> (r: Result<
    DispatchResultWithPostInfo,
    TransactionValidityError,
>)
    ensures
        r == match answer {
            Some(v) => Ok::<DispatchResultWithPostInfo, TransactionValidityError>(v),
            None => Err(bad_proof()),
        },
{
    match answer {
        Some(v) => Ok(v),
        None => Err(TransactionValidityError::Invalid(InvalidTransaction::BadProof)),
    }
}

/// The result of applying an extrinsic once its post-dispatch accounting
/// answered `settled`: that error, or else the dispatch result itself.
pub open spec fn settled_result(
    res: DispatchResultWithPostInfo,
    settled: Result<(), TransactionValidityError>,
) -> ApplyExtrinsicResultWithInfo {
    match settled {
        Ok(()) => Ok(res),
        Err(e) => Err(e),
    }
}

/// `res` settled by the bare post-dispatch accounting of extension `E`, which is
/// handed the post info and outcome of `res`.
pub open spec fn settle_bare<Call, AccountId, E: TransactionExtension<Call, AccountId>>(
    res: DispatchResultWithPostInfo,
    info: DispatchInfo,
    len: usize,
) -> ApplyExtrinsicResultWithInfo {
    settled_result(
        res,
        E::bare_post_dispatch_spec(info, post_dispatch_args(res).0, len, post_dispatch_args(res).1),
    )
}

pub fn settle(res: DispatchResultWithPostInfo, settled: Result<(), TransactionValidityError>) -> (r:
    ApplyExtrinsicResultWithInfo)
    ensures
        r == settled_result(res, settled),
{
    match settled {
        Ok(()) => Ok(res),
        Err(e) => Err(e),
    }
}

impl<AccountId, Call, Extension, SelfContainedSignedInfo> CheckedExtrinsic<
    AccountId,
    Call,
    Extension,
    SelfContainedSignedInfo,
> {
    pub fn get_dispatch_info(&self) -> (r: DispatchInfo) where Call: GetDispatchInfo
        ensures
            r == self.function.get_dispatch_info_spec(),
    {
        self.function.get_dispatch_info()
    }

    /// The hooks that validation runs, in order: a bare extrinsic's inherent
    /// check, then its legacy check unless the first failed; the extension's
    /// check alone for a signed or general one; the call's own check alone for
    /// a self-contained one.
    pub open spec fn validate_hooks<I: ValidateUnsigned<Call>>(&self, source: TransactionSource) -> Seq<
        Hook,
    > {
        match self.format {
            CheckedFormat::Bare => if I::validate_unsigned_spec(source, self.function) is Err {
                seq![Hook::ValidateUnsigned]
            } else {
                seq![Hook::ValidateUnsigned, Hook::BareValidate]
            },
            CheckedFormat::Signed(_, _) => seq![Hook::ValidateOnly],
            CheckedFormat::General(_) => seq![Hook::ValidateOnly],
            CheckedFormat::SelfContained(_) => seq![Hook::ValidateSelfContained],
        }
    }

    /// The hooks that applying runs, in order. A bare extrinsic: inherent
    /// pre-dispatch, then preparation, then dispatch and one post-dispatch
    /// settlement, stopping at the first check that fails. A signed or general
    /// one: the extension's dispatch alone. A self-contained one: its own
    /// pre-dispatch check, then its own apply, then one post-dispatch settlement,
    /// stopping where a step declines or fails.
    pub open spec fn apply_hooks<I: ValidateUnsigned<Call>>(self, info: DispatchInfo, len: usize) -> Seq<
        Hook,
    > where
        Extension: TransactionExtension<Call, AccountId>,
        Call: SelfContainedCall<SelfContainedSignedInfo>,
     {
        match self.format {
            CheckedFormat::Bare => if I::pre_dispatch_spec(self.function) is Err {
                seq![Hook::InherentPreDispatch]
            } else if Extension::bare_validate_and_prepare_spec(self.function, info, len) is Err {
                seq![Hook::InherentPreDispatch, Hook::BareValidateAndPrepare]
            } else {
                seq![
                    Hook::InherentPreDispatch,
                    Hook::BareValidateAndPrepare,
                    Hook::Dispatch,
                    Hook::BarePostDispatch,
                ]
            },
            CheckedFormat::Signed(_, _) => seq![Hook::DispatchTransaction],
            CheckedFormat::General(_) => seq![Hook::DispatchTransaction],
            CheckedFormat::SelfContained(signed_info) => match self.function.pre_dispatch_self_contained_spec(
                signed_info,
                info,
                len,
            ) {
                Some(Ok(())) => if self.function.apply_self_contained_spec(signed_info) is None {
                    seq![Hook::PreDispatchSelfContained, Hook::ApplySelfContained]
                } else {
                    seq![
                        Hook::PreDispatchSelfContained,
                        Hook::ApplySelfContained,
                        Hook::BarePostDispatch,
                    ]
                },
                _ => seq![Hook::PreDispatchSelfContained],
            },
        }
    }

    /// Decides whether the extrinsic may enter a block. A bare one must pass the
    /// inherent check and then the legacy bare check; a signed or general one
    /// goes to its extension, with the signer (or no one) as origin; a
    /// self-contained one validates itself, and one that declines is a bad proof.
    pub fn validate<I: ValidateUnsigned<Call>>(
        &self,
        source: TransactionSource,
        info: &DispatchInfo,
        len: usize,
        log: &mut HookLog,
    ) -> (r: TransactionValidity) where
        AccountId: Copy,
        Extension: TransactionExtension<Call, AccountId>,
        Call: SelfContainedCall<SelfContainedSignedInfo>,

        ensures
            match self.format {
                CheckedFormat::Bare => match I::validate_unsigned_spec(source, self.function) {
                    Err(e) => r == Err::<ValidTransaction, TransactionValidityError>(e),
                    Ok(inherent) => match Extension::bare_validate_spec(self.function, *info, len) {
                        Err(e) => r == Err::<ValidTransaction, TransactionValidityError>(e),
                        Ok(legacy) => r is Ok && combined(legacy, inherent, r->Ok_0),
                    },
                },
                CheckedFormat::Signed(signer, extension) => r == extension.validate_only_spec(
                    Some(signer),
                    self.function,
                    *info,
                    len,
                ),
                CheckedFormat::General(extension) => r == extension.validate_only_spec(
                    None,
                    self.function,
                    *info,
                    len,
                ),
                CheckedFormat::SelfContained(signed_info) => r == match self.function.validate_self_contained_spec(
                    signed_info,
                    *info,
                    len,
                ) {
                    Some(v) => v,
                    None => Err(bad_proof()),
                },
            },
            final(log).events@ == old(log).events@ + self.validate_hooks::<I>(source),
    {
        match &self.format {
            CheckedFormat::Bare => {
                match I::validate_unsigned(source, &self.function, log) {
                    Err(e) => Err(e),
                    Ok(inherent) => merge_bare_validity(
                        inherent,
                        Extension::bare_validate(&self.function, info, len, log),
                    ),
                }
            },
            CheckedFormat::Signed(signer, extension) => {
                extension.validate_only(Some(*signer), &self.function, info, len, log)
            },
            CheckedFormat::General(extension) => {
                extension.validate_only(None, &self.function, info, len, log)
            },
            CheckedFormat::SelfContained(signed_info) => {
                self_contained_validity(
                    self.function.validate_self_contained(signed_info, info, len, log),
                )
            },
        }
    }

    /// Applies the extrinsic. A bare one passes the inherent pre-dispatch and the
    /// bare preparation, runs with no origin, and is settled by bare post-dispatch
    /// accounting whatever the dispatch gave; a signed or general one is handed
    /// whole to its extension; a self-contained one passes its own pre-dispatch
    /// check (one that declines or fails makes the block invalid), runs through
    /// its own entry point, and is settled as a bare one is.
    pub fn apply<I: ValidateUnsigned<Call>>(
        self,
        info: &DispatchInfo,
        len: usize,
        log: &mut HookLog,
    ) -> (r:
        ApplyExtrinsicResultWithInfo) where
        Extension: TransactionExtension<Call, AccountId>,
        Call: SelfContainedCall<SelfContainedSignedInfo> + Dispatchable<AccountId>,

        ensures
            match self.format {
                CheckedFormat::Bare => match I::pre_dispatch_spec(self.function) {
                    Err(e) => r == Err::<DispatchResultWithPostInfo, TransactionValidityError>(e),
                    Ok(()) => match Extension::bare_validate_and_prepare_spec(self.function, *info, len) {
                        Err(e) => r == Err::<DispatchResultWithPostInfo, TransactionValidityError>(e),
                        Ok(()) => r == settle_bare::<Call, AccountId, Extension>(
                            self.function.dispatch_spec(None),
                            *info,
                            len,
                        ),
                    },
                },
                CheckedFormat::Signed(signer, extension) => r == extension.dispatch_transaction_spec(
                    Some(signer),
                    self.function,
                    *info,
                    len,
                ),
                CheckedFormat::General(extension) => r == extension.dispatch_transaction_spec(
                    None,
                    self.function,
                    *info,
                    len,
                ),
                CheckedFormat::SelfContained(signed_info) => match self.function.pre_dispatch_self_contained_spec(
                    signed_info,
                    *info,
                    len,
                ) {
                    None => r == Err::<DispatchResultWithPostInfo, TransactionValidityError>(bad_proof()),
                    Some(Err(e)) => r == Err::<DispatchResultWithPostInfo, TransactionValidityError>(e),
                    Some(Ok(())) => match self.function.apply_self_contained_spec(signed_info) {
                        None => r == Err::<DispatchResultWithPostInfo, TransactionValidityError>(bad_proof()),
                        Some(res) => r == settle_bare::<Call, AccountId, Extension>(res, *info, len),
                    },
                },
            },
            final(log).events@ == old(log).events@ + self.apply_hooks::<I>(*info, len),
    {
        match self.format {
            CheckedFormat::Bare => {
                if let Err(e) = I::pre_dispatch(&self.function, log) {
                    return Err(e);
                }
                if let Err(e) = Extension::bare_validate_and_prepare(&self.function, info, len, log) {
                    return Err(e);
                }
                let res = self.function.dispatch(None, log);
                let (mut post_info, outcome) = post_dispatch_input(&res);
                let settled = Extension::bare_post_dispatch(info, &mut post_info, len, &outcome, log);
                settle(res, settled)
            },
            CheckedFormat::Signed(signer, extension) => {
                extension.dispatch_transaction(Some(signer), self.function, info, len, log)
            },
            CheckedFormat::General(extension) => {
                extension.dispatch_transaction(None, self.function, info, len, log)
            },
            CheckedFormat::SelfContained(signed_info) => {
                let checked = self_contained_pre_dispatch(
                    self.function.pre_dispatch_self_contained(&signed_info, info, len, log),
                );
                if let Err(e) = checked {
                    return Err(e);
                }
                let res = match self_contained_dispatch(self.function.apply_self_contained(signed_info, log)) {
                    Ok(res) => res,
                    Err(e) => {
                        return Err(e);
                    },
                };
                let (mut post_info, outcome) = post_dispatch_input(&res);
                let settled = Extension::bare_post_dispatch(info, &mut post_info, len, &outcome, log);
                settle(res, settled)
            },
        }
    }
}

} // verus!
