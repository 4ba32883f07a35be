use vstd::prelude::*;

verus! {

/// The computation and storage a call may use.
#[derive(Clone, Copy, Debug, PartialEq, Eq, Structural)]
pub struct Weight {
    pub ref_time: u64,
    pub proof_size: u64,
}

impl Weight {
    pub fn from_parts(ref_time: u64, proof_size: u64) -> (r: Weight)
        ensures
            r.ref_time == ref_time,
            r.proof_size == proof_size,
    {
        Weight { ref_time, proof_size }
    }

    /// Each component strictly below that of `other`.
    pub fn all_lt(&self, other: &Weight) -> (r: bool)
        ensures
            r == (self.ref_time < other.ref_time && self.proof_size < other.proof_size),
    {
        self.ref_time < other.ref_time && self.proof_size < other.proof_size
    }
}

#[derive(Clone, Copy, Debug, PartialEq, Eq, Structural)]
pub enum DispatchClass {
    Normal,
    Operational,
    Mandatory,
}

#[derive(Clone, Copy, Debug, PartialEq, Eq, Structural)]
pub enum Pays {
    Yes,
    No,
}

/// What a call declares before it runs.
#[derive(Clone, Copy, Debug, PartialEq, Eq, Structural)]
pub struct DispatchInfo {
    pub weight: Weight,
    pub class: DispatchClass,
    pub pays_fee: Pays,
}

/// What a call reports after it ran.
#[derive(Clone, Copy, Debug, PartialEq, Eq, Structural)]
pub struct PostDispatchInfo {
    pub actual_weight: Option<Weight>,
    pub pays_fee: Pays,
}

#[derive(Clone, Copy, Debug, PartialEq, Eq, Structural)]
pub enum DispatchError {
    Other,
    CannotLookup,
    BadOrigin,
    Module { index: u8, error: u8 },
    ConsumerRemaining,
    NoProviders,
    TooManyConsumers,
    Exhausted,
    Corruption,
    Unavailable,
}

/// A failed dispatch, with what the call reported.
#[derive(Clone, Copy, Debug, PartialEq, Eq, Structural)]
pub struct DispatchErrorWithPostInfo {
    pub post_info: PostDispatchInfo,
    pub error: DispatchError,
}

pub type DispatchResultWithPostInfo = Result<PostDispatchInfo, DispatchErrorWithPostInfo>;

/// The weight to charge for a call that ran: what it reported, or else what it declared.
pub open spec fn charged(info: DispatchInfo, post_info: PostDispatchInfo) -> Weight {
    match post_info.actual_weight {
        Some(w) => w,
        None => info.weight,
    }
}

pub fn charged_weight(info: &DispatchInfo, post_info: &PostDispatchInfo) -> (r: Weight)
    ensures
        r == charged(*info, *post_info),
{
    match post_info.actual_weight {
        Some(w) => w,
        None => info.weight,
    }
}

/// What post-dispatch accounting is handed for a dispatch result: the post info the
/// call reported (on failure, the one its error carries) and the bare outcome.
pub open spec fn post_dispatch_args(res: DispatchResultWithPostInfo) -> (
    PostDispatchInfo,
    Result<(), DispatchError>,
) {
    match res {
        Ok(p) => (p, Ok(())),
        Err(e) => (e.post_info, Err(e.error)),
    }
}

pub fn post_dispatch_input(res: &DispatchResultWithPostInfo) -> (r: (
    PostDispatchInfo,
    Result<(), DispatchError>,
))
    ensures
        r == post_dispatch_args(*res),
{
    match res {
        Ok(p) => (*p, Ok(())),
        Err(e) => (e.post_info, Err(e.error)),
    }
}

} // verus!
