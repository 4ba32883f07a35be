use vstd::prelude::*;

verus! {

/// Where a transaction came from.
#[derive(Clone, Copy, Debug, PartialEq, Eq, Structural)]
pub enum TransactionSource {
    InBlock,
    Local,
    External,
}

/// Why a transaction can never be valid.
#[derive(Clone, Copy, Debug, PartialEq, Eq, Structural)]
pub enum InvalidTransaction {
    Call,
    Payment,
    Future,
    Stale,
    BadProof,
    AncientBirthBlock,
    ExhaustsResources,
    Custom(u8),
    BadMandatory,
    MandatoryValidation,
    BadSigner,
}

/// Why validity could not be decided.
#[derive(Clone, Copy, Debug, PartialEq, Eq, Structural)]
pub enum UnknownTransaction {
    CannotLookup,
    NoUnsignedValidator,
    Custom(u8),
}

#[derive(Clone, Copy, Debug, PartialEq, Eq, Structural)]
pub enum TransactionValidityError {
    Invalid(InvalidTransaction),
    Unknown(UnknownTransaction),
}

/// What a valid transaction tells the pool: its priority, the tags it needs and
/// gives, how long it stays valid, and whether to pass it on.
#[derive(Clone, Debug, PartialEq, Eq)]
pub struct ValidTransaction {
    pub priority: u64,
    pub required_tags: Vec<Vec<u8>>,
    pub provided_tags: Vec<Vec<u8>>,
    pub longevity: u64,
    pub propagate: bool,
}

pub type TransactionValidity = Result<ValidTransaction, TransactionValidityError>;

/// `r` merges `a` with `b`: priorities add (saturating), tags of `a` come before
/// those of `b`, the shorter longevity holds, and both must agree to propagate.
pub open spec fn combined(a: ValidTransaction, b: ValidTransaction, r: ValidTransaction) -> bool {
    &&& r.priority == if a.priority + b.priority <= u64::MAX {
        (a.priority + b.priority) as u64
    } else {
        u64::MAX
    }
    &&& r.required_tags@ == a.required_tags@ + b.required_tags@
    &&& r.provided_tags@ == a.provided_tags@ + b.provided_tags@
    &&& r.longevity == if a.longevity <= b.longevity {
        a.longevity
    } else {
        b.longevity
    }
    &&& r.propagate == (a.propagate && b.propagate)
}

impl ValidTransaction {
    /// Merges two validities of one transaction into one.
    pub fn combine_with(self, other: ValidTransaction) -> (r: ValidTransaction)
        ensures
            combined(self, other, r),
    {
        let ValidTransaction { priority, mut required_tags, mut provided_tags, longevity, propagate } = self;
        let mut other = other;
        required_tags.append(&mut other.required_tags);
        provided_tags.append(&mut other.provided_tags);
        ValidTransaction {
            priority: priority.saturating_add(other.priority),
            required_tags,
            provided_tags,
            longevity: if longevity <= other.longevity {
                longevity
            } else {
                other.longevity
            },
            propagate: propagate && other.propagate,
        }
    }
}

} // verus!
