use vstd::prelude::*;
use crate::permill::{Permill, ACCURACY, rational_parts};
use crate::u256::{U256, U512, u256_max};

verus! {

/// The three block fullness levels that shape the fee adjustment: fullness is
/// first held within `[lower, upper]` and rescaled to that range; at `ideal`
/// the fee stays put.
#[derive(Clone, Copy, Debug, PartialEq, Eq, Structural)]
pub struct Thresholds {
    pub lower: Permill,
    pub ideal: Permill,
    pub upper: Permill,
}

impl Thresholds {
    pub open spec fn wf(self) -> bool {
        &&& self.lower.wf()
        &&& self.ideal.wf()
        &&& self.upper.wf()
        &&& self.lower.parts <= self.upper.parts
    }
}

/// The usual thresholds: the whole range of fullness, with half a block as ideal.
pub struct BaseFeeThreshold;

impl BaseFeeThreshold {
    pub fn lower() -> (r: Permill)
        ensures
            r.wf(),
            r.parts == 0,
    {
        Permill::zero()
    }

    pub fn ideal() -> (r: Permill)
        ensures
            r.wf(),
            r.parts == 500_000,
    {
        Permill::from_parts(500_000)
    }

    pub fn upper() -> (r: Permill)
        ensures
            r.wf(),
            r.parts == ACCURACY,
    {
        Permill::from_parts(1_000_000)
    }

    pub fn thresholds() -> (r: Thresholds)
        ensures
            r.wf(),
            r.lower.parts == 0,
            r.ideal.parts == 500_000,
            r.upper.parts == ACCURACY,
    {
        Thresholds { lower: Self::lower(), ideal: Self::ideal(), upper: Self::upper() }
    }
}

/// `x` held within `[lo, hi]`.
pub open spec fn clamp_int(x: int, lo: int, hi: int) -> int {
    if x < lo {
        lo
    } else if x > hi {
        hi
    } else {
        x
    }
}

/// Block fullness in millionths, held within the thresholds' range and rescaled to it.
pub open spec fn usage_parts(weight: int, max_weight: int, t: Thresholds) -> int {
    let used = clamp_int(rational_parts(weight, max_weight), t.lower.parts as int, t.upper.parts as int);
    rational_parts(used - t.lower.parts, t.upper.parts - t.lower.parts)
}

/// The share of the fee, in millionths, by which it moves: the elasticity scaled
/// by how far usage lies from the target, relative to the target.
pub open spec fn adjustment_parts(usage: int, target: int, elasticity: int) -> int {
    if usage > target {
        elasticity * rational_parts(usage - target, target) / (ACCURACY as int)
    } else if usage < target {
        elasticity * rational_parts(target - usage, target) / (ACCURACY as int)
    } else {
        0
    }
}

/// `fee` raised (or lowered) by `coef` millionths of itself, the product taken
/// whole; a raise stops at the 256-bit maximum, a cut at zero.
pub open spec fn adjusted_fee(fee: int, coef: int, raise: bool) -> int {
    let delta = fee * coef / (ACCURACY as int);
    if raise {
        if fee + delta <= u256_max() {
            fee + delta
        } else {
            u256_max()
        }
    } else if fee >= delta {
        fee - delta
    } else {
        0
    }
}

/// The fee after a block of `weight` out of `max_weight`.
pub open spec fn next_base_fee(
    fee: int,
    elasticity: int,
    weight: int,
    max_weight: int,
    t: Thresholds,
) -> int {
    let usage = usage_parts(weight, max_weight, t);
    let target = t.ideal.parts as int;
    let coef = adjustment_parts(usage, target, elasticity);
    if usage > target {
        adjusted_fee(fee, coef, true)
    } else if usage < target {
        adjusted_fee(fee, coef, false)
    } else {
        fee
    }
}

/// A block at or above full weight never lowers the fee and never lifts it past
/// the 256-bit maximum; below the maximum it strictly rises wherever its share
/// to add is at least one unit, and at the maximum it stays, so repeated full
/// blocks climb to the maximum and settle there.
pub proof fn lemma_full_block_fee_saturates(
    fee: U256,
    elasticity: Permill,
    weight: u64,
    max_weight: u64,
    t: Thresholds,
)
    requires
        elasticity.wf(),
        t.wf(),
        weight >= max_weight,
    ensures
        fee.value() <= next_base_fee(fee.value(), elasticity.parts as int, weight as int, max_weight as int, t),
        next_base_fee(fee.value(), elasticity.parts as int, weight as int, max_weight as int, t) <= u256_max(),
        fee.value() == u256_max() ==> next_base_fee(
            fee.value(),
            elasticity.parts as int,
            weight as int,
            max_weight as int,
            t,
        ) == u256_max(),
        ({
            let coef = adjustment_parts(ACCURACY as int, t.ideal.parts as int, elasticity.parts as int);
            fee.value() < u256_max() && fee.value() * coef >= ACCURACY as int ==> next_base_fee(
                fee.value(),
                elasticity.parts as int,
                weight as int,
                max_weight as int,
                t,
            ) > fee.value()
        }),
{
    fee.lemma_value_bounds();
    let f = fee.value();
    let target = t.ideal.parts as int;
    let e = elasticity.parts as int;
    assert(rational_parts(weight as int, max_weight as int) == ACCURACY as int);
    assert(usage_parts(weight as int, max_weight as int, t) == ACCURACY as int);
    let coef = adjustment_parts(ACCURACY as int, target, e);
    lemma_adjustment_nonneg(ACCURACY as int, target, e);
    assert(0 <= f * coef / (ACCURACY as int)) by (nonlinear_arith)
        requires
            0 <= f,
            0 <= coef,
    ;
    if f * coef >= ACCURACY as int {
        assert(f * coef / (ACCURACY as int) >= 1) by (nonlinear_arith)
            requires
                f * coef >= ACCURACY as int,
        ;
        assert(coef > 0) by (nonlinear_arith)
            requires
                f * coef >= ACCURACY as int,
                0 <= f,
        ;
        assert(target < ACCURACY as int);
    }
}

/// The fee after `n` consecutive full blocks.
pub open spec fn fee_after_full_blocks(fee: int, elasticity: int, t: Thresholds, n: nat) -> int
    decreases n,
{
    if n == 0 {
        fee
    } else {
        fee_after_full_blocks(next_base_fee(fee, elasticity, 1, 1, t), elasticity, t, (n - 1) as nat)
    }
}

/// Repeated full blocks reach a fee that a further full block leaves unchanged,
/// and that fee never passes the 256-bit maximum.
pub proof fn lemma_full_blocks_reach_fixed_point(fee: U256, elasticity: Permill, t: Thresholds)
    requires
        elasticity.wf(),
        t.wf(),
    ensures
        exists|n: nat|
            {
                let settled = #[trigger] fee_after_full_blocks(fee.value(), elasticity.parts as int, t, n);
                &&& next_base_fee(settled, elasticity.parts as int, 1, 1, t) == settled
                &&& fee.value() <= settled <= u256_max()
            },
{
    fee.lemma_value_bounds();
    lemma_settle_from(fee.value(), elasticity.parts as int, t);
}

proof fn lemma_settle_from(f: int, e: int, t: Thresholds)
    requires
        0 <= f <= u256_max(),
        0 <= e <= ACCURACY as int,
        t.wf(),
    ensures
        exists|n: nat|
            {
                let settled = #[trigger] fee_after_full_blocks(f, e, t, n);
                &&& next_base_fee(settled, e, 1, 1, t) == settled
                &&& f <= settled <= u256_max()
            },
    decreases u256_max() - f,
{
    lemma_full_block_step(f, e, t);
    let nx = next_base_fee(f, e, 1, 1, t);
    if nx == f {
        assert(fee_after_full_blocks(f, e, t, 0) == f);
    } else {
        lemma_settle_from(nx, e, t);
        let n = choose|n: nat|
            {
                let settled = #[trigger] fee_after_full_blocks(nx, e, t, n);
                &&& next_base_fee(settled, e, 1, 1, t) == settled
                &&& nx <= settled <= u256_max()
            };
        assert(fee_after_full_blocks(f, e, t, n + 1) == fee_after_full_blocks(nx, e, t, n));
    }
}

proof fn lemma_full_block_step(f: int, e: int, t: Thresholds)
    requires
        0 <= f <= u256_max(),
        0 <= e <= ACCURACY as int,
        t.wf(),
    ensures
        f <= next_base_fee(f, e, 1, 1, t) <= u256_max(),
{
    let target = t.ideal.parts as int;
    assert(rational_parts(1, 1) == ACCURACY as int);
    assert(usage_parts(1, 1, t) == ACCURACY as int);
    let coef = adjustment_parts(ACCURACY as int, target, e);
    lemma_adjustment_nonneg(ACCURACY as int, target, e);
    assert(0 <= f * coef / (ACCURACY as int)) by (nonlinear_arith)
        requires
            0 <= f,
            0 <= coef,
    ;
}

/// An empty block never raises the fee: it falls, or stays where its share to
/// shed rounds to nothing, and never drops below zero. Where the shed share is
/// at least one unit, the fee strictly falls.
pub proof fn lemma_empty_block_fee_never_rises(
    fee: U256,
    elasticity: Permill,
    max_weight: u64,
    t: Thresholds,
)
    requires
        elasticity.wf(),
        t.wf(),
        t.lower.parts < t.upper.parts,
        max_weight > 0,
    ensures
        0 <= next_base_fee(fee.value(), elasticity.parts as int, 0, max_weight as int, t) <= fee.value(),
        ({
            let coef = adjustment_parts(0, t.ideal.parts as int, elasticity.parts as int);
            fee.value() * coef >= ACCURACY as int ==> next_base_fee(fee.value(), elasticity.parts as int, 0, max_weight as int, t) < fee.value()
        }),
{
    fee.lemma_value_bounds();
    let f = fee.value();
    let target = t.ideal.parts as int;
    let e = elasticity.parts as int;
    assert(rational_parts(0, max_weight as int) == 0);
    assert(usage_parts(0, max_weight as int, t) == 0);
    let coef = adjustment_parts(0, target, e);
    lemma_adjustment_nonneg(0, target, e);
    assert(0 <= f * coef / (ACCURACY as int)) by (nonlinear_arith)
        requires
            0 <= f,
            0 <= coef,
    ;
    if f * coef >= ACCURACY as int {
        assert(f * coef / (ACCURACY as int) >= 1) by (nonlinear_arith)
            requires
                f * coef >= ACCURACY as int,
        ;
        assert(f > 0) by (nonlinear_arith)
            requires
                f * coef >= ACCURACY as int,
                0 <= f,
                0 <= coef,
        ;
        assert(0 < target);
    }
}

/// A block whose fullness is exactly the ideal leaves the fee unchanged, under
/// thresholds that span the whole range of fullness.
pub proof fn lemma_fee_unchanged_at_target(
    fee: U256,
    elasticity: Permill,
    weight: u64,
    max_weight: u64,
    t: Thresholds,
)
    requires
        elasticity.wf(),
        t.wf(),
        t.lower.parts == 0,
        t.upper.parts == ACCURACY,
        max_weight > 0,
        weight as int * (ACCURACY as int) == t.ideal.parts as int * max_weight as int,
    ensures
        next_base_fee(fee.value(), elasticity.parts as int, weight as int, max_weight as int, t)
            == fee.value(),
{
    let w = weight as int;
    let m = max_weight as int;
    let i = t.ideal.parts as int;
    let a = ACCURACY as int;
    assert(w < m ==> w * a / m == i) by (nonlinear_arith)
        requires
            w * a == i * m,
            m > 0,
    ;
    if w >= m {
        assert(m * a <= w * a) by (nonlinear_arith)
            requires
                w >= m,
                a > 0,
        ;
        assert(i < a ==> i * m < a * m) by (nonlinear_arith)
            requires
                m > 0,
        ;
    }
    assert(rational_parts(w, m) == i);
    vstd::arithmetic::div_mod::lemma_div_by_multiple(i, a);
    assert(usage_parts(w, m, t) == i);
}

proof fn lemma_adjustment_nonneg(usage: int, target: int, elasticity: int)
    requires
        0 <= elasticity,
        0 <= usage,
        0 <= target,
    ensures
        0 <= adjustment_parts(usage, target, elasticity),
{
    if usage > target {
        let r = rational_parts(usage - target, target);
        assert(0 <= r) by (nonlinear_arith)
            requires
                r == rational_parts(usage - target, target),
                usage > target,
        ;
        assert(0 <= elasticity * r / (ACCURACY as int)) by (nonlinear_arith)
            requires
                0 <= elasticity,
                0 <= r,
        ;
    } else if usage < target {
        let r = rational_parts(target - usage, target);
        assert(0 <= r) by (nonlinear_arith)
            requires
                r == rational_parts(target - usage, target),
                usage < target,
                0 <= usage,
        ;
        assert(0 <= elasticity * r / (ACCURACY as int)) by (nonlinear_arith)
            requires
                0 <= elasticity,
                0 <= r,
        ;
    }
}

/// Moves `fee` by `coef` millionths of itself, up where `raise` holds, else down.
fn adjust_fee(fee: U256, coef: Permill, raise: bool) -> (r: U256)
    requires
        coef.wf(),
    ensures
        r.value() == adjusted_fee(fee.value(), coef.parts as int, raise),
{
    let scaled = fee.full_mul(U256::from_u64(coef.parts as u64));
    let quotient = match scaled.checked_div(U512::from_u64(ACCURACY as u64)) {
        Some(q) => q,
        None => U512::from_u64(0),
    };
    proof {
        let f = fee.value();
        let c = coef.parts as int;
        fee.lemma_value_bounds();
        assert(f * c / (ACCURACY as int) <= f) by (nonlinear_arith)
            requires
                0 <= f,
                0 <= c <= ACCURACY as int,
        ;
        assert(0 <= f * c / (ACCURACY as int)) by (nonlinear_arith)
            requires
                0 <= f,
                0 <= c,
        ;
    }
    let delta = quotient.low_u256();
    if raise {
        fee.saturating_add(delta)
    } else {
        fee.saturating_sub(delta)
    }
}

/// The state of the fee controller: the fee per unit of gas, whether it follows
/// congestion, and how far it may move in one block.
#[derive(Clone, Copy, Debug)]
pub struct BaseFee {
    base_fee_per_gas: U256,
    is_active: bool,
    elasticity: Permill,
}

impl BaseFee {
    pub closed spec fn fee(self) -> U256 {
        self.base_fee_per_gas
    }

    pub closed spec fn active(self) -> bool {
        self.is_active
    }

    pub closed spec fn elasticity_spec(self) -> Permill {
        self.elasticity
    }

    pub open spec fn wf(self) -> bool {
        self.elasticity_spec().wf()
    }

    /// The state at genesis.
    pub fn new(base_fee_per_gas: U256, is_active: bool, elasticity: Permill) -> (r: BaseFee)
        requires
            elasticity.wf(),
        ensures
            r.wf(),
            r.fee() == base_fee_per_gas,
            r.active() == is_active,
            r.elasticity_spec() == elasticity,
    {
        BaseFee { base_fee_per_gas, is_active, elasticity }
    }

    pub fn base_fee_per_gas(&self) -> (r: U256)
        ensures
            r == self.fee(),
    {
        self.base_fee_per_gas
    }

    pub fn is_active(&self) -> (r: bool)
        ensures
            r == self.active(),
    {
        self.is_active
    }

    pub fn elasticity(&self) -> (r: Permill)
        ensures
            r == self.elasticity_spec(),
    {
        self.elasticity
    }

    /// Overwrites the fee.
    pub fn set_base_fee_per_gas(&mut self, fee: U256)
        ensures
            final(self).fee() == fee,
            final(self).active() == old(self).active(),
            final(self).elasticity_spec() == old(self).elasticity_spec(),
    {
        self.base_fee_per_gas = fee;
    }

    /// Turns the per-block adjustment on or off.
    pub fn set_is_active(&mut self, is_active: bool)
        ensures
            final(self).fee() == old(self).fee(),
            final(self).active() == is_active,
            final(self).elasticity_spec() == old(self).elasticity_spec(),
    {
        self.is_active = is_active;
    }

    /// Overwrites the elasticity.
    pub fn set_elasticity(&mut self, elasticity: Permill)
        requires
            elasticity.wf(),
        ensures
            final(self).wf(),
            final(self).fee() == old(self).fee(),
            final(self).active() == old(self).active(),
            final(self).elasticity_spec() == elasticity,
    {
        self.elasticity = elasticity;
    }

    /// Closes a block that consumed `weight` out of `max_weight`: where the
    /// controller is active, the fee moves toward the congestion seen.
    pub fn on_finalize(&mut self, weight: u64, max_weight: u64, threshold: &Thresholds)
        requires
            old(self).wf(),
            threshold.wf(),
        ensures
            final(self).wf(),
            final(self).active() == old(self).active(),
            final(self).elasticity_spec() == old(self).elasticity_spec(),
            final(self).fee().value() == if old(self).active() {
                next_base_fee(
                    old(self).fee().value(),
                    old(self).elasticity_spec().parts as int,
                    weight as int,
                    max_weight as int,
                    *threshold,
                )
            } else {
                old(self).fee().value()
            },
    {
        if self.is_active {
            let lower = threshold.lower;
            let upper = threshold.upper;
            let used = Permill::from_rational(weight, max_weight).clamp(lower, upper);
            let usage = Permill::from_rational(
                (used.parts - lower.parts) as u64,
                (upper.parts - lower.parts) as u64,
            );
            let target = threshold.ideal;
            if usage.parts > target.parts {
                let scale = Permill::from_rational(
                    (usage.parts - target.parts) as u64,
                    target.parts as u64,
                );
                let coef = self.elasticity.mul(scale);
                self.base_fee_per_gas = adjust_fee(self.base_fee_per_gas, coef, true);
            } else if usage.parts < target.parts {
                let scale = Permill::from_rational(
                    (target.parts - usage.parts) as u64,
                    target.parts as u64,
                );
                let coef = self.elasticity.mul(scale);
                self.base_fee_per_gas = adjust_fee(self.base_fee_per_gas, coef, false);
            }
        }
    }
}

} // verus!
