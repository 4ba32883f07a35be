use evm_core::{BaseFee, BaseFeeThreshold, Permill, U256};

const MAX_BLOCK_WEIGHT: u64 = 1_000_000_000_000;

fn u256(x: u128) -> U256 {
    U256::from_words(primitive_types::U256::from(x).0)
}

fn new_test_ext(base_fee: Option<U256>) -> BaseFee {
    match base_fee {
        Some(fee) => BaseFee::new(fee, true, Permill::from_parts(125_000)),
        None => BaseFee::new(u256(100_000_000_000), true, Permill::from_parts(125_000)),
    }
}

fn finalize(state: &mut BaseFee, weight: u64) {
    state.on_finalize(weight, MAX_BLOCK_WEIGHT, &BaseFeeThreshold::thresholds());
}

#[test]
fn should_default() {
    let state = new_test_ext(None);
    assert_eq!(state.base_fee_per_gas(), u256(100_000_000_000));
}

#[test]
fn should_not_overflow_u256() {
    let base_fee = U256::max_value();
    let mut state = new_test_ext(Some(base_fee));
    let init = state.base_fee_per_gas();
    finalize(&mut state, 1000000000000);
    assert_eq!(state.base_fee_per_gas(), init);
}

#[test]
fn should_handle_zero() {
    let base_fee = U256::zero();
    let mut state = new_test_ext(Some(base_fee));
    let init = state.base_fee_per_gas();
    finalize(&mut state, 0);
    assert_eq!(state.base_fee_per_gas(), init);
}

#[test]
fn should_handle_consecutive_empty_blocks() {
    let base_fee = u256(1_000_000_000);
    let mut state = new_test_ext(Some(base_fee));
    for _ in 0..10000 {
        finalize(&mut state, 0);
    }
    // 8 is the lowest number whose 12.5% is >= 1.
    assert_eq!(state.base_fee_per_gas(), u256(7));
}

#[test]
fn should_handle_consecutive_full_blocks() {
    let base_fee = u256(1_000_000_000);
    let mut state = new_test_ext(Some(base_fee));
    for _ in 0..10000 {
        finalize(&mut state, 1000000000000);
    }
    // The product is taken in double width and the raise saturates at the maximum.
    assert_eq!(state.base_fee_per_gas(), U256::max_value());
}

#[test]
fn should_increase_total_base_fee() {
    let base_fee = u256(1_000_000_000);
    let mut state = new_test_ext(Some(base_fee));
    assert_eq!(state.base_fee_per_gas(), u256(1000000000));
    finalize(&mut state, 1000000000000);
    // A full block raises the fee by 12.5%.
    assert_eq!(state.base_fee_per_gas(), u256(1125000000));
}

#[test]
fn should_increase_delta_of_base_fee() {
    let base_fee = u256(1_000_000_000);
    let mut state = new_test_ext(Some(base_fee));
    assert_eq!(state.base_fee_per_gas(), u256(1000000000));
    finalize(&mut state, 750000000000);
    // 75% full against a 50% target: ((75/50)-1) * 0.125 = 6.25%.
    assert_eq!(state.base_fee_per_gas(), u256(1062500000));
}

#[test]
fn should_idle_base_fee() {
    let base_fee = u256(1_000_000_000);
    let mut state = new_test_ext(Some(base_fee));
    assert_eq!(state.base_fee_per_gas(), u256(1000000000));
    finalize(&mut state, 500000000000);
    assert_eq!(state.base_fee_per_gas(), u256(1000000000));
}

#[test]
fn set_base_fee_per_gas_dispatchable() {
    let base_fee = u256(1_000_000_000);
    let mut state = new_test_ext(Some(base_fee));
    assert_eq!(state.base_fee_per_gas(), u256(1000000000));
    state.set_base_fee_per_gas(u256(1));
    assert_eq!(state.base_fee_per_gas(), u256(1));
}

#[test]
fn set_is_active_dispatchable() {
    let base_fee = u256(1_000_000_000);
    let mut state = new_test_ext(Some(base_fee));
    assert_eq!(state.is_active(), true);
    state.set_is_active(false);
    assert_eq!(state.is_active(), false);
}

#[test]
fn set_elasticity_dispatchable() {
    let base_fee = u256(1_000_000_000);
    let mut state = new_test_ext(Some(base_fee));
    assert_eq!(state.elasticity(), Permill::from_parts(125_000));
    state.set_elasticity(Permill::from_parts(1_000));
    assert_eq!(state.elasticity(), Permill::from_parts(1_000));
}

#[test]
fn inactive_controller_leaves_fee() {
    let mut state = BaseFee::new(u256(1_000_000_000), false, Permill::from_parts(125_000));
    finalize(&mut state, MAX_BLOCK_WEIGHT);
    assert_eq!(state.base_fee_per_gas(), u256(1_000_000_000));
    finalize(&mut state, 0);
    assert_eq!(state.base_fee_per_gas(), u256(1_000_000_000));
}

#[test]
fn empty_block_lowers_fee_by_elasticity() {
    let mut state = new_test_ext(Some(u256(1_000_000_000)));
    finalize(&mut state, 0);
    assert_eq!(state.base_fee_per_gas(), u256(875_000_000));
}

#[test]
fn quarter_full_block_lowers_fee_by_half_elasticity() {
    let mut state = new_test_ext(Some(u256(1_000_000_000)));
    finalize(&mut state, 250_000_000_000);
    assert_eq!(state.base_fee_per_gas(), u256(937_500_000));
}

#[test]
fn overfull_block_counts_as_full() {
    let mut state = new_test_ext(Some(u256(1_000_000_000)));
    finalize(&mut state, 3 * MAX_BLOCK_WEIGHT);
    assert_eq!(state.base_fee_per_gas(), u256(1_125_000_000));
}

#[test]
fn fee_whose_product_exceeds_256_bits_still_moves() {
    // fee * 125_000 does not fit in 256 bits, yet the fee rises and falls by an eighth.
    let max = primitive_types::U256::MAX;
    let fee = max / primitive_types::U256::from(2u64);
    let eighth = fee / primitive_types::U256::from(8u64);
    let mut state = new_test_ext(Some(U256::from_words(fee.0)));
    finalize(&mut state, 0);
    assert_eq!(state.base_fee_per_gas(), U256::from_words((fee - eighth).0));
    let mut state = new_test_ext(Some(U256::from_words(fee.0)));
    finalize(&mut state, MAX_BLOCK_WEIGHT);
    assert_eq!(state.base_fee_per_gas(), U256::from_words((fee + eighth).0));
}

#[test]
fn raise_near_maximum_saturates() {
    let max = primitive_types::U256::MAX;
    let fee = max - primitive_types::U256::from(5u64);
    let mut state = new_test_ext(Some(U256::from_words(fee.0)));
    finalize(&mut state, MAX_BLOCK_WEIGHT);
    assert_eq!(state.base_fee_per_gas(), U256::max_value());
}

#[test]
fn empty_block_at_maximum_falls() {
    let max = primitive_types::U256::MAX;
    let mut state = new_test_ext(Some(U256::max_value()));
    finalize(&mut state, 0);
    let expected = max - max / primitive_types::U256::from(8u64);
    assert_eq!(state.base_fee_per_gas(), U256::from_words(expected.0));
}

#[test]
fn narrower_thresholds_rescale_usage() {
    // Fullness is held within [25%, 75%] and rescaled: 75% full is full.
    let t = evm_core::Thresholds {
        lower: Permill::from_parts(250_000),
        ideal: Permill::from_parts(500_000),
        upper: Permill::from_parts(750_000),
    };
    let mut state = new_test_ext(Some(u256(1_000_000_000)));
    state.on_finalize(750_000_000_000, MAX_BLOCK_WEIGHT, &t);
    assert_eq!(state.base_fee_per_gas(), u256(1_125_000_000));
}

#[test]
fn permill_arithmetic() {
    assert_eq!(Permill::from_parts(2_000_000), Permill::one());
    assert_eq!(Permill::from_rational(1, 3).deconstruct(), 333_333);
    assert_eq!(Permill::from_rational(5, 0), Permill::one());
    assert_eq!(Permill::from_rational(7, 3), Permill::one());
    assert_eq!(Permill::from_parts(125_000).mul(Permill::from_parts(500_000)).deconstruct(), 62_500);
    assert_eq!(BaseFeeThreshold::ideal().deconstruct(), 500_000);
    assert_eq!(BaseFeeThreshold::lower(), Permill::zero());
    assert_eq!(BaseFeeThreshold::upper(), Permill::one());
}
