use navigation::envelope::{max_allowed_weight, BalanceCat};

fn sample_category() -> BalanceCat {
    BalanceCat {
        front_limit: 205,
        back_limit: 564,
        stab: 428,
        mindless_weight: 750_000,
        max_weight: 900_000,
    }
}

#[test]
fn limit_at_the_breakpoints() {
    let cat = sample_category();
    assert_eq!(max_allowed_weight(cat, 205), 750_000);
    assert_eq!(max_allowed_weight(cat, 428), 900_000);
    assert_eq!(max_allowed_weight(cat, 564), 900_000);
}

#[test]
fn limit_on_the_slope_is_rounded_down() {
    let cat = sample_category();
    // 750 kg + 150 kg * 95 / 223 = 813.9013... kg
    assert_eq!(max_allowed_weight(cat, 300), 813_901);
    // 750 kg + 150 kg * 1 / 223 = 750.6726... kg
    assert_eq!(max_allowed_weight(cat, 206), 750_672);
    // one millimetre ahead of the stab: 900 kg - 150 kg / 223 = 899.3273... kg
    assert_eq!(max_allowed_weight(cat, 427), 899_327);
}

#[test]
fn limit_behind_the_stab_is_flat() {
    let cat = sample_category();
    assert_eq!(max_allowed_weight(cat, 429), 900_000);
    assert_eq!(max_allowed_weight(cat, 500), 900_000);
}

#[test]
fn nothing_is_allowed_outside_the_arm_range() {
    let cat = sample_category();
    assert_eq!(max_allowed_weight(cat, 600), 0);
    assert_eq!(max_allowed_weight(cat, 204), 0);
    assert_eq!(max_allowed_weight(cat, 565), 0);
    assert_eq!(max_allowed_weight(cat, i32::MIN), 0);
    assert_eq!(max_allowed_weight(cat, i32::MAX), 0);
}

#[test]
fn limit_does_not_fall_along_the_slope() {
    let cat = sample_category();
    let mut previous = max_allowed_weight(cat, cat.front_limit);
    for arm in (cat.front_limit + 1)..=cat.back_limit {
        let limit = max_allowed_weight(cat, arm);
        assert!(previous <= limit, "limit falls at arm {}", arm);
        previous = limit;
    }
}

#[test]
fn slope_without_length_is_at_the_ceiling() {
    let cat = BalanceCat {
        front_limit: 300,
        back_limit: 400,
        stab: 300,
        mindless_weight: 100,
        max_weight: 200,
    };
    assert_eq!(max_allowed_weight(cat, 300), 200);
    assert_eq!(max_allowed_weight(cat, 400), 200);
    assert_eq!(max_allowed_weight(cat, 299), 0);
}

#[test]
fn zero_category_allows_nothing_anywhere() {
    let cat = BalanceCat::new();
    assert_eq!(cat.front_limit, 0);
    assert_eq!(cat.back_limit, 0);
    assert_eq!(cat.stab, 0);
    assert_eq!(cat.mindless_weight, 0);
    assert_eq!(cat.max_weight, 0);
    assert_eq!(max_allowed_weight(cat, 0), 0);
    assert_eq!(max_allowed_weight(cat, 1), 0);
    assert_eq!(max_allowed_weight(cat, -1), 0);
}

#[test]
fn falling_slope_is_rounded_down_too() {
    let cat = BalanceCat {
        front_limit: 0,
        back_limit: 10,
        stab: 3,
        mindless_weight: 10,
        max_weight: 0,
    };
    assert_eq!(max_allowed_weight(cat, 0), 10);
    // 10 - 10 / 3 = 6.66...
    assert_eq!(max_allowed_weight(cat, 1), 6);
    // 10 - 20 / 3 = 3.33...
    assert_eq!(max_allowed_weight(cat, 2), 3);
    assert_eq!(max_allowed_weight(cat, 3), 0);
}

#[test]
fn stab_behind_the_back_limit_keeps_the_slope_to_the_end() {
    let cat = BalanceCat {
        front_limit: 0,
        back_limit: 5,
        stab: 10,
        mindless_weight: 0,
        max_weight: 100,
    };
    assert_eq!(max_allowed_weight(cat, 5), 50);
    assert_eq!(max_allowed_weight(cat, 6), 0);
}

#[test]
fn widest_category_does_not_overflow() {
    let cat = BalanceCat {
        front_limit: i32::MIN,
        back_limit: i32::MAX,
        stab: i32::MAX,
        mindless_weight: 0,
        max_weight: u32::MAX,
    };
    assert_eq!(max_allowed_weight(cat, i32::MIN), 0);
    assert_eq!(max_allowed_weight(cat, i32::MAX), u32::MAX);
    // half way, rounded down
    assert_eq!(max_allowed_weight(cat, -1), 2_147_483_647);
}

#[test]
fn well_formed_categories_are_told_from_others() {
    assert!(sample_category().is_well_formed());
    assert!(BalanceCat::new().is_well_formed());
    let mut stab_ahead = sample_category();
    stab_ahead.stab = 204;
    assert!(!stab_ahead.is_well_formed());
    let mut stab_behind = sample_category();
    stab_behind.stab = 565;
    assert!(!stab_behind.is_well_formed());
    let mut falling = sample_category();
    falling.mindless_weight = 900_001;
    assert!(!falling.is_well_formed());
    let mut flat = sample_category();
    flat.mindless_weight = 900_000;
    flat.stab = 205;
    assert!(flat.is_well_formed());
}

#[test]
fn loading_is_permitted_at_its_exact_centre_of_gravity() {
    let cat = sample_category();
    // 800 kg at 564 mm, on the back limit
    assert!(cat.permits_loading(800_000, 800_000 * 564));
    // the same weight with its centre of gravity at 564.5 mm, behind it
    assert!(!cat.permits_loading(800_000, 400_000 * 564 + 400_000 * 565));
    // one gram millimetre behind the back limit
    assert!(!cat.permits_loading(800_000, 800_000 * 564 + 1));
    // on the front limit, and a hair ahead of it
    assert!(cat.permits_loading(750_000, 750_000 * 205));
    assert!(!cat.permits_loading(750_000, 750_000 * 205 - 1));
}

#[test]
fn loading_on_the_slope_is_compared_without_rounding() {
    let cat = sample_category();
    // at 300 mm the line stands at 813901.345... g
    assert!(cat.permits_loading(813_901, 813_901 * 300));
    assert!(!cat.permits_loading(813_902, 813_902 * 300));
    // at 300.5 mm the line stands at 814237.668... g
    assert!(cat.permits_loading(814_237, 814_237 * 300 + 814_237 / 2));
    assert!(!cat.permits_loading(814_238, 814_238 * 300 + 814_238 / 2));
    // at the stab the slope reaches the ceiling
    assert!(cat.permits_loading(900_000, 900_000 * 428));
    assert!(!cat.permits_loading(900_001, 900_001 * 428));
}

#[test]
fn loading_by_moment_agrees_with_the_limit_at_whole_arms() {
    let cat = sample_category();
    for arm in 200..=570 {
        let limit = max_allowed_weight(cat, arm) as u128;
        for weight in [1, limit.saturating_sub(1).max(1), limit.max(1), limit + 1] {
            assert_eq!(
                cat.permits_loading(weight, weight as i128 * arm as i128),
                weight <= limit,
                "weight {} at arm {}",
                weight,
                arm
            );
        }
    }
}

#[test]
fn loading_without_weight_or_beyond_any_weight_is_not_permitted() {
    let cat = sample_category();
    assert!(!cat.permits_loading(0, 0));
    assert!(!cat.permits_loading(u128::MAX, i128::MAX));
    assert!(!cat.permits_loading(u32::MAX as u128 + 1, (u32::MAX as i128 + 1) * 430));
    assert!(!cat.permits_loading(1, i128::MIN));
    let widest = BalanceCat {
        front_limit: i32::MIN,
        back_limit: i32::MAX,
        stab: i32::MAX,
        mindless_weight: 0,
        max_weight: u32::MAX,
    };
    assert!(widest.permits_loading(u32::MAX as u128, u32::MAX as i128 * i32::MAX as i128));
    assert!(!widest.permits_loading(u32::MAX as u128, u32::MAX as i128 * i32::MAX as i128 - 1));
    assert!(widest.permits_loading(1, i32::MIN as i128 + 1));
    assert!(!widest.permits_loading(1, i32::MIN as i128));
}
