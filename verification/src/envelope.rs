//! The weight limit of one operating category: a piecewise-linear curve
//! over the arm, computed in whole grams, and what always holds of it.

use crate::arith::floor_div;
use vstd::prelude::*;

verus! {

/// One operating category of an envelope chart.
///
/// The limit rises (or falls) linearly from `mindless_weight` at
/// `front_limit` to `max_weight` at `stab`, and stays at `max_weight` up to
/// `back_limit`. Arms are in millimetres, weights in grams.
#[derive(Debug, Clone, Copy, PartialEq, Eq, Structural)]
pub struct BalanceCat {
    pub front_limit: i32,
    pub back_limit: i32,
    pub stab: i32,
    pub mindless_weight: u32,
    pub max_weight: u32,
}

/// The whole part of `delta * along / run`, rounded towards minus infinity.
pub open spec fn scaled(delta: int, along: int, run: int) -> int {
    (delta * along) / run
}

impl BalanceCat {
    /// A category as certified data gives it: the sloped part does not start
    /// after its end, the flat part does not end before it starts, and the
    /// limit does not fall towards the back.
    pub open spec fn well_formed(&self) -> bool {
        &&& self.front_limit <= self.stab <= self.back_limit
        &&& self.mindless_weight <= self.max_weight
    }

    /// The heaviest loading, in grams, that the category permits at `arm`.
    ///
    /// Outside `front_limit..=back_limit` nothing is permitted. Where the
    /// sloped part has no length (`stab == front_limit`) the limit is
    /// `max_weight` from `front_limit` on.
    pub open spec fn spec_max_allowed_weight(&self, arm: int) -> int {
        if arm < self.front_limit || arm > self.back_limit {
            0
        } else if arm <= self.stab && self.front_limit < self.stab {
            self.mindless_weight + scaled(
                self.max_weight - self.mindless_weight,
                arm - self.front_limit,
                self.stab - self.front_limit,
            )
        } else {
            self.max_weight as int
        }
    }

    /// Whether a loading of `weight` grams at `arm` lies within the category.
    pub open spec fn permits(&self, weight: int, arm: int) -> bool {
        weight <= self.spec_max_allowed_weight(arm)
    }

    /// The category with every limit at zero.
    pub open spec fn spec_new() -> BalanceCat {
        BalanceCat { front_limit: 0, back_limit: 0, stab: 0, mindless_weight: 0, max_weight: 0 }
    }

    /// Tells whether the category is as certified data gives it.
    pub fn is_well_formed(&self) -> (well_formed: bool)
        ensures
            well_formed == self.well_formed(),
    {
        self.front_limit <= self.stab && self.stab <= self.back_limit && self.mindless_weight
            <= self.max_weight
    }

    /// The category with every limit at zero, which permits no loading that
    /// weighs anything.
    #[verifier::when_used_as_spec(spec_new)]
    pub fn new() -> (cat: BalanceCat)
        ensures
            cat == Self::spec_new(),
            cat.well_formed(),
            forall|weight: int, arm: int| weight > 0 ==> !cat.permits(weight, arm),
    {
        BalanceCat { front_limit: 0, back_limit: 0, stab: 0, mindless_weight: 0, max_weight: 0 }
    }
}

/// A part of the way along a run never scales a difference past itself, nor
/// past zero.
pub proof fn lemma_scaled_bounds(delta: int, along: int, run: int)
    requires
        0 <= along <= run,
        0 < run,
    ensures
        delta >= 0 ==> 0 <= scaled(delta, along, run) <= delta,
        delta <= 0 ==> delta <= scaled(delta, along, run) <= 0,
        along == 0 ==> scaled(delta, along, run) == 0,
        along == run ==> scaled(delta, along, run) == delta,
{
    let q = scaled(delta, along, run);
    let n = delta * along;
    assert(n == run * q + n % run && 0 <= n % run < run) by {
        vstd::arithmetic::div_mod::lemma_fundamental_div_mod(n, run);
        vstd::arithmetic::div_mod::lemma_mod_bound(n, run);
    }
    assert(delta >= 0 ==> 0 <= n <= delta * run) by (nonlinear_arith)
        requires
            n == delta * along,
            0 <= along <= run,
    ;
    assert(delta <= 0 ==> delta * run <= n <= 0) by (nonlinear_arith)
        requires
            n == delta * along,
            0 <= along <= run,
    ;
    assert(along == 0 ==> n == 0) by (nonlinear_arith)
        requires
            n == delta * along,
    ;
    assert(along == run ==> n == delta * run) by (nonlinear_arith)
        requires
            n == delta * along,
    ;
    let rem = n % run;
    assert(delta >= 0 ==> 0 <= q <= delta) by (nonlinear_arith)
        requires
            n == run * q + rem,
            0 <= rem < run,
            delta >= 0 ==> 0 <= n <= delta * run,
    ;
    assert(delta <= 0 ==> delta <= q <= 0) by (nonlinear_arith)
        requires
            n == run * q + rem,
            0 <= rem < run,
            delta <= 0 ==> delta * run <= n <= 0,
    ;
    assert(along == run ==> q == delta) by (nonlinear_arith)
        requires
            n == run * q + rem,
            0 <= rem < run,
            along == run ==> n == delta * run,
    ;
}

/// The whole part of `delta * along / run`, rounded towards minus infinity.
fn scale(delta: i64, along: i64, run: i64) -> (q: i64)
    requires
        -0x1_0000_0000 < delta < 0x1_0000_0000,
        0 <= along <= run,
        0 < run < 0x1_0000_0000,
    ensures
        q == scaled(delta as int, along as int, run as int),
{
    proof {
        lemma_scaled_bounds(delta as int, along as int, run as int);
    }
    assert(-0x1_0000_0000_0000_0000 < delta * along < 0x1_0000_0000_0000_0000) by (nonlinear_arith)
        requires
            -0x1_0000_0000 < delta < 0x1_0000_0000,
            0 <= along < 0x1_0000_0000,
    ;
    let product: i128 = (delta as i128) * (along as i128);
    let quotient: i128 = floor_div(product, run as i128);
    quotient as i64
}

/// The heaviest loading, in grams, that `balance` permits at `arm`
/// millimetres from the datum: nothing outside the certified arm range, the
/// line from `mindless_weight` to `max_weight` between `front_limit` and
/// `stab`, rounded down to a whole gram, and `max_weight` behind `stab`.
pub fn max_allowed_weight(balance: BalanceCat, arm: i32) -> (weight: u32)
    ensures
        weight == balance.spec_max_allowed_weight(arm as int),
{
    if arm < balance.front_limit || arm > balance.back_limit {
        return 0;
    }
    if arm <= balance.stab && balance.front_limit < balance.stab {
        let delta: i64 = balance.max_weight as i64 - balance.mindless_weight as i64;
        let along: i64 = arm as i64 - balance.front_limit as i64;
        let run: i64 = balance.stab as i64 - balance.front_limit as i64;
        proof {
            lemma_scaled_bounds(delta as int, along as int, run as int);
        }
        let step: i64 = scale(delta, along, run);
        let limit: i64 = balance.mindless_weight as i64 + step;
        limit as u32
    } else {
        balance.max_weight
    }
}

/// No weight is permitted ahead of the front limit or behind the back limit.
pub proof fn lemma_nothing_outside_arm_range(cat: BalanceCat, arm: int)
    requires
        arm < cat.front_limit || arm > cat.back_limit,
    ensures
        cat.spec_max_allowed_weight(arm) == 0,
{
}

/// The limit never leaves the span between the two certified weights, so it
/// is a weight in grams that fits the type of the certified ones.
pub proof fn lemma_limit_between_certified_weights(cat: BalanceCat, arm: int)
    ensures
        0 <= cat.spec_max_allowed_weight(arm) <= u32::MAX,
        cat.front_limit <= arm <= cat.back_limit && cat.mindless_weight <= cat.max_weight
            ==> cat.mindless_weight <= cat.spec_max_allowed_weight(arm) <= cat.max_weight,
        cat.front_limit <= arm <= cat.back_limit && cat.mindless_weight >= cat.max_weight
            ==> cat.max_weight <= cat.spec_max_allowed_weight(arm) <= cat.mindless_weight,
{
    if cat.front_limit <= arm <= cat.back_limit && arm <= cat.stab && cat.front_limit < cat.stab {
        lemma_scaled_bounds(
            cat.max_weight - cat.mindless_weight,
            arm - cat.front_limit,
            cat.stab - cat.front_limit,
        );
    }
}

/// The curve meets its ceiling where the slope ends and keeps it to the back
/// limit: at `stab` and at `back_limit` the limit is `max_weight`.
pub proof fn lemma_ceiling_at_stab_and_back_limit(cat: BalanceCat)
    requires
        cat.well_formed(),
    ensures
        cat.spec_max_allowed_weight(cat.stab as int) == cat.max_weight,
        cat.spec_max_allowed_weight(cat.back_limit as int) == cat.max_weight,
{
    if cat.front_limit < cat.stab {
        lemma_scaled_bounds(
            cat.max_weight - cat.mindless_weight,
            cat.stab - cat.front_limit,
            cat.stab - cat.front_limit,
        );
    }
}

/// The curve starts at its floor: at `front_limit` the limit is
/// `mindless_weight`, wherever the sloped part has a length or the two
/// certified weights agree.
pub proof fn lemma_floor_at_front_limit(cat: BalanceCat)
    requires
        cat.well_formed(),
        cat.front_limit < cat.stab || cat.mindless_weight == cat.max_weight,
    ensures
        cat.spec_max_allowed_weight(cat.front_limit as int) == cat.mindless_weight,
{
    if cat.front_limit < cat.stab {
        lemma_scaled_bounds(
            cat.max_weight - cat.mindless_weight,
            0,
            cat.stab - cat.front_limit,
        );
    }
}

/// Scaling a difference that is not negative grows with the part of the run.
pub proof fn lemma_scaled_monotonic(delta: int, along1: int, along2: int, run: int)
    requires
        0 <= delta,
        along1 <= along2,
        0 < run,
    ensures
        scaled(delta, along1, run) <= scaled(delta, along2, run),
{
    assert(delta * along1 <= delta * along2) by (nonlinear_arith)
        requires
            0 <= delta,
            along1 <= along2,
    ;
    vstd::arithmetic::div_mod::lemma_div_is_ordered(delta * along1, delta * along2, run);
}

/// Where the ceiling is not below the floor, the limit does not fall as the
/// arm moves back along the slope.
pub proof fn lemma_slope_monotonic(cat: BalanceCat, arm1: int, arm2: int)
    requires
        cat.well_formed(),
        cat.front_limit <= arm1 < arm2 <= cat.stab,
        cat.max_weight >= cat.mindless_weight,
    ensures
        cat.spec_max_allowed_weight(arm1) <= cat.spec_max_allowed_weight(arm2),
{
    lemma_scaled_monotonic(
        cat.max_weight - cat.mindless_weight,
        arm1 - cat.front_limit,
        arm2 - cat.front_limit,
        cat.stab - cat.front_limit,
    );
}

/// In a well-formed category the limit does not fall anywhere between the
/// front and the back limit.
pub proof fn lemma_limit_monotonic(cat: BalanceCat, arm1: int, arm2: int)
    requires
        cat.well_formed(),
        cat.front_limit <= arm1 <= arm2 <= cat.back_limit,
    ensures
        cat.spec_max_allowed_weight(arm1) <= cat.spec_max_allowed_weight(arm2),
{
    lemma_limit_between_certified_weights(cat, arm1);
    if arm2 <= cat.stab && cat.front_limit < cat.stab {
        lemma_scaled_monotonic(
            cat.max_weight - cat.mindless_weight,
            arm1 - cat.front_limit,
            arm2 - cat.front_limit,
            cat.stab - cat.front_limit,
        );
    }
}

/// Rounding the limit down to a whole gram loses nothing: on the slope a
/// whole weight is within the rounded limit exactly when it is on or under
/// the line itself, compared without any division.
pub proof fn lemma_slope_exact(cat: BalanceCat, weight: int, arm: int)
    requires
        cat.front_limit <= arm <= cat.stab,
        arm <= cat.back_limit,
        cat.front_limit < cat.stab,
    ensures
        cat.permits(weight, arm) <==> (weight - cat.mindless_weight) * (cat.stab - cat.front_limit)
            <= (cat.max_weight - cat.mindless_weight) * (arm - cat.front_limit),
{
    let run = cat.stab - cat.front_limit;
    let n = (cat.max_weight - cat.mindless_weight) * (arm - cat.front_limit);
    let q = n / run;
    let rem = n % run;
    let excess = weight - cat.mindless_weight;
    vstd::arithmetic::div_mod::lemma_fundamental_div_mod(n, run);
    vstd::arithmetic::div_mod::lemma_mod_bound(n, run);
    assert(excess <= q <==> excess * run <= n) by (nonlinear_arith)
        requires
            n == run * q + rem,
            0 <= rem < run,
    ;
}

impl BalanceCat {
    /// Whether the category permits a loading of `weight` grams whose moment
    /// is `moment` gram millimetres. The limit is taken at the centre of
    /// gravity itself, `moment / weight`, which need not be a whole
    /// millimetre: every comparison is between products, none rounds.
    ///
    /// A centre of gravity ahead of the front limit or behind the back limit
    /// permits nothing, however little it is ahead or behind. A loading
    /// without weight has no centre of gravity and is not permitted.
    pub open spec fn spec_permits_loading(&self, weight: int, moment: int) -> bool {
        &&& weight > 0
        &&& self.front_limit * weight <= moment <= self.back_limit * weight
        &&& if moment <= self.stab * weight && self.front_limit < self.stab {
            (weight - self.mindless_weight) * (self.stab - self.front_limit) * weight <= (
            self.max_weight - self.mindless_weight) * (moment - self.front_limit * weight)
        } else {
            weight <= self.max_weight
        }
    }

    /// Tells whether the category permits a loading of `weight` grams whose
    /// moment is `moment` gram millimetres, at its exact centre of gravity.
    pub fn permits_loading(&self, weight: u128, moment: i128) -> (permitted: bool)
        ensures
            permitted == self.spec_permits_loading(weight as int, moment as int),
    {
        if weight == 0 {
            return false;
        }
        if weight > 0xffff_ffff {
            proof {
                lemma_too_heavy_for_any_limit(*self, weight as int, moment as int);
            }
            return false;
        }
        let w: i128 = weight as i128;
        let front: i128 = self.front_limit as i128;
        let back: i128 = self.back_limit as i128;
        let stab: i128 = self.stab as i128;
        assert(-0x8000_0000_0000_0000 < front * w < 0x8000_0000_0000_0000
            && -0x8000_0000_0000_0000 < back * w < 0x8000_0000_0000_0000
            && -0x8000_0000_0000_0000 < stab * w < 0x8000_0000_0000_0000) by (nonlinear_arith)
            requires
                0 < w <= 0xffff_ffff,
                -0x8000_0000 <= front <= 0x7fff_ffff,
                -0x8000_0000 <= back <= 0x7fff_ffff,
                -0x8000_0000 <= stab <= 0x7fff_ffff,
        ;
        if moment < front * w || moment > back * w {
            return false;
        }
        if moment <= stab * w && self.front_limit < self.stab {
            let run: i128 = stab - front;
            let over: i128 = w - self.mindless_weight as i128;
            let delta: i128 = self.max_weight as i128 - self.mindless_weight as i128;
            let along: i128 = moment - front * w;
            assert(0 <= along <= run * w && run * w < 0x1_0000_0000_0000_0000) by (nonlinear_arith)
                requires
                    along == moment - front * w,
                    front * w <= moment <= stab * w,
                    run == stab - front,
                    0 < run <= 0xffff_ffff,
                    0 < w <= 0xffff_ffff,
            ;
            assert(-0x1_0000_0000_0000_0000 < over * run < 0x1_0000_0000_0000_0000)
                by (nonlinear_arith)
                requires
                    -0x1_0000_0000 < over < 0x1_0000_0000,
                    0 < run <= 0xffff_ffff,
            ;
            assert(-0x1_0000_0000_0000_0000_0000_0000 < (over * run) * w
                < 0x1_0000_0000_0000_0000_0000_0000) by (nonlinear_arith)
                requires
                    -0x1_0000_0000_0000_0000 < over * run < 0x1_0000_0000_0000_0000,
                    0 < w <= 0xffff_ffff,
            ;
            assert(-0x1_0000_0000_0000_0000_0000_0000 < delta * along
                < 0x1_0000_0000_0000_0000_0000_0000) by (nonlinear_arith)
                requires
                    -0x1_0000_0000 < delta < 0x1_0000_0000,
                    0 <= along < 0x1_0000_0000_0000_0000,
            ;
            over * run * w <= delta * along
        } else {
            weight <= self.max_weight as u128
        }
    }
}

/// A loading heavier than any weight a category can name is permitted at no
/// centre of gravity.
pub proof fn lemma_too_heavy_for_any_limit(cat: BalanceCat, weight: int, moment: int)
    requires
        weight > cat.max_weight,
        weight > cat.mindless_weight,
    ensures
        !cat.spec_permits_loading(weight, moment),
{
    if cat.front_limit * weight <= moment <= cat.back_limit * weight && moment <= cat.stab
        * weight && cat.front_limit < cat.stab {
        let run = cat.stab - cat.front_limit;
        let over = weight - cat.mindless_weight;
        let delta = cat.max_weight - cat.mindless_weight;
        let along = moment - cat.front_limit * weight;
        assert(0 <= along <= run * weight) by (nonlinear_arith)
            requires
                along == moment - cat.front_limit * weight,
                cat.front_limit * weight <= moment <= cat.stab * weight,
                run == cat.stab - cat.front_limit,
        ;
        assert(over * run * weight > delta * along) by (nonlinear_arith)
            requires
                over > delta,
                over > 0,
                0 <= along <= run * weight,
                0 < run,
                0 < weight,
        ;
    }
}

/// Where the centre of gravity is a whole millimetre, the exact comparison
/// and the one against the rounded limit agree: a loading of `weight` at the
/// whole arm `arm` is permitted by moment exactly when it is permitted at
/// that arm.
pub proof fn lemma_permits_loading_at_whole_arm(cat: BalanceCat, weight: int, arm: int)
    requires
        weight > 0,
    ensures
        cat.spec_permits_loading(weight, arm * weight) <==> cat.permits(weight, arm),
{
    let moment = arm * weight;
    assert((cat.front_limit * weight <= moment <==> cat.front_limit <= arm) && (moment
        <= cat.back_limit * weight <==> arm <= cat.back_limit) && (moment <= cat.stab * weight
        <==> arm <= cat.stab)) by (nonlinear_arith)
        requires
            moment == arm * weight,
            weight > 0,
    ;
    if cat.front_limit <= arm <= cat.back_limit && arm <= cat.stab && cat.front_limit
        < cat.stab {
        let run = cat.stab - cat.front_limit;
        let over = weight - cat.mindless_weight;
        let delta = cat.max_weight - cat.mindless_weight;
        let along = arm - cat.front_limit;
        lemma_slope_exact(cat, weight, arm);
        assert(moment - cat.front_limit * weight == along * weight) by (nonlinear_arith)
            requires
                moment == arm * weight,
                along == arm - cat.front_limit,
        ;
        assert(over * run * weight <= delta * (along * weight) <==> over * run <= delta * along)
            by (nonlinear_arith)
            requires
                weight > 0,
        ;
    }
}

} // verus!
