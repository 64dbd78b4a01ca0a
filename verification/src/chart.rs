//! The envelope chart of one aircraft: its three operating categories, the
//! classification of a loading against them, and the sampling of a curve.

use crate::envelope::{max_allowed_weight, BalanceCat};
use crate::error::ParseError;
use crate::record::{is_arm, is_amount, read_arm, read_amount};
use vstd::prelude::*;

verus! {

/// The operating categories, from the least to the most restrictive.
#[derive(Debug, Clone, Copy, PartialEq, Eq, Structural)]
pub enum Category {
    Normal,
    Utility,
    Acrobatic,
}

/// Where a loading stands against a chart.
#[derive(Debug, Clone, Copy, PartialEq, Eq, Structural)]
pub enum Classification {
    /// The most restrictive category that still permits the loading.
    Within(Category),
    /// No category permits the loading.
    OutsideAllEnvelopes,
}

/// The three certified categories of one aircraft.
#[allow(non_snake_case)]
#[derive(Debug, Clone, Copy, PartialEq, Eq, Structural)]
pub struct BalanceChart {
    /// Normal operation.
    pub catN: BalanceCat,
    /// Utility operation.
    pub catU: BalanceCat,
    /// Acrobatic operation.
    pub catA: BalanceCat,
}

impl BalanceChart {
    /// The curve of one category.
    pub open spec fn spec_category(&self, category: Category) -> BalanceCat {
        match category {
            Category::Normal => self.catN,
            Category::Utility => self.catU,
            Category::Acrobatic => self.catA,
        }
    }

    /// The first category that permits the loading, asked from the most
    /// restrictive to the least.
    pub open spec fn spec_classify(&self, weight: int, arm: int) -> Classification {
        if self.catA.permits(weight, arm) {
            Classification::Within(Category::Acrobatic)
        } else if self.catU.permits(weight, arm) {
            Classification::Within(Category::Utility)
        } else if self.catN.permits(weight, arm) {
            Classification::Within(Category::Normal)
        } else {
            Classification::OutsideAllEnvelopes
        }
    }

    /// The chart whose categories all have every limit at zero.
    pub fn new() -> (chart: BalanceChart)
        ensures
            chart.catN == BalanceCat::new(),
            chart.catU == BalanceCat::new(),
            chart.catA == BalanceCat::new(),
    {
        BalanceChart { catN: BalanceCat::new(), catU: BalanceCat::new(), catA: BalanceCat::new() }
    }

    /// The curve of one category.
    pub fn category(&self, category: Category) -> (cat: BalanceCat)
        ensures
            cat == self.spec_category(category),
    {
        match category {
            Category::Normal => self.catN,
            Category::Utility => self.catU,
            Category::Acrobatic => self.catA,
        }
    }

    /// Classifies a loading of `weight` grams with its centre of gravity at
    /// `arm` millimetres: the most restrictive category whose limit at `arm`
    /// is not below `weight`, or `OutsideAllEnvelopes` when none is. Every
    /// loading gets exactly one of the four answers.
    pub fn classify(&self, weight: u128, arm: i32) -> (class: Classification)
        ensures
            class == self.spec_classify(weight as int, arm as int),
            class == Classification::Within(Category::Acrobatic) <==> self.catA.permits(
                weight as int,
                arm as int,
            ),
            class == Classification::Within(Category::Utility) <==> !self.catA.permits(
                weight as int,
                arm as int,
            ) && self.catU.permits(weight as int, arm as int),
            class == Classification::Within(Category::Normal) <==> !self.catA.permits(
                weight as int,
                arm as int,
            ) && !self.catU.permits(weight as int, arm as int) && self.catN.permits(
                weight as int,
                arm as int,
            ),
            class == Classification::OutsideAllEnvelopes <==> !self.catA.permits(
                weight as int,
                arm as int,
            ) && !self.catU.permits(weight as int, arm as int) && !self.catN.permits(
                weight as int,
                arm as int,
            ),
    {
        if weight <= max_allowed_weight(self.catA, arm) as u128 {
            Classification::Within(Category::Acrobatic)
        } else if weight <= max_allowed_weight(self.catU, arm) as u128 {
            Classification::Within(Category::Utility)
        } else if weight <= max_allowed_weight(self.catN, arm) as u128 {
            Classification::Within(Category::Normal)
        } else {
            Classification::OutsideAllEnvelopes
        }
    }
}

/// How many arms lie on `first_arm`, `first_arm + arm_step`, ... up to
/// `last_arm`: none for an empty range or a step of zero.
pub open spec fn sample_count(arm_step: int, first_arm: int, last_arm: int) -> int {
    if arm_step <= 0 || first_arm > last_arm {
        0
    } else {
        (last_arm - first_arm) / arm_step + 1
    }
}

/// The arm of the sample at `index`.
pub open spec fn sample_arm(arm_step: int, first_arm: int, index: int) -> int {
    first_arm + index * arm_step
}

/// Every sample of a range lies in the range.
pub proof fn lemma_sample_arm_in_range(arm_step: int, first_arm: int, last_arm: int, index: int)
    requires
        0 <= index < sample_count(arm_step, first_arm, last_arm),
    ensures
        first_arm <= sample_arm(arm_step, first_arm, index) <= last_arm,
{
    let span = last_arm - first_arm;
    vstd::arithmetic::div_mod::lemma_fundamental_div_mod(span, arm_step);
    vstd::arithmetic::div_mod::lemma_mod_bound(span, arm_step);
    let q = span / arm_step;
    let rem = span % arm_step;
    assert(0 <= index * arm_step <= span) by (nonlinear_arith)
        requires
            0 <= index <= q,
            0 < arm_step,
            span == arm_step * q + rem,
            0 <= rem,
    ;
}

/// The curve of a category over a range of arms, as a sequence of points
/// `(arm, limit)`: one at `first_arm` and one every `arm_step` behind it, as
/// long as the arm is not behind `last_arm`.
pub open spec fn sampled(cat: BalanceCat, arm_step: int, first_arm: int, last_arm: int) -> Seq<
    (i32, u32),
> {
    Seq::new(
        sample_count(arm_step, first_arm, last_arm) as nat,
        |i: int|
            (
                sample_arm(arm_step, first_arm, i) as i32,
                cat.spec_max_allowed_weight(sample_arm(arm_step, first_arm, i)) as u32,
            ),
    )
}

/// Taking the first point off a curve leaves the curve that starts one
/// step further back.
pub proof fn lemma_sampled_rest(cat: BalanceCat, arm_step: int, first_arm: int, last_arm: int)
    requires
        0 < arm_step,
        first_arm <= last_arm,
    ensures
        sampled(cat, arm_step, first_arm, last_arm).len() > 0,
        sampled(cat, arm_step, first_arm, last_arm)[0] == (
            first_arm as i32,
            cat.spec_max_allowed_weight(first_arm) as u32,
        ),
        sampled(cat, arm_step, first_arm, last_arm).drop_first() == sampled(
            cat,
            arm_step,
            first_arm + arm_step,
            last_arm,
        ),
{
    let whole = sampled(cat, arm_step, first_arm, last_arm);
    let rest = sampled(cat, arm_step, first_arm + arm_step, last_arm);
    let span = last_arm - first_arm;
    vstd::arithmetic::div_mod::lemma_div_pos_is_pos(span, arm_step);
    if first_arm + arm_step <= last_arm {
        vstd::arithmetic::div_mod::lemma_div_minus_one(span, arm_step);
        assert(-arm_step + span == last_arm - (first_arm + arm_step));
    } else {
        vstd::arithmetic::div_mod::lemma_basic_div(span, arm_step);
    }
    assert(whole.len() == rest.len() + 1);
    assert(sample_arm(arm_step, first_arm, 0) == first_arm) by (nonlinear_arith);
    assert forall|i: int| 0 <= i < rest.len() implies rest[i] == whole.drop_first()[i] by {
        assert(sample_arm(arm_step, first_arm + arm_step, i) == sample_arm(
            arm_step,
            first_arm,
            i + 1,
        )) by (nonlinear_arith);
    }
    assert(whole.drop_first() =~= rest);
}

/// A curve that is walked point by point: what is left of it is its view.
#[derive(Debug, Clone, Copy)]
pub struct CurveSamples {
    cat: BalanceCat,
    arm_step: u32,
    next_arm: i64,
    last_arm: i32,
}

impl View for CurveSamples {
    type V = Seq<(i32, u32)>;

    closed spec fn view(&self) -> Seq<(i32, u32)> {
        sampled(self.cat, self.arm_step as int, self.next_arm as int, self.last_arm as int)
    }
}

impl CurveSamples {
    #[verifier::type_invariant]
    spec fn next_arm_in_reach(&self) -> bool {
        i32::MIN <= self.next_arm <= self.last_arm + self.arm_step
    }

    /// The next point of the curve, if any is left. What is left afterwards
    /// is the curve without it.
    pub fn next(&mut self) -> (point: Option<(i32, u32)>)
        ensures
            old(self)@.len() == 0 ==> point is None && final(self)@ == old(self)@,
            old(self)@.len() > 0 ==> point == Some(old(self)@[0]) && final(self)@ == old(
                self,
            )@.drop_first(),
    {
        proof {
            use_type_invariant(&*self);
        }
        if self.arm_step == 0 || self.next_arm > self.last_arm as i64 {
            return None;
        }
        proof {
            lemma_sampled_rest(
                self.cat,
                self.arm_step as int,
                self.next_arm as int,
                self.last_arm as int,
            );
        }
        let arm: i32 = self.next_arm as i32;
        let limit = max_allowed_weight(self.cat, arm);
        self.next_arm = self.next_arm + self.arm_step as i64;
        Some((arm, limit))
    }
}

impl BalanceChart {
    /// The curve of `category` as the points `(arm, limit)` at `first_arm`,
    /// `first_arm + arm_step`, ... for as long as the arm is not behind
    /// `last_arm`. A step of zero, or a range with `first_arm > last_arm`,
    /// gives no points.
    pub fn sample(
        &self,
        category: Category,
        arm_step: u32,
        first_arm: i32,
        last_arm: i32,
    ) -> (points: Vec<(i32, u32)>)
        ensures
            points@.len() == sample_count(arm_step as int, first_arm as int, last_arm as int),
            forall|i: int|
                0 <= i < points@.len() ==> (#[trigger] points@[i]).0 == sample_arm(
                    arm_step as int,
                    first_arm as int,
                    i,
                ) && points@[i].1 == self.spec_category(category).spec_max_allowed_weight(
                    sample_arm(arm_step as int, first_arm as int, i),
                ),
            points@ == sampled(
                self.spec_category(category),
                arm_step as int,
                first_arm as int,
                last_arm as int,
            ),
    {
        let mut walk = self.samples(category, arm_step, first_arm, last_arm);
        let mut points: Vec<(i32, u32)> = Vec::new();
        let ghost whole = walk@;
        loop
            invariant
                points@ + walk@ == whole,
            ensures
                points@ == whole,
            decreases walk@.len(),
        {
            let ghost left = walk@;
            match walk.next() {
                Some(point) => {
                    points.push(point);
                    proof {
                        assert(points@ + walk@ =~= points@.drop_last() + left);
                    }
                },
                None => {
                    proof {
                        assert(points@ + walk@ =~= points@);
                    }
                    break ;
                },
            }
        }
        proof {
            assert forall|i: int| 0 <= i < points@.len() implies (#[trigger] points@[i]).0
                == sample_arm(arm_step as int, first_arm as int, i) && points@[i].1
                == self.spec_category(category).spec_max_allowed_weight(
                sample_arm(arm_step as int, first_arm as int, i),
            ) by {
                lemma_sample_arm_in_range(arm_step as int, first_arm as int, last_arm as int, i);
                crate::envelope::lemma_limit_between_certified_weights(
                    self.spec_category(category),
                    sample_arm(arm_step as int, first_arm as int, i),
                );
            }
        }
        points
    }

    /// The curve of `category` over the same range, to be walked point by
    /// point: no point is computed before it is asked for.
    pub fn samples(
        &self,
        category: Category,
        arm_step: u32,
        first_arm: i32,
        last_arm: i32,
    ) -> (walk: CurveSamples)
        ensures
            walk@ == sampled(
                self.spec_category(category),
                arm_step as int,
                first_arm as int,
                last_arm as int,
            ),
    {
        let cat = self.category(category);
        if first_arm > last_arm {
            // nothing to walk: start behind the end
            proof {
                assert(sampled(cat, arm_step as int, last_arm + arm_step, last_arm as int)
                    =~= sampled(cat, arm_step as int, first_arm as int, last_arm as int));
            }
            return CurveSamples {
                cat,
                arm_step,
                next_arm: last_arm as i64 + arm_step as i64,
                last_arm,
            };
        }
        CurveSamples { cat, arm_step, next_arm: first_arm as i64, last_arm }
    }
}

/// The number of columns in a chart record: five for each category.
pub const CHART_COLUMNS: usize = 15;

/// Whether the five columns from `at` on can be a category: front limit,
/// back limit and stab as arms, then the two weights.
pub open spec fn category_columns_valid(row: Seq<i64>, at: int) -> bool {
    &&& is_arm(row[at])
    &&& is_arm(row[at + 1])
    &&& is_arm(row[at + 2])
    &&& is_amount(row[at + 3])
    &&& is_amount(row[at + 4])
}

/// The category that the five columns from `at` on hold.
pub open spec fn category_of_columns(row: Seq<i64>, at: int) -> BalanceCat {
    BalanceCat {
        front_limit: row[at] as i32,
        back_limit: row[at + 1] as i32,
        stab: row[at + 2] as i32,
        mindless_weight: row[at + 3] as u32,
        max_weight: row[at + 4] as u32,
    }
}

/// What a chart record gives: the chart with the categories in the order
/// normal, utility, acrobatic; `field_not_found` for a record with fewer
/// than fifteen columns; `wrong_format` where a column cannot be the arm or
/// the weight that its place asks for.
pub open spec fn chart_of_record(row: Seq<i64>) -> Result<BalanceChart, ParseError> {
    if row.len() < CHART_COLUMNS {
        Err(ParseError::field_not_found)
    } else if !(category_columns_valid(row, 0) && category_columns_valid(row, 5)
        && category_columns_valid(row, 10)) {
        Err(ParseError::wrong_format)
    } else {
        Ok(
            BalanceChart {
                catN: category_of_columns(row, 0),
                catU: category_of_columns(row, 5),
                catA: category_of_columns(row, 10),
            },
        )
    }
}

/// Reads the category that the five columns from `at` on hold.
fn read_category(row: &[i64], at: usize) -> (cat: Option<BalanceCat>)
    requires
        at + 5 <= row@.len(),
    ensures
        cat is Some <==> category_columns_valid(row@, at as int),
        cat matches Some(c) ==> c == category_of_columns(row@, at as int),
{
    let front_limit = match read_arm(row[at]) {
        Some(arm) => arm,
        None => {
            return None;
        },
    };
    let back_limit = match read_arm(row[at + 1]) {
        Some(arm) => arm,
        None => {
            return None;
        },
    };
    let stab = match read_arm(row[at + 2]) {
        Some(arm) => arm,
        None => {
            return None;
        },
    };
    let mindless_weight = match read_amount(row[at + 3]) {
        Some(weight) => weight,
        None => {
            return None;
        },
    };
    let max_weight = match read_amount(row[at + 4]) {
        Some(weight) => weight,
        None => {
            return None;
        },
    };
    Some(BalanceCat { front_limit, back_limit, stab, mindless_weight, max_weight })
}

impl BalanceChart {
    /// Reads a chart from one catalogue record of fifteen columns.
    pub fn balance_mapper(row: &[i64]) -> (result: Result<BalanceChart, ParseError>)
        ensures
            result == chart_of_record(row@),
    {
        if row.len() < CHART_COLUMNS {
            return Err(ParseError::field_not_found);
        }
        let normal = read_category(row, 0);
        let utility = read_category(row, 5);
        let acrobatic = read_category(row, 10);
        match (normal, utility, acrobatic) {
            (Some(catN), Some(catU), Some(catA)) => Ok(BalanceChart { catN, catU, catA }),
            _ => Err(ParseError::wrong_format),
        }
    }

    /// Reads the charts that a catalogue holds for one aircraft, record by
    /// record. The first record that gives no chart decides the error.
    pub fn from_database(rows: &Vec<Vec<i64>>) -> (result: Result<Vec<BalanceChart>, ParseError>)
        ensures
            result is Ok <==> forall|i: int|
                #![trigger rows@[i]]
                0 <= i < rows@.len() ==> chart_of_record(rows@[i]@) is Ok,
            result matches Ok(charts) ==> charts@.len() == rows@.len() && forall|i: int|
                #![trigger rows@[i]]
                #![trigger charts@[i]]
                0 <= i < rows@.len() ==> chart_of_record(rows@[i]@) == Ok::<
                    BalanceChart,
                    ParseError,
                >(charts@[i]),
            result matches Err(e) ==> exists|i: int|
                #![trigger rows@[i]]
                0 <= i < rows@.len() && chart_of_record(rows@[i]@) == Err::<
                    BalanceChart,
                    ParseError,
                >(e) && forall|j: int|
                    #![trigger rows@[j]]
                    0 <= j < i ==> chart_of_record(rows@[j]@) is Ok,
    {
        let mut charts: Vec<BalanceChart> = Vec::new();
        let mut i: usize = 0;
        while i < rows.len()
            invariant
                i <= rows@.len(),
                charts@.len() == i,
                forall|j: int|
                    #![trigger rows@[j]]
                    #![trigger charts@[j]]
                    0 <= j < i ==> chart_of_record(rows@[j]@) == Ok::<BalanceChart, ParseError>(
                        charts@[j],
                    ),
            decreases rows@.len() - i,
        {
            match BalanceChart::balance_mapper(rows[i].as_slice()) {
                Ok(chart) => {
                    charts.push(chart);
                },
                Err(e) => {
                    return Err(e);
                },
            }
            i = i + 1;
        }
        Ok(charts)
    }
}

impl BalanceChart {
    /// Whether at `arm` each stricter category allows no more than the next
    /// looser one.
    pub open spec fn nested_at(&self, arm: int) -> bool {
        self.catA.spec_max_allowed_weight(arm) <= self.catU.spec_max_allowed_weight(arm)
            <= self.catN.spec_max_allowed_weight(arm)
    }

    /// Whether the categories are nested: at every arm the acrobatic curve
    /// lies on or under the utility curve, and that on or under the normal
    /// curve.
    pub open spec fn nested(&self) -> bool {
        forall|arm: int| #[trigger] self.nested_at(arm)
    }

    /// Tells whether the categories are nested, by looking at every whole
    /// arm from the foremost front limit to the rearmost back limit. A chart
    /// that is not nested classifies by the order in which the categories
    /// are asked, and its catalogue record deserves a second look.
    pub fn is_nested(&self) -> (nested: bool)
        ensures
            nested == self.nested(),
    {
        let mut first: i32 = self.catN.front_limit;
        if self.catU.front_limit < first {
            first = self.catU.front_limit;
        }
        if self.catA.front_limit < first {
            first = self.catA.front_limit;
        }
        let mut last: i32 = self.catN.back_limit;
        if self.catU.back_limit > last {
            last = self.catU.back_limit;
        }
        if self.catA.back_limit > last {
            last = self.catA.back_limit;
        }
        let mut arm: i64 = first as i64;
        while arm <= last as i64
            invariant
                first <= arm,
                arm <= last + 1 || last < first,
                forall|a: int| first <= a < arm ==> #[trigger] self.nested_at(a),
            decreases last + 1 - arm,
        {
            let at: i32 = arm as i32;
            let acrobatic = max_allowed_weight(self.catA, at);
            let utility = max_allowed_weight(self.catU, at);
            let normal = max_allowed_weight(self.catN, at);
            if acrobatic > utility || utility > normal {
                assert(!self.nested_at(at as int));
                return false;
            }
            arm = arm + 1;
        }
        proof {
            assert forall|a: int| #[trigger] self.nested_at(a) by {
                if a < first || a > last {
                    // ahead of every front limit or behind every back limit
                    assert(self.catA.spec_max_allowed_weight(a) == 0);
                    assert(self.catU.spec_max_allowed_weight(a) == 0);
                    assert(self.catN.spec_max_allowed_weight(a) == 0);
                }
            }
        }
        true
    }
}

/// On a nested chart the classification is the most restrictive category
/// that permits the loading, and a loading that one category permits is
/// permitted by every looser one: it is outside all envelopes exactly when
/// the normal category refuses it.
pub proof fn lemma_nested_classification(chart: BalanceChart, weight: int, arm: int)
    requires
        chart.nested(),
    ensures
        chart.catA.permits(weight, arm) ==> chart.catU.permits(weight, arm),
        chart.catU.permits(weight, arm) ==> chart.catN.permits(weight, arm),
        chart.spec_classify(weight, arm) == Classification::OutsideAllEnvelopes
            <==> !chart.catN.permits(weight, arm),
{
    assert(chart.nested_at(arm));
}

/// A loading that weighs something is outside all envelopes of the chart
/// whose categories have every limit at zero.
pub proof fn lemma_zero_chart_permits_nothing(chart: BalanceChart, weight: int, arm: int)
    requires
        chart.catN == BalanceCat::spec_new(),
        chart.catU == BalanceCat::spec_new(),
        chart.catA == BalanceCat::spec_new(),
        weight > 0,
    ensures
        chart.spec_classify(weight, arm) == Classification::OutsideAllEnvelopes,
{
}

impl BalanceChart {
    /// How a loading of `weight` grams with a moment of `moment` gram
    /// millimetres stands against the chart: the first category that
    /// permits it at its exact centre of gravity, asked from the most
    /// restrictive to the least. No quotient is taken, so a centre of
    /// gravity a fraction of a millimetre behind a back limit is behind it.
    pub open spec fn spec_classify_loading(&self, weight: int, moment: int) -> Classification {
        if self.catA.spec_permits_loading(weight, moment) {
            Classification::Within(Category::Acrobatic)
        } else if self.catU.spec_permits_loading(weight, moment) {
            Classification::Within(Category::Utility)
        } else if self.catN.spec_permits_loading(weight, moment) {
            Classification::Within(Category::Normal)
        } else {
            Classification::OutsideAllEnvelopes
        }
    }

    /// Classifies a loading by its weight in grams and its moment in gram
    /// millimetres, at its exact centre of gravity. A loading without weight
    /// is outside all envelopes. Every loading gets exactly one of the four
    /// answers.
    pub fn classify_loading(&self, weight: u128, moment: i128) -> (class: Classification)
        ensures
            class == self.spec_classify_loading(weight as int, moment as int),
            weight == 0 ==> class == Classification::OutsideAllEnvelopes,
            class == Classification::Within(Category::Acrobatic)
                <==> self.catA.spec_permits_loading(weight as int, moment as int),
            class == Classification::Within(Category::Utility)
                <==> !self.catA.spec_permits_loading(weight as int, moment as int)
                && self.catU.spec_permits_loading(weight as int, moment as int),
            class == Classification::Within(Category::Normal)
                <==> !self.catA.spec_permits_loading(weight as int, moment as int)
                && !self.catU.spec_permits_loading(weight as int, moment as int)
                && self.catN.spec_permits_loading(weight as int, moment as int),
            class == Classification::OutsideAllEnvelopes
                <==> !self.catA.spec_permits_loading(weight as int, moment as int)
                && !self.catU.spec_permits_loading(weight as int, moment as int)
                && !self.catN.spec_permits_loading(weight as int, moment as int),
    {
        if self.catA.permits_loading(weight, moment) {
            Classification::Within(Category::Acrobatic)
        } else if self.catU.permits_loading(weight, moment) {
            Classification::Within(Category::Utility)
        } else if self.catN.permits_loading(weight, moment) {
            Classification::Within(Category::Normal)
        } else {
            Classification::OutsideAllEnvelopes
        }
    }

    /// The classification of the point that a picture of the chart is to
    /// show: there is one exactly when both its weight and its arm are
    /// given.
    pub fn classify_point(&self, weight: Option<u128>, arm: Option<i32>) -> (class: Option<
        Classification,
    >)
        ensures
            class is Some <==> weight is Some && arm is Some,
            class matches Some(c) ==> c == self.spec_classify(
                weight->Some_0 as int,
                arm->Some_0 as int,
            ),
    {
        match (weight, arm) {
            (Some(weight), Some(arm)) => Some(self.classify(weight, arm)),
            _ => None,
        }
    }
}

/// A loading that weighs something and whose centre of gravity is a whole
/// millimetre is classified by weight and moment as it is by weight and arm.
pub proof fn lemma_classify_loading_at_whole_arm(chart: BalanceChart, weight: int, arm: int)
    requires
        weight > 0,
    ensures
        chart.spec_classify_loading(weight, arm * weight) == chart.spec_classify(weight, arm),
{
    crate::envelope::lemma_permits_loading_at_whole_arm(chart.catA, weight, arm);
    crate::envelope::lemma_permits_loading_at_whole_arm(chart.catU, weight, arm);
    crate::envelope::lemma_permits_loading_at_whole_arm(chart.catN, weight, arm);
}

} // verus!
