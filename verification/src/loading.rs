//! The loading sheet: named stations at fixed arms, each carrying a weight,
//! and the totals derived from them.

use crate::arith::floor_div_rem;
use crate::error::{BalanceError, ParseError};
use crate::record::{is_arm, read_arm};
use crate::text::same_text;
use vstd::prelude::*;

verus! {

/// What one station holds: its arm in millimetres from the datum, which
/// never changes, and the weight in grams that it carries at the moment.
#[derive(Debug, Clone, Copy, PartialEq, Eq, Structural)]
pub struct BalanceElement {
    pub arm: i32,
    pub weight: u32,
}

/// A station as contracts see it.
pub struct StationView {
    pub name: Seq<char>,
    pub element: BalanceElement,
}

/// The sum of the weights of all stations.
pub open spec fn weight_sum(stations: Seq<StationView>) -> int
    decreases stations.len(),
{
    if stations.len() == 0 {
        0
    } else {
        weight_sum(stations.drop_last()) + stations.last().element.weight
    }
}

/// The sum of weight times arm over all stations.
pub open spec fn moment_sum(stations: Seq<StationView>) -> int
    decreases stations.len(),
{
    if stations.len() == 0 {
        0
    } else {
        moment_sum(stations.drop_last()) + stations.last().element.weight
            * stations.last().element.arm
    }
}

/// Whether a station of this name is on the sheet.
pub open spec fn has_station(stations: Seq<StationView>, name: Seq<char>) -> bool {
    exists|i: int| 0 <= i < stations.len() && (#[trigger] stations[i]).name == name
}

/// No two stations share a name.
pub open spec fn distinct_names(stations: Seq<StationView>) -> bool {
    forall|i: int, j: int|
        0 <= i < j < stations.len() ==> (#[trigger] stations[i]).name != (
        #[trigger] stations[j]).name
}

/// The sheet with `element` at every station called `name`, and all other
/// stations as they were.
pub open spec fn with_element(
    stations: Seq<StationView>,
    name: Seq<char>,
    element: BalanceElement,
) -> Seq<StationView> {
    Seq::new(
        stations.len(),
        |i: int|
            if stations[i].name == name {
                StationView { name, element }
            } else {
                stations[i]
            },
    )
}

/// The sheet with `weight` at every station called `name`, arms and all
/// other stations as they were.
pub open spec fn with_weight(stations: Seq<StationView>, name: Seq<char>, weight: u32) -> Seq<
    StationView,
> {
    Seq::new(
        stations.len(),
        |i: int|
            if stations[i].name == name {
                StationView {
                    name,
                    element: BalanceElement { arm: stations[i].element.arm, weight },
                }
            } else {
                stations[i]
            },
    )
}

/// Adding a station adds its weight and its moment to the totals.
pub proof fn lemma_sums_push(stations: Seq<StationView>, station: StationView)
    ensures
        weight_sum(stations.push(station)) == weight_sum(stations) + station.element.weight,
        moment_sum(stations.push(station)) == moment_sum(stations) + station.element.weight
            * station.element.arm,
{
    assert(stations.push(station).drop_last() =~= stations);
}

/// The total weight is not negative and stays under what that many stations
/// can carry.
pub proof fn lemma_weight_sum_bounds(stations: Seq<StationView>)
    ensures
        0 <= weight_sum(stations) <= stations.len() * u32::MAX,
    decreases stations.len(),
{
    if stations.len() > 0 {
        let rest = stations.drop_last();
        lemma_weight_sum_bounds(rest);
        assert(stations.len() * u32::MAX == rest.len() * u32::MAX + u32::MAX) by (nonlinear_arith)
            requires
                stations.len() == rest.len() + 1,
        ;
    }
}

/// Where every arm lies between `front` and `back`, the total moment lies
/// between the total weight at `front` and the total weight at `back`.
pub proof fn lemma_moment_sum_between(stations: Seq<StationView>, front: int, back: int)
    requires
        forall|i: int|
            0 <= i < stations.len() ==> front <= (#[trigger] stations[i]).element.arm <= back,
    ensures
        front * weight_sum(stations) <= moment_sum(stations) <= back * weight_sum(stations),
    decreases stations.len(),
{
    if stations.len() > 0 {
        let rest = stations.drop_last();
        let e = stations.last().element;
        assert forall|i: int| 0 <= i < rest.len() implies front <= (
        #[trigger] rest[i]).element.arm <= back by {
            assert(rest[i] == stations[i]);
        }
        lemma_moment_sum_between(rest, front, back);
        let w = e.weight as int;
        let a = e.arm as int;
        let rest_weight = weight_sum(rest);
        assert(front * w <= w * a <= back * w) by (nonlinear_arith)
            requires
                0 <= w,
                front <= a <= back,
        ;
        assert(front * (rest_weight + w) == front * rest_weight + front * w && back * (rest_weight
            + w) == back * rest_weight + back * w) by (nonlinear_arith);
    }
}

/// A quotient lies between two bounds when the dividend lies between the
/// divisor's multiples of them.
pub proof fn lemma_quotient_between(moment: int, weight: int, front: int, back: int)
    requires
        0 < weight,
        front * weight <= moment <= back * weight,
    ensures
        front <= moment / weight <= back,
{
    vstd::arithmetic::div_mod::lemma_fundamental_div_mod(moment, weight);
    vstd::arithmetic::div_mod::lemma_mod_bound(moment, weight);
    let q = moment / weight;
    let rem = moment % weight;
    assert(front <= q <= back) by (nonlinear_arith)
        requires
            0 < weight,
            moment == weight * q + rem,
            0 <= rem < weight,
            front * weight <= moment <= back * weight,
    ;
}

/// The centre of gravity of a sheet that carries weight lies between the
/// foremost and the rearmost of its arms: loading can never move it past
/// the stations themselves.
pub proof fn lemma_center_of_gravity_between_arms(
    stations: Seq<StationView>,
    front: int,
    back: int,
)
    requires
        weight_sum(stations) != 0,
        forall|i: int|
            0 <= i < stations.len() ==> front <= (#[trigger] stations[i]).element.arm <= back,
    ensures
        front <= moment_sum(stations) / weight_sum(stations) <= back,
{
    lemma_weight_sum_bounds(stations);
    lemma_moment_sum_between(stations, front, back);
    lemma_quotient_between(moment_sum(stations), weight_sum(stations), front, back);
}

/// Loading changes weights and nothing else: the sheet keeps its stations,
/// their order, their names and their arms, and a name that the sheet does
/// not have changes nothing at all.
pub proof fn lemma_with_weight_keeps_stations(
    stations: Seq<StationView>,
    name: Seq<char>,
    weight: u32,
)
    ensures
        with_weight(stations, name, weight).len() == stations.len(),
        forall|i: int|
            0 <= i < stations.len() ==> (#[trigger] with_weight(stations, name, weight)[i]).name
                == stations[i].name && with_weight(stations, name, weight)[i].element.arm
                == stations[i].element.arm,
        forall|i: int|
            0 <= i < stations.len() && stations[i].name != name ==> (#[trigger] with_weight(
                stations,
                name,
                weight,
            )[i]) == stations[i],
        forall|other: Seq<char>|
            has_station(with_weight(stations, name, weight), other) <==> has_station(
                stations,
                other,
            ),
        distinct_names(stations) ==> distinct_names(with_weight(stations, name, weight)),
        !has_station(stations, name) ==> with_weight(stations, name, weight) == stations,
{
    let after = with_weight(stations, name, weight);
    assert forall|other: Seq<char>| has_station(after, other) <==> has_station(
        stations,
        other,
    ) by {
        if has_station(after, other) {
            let i = choose|i: int| 0 <= i < after.len() && (#[trigger] after[i]).name == other;
            assert(stations[i].name == other);
        }
        if has_station(stations, other) {
            let i = choose|i: int|
                0 <= i < stations.len() && (#[trigger] stations[i]).name == other;
            assert(after[i].name == other);
        }
    }
    if distinct_names(stations) {
        assert forall|i: int, j: int| 0 <= i < j < after.len() implies (#[trigger] after[i]).name
            != (#[trigger] after[j]).name by {
            assert(stations[i].name != stations[j].name);
        }
    }
    if !has_station(stations, name) {
        assert forall|i: int| 0 <= i < stations.len() implies after[i] == stations[i] by {
            assert(stations[i].name != name);
        }
        assert(after =~= stations);
    }
}

/// Mass is conserved: setting the weight of one station moves the total
/// weight by the difference of the two weights, and the total moment by that
/// difference at the station's arm. Nothing else on the sheet contributes.
pub proof fn lemma_sums_with_weight(stations: Seq<StationView>, at: int, weight: u32)
    requires
        distinct_names(stations),
        0 <= at < stations.len(),
    ensures
        weight_sum(with_weight(stations, stations[at].name, weight)) == weight_sum(stations)
            - stations[at].element.weight + weight,
        moment_sum(with_weight(stations, stations[at].name, weight)) == moment_sum(stations) + (
        weight - stations[at].element.weight) * stations[at].element.arm,
    decreases stations.len(),
{
    let name = stations[at].name;
    let after = with_weight(stations, name, weight);
    let rest = stations.drop_last();
    let last = stations.len() - 1;
    if at == last {
        // the stations before the last one do not carry the name
        assert(after.drop_last() =~= rest);
        let w0 = stations[at].element.weight as int;
        let a = stations[at].element.arm as int;
        assert(weight * a == w0 * a + (weight - w0) * a) by (nonlinear_arith);
    } else {
        lemma_sums_with_weight(rest, at, weight);
        assert(after.drop_last() =~= with_weight(rest, name, weight));
        assert(after.last() == stations.last());
    }
}

#[derive(Debug)]
struct Station {
    name: String,
    element: BalanceElement,
}

impl Station {
    spec fn view(&self) -> StationView {
        StationView { name: self.name@, element: self.element }
    }

    /// A station that carries nothing yet.
    fn at_rest(name: &str, arm: i32) -> (station: Station)
        ensures
            station.view() == (StationView {
                name: name@,
                element: BalanceElement { arm, weight: 0 },
            }),
    {
        Station { name: name.to_owned(), element: BalanceElement { arm, weight: 0 } }
    }
}

/// The loading sheet of one aircraft. Station names are unique; a station
/// keeps its place and its arm for as long as the sheet lives.
#[derive(Debug)]
pub struct BalanceSheet {
    stations: Vec<Station>,
}

impl View for BalanceSheet {
    type V = Seq<StationView>;

    closed spec fn view(&self) -> Seq<StationView> {
        views_of(self.stations@)
    }
}

spec fn views_of(stations: Seq<Station>) -> Seq<StationView> {
    Seq::new(stations.len(), |i: int| stations[i].view())
}

impl Clone for BalanceSheet {
    fn clone(&self) -> (copy: BalanceSheet)
        ensures
            copy@ == self@,
    {
        proof {
            use_type_invariant(self);
        }
        let mut stations: Vec<Station> = Vec::new();
        let mut i: usize = 0;
        while i < self.stations.len()
            invariant
                i <= self.stations@.len(),
                stations@.len() == i,
                forall|j: int|
                    0 <= j < i ==> (#[trigger] stations@[j]).view() == self.stations@[j].view(),
            decreases self.stations@.len() - i,
        {
            let name = self.stations[i].name.clone();
            stations.push(Station { name, element: self.stations[i].element });
            i = i + 1;
        }
        proof {
            assert(views_of(stations@) =~= views_of(self.stations@));
        }
        BalanceSheet { stations }
    }
}

impl BalanceSheet {
    #[verifier::type_invariant]
    spec fn names_are_unique(&self) -> bool {
        distinct_names(self@)
    }

    /// A sheet without stations.
    pub fn new() -> (sheet: BalanceSheet)
        ensures
            sheet@ == Seq::<StationView>::empty(),
            weight_sum(sheet@) == 0,
            moment_sum(sheet@) == 0,
    {
        BalanceSheet { stations: Vec::new() }
    }

    /// The number of stations. No two of them share a name.
    pub fn len(&self) -> (n: usize)
        ensures
            n == self@.len(),
            distinct_names(self@),
    {
        proof {
            use_type_invariant(self);
        }
        self.stations.len()
    }

    /// The stations in their order on the sheet, each with its name and
    /// what it holds.
    pub fn elements(&self) -> (listed: Vec<(String, BalanceElement)>)
        ensures
            listed@.len() == self@.len(),
            forall|i: int|
                0 <= i < self@.len() ==> (#[trigger] listed@[i]).0@ == self@[i].name
                    && listed@[i].1 == self@[i].element,
            distinct_names(self@),
    {
        proof {
            use_type_invariant(self);
        }
        let mut listed: Vec<(String, BalanceElement)> = Vec::new();
        let mut i: usize = 0;
        while i < self.stations.len()
            invariant
                i <= self.stations@.len(),
                listed@.len() == i,
                forall|j: int|
                    0 <= j < i ==> (#[trigger] listed@[j]).0@ == self@[j].name && listed@[j].1
                        == self@[j].element,
            decreases self.stations@.len() - i,
        {
            let name = self.stations[i].name.clone();
            listed.push((name, self.stations[i].element));
            i = i + 1;
        }
        listed
    }

    /// The place of the station called `name`, if the sheet has one.
    fn position(&self, name: &str) -> (found: Option<usize>)
        ensures
            match found {
                Some(i) => i < self@.len() && self@[i as int].name == name@,
                None => !has_station(self@, name@),
            },
    {
        let mut i: usize = 0;
        while i < self.stations.len()
            invariant
                i <= self.stations@.len(),
                forall|j: int| 0 <= j < i ==> (#[trigger] self@[j]).name != name@,
            decreases self.stations@.len() - i,
        {
            if same_text(self.stations[i].name.as_str(), name) {
                return Some(i);
            }
            i = i + 1;
        }
        None
    }

    /// What the station called `name` holds, if the sheet has one.
    pub fn get(&self, name: &str) -> (found: Option<BalanceElement>)
        ensures
            found is Some <==> has_station(self@, name@),
            found matches Some(element) ==> exists|i: int|
                0 <= i < self@.len() && (#[trigger] self@[i]) == (StationView {
                    name: name@,
                    element,
                }),
    {
        match self.position(name) {
            Some(i) => Some(self.stations[i].element),
            None => None,
        }
    }

    /// Puts a station on the sheet, as a construction step. A station of
    /// that name that is there already gets the new element and keeps its
    /// place; its former element is returned.
    pub fn insert(&mut self, name: String, element: BalanceElement) -> (former: Option<
        BalanceElement,
    >)
        ensures
            former is Some <==> has_station(old(self)@, name@),
            has_station(old(self)@, name@) ==> final(self)@ == with_element(
                old(self)@,
                name@,
                element,
            ),
            !has_station(old(self)@, name@) ==> final(self)@ == old(self)@.push(
                StationView { name: name@, element },
            ),
            former matches Some(e) ==> exists|i: int|
                0 <= i < old(self)@.len() && (#[trigger] old(self)@[i]) == (StationView {
                    name: name@,
                    element: e,
                }),
            has_station(final(self)@, name@),
            distinct_names(old(self)@) && distinct_names(final(self)@),
    {
        proof {
            use_type_invariant(&*self);
        }
        let found = self.position(name.as_str());
        let ghost before = self@;
        let mut stations: Vec<Station> = Vec::new();
        core::mem::swap(&mut self.stations, &mut stations);
        let former = match found {
            Some(i) => {
                let former = stations[i].element;
                stations[i].element = element;
                proof {
                    assert(views_of(stations@) =~= with_element(before, name@, element));
                    assert(views_of(stations@)[i as int].name == name@);
                }
                Some(former)
            },
            None => {
                let ghost added = StationView { name: name@, element };
                stations.push(Station { name, element });
                proof {
                    assert(views_of(stations@) =~= before.push(added));
                    assert(views_of(stations@)[before.len() as int].name == name@);
                }
                None
            },
        };
        assert(distinct_names(views_of(stations@)));
        self.stations = stations;
        former
    }

    /// Sets the weight that the station called `name` carries. A name that
    /// the sheet does not have is refused and nothing changes: no station is
    /// ever made up, since its arm could not be.
    pub fn load(&mut self, name: String, weight: u32) -> (result: Result<(), BalanceError>)
        ensures
            result is Ok <==> has_station(old(self)@, name@),
            result is Ok ==> final(self)@ == with_weight(old(self)@, name@, weight),
            result is Err ==> final(self)@ == old(self)@,
            result matches Err(e) ==> e == BalanceError::not_in_balance(name),
            distinct_names(old(self)@) && distinct_names(final(self)@),
    {
        proof {
            use_type_invariant(&*self);
        }
        match self.position(name.as_str()) {
            Some(i) => {
                let ghost before = self@;
                let mut stations: Vec<Station> = Vec::new();
                core::mem::swap(&mut self.stations, &mut stations);
                stations[i].element.weight = weight;
                proof {
                    assert(views_of(stations@) =~= with_weight(before, name@, weight));
                }
                self.stations = stations;
                Ok(())
            },
            None => Err(BalanceError::not_in_balance(name)),
        }
    }

    /// The weight that the sheet carries in all, in grams.
    pub fn total_weight(&self) -> (total: u128)
        ensures
            total == weight_sum(self@),
    {
        let mut total: u128 = 0;
        let mut i: usize = 0;
        while i < self.stations.len()
            invariant
                i <= self.stations@.len(),
                total == weight_sum(self@.take(i as int)),
            decreases self.stations@.len() - i,
        {
            proof {
                let upto = self@.take(i as int);
                lemma_weight_sum_bounds(upto);
                lemma_sums_push(upto, self@[i as int]);
                assert(upto.push(self@[i as int]) =~= self@.take(i + 1));
                assert(upto.len() * u32::MAX <= usize::MAX * u32::MAX) by (nonlinear_arith)
                    requires
                        upto.len() <= usize::MAX,
                ;
            }
            total = total + self.stations[i].element.weight as u128;
            i = i + 1;
        }
        proof {
            assert(self@.take(i as int) =~= self@);
        }
        total
    }

    /// The moment that the sheet carries in all, in gram millimetres: each
    /// station's weight times its arm.
    pub fn total_moment(&self) -> (total: i128)
        ensures
            total == moment_sum(self@),
    {
        let mut total: i128 = 0;
        let mut i: usize = 0;
        while i < self.stations.len()
            invariant
                i <= self.stations@.len(),
                total == moment_sum(self@.take(i as int)),
            decreases self.stations@.len() - i,
        {
            let weight: i128 = self.stations[i].element.weight as i128;
            let arm: i128 = self.stations[i].element.arm as i128;
            proof {
                let upto = self@.take(i as int);
                lemma_moment_sum_between(upto, i32::MIN as int, i32::MAX as int);
                lemma_sums_push(upto, self@[i as int]);
                assert(upto.push(self@[i as int]) =~= self@.take(i + 1));
                lemma_weight_sum_bounds(self@.take(i + 1));
                lemma_moment_sum_between(self@.take(i + 1), i32::MIN as int, i32::MAX as int);
                let w = weight_sum(self@.take(i + 1));
                assert(w <= usize::MAX * u32::MAX) by (nonlinear_arith)
                    requires
                        w <= (i + 1) * u32::MAX,
                        i + 1 <= usize::MAX,
                ;
                assert(i32::MIN * w >= -0x7fff_ffff_ffff_ffff_ffff_ffff_ffff_ffff && i32::MAX * w
                    <= 0x7fff_ffff_ffff_ffff_ffff_ffff_ffff_ffff) by (nonlinear_arith)
                    requires
                        0 <= w <= 0xffff_ffff_ffff_ffff * 0xffff_ffff,
                ;
                assert(-0x8000_0000_0000_0000 < weight * arm < 0x8000_0000_0000_0000)
                    by (nonlinear_arith)
                    requires
                        0 <= weight <= 0xffff_ffff,
                        -0x8000_0000 <= arm <= 0x7fff_ffff,
                ;
            }
            total = total + weight * arm;
            i = i + 1;
        }
        proof {
            assert(self@.take(i as int) =~= self@);
        }
        total
    }

    /// The arm at which the whole load acts: total moment by total weight,
    /// rounded down to a whole millimetre, so that the load acts at the arm
    /// returned or less than a millimetre behind it. A sheet that carries no
    /// weight has no centre of gravity.
    pub fn center_of_gravity(&self) -> (result: Result<i32, BalanceError>)
        ensures
            result is Err <==> weight_sum(self@) == 0,
            result matches Ok(arm) ==> arm == moment_sum(self@) / weight_sum(self@),
            result matches Ok(arm) ==> arm * weight_sum(self@) <= moment_sum(self@) < (arm + 1)
                * weight_sum(self@),
            result matches Err(e) ==> e == BalanceError::undefined_center_of_gravity,
    {
        let weight = self.total_weight();
        if weight == 0 {
            return Err(BalanceError::undefined_center_of_gravity);
        }
        let moment = self.total_moment();
        proof {
            self.lemma_totals_in_reach();
        }
        let (arm, _) = floor_div_rem(moment, weight as i128);
        proof {
            lemma_center_of_gravity_between_arms(self@, i32::MIN as int, i32::MAX as int);
            assert((arm + 1) * weight == arm * weight + weight) by (nonlinear_arith);
            assert(arm * weight == weight * arm) by (nonlinear_arith);
        }
        Ok(arm as i32)
    }

    /// The same arm to the thousandth of a millimetre: a thousand times the
    /// total moment by the total weight, rounded down.
    pub fn center_of_gravity_micrometres(&self) -> (result: Result<i64, BalanceError>)
        ensures
            result is Err <==> weight_sum(self@) == 0,
            result matches Ok(arm) ==> arm == (1000 * moment_sum(self@)) / weight_sum(self@),
            result matches Ok(arm) ==> arm * weight_sum(self@) <= 1000 * moment_sum(self@) < (arm
                + 1) * weight_sum(self@),
            result matches Err(e) ==> e == BalanceError::undefined_center_of_gravity,
    {
        let weight = self.total_weight();
        if weight == 0 {
            return Err(BalanceError::undefined_center_of_gravity);
        }
        let moment = self.total_moment();
        proof {
            self.lemma_totals_in_reach();
        }
        let divisor: i128 = weight as i128;
        let (whole, rest) = floor_div_rem(moment, divisor);
        let (fine, left) = floor_div_rem(rest * 1000, divisor);
        proof {
            lemma_center_of_gravity_between_arms(self@, i32::MIN as int, i32::MAX as int);
            let m = moment as int;
            let w = divisor as int;
            assert(0 <= fine < 1000) by (nonlinear_arith)
                requires
                    rest * 1000 == w * fine + left,
                    0 <= left < w,
                    0 <= rest < w,
            ;
            assert(1000 * m == (1000 * whole + fine) * w + left) by (nonlinear_arith)
                requires
                    m == w * whole + rest,
                    rest * 1000 == w * fine + left,
            ;
            vstd::arithmetic::div_mod::lemma_fundamental_div_mod_converse(
                1000 * m,
                w,
                1000 * whole + fine,
                left as int,
            );
            assert((1000 * whole + fine + 1) * w == w * (1000 * whole + fine) + w
                && (1000 * whole + fine) * w == w * (1000 * whole + fine)) by (nonlinear_arith);
        }
        let arm: i128 = whole * 1000 + fine;
        Ok(arm as i64)
    }

    /// The totals of any sheet fit the types they are returned in, with
    /// room to spare for the arithmetic on them.
    proof fn lemma_totals_in_reach(&self)
        ensures
            0 <= weight_sum(self@) <= 0xffff_ffff_ffff_ffff * 0xffff_ffff,
            i32::MIN * weight_sum(self@) <= moment_sum(self@) <= i32::MAX * weight_sum(self@),
            i128::MIN < i32::MIN * weight_sum(self@),
            i32::MAX * weight_sum(self@) < i128::MAX,
    {
        let weight = weight_sum(self@);
        lemma_weight_sum_bounds(self@);
        assert(self@.len() == self.stations.len());
        assert(self@.len() * u32::MAX <= usize::MAX * u32::MAX) by (nonlinear_arith)
            requires
                self@.len() <= usize::MAX,
        ;
        assert(usize::MAX * u32::MAX <= 0xffff_ffff_ffff_ffff * 0xffff_ffff) by (nonlinear_arith)
            requires
                usize::MAX <= 0xffff_ffff_ffff_ffff,
        ;
        lemma_moment_sum_between(self@, i32::MIN as int, i32::MAX as int);
        assert(i32::MIN * weight > i128::MIN && i32::MAX * weight < i128::MAX)
            by (nonlinear_arith)
            requires
                0 <= weight <= 0xffff_ffff_ffff_ffff * 0xffff_ffff,
        ;
    }
}

/// The number of columns in a sheet record: one arm for each station.
pub const SHEET_COLUMNS: usize = 7;

/// A station that carries nothing yet.
pub open spec fn empty_station(name: Seq<char>, column: i64) -> StationView {
    StationView { name, element: BalanceElement { arm: column as i32, weight: 0 } }
}

/// What a sheet record gives: the stations "Empty", "PIL", "PAX", "cargo",
/// "tank", "tank2" and "tank3" at the arms of the seven columns, in that
/// order, none carrying any weight; `field_not_found` for a record with
/// fewer than seven columns; `wrong_format` where a column cannot be an arm.
pub open spec fn sheet_of_record(row: Seq<i64>) -> Result<Seq<StationView>, ParseError> {
    if row.len() < SHEET_COLUMNS {
        Err(ParseError::field_not_found)
    } else if !(forall|i: int| 0 <= i < SHEET_COLUMNS ==> is_arm(#[trigger] row[i])) {
        Err(ParseError::wrong_format)
    } else {
        Ok(
            seq![
                empty_station("Empty"@, row[0]),
                empty_station("PIL"@, row[1]),
                empty_station("PAX"@, row[2]),
                empty_station("cargo"@, row[3]),
                empty_station("tank"@, row[4]),
                empty_station("tank2"@, row[5]),
                empty_station("tank3"@, row[6]),
            ],
        )
    }
}

/// The seven station names of a sheet record differ from one another.
proof fn lemma_station_names_differ()
    ensures
        "Empty"@ != "PIL"@,
        "Empty"@ != "PAX"@,
        "Empty"@ != "cargo"@,
        "Empty"@ != "tank"@,
        "Empty"@ != "tank2"@,
        "Empty"@ != "tank3"@,
        "PIL"@ != "PAX"@,
        "PIL"@ != "cargo"@,
        "PIL"@ != "tank"@,
        "PIL"@ != "tank2"@,
        "PIL"@ != "tank3"@,
        "PAX"@ != "cargo"@,
        "PAX"@ != "tank"@,
        "PAX"@ != "tank2"@,
        "PAX"@ != "tank3"@,
        "cargo"@ != "tank"@,
        "cargo"@ != "tank2"@,
        "cargo"@ != "tank3"@,
        "tank"@ != "tank2"@,
        "tank"@ != "tank3"@,
        "tank2"@ != "tank3"@,
{
    reveal_strlit("Empty");
    reveal_strlit("PIL");
    reveal_strlit("PAX");
    reveal_strlit("cargo");
    reveal_strlit("tank");
    reveal_strlit("tank2");
    reveal_strlit("tank3");
    assert("Empty"@.len() == 5 && "PIL"@.len() == 3 && "PAX"@.len() == 3);
    assert("cargo"@.len() == 5 && "tank"@.len() == 4);
    assert("tank2"@.len() == 5 && "tank3"@.len() == 5);
    assert("Empty"@[0] == 'E' && "cargo"@[0] == 'c' && "tank2"@[0] == 't' && "tank3"@[0] == 't');
    assert("PIL"@[1] == 'I' && "PAX"@[1] == 'A');
    assert("tank2"@[4] == '2' && "tank3"@[4] == '3');
}

impl BalanceSheet {
    /// Reads a sheet from one catalogue record of seven columns.
    pub fn weight_mapper(row: &[i64]) -> (result: Result<BalanceSheet, ParseError>)
        ensures
            result is Ok <==> sheet_of_record(row@) is Ok,
            result matches Ok(sheet) ==> sheet_of_record(row@) == Ok::<
                Seq<StationView>,
                ParseError,
            >(sheet@),
            result matches Err(e) ==> sheet_of_record(row@) == Err::<Seq<StationView>, ParseError>(
                e,
            ),
    {
        if row.len() < SHEET_COLUMNS {
            return Err(ParseError::field_not_found);
        }
        let mut arms: Vec<i32> = Vec::new();
        let mut i: usize = 0;
        while i < SHEET_COLUMNS
            invariant
                i <= SHEET_COLUMNS <= row@.len(),
                arms@.len() == i,
                forall|j: int| 0 <= j < i ==> is_arm(#[trigger] row@[j]) && arms@[j] == row@[j],
            decreases SHEET_COLUMNS - i,
        {
            match read_arm(row[i]) {
                Some(arm) => {
                    arms.push(arm);
                },
                None => {
                    return Err(ParseError::wrong_format);
                },
            }
            i = i + 1;
        }
        let mut stations: Vec<Station> = Vec::new();
        stations.push(Station::at_rest("Empty", arms[0]));
        stations.push(Station::at_rest("PIL", arms[1]));
        stations.push(Station::at_rest("PAX", arms[2]));
        stations.push(Station::at_rest("cargo", arms[3]));
        stations.push(Station::at_rest("tank", arms[4]));
        stations.push(Station::at_rest("tank2", arms[5]));
        stations.push(Station::at_rest("tank3", arms[6]));
        proof {
            lemma_station_names_differ();
            assert(views_of(stations@) =~= sheet_of_record(row@)->Ok_0);
        }
        Ok(BalanceSheet { stations })
    }

    /// Reads the sheets that a catalogue holds for one aircraft, record by
    /// record. The first record that gives no sheet decides the error.
    pub fn from_database(rows: &Vec<Vec<i64>>) -> (result: Result<Vec<BalanceSheet>, ParseError>)
        ensures
            result is Ok <==> forall|i: int|
                #![trigger rows@[i]]
                0 <= i < rows@.len() ==> sheet_of_record(rows@[i]@) is Ok,
            result matches Ok(sheets) ==> sheets@.len() == rows@.len() && forall|i: int|
                #![trigger rows@[i]]
                #![trigger sheets@[i]]
                0 <= i < rows@.len() ==> sheet_of_record(rows@[i]@) == Ok::<
                    Seq<StationView>,
                    ParseError,
                >(sheets@[i]@),
            result matches Err(e) ==> exists|i: int|
                #![trigger rows@[i]]
                0 <= i < rows@.len() && sheet_of_record(rows@[i]@) == Err::<
                    Seq<StationView>,
                    ParseError,
                >(e) && forall|j: int|
                    #![trigger rows@[j]]
                    0 <= j < i ==> sheet_of_record(rows@[j]@) is Ok,
    {
        let mut sheets: Vec<BalanceSheet> = Vec::new();
        let mut i: usize = 0;
        while i < rows.len()
            invariant
                i <= rows@.len(),
                sheets@.len() == i,
                forall|j: int|
                    #![trigger rows@[j]]
                    #![trigger sheets@[j]]
                    0 <= j < i ==> sheet_of_record(rows@[j]@) == Ok::<
                        Seq<StationView>,
                        ParseError,
                    >(sheets@[j]@),
            decreases rows@.len() - i,
        {
            match BalanceSheet::weight_mapper(rows[i].as_slice()) {
                Ok(sheet) => {
                    sheets.push(sheet);
                },
                Err(e) => {
                    return Err(e);
                },
            }
            i = i + 1;
        }
        Ok(sheets)
    }
}

} // verus!
