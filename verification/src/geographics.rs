//! Points on the globe.

use vstd::prelude::*;

verus! {

/// A named navigation point. Latitude and longitude are in millionths of a
/// degree, north and east positive.
#[derive(Debug)]
pub struct NavPoint {
    pub name: String,
    pub latitude: i32,
    pub longitude: i32,
}

impl NavPoint {
    /// A point from its name and its place.
    pub fn new(name: String, latitude: i32, longitude: i32) -> (point: NavPoint)
        ensures
            point.name@ == name@,
            point.latitude == latitude,
            point.longitude == longitude,
    {
        NavPoint { name, latitude, longitude }
    }

    /// Whether two points are the same place, whatever they are called.
    pub open spec fn spec_same_position(&self, other: &NavPoint) -> bool {
        self.latitude == other.latitude && self.longitude == other.longitude
    }

    /// Whether two points are the same place, whatever they are called.
    /// Between such points there is no distance and no course to compute.
    #[verifier::when_used_as_spec(spec_same_position)]
    pub fn same_position(&self, other: &NavPoint) -> (same: bool)
        ensures
            same == self.spec_same_position(other),
    {
        self.latitude == other.latitude && self.longitude == other.longitude
    }
}

/// The distance in metres and the course in thousandths of a degree from
/// one point to another, given what the great-circle formulas say of the
/// two points. Between two points at the same place the formulas have no
/// say: the distance is zero, and the course, which no formula defines
/// there, is zero too.
pub open spec fn distance_and_course(from: NavPoint, to: NavPoint, calculated: (u32, i32)) -> (
    u32,
    i32,
) {
    if from.spec_same_position(&to) {
        (0u32, 0i32)
    } else {
        calculated
    }
}

/// The distance in metres and the course in thousandths of a degree from
/// `from` to `to`. `calculated` is what the great-circle formulas give for
/// the two points; it stands unless they are the same place, where both
/// are zero whatever was calculated.
pub fn calculate_distance_and_course(from: &NavPoint, to: &NavPoint, calculated: (u32, i32)) -> (
    result: (Option<u32>, Option<i32>))
    ensures
        result.0 == Some(distance_and_course(*from, *to, calculated).0),
        result.1 == Some(distance_and_course(*from, *to, calculated).1),
{
    if from.same_position(to) {
        (Some(0), Some(0))
    } else {
        (Some(calculated.0), Some(calculated.1))
    }
}

} // verus!
