//! The legs of a flight plan.

use crate::geographics::{calculate_distance_and_course, distance_and_course, NavPoint};
use vstd::prelude::*;

verus! {

/// The wind on a leg: speed in thousandths of the plan's unit of speed,
/// direction in thousandths of a degree.
#[derive(Debug, Clone, Copy, PartialEq, Eq, Structural)]
pub struct Wind {
    pub speed: u32,
    pub direction: u32,
}

/// A flight plan: where it starts, where it ends, and its legs.
#[derive(Debug)]
pub struct Navigation {
    pub start: NavPoint,
    pub end: NavPoint,
    pub branches: Vec<NavBranch>,
}

/// One leg. Distance is in metres, course in thousandths of a degree, time
/// in thousandths of the plan's unit of time.
#[derive(Debug)]
pub struct NavBranch {
    pub from: Option<NavPoint>,
    pub to: Option<NavPoint>,
    pub distance: Option<u32>,
    pub course: Option<i32>,
    pub wind: Wind,
    pub time: u32,
}

/// A value that was given stands; one that was not is taken from what was
/// calculated, if anything was.
pub open spec fn given_or<T>(given: Option<T>, calculated: Option<T>) -> Option<T> {
    match given {
        Some(value) => Some(value),
        None => calculated,
    }
}

/// What can be said of the distance and the course of a leg from its ends.
/// A leg without both ends has neither, whatever was calculated. Between
/// two ends at the same place both are zero. Otherwise they are what was
/// calculated, if anything was.
pub open spec fn leg_calculation(
    from: Option<NavPoint>,
    to: Option<NavPoint>,
    calculated: Option<(u32, i32)>,
) -> Option<(u32, i32)> {
    match (from, to) {
        (Some(from), Some(to)) => {
            if from.spec_same_position(&to) {
                Some((0u32, 0i32))
            } else {
                match calculated {
                    Some(pair) => Some(distance_and_course(from, to, pair)),
                    None => None,
                }
            }
        },
        _ => None,
    }
}

/// The distance of a calculation, if there is one.
pub open spec fn distance_of(calculation: Option<(u32, i32)>) -> Option<u32> {
    match calculation {
        Some(pair) => Some(pair.0),
        None => None,
    }
}

/// The course of a calculation, if there is one.
pub open spec fn course_of(calculation: Option<(u32, i32)>) -> Option<i32> {
    match calculation {
        Some(pair) => Some(pair.1),
        None => None,
    }
}

impl NavBranch {
    /// Whether the great-circle formulas have to be asked for a leg: its
    /// distance or its course is not given, both ends are, and they are not
    /// the same place.
    pub fn needs_calculation(
        from: &Option<NavPoint>,
        to: &Option<NavPoint>,
        distance: Option<u32>,
        course: Option<i32>,
    ) -> (needed: bool)
        ensures
            needed <==> (distance is None || course is None) && (from matches Some(a) && (
            to matches Some(b) && !a.spec_same_position(&b))),
    {
        if distance.is_some() && course.is_some() {
            return false;
        }
        match (from, to) {
            (Some(a), Some(b)) => !a.same_position(b),
            _ => false,
        }
    }

    /// Makes a leg. A distance or a course that is given stands. One that
    /// is not given is taken from the ends: a leg without both ends keeps
    /// it missing, whatever `calculated` holds; between two ends at the same
    /// place it is zero; otherwise it is taken from `calculated`, which is
    /// what the great-circle formulas gave for the two ends, if they were
    /// asked.
    pub fn new(
        from: Option<NavPoint>,
        to: Option<NavPoint>,
        distance: Option<u32>,
        course: Option<i32>,
        wind: Wind,
        time: u32,
        calculated: Option<(u32, i32)>,
    ) -> (branch: NavBranch)
        ensures
            branch.from == from,
            branch.to == to,
            branch.wind == wind,
            branch.time == time,
            branch.distance == given_or(
                distance,
                distance_of(leg_calculation(from, to, calculated)),
            ),
            branch.course == given_or(course, course_of(leg_calculation(from, to, calculated))),
            (from is None || to is None) ==> branch.distance == distance && branch.course
                == course,
    {
        let (calculated_distance, calculated_course) = match (&from, &to, calculated) {
            (Some(a), Some(b), Some(pair)) => calculate_distance_and_course(a, b, pair),
            (Some(a), Some(b), None) => {
                if a.same_position(b) {
                    (Some(0), Some(0))
                } else {
                    (None, None)
                }
            },
            _ => (None, None),
        };
        NavBranch {
            from,
            to,
            distance: match distance {
                Some(d) => Some(d),
                None => calculated_distance,
            },
            course: match course {
                Some(c) => Some(c),
                None => calculated_course,
            },
            wind,
            time,
        }
    }
}

} // verus!
