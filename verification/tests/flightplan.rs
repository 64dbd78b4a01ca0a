use navigation::flightplan::{NavBranch, Navigation, Wind};
use navigation::geographics::{calculate_distance_and_course, NavPoint};

fn point(name: &str, latitude: i32, longitude: i32) -> Option<NavPoint> {
    Some(NavPoint::new(name.to_string(), latitude, longitude))
}

const CALM: Wind = Wind { speed: 0, direction: 0 };

#[test]
fn nav_point_keeps_its_fields() {
    let p = NavPoint::new("lfpz".to_string(), 48_811_389, 2_074_722);
    assert_eq!(p.name, "lfpz");
    assert_eq!(p.latitude, 48_811_389);
    assert_eq!(p.longitude, 2_074_722);
}

#[test]
fn same_position_looks_at_the_place_only() {
    let a = NavPoint::new("a".to_string(), 1, 2);
    let b = NavPoint::new("b".to_string(), 1, 2);
    let c = NavPoint::new("a".to_string(), 1, 3);
    let d = NavPoint::new("a".to_string(), 0, 2);
    assert!(a.same_position(&b));
    assert!(a.same_position(&a));
    assert!(!a.same_position(&c));
    assert!(!a.same_position(&d));
}

#[test]
fn calculation_is_needed_when_something_is_missing_and_both_ends_are_there() {
    let from = point("a", 0, 0);
    let to = point("b", 18_000, 0);
    assert!(NavBranch::needs_calculation(&from, &to, None, None));
    assert!(NavBranch::needs_calculation(&from, &to, Some(2_000), None));
    assert!(NavBranch::needs_calculation(&from, &to, None, Some(0)));
    assert!(!NavBranch::needs_calculation(&from, &to, Some(2_000), Some(0)));
    assert!(!NavBranch::needs_calculation(&None, &to, None, None));
    assert!(!NavBranch::needs_calculation(&from, &None, None, None));
    assert!(!NavBranch::needs_calculation(&None, &None, None, Some(1)));
}

#[test]
fn calculation_is_not_needed_between_ends_at_the_same_place() {
    let from = point("a", 48_811_389, 2_074_722);
    let to = point("b", 48_811_389, 2_074_722);
    assert!(!NavBranch::needs_calculation(&from, &to, None, None));
    assert!(!NavBranch::needs_calculation(&from, &to, Some(1), None));
}

#[test]
fn given_distance_and_course_stand() {
    let branch = NavBranch::new(
        point("a", 0, 0),
        point("b", 18_000, 0),
        Some(5_000),
        Some(90_000),
        Wind { speed: 10_000, direction: 270_000 },
        300,
        Some((2_001, 0)),
    );
    assert_eq!(branch.distance, Some(5_000));
    assert_eq!(branch.course, Some(90_000));
    assert_eq!(branch.wind, Wind { speed: 10_000, direction: 270_000 });
    assert_eq!(branch.time, 300);
    assert_eq!(branch.from.unwrap().name, "a");
    assert_eq!(branch.to.unwrap().latitude, 18_000);
}

#[test]
fn missing_distance_or_course_is_taken_from_the_calculation() {
    let leg = |distance, course| {
        NavBranch::new(
            point("a", 0, 0),
            point("b", 18_000, 0),
            distance,
            course,
            CALM,
            0,
            Some((2_001, -179_000)),
        )
    };
    let branch = leg(None, None);
    assert_eq!(branch.distance, Some(2_001));
    assert_eq!(branch.course, Some(-179_000));
    let branch = leg(Some(7), None);
    assert_eq!(branch.distance, Some(7));
    assert_eq!(branch.course, Some(-179_000));
    let branch = leg(None, Some(8));
    assert_eq!(branch.distance, Some(2_001));
    assert_eq!(branch.course, Some(8));
}

#[test]
fn leg_without_both_ends_keeps_what_is_missing() {
    let calculated = Some((2_001, -179_000));
    let branch = NavBranch::new(None, None, None, None, CALM, 0, calculated);
    assert_eq!(branch.distance, None);
    assert_eq!(branch.course, None);
    let branch = NavBranch::new(point("a", 0, 0), None, Some(7), None, CALM, 0, calculated);
    assert_eq!(branch.distance, Some(7));
    assert_eq!(branch.course, None);
    let branch = NavBranch::new(None, point("b", 18_000, 0), None, Some(8), CALM, 0, calculated);
    assert_eq!(branch.distance, None);
    assert_eq!(branch.course, Some(8));
    assert_eq!(branch.to.unwrap().name, "b");
}

#[test]
fn leg_between_ends_at_the_same_place_has_no_length() {
    let place = || point("a", 48_811_389, 2_074_722);
    let branch = NavBranch::new(place(), place(), None, None, CALM, 0, Some((5, 90_000)));
    assert_eq!(branch.distance, Some(0));
    assert_eq!(branch.course, Some(0));
    let branch = NavBranch::new(place(), place(), None, Some(45_000), CALM, 0, None);
    assert_eq!(branch.distance, Some(0));
    assert_eq!(branch.course, Some(45_000));
}

#[test]
fn without_a_calculation_what_is_missing_stays_missing() {
    let branch = NavBranch::new(point("a", 0, 0), None, None, Some(8), CALM, 1, None);
    assert_eq!(branch.distance, None);
    assert_eq!(branch.course, Some(8));
    assert!(branch.to.is_none());
    let branch = NavBranch::new(None, None, None, None, CALM, 1, None);
    assert_eq!(branch.distance, None);
    assert_eq!(branch.course, None);
    let branch = NavBranch::new(point("a", 0, 0), point("b", 1, 0), None, None, CALM, 1, None);
    assert_eq!(branch.distance, None);
    assert_eq!(branch.course, None);
}

#[test]
fn distance_and_course_stand_between_different_places() {
    let a = NavPoint::new("a".to_string(), 0, 0);
    let b = NavPoint::new("b".to_string(), 18_000, 0);
    assert_eq!(calculate_distance_and_course(&a, &b, (2_001, 0)), (Some(2_001), Some(0)));
    assert_eq!(
        calculate_distance_and_course(&b, &a, (2_001, 180_000)),
        (Some(2_001), Some(180_000))
    );
}

#[test]
fn distance_and_course_are_zero_at_the_same_place() {
    let a = NavPoint::new("a".to_string(), 18_000, -5);
    let b = NavPoint::new("b".to_string(), 18_000, -5);
    assert_eq!(calculate_distance_and_course(&a, &b, (2_001, 90_000)), (Some(0), Some(0)));
    assert_eq!(calculate_distance_and_course(&a, &a, (0, -1)), (Some(0), Some(0)));
}

#[test]
fn navigation_holds_its_legs() {
    let leg = NavBranch::new(point("a", 0, 0), point("b", 1, 1), Some(1), Some(2), CALM, 3, None);
    let plan = Navigation {
        start: NavPoint::new("a".to_string(), 0, 0),
        end: NavPoint::new("b".to_string(), 1, 1),
        branches: vec![leg],
    };
    assert_eq!(plan.branches.len(), 1);
    assert_eq!(plan.start.name, "a");
    assert_eq!(plan.end.name, "b");
}
