use navigation::fuel::{Fuel, FuelProperties, MAX_DENSITY};

const ALL: [Fuel; 8] = [
    Fuel::AVGAS100LL,
    Fuel::AVGAS100,
    Fuel::AVGAS82,
    Fuel::AVGAS80,
    Fuel::JET_A,
    Fuel::JET_A1,
    Fuel::JET_B,
    Fuel::MOGAS,
];

#[test]
fn every_grade_has_its_name_and_density() {
    let expected: [(&str, u32); 8] = [
        ("AVGAS 100LL", 721),
        ("AVGAS 100", 721),
        ("AVGAS 82", 690),
        ("AVGAS 80", 721),
        ("JET A", 804),
        ("JET A-1", 804),
        ("JET B", 820),
        ("MOGAS", 745),
    ];
    for (fuel, (name, density)) in ALL.iter().zip(expected) {
        assert_eq!(
            fuel.properties(),
            FuelProperties { name: name.to_string(), density }
        );
        assert_eq!(fuel.density(), density);
        assert!(fuel.density() <= MAX_DENSITY);
    }
}

#[test]
fn every_grade_is_read_from_its_tag() {
    let tags =
        ["AVGAS100LL", "AVGAS100", "AVGAS82", "AVGAS80", "JET_A", "JET_A1", "JET_B", "MOGAS"];
    for (fuel, tag) in ALL.iter().zip(tags) {
        assert_eq!(Fuel::from_tag(tag), *fuel);
    }
}

#[test]
fn unknown_tag_is_read_as_avgas_100ll() {
    assert_eq!(Fuel::from_tag(""), Fuel::AVGAS100LL);
    assert_eq!(Fuel::from_tag("DIESEL"), Fuel::AVGAS100LL);
    assert_eq!(Fuel::from_tag("mogas"), Fuel::AVGAS100LL);
    assert_eq!(Fuel::from_tag("JET_A "), Fuel::AVGAS100LL);
    assert_eq!(Fuel::from_tag("JET A"), Fuel::AVGAS100LL);
    assert_eq!(Fuel::from_tag("JET_\u{c9}"), Fuel::AVGAS100LL);
}
