use navigation::error::{BalanceError, ParseError};
use navigation::loading::{BalanceElement, BalanceSheet};

fn two_station_sheet() -> BalanceSheet {
    let mut sheet = BalanceSheet::new();
    sheet.insert("Empty".to_string(), BalanceElement { arm: 1000, weight: 500_000 });
    sheet.insert("PIL".to_string(), BalanceElement { arm: 2000, weight: 80_000 });
    sheet
}

#[test]
fn totals_of_two_stations() {
    let sheet = two_station_sheet();
    assert_eq!(sheet.total_weight(), 580_000);
    assert_eq!(sheet.total_moment(), 660_000_000);
    // 660 / 580 = 1.137931... m
    assert_eq!(sheet.center_of_gravity(), Ok(1137));
    assert_eq!(sheet.center_of_gravity_micrometres(), Ok(1_137_931));
}

#[test]
fn new_sheet_is_empty_and_has_no_centre_of_gravity() {
    let sheet = BalanceSheet::new();
    assert_eq!(sheet.len(), 0);
    assert_eq!(sheet.total_weight(), 0);
    assert_eq!(sheet.total_moment(), 0);
    assert_eq!(sheet.center_of_gravity(), Err(BalanceError::undefined_center_of_gravity));
    assert!(sheet.elements().is_empty());
}

#[test]
fn stations_without_weight_have_no_centre_of_gravity() {
    let mut sheet = BalanceSheet::new();
    sheet.insert("PIL".to_string(), BalanceElement { arm: 2000, weight: 0 });
    sheet.insert("PAX".to_string(), BalanceElement { arm: 3000, weight: 0 });
    assert_eq!(sheet.total_weight(), 0);
    assert_eq!(sheet.center_of_gravity(), Err(BalanceError::undefined_center_of_gravity));
}

#[test]
fn load_overwrites_the_weight_and_keeps_the_arm() {
    let mut sheet = two_station_sheet();
    assert_eq!(sheet.load("PIL".to_string(), 95_000), Ok(()));
    assert_eq!(sheet.get("PIL"), Some(BalanceElement { arm: 2000, weight: 95_000 }));
    assert_eq!(
        sheet.get("Empty"),
        Some(BalanceElement { arm: 1000, weight: 500_000 })
    );
    assert_eq!(sheet.total_weight(), 595_000);
    assert_eq!(sheet.total_moment(), 690_000_000);
    assert_eq!(sheet.len(), 2);
}

#[test]
fn load_of_an_unknown_station_changes_nothing() {
    let mut sheet = two_station_sheet();
    let before = sheet.elements();
    assert_eq!(
        sheet.load("PAX".to_string(), 70_000),
        Err(BalanceError::not_in_balance("PAX".to_string()))
    );
    assert_eq!(sheet.elements(), before);
    assert_eq!(sheet.get("PAX"), None);
    assert_eq!(sheet.total_weight(), 580_000);
    // names are compared as they are written
    assert_eq!(
        sheet.load("pil".to_string(), 1),
        Err(BalanceError::not_in_balance("pil".to_string()))
    );
    assert_eq!(sheet.load(String::new(), 1), Err(BalanceError::not_in_balance(String::new())));
}

#[test]
fn totals_follow_any_sequence_of_loads() {
    let mut sheet = two_station_sheet();
    sheet.insert("PAX".to_string(), BalanceElement { arm: 3000, weight: 0 });
    let loads: [(&str, u32); 6] = [
        ("PIL", 70_000),
        ("PAX", 150_000),
        ("PIL", 0),
        ("Empty", 510_000),
        ("PAX", 1),
        ("PIL", 82_500),
    ];
    for (name, weight) in loads {
        let old = sheet.get(name).unwrap();
        let weight_before = sheet.total_weight();
        let moment_before = sheet.total_moment();
        sheet.load(name.to_string(), weight).unwrap();
        assert_eq!(
            sheet.total_weight() as i128,
            weight_before as i128 - old.weight as i128 + weight as i128
        );
        assert_eq!(
            sheet.total_moment(),
            moment_before + (weight as i128 - old.weight as i128) * old.arm as i128
        );
        let listed = sheet.elements();
        let sum: u128 = listed.iter().map(|(_, e)| e.weight as u128).sum();
        let moment: i128 = listed.iter().map(|(_, e)| e.weight as i128 * e.arm as i128).sum();
        assert_eq!(sheet.total_weight(), sum);
        assert_eq!(sheet.total_moment(), moment);
    }
    assert_eq!(sheet.total_weight(), 510_000 + 82_500 + 1);
}

#[test]
fn centre_of_gravity_is_rounded_down_with_arms_ahead_of_the_datum() {
    let mut sheet = BalanceSheet::new();
    sheet.insert("PIL".to_string(), BalanceElement { arm: -1, weight: 1 });
    sheet.insert("PAX".to_string(), BalanceElement { arm: 0, weight: 1 });
    assert_eq!(sheet.total_moment(), -1);
    // -1 / 2 = -0.5, rounded down
    assert_eq!(sheet.center_of_gravity(), Ok(-1));
    sheet.load("PAX".to_string(), 0).unwrap();
    assert_eq!(sheet.center_of_gravity(), Ok(-1));
    sheet.load("PIL".to_string(), 3).unwrap();
    sheet.insert("cargo".to_string(), BalanceElement { arm: -10, weight: 4 });
    // -43 / 7 = -6.14...
    assert_eq!(sheet.center_of_gravity(), Ok(-7));
}

#[test]
fn centre_of_gravity_stays_between_the_arms() {
    let mut sheet = BalanceSheet::new();
    sheet.insert("PIL".to_string(), BalanceElement { arm: i32::MIN, weight: u32::MAX });
    assert_eq!(sheet.center_of_gravity(), Ok(i32::MIN));
    sheet.insert("PAX".to_string(), BalanceElement { arm: i32::MAX, weight: u32::MAX });
    assert_eq!(sheet.total_weight(), 2 * u32::MAX as u128);
    assert_eq!(sheet.total_moment(), -(u32::MAX as i128));
    assert_eq!(sheet.center_of_gravity(), Ok(-1));
    sheet.load("PIL".to_string(), 0).unwrap();
    assert_eq!(sheet.center_of_gravity(), Ok(i32::MAX));
}

#[test]
fn insert_replaces_a_station_of_the_same_name() {
    let mut sheet = two_station_sheet();
    let former = sheet.insert("PIL".to_string(), BalanceElement { arm: 2100, weight: 0 });
    assert_eq!(former, Some(BalanceElement { arm: 2000, weight: 80_000 }));
    assert_eq!(sheet.len(), 2);
    assert_eq!(sheet.get("PIL"), Some(BalanceElement { arm: 2100, weight: 0 }));
    let listed = sheet.elements();
    assert_eq!(listed[0].0, "Empty");
    assert_eq!(listed[1], ("PIL".to_string(), BalanceElement { arm: 2100, weight: 0 }));
    assert_eq!(sheet.insert("PAX".to_string(), BalanceElement { arm: 1, weight: 2 }), None);
    assert_eq!(sheet.len(), 3);
}

#[test]
fn clone_of_a_sheet_holds_the_same_stations() {
    let sheet = two_station_sheet();
    let mut copy = sheet.clone();
    assert_eq!(copy.elements(), sheet.elements());
    copy.load("PIL".to_string(), 1).unwrap();
    assert_eq!(sheet.get("PIL"), Some(BalanceElement { arm: 2000, weight: 80_000 }));
}

#[test]
fn sheet_record_gives_the_seven_stations_at_rest() {
    let row: Vec<i64> = vec![850, 1000, 1900, 2400, 1100, -50, 0];
    let sheet = BalanceSheet::weight_mapper(&row).unwrap();
    let listed = sheet.elements();
    let names: Vec<&str> = listed.iter().map(|(name, _)| name.as_str()).collect();
    assert_eq!(names, vec!["Empty", "PIL", "PAX", "cargo", "tank", "tank2", "tank3"]);
    let arms: Vec<i32> = listed.iter().map(|(_, e)| e.arm).collect();
    assert_eq!(arms, vec![850, 1000, 1900, 2400, 1100, -50, 0]);
    assert!(listed.iter().all(|(_, e)| e.weight == 0));
    assert_eq!(sheet.total_weight(), 0);
}

#[test]
fn sheet_record_that_is_short_or_out_of_range_is_refused() {
    let short: Vec<i64> = vec![850, 1000, 1900, 2400, 1100, -50];
    assert_eq!(BalanceSheet::weight_mapper(&short).err(), Some(ParseError::field_not_found));
    let huge: Vec<i64> = vec![850, 1000, 1900, 2400, 1100, -50, i32::MAX as i64 + 1];
    assert_eq!(BalanceSheet::weight_mapper(&huge).err(), Some(ParseError::wrong_format));
    let low: Vec<i64> = vec![i32::MIN as i64 - 1, 1000, 1900, 2400, 1100, -50, 0];
    assert_eq!(BalanceSheet::weight_mapper(&low).err(), Some(ParseError::wrong_format));
}

#[test]
fn sheet_records_are_read_in_order() {
    let one: Vec<i64> = vec![1, 2, 3, 4, 5, 6, 7];
    let two: Vec<i64> = vec![10, 20, 30, 40, 50, 60, 70, 80];
    let sheets = BalanceSheet::from_database(&vec![one.clone(), two]).unwrap();
    assert_eq!(sheets.len(), 2);
    assert_eq!(sheets[0].get("tank3"), Some(BalanceElement { arm: 7, weight: 0 }));
    assert_eq!(sheets[1].get("Empty"), Some(BalanceElement { arm: 10, weight: 0 }));
    assert_eq!(sheets[1].len(), 7);
    assert!(BalanceSheet::from_database(&vec![]).unwrap().is_empty());
    let short: Vec<i64> = vec![1];
    let bad: Vec<i64> = vec![i64::MIN; 7];
    assert_eq!(
        BalanceSheet::from_database(&vec![one.clone(), bad.clone(), short.clone()]).err(),
        Some(ParseError::wrong_format)
    );
    assert_eq!(
        BalanceSheet::from_database(&vec![short, bad, one]).err(),
        Some(ParseError::field_not_found)
    );
}

#[test]
fn centre_of_gravity_to_the_micrometre_is_rounded_down() {
    let mut sheet = BalanceSheet::new();
    assert_eq!(
        sheet.center_of_gravity_micrometres(),
        Err(BalanceError::undefined_center_of_gravity)
    );
    sheet.insert("PIL".to_string(), BalanceElement { arm: -1, weight: 1 });
    sheet.insert("PAX".to_string(), BalanceElement { arm: 0, weight: 2 });
    // -1 / 3 = -0.333333... mm
    assert_eq!(sheet.center_of_gravity_micrometres(), Ok(-334));
    assert_eq!(sheet.center_of_gravity(), Ok(-1));
    sheet.load("PAX".to_string(), 0).unwrap();
    assert_eq!(sheet.center_of_gravity_micrometres(), Ok(-1000));
    sheet.insert("cargo".to_string(), BalanceElement { arm: 564, weight: 400_000 });
    sheet.insert("tank".to_string(), BalanceElement { arm: 565, weight: 400_000 });
    sheet.load("PIL".to_string(), 0).unwrap();
    assert_eq!(sheet.center_of_gravity(), Ok(564));
    assert_eq!(sheet.center_of_gravity_micrometres(), Ok(564_500));
    let mut wide = BalanceSheet::new();
    wide.insert("PIL".to_string(), BalanceElement { arm: i32::MIN, weight: u32::MAX });
    assert_eq!(wide.center_of_gravity_micrometres(), Ok(i32::MIN as i64 * 1000));
    wide.insert("PAX".to_string(), BalanceElement { arm: i32::MAX, weight: u32::MAX });
    assert_eq!(wide.center_of_gravity_micrometres(), Ok(-500));
    wide.load("PIL".to_string(), 0).unwrap();
    assert_eq!(wide.center_of_gravity_micrometres(), Ok(i32::MAX as i64 * 1000));
}
