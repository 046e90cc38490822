use roster_engine::capacity::{CapacityModel, HallQuota};
use roster_engine::halls::{parse_gender, Gender, Hall};

fn q(total: i32, male: Option<i32>, female: Option<i32>) -> HallQuota {
    HallQuota { total, male, female }
}

#[test]
fn all_lists_every_hall_once() {
    let halls = Hall::all();
    assert_eq!(
        halls,
        vec![Hall::MainHall, Hall::HallOne, Hall::Gallery, Hall::Basement, Hall::Outside]
    );
}

#[test]
fn hall_names() {
    assert_eq!(Hall::MainHall.name(), "MainHall");
    assert_eq!(Hall::Outside.name(), "Outside");
}

#[test]
fn get_available_halls_excludes_served() {
    let served = vec![Hall::MainHall, Hall::Gallery];
    let open = Hall::get_available_halls(&served, Hall::all());
    assert_eq!(open, vec![Hall::HallOne, Hall::Basement, Hall::Outside]);
}

#[test]
fn assign_hall_avoids_served_and_reports_exhaustion() {
    let served = vec![Hall::MainHall];
    let picked = Hall::assign_hall(&served, vec![Hall::MainHall, Hall::HallOne]);
    assert_eq!(picked, Some(Hall::HallOne));
    let none = Hall::assign_hall(&served, vec![Hall::MainHall]);
    assert_eq!(none, None);
}

#[test]
fn parse_gender_is_case_insensitive() {
    assert_eq!(parse_gender(&Some("male".to_string())), Some(Gender::Male));
    assert_eq!(parse_gender(&Some("FEMALE".to_string())), Some(Gender::Female));
    assert_eq!(parse_gender(&Some("FeMaLe".to_string())), Some(Gender::Female));
    assert_eq!(parse_gender(&Some("other".to_string())), None);
    assert_eq!(parse_gender(&None), None);
}

#[test]
fn consume_decrements_and_saturates() {
    let mut cap = CapacityModel::new(
        q(2, Some(1), Some(1)),
        q(0, None, None),
        q(1, None, None),
        q(1, None, None),
        q(1, None, None),
    );
    assert!(cap.is_open(Hall::MainHall));
    assert!(cap.consume(Hall::MainHall, Some(Gender::Male)));
    assert_eq!(cap.remaining(Hall::MainHall), 1);
    assert_eq!(cap.remaining_for_gender(Hall::MainHall, Gender::Male), Some(0));
    assert_eq!(cap.remaining_for_gender(Hall::MainHall, Gender::Female), Some(1));
    assert!(cap.consume(Hall::MainHall, None));
    assert_eq!(cap.remaining(Hall::MainHall), 0);
    // Over-consumption saturates: the counter stays where it stands.
    assert!(!cap.consume(Hall::MainHall, None));
    assert_eq!(cap.remaining(Hall::MainHall), 0);
    // An exhausted hall never consumes from another hall's counters.
    assert_eq!(cap.remaining(Hall::Gallery), 1);
}

#[test]
fn gender_open_unconstrained_without_sub_quota() {
    let cap = CapacityModel::new(
        q(1, None, None),
        q(1, Some(0), Some(1)),
        q(0, None, None),
        q(0, None, None),
        q(0, None, None),
    );
    assert!(cap.gender_open(Hall::MainHall, Some(Gender::Male)));
    assert!(!cap.gender_open(Hall::HallOne, Some(Gender::Male)));
    assert!(cap.gender_open(Hall::HallOne, Some(Gender::Female)));
    assert!(cap.gender_open(Hall::HallOne, None));
}

#[test]
fn open_halls_lists_only_open() {
    let cap = CapacityModel::new(
        q(1, None, None),
        q(0, None, None),
        q(2, None, None),
        q(-1, None, None),
        q(0, None, None),
    );
    assert_eq!(cap.open_halls(), vec![Hall::MainHall, Hall::Gallery]);
}
