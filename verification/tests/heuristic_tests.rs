use roster_engine::capacity::{CapacityModel, HallQuota};
use roster_engine::halls::{Gender, Hall, SelectionTier};
use roster_engine::heuristic::select_hall;

fn q(total: i32, male: Option<i32>, female: Option<i32>) -> HallQuota {
    HallQuota { total, male, female }
}

fn closed() -> HallQuota {
    q(0, None, None)
}

#[test]
fn first_tier_prefers_gender_capacity() {
    let cap = CapacityModel::new(
        q(2, Some(0), Some(2)),
        q(2, Some(2), Some(0)),
        closed(),
        closed(),
        closed(),
    );
    let (hall, tier) = select_hall(&cap, &vec![], Some(Gender::Male));
    assert_eq!(hall, Hall::HallOne);
    assert_eq!(tier, SelectionTier::GenderMatched);
}

#[test]
fn second_tier_ignores_exhausted_gender_quota() {
    let cap = CapacityModel::new(q(2, Some(0), Some(2)), closed(), closed(), closed(), closed());
    let (hall, tier) = select_hall(&cap, &vec![], Some(Gender::Male));
    assert_eq!(hall, Hall::MainHall);
    assert_eq!(tier, SelectionTier::HistoryAvoided);
}

#[test]
fn third_tier_ignores_history() {
    let cap = CapacityModel::new(closed(), closed(), q(1, None, None), closed(), closed());
    let history = vec![Hall::Gallery];
    let (hall, tier) = select_hall(&cap, &history, None);
    assert_eq!(hall, Hall::Gallery);
    assert_eq!(tier, SelectionTier::CapacityOnly);
}

#[test]
fn last_tier_returns_some_hall_with_no_capacity_anywhere() {
    let cap = CapacityModel::new(closed(), closed(), closed(), closed(), closed());
    let (hall, tier) = select_hall(&cap, &vec![], None);
    assert!(Hall::all().contains(&hall));
    assert_eq!(tier, SelectionTier::Unconstrained);
}

#[test]
fn history_is_avoided_when_an_open_hall_remains() {
    let cap = CapacityModel::new(q(1, None, None), q(1, None, None), closed(), closed(), closed());
    let history = vec![Hall::MainHall];
    let (hall, tier) = select_hall(&cap, &history, None);
    assert_eq!(hall, Hall::HallOne);
    assert_eq!(tier, SelectionTier::GenderMatched);
}
