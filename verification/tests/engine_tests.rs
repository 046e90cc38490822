use roster_engine::capacity::HallQuota;
use roster_engine::engine::{Placement, RosterSystem};
use roster_engine::errors::ModuleError;
use roster_engine::halls::{Hall, SelectionTier};
use roster_engine::history::Assignment;
use roster_engine::roster::RosterDefinition;
use roster_engine::users::{Role, User};

fn quota(total: i32) -> HallQuota {
    HallQuota { total, male: None, female: None }
}

fn gendered_quota(total: i32, male: i32, female: i32) -> HallQuota {
    HallQuota { total, male: Some(male), female: Some(female) }
}

fn roster(id: u128, gendered: bool, quotas: [HallQuota; 5]) -> RosterDefinition {
    RosterDefinition {
        id,
        name: format!("roster-{}", id),
        is_active: false,
        start_date: 100,
        end_date: 200,
        year: 2025,
        gendered,
        main_hall: quotas[0],
        hall_one: quotas[1],
        gallery: quotas[2],
        basement: quotas[3],
        outside: quotas[4],
        created_at: 0,
    }
}

fn user(id: u128, gender: Option<&str>, active: bool) -> User {
    User {
        id,
        username: None,
        reg_no: format!("REG{}", id),
        first_name: format!("First{}", id),
        last_name: format!("Last{}", id),
        email: format!("u{}@example.org", id),
        password: "secret".to_string(),
        dob: None,
        avatar_url: None,
        created_at: 0,
        updated_at: 0,
        year_joined: "2024".to_string(),
        current_roster_hall: None,
        current_roster_allocation: None,
        role: Role::User,
        last_seen: None,
        device_id: None,
        is_active: active,
        gender: gender.map(|g| g.to_string()),
        address: None,
        city: None,
        state: None,
        country: None,
        phone: None,
        hall_derivation: 0,
    }
}

fn hall_count(placements: &[Placement], hall: Hall) -> usize {
    placements.iter().filter(|p| p.hall == hall).count()
}

#[test]
fn two_halls_two_candidates_one_each() {
    let mut sys = RosterSystem::new();
    sys.rosters.push(roster(
        1,
        false,
        [quota(1), quota(1), quota(0), quota(0), quota(0)],
    ));
    sys.users.push(user(10, None, true));
    sys.users.push(user(11, None, true));
    let placements = sys.activate_roster(1, 150).expect("activation succeeds");
    assert_eq!(placements.len(), 2);
    for p in &placements {
        assert!(p.hall == Hall::MainHall || p.hall == Hall::HallOne);
        assert!(p.tier != SelectionTier::Unconstrained);
    }
    assert_eq!(hall_count(&placements, Hall::MainHall), 1);
    assert_eq!(hall_count(&placements, Hall::HallOne), 1);
    assert_eq!(sys.assignments.len(), 2);
}

#[test]
fn one_seat_two_candidates_second_falls_back() {
    let mut sys = RosterSystem::new();
    sys.rosters.push(roster(
        1,
        false,
        [quota(1), quota(0), quota(0), quota(0), quota(0)],
    ));
    sys.users.push(user(10, None, true));
    sys.users.push(user(11, None, true));
    let placements = sys.activate_roster(1, 150).expect("activation succeeds");
    assert_eq!(placements.len(), 2);
    assert_eq!(placements[0].hall, Hall::MainHall);
    assert!(placements[0].tier != SelectionTier::Unconstrained);
    // The second candidate still receives a hall; the request does not fail.
    assert_eq!(placements[1].tier, SelectionTier::Unconstrained);
}

#[test]
fn activating_active_roster_rejected_and_untouched() {
    let mut sys = RosterSystem::new();
    let mut r = roster(1, false, [quota(5), quota(0), quota(0), quota(0), quota(0)]);
    r.is_active = true;
    sys.rosters.push(r);
    sys.users.push(user(10, None, true));
    sys.assignments.push(Assignment::new(10, 1, Hall::Gallery, 2025));
    let before_rows: Vec<(u128, u128, Hall)> = sys
        .assignments
        .iter()
        .map(|a| (a.user_id, a.roster_id, a.hall))
        .collect();
    let err = sys.activate_roster(1, 150).unwrap_err();
    match err {
        ModuleError::Error(m) => assert_eq!(m, "Roster is already active"),
        other => panic!("unexpected error: {:?}", other),
    }
    let after_rows: Vec<(u128, u128, Hall)> = sys
        .assignments
        .iter()
        .map(|a| (a.user_id, a.roster_id, a.hall))
        .collect();
    assert_eq!(before_rows, after_rows);
    assert!(sys.rosters[0].is_active);
}

#[test]
fn unknown_roster_rejected() {
    let mut sys = RosterSystem::new();
    let err = sys.activate_roster(99, 150).unwrap_err();
    match err {
        ModuleError::ResourceNotFound(m) => assert_eq!(m, "Roster not found"),
        other => panic!("unexpected error: {:?}", other),
    }
}

#[test]
fn window_checks_rejected() {
    let mut sys = RosterSystem::new();
    sys.rosters.push(roster(
        1,
        false,
        [quota(5), quota(0), quota(0), quota(0), quota(0)],
    ));
    match sys.activate_roster(1, 250).unwrap_err() {
        ModuleError::Error(m) => assert_eq!(m, "Roster end date is in the past"),
        other => panic!("unexpected error: {:?}", other),
    }
    match sys.activate_roster(1, 50).unwrap_err() {
        ModuleError::Error(m) => assert_eq!(m, "Roster start date is in the future"),
        other => panic!("unexpected error: {:?}", other),
    }
    assert!(sys.assignments.is_empty());
}

#[test]
fn zero_capacity_roster_rejected() {
    let mut sys = RosterSystem::new();
    sys.rosters.push(roster(
        1,
        false,
        [quota(0), quota(0), quota(0), quota(-3), quota(0)],
    ));
    sys.users.push(user(10, None, true));
    match sys.activate_roster(1, 150).unwrap_err() {
        ModuleError::Error(m) => assert_eq!(m, "Roster has no capacity configured"),
        other => panic!("unexpected error: {:?}", other),
    }
    assert!(sys.assignments.is_empty());
    assert!(!sys.rosters[0].is_active);
}

#[test]
fn single_active_roster_after_activation() {
    let mut sys = RosterSystem::new();
    let mut r1 = roster(1, false, [quota(5), quota(0), quota(0), quota(0), quota(0)]);
    r1.is_active = true;
    sys.rosters.push(r1);
    sys.rosters.push(roster(2, false, [quota(5), quota(0), quota(0), quota(0), quota(0)]));
    sys.users.push(user(10, None, true));
    sys.activate_roster(2, 150).expect("activation succeeds");
    assert!(!sys.rosters[0].is_active);
    assert!(sys.rosters[1].is_active);
    assert_eq!(
        sys.rosters.iter().filter(|r| r.is_active).count(),
        1,
        "exactly one roster is active"
    );
}

#[test]
fn find_active_returns_the_activated_roster() {
    let mut sys = RosterSystem::new();
    sys.rosters.push(roster(1, false, [quota(1), quota(0), quota(0), quota(0), quota(0)]));
    assert!(sys.find_active().is_none());
    sys.activate_roster(1, 150).expect("activation succeeds");
    let active = sys.find_active().expect("one roster is active");
    assert_eq!(active.id, 1);
}

#[test]
fn reactivation_replaces_rows_same_count() {
    let mut sys = RosterSystem::new();
    sys.rosters.push(roster(1, false, [quota(5), quota(5), quota(0), quota(0), quota(0)]));
    sys.users.push(user(10, None, true));
    sys.users.push(user(11, None, true));
    sys.users.push(user(12, None, false)); // inactive: not eligible
    sys.activate_roster(1, 150).expect("first activation");
    let first_count = sys.assignments.len();
    let first_ids: Vec<u128> = sys.assignments.iter().map(|a| a.id).collect();
    assert_eq!(first_count, 2);
    // Deactivate, then activate again over the same pool.
    sys.rosters[0].is_active = false;
    sys.activate_roster(1, 150).expect("second activation");
    assert_eq!(sys.assignments.len(), first_count);
    for a in &sys.assignments {
        assert_eq!(a.roster_id, 1);
        assert!(!first_ids.contains(&a.id), "old rows are fully replaced");
    }
    let mut users_seen: Vec<u128> = sys.assignments.iter().map(|a| a.user_id).collect();
    users_seen.sort();
    assert_eq!(users_seen, vec![10, 11], "one row per eligible user, no duplicates");
}

#[test]
fn history_avoided_when_capacity_allows() {
    let mut sys = RosterSystem::new();
    sys.rosters.push(roster(1, false, [quota(5), quota(5), quota(0), quota(0), quota(0)]));
    sys.users.push(user(10, None, true));
    // A prior-year row in another roster, same year tag: the lookback.
    sys.assignments.push(Assignment::new(10, 7, Hall::MainHall, 2025));
    let placements = sys.activate_roster(1, 150).expect("activation succeeds");
    assert_eq!(placements.len(), 1);
    assert_eq!(placements[0].hall, Hall::HallOne, "hall in history is avoided");
    assert_eq!(placements[0].tier, SelectionTier::GenderMatched);
}

#[test]
fn gendered_quota_respected() {
    let mut sys = RosterSystem::new();
    sys.rosters.push(roster(
        1,
        true,
        [
            gendered_quota(5, 0, 5),
            gendered_quota(5, 5, 0),
            quota(0),
            quota(0),
            quota(0),
        ],
    ));
    sys.users.push(user(10, Some("Male"), true));
    let placements = sys.activate_roster(1, 150).expect("activation succeeds");
    assert_eq!(placements.len(), 1);
    assert_eq!(placements[0].hall, Hall::HallOne, "only hall with male capacity");
    assert_eq!(placements[0].tier, SelectionTier::GenderMatched);
}

#[test]
fn activation_writes_back_current_hall() {
    let mut sys = RosterSystem::new();
    sys.rosters.push(roster(1, false, [quota(5), quota(0), quota(0), quota(0), quota(0)]));
    sys.users.push(user(10, None, true));
    sys.users.push(user(11, None, false));
    sys.activate_roster(1, 150).expect("activation succeeds");
    assert_eq!(sys.users[0].current_roster_hall, Some(Hall::MainHall));
    assert_eq!(sys.users[1].current_roster_hall, None, "inactive profile untouched");
}

#[test]
fn share_roster_requires_active() {
    let mut sys = RosterSystem::new();
    sys.rosters.push(roster(1, false, [quota(5), quota(0), quota(0), quota(0), quota(0)]));
    sys.users.push(user(10, None, true));
    sys.assignments.push(Assignment::new(10, 1, Hall::Gallery, 2025));
    match sys.share_roster(1).unwrap_err() {
        ModuleError::Error(m) => {
            assert_eq!(m, "Roster is not active, cannot share an inactive roster")
        }
        other => panic!("unexpected error: {:?}", other),
    }
    assert_eq!(sys.users[0].current_roster_hall, None);
    sys.rosters[0].is_active = true;
    sys.share_roster(1).expect("sharing an active roster succeeds");
    assert_eq!(sys.users[0].current_roster_hall, Some(Hall::Gallery));
}

#[test]
fn add_user_to_roster_appends_row_and_stamps_hall() {
    let mut sys = RosterSystem::new();
    sys.rosters.push(roster(1, false, [quota(5), quota(0), quota(0), quota(0), quota(0)]));
    sys.users.push(user(10, None, true));
    let msg = sys
        .add_user_to_roster(roster_engine::dto::AddUserToRosterRequest {
            user_id: 10,
            roster_id: 1,
            hall: Hall::Basement,
        })
        .expect("adding succeeds");
    assert_eq!(msg.message, "User added to roster successfully");
    assert_eq!(sys.assignments.len(), 1);
    assert_eq!(sys.assignments[0].user_id, 10);
    assert_eq!(sys.assignments[0].hall, Hall::Basement);
    assert_eq!(sys.assignments[0].year, 2025);
    assert_eq!(sys.users[0].current_roster_hall, Some(Hall::Basement));
}

#[test]
fn update_user_hall_moves_row_and_profile() {
    let mut sys = RosterSystem::new();
    sys.users.push(user(10, None, true));
    let a = Assignment::new(10, 1, Hall::Gallery, 2025);
    let row_id = a.id;
    sys.assignments.push(a);
    let msg = sys
        .update_user_hall(10, row_id, Hall::Outside)
        .expect("update succeeds");
    assert_eq!(msg.message, "User hall updated successfully");
    assert_eq!(sys.assignments[0].hall, Hall::Outside);
    assert_eq!(sys.users[0].current_roster_hall, Some(Hall::Outside));
}

#[test]
fn roster_crud_round_trip() {
    let mut sys = RosterSystem::new();
    let id = sys
        .create_roster(roster_engine::roster::NewRoster {
            name: "spring".to_string(),
            start_date: 10,
            end_date: 20,
            year: 2025,
            gendered: false,
            main_hall: quota(3),
            hall_one: quota(0),
            gallery: quota(0),
            basement: quota(0),
            outside: quota(0),
        })
        .expect("creation succeeds");
    {
        let stored = sys.get_roster(id).expect("stored roster is found");
        assert_eq!(stored.name, "spring");
        assert!(!stored.is_active);
        assert_eq!(stored.main_hall.total, 3);
    }
    sys.update_roster(roster_engine::roster::UpdateRosterRequest {
        id,
        name: Some("summer".to_string()),
        is_active: None,
        start_date: None,
        end_date: Some(30),
        year: None,
        gendered: None,
        main_hall: None,
        hall_one: None,
        gallery: None,
        basement: None,
        outside: None,
    })
    .expect("update succeeds");
    {
        let stored = sys.get_roster(id).expect("stored roster is found");
        assert_eq!(stored.name, "summer");
        assert_eq!(stored.end_date, 30);
        assert_eq!(stored.start_date, 10, "absent fields untouched");
    }
    sys.delete_roster(id).expect("delete succeeds");
    assert!(sys.get_roster(id).is_err());
    sys.delete_roster(id).expect("deleting an unknown roster still succeeds");
}

#[test]
fn import_roster_matches_by_name() {
    let mut sys = RosterSystem::new();
    sys.rosters.push(roster(1, false, [quota(5), quota(0), quota(0), quota(0), quota(0)]));
    let mut u = user(10, None, true);
    u.first_name = "Ada".to_string();
    u.last_name = "Lovelace".to_string();
    sys.users.push(u);
    let rows = vec![
        roster_engine::dto::CsvUserRoster {
            first_name: "Ada".to_string(),
            last_name: "Lovelace".to_string(),
            hall: Some(Hall::Gallery),
        },
        roster_engine::dto::CsvUserRoster {
            first_name: "Missing".to_string(),
            last_name: "Person".to_string(),
            hall: Some(Hall::MainHall),
        },
        roster_engine::dto::CsvUserRoster {
            first_name: "Ada".to_string(),
            last_name: "Lovelace".to_string(),
            hall: None,
        },
    ];
    sys.import_roster(1, rows).expect("import succeeds");
    assert_eq!(sys.assignments.len(), 1, "only the matched, hall-bearing row lands");
    assert_eq!(sys.assignments[0].user_id, 10);
    assert_eq!(sys.assignments[0].hall, Hall::Gallery);
    assert_eq!(sys.users[0].current_roster_hall, Some(Hall::Gallery));
}

#[test]
fn import_roster_rejects_when_nothing_matches() {
    let mut sys = RosterSystem::new();
    sys.rosters.push(roster(1, false, [quota(5), quota(0), quota(0), quota(0), quota(0)]));
    let rows = vec![roster_engine::dto::CsvUserRoster {
        first_name: "Missing".to_string(),
        last_name: "Person".to_string(),
        hall: Some(Hall::MainHall),
    }];
    match sys.import_roster(1, rows).unwrap_err() {
        ModuleError::BadRequest(m) => {
            assert_eq!(m, "could not match any user in the uploaded roster")
        }
        other => panic!("unexpected error: {:?}", other),
    }
    assert!(sys.assignments.is_empty());
}
