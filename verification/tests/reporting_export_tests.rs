use roster_engine::capacity::HallQuota;
use roster_engine::engine::RosterSystem;
use roster_engine::halls::Hall;
use roster_engine::history::Assignment;
use roster_engine::roster::RosterDefinition;
use roster_engine::users::{Role, User};

fn quota(total: i32) -> HallQuota {
    HallQuota { total, male: None, female: None }
}

fn roster(id: u128) -> RosterDefinition {
    RosterDefinition {
        id,
        name: format!("roster {}", id),
        is_active: false,
        start_date: 100,
        end_date: 200,
        year: 2025,
        gendered: false,
        main_hall: quota(4),
        hall_one: quota(0),
        gallery: quota(0),
        basement: quota(0),
        outside: quota(0),
        created_at: 0,
    }
}

fn user(id: u128, first: &str, last: &str, gender: Option<&str>) -> User {
    User {
        id,
        username: None,
        reg_no: format!("REG{}", id),
        first_name: first.to_string(),
        last_name: last.to_string(),
        email: format!("u{}@example.org", id),
        password: "p".to_string(),
        dob: None,
        avatar_url: None,
        created_at: 0,
        updated_at: 0,
        year_joined: "2024".to_string(),
        current_roster_hall: None,
        current_roster_allocation: None,
        role: Role::User,
        last_seen: None,
        device_id: None,
        is_active: true,
        gender: gender.map(|g| g.to_string()),
        address: None,
        city: None,
        state: None,
        country: None,
        phone: None,
        hall_derivation: 0,
    }
}

fn sample_system() -> RosterSystem {
    let mut sys = RosterSystem::new();
    sys.rosters.push(roster(1));
    sys.users.push(user(10, "Ada", "Lovelace", Some("female")));
    sys.users.push(user(11, "Alan", "Turing", Some("MALE")));
    sys.users.push(user(12, "Grace", "Hopper", None));
    sys.assignments.push(Assignment::new(10, 1, Hall::MainHall, 2025));
    sys.assignments.push(Assignment::new(11, 1, Hall::MainHall, 2025));
    sys.assignments.push(Assignment::new(12, 1, Hall::Gallery, 2025));
    sys.assignments.push(Assignment::new(99, 1, Hall::MainHall, 2025)); // orphan row
    sys.assignments.push(Assignment::new(10, 2, Hall::Basement, 2025)); // other roster
    sys
}

#[test]
fn view_roster_assignments_joins_profiles() {
    let sys = sample_system();
    let rows = sys.view_roster_assignments(1);
    assert_eq!(rows.len(), 3, "orphan and other-roster rows are dropped");
    assert_eq!(rows[0].first_name, "Ada");
    assert_eq!(rows[0].reg_no, "REG10");
    assert_eq!(rows[0].hall, Hall::MainHall);
    assert_eq!(rows[1].gender.as_deref(), Some("MALE"));
    assert_eq!(rows[2].hall, Hall::Gallery);
}

#[test]
fn user_history_joins_rosters() {
    let mut sys = sample_system();
    let mut other = roster(2);
    other.name = "second".to_string();
    other.is_active = true;
    sys.rosters.push(other);
    let history = sys.get_user_roster_history(10);
    assert_eq!(history.len(), 2);
    assert_eq!(history[0].roster_name, "roster 1");
    assert_eq!(history[0].hall, Hall::MainHall);
    assert_eq!(history[0].year, 2025);
    assert!(!history[0].is_active);
    assert_eq!(history[1].roster_name, "second");
    assert_eq!(history[1].hall, Hall::Basement);
    assert!(history[1].is_active);
}

#[test]
fn hall_stats_count_and_percentages() {
    let sys = sample_system();
    let stats = sys.get_roster_stats_for_hall(1, Hall::MainHall).expect("roster exists");
    assert_eq!(stats.hall, Hall::MainHall);
    assert_eq!(stats.total_expected, 4);
    assert_eq!(stats.total_assigned, 2, "only joined rows count, as an inner join");
    assert_eq!(stats.total_unassigned, 2);
    assert_eq!(stats.percentage_assigned, 50);
    assert_eq!(stats.percentage_unassigned, 50);
    assert_eq!(stats.number_of_male, 1);
    assert_eq!(stats.number_of_female, 1);
}

#[test]
fn stats_per_hall_covers_every_hall() {
    let sys = sample_system();
    let stats = sys.get_roster_stats_per_hall(1).expect("roster exists");
    assert_eq!(stats.len(), 5);
    assert_eq!(stats[0].hall, Hall::MainHall);
    assert_eq!(stats[2].hall, Hall::Gallery);
    assert_eq!(stats[2].total_assigned, 1);
    assert_eq!(stats[2].total_expected, 0);
    assert_eq!(stats[2].percentage_assigned, 0, "a zero quota reports zero percent");
    assert!(sys.get_roster_stats_per_hall(42).is_err());
}

#[test]
fn export_produces_exact_csv() {
    let mut sys = RosterSystem::new();
    sys.rosters.push(roster(1));
    sys.users.push(user(10, "Ada", "Lovelace", None));
    sys.assignments.push(Assignment::new(10, 1, Hall::MainHall, 2025));
    let bytes = sys.export_roster(1).expect("export succeeds");
    let text = String::from_utf8(bytes).expect("valid text");
    assert_eq!(text, "S/N,Reg No,Full Name,Hall\n1,REG10,Ada Lovelace,MainHall\n");
}

#[test]
fn export_quotes_fields_that_need_it() {
    let mut sys = RosterSystem::new();
    sys.rosters.push(roster(1));
    sys.users.push(user(10, "Ada", "Lovelace, the First", None));
    sys.assignments.push(Assignment::new(10, 1, Hall::Gallery, 2025));
    let bytes = sys
        .export_roster_by_hall(1, Hall::Gallery)
        .expect("export succeeds");
    let text = String::from_utf8(bytes).expect("valid text");
    assert_eq!(
        text,
        "S/N,Reg No,Full Name,Hall\n1,REG10,\"Ada Lovelace, the First\",Gallery\n"
    );
}

#[test]
fn export_unknown_roster_rejected() {
    let sys = RosterSystem::new();
    assert!(sys.export_roster(9).is_err());
}
