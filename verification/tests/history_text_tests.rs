use roster_engine::halls::Hall;
use roster_engine::history::{recent_halls, Assignment};
use roster_engine::text::{
    eq_lowercased, parse_i32_ok, strip_year, trim_spaces, u64_to_padded3, u64_to_string,
};
use roster_engine::users::CsvUser;

fn row(user_id: u128, roster_id: u128, hall: Hall, year: i32) -> Assignment {
    Assignment::new(user_id, roster_id, hall, year)
}

#[test]
fn recent_halls_filters_by_user_and_year() {
    let rows = vec![
        row(1, 10, Hall::MainHall, 2025),
        row(2, 10, Hall::Gallery, 2025),
        row(1, 11, Hall::Basement, 2024),
        row(1, 12, Hall::Outside, 2025),
    ];
    let halls = recent_halls(&rows, 1, 2025, 5);
    assert_eq!(halls, vec![Hall::MainHall, Hall::Outside]);
    assert!(recent_halls(&rows, 9, 2025, 5).is_empty());
}

#[test]
fn recent_halls_respects_limit() {
    let rows: Vec<Assignment> = (0..8).map(|i| row(1, i, Hall::MainHall, 2025)).collect();
    assert_eq!(recent_halls(&rows, 1, 2025, 5).len(), 5);
    assert_eq!(recent_halls(&rows, 1, 2025, 0).len(), 0);
}

#[test]
fn decimal_formatting() {
    assert_eq!(u64_to_string(0), "0");
    assert_eq!(u64_to_string(7), "7");
    assert_eq!(u64_to_string(10), "10");
    assert_eq!(u64_to_string(90217), "90217");
    assert_eq!(u64_to_padded3(7), "007");
    assert_eq!(u64_to_padded3(42), "042");
    assert_eq!(u64_to_padded3(345), "345");
    assert_eq!(u64_to_padded3(1345), "1345");
}

#[test]
fn strip_year_removes_all_markers() {
    assert_eq!(strip_year("Year 2023"), "2023");
    assert_eq!(strip_year("Year Year 5"), "5");
    assert_eq!(strip_year("2024"), "2024");
    assert_eq!(strip_year("aYear b"), "ab");
}

#[test]
fn trim_spaces_both_ends() {
    assert_eq!(trim_spaces("  2024 \t"), "2024");
    assert_eq!(trim_spaces("x"), "x");
    assert_eq!(trim_spaces("   "), "");
}

#[test]
fn parse_i32_ok_accepts_integers_in_range() {
    assert!(parse_i32_ok("2024"));
    assert!(parse_i32_ok("+17"));
    assert!(parse_i32_ok("-2147483648"));
    assert!(parse_i32_ok("2147483647"));
    assert!(!parse_i32_ok("2147483648"));
    assert!(!parse_i32_ok(""));
    assert!(!parse_i32_ok("-"));
    assert!(!parse_i32_ok("12a"));
    assert!(!parse_i32_ok("99999999999999999999"));
}

#[test]
fn eq_lowercased_folds_ascii_case() {
    assert!(eq_lowercased("MALE", "male"));
    assert!(eq_lowercased("male", "male"));
    assert!(!eq_lowercased("malx", "male"));
    assert!(!eq_lowercased("mal", "male"));
}

fn csv_user(year_joined: &str) -> CsvUser {
    CsvUser {
        timestamp: String::new(),
        first_name: "A".to_string(),
        last_name: "B".to_string(),
        email: "a@b.c".to_string(),
        username: "ab".to_string(),
        dob: "01/02/03".to_string(),
        year_joined: year_joined.to_string(),
        gender: "male".to_string(),
        phone: "1".to_string(),
    }
}

#[test]
fn validate_keeps_numeric_years() {
    let mut u = csv_user("Year 2023");
    u.validate();
    assert_eq!(u.year_joined, "2023");
    let mut u = csv_user(" 2024 ");
    u.validate();
    assert_eq!(u.year_joined, "2024");
}

#[test]
fn validate_falls_back_on_nonsense() {
    let mut u = csv_user("Year abc");
    u.validate();
    assert_eq!(u.year_joined, "2025");
    let mut u = csv_user("");
    u.validate();
    assert_eq!(u.year_joined, "2025");
}
