use roster_engine::dto::{
    default_page, default_page_size, Message, PaginatedResult, Pagination, PaginationWithContext,
};
use roster_engine::errors::{ErrorMessage, ModuleError};
use roster_engine::logs::{ActivityLog, ActivityType};
use roster_engine::mailer::{Config, Email, MailerEvent, Receiptent};
use roster_engine::users::{Role, User};

#[test]
fn pagination_offset() {
    let p = Pagination { page: 1, size: 10 };
    assert_eq!(p.offset(), 0);
    let p = Pagination { page: 4, size: 25 };
    assert_eq!(p.offset(), 75);
}

#[test]
fn pagination_defaults() {
    assert_eq!(default_page(), 1);
    assert_eq!(default_page_size(), 10);
}

#[test]
fn paginated_result_rounds_pages_up() {
    let r: PaginatedResult<u32> =
        PaginatedResult::new(vec![1, 2, 3], 21, Pagination { page: 2, size: 10 });
    assert_eq!(r.metadata.num_pages, 3);
    assert_eq!(r.metadata.page, 2);
    assert_eq!(r.metadata.size, 10);
    assert_eq!(r.metadata.total_items, 21);
    let r: PaginatedResult<u32> =
        PaginatedResult::new(vec![], 20, Pagination { page: 1, size: 10 });
    assert_eq!(r.metadata.num_pages, 2);
    let r: PaginatedResult<u32> = PaginatedResult::new(vec![], 0, Pagination { page: 1, size: 10 });
    assert_eq!(r.metadata.num_pages, 0);
}

#[test]
fn pagination_with_context_drops_context() {
    let p = PaginationWithContext {
        page: 3,
        size: 7,
        search: None,
        filter: None,
        context: "extra".to_string(),
    };
    let bare = p.to_pagination();
    assert_eq!(bare.page, 3);
    assert_eq!(bare.size, 7);
}

#[test]
fn message_wraps_payload() {
    let m: Message<u32> = Message::new("done", Some(5));
    assert_eq!(m.message, "done");
    assert_eq!(m.data, Some(5));
}

#[test]
fn error_message_build_and_status_codes() {
    let m = ErrorMessage::default().build("broken".to_string(), 500);
    assert_eq!(m.message, "broken");
    assert_eq!(m.status_code, 500);
    assert_eq!(ModuleError::InvalidToken.status_code(), 401);
    assert_eq!(ModuleError::AuthError.status_code(), 401);
    assert_eq!(ModuleError::PermissionDenied.status_code(), 403);
    assert_eq!(ModuleError::InternalError("x".to_string()).status_code(), 500);
    assert_eq!(ModuleError::BadRequest("x".to_string()).status_code(), 400);
    assert_eq!(ModuleError::Error("x".to_string()).status_code(), 400);
    assert_eq!(ModuleError::ItemNotFound.status_code(), 400);
    assert_eq!(ModuleError::ResourceNotFound("x".to_string()).status_code(), 404);
}

#[test]
fn mailer_event_names() {
    let e = MailerEvent::SendWelcomeEmail { name: "A".to_string(), to: "a@b.c".to_string() };
    assert_eq!(e.name(), "SendWelcomeEmail");
    let e = MailerEvent::SendOtp {
        name: "A".to_string(),
        to: "a@b.c".to_string(),
        otp: "123".to_string(),
    };
    assert_eq!(e.name(), "SendOtp");
}

#[test]
fn email_sender_line() {
    let config = Config {
        smtp_host: "smtp.example.org".to_string(),
        smtp_port: 2525,
        smtp_user: "user".to_string(),
        smtp_pass: "SECRET-REDACTED".to_string(),
        smtp_from: "admin@example.org".to_string(),
        smtp_to: "all@example.org".to_string(),
    };
    let mail = Email::new(
        Receiptent { name: "A".to_string(), email: "a@b.c".to_string() },
        config,
    );
    assert_eq!(mail.from, "Admin <admin@example.org>");
    assert_eq!(mail.to.name, "A");
}

#[test]
fn activity_log_builder_and_messages() {
    let log = ActivityLog::new(ActivityType::RosterActivated, 7)
        .set_target_id(9)
        .set_target_type("Roster".to_string())
        .finish();
    assert_eq!(log.user_id, 7);
    assert_eq!(log.target_id, Some(9));
    assert_eq!(log.target_type.as_deref(), Some("Roster"));
    assert_eq!(ActivityType::RosterActivated.message(), "Activated a roster.");
    assert_eq!(
        ActivityType::UserHallUpdated.message(),
        "Updated a user's hall assignment."
    );
}

#[test]
fn set_reg_no_pads_serial() {
    let mut u = User {
        id: 1,
        username: None,
        reg_no: String::new(),
        first_name: "A".to_string(),
        last_name: "B".to_string(),
        email: "a@b.c".to_string(),
        password: "p".to_string(),
        dob: None,
        avatar_url: None,
        created_at: 0,
        updated_at: 0,
        year_joined: "2024".to_string(),
        current_roster_hall: None,
        current_roster_allocation: None,
        role: Role::User,
        last_seen: None,
        device_id: None,
        is_active: true,
        gender: None,
        address: None,
        city: None,
        state: None,
        country: None,
        phone: None,
        hall_derivation: 0,
    };
    u.set_reg_no(7);
    assert_eq!(u.reg_no, "2024/KUD/007");
    u.set_reg_no(1234);
    assert_eq!(u.reg_no, "2024/KUD/1234");
}
