//! Plain request and response shapes the surrounding service exchanges
//! with its callers.

use vstd::prelude::*;

use crate::halls::Hall;

verus! {

/// A response wrapper: a human message and an optional payload.
#[derive(Debug, Clone)]
pub struct Message<T> {
    pub message: String,
    pub data: Option<T>,
}

impl<T> Message<T> {
    /// Wrap a message and an optional payload.
    pub fn new(message: &str, data: Option<T>) -> (r: Message<T>)
        ensures
            r.message@ == message@,
            r.data == data,
    {
        Message { message: message.to_owned(), data }
    }
}

/// The page requested when none is named.
pub fn default_page() -> (r: i32)
    ensures
        r == 1,
{
    1
}

/// The page size used when none is named.
pub fn default_page_size() -> (r: i32)
    ensures
        r == 10,
{
    10
}

/// A page request: which page, and how many items per page.
#[derive(Debug, Clone, Copy)]
pub struct Pagination {
    pub page: i32,
    pub size: i32,
}

impl Pagination {
    /// How many items precede the requested page.
    pub fn offset(&self) -> (r: i32)
        requires
            i32::MIN <= (self.page - 1) * self.size <= i32::MAX,
        ensures
            r == (self.page - 1) * self.size,
    {
        ((self.page as i64 - 1) * (self.size as i64)) as i32
    }
}

/// Facts about one returned page.
#[derive(Debug, Clone, Copy)]
pub struct Metadata {
    pub page: i32,
    pub size: i32,
    pub total_items: i32,
    pub num_pages: i32,
}

/// One page of items together with its metadata.
#[derive(Debug, Clone)]
pub struct PaginatedResult<T> {
    pub items: Vec<T>,
    pub metadata: Metadata,
}

impl<T> PaginatedResult<T> {
    /// Wrap one page of items. The page count is the total rounded up to
    /// whole pages.
    pub fn new(items: Vec<T>, total_items: i32, pagination: Pagination) -> (r: PaginatedResult<T>)
        requires
            0 < pagination.size,
            0 <= total_items,
            total_items + pagination.size - 1 <= i32::MAX,
        ensures
            r.items == items,
            r.metadata.page == pagination.page,
            r.metadata.size == pagination.size,
            r.metadata.total_items == total_items,
            r.metadata.num_pages == (total_items + pagination.size - 1) / pagination.size as int,
    {
        let metadata = Metadata {
            page: pagination.page,
            size: pagination.size,
            total_items,
            num_pages: (total_items - 1 + pagination.size) / pagination.size,
        };
        PaginatedResult { items, metadata }
    }
}

/// A filtered page request for task-like listings.
#[derive(Debug, Clone)]
pub struct TaskFilterQuery {
    pub page: i32,
    pub size: i32,
    pub search: Option<String>,
    pub todo: Option<bool>,
    pub done: Option<bool>,
    pub doing: Option<bool>,
    pub assigned: Option<bool>,
    pub unassigned: Option<bool>,
}

/// A page request carrying an extra caller-defined context value.
#[derive(Debug, Clone)]
pub struct PaginationWithContext<T> {
    pub page: i32,
    pub size: i32,
    pub search: Option<String>,
    pub filter: Option<String>,
    pub context: T,
}

impl<T> PaginationWithContext<T> {
    /// The bare page request, with the context dropped.
    pub fn to_pagination(&self) -> (r: Pagination)
        ensures
            r.page == self.page,
            r.size == self.size,
    {
        Pagination { page: self.page, size: self.size }
    }
}

/// One row of a roster's assignment listing, joined with profile facts.
#[derive(Debug, Clone)]
pub struct RosterAssignmentDto {
    pub id: u128,
    pub user_id: u128,
    pub first_name: String,
    pub last_name: String,
    pub gender: Option<String>,
    pub reg_no: String,
    pub hall: Hall,
}

/// One uploaded roster row naming a person and, optionally, a hall.
#[derive(Debug, Clone)]
pub struct CsvUserRoster {
    pub first_name: String,
    pub last_name: String,
    pub hall: Option<Hall>,
}

/// A request to move one person's assignment to another hall.
#[derive(Debug, Clone, Copy)]
pub struct UpdateUserHallRequest {
    pub user_id: u128,
    pub user_roster_id: u128,
    pub hall: Hall,
}

/// A request to add one person to a roster in a named hall.
#[derive(Debug, Clone, Copy)]
pub struct AddUserToRosterRequest {
    pub user_id: u128,
    pub roster_id: u128,
    pub hall: Hall,
}

/// One row of a person's assignment history, joined with roster facts.
#[derive(Debug, Clone)]
pub struct UserRosterHistoryDto {
    pub id: u128,
    pub roster_id: u128,
    pub roster_name: String,
    pub hall: Hall,
    pub year: i32,
    pub start_date: i32,
    pub end_date: i32,
    pub is_active: bool,
    pub assigned_at: i64,
}

/// A login request.
#[derive(Debug, Clone)]
pub struct LoginPayload {
    pub user: String,
    pub password: String,
}

/// The token pair an OAuth exchange yields.
#[derive(Debug, Clone)]
pub struct OAuthResponse {
    pub access_token: String,
    pub id_token: String,
}

/// The profile facts the OAuth provider reports.
#[derive(Debug, Clone)]
pub struct GoogleUserResult {
    pub id: String,
    pub email: String,
    pub verified_email: bool,
    pub name: String,
    pub given_name: String,
    pub family_name: String,
    pub picture: String,
    pub locale: String,
}

/// Where a request came from.
#[derive(Debug, Clone)]
pub struct ConnectionInfo {
    pub ip: String,
    pub user_agent: String,
}

} // verus!
