use vstd::prelude::*;

verus! {

/// Payload for creating a calendar event.
#[derive(Debug)]
pub struct CreateEventRequest {
    pub title: String,
    pub description: String,
    pub start_date: String,
    pub end_date: String,
    pub color: String,
}

/// Payload for replacing the fields of an existing calendar event.
#[derive(Debug)]
pub struct UpdateEventRequest {
    pub id: i32,
    pub title: String,
    pub description: String,
    pub start_date: String,
    pub end_date: String,
    pub color: String,
}

/// A stored calendar event as handed back to the user interface.
#[derive(Debug)]
pub struct EventResponse {
    pub id: i32,
    pub title: String,
    pub description: String,
    pub start_date: String,
    pub end_date: String,
    pub color: String,
    pub created_at: String,
    pub updated_at: String,
}

/// A half-open request for the events between two dates.
#[derive(Debug)]
pub struct DateRangeRequest {
    pub start_date: String,
    pub end_date: String,
}

/// A request for the events of a single date.
#[derive(Debug)]
pub struct DateRequest {
    pub date: String,
}

/// A request for the events of a single month.
#[derive(Debug)]
pub struct MonthRequest {
    pub year: i32,
    pub month: u32,
}

/// A free-text search over event titles and descriptions.
#[derive(Debug)]
pub struct SearchRequest {
    pub query: String,
}

/// A request bounded to at most `limit` events.
#[derive(Debug)]
pub struct LimitRequest {
    pub limit: i64,
}

/// Combined filter criteria for listing events.
#[derive(Debug)]
pub struct FilterRequest {
    pub start_date: Option<String>,
    pub end_date: Option<String>,
    pub search_query: Option<String>,
    pub limit: Option<i64>,
    pub offset: Option<i64>,
}

} // verus!
