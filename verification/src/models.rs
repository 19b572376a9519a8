use vstd::prelude::*;

verus! {

/// Payload for creating a shortcut record: the path it points at.
#[derive(Debug)]
pub struct ShortcutCreate {
    pub path: String,
}

/// A stored shortcut record as handed back to the user interface.
#[derive(Debug)]
pub struct ShortcutResponse {
    pub id: i32,
    pub path: String,
}

/// Payload for creating a todo record; everything but the title is optional.
#[derive(Debug)]
pub struct TodoCreate {
    pub title: String,
    pub description: Option<String>,
    pub start_date: Option<String>,
    pub end_date: Option<String>,
    pub color: Option<String>,
    pub status: Option<String>,
}

/// Partial update of a todo record: only the fields that are present change.
#[derive(Debug)]
pub struct TodoUpdate {
    pub title: Option<String>,
    pub description: Option<String>,
    pub start_date: Option<String>,
    pub end_date: Option<String>,
    pub color: Option<String>,
    pub status: Option<String>,
}

impl Default for TodoUpdate {
    /// The empty update: every field absent, so nothing would change.
    fn default() -> (r: TodoUpdate)
        ensures
            r.title is None,
            r.description is None,
            r.start_date is None,
            r.end_date is None,
            r.color is None,
            r.status is None,
    {
        TodoUpdate {
            title: None,
            description: None,
            start_date: None,
            end_date: None,
            color: None,
            status: None,
        }
    }
}

/// A stored todo record as handed back to the user interface.
#[derive(Debug)]
pub struct TodoResponse {
    pub id: i32,
    pub title: String,
    pub description: Option<String>,
    pub start_date: Option<String>,
    pub end_date: Option<String>,
    pub color: Option<String>,
    pub status: Option<String>,
}

/// Search criteria for listing todo records.
#[derive(Debug)]
pub struct TodoFilter {
    pub start_date: Option<String>,
    pub end_date: Option<String>,
    pub search_query: Option<String>,
    pub limit: Option<u64>,
    pub offset: Option<u64>,
}

} // verus!
