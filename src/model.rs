use vstd::prelude::*;

verus! {

/// A client of the tracked work.
#[derive(Clone, Debug)]
pub struct Client {
    pub id: i32,
    pub name: String,
    /// The hourly rate as decimal text, when one is set: a number's shortest
    /// decimal form, such as `12.5` or `42`.
    pub hourly_rate: Option<String>,
}

/// Settings of the signed-in user.
#[derive(Clone, Debug, Default)]
pub struct UserSettings {
    pub show_live_revenue: Option<bool>,
}

/// A project, with the client that owns it when there is one.
#[derive(Clone, Debug)]
pub struct Project {
    pub id: i32,
    pub name: String,
    pub client: Option<Client>,
}

/// One tracked interval of time. A stopped entry carries its duration.
#[derive(Clone, Debug)]
pub struct TimeEntry {
    pub id: i32,
    pub project_id: i32,
    pub project: Option<Project>,
    pub description: Option<String>,
    pub started_at: String,
    pub stopped_at: Option<String>,
    pub resumed_at: Option<String>,
    /// The computed duration in whole minutes, truncated toward zero.
    pub duration_minutes: Option<i32>,
    pub is_billable: bool,
}

impl TimeEntry {
    /// A stopped entry has a duration.
    pub open spec fn wf(&self) -> bool {
        self.stopped_at is Some ==> self.duration_minutes is Some
    }

    /// Whether the entry is still running.
    pub fn is_active(&self) -> (r: bool)
        ensures
            r == (self.stopped_at is None),
    {
        self.stopped_at.is_none()
    }
}

/// The envelope in which the backend wraps a payload.
#[derive(Clone, Debug)]
pub struct ApiResponse<T> {
    pub data: T,
}

/// The editable fields of a time entry.
#[derive(Clone, Debug)]
pub struct UpdateEntryData {
    pub project_id: i32,
    pub description: Option<String>,
    pub started_at: String,
    pub stopped_at: Option<String>,
    pub is_billable: bool,
}

} // verus!
