//! Calendar data types and the portable calendar entry points.
//!
//! The native calendar binding exists only on macOS; on every other platform
//! the entry points report that the integration is unavailable.

use vstd::prelude::*;

verus! {

/// A calendar known to the system calendar store.
#[derive(Debug)]
pub struct Calendar {
    pub id: String,
    pub title: String,
    pub color: String,
    pub source: String,
}

/// One event of a system calendar.
#[derive(Debug)]
pub struct CalendarEvent {
    pub id: String,
    pub title: String,
    pub start_date: String,
    pub end_date: String,
    pub is_all_day: bool,
    pub location: Option<String>,
    pub notes: Option<String>,
    pub url: Option<String>,
    pub attendees: Vec<String>,
    pub calendar_id: String,
}

/// Authorization state of the calendar store.
#[derive(Debug)]
pub enum PermissionStatus {
    NotDetermined,
    Restricted,
    Denied,
    Authorized,
}

/// List the system calendars. Without the native macOS binding this
/// always reports that the integration is unavailable.
pub fn get_calendar_list() -> (r: Result<Vec<Calendar>, String>)
    ensures
        r matches Err(m) && m@ == "Calendar integration is only available on macOS"@,
{
    Err(String::from_str("Calendar integration is only available on macOS"))
}

/// List the events of the given calendars on a date. Without the native
/// macOS binding this always reports that the integration is unavailable.
pub fn get_events_for_date(_calendar_ids: Vec<String>, _date: String) -> (r: Result<
    Vec<CalendarEvent>,
    String,
>)
    ensures
        r matches Err(m) && m@ == "Calendar integration is only available on macOS"@,
{
    Err(String::from_str("Calendar integration is only available on macOS"))
}

} // verus!
