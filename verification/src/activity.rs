//! Entries of the activity log that the dashboard shows.
use vstd::prelude::*;
use crate::clock;
use crate::ids;
use crate::text;

verus! {

/// One line of the activity log.
#[derive(Debug, Clone)]
pub struct ActivityEntry {
    pub id: String,
    pub at: String,
    pub kind: String,
    pub title: String,
    pub detail: String,
    /// Dashboard route, e.g. `/commands`.
    pub path: String,
    pub entity_id: Option<String>,
}

/// A new log entry, stamped with a fresh id and the current time.
pub fn new_entry(kind: &str, title: String, detail: String, path: &str, entity_id: Option<String>) -> (r: ActivityEntry)
    ensures
        ids::is_uuid_text(r.id@),
        r.kind@ == kind@,
        r.title == title,
        r.detail == detail,
        r.path@ == path@,
        r.entity_id == entity_id,
{
    ActivityEntry {
        id: ids::new_id(),
        at: clock::now_rfc3339(),
        kind: text::own(kind),
        title,
        detail,
        path: text::own(path),
        entity_id,
    }
}

} // verus!
