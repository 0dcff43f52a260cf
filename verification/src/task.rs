//! The task record of the companion task service: the data model and the
//! merge rule for partial updates. Storage and transport of the records are
//! external collaborators; timestamps are carried as whole seconds.

use vstd::prelude::*;

verus! {

/// The priority a task receives when none is given.
pub fn default_priority() -> (r: i32)
    ensures
        r == 1,
{
    1
}

/// One stored task.
pub struct Task {
    pub id: String,
    pub title: String,
    pub description: String,
    pub status: String,
    pub priority: i32,
    pub created_at: u64,
    pub updated_at: u64,
}

/// A partial update: absent fields keep their current value.
pub struct TaskUpdate {
    pub title: Option<String>,
    pub description: Option<String>,
    pub status: Option<String>,
    pub priority: Option<i32>,
}

impl Task {
    /// Merges a partial update: each given field replaces the current one,
    /// each absent field keeps its value; `updated_at` takes the given time,
    /// and `id` and `created_at` never change.
    pub fn apply_update(self, update: TaskUpdate, now: u64) -> (r: Task)
        ensures
            r.id@ == self.id@,
            r.created_at == self.created_at,
            r.updated_at == now,
            r.title@ == (match update.title {
                Some(t) => t@,
                None => self.title@,
            }),
            r.description@ == (match update.description {
                Some(d) => d@,
                None => self.description@,
            }),
            r.status@ == (match update.status {
                Some(s) => s@,
                None => self.status@,
            }),
            r.priority == (match update.priority {
                Some(p) => p,
                None => self.priority,
            }),
    {
        Task {
            id: self.id,
            title: match update.title {
                Some(t) => t,
                None => self.title,
            },
            description: match update.description {
                Some(d) => d,
                None => self.description,
            },
            status: match update.status {
                Some(s) => s,
                None => self.status,
            },
            priority: match update.priority {
                Some(p) => p,
                None => self.priority,
            },
            created_at: self.created_at,
            updated_at: now,
        }
    }
}

} // verus!
