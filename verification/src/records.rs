//! The stored records the server reads and writes: users with their daily
//! quota, and recognition results with their progress.

use vstd::prelude::*;

verus! {

/// A point in time: whole seconds since the Unix epoch and the nanoseconds
/// past that second.
#[derive(Debug, Clone, Copy, PartialEq, Eq, Structural)]
pub struct Timestamp {
    pub secs: i64,
    pub nanos: u32,
}

impl Timestamp {
    /// Nanoseconds since the Unix epoch.
    pub open spec fn nanos_since_epoch(self) -> int {
        self.secs * 1_000_000_000 + self.nanos
    }
}

/// A registered user. `max_query` is the number of requests allowed per
/// day, or negative for no limit; `remain` is what is left of it, and
/// `reset_at` is when it was last charged.
#[derive(Debug, Clone, PartialEq, Eq)]
pub struct UserRecord {
    pub id: i32,
    pub username: String,
    pub remain: i32,
    pub max_query: i32,
    pub reset_at: Timestamp,
}

/// Progress of a recognition job.
#[derive(Debug, Clone, Copy, PartialEq, Eq, Structural)]
pub enum ResultStatus {
    Running,
    Fail,
    Complete,
}

/// A recognition job, owned by a user, with the path of its output file
/// once it has one.
#[derive(Debug, Clone, PartialEq, Eq)]
pub struct ResultRecord {
    pub id: String,
    pub owner_id: i32,
    pub file_path: Option<String>,
    pub status: ResultStatus,
}

/// The record of a job just submitted: running, owned by `owner_id`, with
/// no output file yet.
pub fn new_result(id: String, owner_id: i32) -> (r: ResultRecord)
    ensures
        r.id == id,
        r.owner_id == owner_id,
        r.file_path is None,
        r.status == ResultStatus::Running,
{
    ResultRecord { id, owner_id, file_path: None, status: ResultStatus::Running }
}

} // verus!
