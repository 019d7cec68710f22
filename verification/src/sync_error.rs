//! Errors of the sync engine.

use crate::text::{concat, owned};
use vstd::prelude::*;

verus! {

/// Why a sync step failed. Failures of the HTTP client and of the local
/// store are carried as their messages.
#[derive(Debug, Clone)]
pub enum SyncError {
    NotAuthenticated,
    WorkspaceMissing,
    Auth(String),
    Db(String),
    Sqlite(String),
    LocalPref(String),
    PullNotConfigured,
    PushNotConfigured,
    Other { message: String },
}

impl SyncError {
    /// The error's message, as `Display` would print it.
    pub fn message(&self) -> (r: String)
        ensures
            r@ == match self {
                SyncError::NotAuthenticated => "not authenticated"@,
                SyncError::WorkspaceMissing => "workspace missing"@,
                SyncError::Auth(m) => "auth: "@ + m@,
                SyncError::Db(m) => "db: "@ + m@,
                SyncError::Sqlite(m) => "sqlite: "@ + m@,
                SyncError::LocalPref(m) => "local pref: "@ + m@,
                SyncError::PullNotConfigured => "pull not configured"@,
                SyncError::PushNotConfigured => "push not configured"@,
                SyncError::Other { message } => "sync: "@ + message@,
            },
    {
        match self {
            SyncError::NotAuthenticated => owned("not authenticated"),
            SyncError::WorkspaceMissing => owned("workspace missing"),
            SyncError::Auth(m) => concat("auth: ", m.as_str()),
            SyncError::Db(m) => concat("db: ", m.as_str()),
            SyncError::Sqlite(m) => concat("sqlite: ", m.as_str()),
            SyncError::LocalPref(m) => concat("local pref: ", m.as_str()),
            SyncError::PullNotConfigured => owned("pull not configured"),
            SyncError::PushNotConfigured => owned("push not configured"),
            SyncError::Other { message } => concat("sync: ", message.as_str()),
        }
    }
}

} // verus!
