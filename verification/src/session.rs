//! The signed-in session, and the workspace it works in.

use crate::text::opt_view;
use crate::time::now;
use vstd::prelude::*;

verus! {

/// A Supabase session.
#[derive(Debug, Clone)]
pub struct Session {
    pub access_token: String,
    pub refresh_token: String,
    pub expires_at: i64,
    pub user_id: String,
    pub email: Option<String>,
}

impl Session {
    /// The session a token exchange grants at second `now_secs` (UNIX time):
    /// its tokens and user, expiring `expires_in` seconds later.
    pub fn from_token(access_token: String, refresh_token: String, expires_in: i64, user_id: String,
        email: Option<String>, now_secs: i64) -> (r: Session)
        requires
            i64::MIN <= now_secs + expires_in <= i64::MAX,
        ensures
            r.access_token == access_token,
            r.refresh_token == refresh_token,
            r.expires_at == now_secs + expires_in,
            r.user_id == user_id,
            r.email == email,
    {
        Session { access_token, refresh_token, expires_at: now_secs + expires_in, user_id, email }
    }

    /// Whether the session has expired at second `now_secs` (UNIX time): it
    /// expires at `expires_at`.
    pub fn is_expired_at(&self, now_secs: i64) -> (r: bool)
        ensures
            r == (self.expires_at <= now_secs),
    {
        self.expires_at <= now_secs
    }

    /// Whether the session has expired now.
    pub fn is_expired(&self) -> (r: bool)
        ensures
            exists|t: crate::time::Timestamp| #[trigger] t.in_range() && r == (self.expires_at <= t.secs),
    {
        let t = now();
        self.is_expired_at(t.secs)
    }
}

/// The workspace the signed-in user works in, once known.
#[derive(Debug)]
pub struct WorkspaceContext {
    pub workspace_id: Option<String>,
}

impl WorkspaceContext {
    /// No workspace yet.
    pub fn new() -> (r: WorkspaceContext)
        ensures
            r.workspace_id is None,
    {
        WorkspaceContext { workspace_id: None }
    }

    /// The workspace, if known.
    pub fn workspace_id(&self) -> (r: Option<&str>)
        ensures
            match r {
                Some(s) => opt_view(self.workspace_id) == Some(s@),
                None => self.workspace_id is None,
            },
    {
        match &self.workspace_id {
            Some(s) => Some(s.as_str()),
            None => None,
        }
    }

    /// Forgets the workspace.
    pub fn clear(&mut self)
        ensures
            final(self).workspace_id is None,
    {
        self.workspace_id = None;
    }

    /// Sets the workspace (or forgets it).
    pub fn set_workspace_id(&mut self, id: Option<String>)
        ensures
            final(self).workspace_id == id,
    {
        self.workspace_id = id;
    }
}

impl Default for WorkspaceContext {
    fn default() -> (r: WorkspaceContext)
        ensures
            r.workspace_id is None,
    {
        WorkspaceContext::new()
    }
}

/// What the app reports of the session.
#[derive(Debug, Clone)]
pub struct SessionInfo {
    pub signed_in: bool,
    pub user_id: Option<String>,
    pub email: Option<String>,
    pub workspace_id: Option<String>,
}

/// The session report at second `now_secs`: signed in while the session has
/// not expired; the user and email of the session, if any; the workspace.
pub fn session_info_at(session: Option<&Session>, workspace: &WorkspaceContext, now_secs: i64) -> (r: SessionInfo)
    ensures
        r.signed_in == (session matches Some(s) && s.expires_at > now_secs),
        opt_view(r.user_id) == match session {
            Some(s) => Some(s.user_id@),
            None => None,
        },
        opt_view(r.email) == match session {
            Some(s) => opt_view(s.email),
            None => None,
        },
        opt_view(r.workspace_id) == opt_view(workspace.workspace_id),
{
    SessionInfo {
        signed_in: match session {
            Some(s) => !s.is_expired_at(now_secs),
            None => false,
        },
        user_id: match session {
            Some(s) => Some(s.user_id.clone()),
            None => None,
        },
        email: match session {
            Some(s) => crate::text::clone_opt(&s.email),
            None => None,
        },
        workspace_id: crate::text::clone_opt(&workspace.workspace_id),
    }
}

/// The session report now (see `session_info_at`).
pub fn session_info_inner(session: Option<&Session>, workspace: &WorkspaceContext) -> (r: SessionInfo)
    ensures
        exists|t: crate::time::Timestamp| #[trigger] t.in_range() && r.signed_in == (session matches Some(s) && s.expires_at > t.secs),
        opt_view(r.user_id) == match session {
            Some(s) => Some(s.user_id@),
            None => None,
        },
        opt_view(r.email) == match session {
            Some(s) => opt_view(s.email),
            None => None,
        },
        opt_view(r.workspace_id) == opt_view(workspace.workspace_id),
{
    let t = now();
    session_info_at(session, workspace, t.secs)
}

} // verus!
