//! What the desktop shell reports to its window: health, where the shared
//! contracts live, and how sign-in starts.

use crate::session::Session;
use vstd::prelude::*;

verus! {

/// The shell's health.
#[derive(Debug, Clone)]
pub struct HealthResponse {
    pub ok: bool,
    pub schema_version: i32,
    pub contracts_present: bool,
    pub supabase_configured: bool,
    pub signed_in: bool,
}

/// Where the shared contracts and the store live.
#[derive(Debug, Clone)]
pub struct ContractsInfo {
    pub vendor_root: String,
    pub contracts_version_file: String,
    pub sync_strategy: String,
    pub data_model: String,
    pub widget_seed: String,
    pub db_path: String,
}

/// Where to send the user to sign in.
#[derive(Debug, Clone)]
pub struct AuthStartResponse {
    pub authorize_url: String,
}

/// The health report: always ok, at the store's schema version.
pub fn health(contracts_present: bool, supabase_configured: bool, signed_in: bool) -> (r: HealthResponse)
    ensures
        r.ok,
        r.schema_version == crate::store::SCHEMA_VERSION,
        r.contracts_present == contracts_present,
        r.supabase_configured == supabase_configured,
        r.signed_in == signed_in,
{
    HealthResponse { ok: true, schema_version: crate::store::SCHEMA_VERSION, contracts_present, supabase_configured, signed_in }
}

/// Whether a client is signed in at second `now_secs`: it holds a session
/// that has not expired.
pub fn is_signed_in_at(session: Option<&Session>, now_secs: i64) -> (r: bool)
    ensures
        r == (session matches Some(s) && s.expires_at > now_secs),
{
    match session {
        Some(s) => !s.is_expired_at(now_secs),
        None => false,
    }
}

} // verus!
