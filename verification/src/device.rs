//! Registering this install in the server's `devices` table: which cached
//! id to keep, what to send, and what the server answers.

use crate::config::SupabaseConfig;
use crate::json::{as_str, get_str, lookup, members, JsonValue, JsonView, Members};
use crate::text::{opt_view, owned, str_eq};
use crate::time::{now, rfc3339_text, to_rfc3339, Timestamp};
use vstd::prelude::*;
use vstd::string::*;

verus! {

/// Device registration with the server.
pub struct DeviceRegistrationService;

/// The label of an operating system as the server knows it.
pub open spec fn spec_platform_label(os: Seq<char>) -> Seq<char> {
    if os == "windows"@ {
        "windows"@
    } else if os == "macos"@ {
        "macos"@
    } else if os == "linux"@ {
        "linux"@
    } else {
        "unknown"@
    }
}

/// The platform label of the operating system named `os` (as
/// `std::env::consts::OS` names it): `windows`, `macos`, `linux`, else
/// `unknown`.
pub fn platform_label_for(os: &str) -> (r: &'static str)
    ensures
        r@ == spec_platform_label(os@),
{
    if str_eq(os, "windows") {
        "windows"
    } else if str_eq(os, "macos") {
        "macos"
    } else if str_eq(os, "linux") {
        "linux"
    } else {
        "unknown"
    }
}

/// The members of a registration request.
pub open spec fn registration_members(user_id: Seq<char>, workspace_id: Seq<char>, label: Seq<char>, platform: Seq<char>, at: Timestamp) -> Members {
    seq![
        ("user_id"@, JsonView::Str(user_id)),
        ("workspace_id"@, JsonView::Str(workspace_id)),
        ("label"@, JsonView::Str(label)),
        ("platform"@, JsonView::Str(platform)),
        ("last_seen_at"@, JsonView::Str(rfc3339_text(at.secs, at.nanos))),
    ]
}

impl DeviceRegistrationService {
    /// The cached device id worth keeping: a cached id that is not empty.
    pub fn usable_cached_id(cached: Option<String>) -> (r: Option<String>)
        ensures
            opt_view(r) == match opt_view(cached) {
                Some(s) => if s.len() > 0 { Some(s) } else { None },
                None => None,
            },
    {
        match cached {
            Some(s) => if s.as_str().unicode_len() > 0 { Some(s) } else { None },
            None => None,
        }
    }

    /// The URL to register a device at, asking for its id back.
    pub fn registration_url(config: &SupabaseConfig) -> (r: String)
        ensures
            r@ == config.url@ + "/rest/v1/"@ + "devices"@ + "?select=id"@,
    {
        let mut u = config.rest_url("devices");
        u.append("?select=id");
        u
    }

    /// The registration request, seen now.
    pub fn registration_body(user_id: &str, workspace_id: &str, label: &str, platform: &str) -> (r: Vec<(String, JsonValue)>)
        ensures
            exists|at: Timestamp| #[trigger] at.in_range()
                && members(r@) == registration_members(user_id@, workspace_id@, label@, platform@, at),
    {
        let at = now();
        let r = vec![
            (owned("user_id"), JsonValue::Str(owned(user_id))),
            (owned("workspace_id"), JsonValue::Str(owned(workspace_id))),
            (owned("label"), JsonValue::Str(owned(label))),
            (owned("platform"), JsonValue::Str(owned(platform))),
            (owned("last_seen_at"), JsonValue::Str(to_rfc3339(&at))),
        ];
        assert(members(r@) =~= registration_members(user_id@, workspace_id@, label@, platform@, at));
        r
    }

    /// The URL to mark a device as seen.
    pub fn touch_url(config: &SupabaseConfig, device_id: &str) -> (r: String)
        ensures
            r@ == config.url@ + "/rest/v1/"@ + "devices"@ + "?id=eq."@ + device_id@,
    {
        let mut u = config.rest_url("devices");
        u.append("?id=eq.");
        u.append(device_id);
        u
    }

    /// The request that marks a device as seen now.
    pub fn touch_body() -> (r: Vec<(String, JsonValue)>)
        ensures
            exists|at: Timestamp| #[trigger] at.in_range()
                && members(r@) == seq![("last_seen_at"@, JsonView::Str(rfc3339_text(at.secs, at.nanos)))],
    {
        let at = now();
        let r = vec![(owned("last_seen_at"), JsonValue::Str(to_rfc3339(&at)))];
        assert(members(r@) =~= seq![("last_seen_at"@, JsonView::Str(rfc3339_text(at.secs, at.nanos)))]);
        r
    }

    /// The id of the registered device in the server's answer: the rows must
    /// each carry a string `id` (else the answer is refused); the first row's
    /// id, if any row came back.
    pub fn registered_id(rows: &Vec<Vec<(String, JsonValue)>>) -> (r: Result<Option<String>, ()>)
        ensures
            (forall|i: int| 0 <= i < rows@.len() ==> as_str(lookup(members(#[trigger] rows@[i]@), "id"@)) is Some) ==>
                match r {
                    Ok(Some(s)) => rows@.len() > 0 && as_str(lookup(members(rows@[0]@), "id"@)) == Some(s@),
                    Ok(None) => rows@.len() == 0,
                    Err(_) => false,
                },
            !(forall|i: int| 0 <= i < rows@.len() ==> as_str(lookup(members(#[trigger] rows@[i]@), "id"@)) is Some) ==> r is Err,
    {
        let mut first: Option<String> = None;
        let mut i: usize = 0;
        while i < rows.len()
            invariant
                i <= rows@.len(),
                forall|j: int| 0 <= j < i ==> as_str(lookup(members(#[trigger] rows@[j]@), "id"@)) is Some,
                i == 0 ==> first is None,
                i > 0 ==> (first matches Some(s) && as_str(lookup(members(rows@[0]@), "id"@)) == Some(s@)),
            decreases rows.len() - i,
        {
            match get_str(&rows[i], "id") {
                Some(s) => {
                    if i == 0 {
                        first = Some(s);
                    }
                },
                None => return Err(()),
            }
            i = i + 1;
        }
        Ok(first)
    }
}

/// The query for the user's first workspace, oldest first.
pub fn workspace_query(user_id: &str) -> (r: String)
    ensures
        r@ == "?select=id&owner_id=eq."@ + user_id@ + "&order=created_at.asc&limit=1"@,
{
    let mut q = owned("?select=id&owner_id=eq.");
    q.append(user_id);
    q.append("&order=created_at.asc&limit=1");
    q
}

/// The workspace id in the server's answer: the string `id` of the first row,
/// if there is one.
pub fn first_workspace_id(rows: &Vec<Vec<(String, JsonValue)>>) -> (r: Option<String>)
    ensures
        opt_view(r) == if rows@.len() > 0 { as_str(lookup(members(rows@[0]@), "id"@)) } else { None },
{
    if rows.len() == 0 {
        return None;
    }
    get_str(&rows[0], "id")
}

} // verus!
