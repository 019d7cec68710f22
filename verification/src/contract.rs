//! Record contracts shared with the mobile app: which statuses each record
//! kind allows, which payload keys it must carry, the default payload of each
//! kind, and the validation of a record against them.

use crate::json::{
    all_shallow, contains_key, has_key, lookup, json_parse, json_print, member_keys, members, object_or_empty,
    object_reads_back, reads_back_as, shallow, DocView, JsonDoc, JsonValue, JsonView, Members,
};
use crate::kinds::CoreRecordKind;
use crate::models::CoreRecord;
use crate::text::{owned, str_eq, views};
use crate::time::{now, rfc3339_text, to_rfc3339, Timestamp};
use vstd::prelude::*;

verus! {

/// Why a record violates its contract: one issue, or several.
#[derive(Debug, Clone)]
pub enum ContractError {
    Validation(String),
    ValidationList(Vec<String>),
}

/// The views of a list of string slices.
pub open spec fn str_views(v: Seq<&str>) -> Seq<Seq<char>> {
    v.map_values(|s: &str| s@)
}

/// The statuses that a record of `kind` may have.
pub open spec fn spec_allowed_statuses(kind: CoreRecordKind) -> Seq<Seq<char>> {
    match kind {
        CoreRecordKind::Capture => seq!["captured"@, "classifying"@, "offloaded"@, "classified"@, "needs_review"@, "deleted"@],
        CoreRecordKind::Task | CoreRecordKind::TimelineItem => seq!["active"@, "completed"@, "deleted"@],
        CoreRecordKind::MetricDefinition => seq!["active"@, "deleted"@],
        CoreRecordKind::MetricLog => seq!["logged"@, "deleted"@],
        CoreRecordKind::Habit => seq!["active"@, "inactive"@, "reset"@, "deleted"@],
        CoreRecordKind::CriticalSignal => seq!["active"@, "dismissed"@, "deleted"@],
        CoreRecordKind::WidgetInstance | CoreRecordKind::DashboardSnapshot | CoreRecordKind::AppSetting | CoreRecordKind::UserMemory | CoreRecordKind::AgentSessionSummary | CoreRecordKind::File | CoreRecordKind::Contact | CoreRecordKind::RepoEvent | CoreRecordKind::PaymentEvent | CoreRecordKind::FeedItem => seq!["active"@, "deleted"@],
        CoreRecordKind::AgentRun => seq!["completed"@, "needs_review"@, "failed"@, "deleted"@],
        CoreRecordKind::AgentSuggestion => seq!["pending_review"@, "materialized"@, "dismissed"@, "deleted"@],
        CoreRecordKind::ReviewFinding => seq!["open"@, "accepted"@, "dismissed"@, "deleted"@],
        CoreRecordKind::Project => seq!["active"@, "archived"@, "deleted"@],
        CoreRecordKind::Email => seq!["active"@, "archived"@, "deleted"@],
        CoreRecordKind::CalendarEvent => seq!["active"@, "cancelled"@, "deleted"@],
        CoreRecordKind::Connector => seq!["placeholder"@, "linked"@, "paused"@, "error"@, "deleted"@],
        CoreRecordKind::Outlet => seq!["placeholder"@, "linked"@, "error"@, "deleted"@],
    }
}

/// A task or a timeline item may be active, completed or deleted, in that
/// order, and nothing else; so a completed task is a valid status. Every
/// kind allows `deleted`.
pub proof fn lemma_task_statuses(kind: CoreRecordKind)
    ensures
        kind == CoreRecordKind::Task || kind == CoreRecordKind::TimelineItem
            ==> spec_allowed_statuses(kind) == seq!["active"@, "completed"@, "deleted"@],
        kind == CoreRecordKind::Task || kind == CoreRecordKind::TimelineItem
            ==> forall|s: Seq<char>| #[trigger] spec_allowed_statuses(kind).contains(s)
                <==> (s == "active"@ || s == "completed"@ || s == "deleted"@),
        spec_allowed_statuses(kind).contains("deleted"@),
{
    let sts = spec_allowed_statuses(kind);
    assert(sts[sts.len() - 1] == "deleted"@);
    if kind == CoreRecordKind::Task || kind == CoreRecordKind::TimelineItem {
        assert forall|s: Seq<char>| #[trigger] sts.contains(s)
            <==> (s == "active"@ || s == "completed"@ || s == "deleted"@) by {
            if s == "active"@ {
                assert(sts[0] == s);
            } else if s == "completed"@ {
                assert(sts[1] == s);
            } else if s == "deleted"@ {
                assert(sts[2] == s);
            }
        }
    }
}

/// The payload keys that a record of `kind` must carry.
pub open spec fn spec_expected_keys(kind: CoreRecordKind) -> Seq<Seq<char>> {
    match kind {
        CoreRecordKind::Capture => seq!["content"@, "offloadRequested"@, "classification"@],
        CoreRecordKind::Task => seq!["dueAt"@, "sourceCaptureId"@, "isCompleted"@],
        CoreRecordKind::TimelineItem => seq!["timelineType"@],
        CoreRecordKind::MetricDefinition => seq!["metricType"@, "period"@, "currentValue"@, "targetValue"@, "previousBest"@, "unit"@],
        CoreRecordKind::MetricLog => seq!["metricDefinitionId"@, "delta"@, "unit"@],
        CoreRecordKind::Habit => seq!["habitType"@, "label"@, "startDate"@, "previousBestDays"@, "isActive"@],
        CoreRecordKind::CriticalSignal => seq!["source"@, "urgency"@, "isDismissed"@],
        CoreRecordKind::WidgetInstance => seq!["widgetType"@, "posX"@, "posY"@, "width"@, "height"@, "configJson"@],
        CoreRecordKind::DashboardSnapshot => seq!["widgets"@],
        CoreRecordKind::AppSetting => seq![],
        CoreRecordKind::AgentRun => seq!["captureRecordId"@, "classification"@, "suggestionCount"@, "processor"@],
        CoreRecordKind::AgentSuggestion => seq!["captureRecordId"@, "agentRunId"@],
        CoreRecordKind::UserMemory => seq!["raw"@, "scope"@, "source"@, "supersedesId"@, "parentMemoryId"@, "topicPath"@, "nodeKind"@, "displayLabel"@, "sortOrder"@, "fileName"@, "filePath"@, "uri"@, "mimeHint"@, "linkedRecordId"@],
        CoreRecordKind::ReviewFinding => seq!["findingType"@, "message"@, "evidenceRecordIds"@, "suggestedTool"@, "status"@],
        CoreRecordKind::AgentSessionSummary => seq!["sessionId"@, "summary"@],
        CoreRecordKind::Project => seq!["description"@, "color"@, "externalRefs"@],
        CoreRecordKind::File => seq!["provider"@, "driveFileId"@, "mimeType"@, "uri"@, "modifiedAt"@, "folderPath"@],
        CoreRecordKind::Email => seq!["messageId"@, "threadId"@, "from"@, "to"@, "subject"@, "snippet"@, "receivedAt"@, "provider"@, "uri"@],
        CoreRecordKind::CalendarEvent => seq!["provider"@, "eventId"@, "startAt"@, "endAt"@, "location"@, "attendees"@, "calendarId"@],
        CoreRecordKind::Contact => seq!["provider"@, "contactId"@, "email"@, "phone"@, "displayName"@, "organization"@],
        CoreRecordKind::RepoEvent => seq!["provider"@, "eventId"@, "eventType"@, "repoFullName"@, "title"@, "state"@, "author"@, "branch"@, "conclusion"@, "uri"@, "occurredAt"@],
        CoreRecordKind::PaymentEvent => seq!["provider"@, "eventId"@, "eventType"@, "amount"@, "currency"@, "customerId"@, "uri"@, "occurredAt"@],
        CoreRecordKind::FeedItem => seq!["provider"@, "externalId"@, "feedType"@, "title"@, "summary"@, "metadata"@, "uri"@, "occurredAt"@],
        CoreRecordKind::Connector => seq!["provider"@, "accountLabel"@, "status"@, "lastSyncAt"@],
        CoreRecordKind::Outlet => seq!["provider"@, "status"@, "repoOwner"@, "repoName"@, "defaultBranch"@, "lastPushAt"@, "lastPullAt"@, "vendorAccountKey"@],
    }
}

/// The default payload members of `kind`; `now_text` is the start date of a
/// habit.
pub open spec fn spec_default_payload(kind: CoreRecordKind, now_text: Seq<char>) -> Members {
    match kind {
        CoreRecordKind::Capture => seq![("content"@, JsonView::Str(""@)), ("offloadRequested"@, JsonView::Bool(false)), ("classification"@, JsonView::Str("journal"@))],
        CoreRecordKind::Task => seq![("dueAt"@, JsonView::Null), ("sourceCaptureId"@, JsonView::Str(""@)), ("isCompleted"@, JsonView::Bool(false))],
        CoreRecordKind::TimelineItem => seq![("timelineType"@, JsonView::Str("note"@))],
        CoreRecordKind::WidgetInstance => seq![("widgetType"@, JsonView::Str(""@)), ("posX"@, JsonView::Int(0)), ("posY"@, JsonView::Int(0)), ("width"@, JsonView::Int(2)), ("height"@, JsonView::Int(2)), ("configJson"@, JsonView::Str("{}"@))],
        CoreRecordKind::Connector => seq![("provider"@, JsonView::Str("generic"@)), ("accountLabel"@, JsonView::Null), ("status"@, JsonView::Str("placeholder"@)), ("lastSyncAt"@, JsonView::Null)],
        CoreRecordKind::Habit => seq![("habitType"@, JsonView::Str("generic"@)), ("label"@, JsonView::Str(""@)), ("startDate"@, JsonView::Str(now_text)), ("previousBestDays"@, JsonView::Int(0)), ("isActive"@, JsonView::Bool(true))],
        _ => Seq::empty(),
    }
}

/// The issue reported for a status that `kind` does not allow.
pub open spec fn status_issue(status: Seq<char>, kind: CoreRecordKind) -> Seq<char> {
    "Invalid status \""@ + status + "\" for "@ + kind.wire()
}

/// The issue reported for a required payload key that is missing.
pub open spec fn missing_key_issue(key: Seq<char>, kind: CoreRecordKind) -> Seq<char> {
    "Missing required payload key \""@ + key + "\" for "@ + kind.wire()
}

/// One issue for each key of `keys`, in order, that `m` lacks.
pub open spec fn missing_key_issues(keys: Seq<Seq<char>>, m: Members, kind: CoreRecordKind) -> Seq<Seq<char>>
    decreases keys.len(),
{
    if keys.len() == 0 {
        Seq::empty()
    } else {
        let rest = missing_key_issues(keys.drop_last(), m, kind);
        if has_key(m, keys.last()) {
            rest
        } else {
            rest.push(missing_key_issue(keys.last(), kind))
        }
    }
}

/// The issues of a record that do not depend on its payload.
pub open spec fn header_issues(r: CoreRecord) -> Seq<Seq<char>> {
    (if spec_allowed_statuses(r.kind).contains(r.status@) { Seq::empty() } else { seq![status_issue(r.status@, r.kind)] })
    + (if r.schema_version < 1 { seq!["schemaVersion must be >= 1"@] } else { Seq::empty() })
    + (if r.revision < 1 { seq!["revision must be >= 1"@] } else { Seq::empty() })
}

/// Every contract issue of a record, in the order they are reported.
pub open spec fn spec_validation_issues(r: CoreRecord) -> Seq<Seq<char>> {
    header_issues(r) + match json_parse(r.payload_json@) {
        None => seq!["payload_json must be valid JSON"@],
        Some(DocView::Value(_)) => seq!["payload_json must decode to a JSON object"@],
        Some(DocView::Object(m)) => missing_key_issues(spec_expected_keys(r.kind), m, r.kind),
    }
}

/// `m` with each member of `d` added, in order, unless `m` already has a
/// member of that name (`Map::entry(..).or_insert(..)`).
pub open spec fn merge_defaults(m: Members, d: Members) -> Members
    decreases d.len(),
{
    if d.len() == 0 {
        m
    } else {
        let merged = merge_defaults(m, d.drop_last());
        if has_key(merged, d.last().0) {
            merged
        } else {
            merged.push(d.last())
        }
    }
}

/// The payload document of a record of `kind` after its defaults are merged
/// in: text that is not JSON counts as an empty object, and a document that
/// is not an object is kept as it is.
pub open spec fn merged_payload_doc(kind: CoreRecordKind, payload: Seq<char>, now_text: Seq<char>) -> DocView {
    let d = spec_default_payload(kind, now_text);
    match json_parse(payload) {
        None => DocView::Object(merge_defaults(Seq::empty(), d)),
        Some(DocView::Object(m)) => DocView::Object(merge_defaults(m, d)),
        Some(DocView::Value(v)) => DocView::Value(v),
    }
}

/// The payload text of a record of `kind` after its defaults are merged in.
pub open spec fn merged_payload_text(kind: CoreRecordKind, payload: Seq<char>, now_text: Seq<char>) -> Seq<char> {
    json_print(merged_payload_doc(kind, payload, now_text))
}

/// The kinds whose default payload carries every key the kind requires.
pub open spec fn defaults_cover_keys(kind: CoreRecordKind) -> bool {
    kind == CoreRecordKind::Capture || kind == CoreRecordKind::Task || kind == CoreRecordKind::TimelineItem
        || kind == CoreRecordKind::WidgetInstance || kind == CoreRecordKind::Connector || kind == CoreRecordKind::Habit
}

proof fn lemma_has_key_push(m: Members, x: (Seq<char>, JsonView), k: Seq<char>)
    ensures
        has_key(m.push(x), k) == (has_key(m, k) || x.0 == k),
    decreases m.len(),
{
    let p = m.push(x);
    if m.len() > 0 {
        assert(p.drop_first() =~= m.drop_first().push(x));
        assert(p[0] == m[0]);
        lemma_has_key_push(m.drop_first(), x, k);
        if m[0].0 == k {
            assert(lookup(p, k) == Some(p[0].1));
            assert(lookup(m, k) == Some(m[0].1));
        } else {
            assert(lookup(p, k) == lookup(p.drop_first(), k));
            assert(lookup(m, k) == lookup(m.drop_first(), k));
        }
    } else {
        assert(p.drop_first() =~= Seq::<(Seq<char>, JsonView)>::empty());
        assert(p[0] == x);
        assert(lookup(m, k) is None);
        assert(lookup(p.drop_first(), k) is None);
    }
}

proof fn lemma_has_key_index(m: Members, k: Seq<char>)
    ensures
        has_key(m, k) == exists|i: int| 0 <= i < m.len() && #[trigger] m[i].0 == k,
    decreases m.len(),
{
    if m.len() > 0 {
        lemma_has_key_index(m.drop_first(), k);
        if m[0].0 != k {
            if exists|i: int| 0 <= i < m.len() && #[trigger] m[i].0 == k {
                let i = choose|i: int| 0 <= i < m.len() && #[trigger] m[i].0 == k;
                assert(m.drop_first()[i - 1].0 == k);
            }
            if exists|i: int| 0 <= i < m.drop_first().len() && #[trigger] m.drop_first()[i].0 == k {
                let i = choose|i: int| 0 <= i < m.drop_first().len() && #[trigger] m.drop_first()[i].0 == k;
                assert(m[i + 1].0 == k);
            }
        } else {
            assert(m[0].0 == k);
        }
    }
}

proof fn lemma_lookup_push(m: Members, x: (Seq<char>, JsonView), k: Seq<char>)
    ensures
        lookup(m.push(x), k) == if has_key(m, k) { lookup(m, k) } else if x.0 == k { Some(x.1) } else { None },
    decreases m.len(),
{
    let p = m.push(x);
    if m.len() > 0 {
        assert(p.drop_first() =~= m.drop_first().push(x));
        assert(p[0] == m[0]);
        lemma_lookup_push(m.drop_first(), x, k);
        if m[0].0 == k {
            assert(lookup(p, k) == Some(p[0].1));
            assert(lookup(m, k) == Some(m[0].1));
        } else {
            assert(lookup(p, k) == lookup(p.drop_first(), k));
            assert(lookup(m, k) == lookup(m.drop_first(), k));
        }
    } else {
        assert(p.drop_first() =~= Seq::<(Seq<char>, JsonView)>::empty());
        assert(p[0] == x);
        assert(lookup(m, k) is None);
        assert(lookup(p.drop_first(), k) is None);
    }
}

proof fn lemma_lookup_member(m: Members, k: Seq<char>)
    ensures
        lookup(m, k) matches Some(v) ==> exists|i: int| 0 <= i < m.len() && #[trigger] m[i].1 == v,
    decreases m.len(),
{
    if m.len() > 0 && m[0].0 != k {
        lemma_lookup_member(m.drop_first(), k);
        if lookup(m, k) is Some {
            let v = lookup(m, k)->0;
            let i = choose|i: int| 0 <= i < m.drop_first().len() && #[trigger] m.drop_first()[i].1 == v;
            assert(m[i + 1].1 == v);
        }
    } else if m.len() > 0 {
        assert(m[0].1 == lookup(m, k)->0);
    }
}

/// Merging defaults keeps the value of every member and gives each added
/// name its default's value.
pub proof fn lemma_merge_lookup(m: Members, d: Members, k: Seq<char>)
    ensures
        lookup(merge_defaults(m, d), k) == if has_key(m, k) { lookup(m, k) } else { lookup(d, k) },
    decreases d.len(),
{
    if d.len() > 0 {
        let dl = d.drop_last();
        let merged = merge_defaults(m, dl);
        lemma_merge_lookup(m, dl, k);
        lemma_merge_keeps_and_adds_keys(m, dl, k);
        if !has_key(merged, d.last().0) {
            lemma_lookup_push(merged, d.last(), k);
            lemma_merge_keeps_and_adds_keys(m, dl, d.last().0);
        }
        assert(d =~= dl.push(d.last()));
        lemma_lookup_push(dl, d.last(), k);
    }
}

proof fn lemma_merge_shallow_distinct(m: Members, d: Members)
    requires
        all_shallow(m),
        all_shallow(d),
    ensures
        all_shallow(merge_defaults(m, d)),
        member_keys(m).no_duplicates() ==> member_keys(merge_defaults(m, d)).no_duplicates(),
    decreases d.len(),
{
    if d.len() > 0 {
        let dl = d.drop_last();
        assert forall|i: int| 0 <= i < dl.len() implies shallow(#[trigger] dl[i].1) by {
            assert(dl[i] == d[i]);
            assert(shallow(d[i].1));
        }
        lemma_merge_shallow_distinct(m, dl);
        let merged = merge_defaults(m, dl);
        if !has_key(merged, d.last().0) {
            let x = d.last();
            let p = merged.push(x);
            assert(shallow(d[d.len() - 1].1));
            assert forall|i: int| 0 <= i < p.len() implies shallow(#[trigger] p[i].1) by {
                if i < merged.len() {
                    assert(p[i] == merged[i]);
                    assert(shallow(merged[i].1));
                }
            }
            if member_keys(m).no_duplicates() {
                lemma_has_key_index(merged, x.0);
                let ks = member_keys(p);
                assert(ks =~= member_keys(merged).push(x.0));
                assert forall|i: int, j: int| 0 <= i < ks.len() && 0 <= j < ks.len() && i != j implies ks[i] != ks[j] by {
                    if i == p.len() - 1 {
                        assert(ks[j] == merged[j].0);
                    } else if j == p.len() - 1 {
                        assert(ks[i] == merged[i].0);
                    } else {
                        assert(ks[i] == member_keys(merged)[i]);
                        assert(ks[j] == member_keys(merged)[j]);
                    }
                }
            }
        }
    }
}

proof fn lemma_defaults_scalar(kind: CoreRecordKind, now_text: Seq<char>)
    ensures
        forall|i: int| 0 <= i < spec_default_payload(kind, now_text).len()
            ==> !(#[trigger] spec_default_payload(kind, now_text)[i].1 is Other),
{
}

/// What the payload text after merging reads back as, where the payload
/// before was an object or not JSON at all (which counts as an empty
/// object): an object whose names are those of the payload and of the
/// defaults; every value of the payload kept as it was, save one carried
/// whole that is not `kept_whole` (a float, or an array or object holding
/// one); each default the payload lacked, with its default value; and,
/// for the kinds whose defaults cover their required keys, no required key
/// missing. Owed of a payload that `serde_json` itself parsed (see
/// `all_shallow`).
pub open spec fn merged_reads_back(kind: CoreRecordKind, payload: Seq<char>, now_text: Seq<char>, out: Seq<char>) -> bool {
    let m0 = object_or_empty(payload);
    let d = spec_default_payload(kind, now_text);
    !(json_parse(payload) matches Some(DocView::Value(_))) ==> (json_parse(out) matches Some(DocView::Object(m2))
        && (forall|k: Seq<char>| #[trigger] has_key(m2, k) == (has_key(m0, k) || has_key(d, k)))
        && (forall|k: Seq<char>| #[trigger] has_key(m0, k) ==> reads_back_as(lookup(m0, k)->0, lookup(m2, k)->0))
        && (forall|k: Seq<char>| #[trigger] has_key(d, k) && !has_key(m0, k) ==> lookup(m2, k) == lookup(d, k))
        && (defaults_cover_keys(kind) ==> missing_key_issues(spec_expected_keys(kind), m2, kind).len() == 0))
}

proof fn lemma_merged_reads_back(kind: CoreRecordKind, payload: Seq<char>, now_text: Seq<char>, out: Seq<char>)
    requires
        all_shallow(object_or_empty(payload)),
        member_keys(object_or_empty(payload)).no_duplicates(),
        !(json_parse(payload) matches Some(DocView::Value(_))) ==> object_reads_back(
            merge_defaults(object_or_empty(payload), spec_default_payload(kind, now_text)), out),
    ensures
        merged_reads_back(kind, payload, now_text, out),
{
    let m0 = object_or_empty(payload);
    let d = spec_default_payload(kind, now_text);
    let merged = merge_defaults(m0, d);
    if !(json_parse(payload) matches Some(DocView::Value(_))) {
        lemma_defaults_scalar(kind, now_text);
        assert forall|i: int| 0 <= i < d.len() implies shallow(#[trigger] d[i].1) by {}
        lemma_merge_shallow_distinct(m0, d);
        let m2 = json_parse(out)->0->Object_0;
        assert forall|k: Seq<char>| #[trigger] has_key(m2, k) == (has_key(m0, k) || has_key(d, k)) by {
            lemma_merge_keeps_and_adds_keys(m0, d, k);
        }
        assert forall|k: Seq<char>| #[trigger] has_key(m0, k) implies reads_back_as(lookup(m0, k)->0, lookup(m2, k)->0) by {
            lemma_merge_keeps_and_adds_keys(m0, d, k);
            lemma_merge_lookup(m0, d, k);
            assert(has_key(merged, k));
        }
        assert forall|k: Seq<char>| #[trigger] has_key(d, k) && !has_key(m0, k) implies lookup(m2, k) == lookup(d, k) by {
            lemma_merge_keeps_and_adds_keys(m0, d, k);
            lemma_merge_lookup(m0, d, k);
            assert(has_key(merged, k));
            lemma_lookup_member(d, k);
            let i = choose|i: int| 0 <= i < d.len() && #[trigger] d[i].1 == lookup(d, k)->0;
            assert(!(d[i].1 is Other));
            assert(member_keys(merged).no_duplicates());
            assert(has_key(m2, k));
            assert(reads_back_as(lookup(merged, k)->0, lookup(m2, k)->0));
            assert(lookup(m2, k)->0 == lookup(d, k)->0);
        }
        if defaults_cover_keys(kind) {
            let keys = spec_expected_keys(kind);
            assert forall|i: int| 0 <= i < keys.len() implies has_key(m2, #[trigger] keys[i]) by {
                lemma_defaults_cover_required_keys(kind, now_text, i);
            }
            lemma_no_missing_keys(keys, m2, kind);
        }
    }
}

/// Merging defaults keeps every member name and adds every default's name.
pub proof fn lemma_merge_keeps_and_adds_keys(m: Members, d: Members, k: Seq<char>)
    ensures
        has_key(merge_defaults(m, d), k) == (has_key(m, k) || has_key(d, k)),
    decreases d.len(),
{
    if d.len() > 0 {
        lemma_merge_keeps_and_adds_keys(m, d.drop_last(), k);
        let merged = merge_defaults(m, d.drop_last());
        lemma_has_key_index(d, k);
        lemma_has_key_index(d.drop_last(), k);
        if !has_key(merged, d.last().0) {
            lemma_has_key_push(merged, d.last(), k);
        }
        if has_key(d, k) && !has_key(d.drop_last(), k) {
            let i = choose|i: int| 0 <= i < d.len() && #[trigger] d[i].0 == k;
            if i < d.len() - 1 {
                assert(d.drop_last()[i].0 == k);
            }
        }
        if has_key(d.drop_last(), k) {
            let i = choose|i: int| 0 <= i < d.drop_last().len() && #[trigger] d.drop_last()[i].0 == k;
            assert(d[i].0 == k);
        }
    }
}

/// No key is reported missing from members that have every key.
pub proof fn lemma_no_missing_keys(keys: Seq<Seq<char>>, m: Members, kind: CoreRecordKind)
    requires
        forall|i: int| 0 <= i < keys.len() ==> has_key(m, #[trigger] keys[i]),
    ensures
        missing_key_issues(keys, m, kind).len() == 0,
    decreases keys.len(),
{
    if keys.len() > 0 {
        assert(has_key(m, keys[keys.len() - 1]));
        assert forall|i: int| 0 <= i < keys.drop_last().len() implies has_key(m, #[trigger] keys.drop_last()[i]) by {
            assert(keys.drop_last()[i] == keys[i]);
        }
        lemma_no_missing_keys(keys.drop_last(), m, kind);
    }
}

/// For the kinds whose defaults cover their required keys, every required
/// key is a default key.
pub proof fn lemma_defaults_cover_required_keys(kind: CoreRecordKind, now_text: Seq<char>, i: int)
    requires
        defaults_cover_keys(kind),
        0 <= i < spec_expected_keys(kind).len(),
    ensures
        has_key(spec_default_payload(kind, now_text), spec_expected_keys(kind)[i]),
{
    let d = spec_default_payload(kind, now_text);
    let k = spec_expected_keys(kind)[i];
    lemma_has_key_index(d, k);
    assert(d[i].0 == k);
}

/// The record validation and normalization shared with the mobile app.
pub struct RecordContract;

impl RecordContract {
    /// Accepts a record with no contract issue; one issue is reported alone,
    /// several as a list.
    pub fn validate(record: &CoreRecord) -> (r: Result<(), ContractError>)
        ensures
            match r {
                Ok(()) => spec_validation_issues(*record).len() == 0,
                Err(ContractError::Validation(m)) => spec_validation_issues(*record) == seq![m@],
                Err(ContractError::ValidationList(l)) => spec_validation_issues(*record).len() > 1
                    && views(l@) == spec_validation_issues(*record),
            },
    {
        let mut issues = Self::validation_issues(record);
        let n: usize = issues.len();
        if n == 0 {
            Ok(())
        } else if n == 1 {
            let m = issues.pop().unwrap();
            proof {
                assert(views(issues@) =~= Seq::<Seq<char>>::empty());
            }
            Err(ContractError::Validation(m))
        } else {
            Err(ContractError::ValidationList(issues))
        }
    }

    /// Every contract issue of a record: a status that its kind does not
    /// allow, a schema version or revision below 1, a payload that is not
    /// JSON or not an object, and each required payload key that is missing.
    pub fn validation_issues(record: &CoreRecord) -> (r: Vec<String>)
        ensures
            views(r@) == spec_validation_issues(*record),
    {
        let mut issues: Vec<String> = Vec::new();
        if !Self::allows_status(record.kind, record.status.as_str()) {
            let mut m = owned("Invalid status \"");
            m.append(record.status.as_str());
            m.append("\" for ");
            m.append(record.kind.as_str());
            issues.push(m);
        }
        if record.schema_version < 1 {
            issues.push(owned("schemaVersion must be >= 1"));
        }
        if record.revision < 1 {
            issues.push(owned("revision must be >= 1"));
        }
        proof {
            assert(views(issues@) =~= header_issues(*record));
        }
        let fields = match record.payload() {
            None => {
                issues.push(owned("payload_json must be valid JSON"));
                proof {
                    assert(views(issues@) =~= spec_validation_issues(*record));
                }
                return issues;
            },
            Some(JsonDoc::Value(_)) => {
                issues.push(owned("payload_json must decode to a JSON object"));
                proof {
                    assert(views(issues@) =~= spec_validation_issues(*record));
                }
                return issues;
            },
            Some(JsonDoc::Object(fields)) => fields,
        };
        let ghost head = views(issues@);
        let ghost m = members(fields@);
        let required = Self::expected_payload_keys(record.kind).unwrap();
        let ghost keys = str_views(required@);
        let mut i: usize = 0;
        while i < required.len()
            invariant
                i <= required.len(),
                keys == str_views(required@),
                keys == spec_expected_keys(record.kind),
                m == members(fields@),
                views(issues@) == head + missing_key_issues(keys.take(i as int), m, record.kind),
            decreases required.len() - i,
        {
            let key = required[i];
            proof {
                assert(keys.take(i + 1).drop_last() =~= keys.take(i as int));
                assert(keys.take(i + 1).last() == key@);
            }
            let ghost before = views(issues@);
            if !contains_key(&fields, key) {
                let mut msg = owned("Missing required payload key \"");
                msg.append(key);
                msg.append("\" for ");
                msg.append(record.kind.as_str());
                issues.push(msg);
                proof {
                    assert(views(issues@) =~= before.push(missing_key_issue(key@, record.kind)));
                    assert(!has_key(m, keys.take(i + 1).last()));
                }
            } else {
                proof {
                    assert(has_key(m, keys.take(i + 1).last()));
                }
            }
            proof {
                assert(views(issues@) =~= head + missing_key_issues(keys.take(i + 1), m, record.kind));
            }
            i = i + 1;
        }
        proof {
            assert(keys.take(required.len() as int) =~= keys);
        }
        issues
    }

    /// Whether a record of `kind` may have status `status`. A task or a
    /// timeline item may be active, completed or deleted, and nothing else.
    pub fn allows_status(kind: CoreRecordKind, status: &str) -> (r: bool)
        ensures
            r == spec_allowed_statuses(kind).contains(status@),
            kind == CoreRecordKind::Task || kind == CoreRecordKind::TimelineItem
                ==> (r <==> (status@ == "active"@ || status@ == "completed"@ || status@ == "deleted"@)),
    {
        proof {
            lemma_task_statuses(kind);
        }
        let allowed = Self::allowed_status_slice(kind);
        let ghost sts = str_views(allowed@);
        let mut i: usize = 0;
        while i < allowed.len()
            invariant
                i <= allowed.len(),
                sts == str_views(allowed@),
                sts == spec_allowed_statuses(kind),
                forall|j: int| 0 <= j < i ==> sts[j] != status@,
            decreases allowed.len() - i,
        {
            if str_eq(allowed[i], status) {
                proof {
                    assert(sts[i as int] == status@);
                    assert(spec_allowed_statuses(kind).contains(status@));
                }
                return true;
            }
            i = i + 1;
        }
        false
    }

    fn allowed_status_slice(kind: CoreRecordKind) -> (r: &'static [&'static str])
        ensures
            str_views(r@) == spec_allowed_statuses(kind),
    {
        let r: &'static [&'static str] = match kind {
            CoreRecordKind::Capture => &["captured", "classifying", "offloaded", "classified", "needs_review", "deleted"],
            CoreRecordKind::Task | CoreRecordKind::TimelineItem => &["active", "completed", "deleted"],
            CoreRecordKind::MetricDefinition => &["active", "deleted"],
            CoreRecordKind::MetricLog => &["logged", "deleted"],
            CoreRecordKind::Habit => &["active", "inactive", "reset", "deleted"],
            CoreRecordKind::CriticalSignal => &["active", "dismissed", "deleted"],
            CoreRecordKind::WidgetInstance | CoreRecordKind::DashboardSnapshot | CoreRecordKind::AppSetting | CoreRecordKind::UserMemory | CoreRecordKind::AgentSessionSummary | CoreRecordKind::File | CoreRecordKind::Contact | CoreRecordKind::RepoEvent | CoreRecordKind::PaymentEvent | CoreRecordKind::FeedItem => &["active", "deleted"],
            CoreRecordKind::AgentRun => &["completed", "needs_review", "failed", "deleted"],
            CoreRecordKind::AgentSuggestion => &["pending_review", "materialized", "dismissed", "deleted"],
            CoreRecordKind::ReviewFinding => &["open", "accepted", "dismissed", "deleted"],
            CoreRecordKind::Project => &["active", "archived", "deleted"],
            CoreRecordKind::Email => &["active", "archived", "deleted"],
            CoreRecordKind::CalendarEvent => &["active", "cancelled", "deleted"],
            CoreRecordKind::Connector => &["placeholder", "linked", "paused", "error", "deleted"],
            CoreRecordKind::Outlet => &["placeholder", "linked", "error", "deleted"],
        };
        proof {
            assert(str_views(r@) =~= spec_allowed_statuses(kind));
        }
        r
    }

    /// The statuses that a record of `kind` may have; for a task or a
    /// timeline item, `active`, `completed` and `deleted`.
    pub fn allowed_statuses(kind: CoreRecordKind) -> (r: &'static [&'static str])
        ensures
            str_views(r@) == spec_allowed_statuses(kind),
            kind == CoreRecordKind::Task || kind == CoreRecordKind::TimelineItem
                ==> str_views(r@) == seq!["active"@, "completed"@, "deleted"@],
    {
        proof {
            lemma_task_statuses(kind);
        }
        Self::allowed_status_slice(kind)
    }

    /// The payload keys that a record of `kind` must carry (every kind has a
    /// list, possibly empty).
    pub fn expected_payload_keys(kind: CoreRecordKind) -> (r: Option<&'static [&'static str]>)
        ensures
            match r {
                Some(keys) => str_views(keys@) == spec_expected_keys(kind),
                None => false,
            },
    {
        let r: &'static [&'static str] = match kind {
            CoreRecordKind::Capture => &["content", "offloadRequested", "classification"],
            CoreRecordKind::Task => &["dueAt", "sourceCaptureId", "isCompleted"],
            CoreRecordKind::TimelineItem => &["timelineType"],
            CoreRecordKind::MetricDefinition => &["metricType", "period", "currentValue", "targetValue", "previousBest", "unit"],
            CoreRecordKind::MetricLog => &["metricDefinitionId", "delta", "unit"],
            CoreRecordKind::Habit => &["habitType", "label", "startDate", "previousBestDays", "isActive"],
            CoreRecordKind::CriticalSignal => &["source", "urgency", "isDismissed"],
            CoreRecordKind::WidgetInstance => &["widgetType", "posX", "posY", "width", "height", "configJson"],
            CoreRecordKind::DashboardSnapshot => &["widgets"],
            CoreRecordKind::AppSetting => &[],
            CoreRecordKind::AgentRun => &["captureRecordId", "classification", "suggestionCount", "processor"],
            CoreRecordKind::AgentSuggestion => &["captureRecordId", "agentRunId"],
            CoreRecordKind::UserMemory => &["raw", "scope", "source", "supersedesId", "parentMemoryId", "topicPath", "nodeKind", "displayLabel", "sortOrder", "fileName", "filePath", "uri", "mimeHint", "linkedRecordId"],
            CoreRecordKind::ReviewFinding => &["findingType", "message", "evidenceRecordIds", "suggestedTool", "status"],
            CoreRecordKind::AgentSessionSummary => &["sessionId", "summary"],
            CoreRecordKind::Project => &["description", "color", "externalRefs"],
            CoreRecordKind::File => &["provider", "driveFileId", "mimeType", "uri", "modifiedAt", "folderPath"],
            CoreRecordKind::Email => &["messageId", "threadId", "from", "to", "subject", "snippet", "receivedAt", "provider", "uri"],
            CoreRecordKind::CalendarEvent => &["provider", "eventId", "startAt", "endAt", "location", "attendees", "calendarId"],
            CoreRecordKind::Contact => &["provider", "contactId", "email", "phone", "displayName", "organization"],
            CoreRecordKind::RepoEvent => &["provider", "eventId", "eventType", "repoFullName", "title", "state", "author", "branch", "conclusion", "uri", "occurredAt"],
            CoreRecordKind::PaymentEvent => &["provider", "eventId", "eventType", "amount", "currency", "customerId", "uri", "occurredAt"],
            CoreRecordKind::FeedItem => &["provider", "externalId", "feedType", "title", "summary", "metadata", "uri", "occurredAt"],
            CoreRecordKind::Connector => &["provider", "accountLabel", "status", "lastSyncAt"],
            CoreRecordKind::Outlet => &["provider", "status", "repoOwner", "repoName", "defaultBranch", "lastPushAt", "lastPullAt", "vendorAccountKey"],
        };
        proof {
            assert(str_views(r@) =~= spec_expected_keys(kind));
        }
        Some(r)
    }

    /// The default payload members of `kind`, with `now_text` as the start
    /// date of a habit.
    pub fn default_payload_at(kind: CoreRecordKind, now_text: &str) -> (r: Vec<(String, JsonValue)>)
        ensures
            members(r@) == spec_default_payload(kind, now_text@),
    {
        let r: Vec<(String, JsonValue)> = match kind {
            CoreRecordKind::Capture => vec![(owned("content"), JsonValue::Str(owned(""))), (owned("offloadRequested"), JsonValue::Bool(false)), (owned("classification"), JsonValue::Str(owned("journal")))],
            CoreRecordKind::Task => vec![(owned("dueAt"), JsonValue::Null), (owned("sourceCaptureId"), JsonValue::Str(owned(""))), (owned("isCompleted"), JsonValue::Bool(false))],
            CoreRecordKind::TimelineItem => vec![(owned("timelineType"), JsonValue::Str(owned("note")))],
            CoreRecordKind::WidgetInstance => vec![(owned("widgetType"), JsonValue::Str(owned(""))), (owned("posX"), JsonValue::Int(0)), (owned("posY"), JsonValue::Int(0)), (owned("width"), JsonValue::Int(2)), (owned("height"), JsonValue::Int(2)), (owned("configJson"), JsonValue::Str(owned("{}")))],
            CoreRecordKind::Connector => vec![(owned("provider"), JsonValue::Str(owned("generic"))), (owned("accountLabel"), JsonValue::Null), (owned("status"), JsonValue::Str(owned("placeholder"))), (owned("lastSyncAt"), JsonValue::Null)],
            CoreRecordKind::Habit => vec![(owned("habitType"), JsonValue::Str(owned("generic"))), (owned("label"), JsonValue::Str(owned(""))), (owned("startDate"), JsonValue::Str(owned(now_text))), (owned("previousBestDays"), JsonValue::Int(0)), (owned("isActive"), JsonValue::Bool(true))],
            _ => Vec::new(),
        };
        proof {
            assert(members(r@) =~= spec_default_payload(kind, now_text@));
        }
        r
    }

    /// The default payload members of `kind`; a habit starts now.
    pub fn default_payload(kind: CoreRecordKind) -> (r: Vec<(String, JsonValue)>)
        ensures
            exists|t: Timestamp| t.in_range() && members(r@) == spec_default_payload(kind, rfc3339_text(t.secs, t.nanos)),
    {
        let t = now();
        let text = to_rfc3339(&t);
        Self::default_payload_at(kind, text.as_str())
    }

    /// `fields` with each default member added, in order, unless a member of
    /// that name is already there.
    fn merge_defaults_into(fields: Vec<(String, JsonValue)>, defaults: Vec<(String, JsonValue)>) -> (r: Vec<(String, JsonValue)>)
        ensures
            members(r@) == merge_defaults(members(fields@), members(defaults@)),
    {
        let mut out = fields;
        let mut i: usize = 0;
        let ghost m0 = members(out@);
        let ghost d = members(defaults@);
        while i < defaults.len()
            invariant
                i <= defaults.len(),
                d == members(defaults@),
                members(out@) == merge_defaults(m0, d.take(i as int)),
            decreases defaults.len() - i,
        {
            proof {
                assert(d.take(i + 1).drop_last() =~= d.take(i as int));
                assert(d.take(i + 1).last() == d[i as int]);
            }
            if !contains_key(&out, defaults[i].0.as_str()) {
                out.push((defaults[i].0.clone(), defaults[i].1.copy()));
                proof {
                    assert(members(out@) =~= merge_defaults(m0, d.take(i as int)).push(d[i as int]));
                }
            }
            i = i + 1;
        }
        proof {
            assert(d.take(defaults.len() as int) =~= d);
        }
        out
    }

    /// The record with the defaults of its kind merged into its payload
    /// (`now_text` is the start date of a habit): a payload that is not JSON
    /// counts as an empty object, and one that is not an object is printed
    /// again as it is. What the merged text reads back as is
    /// `merged_reads_back`.
    pub fn with_merged_payload_at(record: CoreRecord, now_text: &str) -> (r: CoreRecord)
        ensures
            r == (CoreRecord { payload_json: r.payload_json, ..record }),
            r.payload_json@ == merged_payload_text(record.kind, record.payload_json@, now_text@),
            merged_reads_back(record.kind, record.payload_json@, now_text@, r.payload_json@),
    {
        let defaults = Self::default_payload_at(record.kind, now_text);
        let doc = match record.payload() {
            None => {
                let empty: Vec<(String, JsonValue)> = Vec::new();
                proof {
                    assert(members(empty@) =~= Seq::<(Seq<char>, JsonView)>::empty());
                }
                JsonDoc::Object(Self::merge_defaults_into(empty, defaults))
            },
            Some(JsonDoc::Object(fields)) => JsonDoc::Object(Self::merge_defaults_into(fields, defaults)),
            Some(JsonDoc::Value(v)) => JsonDoc::Value(v),
        };
        proof {
            assert(doc@ == merged_payload_doc(record.kind, record.payload_json@, now_text@));
            let m0 = object_or_empty(record.payload_json@);
            if !(json_parse(record.payload_json@) matches Some(DocView::Object(_))) {
                assert(m0 =~= Seq::<(Seq<char>, JsonView)>::empty());
                assert(member_keys(m0) =~= Seq::<Seq<char>>::empty());
            }
        }
        let r = record.with_payload(doc);
        proof {
            lemma_merged_reads_back(record.kind, record.payload_json@, now_text@, r.payload_json@);
        }
        r
    }

    /// The record with the defaults of its kind merged into its payload; a
    /// habit starts now (see `with_merged_payload_at`).
    pub fn with_merged_payload(record: CoreRecord) -> (r: CoreRecord)
        ensures
            r == (CoreRecord { payload_json: r.payload_json, ..record }),
            exists|t: Timestamp| #[trigger] t.in_range() && r.payload_json@ == merged_payload_text(
                record.kind, record.payload_json@, rfc3339_text(t.secs, t.nanos))
                && merged_reads_back(record.kind, record.payload_json@, rfc3339_text(t.secs, t.nanos), r.payload_json@),
    {
        let t = now();
        let text = to_rfc3339(&t);
        Self::with_merged_payload_at(record, text.as_str())
    }
}

/// The text `Debug` prints for a list of strings: each string quoted and
/// escaped, between brackets, separated by `, `.
pub uninterp spec fn debug_list_text(items: Seq<Seq<char>>) -> Seq<char>;

/// Prints a list of strings with `Debug` (`format!("{:?}", ..)`).
#[verifier::external_body]
fn debug_list(items: &Vec<String>) -> (r: String)
    ensures
        r@ == debug_list_text(views(items@)),
{
    format!("{:?}", items)
}

impl ContractError {
    /// The error's message, as `Display` would print it.
    pub fn message(&self) -> (r: String)
        ensures
            r@ == match self {
                ContractError::Validation(m) => "record contract violation: "@ + m@,
                ContractError::ValidationList(l) => "multiple contract violations: "@ + debug_list_text(views(l@)),
            },
    {
        match self {
            ContractError::Validation(m) => crate::text::concat("record contract violation: ", m.as_str()),
            ContractError::ValidationList(l) => {
                let listed = debug_list(l);
                crate::text::concat("multiple contract violations: ", listed.as_str())
            },
        }
    }
}

} // verus!
