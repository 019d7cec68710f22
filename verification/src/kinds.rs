//! Wire-string enums shared with the mobile app: record, event and link kinds
//! and outbox statuses. Each variant has exactly one wire string, and parsing
//! accepts exactly those strings.

use crate::text::{concat, owned, str_eq};
use vstd::prelude::*;

verus! {

/// A string that names no variant of the kind it was parsed as.
#[derive(Debug, Clone)]
pub struct UnknownKindError(pub String);

impl UnknownKindError {
    /// The error's message: `unknown CORE kind: ` and the offending string.
    pub fn message(&self) -> (r: String)
        ensures
            r@ == "unknown CORE kind: "@ + self.0@,
    {
        concat("unknown CORE kind: ", self.0.as_str())
    }
}

/// A kind of CORE record, stored by its wire string.
#[derive(Debug, Clone, Copy, PartialEq, Eq, Hash, Structural)]
pub enum CoreRecordKind {
    Capture,
    Task,
    TimelineItem,
    MetricDefinition,
    MetricLog,
    Habit,
    CriticalSignal,
    WidgetInstance,
    DashboardSnapshot,
    AppSetting,
    AgentRun,
    AgentSuggestion,
    UserMemory,
    ReviewFinding,
    AgentSessionSummary,
    Project,
    File,
    Email,
    CalendarEvent,
    Contact,
    RepoEvent,
    PaymentEvent,
    FeedItem,
    Connector,
    Outlet,
}

impl CoreRecordKind {
    /// The wire string of this variant.
    pub open spec fn wire(self) -> Seq<char> {
        match self {
            CoreRecordKind::Capture => "capture"@,
            CoreRecordKind::Task => "task"@,
            CoreRecordKind::TimelineItem => "timeline_item"@,
            CoreRecordKind::MetricDefinition => "metric_definition"@,
            CoreRecordKind::MetricLog => "metric_log"@,
            CoreRecordKind::Habit => "habit"@,
            CoreRecordKind::CriticalSignal => "critical_signal"@,
            CoreRecordKind::WidgetInstance => "widget_instance"@,
            CoreRecordKind::DashboardSnapshot => "dashboard_snapshot"@,
            CoreRecordKind::AppSetting => "app_setting"@,
            CoreRecordKind::AgentRun => "agent_run"@,
            CoreRecordKind::AgentSuggestion => "agent_suggestion"@,
            CoreRecordKind::UserMemory => "user_memory"@,
            CoreRecordKind::ReviewFinding => "review_finding"@,
            CoreRecordKind::AgentSessionSummary => "agent_session_summary"@,
            CoreRecordKind::Project => "project"@,
            CoreRecordKind::File => "file"@,
            CoreRecordKind::Email => "email"@,
            CoreRecordKind::CalendarEvent => "calendar_event"@,
            CoreRecordKind::Contact => "contact"@,
            CoreRecordKind::RepoEvent => "repo_event"@,
            CoreRecordKind::PaymentEvent => "payment_event"@,
            CoreRecordKind::FeedItem => "feed_item"@,
            CoreRecordKind::Connector => "connector"@,
            CoreRecordKind::Outlet => "outlet"@,
        }
    }

    /// The variant whose wire string is `s`, if any.
    pub open spec fn from_wire(s: Seq<char>) -> Option<Self> {
        if s == "capture"@ {
            Some(CoreRecordKind::Capture)
        } else if s == "task"@ {
            Some(CoreRecordKind::Task)
        } else if s == "timeline_item"@ {
            Some(CoreRecordKind::TimelineItem)
        } else if s == "metric_definition"@ {
            Some(CoreRecordKind::MetricDefinition)
        } else if s == "metric_log"@ {
            Some(CoreRecordKind::MetricLog)
        } else if s == "habit"@ {
            Some(CoreRecordKind::Habit)
        } else if s == "critical_signal"@ {
            Some(CoreRecordKind::CriticalSignal)
        } else if s == "widget_instance"@ {
            Some(CoreRecordKind::WidgetInstance)
        } else if s == "dashboard_snapshot"@ {
            Some(CoreRecordKind::DashboardSnapshot)
        } else if s == "app_setting"@ {
            Some(CoreRecordKind::AppSetting)
        } else if s == "agent_run"@ {
            Some(CoreRecordKind::AgentRun)
        } else if s == "agent_suggestion"@ {
            Some(CoreRecordKind::AgentSuggestion)
        } else if s == "user_memory"@ {
            Some(CoreRecordKind::UserMemory)
        } else if s == "review_finding"@ {
            Some(CoreRecordKind::ReviewFinding)
        } else if s == "agent_session_summary"@ {
            Some(CoreRecordKind::AgentSessionSummary)
        } else if s == "project"@ {
            Some(CoreRecordKind::Project)
        } else if s == "file"@ {
            Some(CoreRecordKind::File)
        } else if s == "email"@ {
            Some(CoreRecordKind::Email)
        } else if s == "calendar_event"@ {
            Some(CoreRecordKind::CalendarEvent)
        } else if s == "contact"@ {
            Some(CoreRecordKind::Contact)
        } else if s == "repo_event"@ {
            Some(CoreRecordKind::RepoEvent)
        } else if s == "payment_event"@ {
            Some(CoreRecordKind::PaymentEvent)
        } else if s == "feed_item"@ {
            Some(CoreRecordKind::FeedItem)
        } else if s == "connector"@ {
            Some(CoreRecordKind::Connector)
        } else if s == "outlet"@ {
            Some(CoreRecordKind::Outlet)
        } else {
            None
        }
    }

    /// Every variant, in declaration order.
    pub open spec fn spec_all() -> Seq<Self> {
        seq![CoreRecordKind::Capture, CoreRecordKind::Task, CoreRecordKind::TimelineItem, CoreRecordKind::MetricDefinition, CoreRecordKind::MetricLog, CoreRecordKind::Habit, CoreRecordKind::CriticalSignal, CoreRecordKind::WidgetInstance, CoreRecordKind::DashboardSnapshot, CoreRecordKind::AppSetting, CoreRecordKind::AgentRun, CoreRecordKind::AgentSuggestion, CoreRecordKind::UserMemory, CoreRecordKind::ReviewFinding, CoreRecordKind::AgentSessionSummary, CoreRecordKind::Project, CoreRecordKind::File, CoreRecordKind::Email, CoreRecordKind::CalendarEvent, CoreRecordKind::Contact, CoreRecordKind::RepoEvent, CoreRecordKind::PaymentEvent, CoreRecordKind::FeedItem, CoreRecordKind::Connector, CoreRecordKind::Outlet]
    }

    /// The wire string of this variant.
    pub fn as_str(self) -> (r: &'static str)
        ensures
            r@ == self.wire(),
    {
        match self {
            CoreRecordKind::Capture => "capture",
            CoreRecordKind::Task => "task",
            CoreRecordKind::TimelineItem => "timeline_item",
            CoreRecordKind::MetricDefinition => "metric_definition",
            CoreRecordKind::MetricLog => "metric_log",
            CoreRecordKind::Habit => "habit",
            CoreRecordKind::CriticalSignal => "critical_signal",
            CoreRecordKind::WidgetInstance => "widget_instance",
            CoreRecordKind::DashboardSnapshot => "dashboard_snapshot",
            CoreRecordKind::AppSetting => "app_setting",
            CoreRecordKind::AgentRun => "agent_run",
            CoreRecordKind::AgentSuggestion => "agent_suggestion",
            CoreRecordKind::UserMemory => "user_memory",
            CoreRecordKind::ReviewFinding => "review_finding",
            CoreRecordKind::AgentSessionSummary => "agent_session_summary",
            CoreRecordKind::Project => "project",
            CoreRecordKind::File => "file",
            CoreRecordKind::Email => "email",
            CoreRecordKind::CalendarEvent => "calendar_event",
            CoreRecordKind::Contact => "contact",
            CoreRecordKind::RepoEvent => "repo_event",
            CoreRecordKind::PaymentEvent => "payment_event",
            CoreRecordKind::FeedItem => "feed_item",
            CoreRecordKind::Connector => "connector",
            CoreRecordKind::Outlet => "outlet",
        }
    }

    /// The wire string of this variant, owned.
    pub fn to_wire_string(self) -> (r: String)
        ensures
            r@ == self.wire(),
    {
        owned(self.as_str())
    }

    /// Every variant, in declaration order.
    pub fn all() -> (r: Vec<Self>)
        ensures
            r@ == Self::spec_all(),
    {
        vec![CoreRecordKind::Capture, CoreRecordKind::Task, CoreRecordKind::TimelineItem, CoreRecordKind::MetricDefinition, CoreRecordKind::MetricLog, CoreRecordKind::Habit, CoreRecordKind::CriticalSignal, CoreRecordKind::WidgetInstance, CoreRecordKind::DashboardSnapshot, CoreRecordKind::AppSetting, CoreRecordKind::AgentRun, CoreRecordKind::AgentSuggestion, CoreRecordKind::UserMemory, CoreRecordKind::ReviewFinding, CoreRecordKind::AgentSessionSummary, CoreRecordKind::Project, CoreRecordKind::File, CoreRecordKind::Email, CoreRecordKind::CalendarEvent, CoreRecordKind::Contact, CoreRecordKind::RepoEvent, CoreRecordKind::PaymentEvent, CoreRecordKind::FeedItem, CoreRecordKind::Connector, CoreRecordKind::Outlet]
    }

    /// Parses a wire string; any other string is refused with an error that
    /// carries it.
    pub fn parse(s: &str) -> (r: Result<Self, UnknownKindError>)
        ensures
            match r {
                Ok(k) => Self::from_wire(s@) == Some(k),
                Err(e) => Self::from_wire(s@).is_none() && e.0@ == s@,
            },
    {
        if str_eq(s, "capture") {
            Ok(CoreRecordKind::Capture)
        } else if str_eq(s, "task") {
            Ok(CoreRecordKind::Task)
        } else if str_eq(s, "timeline_item") {
            Ok(CoreRecordKind::TimelineItem)
        } else if str_eq(s, "metric_definition") {
            Ok(CoreRecordKind::MetricDefinition)
        } else if str_eq(s, "metric_log") {
            Ok(CoreRecordKind::MetricLog)
        } else if str_eq(s, "habit") {
            Ok(CoreRecordKind::Habit)
        } else if str_eq(s, "critical_signal") {
            Ok(CoreRecordKind::CriticalSignal)
        } else if str_eq(s, "widget_instance") {
            Ok(CoreRecordKind::WidgetInstance)
        } else if str_eq(s, "dashboard_snapshot") {
            Ok(CoreRecordKind::DashboardSnapshot)
        } else if str_eq(s, "app_setting") {
            Ok(CoreRecordKind::AppSetting)
        } else if str_eq(s, "agent_run") {
            Ok(CoreRecordKind::AgentRun)
        } else if str_eq(s, "agent_suggestion") {
            Ok(CoreRecordKind::AgentSuggestion)
        } else if str_eq(s, "user_memory") {
            Ok(CoreRecordKind::UserMemory)
        } else if str_eq(s, "review_finding") {
            Ok(CoreRecordKind::ReviewFinding)
        } else if str_eq(s, "agent_session_summary") {
            Ok(CoreRecordKind::AgentSessionSummary)
        } else if str_eq(s, "project") {
            Ok(CoreRecordKind::Project)
        } else if str_eq(s, "file") {
            Ok(CoreRecordKind::File)
        } else if str_eq(s, "email") {
            Ok(CoreRecordKind::Email)
        } else if str_eq(s, "calendar_event") {
            Ok(CoreRecordKind::CalendarEvent)
        } else if str_eq(s, "contact") {
            Ok(CoreRecordKind::Contact)
        } else if str_eq(s, "repo_event") {
            Ok(CoreRecordKind::RepoEvent)
        } else if str_eq(s, "payment_event") {
            Ok(CoreRecordKind::PaymentEvent)
        } else if str_eq(s, "feed_item") {
            Ok(CoreRecordKind::FeedItem)
        } else if str_eq(s, "connector") {
            Ok(CoreRecordKind::Connector)
        } else if str_eq(s, "outlet") {
            Ok(CoreRecordKind::Outlet)
        } else {
            Err(UnknownKindError(owned(s)))
        }
    }
}

/// Parsing the wire string of a variant gives that variant back, and a
/// string parses to a variant only if it is that variant's wire string.
pub proof fn lemma_record_kind_wire_roundtrip(k: CoreRecordKind, s: Seq<char>)
    ensures
        CoreRecordKind::from_wire(k.wire()) == Some(k),
        CoreRecordKind::from_wire(s) == Some(k) ==> s == k.wire(),
{
    reveal_strlit("capture");
    reveal_strlit("task");
    reveal_strlit("timeline_item");
    reveal_strlit("metric_definition");
    reveal_strlit("metric_log");
    reveal_strlit("habit");
    reveal_strlit("critical_signal");
    reveal_strlit("widget_instance");
    reveal_strlit("dashboard_snapshot");
    reveal_strlit("app_setting");
    reveal_strlit("agent_run");
    reveal_strlit("agent_suggestion");
    reveal_strlit("user_memory");
    reveal_strlit("review_finding");
    reveal_strlit("agent_session_summary");
    reveal_strlit("project");
    reveal_strlit("file");
    reveal_strlit("email");
    reveal_strlit("calendar_event");
    reveal_strlit("contact");
    reveal_strlit("repo_event");
    reveal_strlit("payment_event");
    reveal_strlit("feed_item");
    reveal_strlit("connector");
    reveal_strlit("outlet");
    assert("capture"@.len() == 7);
    assert("task"@.len() == 4);
    assert("timeline_item"@.len() == 13);
    assert("metric_definition"@.len() == 17);
    assert("metric_log"@.len() == 10);
    assert("habit"@.len() == 5);
    assert("critical_signal"@.len() == 15);
    assert("widget_instance"@.len() == 15);
    assert("dashboard_snapshot"@.len() == 18);
    assert("app_setting"@.len() == 11);
    assert("agent_run"@.len() == 9);
    assert("agent_suggestion"@.len() == 16);
    assert("user_memory"@.len() == 11);
    assert("review_finding"@.len() == 14);
    assert("agent_session_summary"@.len() == 21);
    assert("project"@.len() == 7);
    assert("file"@.len() == 4);
    assert("email"@.len() == 5);
    assert("calendar_event"@.len() == 14);
    assert("contact"@.len() == 7);
    assert("repo_event"@.len() == 10);
    assert("payment_event"@.len() == 13);
    assert("feed_item"@.len() == 9);
    assert("connector"@.len() == 9);
    assert("outlet"@.len() == 6);
    assert("widget_instance"@[0] != "critical_signal"@[0]);
    assert("user_memory"@[0] != "app_setting"@[0]);
    assert("project"@[0] != "capture"@[0]);
    assert("file"@[0] != "task"@[0]);
    assert("email"@[0] != "habit"@[0]);
    assert("calendar_event"@[0] != "review_finding"@[0]);
    assert("contact"@[1] != "capture"@[1]);
    assert("contact"@[0] != "project"@[0]);
    assert("repo_event"@[0] != "metric_log"@[0]);
    assert("payment_event"@[0] != "timeline_item"@[0]);
    assert("feed_item"@[0] != "agent_run"@[0]);
    assert("connector"@[0] != "agent_run"@[0]);
    assert("connector"@[0] != "feed_item"@[0]);
}

/// Distinct variants have distinct wire strings.
pub proof fn lemma_record_kind_wire_injective(a: CoreRecordKind, b: CoreRecordKind)
    ensures
        a.wire() == b.wire() ==> a == b,
{
    lemma_record_kind_wire_roundtrip(a, b.wire());
    lemma_record_kind_wire_roundtrip(b, a.wire());
}

/// The list of all variants holds every variant exactly once.
pub proof fn lemma_record_kind_all_complete(k: CoreRecordKind)
    ensures
        CoreRecordKind::spec_all().contains(k),
        CoreRecordKind::spec_all().no_duplicates(),
{
    let s = CoreRecordKind::spec_all();
    match k {
        CoreRecordKind::Capture => assert(s[0] == k),
        CoreRecordKind::Task => assert(s[1] == k),
        CoreRecordKind::TimelineItem => assert(s[2] == k),
        CoreRecordKind::MetricDefinition => assert(s[3] == k),
        CoreRecordKind::MetricLog => assert(s[4] == k),
        CoreRecordKind::Habit => assert(s[5] == k),
        CoreRecordKind::CriticalSignal => assert(s[6] == k),
        CoreRecordKind::WidgetInstance => assert(s[7] == k),
        CoreRecordKind::DashboardSnapshot => assert(s[8] == k),
        CoreRecordKind::AppSetting => assert(s[9] == k),
        CoreRecordKind::AgentRun => assert(s[10] == k),
        CoreRecordKind::AgentSuggestion => assert(s[11] == k),
        CoreRecordKind::UserMemory => assert(s[12] == k),
        CoreRecordKind::ReviewFinding => assert(s[13] == k),
        CoreRecordKind::AgentSessionSummary => assert(s[14] == k),
        CoreRecordKind::Project => assert(s[15] == k),
        CoreRecordKind::File => assert(s[16] == k),
        CoreRecordKind::Email => assert(s[17] == k),
        CoreRecordKind::CalendarEvent => assert(s[18] == k),
        CoreRecordKind::Contact => assert(s[19] == k),
        CoreRecordKind::RepoEvent => assert(s[20] == k),
        CoreRecordKind::PaymentEvent => assert(s[21] == k),
        CoreRecordKind::FeedItem => assert(s[22] == k),
        CoreRecordKind::Connector => assert(s[23] == k),
        CoreRecordKind::Outlet => assert(s[24] == k),
    }
}

impl core::str::FromStr for CoreRecordKind {
    type Err = UnknownKindError;

    /// Parses a wire string (see `parse`).
    fn from_str(s: &str) -> (r: Result<Self, Self::Err>)
        ensures
            match r {
                Ok(k) => Self::from_wire(s@) == Some(k),
                Err(e) => Self::from_wire(s@).is_none() && e.0@ == s@,
            },
    {
        CoreRecordKind::parse(s)
    }
}

/// A kind of change event in the local changelog.
#[derive(Debug, Clone, Copy, PartialEq, Eq, Hash, Structural)]
pub enum CoreEventKind {
    RecordCreated,
    RecordUpdated,
    RecordDeleted,
    CaptureOffloaded,
    ClassificationCompleted,
    ClassificationFailed,
    ClassificationCorrected,
    ClassifierAliasLearned,
    TaskScheduled,
    MetricLogged,
    HabitStarted,
    HabitReset,
    CriticalRaised,
    WidgetLayoutChanged,
    SnapshotSaved,
    SnapshotRestored,
    ProjectCreated,
    ExternalIngested,
    ChannelBundled,
}

impl CoreEventKind {
    /// The wire string of this variant.
    pub open spec fn wire(self) -> Seq<char> {
        match self {
            CoreEventKind::RecordCreated => "record_created"@,
            CoreEventKind::RecordUpdated => "record_updated"@,
            CoreEventKind::RecordDeleted => "record_deleted"@,
            CoreEventKind::CaptureOffloaded => "capture_offloaded"@,
            CoreEventKind::ClassificationCompleted => "classification_completed"@,
            CoreEventKind::ClassificationFailed => "classification_failed"@,
            CoreEventKind::ClassificationCorrected => "classification_corrected"@,
            CoreEventKind::ClassifierAliasLearned => "classifier_alias_learned"@,
            CoreEventKind::TaskScheduled => "task_scheduled"@,
            CoreEventKind::MetricLogged => "metric_logged"@,
            CoreEventKind::HabitStarted => "habit_started"@,
            CoreEventKind::HabitReset => "habit_reset"@,
            CoreEventKind::CriticalRaised => "critical_raised"@,
            CoreEventKind::WidgetLayoutChanged => "widget_layout_changed"@,
            CoreEventKind::SnapshotSaved => "snapshot_saved"@,
            CoreEventKind::SnapshotRestored => "snapshot_restored"@,
            CoreEventKind::ProjectCreated => "project_created"@,
            CoreEventKind::ExternalIngested => "external_ingested"@,
            CoreEventKind::ChannelBundled => "channel_bundled"@,
        }
    }

    /// The variant whose wire string is `s`, if any.
    pub open spec fn from_wire(s: Seq<char>) -> Option<Self> {
        if s == "record_created"@ {
            Some(CoreEventKind::RecordCreated)
        } else if s == "record_updated"@ {
            Some(CoreEventKind::RecordUpdated)
        } else if s == "record_deleted"@ {
            Some(CoreEventKind::RecordDeleted)
        } else if s == "capture_offloaded"@ {
            Some(CoreEventKind::CaptureOffloaded)
        } else if s == "classification_completed"@ {
            Some(CoreEventKind::ClassificationCompleted)
        } else if s == "classification_failed"@ {
            Some(CoreEventKind::ClassificationFailed)
        } else if s == "classification_corrected"@ {
            Some(CoreEventKind::ClassificationCorrected)
        } else if s == "classifier_alias_learned"@ {
            Some(CoreEventKind::ClassifierAliasLearned)
        } else if s == "task_scheduled"@ {
            Some(CoreEventKind::TaskScheduled)
        } else if s == "metric_logged"@ {
            Some(CoreEventKind::MetricLogged)
        } else if s == "habit_started"@ {
            Some(CoreEventKind::HabitStarted)
        } else if s == "habit_reset"@ {
            Some(CoreEventKind::HabitReset)
        } else if s == "critical_raised"@ {
            Some(CoreEventKind::CriticalRaised)
        } else if s == "widget_layout_changed"@ {
            Some(CoreEventKind::WidgetLayoutChanged)
        } else if s == "snapshot_saved"@ {
            Some(CoreEventKind::SnapshotSaved)
        } else if s == "snapshot_restored"@ {
            Some(CoreEventKind::SnapshotRestored)
        } else if s == "project_created"@ {
            Some(CoreEventKind::ProjectCreated)
        } else if s == "external_ingested"@ {
            Some(CoreEventKind::ExternalIngested)
        } else if s == "channel_bundled"@ {
            Some(CoreEventKind::ChannelBundled)
        } else {
            None
        }
    }

    /// Every variant, in declaration order.
    pub open spec fn spec_all() -> Seq<Self> {
        seq![CoreEventKind::RecordCreated, CoreEventKind::RecordUpdated, CoreEventKind::RecordDeleted, CoreEventKind::CaptureOffloaded, CoreEventKind::ClassificationCompleted, CoreEventKind::ClassificationFailed, CoreEventKind::ClassificationCorrected, CoreEventKind::ClassifierAliasLearned, CoreEventKind::TaskScheduled, CoreEventKind::MetricLogged, CoreEventKind::HabitStarted, CoreEventKind::HabitReset, CoreEventKind::CriticalRaised, CoreEventKind::WidgetLayoutChanged, CoreEventKind::SnapshotSaved, CoreEventKind::SnapshotRestored, CoreEventKind::ProjectCreated, CoreEventKind::ExternalIngested, CoreEventKind::ChannelBundled]
    }

    /// The wire string of this variant.
    pub fn as_str(self) -> (r: &'static str)
        ensures
            r@ == self.wire(),
    {
        match self {
            CoreEventKind::RecordCreated => "record_created",
            CoreEventKind::RecordUpdated => "record_updated",
            CoreEventKind::RecordDeleted => "record_deleted",
            CoreEventKind::CaptureOffloaded => "capture_offloaded",
            CoreEventKind::ClassificationCompleted => "classification_completed",
            CoreEventKind::ClassificationFailed => "classification_failed",
            CoreEventKind::ClassificationCorrected => "classification_corrected",
            CoreEventKind::ClassifierAliasLearned => "classifier_alias_learned",
            CoreEventKind::TaskScheduled => "task_scheduled",
            CoreEventKind::MetricLogged => "metric_logged",
            CoreEventKind::HabitStarted => "habit_started",
            CoreEventKind::HabitReset => "habit_reset",
            CoreEventKind::CriticalRaised => "critical_raised",
            CoreEventKind::WidgetLayoutChanged => "widget_layout_changed",
            CoreEventKind::SnapshotSaved => "snapshot_saved",
            CoreEventKind::SnapshotRestored => "snapshot_restored",
            CoreEventKind::ProjectCreated => "project_created",
            CoreEventKind::ExternalIngested => "external_ingested",
            CoreEventKind::ChannelBundled => "channel_bundled",
        }
    }

    /// The wire string of this variant, owned.
    pub fn to_wire_string(self) -> (r: String)
        ensures
            r@ == self.wire(),
    {
        owned(self.as_str())
    }

    /// Every variant, in declaration order.
    pub fn all() -> (r: Vec<Self>)
        ensures
            r@ == Self::spec_all(),
    {
        vec![CoreEventKind::RecordCreated, CoreEventKind::RecordUpdated, CoreEventKind::RecordDeleted, CoreEventKind::CaptureOffloaded, CoreEventKind::ClassificationCompleted, CoreEventKind::ClassificationFailed, CoreEventKind::ClassificationCorrected, CoreEventKind::ClassifierAliasLearned, CoreEventKind::TaskScheduled, CoreEventKind::MetricLogged, CoreEventKind::HabitStarted, CoreEventKind::HabitReset, CoreEventKind::CriticalRaised, CoreEventKind::WidgetLayoutChanged, CoreEventKind::SnapshotSaved, CoreEventKind::SnapshotRestored, CoreEventKind::ProjectCreated, CoreEventKind::ExternalIngested, CoreEventKind::ChannelBundled]
    }

    /// Parses a wire string; any other string is refused with an error that
    /// carries it.
    pub fn parse(s: &str) -> (r: Result<Self, UnknownKindError>)
        ensures
            match r {
                Ok(k) => Self::from_wire(s@) == Some(k),
                Err(e) => Self::from_wire(s@).is_none() && e.0@ == s@,
            },
    {
        if str_eq(s, "record_created") {
            Ok(CoreEventKind::RecordCreated)
        } else if str_eq(s, "record_updated") {
            Ok(CoreEventKind::RecordUpdated)
        } else if str_eq(s, "record_deleted") {
            Ok(CoreEventKind::RecordDeleted)
        } else if str_eq(s, "capture_offloaded") {
            Ok(CoreEventKind::CaptureOffloaded)
        } else if str_eq(s, "classification_completed") {
            Ok(CoreEventKind::ClassificationCompleted)
        } else if str_eq(s, "classification_failed") {
            Ok(CoreEventKind::ClassificationFailed)
        } else if str_eq(s, "classification_corrected") {
            Ok(CoreEventKind::ClassificationCorrected)
        } else if str_eq(s, "classifier_alias_learned") {
            Ok(CoreEventKind::ClassifierAliasLearned)
        } else if str_eq(s, "task_scheduled") {
            Ok(CoreEventKind::TaskScheduled)
        } else if str_eq(s, "metric_logged") {
            Ok(CoreEventKind::MetricLogged)
        } else if str_eq(s, "habit_started") {
            Ok(CoreEventKind::HabitStarted)
        } else if str_eq(s, "habit_reset") {
            Ok(CoreEventKind::HabitReset)
        } else if str_eq(s, "critical_raised") {
            Ok(CoreEventKind::CriticalRaised)
        } else if str_eq(s, "widget_layout_changed") {
            Ok(CoreEventKind::WidgetLayoutChanged)
        } else if str_eq(s, "snapshot_saved") {
            Ok(CoreEventKind::SnapshotSaved)
        } else if str_eq(s, "snapshot_restored") {
            Ok(CoreEventKind::SnapshotRestored)
        } else if str_eq(s, "project_created") {
            Ok(CoreEventKind::ProjectCreated)
        } else if str_eq(s, "external_ingested") {
            Ok(CoreEventKind::ExternalIngested)
        } else if str_eq(s, "channel_bundled") {
            Ok(CoreEventKind::ChannelBundled)
        } else {
            Err(UnknownKindError(owned(s)))
        }
    }
}

/// Parsing the wire string of a variant gives that variant back, and a
/// string parses to a variant only if it is that variant's wire string.
pub proof fn lemma_event_kind_wire_roundtrip(k: CoreEventKind, s: Seq<char>)
    ensures
        CoreEventKind::from_wire(k.wire()) == Some(k),
        CoreEventKind::from_wire(s) == Some(k) ==> s == k.wire(),
{
    reveal_strlit("record_created");
    reveal_strlit("record_updated");
    reveal_strlit("record_deleted");
    reveal_strlit("capture_offloaded");
    reveal_strlit("classification_completed");
    reveal_strlit("classification_failed");
    reveal_strlit("classification_corrected");
    reveal_strlit("classifier_alias_learned");
    reveal_strlit("task_scheduled");
    reveal_strlit("metric_logged");
    reveal_strlit("habit_started");
    reveal_strlit("habit_reset");
    reveal_strlit("critical_raised");
    reveal_strlit("widget_layout_changed");
    reveal_strlit("snapshot_saved");
    reveal_strlit("snapshot_restored");
    reveal_strlit("project_created");
    reveal_strlit("external_ingested");
    reveal_strlit("channel_bundled");
    assert("record_created"@.len() == 14);
    assert("record_updated"@.len() == 14);
    assert("record_deleted"@.len() == 14);
    assert("capture_offloaded"@.len() == 17);
    assert("classification_completed"@.len() == 24);
    assert("classification_failed"@.len() == 21);
    assert("classification_corrected"@.len() == 24);
    assert("classifier_alias_learned"@.len() == 24);
    assert("task_scheduled"@.len() == 14);
    assert("metric_logged"@.len() == 13);
    assert("habit_started"@.len() == 13);
    assert("habit_reset"@.len() == 11);
    assert("critical_raised"@.len() == 15);
    assert("widget_layout_changed"@.len() == 21);
    assert("snapshot_saved"@.len() == 14);
    assert("snapshot_restored"@.len() == 17);
    assert("project_created"@.len() == 15);
    assert("external_ingested"@.len() == 17);
    assert("channel_bundled"@.len() == 15);
    assert("record_updated"@[7] != "record_created"@[7]);
    assert("record_deleted"@[7] != "record_created"@[7]);
    assert("record_deleted"@[7] != "record_updated"@[7]);
    assert("classification_corrected"@[17] != "classification_completed"@[17]);
    assert("classifier_alias_learned"@[8] != "classification_completed"@[8]);
    assert("classifier_alias_learned"@[8] != "classification_corrected"@[8]);
    assert("task_scheduled"@[0] != "record_created"@[0]);
    assert("task_scheduled"@[0] != "record_updated"@[0]);
    assert("task_scheduled"@[0] != "record_deleted"@[0]);
    assert("habit_started"@[0] != "metric_logged"@[0]);
    assert("widget_layout_changed"@[0] != "classification_failed"@[0]);
    assert("snapshot_saved"@[0] != "record_created"@[0]);
    assert("snapshot_saved"@[0] != "record_updated"@[0]);
    assert("snapshot_saved"@[0] != "record_deleted"@[0]);
    assert("snapshot_saved"@[0] != "task_scheduled"@[0]);
    assert("snapshot_restored"@[0] != "capture_offloaded"@[0]);
    assert("project_created"@[0] != "critical_raised"@[0]);
    assert("external_ingested"@[0] != "capture_offloaded"@[0]);
    assert("external_ingested"@[0] != "snapshot_restored"@[0]);
    assert("channel_bundled"@[1] != "critical_raised"@[1]);
    assert("channel_bundled"@[0] != "project_created"@[0]);
}

/// Distinct variants have distinct wire strings.
pub proof fn lemma_event_kind_wire_injective(a: CoreEventKind, b: CoreEventKind)
    ensures
        a.wire() == b.wire() ==> a == b,
{
    lemma_event_kind_wire_roundtrip(a, b.wire());
    lemma_event_kind_wire_roundtrip(b, a.wire());
}

/// The list of all variants holds every variant exactly once.
pub proof fn lemma_event_kind_all_complete(k: CoreEventKind)
    ensures
        CoreEventKind::spec_all().contains(k),
        CoreEventKind::spec_all().no_duplicates(),
{
    let s = CoreEventKind::spec_all();
    match k {
        CoreEventKind::RecordCreated => assert(s[0] == k),
        CoreEventKind::RecordUpdated => assert(s[1] == k),
        CoreEventKind::RecordDeleted => assert(s[2] == k),
        CoreEventKind::CaptureOffloaded => assert(s[3] == k),
        CoreEventKind::ClassificationCompleted => assert(s[4] == k),
        CoreEventKind::ClassificationFailed => assert(s[5] == k),
        CoreEventKind::ClassificationCorrected => assert(s[6] == k),
        CoreEventKind::ClassifierAliasLearned => assert(s[7] == k),
        CoreEventKind::TaskScheduled => assert(s[8] == k),
        CoreEventKind::MetricLogged => assert(s[9] == k),
        CoreEventKind::HabitStarted => assert(s[10] == k),
        CoreEventKind::HabitReset => assert(s[11] == k),
        CoreEventKind::CriticalRaised => assert(s[12] == k),
        CoreEventKind::WidgetLayoutChanged => assert(s[13] == k),
        CoreEventKind::SnapshotSaved => assert(s[14] == k),
        CoreEventKind::SnapshotRestored => assert(s[15] == k),
        CoreEventKind::ProjectCreated => assert(s[16] == k),
        CoreEventKind::ExternalIngested => assert(s[17] == k),
        CoreEventKind::ChannelBundled => assert(s[18] == k),
    }
}

impl core::str::FromStr for CoreEventKind {
    type Err = UnknownKindError;

    /// Parses a wire string (see `parse`).
    fn from_str(s: &str) -> (r: Result<Self, Self::Err>)
        ensures
            match r {
                Ok(k) => Self::from_wire(s@) == Some(k),
                Err(e) => Self::from_wire(s@).is_none() && e.0@ == s@,
            },
    {
        CoreEventKind::parse(s)
    }
}

/// A kind of directed link between two records.
#[derive(Debug, Clone, Copy, PartialEq, Eq, Hash, Structural)]
pub enum CoreLinkKind {
    DerivedFrom,
    SuggestedFrom,
    GeneratedBy,
    LinkedRecord,
    ParentOf,
    References,
    StreamsTo,
    PublishesTo,
}

impl CoreLinkKind {
    /// The wire string of this variant.
    pub open spec fn wire(self) -> Seq<char> {
        match self {
            CoreLinkKind::DerivedFrom => "derived_from"@,
            CoreLinkKind::SuggestedFrom => "suggested_from"@,
            CoreLinkKind::GeneratedBy => "generated_by"@,
            CoreLinkKind::LinkedRecord => "linked_record"@,
            CoreLinkKind::ParentOf => "parent_of"@,
            CoreLinkKind::References => "references"@,
            CoreLinkKind::StreamsTo => "streams_to"@,
            CoreLinkKind::PublishesTo => "publishes_to"@,
        }
    }

    /// The variant whose wire string is `s`, if any.
    pub open spec fn from_wire(s: Seq<char>) -> Option<Self> {
        if s == "derived_from"@ {
            Some(CoreLinkKind::DerivedFrom)
        } else if s == "suggested_from"@ {
            Some(CoreLinkKind::SuggestedFrom)
        } else if s == "generated_by"@ {
            Some(CoreLinkKind::GeneratedBy)
        } else if s == "linked_record"@ {
            Some(CoreLinkKind::LinkedRecord)
        } else if s == "parent_of"@ {
            Some(CoreLinkKind::ParentOf)
        } else if s == "references"@ {
            Some(CoreLinkKind::References)
        } else if s == "streams_to"@ {
            Some(CoreLinkKind::StreamsTo)
        } else if s == "publishes_to"@ {
            Some(CoreLinkKind::PublishesTo)
        } else {
            None
        }
    }

    /// Every variant, in declaration order.
    pub open spec fn spec_all() -> Seq<Self> {
        seq![CoreLinkKind::DerivedFrom, CoreLinkKind::SuggestedFrom, CoreLinkKind::GeneratedBy, CoreLinkKind::LinkedRecord, CoreLinkKind::ParentOf, CoreLinkKind::References, CoreLinkKind::StreamsTo, CoreLinkKind::PublishesTo]
    }

    /// The wire string of this variant.
    pub fn as_str(self) -> (r: &'static str)
        ensures
            r@ == self.wire(),
    {
        match self {
            CoreLinkKind::DerivedFrom => "derived_from",
            CoreLinkKind::SuggestedFrom => "suggested_from",
            CoreLinkKind::GeneratedBy => "generated_by",
            CoreLinkKind::LinkedRecord => "linked_record",
            CoreLinkKind::ParentOf => "parent_of",
            CoreLinkKind::References => "references",
            CoreLinkKind::StreamsTo => "streams_to",
            CoreLinkKind::PublishesTo => "publishes_to",
        }
    }

    /// The wire string of this variant, owned.
    pub fn to_wire_string(self) -> (r: String)
        ensures
            r@ == self.wire(),
    {
        owned(self.as_str())
    }

    /// Every variant, in declaration order.
    pub fn all() -> (r: Vec<Self>)
        ensures
            r@ == Self::spec_all(),
    {
        vec![CoreLinkKind::DerivedFrom, CoreLinkKind::SuggestedFrom, CoreLinkKind::GeneratedBy, CoreLinkKind::LinkedRecord, CoreLinkKind::ParentOf, CoreLinkKind::References, CoreLinkKind::StreamsTo, CoreLinkKind::PublishesTo]
    }

    /// Parses a wire string; any other string is refused with an error that
    /// carries it.
    pub fn parse(s: &str) -> (r: Result<Self, UnknownKindError>)
        ensures
            match r {
                Ok(k) => Self::from_wire(s@) == Some(k),
                Err(e) => Self::from_wire(s@).is_none() && e.0@ == s@,
            },
    {
        if str_eq(s, "derived_from") {
            Ok(CoreLinkKind::DerivedFrom)
        } else if str_eq(s, "suggested_from") {
            Ok(CoreLinkKind::SuggestedFrom)
        } else if str_eq(s, "generated_by") {
            Ok(CoreLinkKind::GeneratedBy)
        } else if str_eq(s, "linked_record") {
            Ok(CoreLinkKind::LinkedRecord)
        } else if str_eq(s, "parent_of") {
            Ok(CoreLinkKind::ParentOf)
        } else if str_eq(s, "references") {
            Ok(CoreLinkKind::References)
        } else if str_eq(s, "streams_to") {
            Ok(CoreLinkKind::StreamsTo)
        } else if str_eq(s, "publishes_to") {
            Ok(CoreLinkKind::PublishesTo)
        } else {
            Err(UnknownKindError(owned(s)))
        }
    }
}

/// Parsing the wire string of a variant gives that variant back, and a
/// string parses to a variant only if it is that variant's wire string.
pub proof fn lemma_link_kind_wire_roundtrip(k: CoreLinkKind, s: Seq<char>)
    ensures
        CoreLinkKind::from_wire(k.wire()) == Some(k),
        CoreLinkKind::from_wire(s) == Some(k) ==> s == k.wire(),
{
    reveal_strlit("derived_from");
    reveal_strlit("suggested_from");
    reveal_strlit("generated_by");
    reveal_strlit("linked_record");
    reveal_strlit("parent_of");
    reveal_strlit("references");
    reveal_strlit("streams_to");
    reveal_strlit("publishes_to");
    assert("derived_from"@.len() == 12);
    assert("suggested_from"@.len() == 14);
    assert("generated_by"@.len() == 12);
    assert("linked_record"@.len() == 13);
    assert("parent_of"@.len() == 9);
    assert("references"@.len() == 10);
    assert("streams_to"@.len() == 10);
    assert("publishes_to"@.len() == 12);
    assert("generated_by"@[0] != "derived_from"@[0]);
    assert("streams_to"@[0] != "references"@[0]);
    assert("publishes_to"@[0] != "derived_from"@[0]);
    assert("publishes_to"@[0] != "generated_by"@[0]);
}

/// Distinct variants have distinct wire strings.
pub proof fn lemma_link_kind_wire_injective(a: CoreLinkKind, b: CoreLinkKind)
    ensures
        a.wire() == b.wire() ==> a == b,
{
    lemma_link_kind_wire_roundtrip(a, b.wire());
    lemma_link_kind_wire_roundtrip(b, a.wire());
}

/// The list of all variants holds every variant exactly once.
pub proof fn lemma_link_kind_all_complete(k: CoreLinkKind)
    ensures
        CoreLinkKind::spec_all().contains(k),
        CoreLinkKind::spec_all().no_duplicates(),
{
    let s = CoreLinkKind::spec_all();
    match k {
        CoreLinkKind::DerivedFrom => assert(s[0] == k),
        CoreLinkKind::SuggestedFrom => assert(s[1] == k),
        CoreLinkKind::GeneratedBy => assert(s[2] == k),
        CoreLinkKind::LinkedRecord => assert(s[3] == k),
        CoreLinkKind::ParentOf => assert(s[4] == k),
        CoreLinkKind::References => assert(s[5] == k),
        CoreLinkKind::StreamsTo => assert(s[6] == k),
        CoreLinkKind::PublishesTo => assert(s[7] == k),
    }
}

impl core::str::FromStr for CoreLinkKind {
    type Err = UnknownKindError;

    /// Parses a wire string (see `parse`).
    fn from_str(s: &str) -> (r: Result<Self, Self::Err>)
        ensures
            match r {
                Ok(k) => Self::from_wire(s@) == Some(k),
                Err(e) => Self::from_wire(s@).is_none() && e.0@ == s@,
            },
    {
        CoreLinkKind::parse(s)
    }
}

/// The state of an item in the sync outbox.
#[derive(Debug, Clone, Copy, PartialEq, Eq, Hash, Structural)]
pub enum SyncOutboxStatus {
    Pending,
    Processing,
    Synced,
    Failed,
}

impl SyncOutboxStatus {
    /// The wire string of this variant.
    pub open spec fn wire(self) -> Seq<char> {
        match self {
            SyncOutboxStatus::Pending => "pending"@,
            SyncOutboxStatus::Processing => "processing"@,
            SyncOutboxStatus::Synced => "synced"@,
            SyncOutboxStatus::Failed => "failed"@,
        }
    }

    /// The variant whose wire string is `s`, if any.
    pub open spec fn from_wire(s: Seq<char>) -> Option<Self> {
        if s == "pending"@ {
            Some(SyncOutboxStatus::Pending)
        } else if s == "processing"@ {
            Some(SyncOutboxStatus::Processing)
        } else if s == "synced"@ {
            Some(SyncOutboxStatus::Synced)
        } else if s == "failed"@ {
            Some(SyncOutboxStatus::Failed)
        } else {
            None
        }
    }

    /// Every variant, in declaration order.
    pub open spec fn spec_all() -> Seq<Self> {
        seq![SyncOutboxStatus::Pending, SyncOutboxStatus::Processing, SyncOutboxStatus::Synced, SyncOutboxStatus::Failed]
    }

    /// The wire string of this variant.
    pub fn as_str(self) -> (r: &'static str)
        ensures
            r@ == self.wire(),
    {
        match self {
            SyncOutboxStatus::Pending => "pending",
            SyncOutboxStatus::Processing => "processing",
            SyncOutboxStatus::Synced => "synced",
            SyncOutboxStatus::Failed => "failed",
        }
    }

    /// The wire string of this variant, owned.
    pub fn to_wire_string(self) -> (r: String)
        ensures
            r@ == self.wire(),
    {
        owned(self.as_str())
    }

    /// Every variant, in declaration order.
    pub fn all() -> (r: Vec<Self>)
        ensures
            r@ == Self::spec_all(),
    {
        vec![SyncOutboxStatus::Pending, SyncOutboxStatus::Processing, SyncOutboxStatus::Synced, SyncOutboxStatus::Failed]
    }

    /// Parses a wire string; any other string is refused with an error that
    /// carries it.
    pub fn parse(s: &str) -> (r: Result<Self, UnknownKindError>)
        ensures
            match r {
                Ok(k) => Self::from_wire(s@) == Some(k),
                Err(e) => Self::from_wire(s@).is_none() && e.0@ == s@,
            },
    {
        if str_eq(s, "pending") {
            Ok(SyncOutboxStatus::Pending)
        } else if str_eq(s, "processing") {
            Ok(SyncOutboxStatus::Processing)
        } else if str_eq(s, "synced") {
            Ok(SyncOutboxStatus::Synced)
        } else if str_eq(s, "failed") {
            Ok(SyncOutboxStatus::Failed)
        } else {
            Err(UnknownKindError(owned(s)))
        }
    }
}

/// Parsing the wire string of a variant gives that variant back, and a
/// string parses to a variant only if it is that variant's wire string.
pub proof fn lemma_outbox_status_wire_roundtrip(k: SyncOutboxStatus, s: Seq<char>)
    ensures
        SyncOutboxStatus::from_wire(k.wire()) == Some(k),
        SyncOutboxStatus::from_wire(s) == Some(k) ==> s == k.wire(),
{
    reveal_strlit("pending");
    reveal_strlit("processing");
    reveal_strlit("synced");
    reveal_strlit("failed");
    assert("pending"@.len() == 7);
    assert("processing"@.len() == 10);
    assert("synced"@.len() == 6);
    assert("failed"@.len() == 6);
    assert("failed"@[0] != "synced"@[0]);
}

/// Distinct variants have distinct wire strings.
pub proof fn lemma_outbox_status_wire_injective(a: SyncOutboxStatus, b: SyncOutboxStatus)
    ensures
        a.wire() == b.wire() ==> a == b,
{
    lemma_outbox_status_wire_roundtrip(a, b.wire());
    lemma_outbox_status_wire_roundtrip(b, a.wire());
}

/// The list of all variants holds every variant exactly once.
pub proof fn lemma_outbox_status_all_complete(k: SyncOutboxStatus)
    ensures
        SyncOutboxStatus::spec_all().contains(k),
        SyncOutboxStatus::spec_all().no_duplicates(),
{
    let s = SyncOutboxStatus::spec_all();
    match k {
        SyncOutboxStatus::Pending => assert(s[0] == k),
        SyncOutboxStatus::Processing => assert(s[1] == k),
        SyncOutboxStatus::Synced => assert(s[2] == k),
        SyncOutboxStatus::Failed => assert(s[3] == k),
    }
}

impl core::str::FromStr for SyncOutboxStatus {
    type Err = UnknownKindError;

    /// Parses a wire string (see `parse`).
    fn from_str(s: &str) -> (r: Result<Self, Self::Err>)
        ensures
            match r {
                Ok(k) => Self::from_wire(s@) == Some(k),
                Err(e) => Self::from_wire(s@).is_none() && e.0@ == s@,
            },
    {
        SyncOutboxStatus::parse(s)
    }
}

} // verus!
