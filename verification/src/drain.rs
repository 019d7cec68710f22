//! Decisions of the outbox drain: whether pushing is configured, what to do
//! with each pending item given what the store holds for it, and the report
//! of a drain. Reading the store and pushing are done by the caller, one step
//! at a time.

use crate::ids::{uuid_text, Uuid};
use crate::json::{as_str, doc_members, get_str, into_members, json_parse, lookup};
use crate::models::{CoreEvent, CoreLink, CoreRecord, SyncOutboxItem};
use crate::push::PushResult;
use crate::sync_error::SyncError;
use crate::text::{concat, opt_view, owned, str_eq, views};
use vstd::prelude::*;

verus! {

/// What a drain did: items taken up, pushed (or kept local), and failed, with
/// the messages of pushes the server refused.
#[derive(Debug, Clone)]
pub struct DrainReport {
    pub processed: u32,
    pub synced: u32,
    pub failed: u32,
    pub errors: Vec<String>,
}

/// Who pushes: the signed-in user, the workspace and the registered device.
#[derive(Debug, Clone)]
pub struct PushTarget {
    pub user_id: String,
    pub workspace_id: String,
    pub device_id: String,
}

/// Pushing needs a signed-in user, a workspace and a registered device.
pub fn is_remote_push_configured(user_id: &Option<String>, workspace_id: &Option<String>, device_id: &Option<String>) -> (r: bool)
    ensures
        r == (user_id is Some && workspace_id is Some && device_id is Some),
{
    user_id.is_some() && workspace_id.is_some() && device_id.is_some()
}

/// Pulling needs a workspace.
pub fn is_remote_pull_configured(workspace_id: &Option<String>) -> (r: bool)
    ensures
        r == workspace_id is Some,
{
    workspace_id.is_some()
}

/// Who pushes, when user, workspace and device are all known; else
/// `PushNotConfigured`.
pub fn push_target(user_id: &Option<String>, workspace_id: &Option<String>, device_id: &Option<String>) -> (r: Result<PushTarget, SyncError>)
    ensures
        match r {
            Ok(t) => opt_view(*user_id) == Some(t.user_id@) && opt_view(*workspace_id) == Some(t.workspace_id@)
                && opt_view(*device_id) == Some(t.device_id@),
            Err(e) => e is PushNotConfigured && !(user_id is Some && workspace_id is Some && device_id is Some),
        },
{
    match (user_id, workspace_id, device_id) {
        (Some(u), Some(w), Some(d)) => Ok(PushTarget { user_id: u.clone(), workspace_id: w.clone(), device_id: d.clone() }),
        _ => Err(SyncError::PushNotConfigured),
    }
}

/// An event is local only when its payload says `outboxPolicy` is
/// `local_only`.
pub open spec fn spec_is_local_only(e: CoreEvent) -> bool {
    match json_parse(e.payload_json@) {
        Some(d) => as_str(lookup(doc_members(d), "outboxPolicy"@)) == Some("local_only"@),
        None => false,
    }
}

/// Whether an event stays on this device (see `spec_is_local_only`).
pub fn is_local_only(event: &CoreEvent) -> (r: bool)
    ensures
        r == spec_is_local_only(*event),
{
    match event.payload() {
        Some(doc) => {
            let fields = into_members(doc);
            match get_str(&fields, "outboxPolicy") {
                Some(p) => str_eq(p.as_str(), "local_only"),
                None => false,
            }
        },
        None => false,
    }
}

/// The message for an item whose event or record is gone.
pub open spec fn missing_message(what: Seq<char>, id: Uuid) -> Seq<char> {
    "Missing "@ + what + " "@ + uuid_text(id.value)
}

fn missing(what: &str, id: Uuid) -> (r: String)
    ensures
        r@ == missing_message(what@, id),
{
    let mut m = concat("Missing ", what);
    m.append(" ");
    let t = id.to_text();
    m.append(t.as_str());
    m
}

/// The message stored for a push the server refused.
pub open spec fn rejection_message(error: Option<Seq<char>>) -> Seq<char> {
    match error {
        Some(e) => e,
        None => "push rejected"@,
    }
}

impl DrainReport {
    /// A drain that has taken up nothing.
    pub fn empty() -> (r: DrainReport)
        ensures
            r.processed == 0,
            r.synced == 0,
            r.failed == 0,
            r.errors@.len() == 0,
    {
        DrainReport { processed: 0, synced: 0, failed: 0, errors: Vec::new() }
    }
}

/// What the caller does next for a drain.
#[derive(Debug)]
pub enum DrainAction {
    /// Mark the outbox item processing, then read its event.
    ReadEvent { outbox_id: Uuid, event_id: Uuid },
    /// Read the record, and its links when it is there.
    ReadRecord { record_id: Uuid },
    /// Push the change to the server (see `PushFlow`).
    Push { event: CoreEvent, record: CoreRecord, links: Vec<CoreLink>, outbox: SyncOutboxItem },
    /// Mark the outbox item synced.
    MarkSynced { outbox_id: Uuid },
    /// Mark the outbox item failed with a message.
    MarkFailed { outbox_id: Uuid, message: String },
    /// The drain is over; its report is the flow's.
    Finished,
}

/// What the caller found or did for the last action.
#[derive(Debug)]
pub enum DrainReply {
    /// The event of the item, if the store has it.
    Event(Option<CoreEvent>),
    /// The record of the event, if the store has it, and the record's links
    /// (none when the record is gone).
    Record(Option<CoreRecord>, Vec<CoreLink>),
    /// The server's answer to the push.
    Pushed(PushResult),
    /// The item was marked as asked.
    Marked,
}

/// Where a drain stands: which reply it waits for, with what it needs to
/// go on.
#[derive(Debug)]
pub enum DrainStage {
    AwaitEvent(SyncOutboxItem),
    AwaitRecord(SyncOutboxItem, CoreEvent),
    AwaitPush(Uuid),
    AwaitMark,
    Done,
}

/// A drain of the pending outbox items: those not yet taken up, the report
/// so far, and where the current item stands.
#[derive(Debug)]
pub struct DrainFlow {
    pub pending: Vec<SyncOutboxItem>,
    pub report: DrainReport,
    pub stage: DrainStage,
}

/// A request to mark `id` failed with `message`.
pub open spec fn marks_failed(a: DrainAction, id: Uuid, message: Seq<char>) -> bool {
    a matches DrainAction::MarkFailed { outbox_id, message: m } && outbox_id == id && m@ == message
}

impl DrainFlow {
    /// Every item taken up is counted once, as synced or failed, when it is
    /// marked; each refusal message belongs to a failed item; a finished
    /// drain has nothing left.
    pub open spec fn wf(&self) -> bool {
        &&& self.report.errors@.len() <= self.report.failed
        &&& self.report.processed + self.pending@.len() <= u32::MAX
        &&& match self.stage {
            DrainStage::AwaitMark => self.report.processed == self.report.synced + self.report.failed,
            DrainStage::Done => self.report.processed == self.report.synced + self.report.failed
                && self.pending@.len() == 0,
            _ => self.report.processed == self.report.synced + self.report.failed + 1,
        }
    }

    /// Whether `reply` answers the action the drain waits on.
    pub open spec fn expects(&self, reply: DrainReply) -> bool {
        match self.stage {
            DrainStage::AwaitEvent(_) => reply is Event,
            DrainStage::AwaitRecord(_, _) => reply is Record,
            DrainStage::AwaitPush(_) => reply is Pushed,
            DrainStage::AwaitMark => reply is Marked,
            DrainStage::Done => false,
        }
    }

    /// The step after an item is done with: take up the next pending item by
    /// reading its event, or finish when none is left.
    pub open spec fn takes_next(old_flow: DrainFlow, new_flow: DrainFlow, a: DrainAction) -> bool {
        if old_flow.pending@.len() == 0 {
            &&& a is Finished
            &&& new_flow.stage is Done
            &&& new_flow.report.processed == old_flow.report.processed
        } else {
            let item = old_flow.pending@[0];
            &&& a == (DrainAction::ReadEvent { outbox_id: item.id, event_id: item.event_id })
            &&& new_flow.stage == DrainStage::AwaitEvent(item)
            &&& new_flow.pending@ == old_flow.pending@.drop_first()
            &&& new_flow.report.processed == old_flow.report.processed + 1
        }
    }

    fn take_next(&mut self) -> (a: DrainAction)
        requires
            old(self).report.processed + old(self).pending@.len() <= u32::MAX,
        ensures
            Self::takes_next(*old(self), *final(self), a),
            final(self).report.synced == old(self).report.synced,
            final(self).report.failed == old(self).report.failed,
            final(self).report.errors@ == old(self).report.errors@,
            old(self).pending@.len() == 0 ==> final(self).pending@.len() == 0,
    {
        if self.pending.len() == 0 {
            self.stage = DrainStage::Done;
            return DrainAction::Finished;
        }
        let item = self.pending.remove(0);
        self.report.processed = self.report.processed + 1;
        let a = DrainAction::ReadEvent { outbox_id: item.id, event_id: item.event_id };
        self.stage = DrainStage::AwaitEvent(item);
        assert(self.pending@ =~= old(self).pending@.drop_first());
        a
    }

    /// Starts a drain of `items` (at most `u32::MAX`, since they were asked
    /// for with a `u32` limit): reads the event of the first, or finishes at
    /// once when there is none.
    pub fn begin(items: Vec<SyncOutboxItem>) -> (r: (DrainFlow, DrainAction))
        requires
            items@.len() <= u32::MAX,
        ensures
            r.0.wf(),
            r.0.report.processed + r.0.pending@.len() == items@.len(),
            r.0.report.synced == 0,
            r.0.report.failed == 0,
            r.0.report.errors@.len() == 0,
            if items@.len() == 0 {
                r.1 is Finished && r.0.stage is Done
            } else {
                r.1 == (DrainAction::ReadEvent { outbox_id: items@[0].id, event_id: items@[0].event_id })
                    && r.0.stage == DrainStage::AwaitEvent(items@[0])
                    && r.0.pending@ == items@.drop_first()
            },
    {
        let mut flow = DrainFlow { pending: items, report: DrainReport::empty(), stage: DrainStage::Done };
        let a = flow.take_next();
        (flow, a)
    }

    /// Takes the reply to the last action and says what to do next. A
    /// missing event or record fails the item (`Missing event <id>`,
    /// `Missing record <id>`); an event whose payload keeps it local marks
    /// the item synced without pushing; otherwise the record and its links
    /// are pushed, and the item is marked synced when the server accepts,
    /// else failed with the server's message (or `push rejected`), which the
    /// report keeps. Once an item is marked, the next one is taken up.
    pub fn advance(&mut self, reply: DrainReply) -> (a: DrainAction)
        requires
            old(self).wf(),
            old(self).expects(reply),
        ensures
            final(self).wf(),
            final(self).report.processed + final(self).pending@.len()
                == old(self).report.processed + old(self).pending@.len(),
            match (old(self).stage, reply) {
                (DrainStage::AwaitEvent(item), DrainReply::Event(None)) => {
                    &&& marks_failed(a, item.id, missing_message("event"@, item.event_id))
                    &&& final(self).stage is AwaitMark
                    &&& final(self).report.failed == old(self).report.failed + 1
                    &&& final(self).report.synced == old(self).report.synced
                    &&& final(self).report.errors@ == old(self).report.errors@
                },
                (DrainStage::AwaitEvent(item), DrainReply::Event(Some(e))) => if spec_is_local_only(e) {
                    &&& a == (DrainAction::MarkSynced { outbox_id: item.id })
                    &&& final(self).stage is AwaitMark
                    &&& final(self).report.synced == old(self).report.synced + 1
                    &&& final(self).report.failed == old(self).report.failed
                    &&& final(self).report.errors@ == old(self).report.errors@
                } else {
                    &&& a == (DrainAction::ReadRecord { record_id: e.record_id })
                    &&& final(self).stage == DrainStage::AwaitRecord(item, e)
                    &&& final(self).report == old(self).report
                },
                (DrainStage::AwaitRecord(item, e), DrainReply::Record(None, _)) => {
                    &&& marks_failed(a, item.id, missing_message("record"@, e.record_id))
                    &&& final(self).stage is AwaitMark
                    &&& final(self).report.failed == old(self).report.failed + 1
                    &&& final(self).report.synced == old(self).report.synced
                    &&& final(self).report.errors@ == old(self).report.errors@
                },
                (DrainStage::AwaitRecord(item, e), DrainReply::Record(Some(rec), links)) => {
                    &&& a == (DrainAction::Push { event: e, record: rec, links, outbox: item })
                    &&& final(self).stage == DrainStage::AwaitPush(item.id)
                    &&& final(self).report == old(self).report
                },
                (DrainStage::AwaitPush(id), DrainReply::Pushed(res)) => if res.accepted {
                    &&& a == (DrainAction::MarkSynced { outbox_id: id })
                    &&& final(self).stage is AwaitMark
                    &&& final(self).report.synced == old(self).report.synced + 1
                    &&& final(self).report.failed == old(self).report.failed
                    &&& final(self).report.errors@ == old(self).report.errors@
                } else {
                    &&& marks_failed(a, id, rejection_message(opt_view(res.error)))
                    &&& final(self).stage is AwaitMark
                    &&& final(self).report.failed == old(self).report.failed + 1
                    &&& final(self).report.synced == old(self).report.synced
                    &&& views(final(self).report.errors@)
                        == views(old(self).report.errors@).push(rejection_message(opt_view(res.error)))
                },
                (DrainStage::AwaitMark, _) => {
                    &&& Self::takes_next(*old(self), *final(self), a)
                    &&& final(self).report.synced == old(self).report.synced
                    &&& final(self).report.failed == old(self).report.failed
                    &&& final(self).report.errors@ == old(self).report.errors@
                },
                _ => false,
            },
    {
        let mut stage = DrainStage::Done;
        std::mem::swap(&mut stage, &mut self.stage);
        match (stage, reply) {
            (DrainStage::AwaitEvent(item), DrainReply::Event(None)) => {
                self.report.failed = self.report.failed + 1;
                self.stage = DrainStage::AwaitMark;
                DrainAction::MarkFailed { outbox_id: item.id, message: missing("event", item.event_id) }
            },
            (DrainStage::AwaitEvent(item), DrainReply::Event(Some(e))) => {
                if is_local_only(&e) {
                    self.report.synced = self.report.synced + 1;
                    self.stage = DrainStage::AwaitMark;
                    DrainAction::MarkSynced { outbox_id: item.id }
                } else {
                    let record_id = e.record_id;
                    self.stage = DrainStage::AwaitRecord(item, e);
                    DrainAction::ReadRecord { record_id }
                }
            },
            (DrainStage::AwaitRecord(item, e), DrainReply::Record(None, _)) => {
                self.report.failed = self.report.failed + 1;
                self.stage = DrainStage::AwaitMark;
                DrainAction::MarkFailed { outbox_id: item.id, message: missing("record", e.record_id) }
            },
            (DrainStage::AwaitRecord(item, e), DrainReply::Record(Some(rec), links)) => {
                self.stage = DrainStage::AwaitPush(item.id);
                DrainAction::Push { event: e, record: rec, links, outbox: item }
            },
            (DrainStage::AwaitPush(id), DrainReply::Pushed(res)) => {
                self.stage = DrainStage::AwaitMark;
                if res.accepted {
                    self.report.synced = self.report.synced + 1;
                    DrainAction::MarkSynced { outbox_id: id }
                } else {
                    let msg = match res.error {
                        Some(m) => m,
                        None => owned("push rejected"),
                    };
                    self.report.failed = self.report.failed + 1;
                    let ghost before = self.report.errors@;
                    self.report.errors.push(msg.clone());
                    assert(views(self.report.errors@) =~= views(before).push(msg@));
                    DrainAction::MarkFailed { outbox_id: id, message: msg }
                }
            },
            (_, _) => self.take_next(),
        }
    }
}

/// A finished drain accounts for every item it was begun with: `begin`
/// makes `processed + pending` the number of items and `advance` keeps it,
/// so once the drain is done each item was counted once, as synced or as
/// failed, and at most one refusal message was kept per failure.
pub proof fn lemma_finished_drain_counts_every_item(flow: DrainFlow, items: nat)
    requires
        flow.wf(),
        flow.stage is Done,
        flow.report.processed + flow.pending@.len() == items,
    ensures
        flow.report.processed == items,
        flow.report.synced + flow.report.failed == items,
        flow.report.errors@.len() <= flow.report.failed,
{
}

} // verus!
