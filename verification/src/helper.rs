//! The decisions of the elevated helper, which executes write operations
//! only after the user confirmed them in a dialog that shows facts the
//! helper read from the system itself.

use vstd::prelude::*;

use crate::frontend::{cancelled_result, VerifiedFacts};
use crate::model::{copy_entry, SnapshotEntry};
use crate::text::concat2;
use crate::write::{WriteOp, WriteResult, WriteResultView};

verus! {

/// Where the facts shown before confirmation come from.
#[derive(Debug, Clone)]
pub enum FactsSource {
    /// Look the item up on the system and verify it.
    Verify(String),
    /// The snapshot entry that is to be restored.
    Restore(SnapshotEntry),
    /// Nothing to show.
    Blank,
}

/// What the helper will ask the user to confirm, and what it shows.
#[derive(Debug, Clone)]
pub struct HelperPlan {
    pub op: WriteOp,
    pub facts: FactsSource,
}

/// The id that an operation names, for the operations that name an item
/// on the system.
pub open spec fn verified_item(op: WriteOp) -> Option<Seq<char>> {
    match op {
        WriteOp::Disable { item_id } => Some(item_id@),
        WriteOp::Enable { item_id } => Some(item_id@),
        WriteOp::Remove { item_id } => Some(item_id@),
        _ => None,
    }
}

/// The plan for a request: a restore request (which carries a snapshot
/// entry) takes precedence and is confirmed as a restore of that entry's
/// item; otherwise the operation is confirmed, with verified facts for
/// disable, enable and remove and none for the others. A request with
/// neither fails.
pub fn plan_request(
    operation: Option<WriteOp>,
    restore: Option<SnapshotEntry>,
    snapshot_id: Option<String>,
) -> (r: Result<HelperPlan, String>)
    ensures
        match restore {
            Some(entry) => match r {
                Ok(p) => (match p.op {
                    WriteOp::Restore { snapshot_id: sid, item_id } => item_id@ == entry.item_id@
                        && sid@ == match snapshot_id {
                        Some(s) => s@,
                        None => Seq::<char>::empty(),
                    },
                    _ => false,
                }) && (match p.facts {
                    FactsSource::Restore(e) => e == entry,
                    _ => false,
                }),
                Err(_) => false,
            },
            None => match operation {
                None => match r {
                    Ok(_) => false,
                    Err(m) => m@ == "request has neither operation nor restore"@,
                },
                Some(op) => match r {
                    Ok(p) => p.op == op && match verified_item(op) {
                        Some(id) => match p.facts {
                            FactsSource::Verify(v) => v@ == id,
                            _ => false,
                        },
                        None => p.facts is Blank,
                    },
                    Err(_) => false,
                },
            },
        },
{
    match restore {
        Some(entry) => {
            let sid = match snapshot_id {
                Some(s) => s,
                None => String::new(),
            };
            let op = WriteOp::Restore { snapshot_id: sid, item_id: entry.item_id.clone() };
            Ok(HelperPlan { op, facts: FactsSource::Restore(entry) })
        },
        None => match operation {
            None => Err(String::from_str("request has neither operation nor restore")),
            Some(op) => {
                let facts = match &op {
                    WriteOp::Disable { item_id } => FactsSource::Verify(item_id.clone()),
                    WriteOp::Enable { item_id } => FactsSource::Verify(item_id.clone()),
                    WriteOp::Remove { item_id } => FactsSource::Verify(item_id.clone()),
                    _ => FactsSource::Blank,
                };
                Ok(HelperPlan { op, facts })
            },
        },
    }
}

/// The message when the item to verify is not on the system.
pub fn item_not_found(item_id: &str) -> (r: String)
    ensures
        r@ == "item not found: "@ + item_id@,
{
    concat2("item not found: ", item_id)
}

/// The facts shown when there is nothing to verify: all empty.
pub fn blank_facts() -> (r: VerifiedFacts)
    ensures
        r.item_id@.len() == 0 && r.name@.len() == 0 && r.command@.len() == 0 && r.location@.len()
            == 0 && r.category@.len() == 0 && r.signature@.len() == 0 && r.risk@.len() == 0
            && r.reasons@.len() == 0,
{
    VerifiedFacts {
        item_id: String::new(),
        name: String::new(),
        command: String::new(),
        location: String::new(),
        category: String::new(),
        signature: String::new(),
        risk: String::new(),
        reasons: Vec::new(),
    }
}

/// What the helper does once the user answered the dialog.
#[derive(Debug, Clone)]
pub enum HelperNext {
    /// Write this result and stop; nothing on the system changes.
    Reply(WriteResult),
    /// Restore this snapshot entry.
    Restore(SnapshotEntry),
    /// Disable the item.
    Disable(String),
    /// Enable the item.
    Enable(String),
    /// Remove the item.
    Remove(String),
    /// Fail with this message.
    Fail(String),
}

/// The step after the dialog. A declined dialog only writes the
/// `cancelled by user` result: no operation reaches the system without the
/// user's yes. A confirmed dialog executes the operation: a restore of the
/// plan's entry, or disable, enable or remove of the item; adding is not
/// available in the helper, and a restore request without an entry fails.
pub fn after_confirmation(plan: &HelperPlan, confirmed: bool) -> (r: HelperNext)
    ensures
        !confirmed ==> (r matches HelperNext::Reply(w) && w@ == (WriteResultView {
            ok: false,
            message: "cancelled by user"@,
            snapshot_entry: None,
        })),
        confirmed ==> match plan.facts {
            FactsSource::Restore(e) => r matches HelperNext::Restore(x) && x == e,
            _ => match plan.op {
                WriteOp::Disable { item_id } => r matches HelperNext::Disable(i) && i@
                    == item_id@,
                WriteOp::Enable { item_id } => r matches HelperNext::Enable(i) && i@ == item_id@,
                WriteOp::Remove { item_id } => r matches HelperNext::Remove(i) && i@ == item_id@,
                WriteOp::Add { .. } => r matches HelperNext::Fail(m) && m@
                    == "add not implemented in this milestone"@,
                WriteOp::Restore { .. } => r matches HelperNext::Fail(m) && m@
                    == "restore handled separately"@,
            },
        },
{
    if !confirmed {
        return HelperNext::Reply(cancelled_result());
    }
    if let FactsSource::Restore(e) = &plan.facts {
        return HelperNext::Restore(copy_entry(e));
    }
    match &plan.op {
        WriteOp::Disable { item_id } => HelperNext::Disable(item_id.clone()),
        WriteOp::Enable { item_id } => HelperNext::Enable(item_id.clone()),
        WriteOp::Remove { item_id } => HelperNext::Remove(item_id.clone()),
        WriteOp::Add { .. } => HelperNext::Fail(
            String::from_str("add not implemented in this milestone"),
        ),
        WriteOp::Restore { .. } => HelperNext::Fail(String::from_str("restore handled separately")),
    }
}

/// The result of an executed operation is split in two: the snapshot entry
/// (if any), which the helper stores for undo, and the result it writes
/// back, which no longer carries the entry.
pub fn split_result(result: WriteResult) -> (r: (Option<SnapshotEntry>, WriteResult))
    ensures
        r.0 == result.snapshot_entry,
        r.1@ == (WriteResultView {
            ok: result.ok,
            message: result.message@,
            snapshot_entry: None,
        }),
{
    let WriteResult { ok, message, snapshot_entry } = result;
    (snapshot_entry, WriteResult { ok, message, snapshot_entry: None })
}

/// What the helper does after an operation ran on the system: store the
/// snapshot entry (if any) as a new snapshot, prune the snapshots past
/// retention, and write back the reply.
#[derive(Debug, Clone)]
pub struct AfterWrite {
    /// The entry to store as a new snapshot for undo.
    pub store: Option<SnapshotEntry>,
    /// Whether to remove the snapshots past the seven-day retention.
    pub prune: bool,
    /// The result written back, without the entry.
    pub reply: WriteResult,
}

/// The steps after an operation ran: every write that carries a snapshot
/// entry is stored as a snapshot for undo, and every successful write is
/// followed by pruning the snapshots past retention, so that snapshots are
/// kept seven days.
pub fn after_write(result: WriteResult) -> (r: AfterWrite)
    ensures
        r.store == result.snapshot_entry,
        r.prune == result.ok,
        r.reply@ == (WriteResultView {
            ok: result.ok,
            message: result.message@,
            snapshot_entry: None,
        }),
{
    let ok = result.ok;
    let (store, reply) = split_result(result);
    AfterWrite { store, prune: ok, reply }
}

/// How long the launcher waits for the helper's result, in milliseconds.
pub const HELPER_TIMEOUT_MS: u64 = 120_000;

/// How long the launcher sleeps between two looks for the result, in
/// milliseconds.
pub const HELPER_POLL_MS: u64 = 300;

/// The launcher's next step while it waits for the helper's result file.
#[derive(Debug, Clone)]
pub enum PollStep {
    /// The result is there: read it.
    Collect,
    /// Look again after this many milliseconds.
    Wait(u64),
    /// Stop waiting and fail with this message.
    GiveUp(String),
}

/// The step after a look for the result file, `elapsed_ms` milliseconds
/// after the helper was launched: read the result once it exists; else give
/// up once the two minutes have passed; else look again after 300 ms.
pub fn poll_step(result_exists: bool, elapsed_ms: u64) -> (r: PollStep)
    ensures
        result_exists ==> r is Collect,
        !result_exists && elapsed_ms > HELPER_TIMEOUT_MS ==> (r matches PollStep::GiveUp(m) && m@
            == "timed out waiting for helper (user may not have confirmed)"@),
        !result_exists && elapsed_ms <= HELPER_TIMEOUT_MS ==> (r matches PollStep::Wait(ms) && ms
            == HELPER_POLL_MS),
{
    if result_exists {
        PollStep::Collect
    } else if elapsed_ms > HELPER_TIMEOUT_MS {
        PollStep::GiveUp(String::from_str("timed out waiting for helper (user may not have confirmed)"))
    } else {
        PollStep::Wait(HELPER_POLL_MS)
    }
}

} // verus!
