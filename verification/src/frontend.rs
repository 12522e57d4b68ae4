//! Logic shared by the command line, the elevated helper and the agent
//! tools: filters, selections, and the facts and texts shown to the user.

use vstd::prelude::*;

use crate::model::{
    category_label, copy_entry, risk_label, signature_label, Category, RawEntry, Signature,
    Snapshot, SnapshotEntry,
};
use crate::rules::{strings_view, RuleResult};
use crate::text::{
    chars_of, char_is_whitespace, concat2, scan_non_ws, scan_non_ws_from,
    skip_ws, str_eq, strip_prefixes, strip_suffixes, substring, trim_end_matches_str,
    trim_start_matches_str,
};
use crate::write::{WriteOp, WriteResult, WriteResultView};

verus! {

/// An optional category filter, by label.
#[derive(Debug, Clone)]
pub struct CategoryFilter {
    /// registry_run | startup_folder | scheduled_task
    pub category: Option<String>,
}

impl CategoryFilter {
    /// Whether a category passes the filter: always without a label,
    /// otherwise when its label is the filter's.
    pub fn matches(&self, category: Category) -> (r: bool)
        ensures
            r == match self.category {
                None => true,
                Some(c) => category_label(category) == c@,
            },
    {
        match &self.category {
            None => true,
            Some(c) => str_eq(category.as_str(), c.as_str()),
        }
    }
}

/// An item id parameter.
#[derive(Debug, Clone)]
pub struct IdParam {
    /// Item id (category:location:name).
    pub id: String,
}

/// The first entry of a snapshot that belongs to the item `item_id`.
pub fn find_snapshot_entry(snap: &Snapshot, item_id: &str) -> (r: Option<SnapshotEntry>)
    ensures
        match r {
            Some(e) => exists|i: int|
                0 <= i < snap.entries@.len() && #[trigger] snap.entries@[i] == e
                    && e.item_id@ == item_id@ && forall|j: int|
                    0 <= j < i ==> (#[trigger] snap.entries@[j]).item_id@ != item_id@,
            None => forall|j: int|
                0 <= j < snap.entries@.len() ==> (#[trigger] snap.entries@[j]).item_id@
                    != item_id@,
        },
{
    let mut i: usize = 0;
    while i < snap.entries.len()
        invariant
            i <= snap.entries@.len(),
            forall|j: int| 0 <= j < i ==> (#[trigger] snap.entries@[j]).item_id@ != item_id@,
        decreases snap.entries@.len() - i,
    {
        if str_eq(snap.entries[i].item_id.as_str(), item_id) {
            let e = copy_entry(&snap.entries[i]);
            assert(snap.entries@[i as int] == e);
            return Some(e);
        }
        i = i + 1;
    }
    None
}

/// Parameters of a restore: the snapshot, and optionally the item in it.
#[derive(Debug, Clone)]
pub struct RestoreParam {
    /// Snapshot id.
    pub snapshot_id: String,
    /// Item id inside the snapshot (the first entry when absent or empty).
    pub item_id: Option<String>,
}

/// The item a restore parameter names: its id when present and not empty.
pub open spec fn named_item(item_id: Option<String>) -> Option<Seq<char>> {
    match item_id {
        Some(id) => if id@.len() > 0 {
            Some(id@)
        } else {
            None
        },
        None => None,
    }
}

impl RestoreParam {
    /// The entry of `snap` to restore: the first one of the named item, or
    /// the snapshot's first entry when no item (or an empty id) is given.
    pub fn select_entry(&self, snap: &Snapshot) -> (r: Option<SnapshotEntry>)
        ensures
            match named_item(self.item_id) {
                Some(id) => match r {
                    Some(e) => exists|i: int|
                        0 <= i < snap.entries@.len() && #[trigger] snap.entries@[i] == e
                            && e.item_id@ == id && forall|j: int|
                            0 <= j < i ==> (#[trigger] snap.entries@[j]).item_id@ != id,
                    None => forall|j: int|
                        0 <= j < snap.entries@.len() ==> (#[trigger] snap.entries@[j]).item_id@
                            != id,
                },
                None => match r {
                    Some(e) => snap.entries@.len() > 0 && e == snap.entries@[0],
                    None => snap.entries@.len() == 0,
                },
            },
    {
        if let Some(id) = &self.item_id {
            if id.as_str().unicode_len() > 0 {
                return find_snapshot_entry(snap, id.as_str());
            }
        }
        if snap.entries.len() > 0 {
            Some(copy_entry(&snap.entries[0]))
        } else {
            None
        }
    }
}

impl RestoreParam {
    /// The entry to restore, or the message that says why there is none:
    /// `item <id> not in snapshot` for a named item the snapshot lacks,
    /// `snapshot is empty` when no item (or an empty id) is given and the
    /// snapshot has no entry.
    pub fn pick(&self, snap: &Snapshot) -> (r: Result<SnapshotEntry, String>)
        ensures
            match named_item(self.item_id) {
                Some(id) => match r {
                    Ok(e) => exists|i: int|
                        0 <= i < snap.entries@.len() && #[trigger] snap.entries@[i] == e
                            && e.item_id@ == id && forall|j: int|
                            0 <= j < i ==> (#[trigger] snap.entries@[j]).item_id@ != id,
                    Err(m) => m@ == "item "@ + id + " not in snapshot"@ && forall|j: int|
                        0 <= j < snap.entries@.len() ==> (#[trigger] snap.entries@[j]).item_id@
                            != id,
                },
                None => match r {
                    Ok(e) => snap.entries@.len() > 0 && e == snap.entries@[0],
                    Err(m) => m@ == "snapshot is empty"@ && snap.entries@.len() == 0,
                },
            },
    {
        match self.select_entry(snap) {
            Some(e) => Ok(e),
            None => {
                if let Some(id) = &self.item_id {
                    if id.as_str().unicode_len() > 0 {
                        return Err(crate::text::concat3("item ", id.as_str(), " not in snapshot"));
                    }
                }
                Err(String::from_str("snapshot is empty"))
            },
        }
    }
}

/// The desktop front end's choice of the entry of `snap` (the snapshot
/// `snapshot_id`) to restore for the item `item_id`: the snapshot's first entry when the id is empty, else the
/// first entry of that item; otherwise the message `snapshot <id> is empty`
/// or `item <item> not in snapshot <id>`.
pub fn select_snapshot_entry(snap: &Snapshot, snapshot_id: &str, item_id: &str) -> (r: Result<
    SnapshotEntry,
    String,
>)
    ensures
        item_id@.len() == 0 ==> match r {
            Ok(e) => snap.entries@.len() > 0 && e == snap.entries@[0],
            Err(m) => m@ == "snapshot "@ + snapshot_id@ + " is empty"@ && snap.entries@.len() == 0,
        },
        item_id@.len() > 0 ==> match r {
            Ok(e) => exists|i: int|
                0 <= i < snap.entries@.len() && #[trigger] snap.entries@[i] == e && e.item_id@
                    == item_id@ && forall|j: int|
                    0 <= j < i ==> (#[trigger] snap.entries@[j]).item_id@ != item_id@,
            Err(m) => m@ == "item "@ + item_id@ + " not in snapshot "@ + snapshot_id@ && forall|
                j: int,
            |
                0 <= j < snap.entries@.len() ==> (#[trigger] snap.entries@[j]).item_id@
                    != item_id@,
        },
{
    if item_id.unicode_len() == 0 {
        if snap.entries.len() > 0 {
            Ok(copy_entry(&snap.entries[0]))
        } else {
            Err(crate::text::concat3("snapshot ", snapshot_id, " is empty"))
        }
    } else {
        match find_snapshot_entry(snap, item_id) {
            Some(e) => Ok(e),
            None => {
                let mut m = crate::text::concat3("item ", item_id, " not in snapshot ");
                m.append(snapshot_id);
                Err(m)
            },
        }
    }
}

/// The write operation that a desktop front-end action names for the item `id`:
/// `disable`, `enable` or `remove`; any other action is refused with
/// `unknown write action: <action>`.
pub fn write_op_for_action(action: &str, id: &str) -> (r: Result<WriteOp, String>)
    ensures
        action@ == "disable"@ ==> (r matches Ok(WriteOp::Disable { item_id }) && item_id@ == id@),
        action@ == "enable"@ ==> (r matches Ok(WriteOp::Enable { item_id }) && item_id@ == id@),
        action@ == "remove"@ ==> (r matches Ok(WriteOp::Remove { item_id }) && item_id@ == id@),
        action@ != "disable"@ && action@ != "enable"@ && action@ != "remove"@ ==> (r matches Err(m)
            && m@ == "unknown write action: "@ + action@),
{
    proof {
        reveal_strlit("disable");
        reveal_strlit("enable");
        reveal_strlit("remove");
        assert("disable"@.len() != "enable"@.len() && "disable"@.len() != "remove"@.len());
        assert("enable"@[0] != "remove"@[0]);
    }
    if str_eq(action, "disable") {
        Ok(WriteOp::Disable { item_id: String::from_str(id) })
    } else if str_eq(action, "enable") {
        Ok(WriteOp::Enable { item_id: String::from_str(id) })
    } else if str_eq(action, "remove") {
        Ok(WriteOp::Remove { item_id: String::from_str(id) })
    } else {
        Err(concat2("unknown write action: ", action))
    }
}

/// The text between the quotes that may surround a command, both sides
/// stripped of every double quote (`str::trim_matches('"')`).
pub open spec fn unquote(s: Seq<char>) -> Seq<char> {
    strip_prefixes(strip_suffixes(s, "\""@), "\""@)
}

/// The file whose signature is checked for a command: the first
/// whitespace-separated word of the command once its surrounding quotes are
/// stripped; `None` when there is no word.
pub open spec fn spec_signature_target(command: Seq<char>) -> Option<Seq<char>> {
    let t = unquote(command);
    let a = skip_ws(t, 0);
    if a < t.len() {
        Some(t.subrange(a, scan_non_ws(t, a)))
    } else {
        None
    }
}

/// The file whose signature is checked for a command, if any.
pub fn signature_target(command: &str) -> (r: Option<String>)
    ensures
        r matches Some(p) ==> spec_signature_target(command@) == Some(p@),
        r is None ==> spec_signature_target(command@) is None,
{
    let a1 = trim_end_matches_str(command, "\"");
    let t = trim_start_matches_str(a1.as_str(), "\"");
    let v = chars_of(t.as_str());
    let mut a: usize = 0;
    while a < v.len() && char_is_whitespace(v[a])
        invariant
            a <= v@.len(),
            v@ == t@,
            skip_ws(t@, 0) == skip_ws(t@, a as int),
        decreases v@.len() - a,
    {
        a = a + 1;
    }
    if a < v.len() {
        let e = scan_non_ws_from(&v, a);
        Some(substring(t.as_str(), a, e))
    } else {
        None
    }
}

} // verus!

verus! {

/// Facts about an item, read from the system by the helper itself and
/// shown in its confirmation dialog.
#[derive(Debug, Clone)]
pub struct VerifiedFacts {
    pub item_id: String,
    pub name: String,
    pub command: String,
    pub location: String,
    pub category: String,
    pub signature: String,
    pub risk: String,
    pub reasons: Vec<String>,
}

/// A copy of a list of strings.
pub fn copy_strings(v: &Vec<String>) -> (r: Vec<String>)
    ensures
        r@ == v@,
{
    let mut out: Vec<String> = Vec::new();
    let mut i: usize = 0;
    while i < v.len()
        invariant
            i <= v@.len(),
            out@ == v@.take(i as int),
        decreases v@.len() - i,
    {
        out.push(v[i].clone());
        assert(out@ =~= v@.take(i as int + 1));
        i = i + 1;
    }
    assert(v@.take(v@.len() as int) =~= v@);
    out
}

/// The facts shown for an item: its fields, the labels of its category,
/// signature status and risk, and the rule engine's reasons.
pub fn facts_for(item_id: &str, raw: &RawEntry, signature: Signature, rule: &RuleResult) -> (r:
    VerifiedFacts)
    ensures
        r.item_id@ == item_id@,
        r.name@ == raw.name@,
        r.command@ == raw.command@,
        r.location@ == raw.location@,
        r.category@ == category_label(raw.category),
        r.signature@ == signature_label(signature),
        r.risk@ == risk_label(rule.risk),
        r.reasons@ == rule.reasons@,
{
    VerifiedFacts {
        item_id: String::from_str(item_id),
        name: raw.name.clone(),
        command: raw.command.clone(),
        location: raw.location.clone(),
        category: String::from_str(raw.category.as_str()),
        signature: String::from_str(signature.label()),
        risk: String::from_str(rule.risk.label()),
        reasons: copy_strings(&rule.reasons),
    }
}

/// The facts shown before a restore: the entry's original name, command,
/// location and category, and the single reason `restore from snapshot`.
pub fn restore_facts(entry: &SnapshotEntry) -> (r: VerifiedFacts)
    ensures
        r.item_id@ == entry.item_id@,
        r.name@ == entry.original_name@,
        r.command@ == entry.command@,
        r.location@ == entry.location@,
        r.category@ == category_label(entry.category),
        r.signature@ == Seq::<char>::empty(),
        r.risk@ == Seq::<char>::empty(),
        strings_view(r.reasons@) == seq!["restore from snapshot"@],
{
    let mut reasons: Vec<String> = Vec::new();
    reasons.push(String::from_str("restore from snapshot"));
    assert(strings_view(reasons@) =~= seq!["restore from snapshot"@]);
    VerifiedFacts {
        item_id: entry.item_id.clone(),
        name: entry.original_name.clone(),
        command: entry.command.clone(),
        location: entry.location.clone(),
        category: String::from_str(entry.category.as_str()),
        signature: String::new(),
        risk: String::new(),
        reasons,
    }
}

/// The strings of `list` joined by `sep`.
pub open spec fn join_with(list: Seq<Seq<char>>, sep: Seq<char>) -> Seq<char>
    decreases list.len(),
{
    if list.len() == 0 {
        Seq::empty()
    } else if list.len() == 1 {
        list[0]
    } else {
        join_with(list.drop_last(), sep) + sep + list.last()
    }
}

/// The strings of `list` joined by `sep`.
pub fn join_strings(list: &Vec<String>, sep: &str) -> (r: String)
    ensures
        r@ == join_with(strings_view(list@), sep@),
{
    let mut out = String::new();
    let ghost all = strings_view(list@);
    let mut i: usize = 0;
    while i < list.len()
        invariant
            i <= list@.len(),
            all == strings_view(list@),
            out@ == join_with(all.take(i as int), sep@),
        decreases list@.len() - i,
    {
        let ghost prefix = all.take(i as int + 1);
        assert(prefix.drop_last() =~= all.take(i as int));
        assert(prefix.last() == list@[i as int]@);
        if i == 0 {
            assert(prefix.len() == 1);
            out.append(list[i].as_str());
            assert(out@ =~= prefix[0]);
        } else {
            out.append(sep);
            out.append(list[i].as_str());
        }
        i = i + 1;
    }
    assert(all.take(list@.len() as int) =~= all);
    out
}

/// The reasons as shown after the risk: empty without reasons, otherwise
/// `(reason, reason, ...)`.
pub open spec fn reasons_text(reasons: Seq<Seq<char>>) -> Seq<char> {
    if reasons.len() == 0 {
        Seq::empty()
    } else {
        "("@ + join_with(reasons, ", "@) + ")"@
    }
}

/// The title and the verb of the confirmation dialog for an operation.
pub open spec fn spec_confirm_title(op: WriteOp) -> (Seq<char>, Seq<char>) {
    match op {
        WriteOp::Disable { .. } => ("BootKeeper \u{2014} Disable startup item"@, "Disable"@),
        WriteOp::Enable { .. } => ("BootKeeper \u{2014} Enable startup item"@, "Enable"@),
        WriteOp::Remove { .. } => ("BootKeeper \u{2014} Remove startup item"@, "Remove"@),
        WriteOp::Add { .. } => ("BootKeeper \u{2014} Add startup item"@, "Add"@),
        WriteOp::Restore { .. } => ("BootKeeper \u{2014} Restore startup item"@, "Restore"@),
    }
}

/// The title and the verb of the confirmation dialog for an operation.
pub fn confirm_title(op: &WriteOp) -> (r: (&'static str, &'static str))
    ensures
        (r.0@, r.1@) == spec_confirm_title(*op),
{
    match op {
        WriteOp::Disable { .. } => ("BootKeeper \u{2014} Disable startup item", "Disable"),
        WriteOp::Enable { .. } => ("BootKeeper \u{2014} Enable startup item", "Enable"),
        WriteOp::Remove { .. } => ("BootKeeper \u{2014} Remove startup item", "Remove"),
        WriteOp::Add { .. } => ("BootKeeper \u{2014} Add startup item", "Add"),
        WriteOp::Restore { .. } => ("BootKeeper \u{2014} Restore startup item", "Restore"),
    }
}

/// The body of the confirmation dialog: the question, the verified facts,
/// and the note on elevation and undo.
pub open spec fn spec_confirm_body(
    verb: Seq<char>,
    name: Seq<char>,
    category: Seq<char>,
    command: Seq<char>,
    location: Seq<char>,
    signature: Seq<char>,
    risk: Seq<char>,
    reasons: Seq<Seq<char>>,
) -> Seq<char> {
    verb + " this startup item?\n\nNAME:      "@ + name + "\nCATEGORY:  "@ + category
        + "\nCOMMAND:   "@ + command + "\nLOCATION:  "@ + location + "\nSIGNATURE: "@ + signature
        + "\nRISK:      "@ + risk + " "@ + reasons_text(reasons)
        + "\n\nThis will be executed with administrator privileges. A snapshot is\ncreated so the change can be undone within 7 days."@
}

/// The body of the confirmation dialog for `verb` and the facts.
pub fn confirm_body(verb: &str, facts: &VerifiedFacts) -> (r: String)
    ensures
        r@ == spec_confirm_body(
            verb@,
            facts.name@,
            facts.category@,
            facts.command@,
            facts.location@,
            facts.signature@,
            facts.risk@,
            strings_view(facts.reasons@),
        ),
{
    let reasons = if facts.reasons.len() == 0 {
        String::new()
    } else {
        let mut t = String::from_str("(");
        let j = join_strings(&facts.reasons, ", ");
        t.append(j.as_str());
        t.append(")");
        t
    };
    let mut b = String::from_str(verb);
    b.append(" this startup item?\n\nNAME:      ");
    b.append(facts.name.as_str());
    b.append("\nCATEGORY:  ");
    b.append(facts.category.as_str());
    b.append("\nCOMMAND:   ");
    b.append(facts.command.as_str());
    b.append("\nLOCATION:  ");
    b.append(facts.location.as_str());
    b.append("\nSIGNATURE: ");
    b.append(facts.signature.as_str());
    b.append("\nRISK:      ");
    b.append(facts.risk.as_str());
    b.append(" ");
    b.append(reasons.as_str());
    b.append(
        "\n\nThis will be executed with administrator privileges. A snapshot is\ncreated so the change can be undone within 7 days.",
    );
    b
}

/// The result written when the user declines the confirmation.
pub fn cancelled_result() -> (r: WriteResult)
    ensures
        r@ == (WriteResultView { ok: false, message: "cancelled by user"@, snapshot_entry: None }),
{
    WriteResult { ok: false, message: String::from_str("cancelled by user"), snapshot_entry: None }
}

/// The result written when the helper fails with `message`.
pub fn helper_error_result(message: &str) -> (r: WriteResult)
    ensures
        r@ == (WriteResultView {
            ok: false,
            message: "helper error: "@ + message@,
            snapshot_entry: None,
        }),
{
    WriteResult { ok: false, message: concat2("helper error: ", message), snapshot_entry: None }
}

} // verus!
