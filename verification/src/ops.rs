//! The decisions behind write operations.
//!
//! Each operation is split in two: a plan, computed here from the item id
//! alone, that says what must change on the system (or that nothing needs
//! to), and a result, computed here once the change was made, from what the
//! change reported.

use vstd::prelude::*;

use crate::error::{msg_error, Error, ErrorView};
use crate::model::{disabled_suffix, is_disabled_name, Category, SnapshotEntry, SnapshotEntryView};
use crate::text::{
    chars_of, concat2, has_suffix, concat3, has_prefix, rfind_before, rfind_char_before, str_ends_with,
    str_starts_with, strip_prefix_str, strip_prefixes, strip_suffixes, substring, trim_end_matches_str,
    trim_start_matches_str,
};
use crate::write::{ok_result, parse_item_id, spec_parse_item_id, WriteResult, WriteResultView};

verus! {

/// The suffix appended to a registry value or file name to disable it.
pub const DISABLED_SUFFIX: &'static str = ".disabled";

/// `name` with every trailing `.disabled` removed.
pub fn trim_disabled_suffix(name: &str) -> (r: String)
    ensures
        r@ == strip_suffixes(name@, disabled_suffix()),
{
    trim_end_matches_str(name, ".disabled")
}

/// The parent folder of a task path: the path without trailing backslashes,
/// cut at its last backslash; `\` when that backslash is the first
/// character or there is none.
pub open spec fn spec_task_parent_folder(task_path: Seq<char>) -> Seq<char> {
    let t = strip_suffixes(task_path, "\\"@);
    match rfind_before(t, '\\', t.len() as int) {
        Some(k) => if k > 0 {
            t.subrange(0, k)
        } else {
            "\\"@
        },
        None => "\\"@,
    }
}

/// Given a task path like `\Microsoft\Windows\Foo`, return the parent
/// folder `\Microsoft\Windows`.
pub fn task_parent_folder(task_path: &str) -> (r: String)
    ensures
        r@ == spec_task_parent_folder(task_path@),
{
    let t = trim_end_matches_str(task_path, "\\");
    let v = chars_of(t.as_str());
    match rfind_char_before(&v, '\\', v.len()) {
        Some(idx) => {
            if idx > 0 {
                substring(t.as_str(), 0, idx)
            } else {
                String::from_str("\\")
            }
        },
        None => String::from_str("\\"),
    }
}

/// A registry root.
#[derive(Debug, Clone, Copy, PartialEq, Eq, Structural)]
pub enum Hive {
    /// HKEY_CURRENT_USER
    CurrentUser,
    /// HKEY_LOCAL_MACHINE
    LocalMachine,
}

/// The key under which the Run and RunOnce keys lie; a location label
/// `HKCU\...\Run` abbreviates it as `...`.
pub open spec fn current_version_key() -> Seq<char> {
    "SOFTWARE\\Microsoft\\Windows\\CurrentVersion"@
}

/// The subkey that a key path names under its hive: an abbreviated
/// `...\<sub>` stands for `SOFTWARE\Microsoft\Windows\CurrentVersion\<sub>`;
/// any other subkey is taken as it is written.
pub open spec fn expand_subkey(sub: Seq<char>) -> Seq<char> {
    if has_prefix(sub, "...\\"@) {
        current_version_key() + sub.subrange(3, sub.len() as int)
    } else {
        sub
    }
}

/// The hive and subkey that a key path like `HKCU\Software\...` or a
/// location label like `HKCU\...\Run` names.
pub open spec fn spec_parse_hive_and_key(key_path: Seq<char>) -> Result<
    (Hive, Seq<char>),
    ErrorView,
> {
    if has_prefix(key_path, "HKCU"@) {
        Ok(
            (
                Hive::CurrentUser,
                expand_subkey(
                    strip_prefixes(key_path.subrange("HKCU"@.len() as int, key_path.len() as int), "\\"@),
                ),
            ),
        )
    } else if has_prefix(key_path, "HKLM"@) {
        Ok(
            (
                Hive::LocalMachine,
                expand_subkey(
                    strip_prefixes(key_path.subrange("HKLM"@.len() as int, key_path.len() as int), "\\"@),
                ),
            ),
        )
    } else {
        Err(ErrorView::Msg("bad hive in key path: "@ + key_path))
    }
}

fn expand_subkey_str(sub: String) -> (r: String)
    ensures
        r@ == expand_subkey(sub@),
{
    if str_starts_with(sub.as_str(), "...\\") {
        match strip_prefix_str(sub.as_str(), "...") {
            Some(rest) => {
                proof {
                    reveal_strlit("...");
                    reveal_strlit("...\\");
                }
                concat2("SOFTWARE\\Microsoft\\Windows\\CurrentVersion", rest.as_str())
            },
            None => {
                proof {
                    reveal_strlit("...");
                    reveal_strlit("...\\");
                    assert(sub@.subrange(0, 3) =~= "..."@);
                }
                sub
            },
        }
    } else {
        sub
    }
}

/// Split a key path like `HKCU\Software\...`, or a location label like
/// `HKCU\...\Run`, into its hive and the subkey.
pub fn parse_hive_and_key(key_path: &str) -> (r: Result<(Hive, String), Error>)
    ensures
        match r {
            Ok((h, k)) => spec_parse_hive_and_key(key_path@) == Ok::<(Hive, Seq<char>), ErrorView>(
                (h, k@),
            ),
            Err(e) => spec_parse_hive_and_key(key_path@) == Err::<(Hive, Seq<char>), ErrorView>(
                e@,
            ),
        },
{
    if let Some(rest) = strip_prefix_str(key_path, "HKCU") {
        Ok((Hive::CurrentUser, expand_subkey_str(trim_start_matches_str(rest.as_str(), "\\"))))
    } else if let Some(rest) = strip_prefix_str(key_path, "HKLM") {
        Ok((Hive::LocalMachine, expand_subkey_str(trim_start_matches_str(rest.as_str(), "\\"))))
    } else {
        Err(msg_error("bad hive in key path: ", key_path))
    }
}

/// A change that a write operation makes on the system.
#[derive(Debug, Clone)]
pub enum Action {
    /// Rename the registry value or startup file `from` to `to` under `location`.
    Rename { category: Category, location: String, from: String, to: String },
    /// Set the enabled state of the scheduled task `name` at task path `location`.
    SetTaskEnabled { location: String, name: String, enabled: bool },
    /// Delete the registry value, startup file or scheduled task `name` under `location`.
    Delete { category: Category, location: String, name: String },
}

/// The contents of an action.
pub enum ActionView {
    Rename { category: Category, location: Seq<char>, from: Seq<char>, to: Seq<char> },
    SetTaskEnabled { location: Seq<char>, name: Seq<char>, enabled: bool },
    Delete { category: Category, location: Seq<char>, name: Seq<char> },
}

impl View for Action {
    type V = ActionView;

    open spec fn view(&self) -> ActionView {
        match self {
            Action::Rename { category, location, from, to } => ActionView::Rename {
                category: *category,
                location: location@,
                from: from@,
                to: to@,
            },
            Action::SetTaskEnabled { location, name, enabled } => ActionView::SetTaskEnabled {
                location: location@,
                name: name@,
                enabled: *enabled,
            },
            Action::Delete { category, location, name } => ActionView::Delete {
                category: *category,
                location: location@,
                name: name@,
            },
        }
    }
}

/// Which operation a change belongs to.
#[derive(Debug, Clone, Copy, PartialEq, Eq, Structural)]
pub enum Verb {
    Disabled,
    Enabled,
    Removed,
}

/// The word that reports an operation: `disabled`, `enabled`, `removed`.
pub open spec fn verb_word(v: Verb) -> Seq<char> {
    match v {
        Verb::Disabled => "disabled"@,
        Verb::Enabled => "enabled"@,
        Verb::Removed => "removed"@,
    }
}

/// A change to make for the item `item_id`.
#[derive(Debug, Clone)]
pub struct Change {
    pub item_id: String,
    pub verb: Verb,
    pub action: Action,
}

/// The contents of a change.
pub struct ChangeView {
    pub item_id: Seq<char>,
    pub verb: Verb,
    pub action: ActionView,
}

impl View for Change {
    type V = ChangeView;

    open spec fn view(&self) -> ChangeView {
        ChangeView { item_id: self.item_id@, verb: self.verb, action: self.action@ }
    }
}

/// What a write operation has to do: nothing more (the result is known),
/// or make a change on the system.
#[derive(Debug, Clone)]
pub enum Plan {
    Finished(WriteResult),
    Perform(Change),
}

/// The contents of a plan.
pub enum PlanView {
    Finished(WriteResultView),
    Perform(ChangeView),
}

impl View for Plan {
    type V = PlanView;

    open spec fn view(&self) -> PlanView {
        match self {
            Plan::Finished(w) => PlanView::Finished(w@),
            Plan::Perform(c) => PlanView::Perform(c@),
        }
    }
}

/// The contents of a plan or of the error that stops it.
pub open spec fn plan_result_view(r: Result<Plan, Error>) -> Result<PlanView, ErrorView> {
    match r {
        Ok(p) => Ok(p@),
        Err(e) => Err(e@),
    }
}

/// The error for an id that does not parse.
pub open spec fn bad_id(item_id: Seq<char>) -> ErrorView {
    ErrorView::Msg("bad item id: "@ + item_id)
}

/// A finished plan whose result reports `message`.
pub open spec fn finished(message: Seq<char>) -> PlanView {
    PlanView::Finished(WriteResultView { ok: true, message, snapshot_entry: None })
}

/// Disable: rename the value or file to `name.disabled`, or switch a task off.
pub open spec fn spec_plan_disable(item_id: Seq<char>) -> Result<PlanView, ErrorView> {
    match spec_parse_item_id(item_id) {
        None => Err(bad_id(item_id)),
        Some((c, l, n)) => if c == Category::ScheduledTask {
            Ok(
                PlanView::Perform(
                    ChangeView {
                        item_id,
                        verb: Verb::Disabled,
                        action: ActionView::SetTaskEnabled { location: l, name: n, enabled: false },
                    },
                ),
            )
        } else if is_disabled_name(n) {
            Ok(finished("already disabled"@))
        } else {
            Ok(
                PlanView::Perform(
                    ChangeView {
                        item_id,
                        verb: Verb::Disabled,
                        action: ActionView::Rename {
                            category: c,
                            location: l,
                            from: n,
                            to: n + disabled_suffix(),
                        },
                    },
                ),
            )
        },
    }
}

/// Enable: rename `name.disabled` back to `name`, or switch a task on.
pub open spec fn spec_plan_enable(item_id: Seq<char>) -> Result<PlanView, ErrorView> {
    match spec_parse_item_id(item_id) {
        None => Err(bad_id(item_id)),
        Some((c, l, n)) => if c == Category::ScheduledTask {
            Ok(
                PlanView::Perform(
                    ChangeView {
                        item_id,
                        verb: Verb::Enabled,
                        action: ActionView::SetTaskEnabled { location: l, name: n, enabled: true },
                    },
                ),
            )
        } else if !is_disabled_name(n) {
            Ok(finished("already enabled"@))
        } else {
            Ok(
                PlanView::Perform(
                    ChangeView {
                        item_id,
                        verb: Verb::Enabled,
                        action: ActionView::Rename {
                            category: c,
                            location: l,
                            from: n,
                            to: strip_suffixes(n, disabled_suffix()),
                        },
                    },
                ),
            )
        },
    }
}

/// Remove: delete the value, file or task.
pub open spec fn spec_plan_remove(item_id: Seq<char>) -> Result<PlanView, ErrorView> {
    match spec_parse_item_id(item_id) {
        None => Err(bad_id(item_id)),
        Some((c, l, n)) => Ok(
            PlanView::Perform(
                ChangeView {
                    item_id,
                    verb: Verb::Removed,
                    action: ActionView::Delete { category: c, location: l, name: n },
                },
            ),
        ),
    }
}

fn bad_id_error(item_id: &str) -> (r: Error)
    ensures
        r@ == bad_id(item_id@),
{
    msg_error("bad item id: ", item_id)
}

/// Plan the disabling of an item.
pub fn plan_disable(item_id: &str) -> (r: Result<Plan, Error>)
    ensures
        plan_result_view(r) == spec_plan_disable(item_id@),
{
    let (cat, location, name) = match parse_item_id(item_id) {
        Some(parts) => parts,
        None => return Err(bad_id_error(item_id)),
    };
    match cat {
        Category::ScheduledTask => Ok(
            Plan::Perform(
                Change {
                    item_id: String::from_str(item_id),
                    verb: Verb::Disabled,
                    action: Action::SetTaskEnabled { location, name, enabled: false },
                },
            ),
        ),
        _ => {
            if str_ends_with(name.as_str(), DISABLED_SUFFIX) {
                return Ok(Plan::Finished(ok_result(String::from_str("already disabled"))));
            }
            let new_name = concat2(name.as_str(), DISABLED_SUFFIX);
            Ok(
                Plan::Perform(
                    Change {
                        item_id: String::from_str(item_id),
                        verb: Verb::Disabled,
                        action: Action::Rename { category: cat, location, from: name, to: new_name },
                    },
                ),
            )
        },
    }
}

/// Plan the enabling of an item.
pub fn plan_enable(item_id: &str) -> (r: Result<Plan, Error>)
    ensures
        plan_result_view(r) == spec_plan_enable(item_id@),
{
    let (cat, location, name) = match parse_item_id(item_id) {
        Some(parts) => parts,
        None => return Err(bad_id_error(item_id)),
    };
    match cat {
        Category::ScheduledTask => Ok(
            Plan::Perform(
                Change {
                    item_id: String::from_str(item_id),
                    verb: Verb::Enabled,
                    action: Action::SetTaskEnabled { location, name, enabled: true },
                },
            ),
        ),
        _ => {
            if !str_ends_with(name.as_str(), DISABLED_SUFFIX) {
                return Ok(Plan::Finished(ok_result(String::from_str("already enabled"))));
            }
            let orig = trim_disabled_suffix(name.as_str());
            Ok(
                Plan::Perform(
                    Change {
                        item_id: String::from_str(item_id),
                        verb: Verb::Enabled,
                        action: Action::Rename { category: cat, location, from: name, to: orig },
                    },
                ),
            )
        },
    }
}

/// Plan the removal of an item.
pub fn plan_remove(item_id: &str) -> (r: Result<Plan, Error>)
    ensures
        plan_result_view(r) == spec_plan_remove(item_id@),
{
    let (cat, location, name) = match parse_item_id(item_id) {
        Some(parts) => parts,
        None => return Err(bad_id_error(item_id)),
    };
    Ok(
        Plan::Perform(
            Change {
                item_id: String::from_str(item_id),
                verb: Verb::Removed,
                action: Action::Delete { category: cat, location, name },
            },
        ),
    )
}

} // verus!

verus! {

/// The snapshot entry recorded for a change, given the command the changed
/// entry held (the decoded registry value or the file's path; tasks record
/// no command).
pub open spec fn change_entry(ch: ChangeView, command: Seq<char>) -> SnapshotEntryView {
    match ch.action {
        ActionView::Rename { category, location, from, to } => SnapshotEntryView {
            item_id: ch.item_id,
            original_name: from,
            current_name: to,
            command,
            location,
            category,
            was_removed: false,
        },
        ActionView::SetTaskEnabled { location, name, enabled } => SnapshotEntryView {
            item_id: ch.item_id,
            original_name: name,
            current_name: name,
            command: Seq::empty(),
            location,
            category: Category::ScheduledTask,
            was_removed: false,
        },
        ActionView::Delete { category, location, name } => SnapshotEntryView {
            item_id: ch.item_id,
            original_name: name,
            current_name: name,
            command: if category == Category::ScheduledTask {
                Seq::empty()
            } else {
                command
            },
            location,
            category,
            was_removed: true,
        },
    }
}

/// The result of a change that was made: `<verb> <item id>`, with the
/// snapshot entry for undo.
pub open spec fn spec_change_result(ch: ChangeView, command: Seq<char>) -> WriteResultView {
    WriteResultView {
        ok: true,
        message: verb_word(ch.verb) + " "@ + ch.item_id,
        snapshot_entry: Some(change_entry(ch, command)),
    }
}

fn verb_str(v: Verb) -> (r: &'static str)
    ensures
        r@ == verb_word(v),
{
    match v {
        Verb::Disabled => "disabled",
        Verb::Enabled => "enabled",
        Verb::Removed => "removed",
    }
}

/// The result of a change once it was made on the system; `command` is
/// what the changed entry held.
pub fn change_result(change: &Change, command: &str) -> (r: WriteResult)
    ensures
        r@ == spec_change_result(change@, command@),
{
    let entry = match &change.action {
        Action::Rename { category, location, from, to } => SnapshotEntry {
            item_id: change.item_id.clone(),
            original_name: from.clone(),
            current_name: to.clone(),
            command: String::from_str(command),
            location: location.clone(),
            category: *category,
            was_removed: false,
        },
        Action::SetTaskEnabled { location, name, enabled } => SnapshotEntry {
            item_id: change.item_id.clone(),
            original_name: name.clone(),
            current_name: name.clone(),
            command: String::new(),
            location: location.clone(),
            category: Category::ScheduledTask,
            was_removed: false,
        },
        Action::Delete { category, location, name } => SnapshotEntry {
            item_id: change.item_id.clone(),
            original_name: name.clone(),
            current_name: name.clone(),
            command: if *category == Category::ScheduledTask {
                String::new()
            } else {
                String::from_str(command)
            },
            location: location.clone(),
            category: *category,
            was_removed: true,
        },
    };
    let message = concat3(verb_str(change.verb), " ", change.item_id.as_str());
    WriteResult { ok: true, message, snapshot_entry: Some(entry) }
}

} // verus!

verus! {

/// A change that undoes an earlier one, from its snapshot entry.
#[derive(Debug, Clone)]
pub enum RestoreAction {
    /// Write the registry value `name` under key path `location` as a
    /// `REG_SZ` value holding `data`.
    SetRegistryValue { location: String, name: String, data: Vec<u8> },
    /// Rename the registry value `from` to `to` under `location`, when `from` exists.
    RenameRegistryValueIfPresent { location: String, from: String, to: String },
    /// Create an empty startup file `name` in the startup folder `location`.
    CreateEmptyFile { location: String, name: String },
    /// Rename the startup file `from` to `to` in the folder `location`, when `from` exists.
    RenameFileIfPresent { location: String, from: String, to: String },
    /// Enable the scheduled task `name` at task path `location`.
    EnableTask { location: String, name: String },
}

/// The contents of a restore action.
pub enum RestoreActionView {
    SetRegistryValue { location: Seq<char>, name: Seq<char>, data: Seq<u8> },
    RenameRegistryValueIfPresent { location: Seq<char>, from: Seq<char>, to: Seq<char> },
    CreateEmptyFile { location: Seq<char>, name: Seq<char> },
    RenameFileIfPresent { location: Seq<char>, from: Seq<char>, to: Seq<char> },
    EnableTask { location: Seq<char>, name: Seq<char> },
}

impl View for RestoreAction {
    type V = RestoreActionView;

    open spec fn view(&self) -> RestoreActionView {
        match self {
            RestoreAction::SetRegistryValue { location, name, data } =>
                RestoreActionView::SetRegistryValue {
                location: location@,
                name: name@,
                data: data@,
            },
            RestoreAction::RenameRegistryValueIfPresent { location, from, to } =>
                RestoreActionView::RenameRegistryValueIfPresent {
                location: location@,
                from: from@,
                to: to@,
            },
            RestoreAction::CreateEmptyFile { location, name } => RestoreActionView::CreateEmptyFile {
                location: location@,
                name: name@,
            },
            RestoreAction::RenameFileIfPresent { location, from, to } =>
                RestoreActionView::RenameFileIfPresent {
                location: location@,
                from: from@,
                to: to@,
            },
            RestoreAction::EnableTask { location, name } => RestoreActionView::EnableTask {
                location: location@,
                name: name@,
            },
        }
    }
}

/// What undoes the change that a snapshot entry recorded: a removed
/// registry value is written back holding its command (as UTF-16LE, the
/// way `REG_SZ` values are stored), a
/// removed startup file is recreated empty, a renamed value or file is
/// renamed back from its current to its original name, and a task is
/// re-enabled. Service entries cannot be restored.
pub open spec fn spec_plan_restore(snap: SnapshotEntryView) -> Result<RestoreActionView, ErrorView> {
    match snap.category {
        Category::RegistryRun => if snap.was_removed {
            Ok(
                RestoreActionView::SetRegistryValue {
                    location: snap.location,
                    name: snap.original_name,
                    data: crate::regvalue::utf16le_bytes(snap.command),
                },
            )
        } else {
            Ok(
                RestoreActionView::RenameRegistryValueIfPresent {
                    location: snap.location,
                    from: snap.current_name,
                    to: snap.original_name,
                },
            )
        },
        Category::StartupFolder => if snap.was_removed {
            Ok(
                RestoreActionView::CreateEmptyFile {
                    location: snap.location,
                    name: snap.original_name,
                },
            )
        } else {
            Ok(
                RestoreActionView::RenameFileIfPresent {
                    location: snap.location,
                    from: snap.current_name,
                    to: snap.original_name,
                },
            )
        },
        Category::ScheduledTask => Ok(
            RestoreActionView::EnableTask { location: snap.location, name: snap.original_name },
        ),
        Category::Service => Err(ErrorView::Msg("restoring services is not supported"@)),
    }
}

/// Plan the undoing of the change that `snap` recorded.
pub fn plan_restore(snap: &SnapshotEntry) -> (r: Result<RestoreAction, Error>)
    ensures
        match r {
            Ok(a) => spec_plan_restore(snap@) == Ok::<RestoreActionView, ErrorView>(a@),
            Err(e) => spec_plan_restore(snap@) == Err::<RestoreActionView, ErrorView>(e@),
        },
{
    match snap.category {
        Category::RegistryRun => {
            if snap.was_removed {
                Ok(
                    RestoreAction::SetRegistryValue {
                        location: snap.location.clone(),
                        name: snap.original_name.clone(),
                        data: crate::regvalue::encode_utf16le(snap.command.as_str()),
                    },
                )
            } else {
                Ok(
                    RestoreAction::RenameRegistryValueIfPresent {
                        location: snap.location.clone(),
                        from: snap.current_name.clone(),
                        to: snap.original_name.clone(),
                    },
                )
            }
        },
        Category::StartupFolder => {
            if snap.was_removed {
                Ok(
                    RestoreAction::CreateEmptyFile {
                        location: snap.location.clone(),
                        name: snap.original_name.clone(),
                    },
                )
            } else {
                Ok(
                    RestoreAction::RenameFileIfPresent {
                        location: snap.location.clone(),
                        from: snap.current_name.clone(),
                        to: snap.original_name.clone(),
                    },
                )
            }
        },
        Category::ScheduledTask => Ok(
            RestoreAction::EnableTask {
                location: snap.location.clone(),
                name: snap.original_name.clone(),
            },
        ),
        Category::Service => Err(Error::Msg(String::from_str("restoring services is not supported"))),
    }
}

/// The result once a restore was made: `restored <item id>`.
pub fn restore_result(snap: &SnapshotEntry) -> (r: WriteResult)
    ensures
        r@ == (WriteResultView {
            ok: true,
            message: "restored "@ + snap.item_id@,
            snapshot_entry: None,
        }),
{
    ok_result(concat2("restored ", snap.item_id.as_str()))
}

/// A change that adds a startup entry.
#[derive(Debug, Clone)]
pub enum AddAction {
    /// Write the registry value `name` under key path `location` as a
    /// `REG_SZ` value holding `data`.
    SetRegistryValue { location: String, name: String, data: Vec<u8> },
    /// Copy the file `source` into the startup folder `location` as `name`.
    CopyFile { location: String, name: String, source: String },
}

/// The contents of an add action.
pub enum AddActionView {
    SetRegistryValue { location: Seq<char>, name: Seq<char>, data: Seq<u8> },
    CopyFile { location: Seq<char>, name: Seq<char>, source: Seq<char> },
}

impl View for AddAction {
    type V = AddActionView;

    open spec fn view(&self) -> AddActionView {
        match self {
            AddAction::SetRegistryValue { location, name, data } => AddActionView::SetRegistryValue {
                location: location@,
                name: name@,
                data: data@,
            },
            AddAction::CopyFile { location, name, source } => AddActionView::CopyFile {
                location: location@,
                name: name@,
                source: source@,
            },
        }
    }
}

/// Adding: a registry value holding the command as UTF-16LE, or a copy of
/// the file named by the command in the startup folder. Tasks and services
/// cannot be added.
pub open spec fn spec_plan_add(
    category: Category,
    name: Seq<char>,
    command: Seq<char>,
    location: Seq<char>,
) -> Result<AddActionView, ErrorView> {
    match category {
        Category::RegistryRun => Ok(
            AddActionView::SetRegistryValue {
                location,
                name,
                data: crate::regvalue::utf16le_bytes(command),
            },
        ),
        Category::StartupFolder => Ok(AddActionView::CopyFile { location, name, source: command }),
        Category::ScheduledTask => Err(
            ErrorView::Msg("adding scheduled tasks is not implemented in v1"@),
        ),
        Category::Service => Err(ErrorView::Msg("adding services is not supported"@)),
    }
}

/// Plan the adding of a startup entry.
pub fn plan_add(category: Category, name: &str, command: &str, location: &str) -> (r: Result<
    AddAction,
    Error,
>)
    ensures
        match r {
            Ok(a) => spec_plan_add(category, name@, command@, location@) == Ok::<
                AddActionView,
                ErrorView,
            >(a@),
            Err(e) => spec_plan_add(category, name@, command@, location@) == Err::<
                AddActionView,
                ErrorView,
            >(e@),
        },
{
    match category {
        Category::RegistryRun => Ok(
            AddAction::SetRegistryValue {
                location: String::from_str(location),
                name: String::from_str(name),
                data: crate::regvalue::encode_utf16le(command),
            },
        ),
        Category::StartupFolder => Ok(
            AddAction::CopyFile {
                location: String::from_str(location),
                name: String::from_str(name),
                source: String::from_str(command),
            },
        ),
        Category::ScheduledTask => Err(
            Error::Msg(String::from_str("adding scheduled tasks is not implemented in v1")),
        ),
        Category::Service => Err(Error::Msg(String::from_str("adding services is not supported"))),
    }
}

/// The result once an entry was added: `added <name> to <location>`.
pub fn add_result(name: &str, location: &str) -> (r: WriteResult)
    ensures
        r@ == (WriteResultView {
            ok: true,
            message: "added "@ + name@ + " to "@ + location@,
            snapshot_entry: None,
        }),
{
    let mut m = concat2("added ", name);
    m.append(" to ");
    m.append(location);
    ok_result(m)
}

} // verus!

verus! {

/// Stripping the disabled suffix from a name that disabling produced gives
/// back the original name (for names that were not disabled already).
pub proof fn lemma_strip_disabled_suffix(n: Seq<char>)
    requires
        !is_disabled_name(n),
    ensures
        strip_suffixes(n + disabled_suffix(), disabled_suffix()) == n,
{
    reveal_strlit(".disabled");
    let s = disabled_suffix();
    let m = n + s;
    assert(m.subrange(m.len() - s.len(), m.len() as int) =~= s);
    assert(m.subrange(0, m.len() - s.len()) =~= n);
    assert(has_suffix(m, s));
    assert(s.len() > 0);
    assert(strip_suffixes(m, s) == strip_suffixes(m.subrange(0, m.len() - s.len()), s));
    assert(strip_suffixes(n, s) == n);
}

/// Enable undoes disable: disabling a registry value or startup file renames
/// `name` to `name.disabled`, and enabling the item it became renames it
/// back to `name`.
pub proof fn lemma_enable_undoes_disable(category: Category, location: Seq<char>, name: Seq<char>)
    requires
        category == Category::RegistryRun || category == Category::StartupFolder,
        !location.contains(':'),
        !is_disabled_name(name),
    ensures
        spec_plan_disable(crate::model::spec_build_id(category, location, name)) == Ok::<
            PlanView,
            ErrorView,
        >(
            PlanView::Perform(
                ChangeView {
                    item_id: crate::model::spec_build_id(category, location, name),
                    verb: Verb::Disabled,
                    action: ActionView::Rename {
                        category,
                        location,
                        from: name,
                        to: name + disabled_suffix(),
                    },
                },
            ),
        ),
        spec_plan_enable(
            crate::model::spec_build_id(category, location, name + disabled_suffix()),
        ) == Ok::<PlanView, ErrorView>(
            PlanView::Perform(
                ChangeView {
                    item_id: crate::model::spec_build_id(
                        category,
                        location,
                        name + disabled_suffix(),
                    ),
                    verb: Verb::Enabled,
                    action: ActionView::Rename {
                        category,
                        location,
                        from: name + disabled_suffix(),
                        to: name,
                    },
                },
            ),
        ),
{
    reveal_strlit(".disabled");
    crate::write::lemma_parse_item_id_of_build_id(category, location, name);
    crate::write::lemma_parse_item_id_of_build_id(category, location, name + disabled_suffix());
    let m = name + disabled_suffix();
    assert(m.subrange(m.len() - disabled_suffix().len(), m.len() as int) =~= disabled_suffix());
    lemma_strip_disabled_suffix(name);
}

/// Disabling an item that is already disabled changes nothing.
pub proof fn lemma_disable_twice(category: Category, location: Seq<char>, name: Seq<char>)
    requires
        category == Category::RegistryRun || category == Category::StartupFolder,
        !location.contains(':'),
        is_disabled_name(name),
    ensures
        spec_plan_disable(crate::model::spec_build_id(category, location, name)) == Ok::<
            PlanView,
            ErrorView,
        >(finished("already disabled"@)),
{
    crate::write::lemma_parse_item_id_of_build_id(category, location, name);
}

/// Enabling an item that is not disabled changes nothing.
pub proof fn lemma_enable_when_enabled(category: Category, location: Seq<char>, name: Seq<char>)
    requires
        category == Category::RegistryRun || category == Category::StartupFolder,
        !location.contains(':'),
        !is_disabled_name(name),
    ensures
        spec_plan_enable(crate::model::spec_build_id(category, location, name)) == Ok::<
            PlanView,
            ErrorView,
        >(finished("already enabled"@)),
{
    crate::write::lemma_parse_item_id_of_build_id(category, location, name);
}

/// Restoring the snapshot entry that a rename recorded renames the item
/// back: from the name it was given to the name it had.
pub proof fn lemma_restore_undoes_rename(ch: ChangeView, command: Seq<char>)
    requires
        ch.action matches ActionView::Rename { category, .. } && (category
            == Category::RegistryRun || category == Category::StartupFolder),
    ensures
        ch.action matches ActionView::Rename { category, location, from, to } && (
        spec_plan_restore(change_entry(ch, command)) == if category == Category::RegistryRun {
            Ok::<RestoreActionView, ErrorView>(
                RestoreActionView::RenameRegistryValueIfPresent { location, from: to, to: from },
            )
        } else {
            Ok::<RestoreActionView, ErrorView>(
                RestoreActionView::RenameFileIfPresent { location, from: to, to: from },
            )
        }),
{
}

/// Restoring the snapshot entry that the removal of a registry value
/// recorded writes the value back under its name, as a `REG_SZ` value that
/// reads back as the command it held (for commands that do not end with a
/// NUL character, which reading a value drops).
pub proof fn lemma_restore_recreates_removed_registry_value(ch: ChangeView, command: Seq<char>)
    requires
        ch.action matches ActionView::Delete { category, .. } && category
            == Category::RegistryRun,
        command.len() == 0 || command.last() != '\0',
    ensures
        ch.action matches ActionView::Delete { location, name, .. } && spec_plan_restore(
            change_entry(ch, command),
        ) == Ok::<RestoreActionView, ErrorView>(
            RestoreActionView::SetRegistryValue {
                location,
                name,
                data: crate::regvalue::utf16le_bytes(command),
            },
        ),
        crate::regvalue::spec_decode_reg_value(
            crate::regvalue::RegType::REG_SZ,
            crate::regvalue::utf16le_bytes(command),
        ) == command,
{
    crate::regvalue::lemma_reg_sz_roundtrip(crate::regvalue::RegType::REG_SZ, command, 0);
    assert(crate::regvalue::utf16le_bytes(command) + crate::regvalue::le_bytes(
        crate::regvalue::nul_units(0),
    ) =~= crate::regvalue::utf16le_bytes(command));
}

/// Restoring the snapshot entry that switching a task off recorded switches
/// the task back on.
pub proof fn lemma_restore_undoes_task_disable(ch: ChangeView, command: Seq<char>)
    requires
        ch.action matches ActionView::SetTaskEnabled { enabled, .. } && !enabled,
    ensures
        ch.action matches ActionView::SetTaskEnabled { location, name, .. } && spec_plan_restore(
            change_entry(ch, command),
        ) == Ok::<RestoreActionView, ErrorView>(RestoreActionView::EnableTask { location, name }),
{
}

/// Disabling, then restoring from the snapshot the disable recorded, puts
/// the item back: a registry value or startup file renamed to
/// `name.disabled` is renamed back to `name`, and a task switched off is
/// switched on again.
pub proof fn lemma_restore_undoes_disable(
    category: Category,
    location: Seq<char>,
    name: Seq<char>,
    command: Seq<char>,
)
    requires
        category != Category::Service,
        !location.contains(':'),
        category == Category::ScheduledTask || !is_disabled_name(name),
    ensures
        spec_plan_disable(crate::model::spec_build_id(category, location, name)) matches Ok(
            PlanView::Perform(ch),
        ) && spec_plan_restore(change_entry(ch, command)) == Ok::<RestoreActionView, ErrorView>(
            if category == Category::RegistryRun {
                RestoreActionView::RenameRegistryValueIfPresent {
                    location,
                    from: name + disabled_suffix(),
                    to: name,
                }
            } else if category == Category::StartupFolder {
                RestoreActionView::RenameFileIfPresent {
                    location,
                    from: name + disabled_suffix(),
                    to: name,
                }
            } else {
                RestoreActionView::EnableTask { location, name }
            },
        ),
{
    crate::write::lemma_parse_item_id_of_build_id(category, location, name);
}

proof fn lemma_label_key(label: Seq<char>, sub: Seq<char>)
    requires
        label.len() == 4,
    ensures
        ({
            let k = label + "\\...\\"@ + sub;
            &&& has_prefix(k, label)
            &&& expand_subkey(strip_prefixes(k.subrange(4, k.len() as int), "\\"@))
                == current_version_key() + "\\"@ + sub
        }),
{
    reveal_strlit("\\...\\");
    reveal_strlit("\\");
    reveal_strlit("...\\");
    let k = label + "\\...\\"@ + sub;
    let t = k.subrange(4, k.len() as int);
    assert(k.subrange(0, 4) =~= label);
    assert(t =~= "\\...\\"@ + sub);
    assert(t.subrange(0, 1) =~= "\\"@);
    let u = t.subrange(1, t.len() as int);
    assert(u =~= "...\\"@ + sub);
    assert(u.subrange(0, 1) != "\\"@) by {
        assert(u.subrange(0, 1)[0] == '.');
    }
    assert(strip_prefixes(u, "\\"@) == u);
    assert(strip_prefixes(t, "\\"@) == u);
    assert(u.subrange(0, 4) =~= "...\\"@);
    assert(u.subrange(3, u.len() as int) =~= "\\"@ + sub);
}

/// A Run key's location label names the Run key itself: the label
/// `HKCU\...\<sub>` (or `HKLM\...\<sub>`) that enumeration gives an entry
/// parses into that hive and `SOFTWARE\Microsoft\Windows\CurrentVersion\<sub>`.
pub proof fn lemma_run_key_location_names_run_key(sub: Seq<char>)
    ensures
        spec_parse_hive_and_key("HKCU"@ + "\\...\\"@ + sub) == Ok::<(Hive, Seq<char>), ErrorView>(
            (Hive::CurrentUser, current_version_key() + "\\"@ + sub),
        ),
        spec_parse_hive_and_key("HKLM"@ + "\\...\\"@ + sub) == Ok::<(Hive, Seq<char>), ErrorView>(
            (Hive::LocalMachine, current_version_key() + "\\"@ + sub),
        ),
{
    reveal_strlit("HKCU");
    reveal_strlit("HKLM");
    lemma_label_key("HKCU"@, sub);
    lemma_label_key("HKLM"@, sub);
    let k = "HKLM"@ + "\\...\\"@ + sub;
    assert(!has_prefix(k, "HKCU"@)) by {
        assert(k.subrange(0, 4)[1] == 'K');
        assert(k.subrange(0, 4)[2] == 'L');
        assert("HKCU"@[2] == 'C');
    }
}

/// Enabling a scheduled task switches it on, and disabling one switches it
/// off: for every id that parses into a task's location and name, the plan
/// sets that task's enabled state to `true` (enable) or `false` (disable).
pub proof fn lemma_task_enable_disable_switch(id: Seq<char>, location: Seq<char>, name: Seq<char>)
    requires
        spec_parse_item_id(id) == Some((Category::ScheduledTask, location, name)),
    ensures
        spec_plan_enable(id) == Ok::<PlanView, ErrorView>(
            PlanView::Perform(
                ChangeView {
                    item_id: id,
                    verb: Verb::Enabled,
                    action: ActionView::SetTaskEnabled { location, name, enabled: true },
                },
            ),
        ),
        spec_plan_disable(id) == Ok::<PlanView, ErrorView>(
            PlanView::Perform(
                ChangeView {
                    item_id: id,
                    verb: Verb::Disabled,
                    action: ActionView::SetTaskEnabled { location, name, enabled: false },
                },
            ),
        ),
{
}

/// Removing deletes: for every id that parses into a category, location
/// and name, the remove plan deletes that entry (a registry value, a
/// startup file or a scheduled task), whatever its category.
pub proof fn lemma_remove_deletes(
    id: Seq<char>,
    category: Category,
    location: Seq<char>,
    name: Seq<char>,
)
    requires
        spec_parse_item_id(id) == Some((category, location, name)),
    ensures
        spec_plan_remove(id) == Ok::<PlanView, ErrorView>(
            PlanView::Perform(
                ChangeView {
                    item_id: id,
                    verb: Verb::Removed,
                    action: ActionView::Delete { category, location, name },
                },
            ),
        ),
{
}

/// Disabling a registry value or startup file renames it to its name with
/// `.disabled` appended, and enabling one renames it to its name without
/// every trailing `.disabled`, for every id that parses into such an entry.
pub proof fn lemma_rename_on_disable_enable(
    id: Seq<char>,
    category: Category,
    location: Seq<char>,
    name: Seq<char>,
)
    requires
        spec_parse_item_id(id) == Some((category, location, name)),
        category == Category::RegistryRun || category == Category::StartupFolder,
    ensures
        !has_suffix(name, ".disabled"@) ==> spec_plan_disable(id) == Ok::<PlanView, ErrorView>(
            PlanView::Perform(
                ChangeView {
                    item_id: id,
                    verb: Verb::Disabled,
                    action: ActionView::Rename {
                        category,
                        location,
                        from: name,
                        to: name + ".disabled"@,
                    },
                },
            ),
        ),
        has_suffix(name, ".disabled"@) ==> spec_plan_enable(id) == Ok::<PlanView, ErrorView>(
            PlanView::Perform(
                ChangeView {
                    item_id: id,
                    verb: Verb::Enabled,
                    action: ActionView::Rename {
                        category,
                        location,
                        from: name,
                        to: strip_suffixes(name, ".disabled"@),
                    },
                },
            ),
        ),
{
}

} // verus!
