//! Shared domain model: categories, risk levels, signatures, startup items
//! and snapshot entries.

use vstd::prelude::*;

use crate::text::has_suffix;

verus! {

/// Startup mechanism categories.
#[derive(Debug, Clone, Copy, PartialEq, Eq, Structural)]
pub enum Category {
    /// HKCU/HKLM ...\Run and RunOnce
    RegistryRun,
    /// User / common startup folders
    StartupFolder,
    /// Task Scheduler
    ScheduledTask,
    /// Windows services set to auto-start
    Service,
}

/// The snake_case label of a category.
pub open spec fn category_label(c: Category) -> Seq<char> {
    match c {
        Category::RegistryRun => "registry_run"@,
        Category::StartupFolder => "startup_folder"@,
        Category::ScheduledTask => "scheduled_task"@,
        Category::Service => "service"@,
    }
}

impl Category {
    /// The snake_case label of this category.
    pub fn as_str(&self) -> (r: &'static str)
        ensures
            r@ == category_label(*self),
    {
        match self {
            Category::RegistryRun => "registry_run",
            Category::StartupFolder => "startup_folder",
            Category::ScheduledTask => "scheduled_task",
            Category::Service => "service",
        }
    }
}

/// Risk level decided by the rule engine.
#[derive(Debug, Clone, Copy, PartialEq, Eq, PartialOrd, Ord, Structural)]
pub enum Risk {
    Low,
    Medium,
    High,
}

/// Position of a risk level in the order Low < Medium < High.
pub open spec fn risk_rank(r: Risk) -> int {
    match r {
        Risk::Low => 0,
        Risk::Medium => 1,
        Risk::High => 2,
    }
}

/// The lowercase name of a risk level.
pub open spec fn risk_label(r: Risk) -> Seq<char> {
    match r {
        Risk::Low => "low"@,
        Risk::Medium => "medium"@,
        Risk::High => "high"@,
    }
}

impl Risk {
    /// The lowercase name of this risk level ("low", "medium", "high").
    pub fn label(&self) -> (r: &'static str)
        ensures
            r@ == risk_label(*self),
    {
        match self {
            Risk::Low => "low",
            Risk::Medium => "medium",
            Risk::High => "high",
        }
    }
}

/// Authenticode signature status of an executable.
#[derive(Debug, Clone, Copy, PartialEq, Eq, Structural)]
pub enum Signature {
    /// File has no signature
    Unsigned,
    /// Signature present and chain verifies
    Valid,
    /// Signature present but verification failed
    Invalid,
    /// Not applicable (e.g. task with no executable)
    Unknown,
}

/// The lowercase name of a signature status.
pub open spec fn signature_label(s: Signature) -> Seq<char> {
    match s {
        Signature::Unsigned => "none"@,
        Signature::Valid => "valid"@,
        Signature::Invalid => "invalid"@,
        Signature::Unknown => "unknown"@,
    }
}

impl Signature {
    /// The lowercase name of this status ("none", "valid", "invalid", "unknown").
    pub fn label(&self) -> (r: &'static str)
        ensures
            r@ == signature_label(*self),
    {
        match self {
            Signature::Unsigned => "none",
            Signature::Valid => "valid",
            Signature::Invalid => "invalid",
            Signature::Unknown => "unknown",
        }
    }
}

/// One startup item as shown to the GUI / AI.
#[derive(Debug, Clone)]
pub struct StartupItem {
    /// Stable ID: category + location + name.
    pub id: String,
    pub category: Category,
    /// Display name (registry value name, task name, file name)
    pub name: String,
    /// Full command line or executable path
    pub command: String,
    /// Where it lives (registry key, folder path, task path)
    pub location: String,
    /// Signature status
    pub signature: Signature,
    /// Publisher name when signed
    pub publisher: Option<String>,
    /// Risk decided by the rule engine
    pub risk: Risk,
    /// Whether the item is currently active
    pub enabled: bool,
}

/// The id of an item: `category:location:name`.
pub open spec fn spec_build_id(category: Category, location: Seq<char>, name: Seq<char>) -> Seq<
    char,
> {
    category_label(category) + seq![':'] + location + seq![':'] + name
}

impl StartupItem {
    /// The stable id `category:location:name` of an item.
    pub fn build_id(category: Category, location: &str, name: &str) -> (r: String)
        ensures
            r@ == spec_build_id(category, location@, name@),
    {
        let mut id = String::from_str(category.as_str());
        proof {
            reveal_strlit(":");
        }
        id.append(":");
        id.append(location);
        id.append(":");
        id.append(name);
        id
    }
}

/// A captured snapshot of one item, before or after a write operation.
#[derive(Debug, Clone)]
pub struct SnapshotEntry {
    pub item_id: String,
    /// Original value name before disable (rename) operations
    pub original_name: String,
    pub current_name: String,
    pub command: String,
    pub location: String,
    pub category: Category,
    /// True when this snapshot represents a removed item
    pub was_removed: bool,
}

/// The contents of a snapshot entry.
pub struct SnapshotEntryView {
    pub item_id: Seq<char>,
    pub original_name: Seq<char>,
    pub current_name: Seq<char>,
    pub command: Seq<char>,
    pub location: Seq<char>,
    pub category: Category,
    pub was_removed: bool,
}

impl View for SnapshotEntry {
    type V = SnapshotEntryView;

    open spec fn view(&self) -> SnapshotEntryView {
        SnapshotEntryView {
            item_id: self.item_id@,
            original_name: self.original_name@,
            current_name: self.current_name@,
            command: self.command@,
            location: self.location@,
            category: self.category,
            was_removed: self.was_removed,
        }
    }
}

/// A field-by-field copy of a snapshot entry.
pub fn copy_entry(e: &SnapshotEntry) -> (r: SnapshotEntry)
    ensures
        r == *e,
{
    SnapshotEntry {
        item_id: e.item_id.clone(),
        original_name: e.original_name.clone(),
        current_name: e.current_name.clone(),
        command: e.command.clone(),
        location: e.location.clone(),
        category: e.category,
        was_removed: e.was_removed,
    }
}

/// One snapshot: the state delta of one write operation.
#[derive(Debug, Clone)]
pub struct Snapshot {
    pub id: String,
    /// ISO-8601 timestamp of the operation
    pub created_at: String,
    pub operation: String,
    pub entries: Vec<SnapshotEntry>,
}

/// Everything an enumerator returns before rule-engine enrichment.
#[derive(Debug, Clone)]
pub struct RawEntry {
    pub category: Category,
    pub name: String,
    pub command: String,
    pub location: String,
}

impl RawEntry {
    /// A raw entry with the given fields.
    pub fn new(category: Category, location: &str, name: &str, command: &str) -> (r: Self)
        ensures
            r.category == category,
            r.location@ == location@,
            r.name@ == name@,
            r.command@ == command@,
    {
        RawEntry {
            category,
            name: String::from_str(name),
            command: String::from_str(command),
            location: String::from_str(location),
        }
    }
}

/// The suffix that marks a renamed-away (disabled) registry value or file.
pub open spec fn disabled_suffix() -> Seq<char> {
    ".disabled"@
}

/// Whether a name carries the disabled suffix.
pub open spec fn is_disabled_name(name: Seq<char>) -> bool {
    has_suffix(name, disabled_suffix())
}

} // verus!
