//! Write-operation protocol types and item ids.

use vstd::prelude::*;

use crate::model::{category_label, spec_build_id, Category, SnapshotEntry, SnapshotEntryView};
use crate::text::{chars_of, find_char_from, find_from, lemma_find_from_first, str_eq, substring};

verus! {

/// A mutation request from the CLI or an agent.
#[derive(Debug, Clone)]
pub enum WriteOp {
    /// Rename value/file so it no longer autostarts (Foo -> Foo.disabled).
    Disable { item_id: String },
    /// Rename back (Foo.disabled -> Foo).
    Enable { item_id: String },
    /// Remove entry entirely (after snapshot backup).
    Remove { item_id: String },
    /// Add a new entry.
    Add { category: Category, name: String, command: String, location: String },
    /// Restore an item from a snapshot.
    Restore { snapshot_id: String, item_id: String },
}

/// Result of a mutation: what happened, plus a snapshot entry for undo.
#[derive(Debug, Clone)]
pub struct WriteResult {
    pub ok: bool,
    pub message: String,
    pub snapshot_entry: Option<SnapshotEntry>,
}

/// The contents of a write result.
pub struct WriteResultView {
    pub ok: bool,
    pub message: Seq<char>,
    pub snapshot_entry: Option<SnapshotEntryView>,
}

impl View for WriteResult {
    type V = WriteResultView;

    open spec fn view(&self) -> WriteResultView {
        WriteResultView {
            ok: self.ok,
            message: self.message@,
            snapshot_entry: match self.snapshot_entry {
                Some(e) => Some(e@),
                None => None,
            },
        }
    }
}

/// A successful result with the given message and no snapshot entry.
pub fn ok_result(message: String) -> (r: WriteResult)
    ensures
        r@ == (WriteResultView { ok: true, message: message@, snapshot_entry: None }),
{
    WriteResult { ok: true, message, snapshot_entry: None }
}

/// The category that a label names, for the categories that item ids and
/// the command line accept (services are not among them).
pub open spec fn parse_category(s: Seq<char>) -> Option<Category> {
    if s == "registry_run"@ {
        Some(Category::RegistryRun)
    } else if s == "startup_folder"@ {
        Some(Category::StartupFolder)
    } else if s == "scheduled_task"@ {
        Some(Category::ScheduledTask)
    } else {
        None
    }
}

/// Parse a category label: `registry_run`, `startup_folder` or `scheduled_task`.
pub fn category_from_str(s: &str) -> (r: Option<Category>)
    ensures
        r == parse_category(s@),
{
    if str_eq(s, "registry_run") {
        Some(Category::RegistryRun)
    } else if str_eq(s, "startup_folder") {
        Some(Category::StartupFolder)
    } else if str_eq(s, "scheduled_task") {
        Some(Category::ScheduledTask)
    } else {
        None
    }
}

/// The parts of an item id `category:location:name`: the category before
/// the first colon, the location up to the second colon, and the rest as
/// the name. `None` when there are fewer than two colons or the category
/// is not one that ids accept.
pub open spec fn spec_parse_item_id(id: Seq<char>) -> Option<(Category, Seq<char>, Seq<char>)> {
    let i = find_from(id, ':', 0);
    let j = find_from(id, ':', i + 1);
    if i < id.len() && j < id.len() {
        match parse_category(id.subrange(0, i)) {
            Some(c) => Some((c, id.subrange(i + 1, j), id.subrange(j + 1, id.len() as int))),
            None => None,
        }
    } else {
        None
    }
}

/// Parse an item id ("category:location:name") into its parts.
pub fn parse_item_id(id: &str) -> (r: Option<(Category, String, String)>)
    ensures
        r matches Some((c, l, n)) ==> spec_parse_item_id(id@) == Some((c, l@, n@)),
        r is None ==> spec_parse_item_id(id@) is None,
{
    let v = chars_of(id);
    let i = find_char_from(&v, ':', 0);
    if i >= v.len() {
        return None;
    }
    let head = substring(id, 0, i);
    let category = match category_from_str(head.as_str()) {
        Some(c) => c,
        None => return None,
    };
    let j = find_char_from(&v, ':', i + 1);
    if j >= v.len() {
        return None;
    }
    let location = substring(id, i + 1, j);
    let name = substring(id, j + 1, v.len());
    Some((category, location, name))
}

/// Parsing never yields the service category.
pub proof fn lemma_parse_item_id_not_service(id: Seq<char>)
    ensures
        spec_parse_item_id(id) matches Some((c, _, _)) ==> c != Category::Service,
{
}

proof fn lemma_labels()
    ensures
        forall|m: int|
            0 <= m < "registry_run"@.len() ==> #[trigger] "registry_run"@[m] != ':',
        forall|m: int|
            0 <= m < "startup_folder"@.len() ==> #[trigger] "startup_folder"@[m] != ':',
        forall|m: int|
            0 <= m < "scheduled_task"@.len() ==> #[trigger] "scheduled_task"@[m] != ':',
        forall|m: int| 0 <= m < "service"@.len() ==> #[trigger] "service"@[m] != ':',
        "registry_run"@ != "startup_folder"@,
        "registry_run"@ != "scheduled_task"@,
        "startup_folder"@ != "scheduled_task"@,
        "service"@ != "registry_run"@,
        "service"@ != "startup_folder"@,
        "service"@ != "scheduled_task"@,
{
    reveal_strlit("registry_run");
    reveal_strlit("startup_folder");
    reveal_strlit("scheduled_task");
    reveal_strlit("service");
    assert("startup_folder"@[1] != "scheduled_task"@[1]);
    assert("service"@.len() != "registry_run"@.len());
    assert("service"@.len() != "startup_folder"@.len());
    assert("service"@.len() != "scheduled_task"@.len());
}

/// Item ids parse back into the parts they were built from: for every
/// category that ids accept (all but services) and every location without
/// a colon, `parse_item_id(build_id(category, location, name))` gives back
/// the category, the location and the name.
pub proof fn lemma_parse_item_id_of_build_id(
    category: Category,
    location: Seq<char>,
    name: Seq<char>,
)
    requires
        category != Category::Service,
        !location.contains(':'),
    ensures
        spec_parse_item_id(spec_build_id(category, location, name)) == Some(
            (category, location, name),
        ),
{
    lemma_labels();
    let label = category_label(category);
    let id = spec_build_id(category, location, name);
    let i = label.len() as int;
    let j = i + 1 + location.len();
    assert(id[i] == ':');
    assert forall|m: int| 0 <= m < i implies id[m] != ':' by {
        assert(id[m] == label[m]);
    }
    lemma_find_from_first(id, ':', 0, i);
    assert(id[j] == ':');
    assert forall|m: int| i + 1 <= m < j implies id[m] != ':' by {
        assert(id[m] == location[m - i - 1]);
    }
    lemma_find_from_first(id, ':', i + 1, j);
    assert(id.subrange(0, i) =~= label);
    assert(id.subrange(i + 1, j) =~= location);
    assert(id.subrange(j + 1, id.len() as int) =~= name);
}

/// No id built for a service parses: ids of services are refused by the
/// write operations.
pub proof fn lemma_parse_item_id_of_service_id(location: Seq<char>, name: Seq<char>)
    ensures
        spec_parse_item_id(spec_build_id(Category::Service, location, name)) is None,
{
    lemma_labels();
    let label = category_label(Category::Service);
    let id = spec_build_id(Category::Service, location, name);
    let i = label.len() as int;
    assert(id[i] == ':');
    assert forall|m: int| 0 <= m < i implies id[m] != ':' by {
        assert(id[m] == label[m]);
    }
    lemma_find_from_first(id, ':', 0, i);
    assert(id.subrange(0, i) =~= label);
}

/// Item ids are unique: two items of categories that ids accept, with
/// locations without a colon, have the same id only when they have the same
/// category, location and name.
pub proof fn lemma_build_id_unique(
    c1: Category,
    l1: Seq<char>,
    n1: Seq<char>,
    c2: Category,
    l2: Seq<char>,
    n2: Seq<char>,
)
    requires
        c1 != Category::Service,
        c2 != Category::Service,
        !l1.contains(':'),
        !l2.contains(':'),
        spec_build_id(c1, l1, n1) == spec_build_id(c2, l2, n2),
    ensures
        c1 == c2,
        l1 == l2,
        n1 == n2,
{
    lemma_parse_item_id_of_build_id(c1, l1, n1);
    lemma_parse_item_id_of_build_id(c2, l2, n2);
}

/// For a fixed category and name, different locations give different ids
/// (whatever characters the locations hold).
pub proof fn lemma_build_id_distinguishes_locations(
    c: Category,
    l1: Seq<char>,
    l2: Seq<char>,
    n: Seq<char>,
)
    requires
        spec_build_id(c, l1, n) == spec_build_id(c, l2, n),
    ensures
        l1 == l2,
{
    let a = spec_build_id(c, l1, n);
    let b = spec_build_id(c, l2, n);
    let k = category_label(c).len() + 1;
    assert(a.len() == k + l1.len() + 1 + n.len());
    assert(b.len() == k + l2.len() + 1 + n.len());
    assert(l1.len() == l2.len());
    assert forall|m: int| 0 <= m < l1.len() implies l1[m] == l2[m] by {
        assert(a[k + m] == l1[m]);
        assert(b[k + m] == l2[m]);
    }
    assert(l1 =~= l2);
}

} // verus!
