//! Enumeration, signature and approval logic that does not touch the
//! system, and what the system-facing functions answer on hosts without
//! the Windows startup APIs.

use vstd::prelude::*;

use crate::error::{Error, ErrorView};
use crate::model::{disabled_suffix, Category, RawEntry, Signature};
use crate::ops::{trim_disabled_suffix, Hive};
use crate::text::{
    ascii_lower, chars_of, concat2, has_infix, has_prefix, has_suffix, is_ascii_char, lowercase,
    rfind_before, rfind_char_before,
    str_contains, str_eq, str_starts_with, strip_suffixes, substring, to_lowercase,
};
use crate::write::{parse_item_id, spec_parse_item_id, WriteOp, WriteResult};

verus! {

/// The extension of a file name (`Path::extension`): the part after the
/// last `.`, unless there is no `.` or the only one starts the name.
pub open spec fn file_extension(name: Seq<char>) -> Option<Seq<char>> {
    match rfind_before(name, '.', name.len() as int) {
        Some(k) => if k > 0 {
            Some(name.subrange(k + 1, name.len() as int))
        } else {
            None
        },
        None => None,
    }
}

/// The extension of a file name, if it has one.
pub fn extension_of(name: &str) -> (r: Option<String>)
    ensures
        r matches Some(e) ==> file_extension(name@) == Some(e@),
        r is None ==> file_extension(name@) is None,
{
    let v = chars_of(name);
    match rfind_char_before(&v, '.', v.len()) {
        Some(k) => {
            if k > 0 {
                Some(substring(name, k + 1, v.len()))
            } else {
                None
            }
        },
        None => None,
    }
}

/// File names that the startup folder enumeration lists: shortcuts,
/// executables and scripts (extension `lnk`, `exe`, `cmd` or `bat` in any
/// case), also once they were disabled by the `.disabled` suffix.
pub open spec fn spec_is_startup_file_name(name: Seq<char>) -> bool {
    match file_extension(strip_suffixes(name, disabled_suffix())) {
        Some(e) => {
            let l = lowercase(e);
            l == "lnk"@ || l == "exe"@ || l == "cmd"@ || l == "bat"@
        },
        None => false,
    }
}

/// Whether every character of `s` is ASCII.
pub open spec fn all_ascii(s: Seq<char>) -> bool {
    forall|i: int| 0 <= i < s.len() ==> is_ascii_char(#[trigger] s[i])
}

/// The extensions of startup files, in any case of their ASCII letters:
/// `lnk` (shortcuts), `exe` (executables), `cmd` and `bat` (scripts).
pub open spec fn is_listed_extension(e: Seq<char>) -> bool {
    let l = e.map_values(|c: char| ascii_lower(c));
    l == "lnk"@ || l == "exe"@ || l == "cmd"@ || l == "bat"@
}

/// A file named `<base>.<ext>`, with a non-empty base and a three-letter
/// extension without a dot, has the extension `ext`, and keeps it once it
/// is disabled (`<base>.<ext>.disabled`): so every shortcut, executable
/// and script in a startup folder is listed, disabled or not.
pub proof fn lemma_extension_of_file_name(base: Seq<char>, ext: Seq<char>)
    requires
        base.len() > 0,
        ext.len() == 3,
        forall|i: int| 0 <= i < 3 ==> #[trigger] ext[i] != '.',
    ensures
        file_extension(strip_suffixes(base + "."@ + ext, disabled_suffix())) == Some(ext),
        file_extension(strip_suffixes(base + "."@ + ext + disabled_suffix(), disabled_suffix()))
            == Some(ext),
{
    reveal_strlit(".");
    reveal_strlit(".disabled");
    let name = base + "."@ + ext;
    let n = name.len() as int;
    let d = disabled_suffix();
    assert(name[n - 4] == '.');
    assert(name[n - 1] == ext[2] && name[n - 2] == ext[1] && name[n - 3] == ext[0]);
    assert(rfind_before(name, '.', n - 3) == Some(n - 4));
    assert(rfind_before(name, '.', n - 2) == Some(n - 4));
    assert(rfind_before(name, '.', n - 1) == Some(n - 4));
    assert(rfind_before(name, '.', n) == Some(n - 4));
    assert(name.subrange(n - 3, n) =~= ext);
    assert(!has_suffix(name, d)) by {
        if n >= 9 {
            assert(name.subrange(n - 9, n)[5] == name[n - 4]);
            assert(d[5] == 'b');
        }
    }
    assert(strip_suffixes(name, d) == name);
    let name2 = name + d;
    assert(name2.subrange(name2.len() - d.len(), name2.len() as int) =~= d);
    assert(name2.subrange(0, name2.len() - d.len()) =~= name);
    assert(strip_suffixes(name2, d) == strip_suffixes(name, d));
}

/// Whether a startup folder file is a startup entry.
pub fn is_startup_file_name(name: &str) -> (r: bool)
    ensures
        r == spec_is_startup_file_name(name@),
        match file_extension(strip_suffixes(name@, disabled_suffix())) {
            Some(e) => all_ascii(e) ==> (r <==> is_listed_extension(e)),
            None => !r,
        },
{
    let base = trim_disabled_suffix(name);
    match extension_of(base.as_str()) {
        Some(ext) => {
            let l = to_lowercase(ext.as_str());
            let s = l.as_str();
            str_eq(s, "lnk") || str_eq(s, "exe") || str_eq(s, "cmd") || str_eq(s, "bat")
        },
        None => false,
    }
}

/// The raw entry that an item id names, among `entries`: the first one
/// with the id's category, location and name.
pub fn find_raw_by_id(entries: &Vec<RawEntry>, id: &str) -> (r: Option<RawEntry>)
    ensures
        match spec_parse_item_id(id@) {
            None => r is None,
            Some((c, l, n)) => match r {
                Some(e) => exists|i: int|
                    0 <= i < entries@.len() && #[trigger] entries@[i] == e && e.category == c && e.location@
                        == l && e.name@ == n && forall|j: int|
                        0 <= j < i ==> !(#[trigger] entries@[j].category == c
                            && entries@[j].location@ == l && entries@[j].name@ == n),
                None => forall|j: int|
                    0 <= j < entries@.len() ==> !(#[trigger] entries@[j].category == c
                        && entries@[j].location@ == l && entries@[j].name@ == n),
            },
        },
{
    let (cat, location, name) = match parse_item_id(id) {
        Some(parts) => parts,
        None => return None,
    };
    let mut i: usize = 0;
    while i < entries.len()
        invariant
            i <= entries@.len(),
            spec_parse_item_id(id@) == Some((cat, location@, name@)),
            forall|j: int|
                0 <= j < i ==> !(#[trigger] entries@[j].category == cat && entries@[j].location@
                    == location@ && entries@[j].name@ == name@),
        decreases entries@.len() - i,
    {
        let e = &entries[i];
        if e.category == cat && str_eq(e.location.as_str(), location.as_str()) && str_eq(
            e.name.as_str(),
            name.as_str(),
        ) {
            let found = RawEntry {
                category: e.category,
                name: e.name.clone(),
                command: e.command.clone(),
                location: e.location.clone(),
            };
            assert(entries@[i as int] == found);
            assert(spec_parse_item_id(id@) == Some((cat, location@, name@)));
            assert(found.category == cat && found.location@ == location@ && found.name@ == name@);
            return Some(found);
        }
        i = i + 1;
    }
    None
}

/// Where Windows Task Manager records that an entry is switched off: the
/// hive, the key path under it, and the value name.
#[derive(Debug, Clone)]
pub struct ApprovalLookup {
    pub hive: Hive,
    pub key_path: String,
    pub value_name: String,
}

/// The key under which approval states of one kind of entry are kept.
pub open spec fn approval_key_path(subkey: Seq<char>) -> Seq<char> {
    "SOFTWARE\\Microsoft\\Windows\\CurrentVersion\\Explorer\\StartupApproved\\"@ + subkey
}

/// The last backslash-separated segment of a path (all of it when there is
/// no backslash).
pub open spec fn last_segment(p: Seq<char>) -> Seq<char> {
    match rfind_before(p, '\\', p.len() as int) {
        Some(k) => p.subrange(k + 1, p.len() as int),
        None => p,
    }
}

/// Where the approval state of an entry is kept: for a registry Run entry,
/// the hive its location starts with (`HKCU` or `HKLM`), the key named by
/// the last segment of its location, and its name; for a startup folder
/// entry, HKLM for the common folder and HKCU otherwise, the
/// `StartupFolder` key, and its command. Other entries have none.
pub open spec fn spec_approval_lookup(category: Category, location: Seq<char>, name: Seq<char>, command: Seq<char>) -> Option<(Hive, Seq<char>, Seq<char>)> {
    match category {
        Category::RegistryRun => if has_prefix(location, "HKCU"@) {
            Some((Hive::CurrentUser, approval_key_path(last_segment(location)), name))
        } else if has_prefix(location, "HKLM"@) {
            Some((Hive::LocalMachine, approval_key_path(last_segment(location)), name))
        } else {
            None
        },
        Category::StartupFolder => Some(
            (
                if has_infix(location, "common"@) {
                    Hive::LocalMachine
                } else {
                    Hive::CurrentUser
                },
                approval_key_path("StartupFolder"@),
                command,
            ),
        ),
        _ => None,
    }
}

/// Where the Task Manager approval state of an entry is kept, if anywhere.
pub fn approval_lookup(raw: &RawEntry) -> (r: Option<ApprovalLookup>)
    ensures
        match r {
            Some(l) => spec_approval_lookup(raw.category, raw.location@, raw.name@, raw.command@)
                == Some((l.hive, l.key_path@, l.value_name@)),
            None => spec_approval_lookup(
                raw.category,
                raw.location@,
                raw.name@,
                raw.command@,
            ) is None,
        },
{
    match raw.category {
        Category::RegistryRun => {
            let hive = if str_starts_with(raw.location.as_str(), "HKCU") {
                Hive::CurrentUser
            } else if str_starts_with(raw.location.as_str(), "HKLM") {
                Hive::LocalMachine
            } else {
                return None;
            };
            let v = chars_of(raw.location.as_str());
            let subkey = match rfind_char_before(&v, '\\', v.len()) {
                Some(k) => substring(raw.location.as_str(), k + 1, v.len()),
                None => raw.location.clone(),
            };
            Some(
                ApprovalLookup {
                    hive,
                    key_path: concat2(
                        "SOFTWARE\\Microsoft\\Windows\\CurrentVersion\\Explorer\\StartupApproved\\",
                        subkey.as_str(),
                    ),
                    value_name: raw.name.clone(),
                },
            )
        },
        Category::StartupFolder => {
            let hive = if str_contains(raw.location.as_str(), "common") {
                Hive::LocalMachine
            } else {
                Hive::CurrentUser
            };
            Some(
                ApprovalLookup {
                    hive,
                    key_path: concat2(
                        "SOFTWARE\\Microsoft\\Windows\\CurrentVersion\\Explorer\\StartupApproved\\",
                        "StartupFolder",
                    ),
                    value_name: raw.command.clone(),
                },
            )
        },
        _ => None,
    }
}

/// The state word of an approval value: its first four bytes, little-endian.
pub open spec fn approval_state(data: Seq<u8>) -> int {
    data[0] + 256 * data[1] + 65536 * data[2] + 16777216 * data[3]
}

/// An approval value marks its entry disabled when it holds at least four
/// bytes and its state word is 2 or 3 (1 means enabled). Other state words
/// count as disabled when their bit 0 is clear.
pub open spec fn spec_approval_data_disabled(data: Seq<u8>) -> bool {
    data.len() >= 4 && {
        let st = approval_state(data);
        st == 2 || st == 3 || (st != 1 && st % 2 == 0)
    }
}

/// Task Manager's approval states: a value whose state word is 1 marks its
/// entry enabled, and one whose state word is 2 or 3 marks it disabled;
/// data shorter than the state word marks nothing.
pub proof fn lemma_approval_states(data: Seq<u8>)
    ensures
        data.len() < 4 ==> !spec_approval_data_disabled(data),
        data.len() >= 4 && data[1] == 0 && data[2] == 0 && data[3] == 0 ==> {
            &&& data[0] == 1 ==> !spec_approval_data_disabled(data)
            &&& data[0] == 2 ==> spec_approval_data_disabled(data)
            &&& data[0] == 3 ==> spec_approval_data_disabled(data)
        },
{
}

/// Whether the approval value data marks its entry disabled.
pub fn approval_data_disabled(data: &[u8]) -> (r: bool)
    ensures
        r == spec_approval_data_disabled(data@),
{
    if data.len() >= 4 {
        let state: u32 = data[0] as u32 + (data[1] as u32) * 256 + (data[2] as u32) * 65536 + (
        data[3] as u32) * 16777216;
        state == 2 || state == 3 || (state != 1 && state % 2 == 0)
    } else {
        false
    }
}

} // verus!

verus! {

/// `TRUST_E_NOSIGNATURE` (0x800B0100): the status with which the Windows
/// trust API reports a file that carries no signature.
pub const TRUST_E_NOSIGNATURE: i32 = -2146762496;

/// The signature status that an Authenticode check's result stands for: a
/// zero status is a verified signature, `TRUST_E_NOSIGNATURE` no signature,
/// and any other status a signature that does not verify.
pub fn signature_of_trust_result(status: i32) -> (r: Signature)
    ensures
        status == 0 ==> r == Signature::Valid,
        status == TRUST_E_NOSIGNATURE ==> r == Signature::Unsigned,
        status != 0 && status != TRUST_E_NOSIGNATURE ==> r == Signature::Invalid,
{
    if status == 0 {
        Signature::Valid
    } else if status == TRUST_E_NOSIGNATURE {
        Signature::Unsigned
    } else {
        Signature::Invalid
    }
}

/// Authenticode verification of a file. Hosts without the Windows trust
/// API cannot check signatures, so every file is reported `Unknown` here.
pub fn verify_file_signature(path: &str) -> (r: Signature)
    ensures
        r == Signature::Unknown,
{
    Signature::Unknown
}

/// Scheduled tasks set to start automatically. Hosts without the Windows
/// Task Scheduler have none.
pub fn enumerate_scheduled_tasks() -> (r: Vec<RawEntry>)
    ensures
        r@.len() == 0,
{
    Vec::new()
}

/// Entries of the user and common startup folders. Hosts without Windows
/// startup folders have none.
pub fn enumerate_startup_folders() -> (r: Vec<RawEntry>)
    ensures
        r@.len() == 0,
{
    Vec::new()
}

/// Whether Task Manager marks the value `value_name` under `key_path` in
/// `hive` disabled. Hosts without a Windows registry hold no such marks.
pub fn is_approved_disabled(hive: Hive, key_path: &str, value_name: &str) -> (r: bool)
    ensures
        !r,
{
    false
}

/// Whether Task Manager marks a raw entry disabled: its approval value is
/// looked up where `approval_lookup` says. Hosts without a Windows registry
/// hold no such marks.
pub fn is_entry_approved_disabled(raw: &RawEntry) -> (r: bool)
    ensures
        !r,
{
    match approval_lookup(raw) {
        Some(l) => is_approved_disabled(l.hive, l.key_path.as_str(), l.value_name.as_str()),
        None => false,
    }
}

/// The message with which write operations fail where the elevated helper
/// cannot run.
pub open spec fn helper_unavailable() -> Seq<char> {
    "write operations require Windows (bootkeeper-helper)"@
}

/// Run a write operation through the elevated helper. The helper needs
/// Windows (UAC elevation and its confirmation dialog); elsewhere every
/// operation fails.
pub fn run_helper(operation: WriteOp) -> (r: Result<WriteResult, Error>)
    ensures
        r matches Err(e) && e@ == ErrorView::Msg(helper_unavailable()),
{
    Err(Error::Msg(String::from_str("write operations require Windows (bootkeeper-helper)")))
}

} // verus!

verus! {

/// The location label of a registry Run key: `<hive>\...\<subkey>`.
pub fn run_key_location(hive_name: &str, subkey_name: &str) -> (r: String)
    ensures
        r@ == hive_name@ + "\\...\\"@ + subkey_name@,
{
    crate::text::concat3(hive_name, "\\...\\", subkey_name)
}

} // verus!
