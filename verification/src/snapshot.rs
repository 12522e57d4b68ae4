//! Snapshots: the store's location, snapshot file names, ordering and
//! retention.

use std::path::PathBuf;

use vstd::prelude::*;

use crate::error::{Error, ErrorView};
use crate::model::{Category, Snapshot, SnapshotEntry, SnapshotEntryView};
use crate::text::{concat3, has_prefix, has_suffix, str_ends_with, str_starts_with};

verus! {

#[verifier::external_type_specification]
#[verifier::external_body]
pub struct ExPathBuf(std::path::PathBuf);

/// A snapshot store rooted at a directory. Snapshot files are
/// self-contained JSON documents named `snapshot-<id>.json`.
pub struct SnapshotStore {
    dir: PathBuf,
}

impl SnapshotStore {
    /// The directory the store is rooted at.
    pub closed spec fn root(&self) -> PathBuf {
        self.dir
    }

    /// A store rooted at `dir`.
    pub fn new(dir: PathBuf) -> (r: Self)
        ensures
            r.root() == dir,
    {
        SnapshotStore { dir }
    }

    /// The directory the store is rooted at.
    pub fn dir(&self) -> (r: &PathBuf)
        ensures
            *r == self.root(),
    {
        &self.dir
    }
}

/// The file name of the snapshot with id `id`.
pub open spec fn spec_snapshot_file_name(id: Seq<char>) -> Seq<char> {
    "snapshot-"@ + id + ".json"@
}

/// The file name of the snapshot with id `id`: `snapshot-<id>.json`.
pub fn snapshot_file_name(id: &str) -> (r: String)
    ensures
        r@ == spec_snapshot_file_name(id@),
{
    concat3("snapshot-", id, ".json")
}

/// Whether a file name is that of a snapshot file.
pub open spec fn spec_is_snapshot_file_name(name: Seq<char>) -> bool {
    has_prefix(name, "snapshot-"@) && has_suffix(name, ".json"@)
}

/// Whether a directory entry named `name` is a snapshot file: it starts
/// with `snapshot-` and ends with `.json`.
pub fn is_snapshot_file_name(name: &str) -> (r: bool)
    ensures
        r == spec_is_snapshot_file_name(name@),
{
    str_starts_with(name, "snapshot-") && str_ends_with(name, ".json")
}

/// Every snapshot file that the store writes is one that listing reads.
pub proof fn lemma_snapshot_file_name_is_listed(id: Seq<char>)
    ensures
        spec_is_snapshot_file_name(spec_snapshot_file_name(id)),
{
    let n = spec_snapshot_file_name(id);
    let p = "snapshot-"@;
    let s = ".json"@;
    assert(n.subrange(0, p.len() as int) =~= p);
    assert(n.subrange(n.len() - s.len(), n.len() as int) =~= s);
}

/// A snapshot entry built from the current state of an item (not removed).
pub fn entry_from_parts(
    item_id: &str,
    original_name: &str,
    current_name: &str,
    command: &str,
    location: &str,
    category: Category,
) -> (r: SnapshotEntry)
    ensures
        r@ == (SnapshotEntryView {
            item_id: item_id@,
            original_name: original_name@,
            current_name: current_name@,
            command: command@,
            location: location@,
            category,
            was_removed: false,
        }),
{
    SnapshotEntry {
        item_id: String::from_str(item_id),
        original_name: String::from_str(original_name),
        current_name: String::from_str(current_name),
        command: String::from_str(command),
        location: String::from_str(location),
        category,
        was_removed: false,
    }
}

/// Whether a text is a random (version 4) UUID in its hyphenated lowercase
/// form: 36 characters, `-` at positions 8, 13, 18 and 23, lowercase hex
/// digits elsewhere, and the version digit `4` at position 14.
pub open spec fn is_uuid_v4_text(s: Seq<char>) -> bool {
    &&& s.len() == 36
    &&& forall|i: int|
        0 <= i < 36 ==> if i == 8 || i == 13 || i == 18 || i == 23 {
            #[trigger] s[i] == '-'
        } else {
            ('0' <= s[i] <= '9') || ('a' <= s[i] <= 'f')
        }
    &&& s[14] == '4'
}

/// The text that the `uuid` crate makes of sixteen random bytes.
pub uninterp spec fn uuid_v4_text(bytes: Seq<u8>) -> Seq<char>;

/// `getrandom::fill` on sixteen bytes: random bytes from the operating
/// system, or `None` when its random source fails. The bytes depend on
/// chance, and the contract states nothing of them.
#[verifier::external_body]
fn random_bytes() -> Option<[u8; 16]> {
    let mut bytes = [0u8; 16];
    match getrandom::fill(&mut bytes) {
        Ok(()) => Some(bytes),
        Err(_) => None,
    }
}

/// `uuid::Builder::from_random_bytes(bytes).into_uuid().to_string()`: the
/// version 4 UUID built from sixteen random bytes. The crate sets its
/// version and variant bits and formats it hyphenated in lowercase hex;
/// the result is named as a function of the bytes.
#[verifier::external_body]
fn uuid_from_random_bytes(bytes: [u8; 16]) -> (r: String)
    ensures
        r@ == uuid_v4_text(bytes@),
        is_uuid_v4_text(r@),
{
    uuid::Builder::from_random_bytes(bytes).into_uuid().to_string()
}

/// The message when the system clock cannot be read as a time after 1970.
pub open spec fn clock_failure() -> Seq<char> {
    "the system clock reads before 1970 or beyond what can be stored"@
}

/// The message when the current time cannot be written as RFC 3339 text.
pub open spec fn time_text_failure() -> Seq<char> {
    "the current time cannot be written as RFC 3339 text"@
}

/// The message when the operating system gives no random bytes.
pub open spec fn random_failure() -> Seq<char> {
    "the operating system's random source failed"@
}

/// `created_at` is the RFC 3339 text of the instant `t` (a time after
/// 1970), and, for a year up to 9999, parses back to that instant.
pub open spec fn stamped_at(created_at: Seq<char>, t: (i64, u32)) -> bool {
    &&& t.0 >= 0
    &&& t.1 < 1_000_000_000
    &&& created_at == rfc3339_text(t.0, t.1)
    &&& t.0 <= max_rfc3339_secs() ==> rfc3339_instant(created_at) == Some(t)
}

/// A new snapshot of `operation` holding `entries`, with a fresh random id
/// and the current time, as RFC 3339 text, as its creation time. It fails
/// when the clock reads before 1970 (or past what the time types hold),
/// or when the operating system gives no random bytes.
pub fn new_snapshot(operation: &str, entries: Vec<SnapshotEntry>) -> (r: Result<Snapshot, Error>)
    ensures
        match r {
            Ok(s) => {
                &&& is_uuid_v4_text(s.id@)
                &&& s.operation@ == operation@
                &&& s.entries@ == entries@
                &&& exists|t: (i64, u32)| #[trigger] stamped_at(s.created_at@, t)
            },
            Err(e) => e@ == ErrorView::Msg(clock_failure()) || e@ == ErrorView::Msg(
                time_text_failure(),
            ) || e@ == ErrorView::Msg(random_failure()),
        },
{
    let now = match clock_instant() {
        Some(t) => t,
        None => return Err(clock_error()),
    };
    let created_at = match format_rfc3339(now.0, now.1) {
        Some(text) => text,
        None => return Err(Error::Msg(String::from_str("the current time cannot be written as RFC 3339 text"))),
    };
    let bytes = match random_bytes() {
        Some(b) => b,
        None => return Err(Error::Msg(String::from_str("the operating system's random source failed"))),
    };
    let snap = Snapshot {
        id: uuid_from_random_bytes(bytes),
        created_at,
        operation: String::from_str(operation),
        entries,
    };
    assert(stamped_at(snap.created_at@, now));
    Ok(snap)
}

/// Compact snapshot metadata for listing (no entries).
#[derive(Debug, Clone)]
pub struct SnapshotSummary {
    pub id: String,
    pub created_at: String,
    pub operation: String,
    pub entry_count: usize,
}

/// The metadata of a snapshot: id, creation time, operation and the number
/// of entries.
pub fn summarize(snap: &Snapshot) -> (r: SnapshotSummary)
    ensures
        r.id@ == snap.id@,
        r.created_at@ == snap.created_at@,
        r.operation@ == snap.operation@,
        r.entry_count == snap.entries@.len(),
{
    SnapshotSummary {
        id: snap.id.clone(),
        created_at: snap.created_at.clone(),
        operation: snap.operation.clone(),
        entry_count: snap.entries.len(),
    }
}

} // verus!

verus! {

/// Lexicographic order of strings by character code (the order of `str`'s
/// `Ord`, which compares the UTF-8 bytes).
pub open spec fn str_lt(a: Seq<char>, b: Seq<char>) -> bool
    decreases a.len(),
{
    if b.len() == 0 {
        false
    } else if a.len() == 0 {
        true
    } else if a[0] == b[0] {
        str_lt(a.drop_first(), b.drop_first())
    } else {
        (a[0] as u32) < (b[0] as u32)
    }
}

proof fn lemma_char_code_injective(x: char, y: char)
    requires
        x as u32 == y as u32,
    ensures
        x == y,
{
}

/// The order is asymmetric.
pub proof fn lemma_str_lt_asymmetric(a: Seq<char>, b: Seq<char>)
    ensures
        !(str_lt(a, b) && str_lt(b, a)),
    decreases a.len(),
{
    if a.len() > 0 && b.len() > 0 && a[0] == b[0] {
        lemma_str_lt_asymmetric(a.drop_first(), b.drop_first());
    }
}

/// The order is transitive.
pub proof fn lemma_str_lt_transitive(a: Seq<char>, b: Seq<char>, c: Seq<char>)
    requires
        str_lt(a, b),
        str_lt(b, c),
    ensures
        str_lt(a, c),
    decreases a.len(),
{
    if a.len() > 0 && b.len() > 0 && c.len() > 0 {
        if a[0] == b[0] && b[0] == c[0] {
            lemma_str_lt_transitive(a.drop_first(), b.drop_first(), c.drop_first());
        } else if a[0] == b[0] {
            assert(a[0] != c[0]);
        } else if b[0] == c[0] {
            assert(a[0] != c[0]);
        } else {
            if a[0] == c[0] {
                assert((a[0] as u32) < (b[0] as u32));
            }
        }
    }
}

/// Two different strings are ordered one way or the other.
pub proof fn lemma_str_lt_total(a: Seq<char>, b: Seq<char>)
    requires
        a != b,
    ensures
        str_lt(a, b) || str_lt(b, a),
    decreases a.len(),
{
    if a.len() == 0 {
        assert(b.len() > 0) by {
            if b.len() == 0 {
                assert(a =~= b);
            }
        }
    } else if b.len() > 0 {
        if a[0] == b[0] {
            if a.drop_first() == b.drop_first() {
                assert(a =~= seq![a[0]] + a.drop_first());
                assert(b =~= seq![b[0]] + b.drop_first());
            }
            lemma_str_lt_total(a.drop_first(), b.drop_first());
        } else {
            if a[0] as u32 == b[0] as u32 {
                lemma_char_code_injective(a[0], b[0]);
            }
        }
    }
}

/// Whether `a` sorts before `b` (by character codes).
pub fn string_lt(a: &str, b: &str) -> (r: bool)
    ensures
        r == str_lt(a@, b@),
{
    let av = crate::text::chars_of(a);
    let bv = crate::text::chars_of(b);
    let mut i: usize = 0;
    assert(a@.subrange(0, a@.len() as int) =~= a@);
    assert(b@.subrange(0, b@.len() as int) =~= b@);
    while i < av.len() && i < bv.len() && av[i] == bv[i]
        invariant
            i <= av@.len(),
            i <= bv@.len(),
            av@ == a@,
            bv@ == b@,
            str_lt(a@, b@) == str_lt(
                a@.subrange(i as int, a@.len() as int),
                b@.subrange(i as int, b@.len() as int),
            ),
        decreases av@.len() - i,
    {
        let ghost sa = a@.subrange(i as int, a@.len() as int);
        let ghost sb = b@.subrange(i as int, b@.len() as int);
        assert(sa.drop_first() =~= a@.subrange(i + 1, a@.len() as int));
        assert(sb.drop_first() =~= b@.subrange(i + 1, b@.len() as int));
        i = i + 1;
    }
    let ghost sa = a@.subrange(i as int, a@.len() as int);
    let ghost sb = b@.subrange(i as int, b@.len() as int);
    if i == bv.len() {
        assert(sb.len() == 0);
        false
    } else if i == av.len() {
        assert(sa.len() == 0 && sb.len() > 0);
        true
    } else {
        assert(sa[0] == av@[i as int] && sb[0] == bv@[i as int]);
        (av[i] as u32) < (bv[i] as u32)
    }
}

/// Whether a snapshot created at `a` counts as older than one created at
/// `b`: by the instants the two RFC 3339 times denote when both parse; a
/// time that does not parse counts as older than any that does; two times
/// that do not parse are compared as text.
pub open spec fn older(a: Seq<char>, b: Seq<char>) -> bool {
    match (rfc3339_instant(a), rfc3339_instant(b)) {
        (Some(ta), Some(tb)) => instant_before(ta, tb),
        (None, Some(_)) => true,
        (Some(_), None) => false,
        (None, None) => str_lt(a, b),
    }
}

/// No creation time counts as older than itself, and of two, at most one
/// counts as older than the other.
pub proof fn lemma_older_asymmetric(a: Seq<char>, b: Seq<char>)
    ensures
        !(older(a, b) && older(b, a)),
        !older(a, a),
{
    lemma_str_lt_asymmetric(a, b);
    lemma_str_lt_asymmetric(a, a);
}

/// When `p` is older than `x`, any `q` is either newer than `p` or older
/// than `x` (the order is a strict weak order).
pub proof fn lemma_older_negatively_transitive(p: Seq<char>, q: Seq<char>, x: Seq<char>)
    requires
        older(p, x),
    ensures
        older(p, q) || older(q, x),
{
    if rfc3339_instant(p) is None && rfc3339_instant(q) is None && rfc3339_instant(x) is None {
        if !str_lt(p, q) && p != q {
            lemma_str_lt_total(p, q);
            lemma_str_lt_transitive(q, p, x);
        }
    }
}

/// Snapshots ordered newest first: none counts as older than one listed
/// after it.
pub open spec fn newest_first(s: Seq<Snapshot>) -> bool {
    forall|i: int, j: int|
        0 <= i < j < s.len() ==> !older(#[trigger] s[i].created_at@, #[trigger] s[j].created_at@)
}

/// `r` is `orig` reordered by the positions `p` (`r[m]` is `orig[p[m]]`,
/// every position used once), with snapshots of equal age (neither older
/// than the other) left in the order they had in `orig`.
pub open spec fn stable_reorder(orig: Seq<Snapshot>, r: Seq<Snapshot>, p: Seq<int>) -> bool {
    &&& p.len() == r.len()
    &&& r.len() == orig.len()
    &&& forall|m: int| 0 <= m < p.len() ==> 0 <= #[trigger] p[m] < orig.len() && r[m] == orig[p[m]]
    &&& forall|m1: int, m2: int| 0 <= m1 < m2 < p.len() ==> #[trigger] p[m1] != #[trigger] p[m2]
    &&& forall|m1: int, m2: int|
        0 <= m1 < m2 < p.len() && !older((#[trigger] r[m1]).created_at@, (#[trigger] r[m2]).created_at@)
            && !older(r[m2].created_at@, r[m1].created_at@) ==> p[m1] < p[m2]
}

/// Whether a snapshot created at `a` counts as older than one created at `b`.
pub fn is_older(a: &str, b: &str) -> (r: bool)
    ensures
        r == older(a@, b@),
{
    match (parse_rfc3339(a), parse_rfc3339(b)) {
        (Some(ta), Some(tb)) => ta.0 < tb.0 || (ta.0 == tb.0 && ta.1 < tb.1),
        (None, Some(_)) => true,
        (Some(_), None) => false,
        (None, None) => string_lt(a, b),
    }
}

/// Sort snapshots newest first by the instant of their creation time
/// (snapshots whose time does not parse come last, ordered by text);
/// snapshots of equal age keep their order.
pub fn sort_newest_first(snaps: Vec<Snapshot>) -> (r: Vec<Snapshot>)
    ensures
        r@.to_multiset() == snaps@.to_multiset(),
        newest_first(r@),
        exists|p: Seq<int>| stable_reorder(snaps@, r@, p),
{
    let ghost orig = snaps@;
    let mut input = snaps;
    let n = input.len();
    let mut out: Vec<Snapshot> = Vec::new();
    let mut k: usize = 0;
    let ghost mut perm: Seq<int> = Seq::empty();
    assert(orig.subrange(0, 0).to_multiset() =~= out@.to_multiset()) by {
        assert(orig.subrange(0, 0) =~= out@);
    }
    while input.len() > 0
        invariant
            k <= orig.len(),
            orig.len() == n,
            input@ == orig.subrange(k as int, orig.len() as int),
            out@.to_multiset() == orig.subrange(0, k as int).to_multiset(),
            newest_first(out@),
            stable_reorder(orig.subrange(0, k as int), out@, perm),
        decreases input@.len(),
    {
        let x = input.remove(0);
        assert(x == orig[k as int]);
        assert(input@ =~= orig.subrange(k + 1, orig.len() as int));
        let mut pos: usize = 0;
        while pos < out.len() && !is_older(out[pos].created_at.as_str(), x.created_at.as_str())
            invariant
                pos <= out@.len(),
                forall|m: int| 0 <= m < pos ==> !older(#[trigger] out@[m].created_at@, x.created_at@),
            decreases out@.len() - pos,
        {
            pos = pos + 1;
        }
        let ghost before = out@;
        let ghost old_perm = perm;
        proof {
            assert forall|j: int| pos <= j < before.len() implies older(
                #[trigger] before[j].created_at@,
                x.created_at@,
            ) by {
                let p = before[pos as int].created_at@;
                let q = before[j].created_at@;
                assert(older(p, x.created_at@));
                if j > pos {
                    assert(!older(p, q));
                    lemma_older_negatively_transitive(p, q, x.created_at@);
                }
            }
            assert forall|j: int| pos <= j < before.len() implies !older(
                x.created_at@,
                #[trigger] before[j].created_at@,
            ) by {
                assert(older(before[j].created_at@, x.created_at@));
                lemma_older_asymmetric(x.created_at@, before[j].created_at@);
            }
        }
        out.insert(pos, x);
        proof {
            let ins = before.insert(pos as int, x);
            assert(out@ == ins);
            assert forall|i: int, j: int| 0 <= i < j < ins.len() implies !older(
                #[trigger] ins[i].created_at@,
                #[trigger] ins[j].created_at@,
            ) by {
                if j < pos {
                    assert(ins[i] == before[i] && ins[j] == before[j]);
                } else if j == pos {
                    assert(ins[i] == before[i]);
                } else if i < pos {
                    assert(ins[i] == before[i] && ins[j] == before[j - 1]);
                    let p = before[i].created_at@;
                    let q = before[j - 1].created_at@;
                    assert(!older(p, q));
                } else if i == pos {
                    assert(ins[j] == before[j - 1]);
                } else {
                    assert(ins[i] == before[i - 1] && ins[j] == before[j - 1]);
                }
            }
            assert(orig.subrange(0, k + 1) =~= orig.subrange(0, k as int).push(x));
            vstd::seq_lib::to_multiset_insert(before, pos as int, x);
            vstd::seq_lib::to_multiset_build(orig.subrange(0, k as int), x);
            assert(orig.subrange(0, k as int).push(x).to_multiset() == orig.subrange(
                0,
                k as int,
            ).to_multiset().insert(x));
            perm = old_perm.insert(pos as int, k as int);
            let o1 = orig.subrange(0, k + 1);
            let o0 = orig.subrange(0, k as int);
            assert forall|m: int| 0 <= m < perm.len() implies 0 <= #[trigger] perm[m] < o1.len()
                && ins[m] == o1[perm[m]] by {
                if m < pos {
                    assert(perm[m] == old_perm[m] && ins[m] == before[m]);
                    assert(o1[old_perm[m]] == o0[old_perm[m]]);
                } else if m > pos {
                    assert(perm[m] == old_perm[m - 1] && ins[m] == before[m - 1]);
                    assert(o1[old_perm[m - 1]] == o0[old_perm[m - 1]]);
                }
            }
            assert forall|m1: int, m2: int| 0 <= m1 < m2 < perm.len() implies #[trigger] perm[m1]
                != #[trigger] perm[m2] by {
                if m1 != pos && m2 != pos {
                    let a = if m1 < pos { m1 } else { m1 - 1 };
                    let b = if m2 < pos { m2 } else { m2 - 1 };
                    assert(perm[m1] == old_perm[a] && perm[m2] == old_perm[b]);
                    assert(old_perm[a] != old_perm[b]);
                } else if m1 == pos {
                    assert(perm[m2] == old_perm[m2 - 1]);
                    assert(0 <= old_perm[m2 - 1] < k);
                } else {
                    assert(perm[m1] == old_perm[m1]);
                    assert(0 <= old_perm[m1] < k);
                }
            }
            assert forall|m1: int, m2: int|
                0 <= m1 < m2 < perm.len() && !older(
                    (#[trigger] ins[m1]).created_at@,
                    (#[trigger] ins[m2]).created_at@,
                ) && !older(ins[m2].created_at@, ins[m1].created_at@) implies perm[m1]
                < perm[m2] by {
                if m1 != pos && m2 != pos {
                    let a = if m1 < pos { m1 } else { m1 - 1 };
                    let b = if m2 < pos { m2 } else { m2 - 1 };
                    assert(perm[m1] == old_perm[a] && perm[m2] == old_perm[b]);
                    assert(ins[m1] == before[a] && ins[m2] == before[b]);
                    assert(old_perm[a] < old_perm[b]);
                } else if m1 == pos {
                    assert(ins[m2] == before[m2 - 1]);
                    assert(older(before[m2 - 1].created_at@, x.created_at@));
                } else {
                    assert(perm[m1] == old_perm[m1]);
                    assert(0 <= old_perm[m1] < k);
                }
            }
            assert(stable_reorder(o1, out@, perm));
        }
        k = k + 1;
    }
    assert(orig.subrange(0, k as int) =~= orig);
    out
}

} // verus!

verus! {

/// The instant (seconds since the Unix epoch, nanoseconds past that
/// second) that an RFC 3339 timestamp denotes; `None` when the text does
/// not parse.
pub uninterp spec fn rfc3339_instant(s: Seq<char>) -> Option<(i64, u32)>;

/// `chrono::DateTime::parse_from_rfc3339`, read as its UTC timestamp and
/// sub-second nanoseconds. The contract names the result as a function of
/// the text; the RFC 3339 grammar is not spelled out.
#[verifier::external_body]
fn parse_rfc3339(s: &str) -> (r: Option<(i64, u32)>)
    ensures
        r == rfc3339_instant(s@),
{
    match chrono::DateTime::parse_from_rfc3339(s) {
        Ok(d) => Some((d.timestamp(), d.timestamp_subsec_nanos())),
        Err(_) => None,
    }
}

/// How long snapshots are kept, in seconds (seven days).
pub open spec fn retention_secs() -> int {
    7int * 86400
}

/// Whether instant `a` comes before instant `b`.
pub open spec fn instant_before(a: (i64, u32), b: (i64, u32)) -> bool {
    a.0 < b.0 || (a.0 == b.0 && a.1 < b.1)
}

/// The oldest creation time kept at `now`: seven days earlier.
pub fn retention_cutoff(now: (i64, u32)) -> (r: (i64, u32))
    requires
        now.0 >= i64::MIN + 604800,
    ensures
        r.0 == now.0 - retention_secs(),
        r.1 == now.1,
{
    (now.0 - 604800, now.1)
}

/// A snapshot created at `created_at` is past retention at `cutoff` when its
/// timestamp parses and is before the cutoff; one whose timestamp does not
/// parse is kept.
pub open spec fn spec_is_expired(created_at: Seq<char>, cutoff: (i64, u32)) -> bool {
    match rfc3339_instant(created_at) {
        Some(t) => instant_before(t, cutoff),
        None => false,
    }
}

#[verifier::external_type_specification]
#[verifier::external_body]
pub struct ExSystemTime(std::time::SystemTime);

/// `SystemTime::now`: the system clock's reading. It depends on the clock,
/// and the contract states nothing of it.
#[verifier::external_body]
fn system_now() -> std::time::SystemTime {
    std::time::SystemTime::now()
}

/// `SystemTime::duration_since(UNIX_EPOCH)`, read as whole seconds and the
/// nanoseconds past them (`Duration::as_secs`, `Duration::subsec_nanos`,
/// which stays below one second); `None` when `t` is before the epoch.
#[verifier::external_body]
fn since_unix_epoch(t: &std::time::SystemTime) -> (r: Option<(u64, u32)>)
    ensures
        r matches Some(d) ==> d.1 < 1_000_000_000,
{
    match t.duration_since(std::time::UNIX_EPOCH) {
        Ok(d) => Some((d.as_secs(), d.subsec_nanos())),
        Err(_) => None,
    }
}

/// The current time as an instant (seconds since the Unix epoch, and
/// nanoseconds past that second), or `None` when the clock reads before
/// 1970 or past what `i64` seconds hold.
fn clock_instant() -> (r: Option<(i64, u32)>)
    ensures
        r matches Some(t) ==> t.0 >= 0 && t.1 < 1_000_000_000,
{
    let now = system_now();
    match since_unix_epoch(&now) {
        Some(d) => {
            if d.0 <= 9223372036854775807u64 {
                Some((d.0 as i64, d.1))
            } else {
                None
            }
        },
        None => None,
    }
}

fn clock_error() -> (e: Error)
    ensures
        e@ == ErrorView::Msg(clock_failure()),
{
    Error::Msg(String::from_str("the system clock reads before 1970 or beyond what can be stored"))
}

/// The last second of the year 9999: the latest time whose RFC 3339 text
/// has the four-digit year that the format requires.
pub open spec fn max_rfc3339_secs() -> int {
    253402300799
}

/// The RFC 3339 text that chrono writes for an instant.
pub uninterp spec fn rfc3339_text(secs: i64, nanos: u32) -> Seq<char>;

/// `chrono::DateTime::from_timestamp(secs, nanos)` then `to_rfc3339`: the
/// RFC 3339 text of the instant, named as a function of it; `None` when
/// chrono cannot represent the instant. For a time from 1970 to the end of
/// the year 9999 with nanoseconds below one second, chrono represents it
/// (it holds years up to 262143), writes a four-digit year, the time with
/// every non-zero sub-second digit and the offset `+00:00`, and its RFC 3339
/// parser reads that text back as the same instant.
#[verifier::external_body]
fn format_rfc3339(secs: i64, nanos: u32) -> (r: Option<String>)
    ensures
        r matches Some(s) ==> s@ == rfc3339_text(secs, nanos),
        r is None ==> !(0 <= secs <= max_rfc3339_secs() && nanos < 1_000_000_000),
        r matches Some(s) ==> (0 <= secs <= max_rfc3339_secs() && nanos < 1_000_000_000
            ==> rfc3339_instant(s@) == Some((secs, nanos))),
{
    match chrono::DateTime::from_timestamp(secs, nanos) {
        Some(d) => Some(d.to_rfc3339()),
        None => None,
    }
}

/// The oldest creation time kept now: seven days before the current time,
/// which is read from the clock and so is stated only by its range. Fails
/// when the clock reads before 1970 (or past what `i64` seconds hold).
pub fn retention_cutoff_now() -> (r: Result<(i64, u32), Error>)
    ensures
        match r {
            Ok(c) => {
                &&& c.0 + retention_secs() >= 0
                &&& c.1 < 1_000_000_000
                &&& exists|now: (i64, u32)|
                    #[trigger] clock_reading(now) && c.0 == now.0 - 604800 && c.1 == now.1
            },
            Err(e) => e@ == ErrorView::Msg(clock_failure()),
        },
{
    match clock_instant() {
        Some(now) => {
            assert(clock_reading(now));
            Ok(retention_cutoff(now))
        },
        None => Err(clock_error()),
    }
}

/// A reading of the clock as an instant: a time after 1970, with the
/// nanoseconds below one second.
pub open spec fn clock_reading(now: (i64, u32)) -> bool {
    now.0 >= 0 && now.1 < 1_000_000_000
}

/// Snapshots are kept seven days: the retention is 604800 seconds.
pub proof fn lemma_retention_is_seven_days()
    ensures
        retention_secs() == 604800,
{
}

/// A snapshot younger than seven days is kept: one stamped at `t` (up to
/// the year 9999) is not past retention at the cutoff taken from any clock
/// reading `now` less than 604800 seconds after `t`.
pub proof fn lemma_recent_snapshot_kept(created_at: Seq<char>, t: (i64, u32), now: (i64, u32))
    requires
        stamped_at(created_at, t),
        t.0 <= max_rfc3339_secs(),
        clock_reading(now),
        now.0 - t.0 < 604800,
    ensures
        !spec_is_expired(created_at, ((now.0 - 604800) as i64, now.1)),
{
}

/// A snapshot older than seven days (and one second) is pruned: one
/// stamped at `t` is past retention at the cutoff taken from a clock
/// reading `now` more than 604800 seconds after `t`.
pub proof fn lemma_old_snapshot_expires(created_at: Seq<char>, t: (i64, u32), now: (i64, u32))
    requires
        stamped_at(created_at, t),
        t.0 <= max_rfc3339_secs(),
        clock_reading(now),
        now.0 - t.0 > 604800,
    ensures
        spec_is_expired(created_at, ((now.0 - 604800) as i64, now.1)),
{
}

/// A snapshot is kept as long as its creation time is not before the
/// cutoff: one stamped at `t` (up to the year 9999) is not past retention
/// at any cutoff that is not later than `t`, in particular at the cutoff
/// seven days before `t` or before any later time.
pub proof fn lemma_stamped_snapshot_kept(created_at: Seq<char>, t: (i64, u32), cutoff: (i64, u32))
    requires
        stamped_at(created_at, t),
        t.0 <= max_rfc3339_secs(),
        !instant_before(t, cutoff),
    ensures
        !spec_is_expired(created_at, cutoff),
{
}

/// Whether a snapshot created at `created_at` is past retention at `cutoff`.
pub fn is_expired(created_at: &str, cutoff: (i64, u32)) -> (r: bool)
    ensures
        r == spec_is_expired(created_at@, cutoff),
{
    match parse_rfc3339(created_at) {
        Some(t) => t.0 < cutoff.0 || (t.0 == cutoff.0 && t.1 < cutoff.1),
        None => false,
    }
}

/// The ids of the snapshots past retention, in list order.
pub open spec fn spec_expired_ids(s: Seq<Snapshot>, cutoff: (i64, u32)) -> Seq<Seq<char>>
    decreases s.len(),
{
    if s.len() == 0 {
        Seq::empty()
    } else if spec_is_expired(s.last().created_at@, cutoff) {
        spec_expired_ids(s.drop_last(), cutoff).push(s.last().id@)
    } else {
        spec_expired_ids(s.drop_last(), cutoff)
    }
}

/// The ids of the snapshots that pruning removes at `cutoff`, in list order.
pub fn expired_ids(snaps: &Vec<Snapshot>, cutoff: (i64, u32)) -> (r: Vec<String>)
    ensures
        r@.map_values(|s: String| s@) == spec_expired_ids(snaps@, cutoff),
{
    let mut out: Vec<String> = Vec::new();
    let mut i: usize = 0;
    assert(snaps@.take(0) =~= Seq::<Snapshot>::empty());
    while i < snaps.len()
        invariant
            i <= snaps@.len(),
            out@.map_values(|s: String| s@) == spec_expired_ids(snaps@.take(i as int), cutoff),
        decreases snaps@.len() - i,
    {
        let ghost prefix = snaps@.take(i as int + 1);
        assert(prefix.drop_last() =~= snaps@.take(i as int));
        assert(prefix.last() == snaps@[i as int]);
        let ghost before = out@;
        if is_expired(snaps[i].created_at.as_str(), cutoff) {
            out.push(snaps[i].id.clone());
            assert(out@.map_values(|s: String| s@) =~= before.map_values(|s: String| s@).push(
                snaps@[i as int].id@,
            ));
        }
        i = i + 1;
    }
    assert(snaps@.take(snaps@.len() as int) =~= snaps@);
    out
}

/// Pruning keeps every snapshot whose creation time is not before the
/// cutoff: its id is not among the expired ones.
pub proof fn lemma_fresh_snapshots_kept(s: Seq<Snapshot>, cutoff: (i64, u32), id: Seq<char>)
    requires
        forall|i: int|
            0 <= i < s.len() && #[trigger] s[i].id@ == id ==> !spec_is_expired(
                s[i].created_at@,
                cutoff,
            ),
    ensures
        !spec_expired_ids(s, cutoff).contains(id),
    decreases s.len(),
{
    if s.len() > 0 {
        let t = s.drop_last();
        assert forall|i: int| 0 <= i < t.len() && #[trigger] t[i].id@ == id implies !spec_is_expired(
            t[i].created_at@,
            cutoff,
        ) by {
            assert(t[i] == s[i]);
        }
        lemma_fresh_snapshots_kept(t, cutoff, id);
        if spec_is_expired(s.last().created_at@, cutoff) {
            assert(s.last() == s[s.len() - 1]);
            assert(spec_expired_ids(s, cutoff) == spec_expired_ids(t, cutoff).push(s.last().id@));
            assert(s.last().id@ != id);
        }
    }
}

} // verus!
