//! Deterministic risk rule engine.
//!
//! Risk is decided by these rules only. Every rule is a pure function of the
//! entry, its signature status, its publisher and whether the file it points
//! to exists.

use vstd::prelude::*;

use crate::model::{Category, RawEntry, Risk, Signature};
use crate::text::{
    chars_of, find_char_from, has_infix, has_prefix, lowercase,
    scan_non_ws_from, str_contains, str_starts_with, substring, to_lowercase, trim, trim_str,
    find_from, scan_non_ws,
};

verus! {

/// System directories that count as a "trusted location" signal.
pub open spec fn system_dirs() -> Seq<Seq<char>> {
    seq!["C:\\Windows\\System32"@, "C:\\Windows\\SysWOW64"@, "C:\\Windows"@, "C:\\Program Files"@]
}

/// Directory prefixes that raise the risk by one.
pub open spec fn suspicious_prefixes() -> Seq<Seq<char>> {
    seq!["C:\\Users\\"@, "C:\\ProgramData\\"@]
}

/// Directory prefixes that raise the risk by two.
pub open spec fn high_risk_prefixes() -> Seq<Seq<char>> {
    seq!["C:\\Windows\\Temp"@]
}

fn system_dir_list() -> (r: [&'static str; 4])
    ensures
        r@.map_values(|d: &str| d@) == system_dirs(),
{
    let r = ["C:\\Windows\\System32", "C:\\Windows\\SysWOW64", "C:\\Windows", "C:\\Program Files"];
    assert(r@.map_values(|d: &str| d@) =~= system_dirs());
    r
}

fn suspicious_prefix_list() -> (r: [&'static str; 2])
    ensures
        r@.map_values(|d: &str| d@) == suspicious_prefixes(),
{
    let r = ["C:\\Users\\", "C:\\ProgramData\\"];
    assert(r@.map_values(|d: &str| d@) =~= suspicious_prefixes());
    r
}

fn high_risk_prefix_list() -> (r: [&'static str; 1])
    ensures
        r@.map_values(|d: &str| d@) == high_risk_prefixes(),
{
    let r = ["C:\\Windows\\Temp"];
    assert(r@.map_values(|d: &str| d@) =~= high_risk_prefixes());
    r
}

} // verus!

verus! {

/// The path that a command line starts with: the text inside a leading pair
/// of double quotes, or else the first whitespace-separated word of the
/// trimmed command. `None` for a blank command.
pub open spec fn spec_extract_path(command: Seq<char>) -> Option<Seq<char>> {
    let t = trim(command);
    if t.len() == 0 {
        None
    } else if t[0] == '"' && find_from(t, '"', 1) < t.len() {
        Some(t.subrange(1, find_from(t, '"', 1)))
    } else {
        Some(t.subrange(0, scan_non_ws(t, 0)))
    }
}

/// Extract the first quoted or unquoted path from a command line.
pub fn extract_path(command: &str) -> (r: Option<String>)
    ensures
        r matches Some(p) ==> spec_extract_path(command@) == Some(p@),
        r is None ==> spec_extract_path(command@) is None,
{
    let trimmed = trim_str(command);
    let t = chars_of(trimmed.as_str());
    if t.len() == 0 {
        return None;
    }
    if t[0] == '"' {
        let end = find_char_from(&t, '"', 1);
        if end < t.len() {
            return Some(substring(trimmed.as_str(), 1, end));
        }
    }
    let end = scan_non_ws_from(&t, 0);
    Some(substring(trimmed.as_str(), 0, end))
}

/// Whether `lower_path` starts with the lowercase form of one of `prefixes`.
pub open spec fn under_any(prefixes: Seq<Seq<char>>, lower_path: Seq<char>) -> bool {
    exists|i: int| 0 <= i < prefixes.len() && has_prefix(lower_path, lowercase(#[trigger] prefixes[i]))
}

/// Whether a path lies under one of the system directories (case-insensitively).
pub open spec fn spec_under_system_dir(path: Seq<char>) -> bool {
    under_any(system_dirs(), lowercase(path))
}

/// Whether the lowercase path starts with the lowercase form of one of the prefixes.
pub fn path_under(prefixes: &[&str], lower_path: &str) -> (r: bool)
    ensures
        r == under_any(prefixes@.map_values(|d: &str| d@), lower_path@),
{
    let ghost ps = prefixes@.map_values(|d: &str| d@);
    let mut i: usize = 0;
    while i < prefixes.len()
        invariant
            i <= prefixes@.len(),
            ps == prefixes@.map_values(|d: &str| d@),
            forall|j: int| 0 <= j < i ==> !has_prefix(lower_path@, lowercase(#[trigger] ps[j])),
        decreases prefixes@.len() - i,
    {
        let d = to_lowercase(prefixes[i]);
        if str_starts_with(lower_path, d.as_str()) {
            assert(ps[i as int] == prefixes@[i as int]@);
            return true;
        }
        i = i + 1;
    }
    false
}

/// Whether a path lies under one of the system directories.
pub fn path_under_system_dir(path: &str) -> (r: bool)
    ensures
        r == spec_under_system_dir(path@),
{
    let lower = to_lowercase(path);
    path_under(&system_dir_list(), lower.as_str())
}

/// Whether a path holds a character outside ASCII.
pub open spec fn has_non_ascii(p: Seq<char>) -> bool {
    exists|i: int| 0 <= i < p.len() && (#[trigger] p[i] as u32) > 0x7f
}

fn contains_non_ascii(p: &str) -> (r: bool)
    ensures
        r == has_non_ascii(p@),
{
    let v = chars_of(p);
    let mut i: usize = 0;
    while i < v.len()
        invariant
            i <= v@.len(),
            v@ == p@,
            forall|j: int| 0 <= j < i ==> !((#[trigger] p@[j] as u32) > 0x7f),
        decreases v@.len() - i,
    {
        if (v[i] as u32) > 0x7f {
            return true;
        }
        i = i + 1;
    }
    false
}

} // verus!

verus! {

/// Rules output: risk plus human-readable reasons.
#[derive(Debug, Clone)]
pub struct RuleResult {
    pub risk: Risk,
    /// Human-readable reasons, e.g. "unsigned", "non-system path".
    pub reasons: Vec<String>,
}

/// The character sequences held by a sequence of strings.
pub open spec fn strings_view(v: Seq<String>) -> Seq<Seq<char>> {
    v.map_values(|s: String| s@)
}

/// One step down, not below zero (`u8::saturating_sub(1)`).
pub open spec fn sat_dec(x: int) -> int {
    if x >= 1 {
        x - 1
    } else {
        0
    }
}

/// Score and reason contributed by the signature status.
pub open spec fn signature_score(sig: Signature) -> int {
    match sig {
        Signature::Invalid => 2,
        Signature::Unsigned => 2,
        _ => 0,
    }
}

/// Reasons contributed by the signature status.
pub open spec fn signature_reasons(sig: Signature) -> Seq<Seq<char>> {
    match sig {
        Signature::Invalid => seq!["signature invalid"@],
        Signature::Unsigned => seq!["unsigned"@],
        _ => Seq::empty(),
    }
}

/// Whether the publisher name mentions Microsoft (case-insensitively).
pub open spec fn is_microsoft(publisher: Option<Seq<char>>) -> bool {
    match publisher {
        Some(p) => has_infix(lowercase(p), "microsoft"@),
        None => false,
    }
}

/// The view of an optional string slice.
pub open spec fn opt_str_view(o: Option<&str>) -> Option<Seq<char>> {
    match o {
        Some(s) => Some(s@),
        None => None,
    }
}

/// Score and reasons after the path rules, for an extracted path `p`,
/// starting from score `s1` and reasons `r0`.
pub open spec fn path_outcome(
    category: Category,
    p: Seq<char>,
    file_exists: bool,
    s1: int,
    r0: Seq<Seq<char>>,
) -> (int, Seq<Seq<char>>) {
    let lower = lowercase(p);
    let s2 = if under_any(high_risk_prefixes(), lower) {
        s1 + 2
    } else if under_any(suspicious_prefixes(), lower) {
        s1 + 1
    } else {
        s1
    };
    let r2 = if under_any(high_risk_prefixes(), lower) {
        r0.push("temp directory path"@)
    } else if under_any(suspicious_prefixes(), lower) {
        r0.push("non-system path"@)
    } else {
        r0
    };
    let system = spec_under_system_dir(p);
    let s3 = if system {
        sat_dec(s2)
    } else {
        s2
    };
    let s4 = if !file_exists {
        s3 + 1
    } else {
        s3
    };
    let r4 = if !file_exists {
        r2.push("file missing"@)
    } else {
        r2
    };
    let s5 = if has_non_ascii(p) {
        s4 + 1
    } else {
        s4
    };
    let r5 = if has_non_ascii(p) {
        r4.push("non-ascii path"@)
    } else {
        r4
    };
    if category == Category::StartupFolder && !system {
        (s5 + 1, r5.push("startup folder entry"@))
    } else {
        (s5, r5)
    }
}

/// The score and the reasons that the rules give an entry with this
/// category and command, signature status, publisher, and file existence.
pub open spec fn rule_outcome(
    category: Category,
    command: Seq<char>,
    sig: Signature,
    publisher: Option<Seq<char>>,
    file_exists: bool,
) -> (int, Seq<Seq<char>>) {
    let s0 = signature_score(sig);
    let r0 = signature_reasons(sig);
    let s1 = if is_microsoft(publisher) {
        sat_dec(s0)
    } else {
        s0
    };
    match spec_extract_path(command) {
        None => (s1, r0.push("no path"@)),
        Some(p) => path_outcome(category, p, file_exists, s1, r0),
    }
}

/// The risk level of a score: 3 and above is High, 2 is Medium, below is Low.
pub open spec fn risk_of_score(score: int) -> Risk {
    if score >= 3 {
        Risk::High
    } else if score >= 2 {
        Risk::Medium
    } else {
        Risk::Low
    }
}

/// The core rule: a file without a valid signature (unsigned, or whose
/// signature does not verify), from a publisher that is not Microsoft, at a
/// path outside the system directories.
pub open spec fn unsigned_outside_system(
    command: Seq<char>,
    sig: Signature,
    publisher: Option<Seq<char>>,
) -> bool {
    &&& (sig == Signature::Unsigned || sig == Signature::Invalid)
    &&& !is_microsoft(publisher)
    &&& spec_extract_path(command) matches Some(p) && !spec_under_system_dir(p)
}

/// The rule result for an entry, given whether the file its command points
/// to exists: High for an entry that meets the core rule
/// (`unsigned_outside_system`), otherwise the level of its score.
pub open spec fn spec_evaluate(
    category: Category,
    command: Seq<char>,
    sig: Signature,
    publisher: Option<Seq<char>>,
    file_exists: bool,
) -> (Risk, Seq<Seq<char>>) {
    let o = rule_outcome(category, command, sig, publisher, file_exists);
    if unsigned_outside_system(command, sig, publisher) {
        (Risk::High, o.1)
    } else {
        (risk_of_score(o.0), o.1)
    }
}

/// `Path::exists`: whether something exists at `path` on this machine.
/// The answer depends on the disk, so the contract states nothing of it.
#[verifier::external_body]
pub fn path_exists(path: &str) -> bool {
    std::path::Path::new(path).exists()
}

fn push_reason(reasons: &mut Vec<String>, reason: &str)
    ensures
        strings_view(final(reasons)@) == strings_view(old(reasons)@).push(reason@),
{
    reasons.push(String::from_str(reason));
    assert(strings_view(reasons@) =~= strings_view(old(reasons)@).push(reason@));
}

/// Evaluate one raw entry, with the existence of the file its command points
/// to given by the caller.
pub fn evaluate_with(
    entry: &RawEntry,
    signature: Signature,
    publisher: Option<&str>,
    file_exists: bool,
) -> (r: RuleResult)
    ensures
        (r.risk, strings_view(r.reasons@)) == spec_evaluate(
            entry.category,
            entry.command@,
            signature,
            opt_str_view(publisher),
            file_exists,
        ),
{
    let ghost outcome = rule_outcome(
        entry.category,
        entry.command@,
        signature,
        opt_str_view(publisher),
        file_exists,
    );
    let mut score: u8 = 0;
    let mut reasons: Vec<String> = Vec::new();
    assert(strings_view(reasons@) =~= Seq::<Seq<char>>::empty());

    match signature {
        Signature::Valid => {},
        Signature::Invalid => {
            score = score + 2;
            push_reason(&mut reasons, "signature invalid");
        },
        Signature::Unsigned => {
            score = score + 2;
            push_reason(&mut reasons, "unsigned");
        },
        Signature::Unknown => {},
    }
    assert(strings_view(reasons@) =~= signature_reasons(signature));

    let mut microsoft = false;
    if let Some(pub_name) = publisher {
        let lower = to_lowercase(pub_name);
        if str_contains(lower.as_str(), "microsoft") {
            microsoft = true;
            score = score.saturating_sub(1);
        }
    }
    let mut outside_system = false;
    let ghost s1 = score as int;
    let ghost r0 = strings_view(reasons@);

    let path = extract_path(entry.command.as_str());
    match path {
        Some(p) => {
            let lower = to_lowercase(p.as_str());
            if path_under(&high_risk_prefix_list(), lower.as_str()) {
                score = score + 2;
                push_reason(&mut reasons, "temp directory path");
            } else if path_under(&suspicious_prefix_list(), lower.as_str()) {
                score = score + 1;
                push_reason(&mut reasons, "non-system path");
            }
            let system = path_under_system_dir(p.as_str());
            outside_system = !system;
            if system {
                score = score.saturating_sub(1);
            }
            if !file_exists {
                score = score + 1;
                push_reason(&mut reasons, "file missing");
            }
            if contains_non_ascii(p.as_str()) {
                score = score + 1;
                push_reason(&mut reasons, "non-ascii path");
            }
            if entry.category == Category::StartupFolder && !system {
                score = score + 1;
                push_reason(&mut reasons, "startup folder entry");
            }
            assert((score as int, strings_view(reasons@)) == path_outcome(
                entry.category,
                p@,
                file_exists,
                s1,
                r0,
            ));
        },
        None => {
            push_reason(&mut reasons, "no path");
        },
    }
    let bad_signature = match signature {
        Signature::Unsigned => true,
        Signature::Invalid => true,
        _ => false,
    };
    let risk = if bad_signature && !microsoft && outside_system {
        Risk::High
    } else if score >= 3 {
        Risk::High
    } else if score >= 2 {
        Risk::Medium
    } else {
        Risk::Low
    };
    RuleResult { risk, reasons }
}

/// Evaluate one raw entry. The signature status and the publisher are given
/// by the caller; whether the file the command points to exists is read from
/// the disk.
pub fn evaluate(entry: &RawEntry, signature: Signature, publisher: Option<&str>) -> (r: RuleResult)
    ensures
        exists|file_exists: bool|
            (r.risk, strings_view(r.reasons@)) == #[trigger] spec_evaluate(
                entry.category,
                entry.command@,
                signature,
                opt_str_view(publisher),
                file_exists,
            ),
{
    let file_exists = match extract_path(entry.command.as_str()) {
        Some(p) => path_exists(p.as_str()),
        None => true,
    };
    evaluate_with(entry, signature, publisher, file_exists)
}

} // verus!

verus! {

proof fn lemma_risk_of_score_monotone(s: int, t: int)
    requires
        s <= t,
    ensures
        crate::model::risk_rank(risk_of_score(s)) <= crate::model::risk_rank(risk_of_score(t)),
{
}

proof fn lemma_path_score_monotone(
    category: Category,
    p: Seq<char>,
    file_exists: bool,
    s: int,
    t: int,
    r: Seq<Seq<char>>,
    q: Seq<Seq<char>>,
)
    requires
        0 <= s <= t,
    ensures
        path_outcome(category, p, file_exists, s, r).0 <= path_outcome(
            category,
            p,
            file_exists,
            t,
            q,
        ).0,
{
}

proof fn lemma_rule_score_monotone_in_base(
    category: Category,
    command: Seq<char>,
    sig_a: Signature,
    sig_b: Signature,
    publisher: Option<Seq<char>>,
    file_exists: bool,
)
    requires
        signature_score(sig_a) <= signature_score(sig_b),
    ensures
        rule_outcome(category, command, sig_a, publisher, file_exists).0 <= rule_outcome(
            category,
            command,
            sig_b,
            publisher,
            file_exists,
        ).0,
{
    let s0a = signature_score(sig_a);
    let s0b = signature_score(sig_b);
    let s1a = if is_microsoft(publisher) {
        sat_dec(s0a)
    } else {
        s0a
    };
    let s1b = if is_microsoft(publisher) {
        sat_dec(s0b)
    } else {
        s0b
    };
    if let Some(p) = spec_extract_path(command) {
        lemma_path_score_monotone(
            category,
            p,
            file_exists,
            s1a,
            s1b,
            signature_reasons(sig_a),
            signature_reasons(sig_b),
        );
    }
}

/// An unsigned file, or one whose signature does not verify, is never rated
/// lower than a validly signed one (or one whose signature does not apply),
/// all else being equal.
pub proof fn lemma_bad_signature_never_lowers_risk(
    category: Category,
    command: Seq<char>,
    bad: Signature,
    good: Signature,
    publisher: Option<Seq<char>>,
    file_exists: bool,
)
    requires
        bad == Signature::Unsigned || bad == Signature::Invalid,
        good == Signature::Valid || good == Signature::Unknown,
    ensures
        crate::model::risk_rank(spec_evaluate(category, command, good, publisher, file_exists).0)
            <= crate::model::risk_rank(
            spec_evaluate(category, command, bad, publisher, file_exists).0,
        ),
{
    lemma_rule_score_monotone_in_base(category, command, good, bad, publisher, file_exists);
    lemma_risk_of_score_monotone(
        rule_outcome(category, command, good, publisher, file_exists).0,
        rule_outcome(category, command, bad, publisher, file_exists).0,
    );
}

/// A file that no longer exists is never rated lower than one that does,
/// all else being equal.
pub proof fn lemma_missing_file_never_lowers_risk(
    category: Category,
    command: Seq<char>,
    sig: Signature,
    publisher: Option<Seq<char>>,
)
    ensures
        crate::model::risk_rank(spec_evaluate(category, command, sig, publisher, true).0)
            <= crate::model::risk_rank(spec_evaluate(category, command, sig, publisher, false).0),
{
    lemma_risk_of_score_monotone(
        rule_outcome(category, command, sig, publisher, true).0,
        rule_outcome(category, command, sig, publisher, false).0,
    );
}

/// A Microsoft publisher never raises the risk compared to no publisher.
pub proof fn lemma_microsoft_publisher_never_raises_risk(
    category: Category,
    command: Seq<char>,
    sig: Signature,
    publisher: Option<Seq<char>>,
    file_exists: bool,
)
    requires
        is_microsoft(publisher),
    ensures
        crate::model::risk_rank(spec_evaluate(category, command, sig, publisher, file_exists).0)
            <= crate::model::risk_rank(spec_evaluate(category, command, sig, None, file_exists).0),
{
    let s0 = signature_score(sig);
    if let Some(p) = spec_extract_path(command) {
        lemma_path_score_monotone(
            category,
            p,
            file_exists,
            sat_dec(s0),
            s0,
            signature_reasons(sig),
            signature_reasons(sig),
        );
    }
    lemma_risk_of_score_monotone(
        rule_outcome(category, command, sig, publisher, file_exists).0,
        rule_outcome(category, command, sig, None, file_exists).0,
    );
}

/// Unsigned (or badly signed) + non-system directory + non-Microsoft
/// publisher = high risk: an entry whose signature is missing or does not
/// verify, whose publisher is not Microsoft, and whose path lies outside the
/// system directories is rated High, whatever else holds of it.
pub proof fn lemma_unsigned_non_system_path_is_high_risk(
    category: Category,
    command: Seq<char>,
    sig: Signature,
    publisher: Option<Seq<char>>,
    file_exists: bool,
)
    requires
        sig == Signature::Unsigned || sig == Signature::Invalid,
        !is_microsoft(publisher),
        spec_extract_path(command) matches Some(p) && !spec_under_system_dir(p),
    ensures
        spec_evaluate(category, command, sig, publisher, file_exists).0 == Risk::High,
{
}

/// A path in the Windows temp directory is rated High for a file without a
/// valid signature from a publisher that is not Microsoft: the temp
/// directory adds two points to the two of the signature, and being under
/// the Windows directory takes at most one away, so the score is at least
/// three.
pub proof fn lemma_temp_path_unsigned_is_high_risk(
    category: Category,
    command: Seq<char>,
    sig: Signature,
    publisher: Option<Seq<char>>,
    file_exists: bool,
)
    requires
        sig == Signature::Unsigned || sig == Signature::Invalid,
        !is_microsoft(publisher),
        spec_extract_path(command) matches Some(p) && under_any(high_risk_prefixes(), lowercase(p)),
    ensures
        spec_evaluate(category, command, sig, publisher, file_exists).0 == Risk::High,
        spec_extract_path(command) matches Some(p) && rule_outcome(
            category,
            command,
            sig,
            publisher,
            file_exists,
        ).0 >= 3 && rule_outcome(category, command, sig, publisher, file_exists).0 == 4 - (if spec_under_system_dir(p) {
            1int
        } else {
            0
        }) + (if !file_exists {
            1int
        } else {
            0
        }) + (if has_non_ascii(p) {
            1int
        } else {
            0
        }) + (if category == Category::StartupFolder && !spec_under_system_dir(p) {
            1int
        } else {
            0
        }),
{
}

/// The weights of the rules. The signature gives 2 when it is missing or
/// does not verify (else 0); a Microsoft publisher takes 1 away (not below
/// zero). For an entry with a path, the Windows temp directory adds 2, else
/// a user profile or shared program data adds 1; a path under a system
/// directory then takes 1 away (not below zero); a missing file, a non-ASCII
/// path, and a startup folder entry outside the system directories each add
/// 1. The level is High for a file without a valid signature from a
/// publisher that is not Microsoft at a path outside the system
/// directories, else High from 3 points, Medium at 2 and Low below.
pub proof fn lemma_rule_weights(
    category: Category,
    command: Seq<char>,
    sig: Signature,
    publisher: Option<Seq<char>>,
    file_exists: bool,
)
    ensures
        ({
            let bad = sig == Signature::Unsigned || sig == Signature::Invalid;
            let ms = is_microsoft(publisher);
            let base: int = if bad {
                2
            } else {
                0
            };
            let b1: int = if ms && base >= 1 {
                base - 1
            } else if ms {
                0
            } else {
                base
            };
            let score: int = match spec_extract_path(command) {
                None => b1,
                Some(p) => {
                    let lower = lowercase(p);
                    let t: int = if under_any(high_risk_prefixes(), lower) {
                        2
                    } else if under_any(suspicious_prefixes(), lower) {
                        1
                    } else {
                        0
                    };
                    let system = spec_under_system_dir(p);
                    let after_system: int = if system && b1 + t >= 1 {
                        b1 + t - 1
                    } else if system {
                        0
                    } else {
                        b1 + t
                    };
                    after_system + (if !file_exists {
                        1int
                    } else {
                        0
                    }) + (if has_non_ascii(p) {
                        1int
                    } else {
                        0
                    }) + (if category == Category::StartupFolder && !system {
                        1int
                    } else {
                        0
                    })
                },
            };
            let core = bad && !ms && (spec_extract_path(command) matches Some(p)
                && !spec_under_system_dir(p));
            &&& rule_outcome(category, command, sig, publisher, file_exists).0 == score
            &&& spec_evaluate(category, command, sig, publisher, file_exists).0 == if core {
                Risk::High
            } else if score >= 3 {
                Risk::High
            } else if score >= 2 {
                Risk::Medium
            } else {
                Risk::Low
            }
        }),
{
}

} // verus!
