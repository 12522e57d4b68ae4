use bootkeeper::enrich::enrich;
use bootkeeper::model::{Category, RawEntry, Risk, Signature, StartupItem};
use bootkeeper::ops::{task_parent_folder, trim_disabled_suffix, DISABLED_SUFFIX};
use bootkeeper::platform::{
    enumerate_scheduled_tasks, enumerate_startup_folders, run_helper, verify_file_signature,
};
use bootkeeper::regvalue::{decode_reg_value_bytes, RegType};
use bootkeeper::rules::{evaluate, extract_path};
use bootkeeper::write::{category_from_str, parse_item_id, WriteOp};

fn entry(command: &str) -> RawEntry {
    RawEntry::new(Category::RegistryRun, "HKCU\\Run", "Test", command)
}

fn folder_entry(command: &str) -> RawEntry {
    RawEntry::new(Category::StartupFolder, "user_startup", "Test", command)
}

/// "C:\Users\甲\App.exe" encoded as UTF-16LE.
fn utf16le(s: &str) -> Vec<u8> {
    let mut bytes = Vec::new();
    for unit in s.encode_utf16() {
        bytes.extend_from_slice(&unit.to_le_bytes());
    }
    bytes
}

#[test]
fn category_parse() {
    assert_eq!(category_from_str("registry_run"), Some(Category::RegistryRun));
    assert_eq!(category_from_str("bogus"), None);
}

#[test]
fn enrich_marks_disabled_names() {
    let raw = RawEntry::new(Category::RegistryRun, "HKCU\\Run", "Foo.disabled", "x");
    let item = enrich(&raw, |_| Signature::Valid);
    assert!(!item.enabled);
    assert_eq!(item.risk, Risk::Low);
}

#[test]
fn enrich_marks_unsigned_high_risk() {
    let raw = RawEntry::new(Category::RegistryRun, "HKCU\\Run", "Foo", "C:\\evil\\x.exe");
    let item = enrich(&raw, |_| Signature::Unsigned);
    assert_eq!(item.risk, Risk::High);
}

#[test]
fn build_id_is_stable_and_unique() {
    let a = StartupItem::build_id(Category::RegistryRun, "HKCU\\Run", "Foo");
    let b = StartupItem::build_id(Category::RegistryRun, "HKCU\\Run", "Foo");
    let c = StartupItem::build_id(Category::RegistryRun, "HKLM\\Run", "Foo");
    assert_eq!(a, b);
    assert_ne!(a, c);
}

#[test]
fn risk_orders_low_med_high() {
    assert!(Risk::Low < Risk::Medium);
    assert!(Risk::Medium < Risk::High);
}

#[test]
fn signed_microsoft_system_path_is_low_risk() {
    let e = entry("\"C:\\Windows\\System32\\foo.exe\" --flag");
    let r = evaluate(&e, Signature::Valid, Some("Microsoft Corporation"));
    assert_eq!(r.risk, Risk::Low, "reasons: {:?}", r.reasons);
}

#[test]
fn unsigned_non_system_path_is_high_risk() {
    let e = entry("\"C:\\Users\\me\\AppData\\Roaming\\evil.exe\"");
    let r = evaluate(&e, Signature::Unsigned, None);
    assert_eq!(r.risk, Risk::High, "reasons: {:?}", r.reasons);
}

#[test]
fn temp_directory_is_high_risk() {
    let e = entry("\"C:\\Windows\\Temp\\payload.exe\"");
    let r = evaluate(&e, Signature::Unsigned, None);
    // unsigned (+2) + temp (+2) = 4 -> High
    assert_eq!(r.risk, Risk::High, "reasons: {:?}", r.reasons);
}

#[test]
fn startup_folder_unsigned_extra_weight() {
    let e = folder_entry("\"C:\\Users\\me\\Desktop\\thing.exe\"");
    let r = evaluate(&e, Signature::Unsigned, None);
    // unsigned (+2) + non-system (+1) + startup folder (+1) = 4 -> High
    assert_eq!(r.risk, Risk::High, "reasons: {:?}", r.reasons);
}

#[test]
fn chinese_path_is_medium_even_if_signed() {
    let e = entry("\"C:\\Program Files\\腾讯软件\\app.exe\"");
    let r = evaluate(&e, Signature::Valid, Some("Tencent"));
    assert!(
        r.risk == Risk::Low || r.risk == Risk::Medium,
        "unexpected risk: {:?} -> {:?}",
        r.risk,
        r.reasons
    );
}

#[test]
fn missing_file_under_user_profile_is_medium() {
    let e = entry("\"C:\\Users\\me\\AppData\\Roaming\\ghost.exe\"");
    let r = evaluate(&e, Signature::Unknown, None);
    // non-system (+1) + missing file (+1) = 2 -> Medium
    assert_eq!(r.risk, Risk::Medium);
}

#[test]
fn invalid_signature_non_system_high() {
    let e = entry("\"C:\\Users\\me\\AppData\\Local\\app.exe\"");
    let r = evaluate(&e, Signature::Invalid, None);
    assert_eq!(r.risk, Risk::High);
}

#[test]
fn extract_path_quoted_and_unquoted() {
    assert_eq!(extract_path("\"C:\\a\\b.exe\" -x"), Some("C:\\a\\b.exe".to_string()));
    assert_eq!(extract_path("C:\\a\\b.exe -x"), Some("C:\\a\\b.exe".to_string()));
    assert_eq!(extract_path(""), None);
}

#[test]
fn non_windows_run_helper_errors() {
    let r = run_helper(WriteOp::Disable { item_id: "x".into() });
    assert!(r.is_err());
}

#[test]
fn disabled_suffix_logic() {
    assert!(!DISABLED_SUFFIX.is_empty());
    assert_eq!("Foo.disabled".trim_end_matches(DISABLED_SUFFIX), "Foo");
    assert_eq!(trim_disabled_suffix("Foo.disabled"), "Foo");
}

#[test]
fn task_parent_folder_paths() {
    assert_eq!(task_parent_folder("\\Microsoft\\Windows\\Foo"), "\\Microsoft\\Windows");
    assert_eq!(task_parent_folder("\\Foo"), "\\");
    assert_eq!(task_parent_folder("\\"), "\\");
}

#[test]
fn task_parent_folder_paths_restore() {
    assert_eq!(task_parent_folder("\\Microsoft\\Windows\\Foo"), "\\Microsoft\\Windows");
    assert_eq!(task_parent_folder("\\Foo"), "\\");
}

#[test]
fn decode_reg_sz_utf16() {
    let cmd = r"C:\Users\甲\App.exe --flag";
    let raw = utf16le(cmd);
    let decoded = decode_reg_value_bytes(RegType::REG_SZ, &raw);
    assert_eq!(decoded, cmd);
}

#[test]
fn decode_strips_trailing_null() {
    let mut raw = utf16le("C:\\foo.exe");
    raw.extend_from_slice(&0u16.to_le_bytes());
    raw.extend_from_slice(&0u16.to_le_bytes());
    assert_eq!(decode_reg_value_bytes(RegType::REG_SZ, &raw), "C:\\foo.exe");
}

#[test]
fn decode_expand_sz() {
    let cmd = "%ProgramFiles%\\App\\app.exe";
    let raw = utf16le(cmd);
    assert_eq!(decode_reg_value_bytes(RegType::REG_EXPAND_SZ, &raw), cmd);
}

#[test]
fn decode_non_string_falls_back() {
    let raw = b"plain ascii bytes";
    assert_eq!(decode_reg_value_bytes(RegType::REG_BINARY, raw), "plain ascii bytes");
}

#[test]
fn scheduled_task_compiles() {
    assert!(enumerate_scheduled_tasks().is_empty());
}

#[test]
fn signature_compiles() {
    assert_eq!(verify_file_signature("C:\\x.exe"), Signature::Unknown);
}

#[test]
fn startup_folder_compiles() {
    assert!(enumerate_startup_folders().is_empty());
}

#[test]
fn parse_item_id_roundtrip() {
    let (cat, loc, name) = parse_item_id("registry_run:HKCU\\...\\Run:OneDrive").unwrap();
    assert_eq!(cat, Category::RegistryRun);
    assert_eq!(loc, "HKCU\\...\\Run");
    assert_eq!(name, "OneDrive");
}

#[test]
fn parse_item_id_rejects_bad() {
    assert!(parse_item_id("bogus").is_none());
    assert!(parse_item_id("nope:onlytwo").is_none());
}
