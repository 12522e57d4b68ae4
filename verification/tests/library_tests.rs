use bootkeeper::error::Error;
use bootkeeper::frontend::{
    cancelled_result, confirm_body, confirm_title, facts_for, find_snapshot_entry,
    helper_error_result, join_strings, restore_facts, select_snapshot_entry, signature_target,
    write_op_for_action, CategoryFilter, RestoreParam,
};
use bootkeeper::model::{Category, RawEntry, Risk, Signature, Snapshot, SnapshotEntry, StartupItem};
use bootkeeper::ops::{
    add_result, change_result, parse_hive_and_key, plan_add, plan_disable, plan_enable,
    plan_remove, plan_restore, restore_result, Action, AddAction, Hive, Plan, RestoreAction,
};
use bootkeeper::platform::{
    approval_data_disabled, approval_lookup, extension_of, find_raw_by_id,
    is_entry_approved_disabled, is_startup_file_name, run_key_location, signature_of_trust_result,
    TRUST_E_NOSIGNATURE,
};
use bootkeeper::regvalue::{decode_reg_value_bytes, decode_utf16_lossy, encode_utf16le, RegType};
use bootkeeper::rules::{evaluate, evaluate_with, extract_path, path_exists, path_under_system_dir};
use bootkeeper::snapshot::{
    entry_from_parts, expired_ids, is_expired, is_snapshot_file_name, new_snapshot,
    is_older, retention_cutoff, retention_cutoff_now, snapshot_file_name, sort_newest_first,
    string_lt,
    summarize, SnapshotStore,
};
use bootkeeper::text::{str_contains, trim_str};
use bootkeeper::helper::{after_write, poll_step, PollStep};
use bootkeeper::write::{parse_item_id, WriteOp, WriteResult};

fn snap(id: &str, created_at: &str) -> Snapshot {
    Snapshot {
        id: id.to_string(),
        created_at: created_at.to_string(),
        operation: "disable".to_string(),
        entries: vec![],
    }
}

fn msg(e: Error) -> String {
    e.message()
}

#[test]
fn build_id_then_parse_gives_parts_back() {
    let id = StartupItem::build_id(Category::StartupFolder, "user_startup", "a:b.lnk");
    assert_eq!(id, "startup_folder:user_startup:a:b.lnk");
    let (c, l, n) = parse_item_id(&id).unwrap();
    assert_eq!(c, Category::StartupFolder);
    assert_eq!(l, "user_startup");
    assert_eq!(n, "a:b.lnk");
}

#[test]
fn service_ids_are_refused() {
    let id = StartupItem::build_id(Category::Service, "services", "Spooler");
    assert!(parse_item_id(&id).is_none());
    assert!(parse_item_id("registry_run:only").is_none());
    assert_eq!(
        parse_item_id("scheduled_task:\\Foo:Bar"),
        Some((Category::ScheduledTask, "\\Foo".to_string(), "Bar".to_string()))
    );
}

#[test]
fn enable_undoes_disable() {
    let id = StartupItem::build_id(Category::RegistryRun, "HKCU\\...\\Run", "Foo");
    let (from, to) = match plan_disable(&id).unwrap() {
        Plan::Perform(ch) => match ch.action {
            Action::Rename { from, to, .. } => (from, to),
            other => panic!("unexpected action {:?}", other),
        },
        other => panic!("unexpected plan {:?}", other),
    };
    assert_eq!(from, "Foo");
    assert_eq!(to, "Foo.disabled");
    let disabled_id = StartupItem::build_id(Category::RegistryRun, "HKCU\\...\\Run", &to);
    match plan_enable(&disabled_id).unwrap() {
        Plan::Perform(ch) => match ch.action {
            Action::Rename { from, to, .. } => {
                assert_eq!(from, "Foo.disabled");
                assert_eq!(to, "Foo");
            },
            other => panic!("unexpected action {:?}", other),
        },
        other => panic!("unexpected plan {:?}", other),
    }
}

#[test]
fn disabling_twice_changes_nothing() {
    match plan_disable("startup_folder:user_startup:x.lnk.disabled").unwrap() {
        Plan::Finished(r) => {
            assert!(r.ok);
            assert_eq!(r.message, "already disabled");
            assert!(r.snapshot_entry.is_none());
        },
        other => panic!("unexpected plan {:?}", other),
    }
    match plan_enable("registry_run:HKCU\\Run:Foo").unwrap() {
        Plan::Finished(r) => assert_eq!(r.message, "already enabled"),
        other => panic!("unexpected plan {:?}", other),
    }
}

#[test]
fn tasks_are_switched_not_renamed() {
    match plan_disable("scheduled_task:\\Microsoft\\Foo:Foo").unwrap() {
        Plan::Perform(ch) => {
            match &ch.action {
                Action::SetTaskEnabled { location, name, enabled } => {
                    assert_eq!(location, "\\Microsoft\\Foo");
                    assert_eq!(name, "Foo");
                    assert!(!enabled);
                },
                other => panic!("unexpected action {:?}", other),
            }
            let r = change_result(&ch, "ignored");
            assert_eq!(r.message, "disabled scheduled_task:\\Microsoft\\Foo:Foo");
            let e = r.snapshot_entry.unwrap();
            assert_eq!(e.command, "");
            assert!(!e.was_removed);
        },
        other => panic!("unexpected plan {:?}", other),
    }
}

#[test]
fn bad_ids_are_errors() {
    assert_eq!(msg(plan_disable("bogus").unwrap_err()), "bad item id: bogus");
    assert_eq!(msg(plan_enable("a:b").unwrap_err()), "bad item id: a:b");
    assert_eq!(msg(plan_remove("").unwrap_err()), "bad item id: ");
}

#[test]
fn remove_records_removed_entry() {
    match plan_remove("registry_run:HKCU\\Run:Foo").unwrap() {
        Plan::Perform(ch) => {
            let r = change_result(&ch, "C:\\foo.exe");
            assert!(r.ok);
            assert_eq!(r.message, "removed registry_run:HKCU\\Run:Foo");
            let e = r.snapshot_entry.unwrap();
            assert!(e.was_removed);
            assert_eq!(e.original_name, "Foo");
            assert_eq!(e.current_name, "Foo");
            assert_eq!(e.command, "C:\\foo.exe");
            match plan_restore(&e).unwrap() {
                RestoreAction::SetRegistryValue { location, name, data } => {
                    assert_eq!(location, "HKCU\\Run");
                    assert_eq!(name, "Foo");
                    let utf16: Vec<u8> =
                        "C:\\foo.exe".encode_utf16().flat_map(|u| u.to_le_bytes()).collect();
                    assert_eq!(data, utf16);
                    assert_eq!(decode_reg_value_bytes(RegType::REG_SZ, &data), "C:\\foo.exe");
                },
                other => panic!("unexpected restore {:?}", other),
            }
        },
        other => panic!("unexpected plan {:?}", other),
    }
}

#[test]
fn restore_undoes_rename() {
    let e = entry_from_parts(
        "registry_run:HKCU\\Run:Foo",
        "Foo",
        "Foo.disabled",
        "cmd /c foo.exe",
        "HKCU\\Run",
        Category::RegistryRun,
    );
    match plan_restore(&e).unwrap() {
        RestoreAction::RenameRegistryValueIfPresent { location, from, to } => {
            assert_eq!(location, "HKCU\\Run");
            assert_eq!(from, "Foo.disabled");
            assert_eq!(to, "Foo");
        },
        other => panic!("unexpected restore {:?}", other),
    }
    assert_eq!(restore_result(&e).message, "restored registry_run:HKCU\\Run:Foo");
    let mut f = e.clone();
    f.category = Category::StartupFolder;
    f.was_removed = true;
    match plan_restore(&f).unwrap() {
        RestoreAction::CreateEmptyFile { name, .. } => assert_eq!(name, "Foo"),
        other => panic!("unexpected restore {:?}", other),
    }
    let mut g = e.clone();
    g.category = Category::Service;
    assert_eq!(msg(plan_restore(&g).unwrap_err()), "restoring services is not supported");
}

#[test]
fn add_plans() {
    match plan_add(Category::RegistryRun, "App", "C:\\a.exe", "HKCU\\Run").unwrap() {
        AddAction::SetRegistryValue { data, .. } => {
            assert_eq!(decode_reg_value_bytes(RegType::REG_SZ, &data), "C:\\a.exe");
        },
        other => panic!("unexpected add {:?}", other),
    }
    match plan_add(Category::StartupFolder, "a.lnk", "C:\\a.lnk", "user_startup").unwrap() {
        AddAction::CopyFile { source, .. } => assert_eq!(source, "C:\\a.lnk"),
        other => panic!("unexpected add {:?}", other),
    }
    assert_eq!(
        msg(plan_add(Category::ScheduledTask, "t", "c", "l").unwrap_err()),
        "adding scheduled tasks is not implemented in v1"
    );
    assert_eq!(add_result("App", "HKCU\\Run").message, "added App to HKCU\\Run");
}

#[test]
fn hive_parsing() {
    let (h, k) = parse_hive_and_key("HKCU\\\\Software\\Run").unwrap();
    assert_eq!(h, Hive::CurrentUser);
    assert_eq!(k, "Software\\Run");
    let (h, k) = parse_hive_and_key("HKLM").unwrap();
    assert_eq!(h, Hive::LocalMachine);
    assert_eq!(k, "");
    assert_eq!(msg(parse_hive_and_key("HKCR\\x").unwrap_err()), "bad hive in key path: HKCR\\x");
    let label = run_key_location("HKCU", "RunOnce");
    assert_eq!(label, "HKCU\\...\\RunOnce");
    let (h, k) = parse_hive_and_key(&label).unwrap();
    assert_eq!(h, Hive::CurrentUser);
    assert_eq!(k, "SOFTWARE\\Microsoft\\Windows\\CurrentVersion\\RunOnce");
    let (h, k) = parse_hive_and_key("HKLM\\...\\Run").unwrap();
    assert_eq!(h, Hive::LocalMachine);
    assert_eq!(k, "SOFTWARE\\Microsoft\\Windows\\CurrentVersion\\Run");
}

#[test]
fn registry_value_roundtrip_with_surrogates() {
    let cmd = "C:\\Users\\😀\\app.exe --x";
    let bytes = encode_utf16le(cmd);
    let expected: Vec<u8> = cmd.encode_utf16().flat_map(|u| u.to_le_bytes()).collect();
    assert_eq!(bytes, expected);
    assert_eq!(decode_reg_value_bytes(RegType::REG_SZ, &bytes), cmd);
}

#[test]
fn lossy_decoding_replaces_unpaired_surrogates() {
    let units: Vec<u16> = vec![0x41, 0xD800, 0x42, 0xDC00, 0xD83D, 0xDE00];
    assert_eq!(decode_utf16_lossy(&units), String::from_utf16_lossy(&units));
    assert_eq!(decode_utf16_lossy(&units), "A\u{FFFD}B\u{FFFD}😀");
    let odd: Vec<u8> = vec![0x41, 0x00, 0x42];
    assert_eq!(decode_reg_value_bytes(RegType::REG_SZ, &odd), "A");
    let bad = [0x66u8, 0xff, 0x6f];
    assert_eq!(decode_reg_value_bytes(RegType::REG_DWORD, &bad), "f\u{FFFD}o");
}

#[test]
fn lowercased_publisher_lowers_score() {
    let e = RawEntry::new(Category::RegistryRun, "HKCU\\Run", "T", "\"C:\\evil\\x.exe\"");
    let plain = evaluate_with(&e, Signature::Unsigned, None, true);
    // unsigned, non-Microsoft, outside the system directories: High
    assert_eq!(plain.risk, Risk::High);
    assert_eq!(plain.reasons, vec!["unsigned".to_string()]);
    let ms = evaluate_with(&e, Signature::Unsigned, Some("MICROSOFT Corp"), true);
    assert_eq!(ms.risk, Risk::Low);
}

#[test]
fn rule_reasons_in_order() {
    let e = RawEntry::new(Category::StartupFolder, "user_startup", "T", "  \"C:\\USERS\\a\\é.exe\" x");
    let r = evaluate_with(&e, Signature::Invalid, None, false);
    assert_eq!(
        r.reasons,
        vec![
            "signature invalid".to_string(),
            "non-system path".to_string(),
            "file missing".to_string(),
            "non-ascii path".to_string(),
            "startup folder entry".to_string(),
        ]
    );
    assert_eq!(r.risk, Risk::High);
    let none = evaluate_with(&e, Signature::Valid, None, true);
    assert_eq!(none.risk, Risk::High);
    let blank = RawEntry::new(Category::RegistryRun, "HKCU\\Run", "T", "   ");
    let b = evaluate_with(&blank, Signature::Valid, None, true);
    assert_eq!(b.reasons, vec!["no path".to_string()]);
    assert_eq!(b.risk, Risk::Low);
}

#[test]
fn bad_signature_never_lowers_risk_example() {
    let e = RawEntry::new(Category::RegistryRun, "HKLM\\Run", "T", "C:\\Windows\\System32\\x.exe");
    let good = evaluate_with(&e, Signature::Valid, None, true);
    let bad = evaluate_with(&e, Signature::Unsigned, None, true);
    assert!(good.risk <= bad.risk);
    let missing = evaluate_with(&e, Signature::Valid, None, false);
    assert!(good.risk <= missing.risk);
}

#[test]
fn existing_file_is_not_missing() {
    assert!(path_exists("/"));
    assert!(!path_exists("C:\\definitely\\missing.exe"));
    let e = RawEntry::new(Category::RegistryRun, "HKCU\\Run", "T", "/");
    let r = evaluate(&e, Signature::Valid, None);
    assert!(!r.reasons.contains(&"file missing".to_string()));
}

#[test]
fn whitespace_and_quotes() {
    assert_eq!(trim_str("\t x y \u{3000}"), "x y");
    assert_eq!(extract_path("\t\"C:\\a b\\c.exe\"\targ"), Some("C:\\a b\\c.exe".to_string()));
    assert_eq!(extract_path("\"unterminated path"), Some("\"unterminated".to_string()));
    assert_eq!(extract_path(" \u{a0} "), None);
    assert_eq!(signature_target("\"C:\\a.exe\" --x"), Some("C:\\a.exe\"".to_string()));
    assert_eq!(signature_target("\"C:\\a.exe\""), Some("C:\\a.exe".to_string()));
    assert_eq!(signature_target("\"\""), None);
    assert!(path_under_system_dir("c:\\windows\\notepad.exe"));
    assert!(!path_under_system_dir("D:\\Windows\\x.exe"));
    assert!(str_contains("abc", ""));
}

#[test]
fn startup_file_names() {
    assert!(is_startup_file_name("App.LNK"));
    assert!(is_startup_file_name("BootKeeperCITest.bat.disabled"));
    assert!(!is_startup_file_name("desktop.ini"));
    assert!(!is_startup_file_name(".bat"));
    assert_eq!(extension_of("a.b.c"), Some("c".to_string()));
    assert_eq!(extension_of(".hidden"), None);
}

#[test]
fn approval_lookups() {
    let run = RawEntry::new(Category::RegistryRun, "HKLM\\...\\RunOnce", "Foo", "x");
    let l = approval_lookup(&run).unwrap();
    assert_eq!(l.hive, Hive::LocalMachine);
    assert_eq!(
        l.key_path,
        "SOFTWARE\\Microsoft\\Windows\\CurrentVersion\\Explorer\\StartupApproved\\RunOnce"
    );
    assert_eq!(l.value_name, "Foo");
    let folder = RawEntry::new(Category::StartupFolder, "common_startup", "a.lnk", "C:\\a.lnk");
    let l = approval_lookup(&folder).unwrap();
    assert_eq!(l.hive, Hive::LocalMachine);
    assert_eq!(l.value_name, "C:\\a.lnk");
    let other = RawEntry::new(Category::RegistryRun, "HKU\\Run", "Foo", "x");
    assert!(approval_lookup(&other).is_none());
    assert!(approval_data_disabled(&[2, 0, 0, 0, 9]));
    assert!(approval_data_disabled(&[3, 0, 0, 0]));
    assert!(!approval_data_disabled(&[1, 0, 0, 0]));
    assert!(approval_data_disabled(&[6, 0, 0, 0]));
    assert!(!approval_data_disabled(&[1, 0, 0, 1]));
    assert!(!approval_data_disabled(&[2, 0]));
    assert!(!is_entry_approved_disabled(&run));
}

#[test]
fn raw_lookup_by_id() {
    let entries = vec![
        RawEntry::new(Category::RegistryRun, "HKCU\\Run", "A", "a1"),
        RawEntry::new(Category::RegistryRun, "HKCU\\Run", "B", "b"),
        RawEntry::new(Category::RegistryRun, "HKCU\\Run", "A", "a2"),
    ];
    let found = find_raw_by_id(&entries, "registry_run:HKCU\\Run:A").unwrap();
    assert_eq!(found.command, "a1");
    assert!(find_raw_by_id(&entries, "registry_run:HKLM\\Run:A").is_none());
    assert!(find_raw_by_id(&entries, "bogus").is_none());
}

#[test]
fn snapshot_names_and_order() {
    let name = snapshot_file_name("abc");
    assert_eq!(name, "snapshot-abc.json");
    assert!(is_snapshot_file_name(&name));
    assert!(!is_snapshot_file_name("snapshot-abc.json.tmp"));
    assert!(string_lt("2024-01-01", "2024-01-02"));
    assert!(!string_lt("b", "a"));
    let sorted = sort_newest_first(vec![
        snap("a", "2024-01-01T00:00:00+00:00"),
        snap("b", "2024-03-01T00:00:00+00:00"),
        snap("c", "2024-02-01T00:00:00+00:00"),
        snap("d", "2024-03-01T00:00:00+00:00"),
    ]);
    let ids: Vec<&str> = sorted.iter().map(|s| s.id.as_str()).collect();
    assert_eq!(ids, vec!["b", "d", "c", "a"]);
    let s = summarize(&sorted[0]);
    assert_eq!(s.id, "b");
    assert_eq!(s.entry_count, 0);
}

#[test]
fn retention() {
    let now = (1_700_000_000i64, 5u32);
    let cutoff = retention_cutoff(now);
    assert_eq!(cutoff, (1_700_000_000 - 7 * 86400, 5));
    assert!(is_expired("2000-01-01T00:00:00Z", cutoff));
    assert!(!is_expired("2100-01-01T00:00:00+02:00", cutoff));
    assert!(!is_expired("not a time", cutoff));
    let snaps = vec![
        snap("old", "2000-01-01T00:00:00Z"),
        snap("fresh", "2100-01-01T00:00:00Z"),
        snap("junk", "yesterday"),
        snap("older", "1999-12-31T23:59:59-01:00"),
    ];
    assert_eq!(expired_ids(&snaps, cutoff), vec!["old".to_string(), "older".to_string()]);
}

#[test]
fn store_root() {
    let store = SnapshotStore::new(std::path::PathBuf::from("/tmp/snaps"));
    assert_eq!(store.dir(), &std::path::PathBuf::from("/tmp/snaps"));
}

#[test]
fn frontend_pieces() {
    let f = CategoryFilter { category: Some("startup_folder".to_string()) };
    assert!(f.matches(Category::StartupFolder));
    assert!(!f.matches(Category::Service));
    assert!(CategoryFilter { category: None }.matches(Category::Service));

    let e1 = entry_from_parts("id1", "A", "A.disabled", "c", "l", Category::RegistryRun);
    let e2 = entry_from_parts("id2", "B", "B", "c", "l", Category::StartupFolder);
    let s = Snapshot {
        id: "s".to_string(),
        created_at: "t".to_string(),
        operation: "write_op".to_string(),
        entries: vec![e1, e2],
    };
    assert_eq!(find_snapshot_entry(&s, "id2").unwrap().original_name, "B");
    assert!(find_snapshot_entry(&s, "id3").is_none());
    let p = RestoreParam { snapshot_id: "s".to_string(), item_id: None };
    assert_eq!(p.select_entry(&s).unwrap().item_id, "id1");
    let empty = Snapshot { id: "e".into(), created_at: "t".into(), operation: "x".into(), entries: vec![] };
    assert!(p.select_entry(&empty).is_none());

    let raw = RawEntry::new(Category::RegistryRun, "HKCU\\Run", "Foo", "C:\\x.exe");
    let rule = evaluate_with(&raw, Signature::Unsigned, None, false);
    let facts = facts_for("registry_run:HKCU\\Run:Foo", &raw, Signature::Unsigned, &rule);
    assert_eq!(facts.signature, "none");
    assert_eq!(facts.risk, "high");
    assert_eq!(facts.category, "registry_run");
    let (title, verb) = confirm_title(&bootkeeper::write::WriteOp::Remove { item_id: "x".into() });
    assert_eq!(title, "BootKeeper — Remove startup item");
    let body = confirm_body(verb, &facts);
    assert!(body.starts_with("Remove this startup item?\n\nNAME:      Foo\nCATEGORY:  registry_run\n"));
    assert!(body.contains("RISK:      high (unsigned, file missing)\n\n"));
    assert!(body.ends_with("undone within 7 days."));
    let rf = restore_facts(&s.entries[0]);
    assert_eq!(rf.reasons, vec!["restore from snapshot".to_string()]);
    assert_eq!(rf.name, "A");
    assert_eq!(join_strings(&vec!["a".into(), "b".into()], ", "), "a, b");
    assert_eq!(cancelled_result().message, "cancelled by user");
    assert!(!helper_error_result("boom").ok);
    assert_eq!(helper_error_result("boom").message, "helper error: boom");
}

#[test]
fn error_texts() {
    assert_eq!(Error::Io("x".into()).message(), "io error: x");
    assert_eq!(Error::Json("y".into()).message(), "json error: y");
    assert_eq!(Error::Msg("z".into()).message(), "z");
}

#[allow(dead_code)]
fn _types_in_use(_: SnapshotEntry) {}

#[test]
fn new_snapshot_has_random_v4_id_and_current_time() {
    let entries = vec![entry_from_parts(
        "registry_run:HKCU\\Run:Foo",
        "Foo",
        "Foo.disabled",
        "C:\\foo.exe",
        "HKCU\\Run",
        Category::RegistryRun,
    )];
    let a = new_snapshot("disable", entries).unwrap();
    let b = new_snapshot("enable", vec![]).unwrap();
    assert_eq!(a.id.len(), 36);
    assert_eq!(a.id.as_bytes()[8], b'-');
    assert_eq!(a.id.as_bytes()[14], b'4');
    assert_ne!(a.id, b.id);
    assert_eq!(a.operation, "disable");
    assert_eq!(a.entries.len(), 1);
    assert_eq!(a.entries[0].current_name, "Foo.disabled");
    assert!(a.created_at.ends_with("+00:00"));
    assert!(a.created_at.starts_with("20"));
    let cutoff = retention_cutoff_now().unwrap();
    assert!(!is_expired(&a.created_at, cutoff));
    assert!(is_expired(&a.created_at, (cutoff.0 + 30 * 86400, 0)));
}

fn snap_with_entries() -> Snapshot {
    let mut s = snap("s1", "2024-01-01T00:00:00Z");
    s.entries = vec![
        entry_from_parts("registry_run:HKCU\\Run:A", "A", "A.disabled", "a.exe", "HKCU\\Run", Category::RegistryRun),
        entry_from_parts("registry_run:HKCU\\Run:B", "B", "B.disabled", "b.exe", "HKCU\\Run", Category::RegistryRun),
    ];
    s
}

#[test]
fn restore_param_pick_messages() {
    let s = snap_with_entries();
    let named = RestoreParam { snapshot_id: "s1".into(), item_id: Some("registry_run:HKCU\\Run:B".into()) };
    assert_eq!(named.pick(&s).unwrap().original_name, "B");
    let missing = RestoreParam { snapshot_id: "s1".into(), item_id: Some("x".into()) };
    assert_eq!(missing.pick(&s).unwrap_err(), "item x not in snapshot");
    let first = RestoreParam { snapshot_id: "s1".into(), item_id: None };
    assert_eq!(first.pick(&s).unwrap().original_name, "A");
    let empty = snap("s2", "2024-01-01T00:00:00Z");
    assert_eq!(first.pick(&empty).unwrap_err(), "snapshot is empty");
    let blank = RestoreParam { snapshot_id: "s1".into(), item_id: Some(String::new()) };
    assert_eq!(blank.pick(&s).unwrap().original_name, "A");
    assert_eq!(blank.pick(&empty).unwrap_err(), "snapshot is empty");
}

#[test]
fn select_snapshot_entry_by_id_or_first() {
    let s = snap_with_entries();
    assert_eq!(select_snapshot_entry(&s, "s1", "").unwrap().original_name, "A");
    assert_eq!(
        select_snapshot_entry(&s, "s1", "registry_run:HKCU\\Run:B").unwrap().original_name,
        "B"
    );
    assert_eq!(select_snapshot_entry(&s, "s1", "y").unwrap_err(), "item y not in snapshot s1");
    let empty = snap("s2", "2024-01-01T00:00:00Z");
    assert_eq!(select_snapshot_entry(&empty, "s2", "").unwrap_err(), "snapshot s2 is empty");
}

#[test]
fn write_actions_map_to_operations() {
    match write_op_for_action("disable", "id1").unwrap() {
        WriteOp::Disable { item_id } => assert_eq!(item_id, "id1"),
        _ => panic!("expected disable"),
    }
    match write_op_for_action("enable", "id2").unwrap() {
        WriteOp::Enable { item_id } => assert_eq!(item_id, "id2"),
        _ => panic!("expected enable"),
    }
    match write_op_for_action("remove", "id3").unwrap() {
        WriteOp::Remove { item_id } => assert_eq!(item_id, "id3"),
        _ => panic!("expected remove"),
    }
    assert_eq!(write_op_for_action("add", "id4").unwrap_err(), "unknown write action: add");
}

#[test]
fn trust_results_map_to_signature_status() {
    assert_eq!(signature_of_trust_result(0), Signature::Valid);
    assert_eq!(signature_of_trust_result(0x800B0100u32 as i32), Signature::Unsigned);
    assert_eq!(TRUST_E_NOSIGNATURE, 0x800B0100u32 as i32);
    assert_eq!(signature_of_trust_result(0x80096010u32 as i32), Signature::Invalid);
    assert_eq!(signature_of_trust_result(1), Signature::Invalid);
}

#[test]
fn restore_after_disable_puts_items_back() {
    match plan_disable("startup_folder:user_startup:App.lnk").unwrap() {
        Plan::Perform(ch) => {
            let e = change_result(&ch, "C:\\Users\\u\\Startup\\App.lnk").snapshot_entry.unwrap();
            match plan_restore(&e).unwrap() {
                RestoreAction::RenameFileIfPresent { location, from, to } => {
                    assert_eq!(location, "user_startup");
                    assert_eq!(from, "App.lnk.disabled");
                    assert_eq!(to, "App.lnk");
                },
                other => panic!("unexpected restore {:?}", other),
            }
        },
        other => panic!("unexpected plan {:?}", other),
    }
    match plan_disable("scheduled_task:\\Vendor:Updater").unwrap() {
        Plan::Perform(ch) => {
            let e = change_result(&ch, "").snapshot_entry.unwrap();
            match plan_restore(&e).unwrap() {
                RestoreAction::EnableTask { location, name } => {
                    assert_eq!(location, "\\Vendor");
                    assert_eq!(name, "Updater");
                },
                other => panic!("unexpected restore {:?}", other),
            }
        },
        other => panic!("unexpected plan {:?}", other),
    }
}

#[test]
fn snapshots_sort_by_instant_across_offsets() {
    // 01:00 at +02:00 is 23:00 the day before in UTC: older than 00:00 UTC.
    assert!(is_older("2024-03-01T01:00:00+02:00", "2024-03-01T00:00:00+00:00"));
    assert!(!is_older("2024-03-01T00:00:00+00:00", "2024-03-01T01:00:00+02:00"));
    assert!(is_older("garbage", "2024-03-01T00:00:00Z"));
    assert!(!is_older("2024-03-01T00:00:00Z", "2024-03-01T02:00:00+02:00"));
    let sorted = sort_newest_first(vec![
        snap("shifted", "2024-03-01T01:00:00+02:00"),
        snap("junk", "not a time"),
        snap("utc", "2024-03-01T00:00:00+00:00"),
        snap("same", "2024-03-01T02:00:00+02:00"),
    ]);
    let ids: Vec<&str> = sorted.iter().map(|s| s.id.as_str()).collect();
    assert_eq!(ids, vec!["utc", "same", "shifted", "junk"]);
}

#[test]
fn writes_are_stored_then_pruned() {
    let entry = entry_from_parts("registry_run:HKCU\\...\\Run:A", "A", "A.disabled", "a.exe", "HKCU\\...\\Run", Category::RegistryRun);
    let done = after_write(WriteResult {
        ok: true,
        message: "disabled registry_run:HKCU\\...\\Run:A".into(),
        snapshot_entry: Some(entry),
    });
    assert_eq!(done.store.unwrap().current_name, "A.disabled");
    assert!(done.prune);
    assert!(done.reply.ok);
    assert!(done.reply.snapshot_entry.is_none());
    let failed = after_write(WriteResult { ok: false, message: "x".into(), snapshot_entry: None });
    assert!(failed.store.is_none());
    assert!(!failed.prune);
}

#[test]
fn string_values_read_back_with_any_number_of_terminators() {
    let s = "C:\\Users\\甲\\App.exe --flag";
    for t in [RegType::REG_SZ, RegType::REG_EXPAND_SZ] {
        for k in 0..3 {
            let mut bytes = encode_utf16le(s);
            bytes.extend(std::iter::repeat(0u8).take(2 * k));
            assert_eq!(decode_reg_value_bytes(t, &bytes), s);
        }
    }
}

#[test]
fn launcher_waits_two_minutes_for_the_helper() {
    assert!(matches!(poll_step(true, 999_999), PollStep::Collect));
    assert!(matches!(poll_step(false, 0), PollStep::Wait(300)));
    assert!(matches!(poll_step(false, 120_000), PollStep::Wait(300)));
    match poll_step(false, 120_001) {
        PollStep::GiveUp(m) => {
            assert_eq!(m, "timed out waiting for helper (user may not have confirmed)")
        }
        other => panic!("unexpected step {:?}", other),
    }
}

#[test]
fn unsigned_outside_system_dirs_is_high() {
    let e = RawEntry::new(Category::RegistryRun, "HKCU\\...\\Run", "Tools", "C:\\Tools\\x.exe --run");
    assert_eq!(evaluate_with(&e, Signature::Unsigned, None, true).risk, Risk::High);
    assert_eq!(evaluate_with(&e, Signature::Invalid, Some("Acme"), true).risk, Risk::High);
    assert_eq!(evaluate_with(&e, Signature::Unsigned, Some("Microsoft Corporation"), true).risk, Risk::Low);
    assert_eq!(evaluate_with(&e, Signature::Valid, None, true).risk, Risk::Low);
    let sys = RawEntry::new(Category::RegistryRun, "HKCU\\...\\Run", "Sys", "C:\\Windows\\System32\\x.exe");
    assert_eq!(evaluate_with(&sys, Signature::Unsigned, None, true).risk, Risk::Low);
    let bare = RawEntry::new(Category::RegistryRun, "HKCU\\...\\Run", "Bare", "x");
    assert_eq!(evaluate_with(&bare, Signature::Valid, None, true).risk, Risk::Low);
}
