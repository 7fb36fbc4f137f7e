use ccswitch::engine::{
    add_mode, choose_label, core_add, core_add_token, core_remove, core_switch, current_email,
    current_uuid, email_from_token, list, resolve_current_account, resolve_target, status,
    switch_next, switch_to, token_default_label, token_label_at, add_notice, add, add_token, do_switch, remove, AddOutcome, EngineError, Rotation,
    StatusView, Step, SwitchOutcome,
};
use ccswitch::ledger::{AccountEntry, AuthKind, SequenceFile};

fn config_for(email: &str, uuid: &str) -> String {
    format!(
        "{{\"oauthAccount\":{{\"emailAddress\":\"{}\",\"accountUuid\":\"{}\"}},\"theme\":\"dark\"}}",
        email, uuid
    )
}

fn entry(email: &str, kind: AuthKind) -> AccountEntry {
    AccountEntry {
        email: email.to_string(),
        uuid: String::new(),
        added: "2024-01-01T00:00:00Z".to_string(),
        auth_kind: kind,
    }
}

fn ledger_with(slots: &[(u32, &str, AuthKind)], active: Option<u32>) -> SequenceFile {
    let mut l = SequenceFile::new();
    for (n, e, k) in slots {
        l.register(*n, entry(e, *k), "t0".to_string());
    }
    l.active_account_number = active;
    l
}

#[test]
fn add_registers_first_slot() {
    let mut l = SequenceFile::new();
    let cfg = Some(config_for("alice@x.com", "u-1"));
    let r = core_add(&mut l, &cfg, Some("creds-a".to_string()), "t1".to_string()).unwrap();
    match r {
        AddOutcome::Added { num, steps } => {
            assert_eq!(num, 1);
            assert_eq!(steps.len(), 2);
            assert!(matches!(&steps[0], Step::SaveCredentialBackup { slot: 1, label, blob }
                if label == "alice@x.com" && blob == "creds-a"));
            match &steps[1] {
                Step::SaveConfigBackup { slot, label, document } => {
                    assert_eq!(*slot, 1);
                    assert_eq!(label, "alice@x.com");
                    assert!(document.contains('\n'));
                    let v: serde_json::Value = serde_json::from_str(document).unwrap();
                    assert_eq!(v["theme"], "dark");
                }
                other => panic!("unexpected step {:?}", other),
            }
        }
        other => panic!("unexpected outcome {:?}", other),
    }
    assert_eq!(l.sequence, vec![1]);
    assert_eq!(l.active_account_number, Some(1));
    assert_eq!(l.last_updated, "t1");
    let e = l.entry(1).unwrap();
    assert_eq!(e.email, "alice@x.com");
    assert_eq!(e.uuid, "u-1");
    assert_eq!(e.auth_kind, AuthKind::Oauth);
}

#[test]
fn add_again_is_already_managed() {
    let mut l = SequenceFile::new();
    let cfg = Some(config_for("alice@x.com", "u-1"));
    core_add(&mut l, &cfg, Some("creds-a".to_string()), "t1".to_string()).unwrap();
    let r = core_add(&mut l, &cfg, Some("other".to_string()), "t2".to_string()).unwrap();
    assert!(matches!(r, AddOutcome::AlreadyManaged { num: 1 }));
    assert_eq!(add_notice("alice@x.com", &r), "Account alice@x.com is already managed.");
    assert_eq!(l.sequence, vec![1]);
    assert_eq!(l.active_account_number, Some(1));
    assert_eq!(l.last_updated, "t1");
}

#[test]
fn add_notice_names_new_slot() {
    let o = AddOutcome::Added { num: 12, steps: Vec::new() };
    assert_eq!(add_notice("bob@x.com", &o), "Added bob@x.com as Account 12");
}

#[test]
fn add_second_account_gets_next_id() {
    let mut l = ledger_with(&[(1, "a@x.com", AuthKind::Oauth), (5, "c@x.com", AuthKind::Oauth)], Some(1));
    let cfg = Some(config_for("b@x.com", "u-2"));
    let r = core_add(&mut l, &cfg, Some("cb".to_string()), "t".to_string()).unwrap();
    assert!(matches!(r, AddOutcome::Added { num: 6, .. }));
    assert_eq!(l.sequence, vec![1, 5, 6]);
    assert_eq!(l.active_account_number, Some(6));
}

#[test]
fn add_without_live_account_fails() {
    let mut l = SequenceFile::new();
    let r = core_add(&mut l, &Some("{\"theme\":\"dark\"}".to_string()), Some("c".to_string()), "t".to_string());
    assert_eq!(r.unwrap_err(), EngineError::NoLiveAccount);
    let r = core_add(&mut l, &None, Some("c".to_string()), "t".to_string());
    assert_eq!(r.unwrap_err(), EngineError::NoLiveAccount);
    assert!(l.sequence.is_empty());
}

#[test]
fn add_without_live_credentials_fails() {
    let mut l = SequenceFile::new();
    let r = core_add(&mut l, &Some(config_for("a@x.com", "u")), None, "t".to_string());
    assert_eq!(r.unwrap_err(), EngineError::LiveCredentialsUnreadable);
    assert!(l.sequence.is_empty());
}

#[test]
fn add_with_all_ids_taken_fails() {
    let mut l = ledger_with(&[(u32::MAX, "z@x.com", AuthKind::Oauth)], None);
    let r = core_add(&mut l, &Some(config_for("a@x.com", "u")), Some("c".to_string()), "t".to_string());
    assert_eq!(r.unwrap_err(), EngineError::NoFreeId);
    assert_eq!(l.next_account_number(), None);
}

#[test]
fn switch_snapshots_outgoing_oauth_slot() {
    let mut l = ledger_with(&[(1, "a@x.com", AuthKind::Oauth), (2, "b@x.com", AuthKind::Oauth)], Some(1));
    let live = Some(config_for("a@x.com", "ua"));
    let backup_b = Some(config_for("b@x.com", "ub"));
    let r = core_switch(
        &mut l,
        2,
        &live,
        Some("live-creds-a".to_string()),
        Some("creds-b".to_string()),
        &backup_b,
        "t2".to_string(),
    )
    .unwrap();
    match r {
        SwitchOutcome::Switched { from, to, steps } => {
            assert_eq!((from, to), (1, 2));
            assert_eq!(steps.len(), 4);
            assert!(matches!(&steps[0], Step::SaveCredentialBackup { slot: 1, label, blob }
                if label == "a@x.com" && blob == "live-creds-a"));
            assert!(matches!(&steps[1], Step::SaveConfigBackup { slot: 1, label, .. } if label == "a@x.com"));
            assert!(matches!(&steps[2], Step::WriteLiveCredentials { blob } if blob == "creds-b"));
            match &steps[3] {
                Step::WriteLiveConfig { document } => {
                    let v: serde_json::Value = serde_json::from_str(document).unwrap();
                    assert_eq!(v["oauthAccount"]["emailAddress"], "b@x.com");
                    assert_eq!(v["theme"], "dark");
                }
                other => panic!("unexpected step {:?}", other),
            }
        }
        other => panic!("unexpected outcome {:?}", other),
    }
    assert_eq!(l.active_account_number, Some(2));
    assert_eq!(l.last_updated, "t2");
    assert_eq!(l.sequence, vec![1, 2]);
}

#[test]
fn switch_to_active_is_noop() {
    let mut l = ledger_with(&[(1, "a@x.com", AuthKind::Oauth), (2, "b@x.com", AuthKind::Oauth)], Some(1));
    let r = core_switch(&mut l, 1, &None, None, None, &None, "t".to_string()).unwrap();
    assert!(matches!(r, SwitchOutcome::AlreadyActive { num: 1 }));
    assert_eq!(l.last_updated, "t0");
}

#[test]
fn switch_from_token_slot_skips_snapshot_and_writes_token() {
    let mut l = ledger_with(&[(1, "tok-a", AuthKind::Token), (2, "tok-b", AuthKind::Token)], Some(1));
    let r = core_switch(
        &mut l,
        2,
        &None,
        None,
        Some("{\"token\":\"sk-b\"}".to_string()),
        &None,
        "t".to_string(),
    )
    .unwrap();
    match r {
        SwitchOutcome::Switched { steps, .. } => {
            assert_eq!(steps.len(), 1);
            assert!(matches!(&steps[0], Step::WriteActiveToken { token } if token == "sk-b"));
        }
        other => panic!("unexpected outcome {:?}", other),
    }
    assert_eq!(l.active_account_number, Some(2));
}

#[test]
fn switch_source_from_live_identity() {
    let mut l = ledger_with(&[(1, "a@x.com", AuthKind::Oauth), (2, "b@x.com", AuthKind::Token)], None);
    let live = Some(config_for("a@x.com", "ua"));
    assert_eq!(resolve_current_account(&l, &live), Ok(1));
    let r = core_switch(&mut l, 2, &live, Some("ca".to_string()), Some("{\"token\":\"t\"}".to_string()), &None, "t".to_string()).unwrap();
    assert!(matches!(r, SwitchOutcome::Switched { from: 1, to: 2, .. }));
}

#[test]
fn switch_errors() {
    let base = || ledger_with(&[(1, "a@x.com", AuthKind::Oauth), (2, "b@x.com", AuthKind::Oauth), (3, "c", AuthKind::Token)], Some(1));
    let live = Some(config_for("a@x.com", "ua"));
    let creds = || Some("ca".to_string());
    let mut l = base();
    assert_eq!(core_switch(&mut l, 9, &live, creds(), None, &None, "t".to_string()).unwrap_err(), EngineError::NoSuchAccount { num: 9 });
    assert_eq!(core_switch(&mut l, 2, &live, None, Some("cb".to_string()), &None, "t".to_string()).unwrap_err(), EngineError::LiveCredentialsUnreadable);
    assert_eq!(core_switch(&mut l, 2, &live, creds(), None, &None, "t".to_string()).unwrap_err(), EngineError::MissingCredentialBackup { num: 2 });
    assert_eq!(core_switch(&mut l, 2, &live, creds(), Some("cb".to_string()), &None, "t".to_string()).unwrap_err(), EngineError::MissingConfigBackup { num: 2 });
    assert_eq!(core_switch(&mut l, 2, &live, creds(), Some("cb".to_string()), &Some("{oops".to_string()), "t".to_string()).unwrap_err(), EngineError::InvalidConfigBackup { num: 2 });
    assert_eq!(core_switch(&mut l, 2, &live, creds(), Some("cb".to_string()), &Some("{\"theme\":1}".to_string()), "t".to_string()).unwrap_err(), EngineError::MissingIdentity { num: 2 });
    assert_eq!(core_switch(&mut l, 3, &live, creds(), Some("not json".to_string()), &None, "t".to_string()).unwrap_err(), EngineError::InvalidCredentialBackup { num: 3 });
    let array_live = Some("[1,2]".to_string());
    assert_eq!(core_switch(&mut l, 2, &None, creds(), Some("cb".to_string()), &Some(config_for("b@x.com", "ub")), "t".to_string()).unwrap_err(), EngineError::LiveConfigUnreadable);
    let mut l2 = ledger_with(&[(1, "a@x.com", AuthKind::Token), (2, "b@x.com", AuthKind::Oauth)], Some(1));
    assert_eq!(core_switch(&mut l2, 2, &array_live, None, Some("cb".to_string()), &Some(config_for("b@x.com", "ub")), "t".to_string()).unwrap_err(), EngineError::LiveConfigNotMergeable);
    let mut l3 = ledger_with(&[(1, "a@x.com", AuthKind::Oauth), (2, "b@x.com", AuthKind::Oauth)], None);
    assert_eq!(core_switch(&mut l3, 2, &None, None, None, &None, "t".to_string()).unwrap_err(), EngineError::NoLiveAccount);
    assert_eq!(core_switch(&mut l3, 2, &Some(config_for("z@x.com", "u")), None, None, &None, "t".to_string()).unwrap_err(), EngineError::NotManaged);
    assert_eq!(l.active_account_number, Some(1));
    assert_eq!(l.last_updated, "t0");
}

#[test]
fn rotation_wraps_to_first() {
    let l = ledger_with(&[(1, "a", AuthKind::Oauth), (2, "b", AuthKind::Oauth), (3, "c", AuthKind::Oauth)], Some(3));
    assert_eq!(switch_next(&l, &None), Ok(Rotation::Next { num: 1 }));
    let l = ledger_with(&[(1, "a", AuthKind::Oauth), (2, "b", AuthKind::Oauth), (3, "c", AuthKind::Oauth)], Some(1));
    assert_eq!(switch_next(&l, &None), Ok(Rotation::Next { num: 2 }));
}

#[test]
fn rotation_needs_two_accounts() {
    assert_eq!(switch_next(&SequenceFile::new(), &None), Err(EngineError::NoAccounts));
    let l = ledger_with(&[(1, "a", AuthKind::Oauth)], Some(1));
    assert_eq!(switch_next(&l, &None), Err(EngineError::SingleAccount));
}

#[test]
fn rotation_without_active_uses_live_identity() {
    let l = ledger_with(&[(1, "a@x.com", AuthKind::Oauth), (2, "b@x.com", AuthKind::Oauth)], None);
    assert_eq!(switch_next(&l, &Some(config_for("b@x.com", "u"))), Ok(Rotation::Next { num: 1 }));
    assert_eq!(switch_next(&l, &Some(config_for("new@x.com", "u"))), Ok(Rotation::AddLive));
    assert_eq!(switch_next(&l, &None), Err(EngineError::NoLiveAccount));
}

#[test]
fn remove_only_slot_empties_ledger() {
    let mut l = SequenceFile::new();
    let cfg = Some(config_for("alice@x.com", "u-1"));
    core_add(&mut l, &cfg, Some("c".to_string()), "t1".to_string()).unwrap();
    let steps = core_remove(&mut l, 1, "t2".to_string()).unwrap();
    assert_eq!(steps.len(), 2);
    assert!(matches!(&steps[0], Step::DeleteCredentialBackup { slot: 1, label } if label == "alice@x.com"));
    assert!(matches!(&steps[1], Step::DeleteConfigBackup { slot: 1, label } if label == "alice@x.com"));
    assert!(l.sequence.is_empty());
    assert!(l.accounts.is_empty());
    assert_eq!(l.active_account_number, None);
}

#[test]
fn remove_active_leaves_live_untouched() {
    let mut l = ledger_with(&[(1, "a@x.com", AuthKind::Oauth), (2, "b@x.com", AuthKind::Oauth)], Some(1));
    let steps = core_remove(&mut l, 1, "t".to_string()).unwrap();
    assert!(steps.iter().all(|s| matches!(s, Step::DeleteCredentialBackup { .. } | Step::DeleteConfigBackup { .. })));
    assert_eq!(l.sequence, vec![2]);
    assert_eq!(l.active_account_number, None);
    let live = Some(config_for("a@x.com", "ua"));
    assert_eq!(status(&l, &live, false), StatusView::UnmanagedLive);
    assert_eq!(current_email(&live).as_deref(), Some("a@x.com"));
}

#[test]
fn remove_missing_slot_fails() {
    let mut l = ledger_with(&[(1, "a", AuthKind::Oauth)], Some(1));
    assert_eq!(core_remove(&mut l, 4, "t".to_string()).unwrap_err(), EngineError::NoSuchAccount { num: 4 });
    assert_eq!(l.sequence, vec![1]);
}

#[test]
fn target_resolution() {
    let l = ledger_with(&[(1, "a@x.com", AuthKind::Oauth), (2, "b@x.com", AuthKind::Oauth)], Some(1));
    assert_eq!(resolve_target(&l, "2"), Ok(2));
    assert_eq!(resolve_target(&l, "b@x.com"), Ok(2));
    assert_eq!(resolve_target(&l, "7"), Err(EngineError::NoMatch));
    assert_eq!(switch_to(&l, "a@x.com"), Ok(1));
    assert_eq!(switch_to(&SequenceFile::new(), "1"), Err(EngineError::NoAccounts));
}

#[test]
fn status_and_list() {
    let l = ledger_with(&[(1, "a@x.com", AuthKind::Oauth), (2, "tok", AuthKind::Token)], Some(2));
    assert_eq!(status(&l, &None, false), StatusView::Managed { num: 2 });
    let rows = list(&l, &None);
    assert_eq!(rows.len(), 2);
    assert_eq!((rows[0].num, rows[0].is_active, rows[0].is_token), (1, false, false));
    assert_eq!((rows[1].num, rows[1].is_active, rows[1].is_token), (2, true, true));
    assert_eq!(rows[1].email, "tok");
    let empty = SequenceFile::new();
    assert_eq!(status(&empty, &None, true), StatusView::UnmanagedToken);
    assert_eq!(status(&empty, &None, false), StatusView::LoggedOut);
}

#[test]
fn add_mode_routing() {
    let cfg = Some(config_for("a@x.com", "u"));
    assert_eq!(add_mode(&cfg, false), AuthKind::Oauth);
    assert_eq!(add_mode(&cfg, true), AuthKind::Token);
    assert_eq!(add_mode(&None, false), AuthKind::Token);
    assert_eq!(current_uuid(&cfg).as_deref(), Some("u"));
}

#[test]
fn token_add_flow_registers_token_slot() {
    let mut l = SequenceFile::new();
    let r = core_add_token(&mut l, "sk-ant-\"x".to_string(), "work".to_string(), &None, "t".to_string()).unwrap();
    let AddOutcome::Added { num, steps } = r else {
        panic!("unexpected outcome {:?}", r);
    };
    assert_eq!(num, 1);
    assert_eq!(steps.len(), 3);
    match &steps[0] {
        Step::SaveCredentialBackup { blob, label, .. } => {
            assert_eq!(label, "work");
            assert_eq!(blob, "{\"token\":\"sk-ant-\\\"x\"}");
            let v: serde_json::Value = serde_json::from_str(blob).unwrap();
            assert_eq!(v["token"], "sk-ant-\"x");
        }
        other => panic!("unexpected step {:?}", other),
    }
    assert!(matches!(&steps[1], Step::SaveConfigBackup { document, .. } if document == "{}"));
    assert!(matches!(&steps[2], Step::WriteActiveToken { token } if token == "sk-ant-\"x"));
    assert_eq!(l.entry(1).unwrap().auth_kind, AuthKind::Token);
    assert_eq!(l.active_account_number, Some(1));
    let again = core_add_token(&mut l, "sk2".to_string(), "work".to_string(), &None, "t2".to_string());
    assert!(matches!(again, Ok(AddOutcome::AlreadyManaged { num: 1 })));
    assert_eq!(l.last_updated, "t");
    let empty = core_add_token(&mut l, String::new(), "x".to_string(), &None, "t".to_string());
    assert_eq!(empty.unwrap_err(), EngineError::EmptyToken);
}

#[test]
fn token_labels() {
    assert_eq!(token_label_at(0xAB), "token-000000AB");
    assert_eq!(token_label_at(0x65F1A2C3), "token-65F1A2C3");
    let now = token_default_label();
    assert_eq!(now.len(), 14);
    assert!(now.starts_with("token-"));
    assert!(now[6..].chars().all(|c| c.is_ascii_digit() || ('A'..='F').contains(&c)));
    assert_eq!(choose_label(String::new(), "d".to_string()), "d");
    assert_eq!(choose_label("mine".to_string(), "d".to_string()), "mine");
    assert_eq!(email_from_token("sk-ant-oat01-abc"), None);
}

#[test]
fn operations_stamp_the_current_time() {
    let mut l = SequenceFile::new();
    let cfg = Some(config_for("a@x.com", "u"));
    assert!(matches!(add(&mut l, &cfg, Some("c".to_string())).unwrap(), AddOutcome::Added { num: 1, .. }));
    assert_eq!(l.last_updated.len(), 20);
    assert!(l.last_updated.ends_with('Z'));
    assert_eq!(l.entry(1).unwrap().added, l.last_updated);
    let r = add_token(&mut l, "sk".to_string(), "tok".to_string(), &cfg).unwrap();
    assert!(matches!(r, AddOutcome::Added { num: 2, .. }));
    let r = do_switch(&mut l, 1, &cfg, None, Some("c".to_string()), &Some(config_for("a@x.com", "u"))).unwrap();
    assert!(matches!(r, SwitchOutcome::Switched { from: 2, to: 1, .. }));
    let steps = remove(&mut l, 2).unwrap();
    assert_eq!(steps.len(), 2);
    assert_eq!(l.sequence, vec![1]);
}
