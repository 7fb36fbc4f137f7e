use ccswitch::json::{is_json, member, pretty, quoted, string_member, with_member};
use ccswitch::layout::{temp_path, Layout};
use ccswitch::platform::{detect, Platform};
use ccswitch::store::{config_path, rc_content, strip_line_end, write_atomic, FileOp, Location, StoreError, Stores};
use ccswitch::engine::Step;
use ccswitch::text::{decimal, hex_padded, parse_u32};

#[test]
fn decimal_and_hex() {
    assert_eq!(decimal(0), "0");
    assert_eq!(decimal(4294967295), "4294967295");
    assert_eq!(hex_padded(255, 8), "000000FF");
    assert_eq!(hex_padded(0xDEADBEEF, 8), "DEADBEEF");
}

#[test]
fn parse_ids() {
    assert_eq!(parse_u32("42"), Some(42));
    assert_eq!(parse_u32("+42"), Some(42));
    assert_eq!(parse_u32("4294967295"), Some(u32::MAX));
    assert_eq!(parse_u32("4294967296"), None);
    assert_eq!(parse_u32(""), None);
    assert_eq!(parse_u32("+"), None);
    assert_eq!(parse_u32("12a"), None);
    assert_eq!(parse_u32("-1"), None);
}

#[test]
fn atomic_write_refuses_invalid_json() {
    assert_eq!(write_atomic("/h/f.json".to_string(), "{not json".to_string(), 7).unwrap_err(), StoreError::InvalidJson);
    match write_atomic("/h/f.json".to_string(), "{\"a\":1}".to_string(), 7).unwrap() {
        FileOp::Replace { path, temp, content } => {
            assert_eq!(path, "/h/f.json");
            assert_eq!(temp, "/h/f.json.tmp.7");
            assert_eq!(content, "{\"a\":1}");
        }
        other => panic!("unexpected op {:?}", other),
    }
    assert_eq!(temp_path("x", 12), "x.tmp.12");
}

#[test]
fn json_wrappers() {
    assert!(is_json("{\"a\":[1,2]}"));
    assert!(!is_json("{"));
    let p = pretty("{\"a\":1}").unwrap();
    assert_ne!(p, "{\"a\":1}");
    assert!(p.contains("\n"));
    assert_eq!(member("{\"a\":{\"b\":2}}", "a").as_deref(), Some("{\"b\":2}"));
    assert_eq!(member("{\"a\":1}", "z"), None);
    assert_eq!(string_member("{\"a\":\"x\"}", "a").as_deref(), Some("x"));
    assert_eq!(string_member("{\"a\":3}", "a"), None);
    let merged = with_member("{\"a\":1,\"k\":2}", "k", "{\"n\":true}").unwrap();
    let v: serde_json::Value = serde_json::from_str(&merged).unwrap();
    assert_eq!(v["a"], 1);
    assert_eq!(v["k"]["n"], true);
    assert_eq!(with_member("[1]", "k", "1"), None);
    assert_eq!(quoted("a\"b"), "\"a\\\"b\"");
}

fn layout(home: &str) -> Layout {
    Layout { home: home.to_string(), host: "acme".to_string(), host_title: "Acme Tool".to_string() }
}

#[test]
fn layout_paths() {
    let l = layout("/home/u");
    assert_eq!(l.sequence_path(), "/home/u/.acme-switch-backup/sequence.json");
    assert_eq!(l.active_token_file_path(), "/home/u/.acme-switch-backup/active-token");
    assert_eq!(l.config_backup_path(3, "a@x.com"), "/home/u/.acme-switch-backup/configs/.acme-config-3-a@x.com.json");
    assert_eq!(l.cred_backup_path(3, "a@x.com"), "/home/u/.acme-switch-backup/credentials/.acme-credentials-3-a@x.com.json");
    assert_eq!(l.ccswitchrc_path(), "/home/u/.ccswitchrc");
    assert_eq!(l.creds_file_path(), "/home/u/.acme/.credentials.json");
    assert_eq!(l.account_service(2, "b"), "Acme Tool-Account-2-b");
    assert_eq!(l.live_service(), "Acme Tool-credentials");
    assert_eq!(l.primary_config_path(), "/home/u/.acme/.acme.json");
    assert_eq!(l.fallback_config_path(), "/home/u/.acme.json");
}

#[test]
fn config_path_prefers_primary_with_identity() {
    let l = layout("/h");
    assert_eq!(config_path(&l, &Some("{\"oauthAccount\":{}}".to_string())), "/h/.acme/.acme.json");
    assert_eq!(config_path(&l, &Some("{\"x\":1}".to_string())), "/h/.acme.json");
    assert_eq!(config_path(&l, &None), "/h/.acme.json");
}

#[test]
fn platform_detection() {
    assert_eq!(detect("macos", true), Platform::MacOS);
    assert_eq!(detect("linux", true), Platform::Wsl);
    assert_eq!(detect("linux", false), Platform::Linux);
    assert_eq!(detect("freebsd", false), Platform::Linux);
    assert_eq!(Platform::Wsl.name(), "WSL");
    assert!(Platform::MacOS.uses_keychain());
    let l = layout("/h");
    assert_eq!(
        rc_content(Platform::Linux, &l),
        "# Managed by ccswitch — do not edit manually\nexport CLAUDE_CODE_OAUTH_TOKEN=$(cat ~/.acme-switch-backup/active-token 2>/dev/null)\n"
    );
    assert!(rc_content(Platform::MacOS, &l).contains("security find-generic-password -s \"ccswitch-active-token\" -w"));
}

#[test]
fn keychain_output_loses_one_newline() {
    assert_eq!(strip_line_end("secret\n".to_string()), "secret");
    assert_eq!(strip_line_end("secret\n\n".to_string()), "secret\n");
    assert_eq!(strip_line_end("secret".to_string()), "secret");
}

#[test]
fn steps_land_per_platform() {
    let linux = Stores { platform: Platform::Linux, layout: layout("/h"), config_path: "/h/.acme.json".to_string() };
    let mac = Stores { platform: Platform::MacOS, ..linux.clone() };
    let step = || Step::SaveCredentialBackup { slot: 1, label: "a".to_string(), blob: "s".to_string() };
    match linux.op_for(step(), 1).unwrap() {
        FileOp::Put { at: Location::File { path }, content } => {
            assert_eq!(path, "/h/.acme-switch-backup/credentials/.acme-credentials-1-a.json");
            assert_eq!(content, "s");
        }
        other => panic!("unexpected op {:?}", other),
    }
    match mac.op_for(step(), 1).unwrap() {
        FileOp::Put { at: Location::Keychain { service }, .. } => assert_eq!(service, "Acme Tool-Account-1-a"),
        other => panic!("unexpected op {:?}", other),
    }
    match mac.op_for(Step::WriteActiveToken { token: "t".to_string() }, 1).unwrap() {
        FileOp::Put { at: Location::Keychain { service }, .. } => assert_eq!(service, "ccswitch-active-token"),
        other => panic!("unexpected op {:?}", other),
    }
    assert!(linux.op_for(Step::WriteLiveConfig { document: "nope".to_string() }, 1).is_err());
    match linux.op_for(Step::WriteLiveConfig { document: "{}".to_string() }, 9).unwrap() {
        FileOp::Replace { path, temp, .. } => {
            assert_eq!(path, "/h/.acme.json");
            assert_eq!(temp, "/h/.acme.json.tmp.9");
        }
        other => panic!("unexpected op {:?}", other),
    }
    match linux.op_for(Step::DeleteConfigBackup { slot: 2, label: "b".to_string() }, 1).unwrap() {
        FileOp::Delete { at: Location::File { path } } => assert_eq!(path, "/h/.acme-switch-backup/configs/.acme-config-2-b.json"),
        other => panic!("unexpected op {:?}", other),
    }
    match linux.read_live() {
        Location::File { path } => assert_eq!(path, "/h/.acme/.credentials.json"),
        other => panic!("unexpected location {:?}", other),
    }
    assert!(matches!(mac.write_live("c".to_string()), FileOp::Put { at: Location::Keychain { service }, .. } if service == "Acme Tool-credentials"));
}
