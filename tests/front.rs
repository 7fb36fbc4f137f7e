use ccswitch::front::{Action, App, Key, Mode};
use ccswitch::ledger::{AccountEntry, AuthKind, SequenceFile};

fn ledger() -> SequenceFile {
    let mut l = SequenceFile::new();
    for (n, e, k) in [(1, "a@x.com", AuthKind::Oauth), (2, "b@x.com", AuthKind::Token)] {
        l.register(n, AccountEntry { email: e.to_string(), uuid: String::new(), added: "t".to_string(), auth_kind: k }, "t".to_string());
    }
    l.activate(1, "t".to_string());
    l
}

#[test]
fn navigation_and_switch_confirmation() {
    let mut app = App::new(ledger(), None, false);
    assert_eq!(app.current_email.as_deref(), Some("a@x.com"));
    app.handle_normal(Key::Enter);
    assert_eq!(app.flash.as_ref().unwrap().message, "Already the active account");
    app.handle_normal(Key::Char('j'));
    app.handle_normal(Key::Down);
    assert_eq!(app.selected, 1);
    app.handle_normal(Key::Enter);
    assert!(matches!(&app.mode, Mode::ConfirmSwitch { num: 2, email } if email == "b@x.com"));
    let act = app.handle_confirm(Key::Char('y'));
    assert!(matches!(act, Some(Action::Switch { num: 2 })));
    assert!(matches!(app.mode, Mode::Normal));
    let mut next = ledger();
    next.activate(2, "t2".to_string());
    app.switch_finished(2, Ok((next, None)));
    assert!(matches!(app.mode, Mode::Done { needs_new_shell: true }));
}

#[test]
fn cancel_and_failures() {
    let mut app = App::new(ledger(), Some("a@x.com".to_string()), false);
    app.handle_normal(Key::Char('d'));
    assert!(matches!(&app.mode, Mode::ConfirmRemove { num: 1, .. }));
    assert!(app.handle_confirm(Key::Esc).is_none());
    assert_eq!(app.flash.as_ref().unwrap().message, "Cancelled");
    app.switch_finished(2, Err("boom".to_string()));
    assert_eq!(app.flash.as_ref().unwrap().message, "Switch failed: boom");
    assert!(app.flash.as_ref().unwrap().is_error);
    app.handle_normal(Key::Char('a'));
    assert_eq!(app.flash.as_ref().unwrap().message, "a@x.com is already managed");
    app.handle_normal(Key::Char('k'));
    assert_eq!(app.selected, 0);
    app.handle_normal(Key::Char('q'));
    assert!(app.quit);
}

#[test]
fn remove_and_add_results() {
    let mut app = App::new(ledger(), Some("new@x.com".to_string()), false);
    app.handle_normal(Key::Char('a'));
    assert!(matches!(&app.mode, Mode::ConfirmAdd { email } if email == "new@x.com"));
    assert!(matches!(app.handle_confirm(Key::Char('Y')), Some(Action::Add)));
    app.add_finished(Ok((ledger(), None, "Added new@x.com as Account 3".to_string())));
    assert_eq!(app.flash.as_ref().unwrap().message, "Added new@x.com as Account 3");
    app.selected = 1;
    let mut smaller = SequenceFile::new();
    smaller.register(1, AccountEntry { email: "a@x.com".to_string(), uuid: String::new(), added: "t".to_string(), auth_kind: AuthKind::Oauth }, "t".to_string());
    app.remove_finished(2, "b@x.com", Ok((smaller, None)));
    assert_eq!(app.flash.as_ref().unwrap().message, "Removed Account 2 (b@x.com)");
    assert_eq!(app.selected, 0);
    assert_eq!(app.selected_num(), Some(1));
    assert_eq!(app.active_num(), Some(1));
}

#[test]
fn add_without_identity_points_to_cli_for_tokens() {
    let mut app = App::new(SequenceFile::new(), None, true);
    app.handle_normal(Key::Char('a'));
    let f = app.flash.as_ref().unwrap();
    assert!(!f.is_error);
    assert!(f.message.contains("ccswitch add"));
    let mut app = App::new(SequenceFile::new(), None, false);
    app.handle_normal(Key::Char('a'));
    assert!(app.flash.as_ref().unwrap().is_error);
}
