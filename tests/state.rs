use secret_app::{placeholder_assets, SecretApp, Snapshot, UiEvent, PLACEHOLDER_ROWS};

fn names(app: &SecretApp) -> Vec<String> {
    app.accounts().clone()
}

fn default_names() -> Vec<String> {
    vec!["Account1".to_string(), "Account2".to_string(), "Account3".to_string()]
}

#[test]
fn default_state_selects_first_account_with_dialog_closed() {
    let app = SecretApp::default();
    assert_eq!(app.account(), 0);
    assert_eq!(names(&app), default_names());
    assert!(!app.adding_snip20());
    assert_eq!(app.selected_text(), "Account1");
}

#[test]
fn selecting_each_account_updates_index_and_label() {
    for i in 0..3usize {
        let mut app = SecretApp::default();
        app.select_account(i);
        assert_eq!(app.account(), i);
        assert_eq!(app.selected_text(), &default_names()[i]);
    }
}

#[test]
fn select_event_matches_select_account() {
    let mut app = SecretApp::default();
    app.apply(UiEvent::SelectAccount(2));
    assert_eq!(app.account(), 2);
    assert_eq!(app.selected_text(), "Account3");
    assert_eq!(names(&app), default_names());
}

#[test]
fn add_snip20_opens_dialog() {
    let mut app = SecretApp::default();
    app.add_snip20_clicked();
    assert!(app.adding_snip20());
    assert_eq!(app.account(), 0);
}

#[test]
fn refresh_opens_dialog() {
    let mut app = SecretApp::default();
    app.refresh_clicked();
    assert!(app.adding_snip20());
}

#[test]
fn close_closes_dialog() {
    let mut app = SecretApp::default();
    app.apply(UiEvent::AddSnip20);
    assert!(app.adding_snip20());
    app.apply(UiEvent::Close);
    assert!(!app.adding_snip20());
    app.apply(UiEvent::Refresh);
    assert!(app.adding_snip20());
    app.close_clicked();
    assert!(!app.adding_snip20());
}

#[test]
fn close_on_closed_dialog_keeps_it_closed() {
    let mut app = SecretApp::default();
    app.close_clicked();
    assert!(!app.adding_snip20());
}

#[test]
fn nothing_saved_gives_default() {
    let app = SecretApp::restore(None);
    assert_eq!(app.account(), 0);
    assert_eq!(names(&app), default_names());
    assert!(!app.adding_snip20());
}

#[test]
fn out_of_range_snapshot_gives_default() {
    let saved = Snapshot { account: 7, accounts: vec!["Solo".to_string()], adding_snip20: true };
    let app = SecretApp::restore(Some(saved));
    assert_eq!(app.account(), 0);
    assert_eq!(names(&app), default_names());
    assert!(!app.adding_snip20());
}

#[test]
fn empty_account_list_snapshot_gives_default() {
    let saved = Snapshot { account: 0, accounts: Vec::new(), adding_snip20: false };
    let app = SecretApp::restore(Some(saved));
    assert_eq!(app.account(), 0);
    assert_eq!(names(&app), default_names());
}

#[test]
fn valid_snapshot_is_kept() {
    let saved = Snapshot {
        account: 1,
        accounts: vec!["Main".to_string(), "Savings".to_string()],
        adding_snip20: true,
    };
    let app = SecretApp::restore(Some(saved));
    assert_eq!(app.account(), 1);
    assert_eq!(app.selected_text(), "Savings");
    assert!(app.adding_snip20());
}

#[test]
fn default_round_trip() {
    let app = SecretApp::default();
    let back = SecretApp::restore(Some(app.snapshot()));
    assert_eq!(back.account(), app.account());
    assert_eq!(names(&back), names(&app));
    assert_eq!(back.adding_snip20(), app.adding_snip20());
}

#[test]
fn changed_state_round_trip() {
    let mut app = SecretApp::default();
    app.select_account(2);
    app.add_snip20_clicked();
    let snap = app.snapshot();
    assert_eq!(snap.account, 2);
    assert_eq!(snap.accounts, default_names());
    assert!(snap.adding_snip20);
    let back = SecretApp::restore(Some(snap));
    assert_eq!(back.account(), 2);
    assert_eq!(back.selected_text(), "Account3");
    assert!(back.adding_snip20());
}

#[test]
fn placeholder_assets_are_fixed() {
    let rows = placeholder_assets();
    assert_eq!(rows.len(), 2);
    assert_eq!(rows[0].symbol, "scrt");
    assert_eq!(rows[0].amount, 20);
    assert_eq!(rows[1].symbol, "SHD");
    assert_eq!(rows[1].amount, 30);
    assert_eq!(PLACEHOLDER_ROWS, 5);
}
