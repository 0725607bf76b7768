use jiff::Timestamp;
use up_tui::clock::LocalDate;
use up_tui::config::{Config, ConfigError};
use up_tui::days::{next_day_start, previous_day_start};
use up_tui::handler::{decode_key, handle_event, AppEvent, KeyAction, KeyCode, KeyEvent};
use up_tui::models::{Account, Transaction, TransactionStatus};
use up_tui::money::MoneyObject;
use up_tui::state::{AppMode, AppState, TabState};
use up_tui::theme::ThemeId;

fn money(cents: i64) -> MoneyObject {
    MoneyObject { currency_code: "AUD".to_string(), value: "0.00".to_string(), value_in_base_units: cents }
}

fn account(id: &str) -> Account {
    Account { id: id.to_string(), display_name: id.to_uppercase(), account_type: "SAVER".to_string(), balance: money(0) }
}

fn txn(id: &str, second: i64) -> Transaction {
    Transaction {
        id: id.to_string(),
        status: TransactionStatus::Held,
        description: format!("Purchase {id}"),
        raw_text: None,
        message: None,
        amount: money(-100),
        foreign_amount: None,
        hold_info: None,
        card_purchase_method: None,
        settled_at: None,
        created_at: Timestamp::from_second(second).unwrap(),
        round_up: None,
        cashback: None,
        transaction_type: None,
        note: None,
        performing_customer: None,
        category: None,
        parent_category: None,
        tags: vec![],
    }
}

fn config(theme: Option<&str>) -> Config {
    Config { api_token: "up:yeah:x".to_string(), theme: theme.map(|s| s.to_string()) }
}

fn key(c: char) -> AppEvent {
    AppEvent::Key(KeyEvent { code: KeyCode::Char(c), ctrl: false })
}

fn ctrl(c: char) -> AppEvent {
    AppEvent::Key(KeyEvent { code: KeyCode::Char(c), ctrl: true })
}

fn loaded_state(accounts: &[&str]) -> AppState {
    let mut s = AppState::new(config(None));
    let accs: Vec<Account> = accounts.iter().map(|a| account(a)).collect();
    let _ = handle_event(&mut s, AppEvent::AccountsLoaded(Ok(accs)));
    s
}

fn date(year: i16, month: i8, day: i8) -> LocalDate {
    LocalDate { year, month, day }
}

#[test]
fn new_state_is_empty_with_configured_theme() {
    let s = AppState::new(config(Some("nord")));
    assert!(s.accounts.is_empty());
    assert!(s.tabs.is_empty());
    assert_eq!(s.active_tab, 0);
    assert_eq!(s.mode, AppMode::Normal);
    assert!(!s.should_quit);
    assert!(!s.show_detail);
    assert_eq!(s.list_height, 0);
    assert!(s.status.is_none());
    assert_eq!(s.theme.slug(), "nord");
}

#[test]
fn theme_name_falls_back_to_tokyo_night() {
    assert_eq!(config(None).theme_name().display_name(), "Tokyo Night");
    assert_eq!(config(Some("no-such-theme")).theme_name().display_name(), "Tokyo Night");
    assert_eq!(config(Some("catppuccin-mocha")).theme_name().display_name(), "Catppuccin Mocha");
}

#[test]
fn theme_lookup_by_slug() {
    let t = ThemeId::from_slug("dracula").unwrap();
    assert_eq!(t.index, 0);
    assert_eq!(t.display_name(), "Dracula");
    assert_eq!(ThemeId::from_slug("tokyo-night").unwrap().index, 7);
    assert!(ThemeId::from_slug("Tokyo Night").is_none());
}

#[test]
fn theme_cycle_wraps_around() {
    let first = ThemeId { index: 0 };
    let last = first.prev();
    assert_eq!(last.index, 15);
    assert_eq!(last.slug(), "midnight-commander");
    assert_eq!(last.next(), first);
    assert_eq!(first.next().slug(), "one-dark-pro");
}

#[test]
fn law_theme_round_trip_on_every_theme() {
    for i in 0..16 {
        let t = ThemeId { index: i };
        assert_eq!(t.next().prev(), t);
        assert_eq!(t.prev().next(), t);
    }
}

#[test]
fn config_validation() {
    assert_eq!(config(None).validate(), Ok(()));
    let empty = Config { api_token: String::new(), theme: None };
    assert_eq!(empty.validate(), Err(ConfigError::EmptyToken));
}

#[test]
fn key_bindings() {
    let k = |c: char, ctrl: bool| decode_key(KeyEvent { code: KeyCode::Char(c), ctrl });
    assert_eq!(k('q', false), KeyAction::Back);
    assert_eq!(k('Q', false), KeyAction::Back);
    assert_eq!(k('c', true), KeyAction::Quit);
    assert_eq!(k('c', false), KeyAction::Nothing);
    assert_eq!(k('l', false), KeyAction::NextTab);
    assert_eq!(k('h', false), KeyAction::PrevTab);
    assert_eq!(k('j', false), KeyAction::Down);
    assert_eq!(k('k', false), KeyAction::Up);
    assert_eq!(k('d', true), KeyAction::PageDown);
    assert_eq!(k('d', false), KeyAction::Nothing);
    assert_eq!(k('u', true), KeyAction::PageUp);
    assert_eq!(k('g', false), KeyAction::Top);
    assert_eq!(k('G', false), KeyAction::Bottom);
    assert_eq!(k('[', false), KeyAction::PrevDay);
    assert_eq!(k(']', false), KeyAction::NextDay);
    assert_eq!(k('o', false), KeyAction::ToggleDetail);
    assert_eq!(k('r', false), KeyAction::Refresh);
    assert_eq!(k('t', false), KeyAction::NextTheme);
    assert_eq!(k('T', false), KeyAction::PrevTheme);
    assert_eq!(k('x', false), KeyAction::Nothing);
    let code = |c: KeyCode| decode_key(KeyEvent { code: c, ctrl: false });
    assert_eq!(code(KeyCode::Tab), KeyAction::NextTab);
    assert_eq!(code(KeyCode::BackTab), KeyAction::PrevTab);
    assert_eq!(code(KeyCode::Down), KeyAction::Down);
    assert_eq!(code(KeyCode::Up), KeyAction::Up);
    assert_eq!(code(KeyCode::Enter), KeyAction::ShowDetail);
    assert_eq!(code(KeyCode::Esc), KeyAction::Back);
    assert_eq!(code(KeyCode::Other), KeyAction::Nothing);
}

#[test]
fn accounts_loaded_fetches_first_tab() {
    let mut s = AppState::new(config(None));
    let req = handle_event(&mut s, AppEvent::AccountsLoaded(Ok(vec![account("a"), account("b")]))).unwrap();
    assert_eq!(req.tab_index, 0);
    assert_eq!(req.account_id, "a");
    assert_eq!(s.tabs.len(), 2);
    assert!(s.tabs[0].loading);
    assert!(!s.tabs[1].loading);
    assert_eq!(s.status.as_ref().unwrap().text, "Accounts loaded");
    assert!(!s.status.as_ref().unwrap().is_error);
}

#[test]
fn no_accounts_fetches_nothing() {
    let mut s = AppState::new(config(None));
    assert!(handle_event(&mut s, AppEvent::AccountsLoaded(Ok(vec![]))).is_none());
    assert!(s.tabs.is_empty());
}

#[test]
fn failures_reach_the_status_line() {
    let mut s = AppState::new(config(None));
    let _ = handle_event(&mut s, AppEvent::AccountsLoaded(Err("timeout".to_string())));
    let m = s.status.as_ref().unwrap();
    assert_eq!(m.text, "Failed to load accounts: timeout");
    assert!(m.is_error);
    let _ = handle_event(&mut s, AppEvent::CategoriesLoaded(Err("boom".to_string())));
    assert_eq!(s.status.as_ref().unwrap().text, "Failed to load categories: boom");
}

#[test]
fn transactions_loaded_fill_the_tab() {
    let mut s = loaded_state(&["a", "b"]);
    let r = handle_event(&mut s, AppEvent::TransactionsLoaded { tab_index: 0, result: Ok(vec![txn("1", 0)]) });
    assert!(r.is_none());
    assert!(!s.tabs[0].loading);
    assert_eq!(s.tabs[0].transactions.as_ref().unwrap().len(), 1);
    let _ = handle_event(&mut s, AppEvent::TransactionsLoaded { tab_index: 1, result: Err("nope".to_string()) });
    assert!(s.tabs[1].transactions.is_none());
    assert_eq!(s.status.as_ref().unwrap().text, "Failed to load transactions: nope");
    // A result for a tab that does not exist changes nothing.
    let _ = handle_event(&mut s, AppEvent::TransactionsLoaded { tab_index: 9, result: Ok(vec![]) });
    assert_eq!(s.tabs.len(), 2);
}

#[test]
fn switching_tabs_fetches_unloaded_ones_and_wraps() {
    let mut s = loaded_state(&["a", "b", "c"]);
    s.set_status("old".to_string(), false);
    let r = handle_event(&mut s, key('l')).unwrap();
    assert_eq!(s.active_tab, 1);
    assert_eq!(r.account_id, "b");
    assert!(s.status.is_none());
    assert!(handle_event(&mut s, key('h')).is_none()); // tab 0 is already loading
    assert_eq!(s.active_tab, 0);
    let r = handle_event(&mut s, AppEvent::Key(KeyEvent { code: KeyCode::BackTab, ctrl: false })).unwrap();
    assert_eq!(s.active_tab, 2);
    assert_eq!(r.tab_index, 2);
}

#[test]
fn law_next_then_prev_tab_returns() {
    let mut s = loaded_state(&["a", "b", "c"]);
    for start in 0..3 {
        s.active_tab = start;
        s.next_tab();
        s.prev_tab();
        assert_eq!(s.active_tab, start);
        s.prev_tab();
        s.next_tab();
        assert_eq!(s.active_tab, start);
    }
}

#[test]
fn selection_moves_within_bounds() {
    let mut s = loaded_state(&["a"]);
    let txns: Vec<Transaction> = (0..5).map(|i| txn(&i.to_string(), 1_700_000_000 + i)).collect();
    let _ = handle_event(&mut s, AppEvent::TransactionsLoaded { tab_index: 0, result: Ok(txns) });
    let _ = handle_event(&mut s, key('k'));
    assert_eq!(s.tabs[0].selected, 0);
    let _ = handle_event(&mut s, key('j'));
    assert_eq!(s.tabs[0].selected, 1);
    let _ = handle_event(&mut s, key('G'));
    assert_eq!(s.tabs[0].selected, 4);
    let _ = handle_event(&mut s, key('j'));
    assert_eq!(s.tabs[0].selected, 4);
    let _ = handle_event(&mut s, key('g'));
    assert_eq!(s.tabs[0].selected, 0);
    s.set_list_area(8); // three items per page
    assert_eq!(s.list_height, 3);
    let _ = handle_event(&mut s, ctrl('d'));
    assert_eq!(s.tabs[0].selected, 3);
    let _ = handle_event(&mut s, ctrl('d'));
    assert_eq!(s.tabs[0].selected, 4);
    let _ = handle_event(&mut s, ctrl('u'));
    assert_eq!(s.tabs[0].selected, 1);
    let _ = handle_event(&mut s, ctrl('u'));
    assert_eq!(s.tabs[0].selected, 0);
}

#[test]
fn list_area_height() {
    let mut s = AppState::new(config(None));
    s.set_list_area(0);
    assert_eq!(s.list_height, 0);
    s.set_list_area(1);
    assert_eq!(s.list_height, 0);
    s.set_list_area(23);
    assert_eq!(s.list_height, 10);
}

#[test]
fn quit_toggle_refresh_and_themes() {
    let mut s = loaded_state(&["a"]);
    let _ = handle_event(&mut s, key('o'));
    assert!(s.show_detail);
    let _ = handle_event(&mut s, key('o'));
    assert!(!s.show_detail);
    let r = handle_event(&mut s, key('r')).unwrap();
    assert_eq!(r.tab_index, 0);
    assert_eq!(r.options.page_size, 50);
    assert!(r.options.next_url.is_none());
    assert!(s.tabs[0].loading);
    let _ = handle_event(&mut s, key('t'));
    assert_eq!(s.theme.slug(), "solarized-dark");
    assert_eq!(s.status.as_ref().unwrap().text, "Theme: Solarized Dark");
    let _ = handle_event(&mut s, key('T'));
    let _ = handle_event(&mut s, key('T'));
    assert_eq!(s.status.as_ref().unwrap().text, "Theme: Gruvbox Light");
    assert!(!s.should_quit);
    let _ = handle_event(&mut s, ctrl('c'));
    assert!(s.should_quit);
}

#[test]
fn refresh_without_accounts_does_nothing() {
    let mut s = AppState::new(config(None));
    assert!(handle_event(&mut s, key('r')).is_none());
}

#[test]
fn day_jumps_on_dates() {
    let d = vec![
        date(2024, 5, 3),
        date(2024, 5, 3),
        date(2024, 5, 2),
        date(2024, 5, 2),
        date(2024, 5, 2),
        date(2024, 5, 1),
    ];
    assert_eq!(next_day_start(&d, 0), Some(2));
    assert_eq!(next_day_start(&d, 2), Some(5));
    assert_eq!(next_day_start(&d, 5), None);
    assert_eq!(previous_day_start(&d, 5), Some(2));
    assert_eq!(previous_day_start(&d, 3), Some(0));
    assert_eq!(previous_day_start(&d, 1), None);
}

#[test]
fn previous_day_start_takes_first_occurrence() {
    // The previous day starts at its first occurrence before the selection.
    let d = vec![date(2024, 1, 2), date(2024, 1, 1), date(2024, 1, 2), date(2024, 1, 3)];
    assert_eq!(previous_day_start(&d, 3), Some(0));
}

#[test]
fn day_keys_move_between_days() {
    let mut s = loaded_state(&["a"]);
    let day = 86_400;
    let base = 1_700_000_000 - 1_700_000_000 % day + 43_200; // noon UTC
    let txns = vec![
        txn("1", base + 2 * day),
        txn("2", base + 2 * day + 10),
        txn("3", base),
        txn("4", base + 10),
    ];
    let _ = handle_event(&mut s, AppEvent::TransactionsLoaded { tab_index: 0, result: Ok(txns) });
    let _ = handle_event(&mut s, key(']'));
    assert_eq!(s.tabs[0].selected, 2);
    let _ = handle_event(&mut s, key(']'));
    assert_eq!(s.tabs[0].selected, 2);
    let _ = handle_event(&mut s, key('j'));
    let _ = handle_event(&mut s, key('['));
    assert_eq!(s.tabs[0].selected, 0);
}

#[test]
fn category_names_prefer_latest_entry() {
    let mut s = AppState::new(config(None));
    let _ = handle_event(
        &mut s,
        AppEvent::CategoriesLoaded(Ok(vec![
            ("food".to_string(), "Food".to_string()),
            ("home".to_string(), "Home".to_string()),
            ("food".to_string(), "Food & Drink".to_string()),
        ])),
    );
    assert_eq!(s.category_name("food"), "Food & Drink");
    assert_eq!(s.category_name("home"), "Home");
    assert_eq!(s.category_name("unknown-id"), "unknown-id");
}

#[test]
fn current_tab_and_fresh_tabs() {
    let s = AppState::new(config(None));
    assert!(s.current_tab().is_none());
    let s = loaded_state(&["a", "b"]);
    let t: &TabState = s.current_tab().unwrap();
    assert_eq!(t.selected, 0);
    let fresh = TabState::new();
    assert!(fresh.transactions.is_none() && !fresh.loading && fresh.selected == 0);
}

#[test]
fn start_loading_message() {
    let mut s = AppState::new(config(None));
    let opts = s.start_loading();
    assert_eq!(opts.page_size, 50);
    assert!(opts.next_url.is_none());
    assert_eq!(s.status.as_ref().unwrap().text, "Loading accounts...");
    s.clear_status();
    assert!(s.status.is_none());
}

#[test]
fn law_fetch_requests_mark_tabs_loading() {
    let mut s = AppState::new(config(None));
    let mut requests = Vec::new();
    let events = vec![
        AppEvent::AccountsLoaded(Ok(vec![account("a"), account("b"), account("c")])),
        key('l'),
        key('l'),
        key('r'),
        AppEvent::Key(KeyEvent { code: KeyCode::Tab, ctrl: false }),
    ];
    for e in events {
        if let Some(r) = handle_event(&mut s, e) {
            assert!(s.tabs[r.tab_index].loading);
            assert_eq!(s.accounts[r.tab_index].id, r.account_id);
            requests.push(r.tab_index);
        }
    }
    assert_eq!(requests, vec![0, 1, 2, 2]);
}

#[test]
fn law_refresh_requests_active_account_on_values() {
    let mut s = loaded_state(&["a", "b"]);
    s.next_tab();
    let r = handle_event(&mut s, key('r')).unwrap();
    assert_eq!(r.tab_index, 1);
    assert_eq!(r.account_id, "b");
}

#[test]
fn detail_opens_with_enter_and_closes_before_quitting() {
    let mut s = loaded_state(&["a"]);
    let enter = AppEvent::Key(KeyEvent { code: KeyCode::Enter, ctrl: false });
    let esc = AppEvent::Key(KeyEvent { code: KeyCode::Esc, ctrl: false });
    let _ = handle_event(&mut s, enter);
    assert!(s.show_detail);
    let _ = handle_event(&mut s, key('q'));
    assert!(!s.show_detail);
    assert!(!s.should_quit);
    let _ = handle_event(&mut s, AppEvent::Key(KeyEvent { code: KeyCode::Enter, ctrl: false }));
    let _ = handle_event(&mut s, AppEvent::Key(KeyEvent { code: KeyCode::Enter, ctrl: false }));
    assert!(s.show_detail);
    let _ = handle_event(&mut s, esc);
    assert!(!s.show_detail);
    assert!(!s.should_quit);
    let _ = handle_event(&mut s, AppEvent::Key(KeyEvent { code: KeyCode::Esc, ctrl: false }));
    assert!(s.should_quit);
}

#[test]
fn q_quits_when_detail_is_closed() {
    let mut s = loaded_state(&["a"]);
    let _ = handle_event(&mut s, key('Q'));
    assert!(s.should_quit);
}

#[test]
fn fallback_theme_is_tokyo_night() {
    assert_eq!(config(None).theme_name().index, up_tui::config::TOKYO_NIGHT);
    assert_eq!(config(Some("nope")).theme_name().index, 7);
    assert_eq!(config(Some("dracula")).theme_name().display_name(), "Dracula");
}
