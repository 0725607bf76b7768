//! The decisions of the application: what a key press or a finished
//! request does to the state, and which transactions to fetch next.  The
//! application performs the fetches and hands back their results as
//! events.

use vstd::prelude::*;

use crate::days::{dates_of, is_next_day_start, is_previous_day_start, local_dates, next_day_start, previous_day_start};
use crate::clock::LocalDate;
use crate::models::{Account, PaginationOptions, Transaction, DEFAULT_PAGE_SIZE};
use crate::state::{tab_after, tab_before, AppState, TabState};
use crate::theme::{cycle_next, cycle_prev, theme_label_at, THEME_COUNT};

verus! {

/// A key, as far as the application tells keys apart.
#[derive(Clone, Copy, Debug, PartialEq, Eq, Structural)]
pub enum KeyCode {
    Char(char),
    Tab,
    BackTab,
    Up,
    Down,
    Enter,
    Esc,
    Other,
}

/// A key press, and whether Control was held.
#[derive(Clone, Copy, Debug, PartialEq, Eq, Structural)]
pub struct KeyEvent {
    pub code: KeyCode,
    pub ctrl: bool,
}

/// What a key press asks for.
#[derive(Clone, Copy, Debug, PartialEq, Eq, Structural)]
pub enum KeyAction {
    Quit,
    Back,
    ShowDetail,
    NextTab,
    PrevTab,
    Down,
    Up,
    PageDown,
    PageUp,
    Top,
    Bottom,
    PrevDay,
    NextDay,
    ToggleDetail,
    Refresh,
    NextTheme,
    PrevTheme,
    Nothing,
}

/// The key bindings: Esc and `q`/`Q` close the detail pane, or quit when
/// it is closed; Ctrl+C quits; Enter shows the detail pane; Tab/`l` and
/// Shift+Tab/`h` switch accounts, `j`/Down and `k`/Up move the selection,
/// Ctrl+D and Ctrl+U move it by a page, `g` and `G` jump to the top and the
/// bottom, `[` and `]` jump between days, `o` toggles the detail pane, `r`
/// refreshes, `t` and `T` cycle the themes.
pub open spec fn key_action(key: KeyEvent) -> KeyAction {
    match key.code {
        KeyCode::Char(c) => {
            if c == 'q' || c == 'Q' {
                KeyAction::Back
            } else if c == 'c' && key.ctrl {
                KeyAction::Quit
            } else if c == 'l' {
                KeyAction::NextTab
            } else if c == 'h' {
                KeyAction::PrevTab
            } else if c == 'j' {
                KeyAction::Down
            } else if c == 'k' {
                KeyAction::Up
            } else if c == 'd' && key.ctrl {
                KeyAction::PageDown
            } else if c == 'u' && key.ctrl {
                KeyAction::PageUp
            } else if c == 'g' {
                KeyAction::Top
            } else if c == 'G' {
                KeyAction::Bottom
            } else if c == '[' {
                KeyAction::PrevDay
            } else if c == ']' {
                KeyAction::NextDay
            } else if c == 'o' {
                KeyAction::ToggleDetail
            } else if c == 'r' {
                KeyAction::Refresh
            } else if c == 't' {
                KeyAction::NextTheme
            } else if c == 'T' {
                KeyAction::PrevTheme
            } else {
                KeyAction::Nothing
            }
        },
        KeyCode::Tab => KeyAction::NextTab,
        KeyCode::BackTab => KeyAction::PrevTab,
        KeyCode::Down => KeyAction::Down,
        KeyCode::Up => KeyAction::Up,
        KeyCode::Enter => KeyAction::ShowDetail,
        KeyCode::Esc => KeyAction::Back,
        KeyCode::Other => KeyAction::Nothing,
    }
}

/// What a key press asks for.
pub fn decode_key(key: KeyEvent) -> (a: KeyAction)
    ensures
        a == key_action(key),
{
    match key.code {
        KeyCode::Char(c) => {
            if c == 'q' || c == 'Q' {
                KeyAction::Back
            } else if c == 'c' && key.ctrl {
                KeyAction::Quit
            } else if c == 'l' {
                KeyAction::NextTab
            } else if c == 'h' {
                KeyAction::PrevTab
            } else if c == 'j' {
                KeyAction::Down
            } else if c == 'k' {
                KeyAction::Up
            } else if c == 'd' && key.ctrl {
                KeyAction::PageDown
            } else if c == 'u' && key.ctrl {
                KeyAction::PageUp
            } else if c == 'g' {
                KeyAction::Top
            } else if c == 'G' {
                KeyAction::Bottom
            } else if c == '[' {
                KeyAction::PrevDay
            } else if c == ']' {
                KeyAction::NextDay
            } else if c == 'o' {
                KeyAction::ToggleDetail
            } else if c == 'r' {
                KeyAction::Refresh
            } else if c == 't' {
                KeyAction::NextTheme
            } else if c == 'T' {
                KeyAction::PrevTheme
            } else {
                KeyAction::Nothing
            }
        },
        KeyCode::Tab => KeyAction::NextTab,
        KeyCode::BackTab => KeyAction::PrevTab,
        KeyCode::Down => KeyAction::Down,
        KeyCode::Up => KeyAction::Up,
        KeyCode::Enter => KeyAction::ShowDetail,
        KeyCode::Esc => KeyAction::Back,
        KeyCode::Other => KeyAction::Nothing,
    }
}

/// A request to load the transactions of an account into a tab.
pub struct FetchRequest {
    pub tab_index: usize,
    pub account_id: String,
    pub options: PaginationOptions,
}

/// The page that every request for transactions asks for: the first one,
/// fifty items long.
pub open spec fn first_page() -> PaginationOptions {
    PaginationOptions { page_size: DEFAULT_PAGE_SIZE, next_url: None }
}

/// The selection after a move within the loaded transactions of a tab:
/// one down (not past the last), one up (not before the first), a page
/// down (not past the last), a page up (not before the first), the first,
/// or the last.
pub open spec fn moved_selection(t: TabState, a: KeyAction, page: int) -> int {
    let n = t.txn_count() as int;
    let s = t.selected as int;
    match a {
        KeyAction::Down => if n > 0 && s < n - 1 { s + 1 } else { s },
        KeyAction::Up => if s > 0 { s - 1 } else { s },
        KeyAction::PageDown => if n > 0 { if s + page < n - 1 { s + page } else { n - 1 } } else { s },
        KeyAction::PageUp => if s >= page { s - page } else { 0 },
        KeyAction::Top => 0,
        KeyAction::Bottom => if n > 0 { n - 1 } else { s },
        _ => s,
    }
}

/// Whether an action moves the selection within a day-independent rule.
pub open spec fn is_move(a: KeyAction) -> bool {
    a == KeyAction::Down || a == KeyAction::Up || a == KeyAction::PageDown || a == KeyAction::PageUp
        || a == KeyAction::Top || a == KeyAction::Bottom
}

/// `new_sel` is where a day jump from `s` lands for the dates `d`: the
/// start of the next (`forward`) or previous day, or `s` itself when
/// there is no such day.
pub open spec fn day_jump_ok(d: Seq<LocalDate>, s: int, forward: bool, new_sel: usize) -> bool {
    if forward {
        is_next_day_start(d, s, Some(new_sel)) || (new_sel == s && is_next_day_start(d, s, None))
    } else {
        is_previous_day_start(d, s, Some(new_sel)) || (new_sel == s && is_previous_day_start(d, s, None))
    }
}

/// A day jump may be asked for: the selection of the active tab lies
/// within its loaded transactions whenever there are any.
pub open spec fn day_jump_allowed(s: AppState) -> bool {
    match s.current() {
        Some(t) => t.txn_count() > 0 ==> t.selected < t.txn_count(),
        None => true,
    }
}

/// The text `Theme: <name>`.
pub open spec fn theme_message(index: int) -> Seq<char> {
    "Theme: "@ + theme_label_at(index)
}

impl AppState {
    /// `self` with `should_quit` set.
    pub open spec fn quitting(self) -> AppState {
        AppState {
            accounts: self.accounts,
            tabs: self.tabs,
            active_tab: self.active_tab,
            mode: self.mode,
            should_quit: true,
            categories: self.categories,
            theme: self.theme,
            config: self.config,
            show_detail: self.show_detail,
            list_height: self.list_height,
            status: self.status,
        }
    }

    /// `self` with the detail pane shown or hidden.
    pub open spec fn with_detail(self, shown: bool) -> AppState {
        AppState {
            accounts: self.accounts,
            tabs: self.tabs,
            active_tab: self.active_tab,
            mode: self.mode,
            should_quit: self.should_quit,
            categories: self.categories,
            theme: self.theme,
            config: self.config,
            show_detail: shown,
            list_height: self.list_height,
            status: self.status,
        }
    }

    /// `self` with the detail pane toggled.
    pub open spec fn detail_toggled(self) -> AppState {
        AppState {
            accounts: self.accounts,
            tabs: self.tabs,
            active_tab: self.active_tab,
            mode: self.mode,
            should_quit: self.should_quit,
            categories: self.categories,
            theme: self.theme,
            config: self.config,
            show_detail: !self.show_detail,
            list_height: self.list_height,
            status: self.status,
        }
    }

    /// `self` with another active tab and an empty status line.
    pub open spec fn switched_to(self, tab: int) -> AppState {
        AppState {
            accounts: self.accounts,
            tabs: self.tabs,
            active_tab: tab as usize,
            mode: self.mode,
            should_quit: self.should_quit,
            categories: self.categories,
            theme: self.theme,
            config: self.config,
            show_detail: self.show_detail,
            list_height: self.list_height,
            status: None,
        }
    }

    /// The tab that a step to the next account makes active.
    pub open spec fn tab_after_step(self) -> int {
        if self.accounts@.len() == 0 {
            self.active_tab as int
        } else {
            tab_after(self.active_tab as int, self.accounts@.len() as int)
        }
    }

    /// The tab that a step to the previous account makes active.
    pub open spec fn tab_before_step(self) -> int {
        if self.accounts@.len() == 0 {
            self.active_tab as int
        } else {
            tab_before(self.active_tab as int, self.accounts@.len() as int)
        }
    }
}

/// The effect of asking for the transactions of tab `i`: when `i` names an
/// account, its tab is marked as loading and a request for that account
/// comes out; otherwise nothing happens.
pub open spec fn fetch_step(old: AppState, new: AppState, i: int, r: Option<FetchRequest>) -> bool {
    if 0 <= i < old.accounts@.len() {
        &&& new.same_except_tabs(old)
        &&& new.tabs@ == old.tabs@.update(i, old.tabs@[i].with_loading(true))
        &&& r == Some(FetchRequest { tab_index: i as usize, account_id: old.accounts@[i].id, options: first_page() })
    } else {
        new == old && r is None
    }
}

/// The effect of visiting the active tab: its transactions are asked for
/// when they are neither loaded nor loading.
pub open spec fn visit_step(old: AppState, new: AppState, r: Option<FetchRequest>) -> bool {
    match old.current() {
        Some(t) => if t.transactions is None && !t.loading {
            fetch_step(old, new, old.active_tab as int, r)
        } else {
            new == old && r is None
        },
        None => new == old && r is None,
    }
}

/// The effect of a jump to the previous or next day: the selection of the
/// active tab moves as `day_jump_ok` says, for the local dates that
/// `local_date` gives for its transactions' creation times (whatever the
/// time zone makes them).
pub open spec fn day_step(old: AppState, new: AppState, forward: bool, r: Option<FetchRequest>) -> bool {
    &&& r is None
    &&& new.same_except_tabs(old)
    &&& match old.current() {
        Some(t) => if t.txn_count() > 0 {
            exists|d: Seq<LocalDate>, s: usize| #[trigger] day_jump_ok(d, t.selected as int, forward, s)
                && dates_of(t.transactions.unwrap()@, d)
                && new.tabs@ == old.tabs@.update(old.active_tab as int, t.with_selected(s))
        } else {
            new.tabs == old.tabs
        },
        None => new.tabs == old.tabs,
    }
}

/// The effect of a key press.
pub open spec fn key_step(old: AppState, new: AppState, a: KeyAction, r: Option<FetchRequest>) -> bool {
    match a {
        KeyAction::Quit => new == old.quitting() && r is None,
        KeyAction::Back => r is None && if old.show_detail {
            new == old.with_detail(false)
        } else {
            new == old.quitting()
        },
        KeyAction::ShowDetail => new == old.with_detail(true) && r is None,
        KeyAction::NextTab => visit_step(old.switched_to(old.tab_after_step()), new, r),
        KeyAction::PrevTab => visit_step(old.switched_to(old.tab_before_step()), new, r),
        KeyAction::PrevDay => day_step(old, new, false, r),
        KeyAction::NextDay => day_step(old, new, true, r),
        KeyAction::ToggleDetail => new == old.detail_toggled() && r is None,
        KeyAction::Refresh => fetch_step(old, new, old.active_tab as int, r),
        KeyAction::NextTheme => {
            &&& r is None
            &&& new.theme.index == cycle_next(old.theme.index as int, THEME_COUNT as int)
            &&& new.status matches Some(m) && m.text@ == theme_message(new.theme.index as int) && !m.is_error
            &&& new.same_except_theme_and_status(old)
        },
        KeyAction::PrevTheme => {
            &&& r is None
            &&& new.theme.index == cycle_prev(old.theme.index as int, THEME_COUNT as int)
            &&& new.status matches Some(m) && m.text@ == theme_message(new.theme.index as int) && !m.is_error
            &&& new.same_except_theme_and_status(old)
        },
        KeyAction::Nothing => new == old && r is None,
        _ => {
            &&& r is None
            &&& new.same_except_tabs(old)
            &&& match old.current() {
                Some(t) => new.tabs@ == old.tabs@.update(
                    old.active_tab as int,
                    t.with_selected(moved_selection(t, a, old.list_height as int) as usize),
                ),
                None => new.tabs == old.tabs,
            }
        },
    }
}

impl AppState {
    /// Marks tab `tab_index` as loading and asks for the transactions of
    /// its account; nothing happens when no account has that position.
    pub fn fetch_transactions(&mut self, tab_index: usize) -> (r: Option<FetchRequest>)
        requires
            old(self).wf(),
        ensures
            final(self).wf(),
            fetch_step(*old(self), *final(self), tab_index as int, r),
    {
        if tab_index < self.accounts.len() {
            let account_id = self.accounts[tab_index].id.clone();
            self.tabs[tab_index].loading = true;
            let options = PaginationOptions::default();
            Some(FetchRequest { tab_index, account_id, options })
        } else {
            None
        }
    }

    /// Asks for the transactions of the active tab when they are neither
    /// loaded nor loading.
    pub fn maybe_fetch_transactions(&mut self) -> (r: Option<FetchRequest>)
        requires
            old(self).wf(),
        ensures
            final(self).wf(),
            visit_step(*old(self), *final(self), r),
    {
        let idx = self.active_tab;
        if idx < self.tabs.len() && self.tabs[idx].transactions.is_none() && !self.tabs[idx].loading {
            self.fetch_transactions(idx)
        } else {
            None
        }
    }

    /// Moves the selection of the active tab as `moved_selection` says.
    fn move_selection(&mut self, a: KeyAction)
        requires
            old(self).wf(),
            is_move(a),
        ensures
            final(self).wf(),
            key_step(*old(self), *final(self), a, None),
    {
        let page = self.list_height as usize;
        let i = self.active_tab;
        if i < self.tabs.len() {
            let n = match &self.tabs[i].transactions {
                Some(v) => v.len(),
                None => 0,
            };
            let s = self.tabs[i].selected;
            let ns = match a {
                KeyAction::Down => if n > 0 && s < n - 1 { s + 1 } else { s },
                KeyAction::Up => if s > 0 { s - 1 } else { s },
                KeyAction::PageDown => {
                    if n > 0 {
                        if s < n - 1 && page < n - 1 - s { s + page } else { n - 1 }
                    } else {
                        s
                    }
                },
                KeyAction::PageUp => if s >= page { s - page } else { 0 },
                KeyAction::Top => 0,
                _ => if n > 0 { n - 1 } else { s },
            };
            self.set_selected_at_active(ns);
        }
    }

    /// Moves the selection of the active tab to the start of the next
    /// (`forward`) or previous day.
    fn jump_day(&mut self, forward: bool)
        requires
            old(self).wf(),
            day_jump_allowed(*old(self)),
        ensures
            final(self).wf(),
            day_step(*old(self), *final(self), forward, None),
    {
        let i = self.active_tab;
        if i < self.tabs.len() {
            let s = self.tabs[i].selected;
            let target: Option<usize> = match &self.tabs[i].transactions {
                Some(txns) => {
                    if txns.len() > 0 {
                        let dates = local_dates(txns);
                        let r = if forward { next_day_start(&dates, s) } else { previous_day_start(&dates, s) };
                        let ns = match r {
                            Some(x) => x,
                            None => s,
                        };
                        assert(day_jump_ok(dates@, s as int, forward, ns));
                        Some(ns)
                    } else {
                        None
                    }
                },
                None => None,
            };
            match target {
                Some(ns) => {
                    self.set_selected_at_active(ns);
                },
                None => {},
            }
        }
    }
}

/// A key press may be handled: a day jump asks for a selection within the
/// loaded transactions.
pub open spec fn key_allowed(s: AppState, key: KeyEvent) -> bool {
    (key_action(key) == KeyAction::PrevDay || key_action(key) == KeyAction::NextDay) ==> day_jump_allowed(s)
}

impl AppState {
    /// Applies a key press, and returns the request for transactions that
    /// it calls for, if any.
    pub fn handle_key(&mut self, key: KeyEvent) -> (r: Option<FetchRequest>)
        requires
            old(self).wf(),
            key_allowed(*old(self), key),
        ensures
            final(self).wf(),
            key_step(*old(self), *final(self), key_action(key), r),
    {
        let a = decode_key(key);
        match a {
            KeyAction::Quit => {
                self.should_quit = true;
                None
            },
            KeyAction::Back => {
                if self.show_detail {
                    self.show_detail = false;
                } else {
                    self.should_quit = true;
                }
                None
            },
            KeyAction::ShowDetail => {
                self.show_detail = true;
                None
            },
            KeyAction::NextTab => {
                self.next_tab();
                self.clear_status();
                self.maybe_fetch_transactions()
            },
            KeyAction::PrevTab => {
                self.prev_tab();
                self.clear_status();
                self.maybe_fetch_transactions()
            },
            KeyAction::PrevDay => {
                self.jump_day(false);
                None
            },
            KeyAction::NextDay => {
                self.jump_day(true);
                None
            },
            KeyAction::ToggleDetail => {
                self.show_detail = !self.show_detail;
                None
            },
            KeyAction::Refresh => {
                let idx = self.active_tab;
                self.fetch_transactions(idx)
            },
            KeyAction::NextTheme => {
                self.next_theme();
                let text = theme_status(self.theme);
                self.set_status(text, false);
                None
            },
            KeyAction::PrevTheme => {
                self.prev_theme();
                let text = theme_status(self.theme);
                self.set_status(text, false);
                None
            },
            KeyAction::Nothing => None,
            _ => {
                self.move_selection(a);
                None
            },
        }
    }
}

/// The status text naming a theme.
fn theme_status(theme: crate::theme::ThemeId) -> (s: String)
    requires
        theme.valid(),
    ensures
        s@ == theme_message(theme.index as int),
{
    let mut s = String::from_str("Theme: ");
    let name = theme.display_name();
    s.append(name.as_str());
    s
}

/// Something that happened: a key press, or the outcome of a request.
/// A failed request carries the text of its error.
pub enum AppEvent {
    Key(KeyEvent),
    AccountsLoaded(Result<Vec<Account>, String>),
    TransactionsLoaded { tab_index: usize, result: Result<Vec<Transaction>, String> },
    CategoriesLoaded(Result<Vec<(String, String)>, String>),
}

/// A status line with `text` that is, or is not, an error.
pub open spec fn status_says(s: AppState, text: Seq<char>, is_error: bool) -> bool {
    s.status matches Some(m) && m.text@ == text && m.is_error == is_error
}

/// The effect of an event.
pub open spec fn event_step(old: AppState, new: AppState, e: AppEvent, r: Option<FetchRequest>) -> bool {
    match e {
        AppEvent::Key(k) => key_step(old, new, key_action(k), r),
        AppEvent::AccountsLoaded(Ok(accounts)) => {
            &&& new.accounts == accounts
            &&& new.tabs@.len() == accounts@.len()
            &&& forall|i: int| 0 <= i < accounts@.len() ==> {
                let t = #[trigger] new.tabs@[i];
                t.transactions is None && t.selected == 0 && t.loading == (i == 0)
            }
            &&& new.active_tab == 0
            &&& status_says(new, "Accounts loaded"@, false)
            &&& r == if accounts@.len() > 0 {
                Some(FetchRequest { tab_index: 0, account_id: accounts@[0].id, options: first_page() })
            } else {
                None
            }
            &&& new.same_settings(old)
        },
        AppEvent::AccountsLoaded(Err(msg)) => {
            &&& r is None
            &&& new.same_except_status(old)
            &&& status_says(new, "Failed to load accounts: "@ + msg@, true)
        },
        AppEvent::CategoriesLoaded(Ok(categories)) => {
            &&& r is None
            &&& new.categories == categories
            &&& new.same_except_categories(old)
        },
        AppEvent::CategoriesLoaded(Err(msg)) => {
            &&& r is None
            &&& new.same_except_status(old)
            &&& status_says(new, "Failed to load categories: "@ + msg@, true)
        },
        AppEvent::TransactionsLoaded { tab_index, result } => {
            &&& r is None
            &&& if tab_index < old.tabs@.len() {
                let t = old.tabs@[tab_index as int];
                match result {
                    Ok(txns) => {
                        &&& new.same_except_tabs(old)
                        &&& new.tabs@ == old.tabs@.update(
                            tab_index as int,
                            TabState { transactions: Some(txns), selected: t.selected, loading: false },
                        )
                    },
                    Err(msg) => {
                        &&& new.tabs@ == old.tabs@.update(tab_index as int, t.with_loading(false))
                        &&& status_says(new, "Failed to load transactions: "@ + msg@, true)
                        &&& new.accounts == old.accounts && new.active_tab == old.active_tab
                        &&& new.same_settings(old)
                    },
                }
            } else {
                new == old
            }
        },
    }
}

/// An event may be handled: a key press must be one that may be handled.
pub open spec fn event_allowed(s: AppState, e: AppEvent) -> bool {
    match e {
        AppEvent::Key(k) => key_allowed(s, k),
        _ => true,
    }
}

/// `prefix` followed by `detail`.
fn message(prefix: &str, detail: &String) -> (s: String)
    ensures
        s@ == prefix@ + detail@,
{
    let mut s = String::from_str(prefix);
    s.append(detail.as_str());
    s
}

/// Applies an event to the state, and returns the request for
/// transactions that it calls for, if any.
pub fn handle_event(state: &mut AppState, event: AppEvent) -> (r: Option<FetchRequest>)
    requires
        old(state).wf(),
        event_allowed(*old(state), event),
    ensures
        final(state).wf(),
        event_step(*old(state), *final(state), event, r),
{
    match event {
        AppEvent::Key(key) => state.handle_key(key),
        AppEvent::AccountsLoaded(result) => match result {
            Ok(accounts) => {
                state.set_accounts(accounts);
                state.set_status(String::from_str("Accounts loaded"), false);
                // Load the first tab straight away.
                if !state.accounts.is_empty() {
                    state.fetch_transactions(0)
                } else {
                    None
                }
            },
            Err(e) => {
                let text = message("Failed to load accounts: ", &e);
                state.set_status(text, true);
                None
            },
        },
        AppEvent::CategoriesLoaded(result) => match result {
            Ok(categories) => {
                state.categories = categories;
                None
            },
            Err(e) => {
                let text = message("Failed to load categories: ", &e);
                state.set_status(text, true);
                None
            },
        },
        AppEvent::TransactionsLoaded { tab_index, result } => {
            if tab_index < state.tabs.len() {
                let ghost before = state.tabs@;
                state.tabs[tab_index].loading = false;
                match result {
                    Ok(transactions) => {
                        let ghost loaded = transactions;
                        state.tabs[tab_index].transactions = Some(transactions);
                        assert(state.tabs@ =~= before.update(
                            tab_index as int,
                            TabState { transactions: Some(loaded), selected: before[tab_index as int].selected, loading: false },
                        ));
                    },
                    Err(e) => {
                        let text = message("Failed to load transactions: ", &e);
                        state.set_status(text, true);
                    },
                }
            }
            None
        },
    }
}

impl AppState {
    /// Puts the status line for loading the accounts at start-up, and
    /// returns the page of accounts to ask for: the first one.
    pub fn start_loading(&mut self) -> (opts: PaginationOptions)
        ensures
            final(self).same_except_status(*old(self)),
            status_says(*final(self), "Loading accounts..."@, false),
            opts == first_page(),
    {
        self.set_status(String::from_str("Loading accounts..."), false);
        PaginationOptions::default()
    }
}

} // verus!
