//! The state of the application: the accounts and one tab per account,
//! the active tab, the selection in each tab, the categories, the theme,
//! and what the status line says.

use vstd::prelude::*;

use crate::config::{configured_theme, Config};
use crate::models::{Account, Transaction};
use crate::theme::{cycle_next, cycle_prev, ThemeId};

verus! {

/// What the main area shows.
#[derive(Clone, Copy, Debug, PartialEq, Eq, Structural)]
pub enum AppMode {
    Normal,
    Detail,
}

/// The transactions of one account, as far as they are loaded, and the
/// selected one.
pub struct TabState {
    pub transactions: Option<Vec<Transaction>>,
    pub selected: usize,
    pub loading: bool,
}

/// A message on the status line.
pub struct StatusMessage {
    pub text: String,
    pub is_error: bool,
}

/// The whole state of the application.
pub struct AppState {
    pub accounts: Vec<Account>,
    pub tabs: Vec<TabState>,
    pub active_tab: usize,
    pub mode: AppMode,
    pub should_quit: bool,
    pub categories: Vec<(String, String)>,
    pub theme: ThemeId,
    pub config: Config,
    /// Whether the detail pane is visible.
    pub show_detail: bool,
    /// Height of the transaction list area (in rows), updated during rendering.
    pub list_height: u16,
    pub status: Option<StatusMessage>,
}

impl TabState {
    /// A tab whose transactions have not been asked for yet.
    pub fn new() -> (t: Self)
        ensures
            t.transactions is None,
            t.selected == 0,
            !t.loading,
    {
        TabState { transactions: None, selected: 0, loading: false }
    }

    /// This tab with another selection.
    pub open spec fn with_selected(self, selected: usize) -> TabState {
        TabState { transactions: self.transactions, selected, loading: self.loading }
    }

    /// This tab with another loading flag.
    pub open spec fn with_loading(self, loading: bool) -> TabState {
        TabState { transactions: self.transactions, selected: self.selected, loading }
    }

    /// The number of loaded transactions (none when nothing is loaded).
    pub open spec fn txn_count(self) -> nat {
        match self.transactions {
            Some(v) => v@.len(),
            None => 0,
        }
    }
}

/// How many two-row items fit in a bordered area of `height` rows.
pub open spec fn list_page_height(height: u16) -> u16 {
    (if height >= 2 { height - 2 } else { 0 }) as u16 / 2
}

/// The position after `i` among `n` tabs, wrapping around.
pub open spec fn tab_after(i: int, n: int) -> int {
    (i + 1) % n
}

/// The position before `i` among `n` tabs, wrapping around.
pub open spec fn tab_before(i: int, n: int) -> int {
    if i == 0 { n - 1 } else { i - 1 }
}

/// The name stored last for `id` in a list of pairs, if any: later pairs
/// override earlier ones.
pub open spec fn category_lookup(entries: Seq<(String, String)>, id: Seq<char>) -> Option<Seq<char>>
    decreases entries.len(),
{
    if entries.len() == 0 {
        None
    } else if entries.last().0@ == id {
        Some(entries.last().1@)
    } else {
        category_lookup(entries.drop_last(), id)
    }
}

impl AppState {
    /// The shape every state keeps: one tab per account, an active tab
    /// among them (the first when there are none), and a known theme.
    pub open spec fn wf(self) -> bool {
        &&& self.tabs@.len() == self.accounts@.len()
        &&& (self.accounts@.len() == 0 ==> self.active_tab == 0)
        &&& (self.accounts@.len() > 0 ==> self.active_tab < self.accounts@.len())
        &&& self.theme.valid()
    }

    /// Every field but the tabs is the same in both states.
    pub open spec fn same_except_tabs(self, other: AppState) -> bool {
        &&& self.accounts == other.accounts
        &&& self.active_tab == other.active_tab
        &&& self.mode == other.mode
        &&& self.should_quit == other.should_quit
        &&& self.categories == other.categories
        &&& self.theme == other.theme
        &&& self.config == other.config
        &&& self.show_detail == other.show_detail
        &&& self.list_height == other.list_height
        &&& self.status == other.status
    }

    /// Every field but the status is the same in both states.
    pub open spec fn same_except_status(self, other: AppState) -> bool {
        &&& self.accounts == other.accounts
        &&& self.tabs == other.tabs
        &&& self.active_tab == other.active_tab
        &&& self.mode == other.mode
        &&& self.should_quit == other.should_quit
        &&& self.categories == other.categories
        &&& self.theme == other.theme
        &&& self.config == other.config
        &&& self.show_detail == other.show_detail
        &&& self.list_height == other.list_height
    }

    /// The settings and flags are the same in both states: mode, quitting,
    /// categories, theme, configuration, detail pane and list height.
    pub open spec fn same_settings(self, other: AppState) -> bool {
        &&& self.mode == other.mode
        &&& self.should_quit == other.should_quit
        &&& self.categories == other.categories
        &&& self.theme == other.theme
        &&& self.config == other.config
        &&& self.show_detail == other.show_detail
        &&& self.list_height == other.list_height
    }

    /// Every field but the theme and the status is the same in both states.
    pub open spec fn same_except_theme_and_status(self, other: AppState) -> bool {
        &&& self.accounts == other.accounts
        &&& self.tabs == other.tabs
        &&& self.active_tab == other.active_tab
        &&& self.mode == other.mode
        &&& self.should_quit == other.should_quit
        &&& self.categories == other.categories
        &&& self.config == other.config
        &&& self.show_detail == other.show_detail
        &&& self.list_height == other.list_height
    }

    /// Every field but the active tab is the same in both states.
    pub open spec fn same_except_active_tab(self, other: AppState) -> bool {
        &&& self.accounts == other.accounts
        &&& self.tabs == other.tabs
        &&& self.same_settings(other)
        &&& self.status == other.status
    }

    /// Every field but the list height is the same in both states.
    pub open spec fn same_except_list_height(self, other: AppState) -> bool {
        &&& self.accounts == other.accounts
        &&& self.tabs == other.tabs
        &&& self.active_tab == other.active_tab
        &&& self.mode == other.mode
        &&& self.should_quit == other.should_quit
        &&& self.categories == other.categories
        &&& self.theme == other.theme
        &&& self.config == other.config
        &&& self.show_detail == other.show_detail
        &&& self.status == other.status
    }

    /// Every field but the categories is the same in both states.
    pub open spec fn same_except_categories(self, other: AppState) -> bool {
        &&& self.accounts == other.accounts
        &&& self.tabs == other.tabs
        &&& self.active_tab == other.active_tab
        &&& self.mode == other.mode
        &&& self.should_quit == other.should_quit
        &&& self.theme == other.theme
        &&& self.config == other.config
        &&& self.show_detail == other.show_detail
        &&& self.list_height == other.list_height
        &&& self.status == other.status
    }

    /// The tab of the active account, if there is one.
    pub open spec fn current(self) -> Option<TabState> {
        if self.active_tab < self.tabs@.len() {
            Some(self.tabs@[self.active_tab as int])
        } else {
            None
        }
    }

    /// The state at start-up: no accounts yet, the configured theme.
    pub fn new(config: Config) -> (s: Self)
        ensures
            s.wf(),
            s.accounts@.len() == 0,
            s.tabs@.len() == 0,
            s.active_tab == 0,
            s.mode == AppMode::Normal,
            !s.should_quit,
            s.categories@.len() == 0,
            s.theme.index == configured_theme(config.theme),
            s.config == config,
            !s.show_detail,
            s.list_height == 0,
            s.status is None,
    {
        let theme = config.theme_name();
        AppState {
            accounts: Vec::new(),
            tabs: Vec::new(),
            active_tab: 0,
            mode: AppMode::Normal,
            should_quit: false,
            categories: Vec::new(),
            theme,
            config,
            show_detail: false,
            list_height: 0,
            status: None,
        }
    }

    /// Puts a message on the status line.
    pub fn set_status(&mut self, text: String, is_error: bool)
        ensures
            final(self).same_except_status(*old(self)),
            final(self).status matches Some(m) && m.text == text && m.is_error == is_error,
    {
        self.status = Some(StatusMessage { text, is_error });
    }

    /// Clears the status line.
    pub fn clear_status(&mut self)
        ensures
            final(self).same_except_status(*old(self)),
            final(self).status is None,
    {
        self.status = None;
    }

    /// Switches to the next theme of the list, wrapping around.
    pub fn next_theme(&mut self)
        requires
            old(self).wf(),
        ensures
            final(self).wf(),
            final(self).theme.index == cycle_next(old(self).theme.index as int, crate::theme::THEME_COUNT as int),
            final(self).same_except_theme_and_status(*old(self)),
            final(self).status == old(self).status,
    {
        self.theme = self.theme.next();
    }

    /// Switches to the previous theme of the list, wrapping around.
    pub fn prev_theme(&mut self)
        requires
            old(self).wf(),
        ensures
            final(self).wf(),
            final(self).theme.index == cycle_prev(old(self).theme.index as int, crate::theme::THEME_COUNT as int),
            final(self).same_except_theme_and_status(*old(self)),
            final(self).status == old(self).status,
    {
        self.theme = self.theme.prev();
    }

    /// Replaces the accounts, gives each a fresh tab, and makes the first
    /// one active.
    pub fn set_accounts(&mut self, accounts: Vec<Account>)
        requires
            old(self).wf(),
        ensures
            final(self).wf(),
            final(self).accounts == accounts,
            final(self).tabs@.len() == accounts@.len(),
            forall|i: int| 0 <= i < accounts@.len() ==> {
                let t = #[trigger] final(self).tabs@[i];
                t.transactions is None && t.selected == 0 && !t.loading
            },
            final(self).active_tab == 0,
            final(self).same_settings(*old(self)),
            final(self).status == old(self).status,
    {
        let n = accounts.len();
        let mut tabs: Vec<TabState> = Vec::new();
        for i in 0..n
            invariant
                tabs@.len() == i,
                forall|j: int| 0 <= j < i ==> {
                    let t = #[trigger] tabs@[j];
                    t.transactions is None && t.selected == 0 && !t.loading
                },
        {
            tabs.push(TabState::new());
        }
        self.tabs = tabs;
        self.accounts = accounts;
        self.active_tab = 0;
    }

    /// The tab of the active account, if there is one.
    pub fn current_tab(&self) -> (t: Option<&TabState>)
        ensures
            match self.current() {
                Some(c) => t matches Some(r) && *r == c,
                None => t is None,
            },
    {
        if self.active_tab < self.tabs.len() {
            Some(&self.tabs[self.active_tab])
        } else {
            None
        }
    }

    /// The tab of the active account, for changing it in place.
    pub fn current_tab_mut(&mut self) -> (t: Option<&mut TabState>)
        ensures
            match old(self).current() {
                Some(c) => t matches Some(r) && *r == c
                    && final(self).tabs@ == old(self).tabs@.update(old(self).active_tab as int, *final(r))
                    && final(self).same_except_tabs(*old(self)),
                None => t is None && *final(self) == *old(self),
            },
    {
        let i = self.active_tab;
        if i < self.tabs.len() {
            Some(&mut self.tabs[i])
        } else {
            None
        }
    }

    /// Makes the next account active, wrapping around; nothing changes when
    /// there are no accounts.
    pub fn next_tab(&mut self)
        requires
            old(self).wf(),
        ensures
            final(self).wf(),
            final(self).active_tab == (if old(self).accounts@.len() == 0 {
                old(self).active_tab as int
            } else {
                tab_after(old(self).active_tab as int, old(self).accounts@.len() as int)
            }),
            final(self).same_except_active_tab(*old(self)),
    {
        let n = self.accounts.len();
        if n > 0 {
            self.active_tab = (self.active_tab + 1) % n;
        }
    }

    /// Makes the previous account active, wrapping around; nothing changes
    /// when there are no accounts.
    pub fn prev_tab(&mut self)
        requires
            old(self).wf(),
        ensures
            final(self).wf(),
            final(self).active_tab == (if old(self).accounts@.len() == 0 {
                old(self).active_tab as int
            } else {
                tab_before(old(self).active_tab as int, old(self).accounts@.len() as int)
            }),
            final(self).same_except_active_tab(*old(self)),
    {
        let n = self.accounts.len();
        if n > 0 {
            self.active_tab = if self.active_tab == 0 {
                n - 1
            } else {
                self.active_tab - 1
            };
        }
    }

    /// The display name of a category: the name stored last for `id`, else
    /// `id` itself.
    pub fn category_name<'a>(&'a self, id: &'a str) -> (name: &'a str)
        ensures
            name@ == match category_lookup(self.categories@, id@) {
                Some(n) => n,
                None => id@,
            },
    {
        let n = self.categories.len();
        let target = String::from_str(id);
        let mut i = n;
        assert(self.categories@.subrange(0, n as int) =~= self.categories@);
        while i > 0
            invariant
                target@ == id@,
                i <= n,
                n == self.categories@.len(),
                category_lookup(self.categories@, id@) == category_lookup(self.categories@.subrange(0, i as int), id@),
            decreases i,
        {
            let entry = &self.categories[i - 1];
            proof {
                let pre = self.categories@.subrange(0, i as int);
                assert(pre.last() == self.categories@[i - 1]);
                assert(pre.drop_last() =~= self.categories@.subrange(0, i - 1));
            }
            if entry.0 == target {
                return entry.1.as_str();
            }
            i = i - 1;
        }
        id
    }

    /// Records the height of the area that the transaction list is drawn
    /// in: the number of two-row items that fit inside its border.
    pub fn set_list_area(&mut self, height: u16)
        ensures
            final(self).list_height == list_page_height(height),
            final(self).same_except_list_height(*old(self)),
    {
        self.list_height = height.saturating_sub(2) / 2;
    }

    /// Sets the selection of the active tab.
    pub(crate) fn set_selected_at_active(&mut self, selected: usize)
        requires
            old(self).active_tab < old(self).tabs@.len(),
        ensures
            final(self).same_except_tabs(*old(self)),
            final(self).tabs@ == old(self).tabs@.update(
                old(self).active_tab as int,
                old(self).tabs@[old(self).active_tab as int].with_selected(selected),
            ),
            old(self).wf() ==> final(self).wf(),
    {
        let i = self.active_tab;
        self.tabs[i].selected = selected;
    }
}

} // verus!
