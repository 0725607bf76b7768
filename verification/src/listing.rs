//! The transaction list: its title, the day headers between
//! transactions of different days, the text of each entry, and the line
//! that the selection falls on.

use vstd::prelude::*;

use crate::clock::{local_day_label, local_time_text, LocalDate};
use crate::days::{dates_of, local_dates};
use crate::money::money_display;
use crate::state::{AppState, TabState};
use crate::text::{minus_or_zero, pad_right, pad_right_spec, str_len, truncated, truncated_spec};

verus! {

/// What the list area shows for the active tab: its title, and whether
/// transactions are listed under it (otherwise the area stays empty).
pub open spec fn list_title_spec(tab: Option<TabState>) -> (Seq<char>, bool) {
    match tab {
        Some(t) => if t.loading && t.transactions is None {
            (" Transactions - Loading... "@, false)
        } else {
            match t.transactions {
                Some(v) => if v@.len() > 0 {
                    if t.loading {
                        (" Transactions - Refreshing... "@, true)
                    } else {
                        (" Transactions "@, true)
                    }
                } else {
                    (" Transactions - No transactions "@, false)
                },
                None => (" Transactions "@, false),
            }
        },
        None => (" Transactions "@, false),
    }
}

/// The title of the list area, and whether transactions are listed.
pub fn list_title(tab: Option<&TabState>) -> (r: (String, bool))
    ensures
        r.0@ == list_title_spec(match tab { Some(t) => Some(*t), None => None }).0,
        r.1 == list_title_spec(match tab { Some(t) => Some(*t), None => None }).1,
{
    match tab {
        Some(t) => {
            if t.loading && t.transactions.is_none() {
                (String::from_str(" Transactions - Loading... "), false)
            } else {
                match &t.transactions {
                    Some(v) => {
                        if v.len() > 0 {
                            if t.loading {
                                (String::from_str(" Transactions - Refreshing... "), true)
                            } else {
                                (String::from_str(" Transactions "), true)
                            }
                        } else {
                            (String::from_str(" Transactions - No transactions "), false)
                        }
                    },
                    None => (String::from_str(" Transactions "), false),
                }
            }
        },
        None => (String::from_str(" Transactions "), false),
    }
}

/// A line of the list: a day header before the transaction at a position,
/// or the entry of the transaction at a position.
#[derive(Clone, Copy, Debug, PartialEq, Eq, Structural)]
pub enum ListRow {
    DayHeader(usize),
    Entry(usize),
}

/// The transaction at `i` starts a new day: it is the first, or its date
/// differs from the date of the one before.
pub open spec fn starts_day(d: Seq<LocalDate>, i: int) -> bool {
    i == 0 || d[i] != d[i - 1]
}

/// The lines for the first `n` transactions: each is preceded by a day
/// header when it starts a new day.
pub open spec fn row_layout(d: Seq<LocalDate>, n: int) -> Seq<ListRow>
    decreases n,
{
    if n <= 0 {
        Seq::empty()
    } else {
        row_layout(d, n - 1) + (if starts_day(d, n - 1) {
            seq![ListRow::DayHeader((n - 1) as usize)]
        } else {
            Seq::empty()
        }) + seq![ListRow::Entry((n - 1) as usize)]
    }
}

/// The lines of the list for transactions with dates `d`, and for each
/// transaction the line of its entry.
pub fn layout_rows(d: &Vec<LocalDate>) -> (r: (Vec<ListRow>, Vec<usize>))
    ensures
        r.0@ == row_layout(d@, d@.len() as int),
        r.1@.len() == d@.len(),
        forall|i: int| 0 <= i < d@.len() ==> #[trigger] r.1@[i] < r.0@.len() && r.0@[r.1@[i] as int] == ListRow::Entry(i as usize),
        forall|i: int| 0 <= i < d@.len() ==> #[trigger] r.1@[i] == row_layout(d@, i + 1).len() - 1,
        forall|j: int| 0 <= j < r.0@.len() ==> match #[trigger] r.0@[j] {
            ListRow::DayHeader(i) => i < d@.len(),
            ListRow::Entry(i) => i < d@.len(),
        },
{
    let n = d.len();
    let mut rows: Vec<ListRow> = Vec::new();
    let mut index: Vec<usize> = Vec::new();
    for i in 0..n
        invariant
            n == d@.len(),
            rows@ == row_layout(d@, i as int),
            index@.len() == i,
            forall|k: int| 0 <= k < i ==> #[trigger] index@[k] < rows@.len() && rows@[index@[k] as int] == ListRow::Entry(k as usize),
            forall|k: int| 0 <= k < i ==> #[trigger] index@[k] == row_layout(d@, k + 1).len() - 1,
            forall|j: int| 0 <= j < rows@.len() ==> match #[trigger] rows@[j] {
                ListRow::DayHeader(x) => x < i,
                ListRow::Entry(x) => x < i,
            },
    {
        let ghost before = rows@;
        if i == 0 || d[i] != d[i - 1] {
            rows.push(ListRow::DayHeader(i));
        }
        index.push(rows.len());
        rows.push(ListRow::Entry(i));
        assert(rows@ =~= row_layout(d@, i + 1));
        assert forall|k: int| 0 <= k < i + 1 implies #[trigger] index@[k] < rows@.len() && rows@[index@[k] as int] == ListRow::Entry(k as usize) by {
            if k < i {
                assert(rows@[index@[k] as int] == before[index@[k] as int]);
            }
        }
    }
    (rows, index)
}

/// The line that the selection falls on: the line of the selected entry,
/// or the first line when the selection is past the end.
pub open spec fn selected_line_spec(index: Seq<usize>, selected: int) -> int {
    if 0 <= selected < index.len() { index[selected] as int } else { 0 }
}

/// The line that the selection falls on.
pub fn selected_line(index: &Vec<usize>, selected: usize) -> (l: usize)
    ensures
        l == selected_line_spec(index@, selected as int),
{
    if selected < index.len() { index[selected] } else { 0 }
}

/// The width inside the border and the selection marker of an area
/// `width` columns wide.
pub open spec fn inner_width_spec(width: u16) -> int {
    minus_or_zero(width as int, 4) as int
}

/// The width inside the border and the selection marker.
pub fn inner_width(width: u16) -> (w: usize)
    ensures
        w == inner_width_spec(width),
{
    width.saturating_sub(4) as usize
}

/// The description of an entry, cut so that it and the amount fit in
/// `inner` columns with a space between.
pub open spec fn entry_description(desc: Seq<char>, amount: Seq<char>, inner: int) -> Seq<char> {
    truncated_spec(desc, minus_or_zero(inner, str_len(amount) + 1))
}

/// The spaces between description and amount, filling the line to
/// `inner` columns (counted in bytes, as the list measures them).
pub open spec fn entry_padding(description: Seq<char>, amount: Seq<char>, inner: int) -> int {
    minus_or_zero(inner, str_len(description) + str_len(amount)) as int
}

/// The description of an entry and the spaces before its amount.
pub fn entry_text(desc: &str, amount: &str, inner: usize) -> (r: (String, usize))
    ensures
        r.0@ == entry_description(desc@, amount@, inner as int),
        r.1 == entry_padding(r.0@, amount@, inner as int),
{
    let amount_len = amount.len();
    let max_desc_len = if amount_len < inner { inner - amount_len - 1 } else { 0 };
    let d = truncated(desc, max_desc_len);
    let dl = d.as_str().len();
    let padding = if dl < inner { (inner - dl).saturating_sub(amount_len) } else { 0 };
    (d, padding)
}

/// Upper case of a text, as `str::to_uppercase` gives it.
pub uninterp spec fn upper_text(s: Seq<char>) -> Seq<char>;

/// The text in upper case.
/// Trusted: `str::to_uppercase`, whose result depends on the text alone.
#[verifier::external_body]
fn to_upper(s: &str) -> (r: String)
    ensures
        r@ == upper_text(s@),
{
    s.to_uppercase()
}

/// The header of a day: its label in upper case, padded to `inner` columns.
pub fn day_header_text(label: &str, inner: usize) -> (r: String)
    ensures
        r@ == pad_right_spec(upper_text(label@), inner as nat),
{
    let upper = to_upper(label);
    pad_right(upper.as_str(), inner)
}

/// A line of the list as shown: a day header, or an entry with its
/// description, the spaces before its amount, the amount, whether the
/// amount is a credit, and the time of day.
pub enum ListLine {
    DayHeader { text: String },
    Entry { description: String, padding: usize, amount: String, credit: bool, time: String },
}

/// What the list area shows.
pub struct TransactionList {
    pub title: String,
    pub lines: Option<Vec<ListLine>>,
    pub selected_line: usize,
}

/// `lines` lists `txns` for the dates `d` that `local_date` gave for
/// their creation times: one line per entry of the layout.  A header holds
/// the day label that `local_day_label` gave for the creation time of the
/// transaction it precedes (`labels[k]`), upper-cased and padded to the
/// width; an entry holds the cut description, the amount (without a minus
/// sign), the padding between them, whether the amount is a credit, and
/// the time that `local_time_text` gave for its creation time.
pub open spec fn lines_ok(
    txns: Seq<crate::models::Transaction>,
    lines: Seq<ListLine>,
    d: Seq<LocalDate>,
    labels: Seq<String>,
    inner: int,
) -> bool {
    let layout = row_layout(d, txns.len() as int);
    &&& dates_of(txns, d)
    &&& labels.len() == layout.len()
    &&& lines.len() == layout.len()
    &&& forall|k: int| 0 <= k < layout.len() ==> match #[trigger] layout[k] {
        ListRow::DayHeader(i) => lines[k] matches ListLine::DayHeader { text }
            && call_ensures(local_day_label, (&txns[i as int].created_at,), labels[k])
            && text@ == pad_right_spec(upper_text(labels[k]@), inner as nat),
        ListRow::Entry(i) => {
            let t = txns[i as int];
            let amount = money_display(t.amount.value_in_base_units as int, false);
            lines[k] matches ListLine::Entry { description, padding, amount: a, credit, time }
                && a@ == amount
                && description@ == entry_description(t.description@, amount, inner)
                && padding == entry_padding(description@, amount, inner)
                && credit == (t.amount.value_in_base_units >= 0)
                && call_ensures(local_time_text, (&t.created_at,), time)
        },
    }
}

/// The lines listed for the active tab of `state` are built by
/// `lines_ok` from some dates and day labels, and `selected` is the line
/// of the selected entry (the first line when the selection is past the
/// end).
pub open spec fn listed_ok(state: AppState, width: u16, lines: Seq<ListLine>, selected: usize) -> bool {
    state.current() matches Some(t) && t.transactions matches Some(txns)
        && exists|d: Seq<LocalDate>, labels: Seq<String>|
            #[trigger] lines_ok(txns@, lines, d, labels, inner_width_spec(width))
            && selected == (if t.selected < txns@.len() {
                row_layout(d, t.selected + 1).len() - 1
            } else {
                0
            })
}

/// The list area for the active tab, for an area `width` columns wide:
/// the title; when transactions are listed, one line per entry of the day
/// layout for their local dates; and the line of the selected entry.  What
/// the dates, day labels and times are depends on the machine's time zone;
/// the contract fixes which instant each is read from and how the lines
/// are built from them.
pub fn transaction_list(state: &AppState, width: u16) -> (l: TransactionList)
    ensures
        l.title@ == list_title_spec(state.current()).0,
        l.lines is Some <==> list_title_spec(state.current()).1,
        l.lines matches Some(lines) ==> listed_ok(*state, width, lines@, l.selected_line),
        l.lines is None ==> l.selected_line == 0,
{
    let tab = state.current_tab();
    let (title, shows) = list_title(tab);
    if !shows {
        return TransactionList { title, lines: None, selected_line: 0 };
    }
    let t = match tab {
        Some(t) => t,
        None => return TransactionList { title, lines: None, selected_line: 0 },
    };
    let txns = match &t.transactions {
        Some(v) => v,
        None => return TransactionList { title, lines: None, selected_line: 0 },
    };
    let inner = inner_width(width);
    let dates = local_dates(txns);
    let (rows, index) = layout_rows(&dates);
    let mut lines: Vec<ListLine> = Vec::new();
    let n = rows.len();
    let ghost mut labels: Seq<String> = Seq::empty();
    for k in 0..n
        invariant
            n == rows@.len(),
            rows@ == row_layout(dates@, txns@.len() as int),
            dates_of(txns@, dates@),
            labels.len() == k,
            lines@.len() == k,
            inner == inner_width_spec(width),
            forall|j: int| 0 <= j < k ==> match #[trigger] rows@[j] {
                ListRow::DayHeader(i) => lines@[j] matches ListLine::DayHeader { text }
                    && call_ensures(local_day_label, (&txns@[i as int].created_at,), labels[j])
                    && text@ == pad_right_spec(upper_text(labels[j]@), inner as nat),
                ListRow::Entry(i) => {
                    let t = txns@[i as int];
                    let amount = money_display(t.amount.value_in_base_units as int, false);
                    lines@[j] matches ListLine::Entry { description, padding, amount: a, credit, time }
                        && a@ == amount
                        && description@ == entry_description(t.description@, amount, inner as int)
                        && padding == entry_padding(description@, amount, inner as int)
                        && credit == (t.amount.value_in_base_units >= 0)
                        && call_ensures(local_time_text, (&t.created_at,), time)
                },
            },
            forall|j: int| 0 <= j < n ==> match #[trigger] rows@[j] {
                ListRow::DayHeader(i) => i < txns@.len(),
                ListRow::Entry(i) => i < txns@.len(),
            },
    {
        let ghost lines_before = lines@;
        match rows[k] {
            ListRow::DayHeader(i) => {
                let label = local_day_label(&txns[i].created_at);
                proof {
                    labels = labels.push(label);
                }
                let text = day_header_text(label.as_str(), inner);
                lines.push(ListLine::DayHeader { text });
            },
            ListRow::Entry(i) => {
                let txn = &txns[i];
                let amount = txn.amount.format_display(false);
                let (description, padding) = entry_text(txn.description.as_str(), amount.as_str(), inner);
                let time = local_time_text(&txn.created_at);
                let credit = txn.amount.value_in_base_units >= 0;
                proof {
                    labels = labels.push(time);
                }
                lines.push(ListLine::Entry { description, padding, amount, credit, time });
            },
        }
    }
    let selected_line = selected_line(&index, t.selected);
    assert(lines_ok(txns@, lines@, dates@, labels, inner_width_spec(width)));
    assert(state.current() == Some(*t));
    assert(selected_line == (if t.selected < txns@.len() {
        row_layout(dates@, t.selected + 1).len() - 1
    } else {
        0
    }));
    assert(listed_ok(*state, width, lines@, selected_line));
    TransactionList { title, lines: Some(lines), selected_line }
}

/// The title of an account's tab: ` <name> <balance> `.
pub open spec fn tab_title_spec(name: Seq<char>, balance: Seq<char>) -> Seq<char> {
    " "@ + name + " "@ + balance + " "@
}

/// The title of an account's tab, given the text of its balance.
pub fn tab_title(name: &str, balance: &str) -> (s: String)
    ensures
        s@ == tab_title_spec(name@, balance@),
{
    let mut s = String::from_str(" ");
    s.append(name);
    s.append(" ");
    s.append(balance);
    s.append(" ");
    s
}

} // verus!
