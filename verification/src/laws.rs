//! Properties that relate several operations of the library.

use vstd::prelude::*;

use crate::clock::LocalDate;
use crate::handler::{day_jump_ok, event_step, first_page, is_move, key_step, moved_selection, AppEvent, FetchRequest, KeyAction};
use crate::client::{accounts_url_spec, base_url, transactions_url_spec};
use crate::detail::{
    amount_style, card_rows, cashback_rows, category_rows, detail_rows, foreign_rows, opt_text, optional_row,
    round_up_rows, tag_rows, FieldStyle, Row,
};
use crate::models::{
    is_flattening, status_label, Resource, Transaction, TransactionAttributes, TransactionRelationships,
};
use crate::money::{cents_magnitude, dollars_text, money_display};
use crate::text::{decimal, digit_char};
use crate::state::{tab_after, tab_before, AppState, TabState};
use crate::theme::{cycle_next, cycle_prev, ThemeId, THEME_COUNT};

verus! {

/// Switching to the next account and then to the previous one (or the
/// other way round) comes back to the account one started from.
pub proof fn law_prev_tab_undoes_next_tab(s: AppState)
    requires
        s.wf(),
        s.accounts@.len() > 0,
    ensures
        tab_before(tab_after(s.active_tab as int, s.accounts@.len() as int), s.accounts@.len() as int) == s.active_tab,
        tab_after(tab_before(s.active_tab as int, s.accounts@.len() as int), s.accounts@.len() as int) == s.active_tab,
{
    let n = s.accounts@.len();
    let i = s.active_tab as nat;
    lemma_tab_after_value(i, n);
    if i > 0 {
        lemma_tab_after_value((i - 1) as nat, n);
    } else {
        lemma_tab_after_value((n - 1) as nat, n);
    }
}

/// The tab after `i` is `i + 1`, or the first after the last.
proof fn lemma_tab_after_value(i: nat, n: nat)
    requires
        i < n,
    ensures
        tab_after(i as int, n as int) == if i + 1 < n { i + 1 } else { 0 },
{
    if i + 1 < n {
        vstd::arithmetic::div_mod::lemma_small_mod((i + 1) as nat, n);
    } else {
        vstd::arithmetic::div_mod::lemma_mod_self_0(n as int);
    }
}

/// Switching to the next account always lands on an account.
pub proof fn law_tab_steps_stay_on_accounts(s: AppState)
    requires
        s.wf(),
        s.accounts@.len() > 0,
    ensures
        0 <= tab_after(s.active_tab as int, s.accounts@.len() as int) < s.accounts@.len(),
        0 <= tab_before(s.active_tab as int, s.accounts@.len() as int) < s.accounts@.len(),
{
    lemma_tab_after_value(s.active_tab as nat, s.accounts@.len());
}

/// Cycling to the next theme and back to the previous one (or the other
/// way round) comes back to the theme one started from.
pub proof fn law_prev_theme_undoes_next_theme(t: ThemeId)
    requires
        t.valid(),
    ensures
        cycle_prev(cycle_next(t.index as int, THEME_COUNT as int), THEME_COUNT as int) == t.index,
        cycle_next(cycle_prev(t.index as int, THEME_COUNT as int), THEME_COUNT as int) == t.index,
{
}

/// Toggling the detail pane twice restores the state.
pub proof fn law_detail_toggle_twice(s: AppState)
    ensures
        s.detail_toggled().detail_toggled() == s,
{
}

/// Moving the selection keeps it on a loaded transaction.
pub proof fn law_moves_stay_in_list(t: TabState, a: KeyAction, page: int)
    requires
        is_move(a),
        page >= 0,
        t.txn_count() > 0,
        t.selected < t.txn_count(),
    ensures
        0 <= moved_selection(t, a, page) < t.txn_count(),
{
}

/// Jumping between days keeps the selection on a loaded transaction.
pub proof fn law_day_jumps_stay_in_list(d: Seq<LocalDate>, s: int, forward: bool, target: usize)
    requires
        0 <= s < d.len(),
        day_jump_ok(d, s, forward, target),
    ensures
        target < d.len(),
        forward ==> target >= s,
        !forward ==> target <= s,
{
    if !forward {
        if crate::days::is_previous_day_start(d, s, Some(target)) {
            let p = choose|p: int| #[trigger] crate::days::is_last_other_before(d, s, p)
                && crate::days::is_first_same_upto(d, p, target as int);
            assert(target <= p < s);
        }
    }
}

/// An amount shown with an explicit sign differs from the plain display
/// only by the minus sign of a negative amount.
pub proof fn law_signed_display(cents: int)
    ensures
        cents >= 0 ==> money_display(cents, true) == money_display(cents, false),
        cents < 0 ==> money_display(cents, true) == seq!['-'] + money_display(cents, false),
{
}

/// Every request for transactions that an event leads to names an
/// account, carries that account's identifier, and leaves the account's
/// tab marked as loading.
pub proof fn law_fetches_name_loading_tabs(old: AppState, new: AppState, e: AppEvent, r: FetchRequest)
    requires
        old.wf(),
        event_step(old, new, e, Some(r)),
    ensures
        r.tab_index < new.accounts@.len(),
        r.tab_index < new.tabs@.len(),
        r.account_id == new.accounts@[r.tab_index as int].id,
        r.options == first_page(),
        new.tabs@[r.tab_index as int].loading,
{
}

/// Asking for a refresh while there are accounts always requests the
/// transactions of the active account.
pub proof fn law_refresh_requests_active_account(old: AppState, new: AppState, r: Option<FetchRequest>)
    requires
        old.wf(),
        old.accounts@.len() > 0,
        key_step(old, new, KeyAction::Refresh, r),
    ensures
        r matches Some(req) && req.tab_index == old.active_tab && req.account_id == old.accounts@[old.active_tab as int].id,
        new.tabs@[old.active_tab as int].loading,
{
}

/// Switching to the next or previous account when its tab already holds
/// loaded transactions and is not loading asks for nothing and leaves
/// every tab as it was: only the active tab and the status line change.
pub proof fn law_switch_to_loaded_tab_fetches_nothing(
    old: AppState,
    new: AppState,
    forward: bool,
    r: Option<FetchRequest>,
)
    requires
        old.wf(),
        old.accounts@.len() > 0,
        key_step(old, new, if forward { KeyAction::NextTab } else { KeyAction::PrevTab }, r),
        ({
            let target = if forward { old.tab_after_step() } else { old.tab_before_step() };
            old.tabs@[target].transactions is Some && !old.tabs@[target].loading
        }),
    ensures
        r is None,
        new.tabs == old.tabs,
        new.accounts == old.accounts,
        new.active_tab == (if forward { old.tab_after_step() } else { old.tab_before_step() }),
        new.status is None,
        new.same_settings(old),
{
    lemma_tab_after_value(old.active_tab as nat, old.accounts@.len());
    let target = if forward { old.tab_after_step() } else { old.tab_before_step() };
    vstd::std_specs::vec::axiom_spec_len(&old.tabs);
    assert(0 <= target < old.tabs@.len());
    assert(old.switched_to(target).current() == Some(old.tabs@[target]));
    if forward {
        assert(key_step(old, new, KeyAction::NextTab, r));
    } else {
        assert(key_step(old, new, KeyAction::PrevTab, r));
    }
}

/// A successful load of transactions for an existing tab replaces that
/// tab's transactions with exactly the loaded list, whatever it held
/// before, ends its loading, keeps its selection, and asks for nothing.
pub proof fn law_loaded_transactions_replace_tab(
    old: AppState,
    new: AppState,
    tab_index: usize,
    txns: Vec<Transaction>,
    r: Option<FetchRequest>,
)
    requires
        tab_index < old.tabs@.len(),
        event_step(old, new, AppEvent::TransactionsLoaded { tab_index, result: Ok(txns) }, r),
    ensures
        r is None,
        new.tabs@.len() == old.tabs@.len(),
        new.tabs@[tab_index as int].transactions == Some(txns),
        !new.tabs@[tab_index as int].loading,
        new.tabs@[tab_index as int].selected == old.tabs@[tab_index as int].selected,
        forall|j: int| 0 <= j < old.tabs@.len() && j != tab_index ==> new.tabs@[j] == old.tabs@[j],
{
}

/// The attributes that a flattened transaction carries, put back together.
pub open spec fn attributes_of(t: Transaction) -> TransactionAttributes {
    TransactionAttributes {
        status: t.status,
        raw_text: t.raw_text,
        description: t.description,
        message: t.message,
        amount: t.amount,
        foreign_amount: t.foreign_amount,
        card_purchase_method: t.card_purchase_method,
        settled_at: t.settled_at,
        created_at: t.created_at,
        round_up: t.round_up,
        cashback: t.cashback,
        hold_info: t.hold_info,
        transaction_type: t.transaction_type,
        note: t.note,
        performing_customer: t.performing_customer,
    }
}

/// Flattening a transaction resource loses no attribute: putting the
/// flattened transaction's attributes back together gives the resource's
/// attributes, and its identifier is the resource's.
pub proof fn law_flattening_keeps_attributes(
    r: Resource<TransactionAttributes, TransactionRelationships>,
    t: Transaction,
)
    requires
        is_flattening(r, t),
    ensures
        attributes_of(t) == r.attributes,
        t.id == r.id,
        t.foreign_amount == r.attributes.foreign_amount,
{
}

/// No row of `rows` carries the label `label`.
pub open spec fn lacks_label(rows: Seq<Row>, label: Seq<char>) -> bool {
    forall|k: int| 0 <= k < rows.len() ==> (#[trigger] rows[k]).0 != label
}

proof fn lemma_lacks_label_add(a: Seq<Row>, b: Seq<Row>, label: Seq<char>)
    requires
        lacks_label(a, label),
        lacks_label(b, label),
    ensures
        lacks_label(a + b, label),
{
    assert forall|k: int| 0 <= k < (a + b).len() implies (#[trigger] (a + b)[k]).0 != label by {
        if k < a.len() {
            assert((a + b)[k] == a[k]);
        } else {
            assert((a + b)[k] == b[k - a.len()]);
        }
    }
}

/// The labels of the detail pane other than `Message` differ from it.
proof fn lemma_other_labels()
    ensures
        "Description"@ != "Message"@,
        "Raw Text"@ != "Message"@,
        "Amount"@ != "Message"@,
        "Status"@ != "Message"@,
        "Created"@ != "Message"@,
        "Settled"@ != "Message"@,
        "Foreign Amount"@ != "Message"@,
        "Round Up"@ != "Message"@,
        "Boost Portion"@ != "Message"@,
        "Cashback"@ != "Message"@,
        "Card Method"@ != "Message"@,
        "Category"@ != "Message"@,
        "Tags"@ != "Message"@,
{
    reveal_strlit("Message");
    reveal_strlit("Description");
    reveal_strlit("Raw Text");
    reveal_strlit("Amount");
    reveal_strlit("Status");
    reveal_strlit("Created");
    reveal_strlit("Settled");
    reveal_strlit("Foreign Amount");
    reveal_strlit("Round Up");
    reveal_strlit("Boost Portion");
    reveal_strlit("Cashback");
    reveal_strlit("Card Method");
    reveal_strlit("Category");
    reveal_strlit("Tags");
    assert("Created"@[0] != "Message"@[0]);
    assert("Settled"@[0] != "Message"@[0]);
}

/// The rows before the message carry other labels.
proof fn lemma_head_lacks_message(t: Transaction, created: Seq<char>, settled: Option<Seq<char>>)
    ensures
        lacks_label(
            seq![("Description"@, t.description@, FieldStyle::Value)]
                + optional_row("Raw Text"@, opt_text(t.raw_text))
                + seq![("Amount"@, money_display(t.amount.value_in_base_units as int, true), amount_style(t.amount))]
                + seq![("Status"@, status_label(t.status), FieldStyle::Value)]
                + seq![("Created"@, created, FieldStyle::Value)]
                + optional_row("Settled"@, settled),
            "Message"@,
        ),
{
    lemma_other_labels();
    let m = "Message"@;
    let p1 = seq![("Description"@, t.description@, FieldStyle::Value)];
    let p2 = optional_row("Raw Text"@, opt_text(t.raw_text));
    let p3 = seq![("Amount"@, money_display(t.amount.value_in_base_units as int, true), amount_style(t.amount))];
    let p4 = seq![("Status"@, status_label(t.status), FieldStyle::Value)];
    let p5 = seq![("Created"@, created, FieldStyle::Value)];
    let p6 = optional_row("Settled"@, settled);
    assert(lacks_label(p1, m));
    assert(lacks_label(p2, m));
    assert(lacks_label(p3, m));
    assert(lacks_label(p4, m));
    assert(lacks_label(p5, m));
    assert(lacks_label(p6, m));
    lemma_lacks_label_add(p1, p2, m);
    lemma_lacks_label_add(p1 + p2, p3, m);
    lemma_lacks_label_add(p1 + p2 + p3, p4, m);
    lemma_lacks_label_add(p1 + p2 + p3 + p4, p5, m);
    lemma_lacks_label_add(p1 + p2 + p3 + p4 + p5, p6, m);
}

/// The rows after the message carry other labels.
proof fn lemma_tail_lacks_message(t: Transaction, cats: Seq<(String, String)>)
    ensures
        lacks_label(
            foreign_rows(t.foreign_amount)
                + round_up_rows(t.round_up)
                + cashback_rows(t.cashback)
                + card_rows(t.card_purchase_method)
                + category_rows(t, cats)
                + tag_rows(t.tags@),
            "Message"@,
        ),
{
    lemma_other_labels();
    let m = "Message"@;
    let p1 = foreign_rows(t.foreign_amount);
    let p2 = round_up_rows(t.round_up);
    let p3 = cashback_rows(t.cashback);
    let p4 = card_rows(t.card_purchase_method);
    let p5 = category_rows(t, cats);
    let p6 = tag_rows(t.tags@);
    assert(lacks_label(p1, m));
    assert(lacks_label(p2, m)) by {
        match t.round_up {
            Some(ru) => {
                let b = match ru.boost_portion {
                    Some(x) => seq![("Boost Portion"@, x.value@, FieldStyle::Value)],
                    None => Seq::<Row>::empty(),
                };
                assert(lacks_label(b, m));
                lemma_lacks_label_add(seq![("Round Up"@, ru.amount.value@, FieldStyle::Value)], b, m);
            },
            None => {},
        }
    }
    assert(lacks_label(p3, m));
    assert(lacks_label(p4, m));
    assert(lacks_label(p5, m));
    assert(lacks_label(p6, m));
    lemma_lacks_label_add(p1, p2, m);
    lemma_lacks_label_add(p1 + p2, p3, m);
    lemma_lacks_label_add(p1 + p2 + p3, p4, m);
    lemma_lacks_label_add(p1 + p2 + p3 + p4, p5, m);
    lemma_lacks_label_add(p1 + p2 + p3 + p4 + p5, p6, m);
}

/// The detail pane has a field labelled `Message` exactly when the
/// transaction has a message, and that field shows the message's text.
#[verifier::rlimit(60)]
pub proof fn law_message_field_shows_message(
    t: Transaction,
    created: Seq<char>,
    settled: Option<Seq<char>>,
    cats: Seq<(String, String)>,
)
    ensures
        ({
            let rows = detail_rows(t, created, settled, cats);
            &&& (forall|k: int| 0 <= k < rows.len() && (#[trigger] rows[k]).0 == "Message"@ ==>
                    t.message is Some && rows[k].1 == t.message.unwrap()@)
            &&& (t.message is Some ==> exists|k: int| 0 <= k < rows.len() && (#[trigger] rows[k]).0 == "Message"@)
        }),
{
    let m = "Message"@;
    let a = seq![("Description"@, t.description@, FieldStyle::Value)]
        + optional_row("Raw Text"@, opt_text(t.raw_text))
        + seq![("Amount"@, money_display(t.amount.value_in_base_units as int, true), amount_style(t.amount))]
        + seq![("Status"@, status_label(t.status), FieldStyle::Value)]
        + seq![("Created"@, created, FieldStyle::Value)]
        + optional_row("Settled"@, settled);
    let mid = optional_row("Message"@, opt_text(t.message));
    let b = foreign_rows(t.foreign_amount)
        + round_up_rows(t.round_up)
        + cashback_rows(t.cashback)
        + card_rows(t.card_purchase_method)
        + category_rows(t, cats)
        + tag_rows(t.tags@);
    lemma_head_lacks_message(t, created, settled);
    lemma_tail_lacks_message(t, cats);
    let rows = detail_rows(t, created, settled, cats);
    assert(rows =~= a + mid + b);
    assert forall|k: int| 0 <= k < rows.len() && (#[trigger] rows[k]).0 == m implies
        t.message is Some && rows[k].1 == t.message.unwrap()@ by {
        if k < a.len() {
            assert(rows[k] == a[k]);
        } else if k < a.len() + mid.len() {
            assert(rows[k] == mid[k - a.len()]);
        } else {
            assert(rows[k] == b[k - a.len() - mid.len()]);
        }
    }
    if t.message is Some {
        let k = a.len() as int;
        assert(rows[k] == mid[0]);
    }
}

/// The URL of an account's first page of transactions names the page size
/// asked for: different page sizes give different URLs.
pub proof fn law_transactions_url_keeps_page_size(account_id: Seq<char>, p: u32, q: u32)
    requires
        p != q,
    ensures
        transactions_url_spec(account_id, p, None) != transactions_url_spec(account_id, q, None),
        accounts_url_spec(p, None) != accounts_url_spec(q, None),
{
    let prefix = base_url() + "/accounts/"@ + account_id + "/transactions?page[size]="@;
    lemma_suffix_determines(prefix, decimal(p as nat), decimal(q as nat));
    if decimal(p as nat) == decimal(q as nat) {
        lemma_decimal_injective(p as nat, q as nat);
    }
    let aprefix = base_url() + "/accounts?page[size]="@;
    lemma_suffix_determines(aprefix, decimal(p as nat), decimal(q as nat));
}

/// Equal texts with a common prefix have equal remainders.
proof fn lemma_suffix_determines(prefix: Seq<char>, x: Seq<char>, y: Seq<char>)
    ensures
        prefix + x == prefix + y ==> x == y,
{
    if prefix + x == prefix + y {
        assert(x =~= (prefix + x).subrange(prefix.len() as int, (prefix + x).len() as int));
        assert(y =~= (prefix + y).subrange(prefix.len() as int, (prefix + y).len() as int));
    }
}

proof fn lemma_decimal_len(n: nat)
    ensures
        decimal(n).len() >= 1,
        n >= 10 ==> decimal(n).len() >= 2,
    decreases n,
{
    if n >= 10 {
        lemma_decimal_len(n / 10);
    }
}

/// Different numbers have different decimal representations.
pub proof fn lemma_decimal_injective(a: nat, b: nat)
    requires
        decimal(a) == decimal(b),
    ensures
        a == b,
    decreases a,
{
    lemma_decimal_len(a);
    lemma_decimal_len(b);
    if a < 10 && b < 10 {
        assert(decimal(a)[0] == digit_char(a as int));
    } else if a >= 10 && b >= 10 {
        let da = decimal(a);
        assert(da.last() == digit_char((a % 10) as int));
        assert(decimal(b).last() == digit_char((b % 10) as int));
        assert(da.drop_last() =~= decimal(a / 10));
        assert(decimal(b).drop_last() =~= decimal(b / 10));
        lemma_decimal_injective(a / 10, b / 10);
    } else {
        assert(decimal(a).len() != decimal(b).len());
    }
}

/// The dollar text of a magnitude determines it.
proof fn lemma_dollars_text_injective(a: nat, b: nat)
    requires
        dollars_text(a) == dollars_text(b),
    ensures
        a == b,
{
    let da = decimal(a / 100);
    let db = decimal(b / 100);
    let ta = dollars_text(a);
    let tb = dollars_text(b);
    lemma_decimal_len(a / 100);
    lemma_decimal_len(b / 100);
    assert(ta.len() == da.len() + 4);
    assert(tb.len() == db.len() + 4);
    assert(ta[ta.len() - 1] == digit_char((a % 10) as int));
    assert(tb[tb.len() - 1] == digit_char((b % 10) as int));
    assert(ta[ta.len() - 2] == digit_char(((a % 100) / 10) as int));
    assert(tb[tb.len() - 2] == digit_char(((b % 100) / 10) as int));
    assert(da =~= ta.subrange(1, ta.len() - 3));
    assert(db =~= tb.subrange(1, tb.len() - 3));
    lemma_decimal_injective(a / 100, b / 100);
}

/// Amounts shown with their sign look different whenever they differ.
pub proof fn law_signed_display_distinguishes_amounts(a: int, b: int)
    requires
        money_display(a, true) == money_display(b, true),
    ensures
        a == b,
{
    let sa = money_display(a, true);
    let sb = money_display(b, true);
    assert(sa[0] == (if a >= 0 { '+' } else { '-' }));
    assert(sb[0] == (if b >= 0 { '+' } else { '-' }));
    assert(dollars_text(cents_magnitude(a)) =~= sa.subrange(1, sa.len() as int));
    assert(dollars_text(cents_magnitude(b)) =~= sb.subrange(1, sb.len() as int));
    lemma_dollars_text_injective(cents_magnitude(a), cents_magnitude(b));
}

/// A failed request puts an error on the status line that ends with the
/// text of the failure, and asks for nothing.
pub proof fn law_failures_show_their_text(old: AppState, new: AppState, e: AppEvent, msg: String, r: Option<FetchRequest>)
    requires
        event_step(old, new, e, r),
        match e {
            AppEvent::AccountsLoaded(Err(m)) => m == msg,
            AppEvent::CategoriesLoaded(Err(m)) => m == msg,
            AppEvent::TransactionsLoaded { tab_index, result: Err(m) } => m == msg && tab_index < old.tabs@.len(),
            _ => false,
        },
    ensures
        r is None,
        new.status matches Some(s) && s.is_error && s.text@.len() >= msg@.len()
            && s.text@.subrange(s.text@.len() - msg@.len(), s.text@.len() as int) == msg@,
{
    let t = new.status.unwrap().text@;
    assert(t.subrange(t.len() - msg@.len(), t.len() as int) =~= msg@);
}

} // verus!
