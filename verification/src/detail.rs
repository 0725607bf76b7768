//! The detail pane: the labelled fields shown for the selected
//! transaction.

use vstd::prelude::*;

use crate::clock::{local_datetime_text};
use crate::models::{status_label, Cashback, CardPurchaseMethod, Transaction, RoundUp};
use crate::money::{money_display, MoneyObject};
use crate::state::{category_lookup, AppState};
use crate::text::{joined, join};

verus! {

/// How the value of a field is coloured.
#[derive(Clone, Copy, Debug, PartialEq, Eq, Structural)]
pub enum FieldStyle {
    /// Ordinary text.
    Value,
    /// An amount of zero or more.
    Credit,
    /// An amount below zero.
    Debit,
}

/// One line of the detail pane.
pub struct DetailField {
    pub label: String,
    pub value: String,
    pub style: FieldStyle,
}

/// A field as label, value and style.
pub type Row = (Seq<char>, Seq<char>, FieldStyle);

/// The fields as label, value and style.
pub open spec fn field_rows(v: Seq<DetailField>) -> Seq<Row> {
    v.map_values(|f: DetailField| (f.label@, f.value@, f.style))
}

/// A field for an optional text, present when the text is.
pub open spec fn optional_row(label: Seq<char>, value: Option<Seq<char>>) -> Seq<Row> {
    match value {
        Some(v) => seq![(label, v, FieldStyle::Value)],
        None => Seq::empty(),
    }
}

/// The text of an optional string.
pub open spec fn opt_text(s: Option<String>) -> Option<Seq<char>> {
    match s {
        Some(t) => Some(t@),
        None => None,
    }
}

/// The colour of an amount: credit for zero or more, debit below.
pub open spec fn amount_style(m: MoneyObject) -> FieldStyle {
    if m.value_in_base_units >= 0 { FieldStyle::Credit } else { FieldStyle::Debit }
}

/// The foreign amount as `<value> <currency>`.
pub open spec fn foreign_rows(f: Option<MoneyObject>) -> Seq<Row> {
    match f {
        Some(m) => seq![("Foreign Amount"@, m.value@ + " "@ + m.currency_code@, FieldStyle::Value)],
        None => Seq::empty(),
    }
}

/// The round-up amount, then the boosted part of it when there is one.
pub open spec fn round_up_rows(r: Option<RoundUp>) -> Seq<Row> {
    match r {
        Some(ru) => seq![("Round Up"@, ru.amount.value@, FieldStyle::Value)] + match ru.boost_portion {
            Some(b) => seq![("Boost Portion"@, b.value@, FieldStyle::Value)],
            None => Seq::empty(),
        },
        None => Seq::empty(),
    }
}

/// The cashback as `<value> (<description>)`.
pub open spec fn cashback_rows(c: Option<Cashback>) -> Seq<Row> {
    match c {
        Some(cb) => seq![("Cashback"@, cb.amount.value@ + " ("@ + cb.description@ + ")"@, FieldStyle::Value)],
        None => Seq::empty(),
    }
}

/// The card method as `<method> (****<suffix>)`, with `****` for an
/// unknown suffix.
pub open spec fn card_rows(c: Option<CardPurchaseMethod>) -> Seq<Row> {
    match c {
        Some(card) => {
            let suffix = match card.card_number_suffix {
                Some(s) => s@,
                None => "****"@,
            };
            seq![("Card Method"@, card.method@ + " (****"@ + suffix + ")"@, FieldStyle::Value)]
        },
        None => Seq::empty(),
    }
}

/// The display name of a category identifier.
pub open spec fn name_of(cats: Seq<(String, String)>, id: Seq<char>) -> Seq<char> {
    match category_lookup(cats, id) {
        Some(n) => n,
        None => id,
    }
}

/// The category as `<parent> / <category>`, or whichever of the two is
/// known.
pub open spec fn category_rows(t: Transaction, cats: Seq<(String, String)>) -> Seq<Row> {
    match (t.parent_category, t.category) {
        (Some(p), Some(c)) => seq![("Category"@, name_of(cats, p@) + " / "@ + name_of(cats, c@), FieldStyle::Value)],
        (None, Some(c)) => seq![("Category"@, name_of(cats, c@), FieldStyle::Value)],
        (Some(p), None) => seq![("Category"@, name_of(cats, p@), FieldStyle::Value)],
        (None, None) => Seq::empty(),
    }
}

/// The tags separated by commas, when there are any.
pub open spec fn tag_rows(tags: Seq<String>) -> Seq<Row> {
    if tags.len() > 0 {
        seq![("Tags"@, joined(tags, ", "@), FieldStyle::Value)]
    } else {
        Seq::empty()
    }
}

/// The fields of the detail pane for a transaction, given the texts of its
/// creation and settlement times.
pub open spec fn detail_rows(
    t: Transaction,
    created: Seq<char>,
    settled: Option<Seq<char>>,
    cats: Seq<(String, String)>,
) -> Seq<Row> {
    seq![("Description"@, t.description@, FieldStyle::Value)]
        + optional_row("Raw Text"@, opt_text(t.raw_text))
        + seq![("Amount"@, money_display(t.amount.value_in_base_units as int, true), amount_style(t.amount))]
        + seq![("Status"@, status_label(t.status), FieldStyle::Value)]
        + seq![("Created"@, created, FieldStyle::Value)]
        + optional_row("Settled"@, settled)
        + optional_row("Message"@, opt_text(t.message))
        + foreign_rows(t.foreign_amount)
        + round_up_rows(t.round_up)
        + cashback_rows(t.cashback)
        + card_rows(t.card_purchase_method)
        + category_rows(t, cats)
        + tag_rows(t.tags@)
}

fn push_field(v: &mut Vec<DetailField>, label: String, value: String, style: FieldStyle)
    ensures
        field_rows(final(v)@) == field_rows(old(v)@).push((label@, value@, style)),
{
    let ghost l = label@;
    let ghost x = value@;
    v.push(DetailField { label, value, style });
    assert(field_rows(v@) =~= field_rows(old(v)@).push((l, x, style)));
}

fn lit(s: &str) -> (r: String)
    ensures
        r@ == s@,
{
    String::from_str(s)
}

fn concat3(a: &str, b: &str, c: &str) -> (r: String)
    ensures
        r@ == a@ + b@ + c@,
{
    let mut r = String::from_str(a);
    r.append(b);
    r.append(c);
    r
}

fn push_optional(v: &mut Vec<DetailField>, label: &str, value: &Option<String>)
    ensures
        field_rows(final(v)@) == field_rows(old(v)@) + optional_row(label@, opt_text(*value)),
{
    match value {
        Some(x) => push_field(v, lit(label), x.clone(), FieldStyle::Value),
        None => {},
    }
    assert(field_rows(v@) =~= field_rows(old(v)@) + optional_row(label@, opt_text(*value)));
}

fn push_foreign(v: &mut Vec<DetailField>, f: &Option<MoneyObject>)
    ensures
        field_rows(final(v)@) == field_rows(old(v)@) + foreign_rows(*f),
{
    match f {
        Some(m) => push_field(v, lit("Foreign Amount"), concat3(m.value.as_str(), " ", m.currency_code.as_str()), FieldStyle::Value),
        None => {},
    }
    assert(field_rows(v@) =~= field_rows(old(v)@) + foreign_rows(*f));
}

fn push_round_up(v: &mut Vec<DetailField>, r: &Option<RoundUp>)
    ensures
        field_rows(final(v)@) == field_rows(old(v)@) + round_up_rows(*r),
{
    match r {
        Some(ru) => {
            push_field(v, lit("Round Up"), ru.amount.value.clone(), FieldStyle::Value);
            match &ru.boost_portion {
                Some(b) => push_field(v, lit("Boost Portion"), b.value.clone(), FieldStyle::Value),
                None => {},
            }
        },
        None => {},
    }
    assert(field_rows(v@) =~= field_rows(old(v)@) + round_up_rows(*r));
}

fn push_cashback(v: &mut Vec<DetailField>, c: &Option<Cashback>)
    ensures
        field_rows(final(v)@) == field_rows(old(v)@) + cashback_rows(*c),
{
    match c {
        Some(cb) => {
            let mut value = concat3(cb.amount.value.as_str(), " (", cb.description.as_str());
            value.append(")");
            push_field(v, lit("Cashback"), value, FieldStyle::Value);
        },
        None => {},
    }
    assert(field_rows(v@) =~= field_rows(old(v)@) + cashback_rows(*c));
}

fn push_card(v: &mut Vec<DetailField>, c: &Option<CardPurchaseMethod>)
    ensures
        field_rows(final(v)@) == field_rows(old(v)@) + card_rows(*c),
{
    match c {
        Some(card) => {
            let suffix: &str = match &card.card_number_suffix {
                Some(s) => s.as_str(),
                None => "****",
            };
            let mut value = concat3(card.method.as_str(), " (****", suffix);
            value.append(")");
            push_field(v, lit("Card Method"), value, FieldStyle::Value);
        },
        None => {},
    }
    assert(field_rows(v@) =~= field_rows(old(v)@) + card_rows(*c));
}

fn push_category(v: &mut Vec<DetailField>, t: &Transaction, state: &AppState)
    ensures
        field_rows(final(v)@) == field_rows(old(v)@) + category_rows(*t, state.categories@),
{
    match (&t.parent_category, &t.category) {
        (Some(p), Some(c)) => {
            let value = concat3(state.category_name(p.as_str()), " / ", state.category_name(c.as_str()));
            push_field(v, lit("Category"), value, FieldStyle::Value);
        },
        (None, Some(c)) => push_field(v, lit("Category"), lit(state.category_name(c.as_str())), FieldStyle::Value),
        (Some(p), None) => push_field(v, lit("Category"), lit(state.category_name(p.as_str())), FieldStyle::Value),
        (None, None) => {},
    }
    assert(field_rows(v@) =~= field_rows(old(v)@) + category_rows(*t, state.categories@));
}

fn push_tags(v: &mut Vec<DetailField>, tags: &Vec<String>)
    ensures
        field_rows(final(v)@) == field_rows(old(v)@) + tag_rows(tags@),
{
    if tags.len() > 0 {
        push_field(v, lit("Tags"), join(tags, ", "), FieldStyle::Value);
    }
    assert(field_rows(v@) =~= field_rows(old(v)@) + tag_rows(tags@));
}

/// The fields of the detail pane for `t`, given the texts of its creation
/// and settlement times; category names come from the state.
pub fn transaction_fields(
    t: &Transaction,
    created: String,
    settled: Option<String>,
    state: &AppState,
) -> (v: Vec<DetailField>)
    ensures
        field_rows(v@) == detail_rows(*t, created@, opt_text(settled), state.categories@),
{
    let mut v: Vec<DetailField> = Vec::new();
    push_field(&mut v, lit("Description"), t.description.clone(), FieldStyle::Value);
    push_optional(&mut v, "Raw Text", &t.raw_text);
    let style = if t.amount.value_in_base_units >= 0 { FieldStyle::Credit } else { FieldStyle::Debit };
    push_field(&mut v, lit("Amount"), t.amount.format_display(true), style);
    push_field(&mut v, lit("Status"), t.status.label(), FieldStyle::Value);
    push_field(&mut v, lit("Created"), created, FieldStyle::Value);
    push_optional(&mut v, "Settled", &settled);
    push_optional(&mut v, "Message", &t.message);
    push_foreign(&mut v, &t.foreign_amount);
    push_round_up(&mut v, &t.round_up);
    push_cashback(&mut v, &t.cashback);
    push_card(&mut v, &t.card_purchase_method);
    push_category(&mut v, t, state);
    push_tags(&mut v, &t.tags);
    assert(field_rows(v@) =~= detail_rows(*t, created@, opt_text(settled), state.categories@));
    v
}

/// The transaction selected in the active tab, if the tab has one loaded
/// at its selection.
pub open spec fn selected_transaction(state: AppState) -> Option<Transaction> {
    match state.current() {
        Some(tab) => match tab.transactions {
            Some(v) => if tab.selected < v@.len() { Some(v@[tab.selected as int]) } else { None },
            None => None,
        },
        None => None,
    }
}

/// `settled` is what `local_datetime_text` returned for the settlement
/// time, when there is one; none otherwise.
pub open spec fn settled_text_of(settled_at: Option<jiff::Timestamp>, settled: Option<String>) -> bool {
    match (settled_at, settled) {
        (Some(ts), Some(x)) => call_ensures(local_datetime_text, (&ts,), x),
        (None, None) => true,
        _ => false,
    }
}

/// The fields of the detail pane for the selected transaction, with its
/// times as `local_datetime_text` shows them in the system time zone;
/// `None` when no transaction is selected.  What the time texts read
/// depends on the machine's time zone; which instant each is made from is
/// fixed.
pub fn detail_fields(state: &AppState) -> (r: Option<Vec<DetailField>>)
    ensures
        match selected_transaction(*state) {
            None => r is None,
            Some(t) => r matches Some(v) && exists|created: String, settled: Option<String>|
                #[trigger] detail_rows(t, created@, opt_text(settled), state.categories@) == field_rows(v@)
                && call_ensures(local_datetime_text, (&t.created_at,), created)
                && settled_text_of(t.settled_at, settled),
        },
{
    let tab = match state.current_tab() {
        Some(t) => t,
        None => return None,
    };
    let txns = match &tab.transactions {
        Some(v) => v,
        None => return None,
    };
    if tab.selected >= txns.len() {
        return None;
    }
    let t = &txns[tab.selected];
    let created = local_datetime_text(&t.created_at);
    let settled = match &t.settled_at {
        Some(ts) => Some(local_datetime_text(ts)),
        None => None,
    };
    let ghost c = created;
    let ghost st = settled;
    assert(settled_text_of(t.settled_at, st));
    let v = transaction_fields(t, created, settled, state);
    assert(detail_rows(*t, c@, opt_text(st), state.categories@) == field_rows(v@));
    Some(v)
}

} // verus!
