use jiff::Timestamp;
use up_tui::clock::LocalDate;
use up_tui::config::Config;
use up_tui::detail::{detail_fields, transaction_fields, DetailField, FieldStyle};
use up_tui::handler::{handle_event, AppEvent};
use up_tui::listing::{
    day_header_text, entry_text, inner_width, layout_rows, list_title, selected_line, tab_title, transaction_list,
    ListLine, ListRow,
};
use up_tui::models::{Account, CardPurchaseMethod, Cashback, RoundUp, Transaction, TransactionStatus};
use up_tui::money::MoneyObject;
use up_tui::state::{AppState, TabState};
use up_tui::text::{join, pad_right, padded_label, push_decimal, truncated};

fn money(cents: i64, value: &str) -> MoneyObject {
    MoneyObject { currency_code: "AUD".to_string(), value: value.to_string(), value_in_base_units: cents }
}

fn txn(desc: &str, cents: i64) -> Transaction {
    Transaction {
        id: "t".to_string(),
        status: TransactionStatus::Settled,
        description: desc.to_string(),
        raw_text: None,
        message: None,
        amount: money(cents, "x"),
        foreign_amount: None,
        hold_info: None,
        card_purchase_method: None,
        settled_at: None,
        created_at: Timestamp::from_second(1_700_000_000).unwrap(),
        round_up: None,
        cashback: None,
        transaction_type: None,
        note: None,
        performing_customer: None,
        category: None,
        parent_category: None,
        tags: vec![],
    }
}

fn state_with(txns: Option<Vec<Transaction>>) -> AppState {
    let mut s = AppState::new(Config { api_token: "t".to_string(), theme: None });
    let acc = Account {
        id: "a".to_string(),
        display_name: "Spending".to_string(),
        account_type: "TRANSACTIONAL".to_string(),
        balance: money(0, "0.00"),
    };
    let _ = handle_event(&mut s, AppEvent::AccountsLoaded(Ok(vec![acc])));
    if let Some(t) = txns {
        let _ = handle_event(&mut s, AppEvent::TransactionsLoaded { tab_index: 0, result: Ok(t) });
    }
    s
}

fn rows(v: &[DetailField]) -> Vec<(String, String, FieldStyle)> {
    v.iter().map(|f| (f.label.clone(), f.value.clone(), f.style)).collect()
}

#[test]
fn text_helpers() {
    assert_eq!(padded_label("Amount"), "Amount:       ");
    assert_eq!(padded_label("Foreign Amount"), "Foreign Amount:");
    assert_eq!(pad_right("ab", 5), "ab   ");
    assert_eq!(pad_right("abcdef", 3), "abcdef");
    assert_eq!(truncated("hello world", 6), "hello…");
    assert_eq!(truncated("hello", 5), "hello");
    assert_eq!(truncated("hello", 0), "…");
    assert_eq!(join(&vec!["a".to_string(), "b".to_string(), "c".to_string()], ", "), "a, b, c");
    assert_eq!(join(&vec![], ", "), "");
    let mut s = String::from("n=");
    push_decimal(&mut s, 1_234_567);
    assert_eq!(s, "n=1234567");
}

#[test]
fn minimal_detail_fields() {
    let t = txn("Coffee", -450);
    let s = state_with(None);
    let f = transaction_fields(&t, "2024-01-02 03:04:05".to_string(), None, &s);
    assert_eq!(
        rows(&f),
        vec![
            ("Description".to_string(), "Coffee".to_string(), FieldStyle::Value),
            ("Amount".to_string(), "-$4.50".to_string(), FieldStyle::Debit),
            ("Status".to_string(), "Settled".to_string(), FieldStyle::Value),
            ("Created".to_string(), "2024-01-02 03:04:05".to_string(), FieldStyle::Value),
        ]
    );
}

#[test]
fn full_detail_fields() {
    let mut t = txn("Shop", 1000);
    t.raw_text = Some("SHOP 123".to_string());
    t.message = Some("thanks".to_string());
    t.foreign_amount = Some(MoneyObject { currency_code: "USD".to_string(), value: "6.50".to_string(), value_in_base_units: 650 });
    t.round_up = Some(RoundUp { amount: money(-50, "-0.50"), boost_portion: Some(money(-20, "-0.20")) });
    t.cashback = Some(Cashback { description: "promo".to_string(), amount: money(100, "1.00") });
    t.card_purchase_method = Some(CardPurchaseMethod { method: "CARD_PIN".to_string(), card_number_suffix: None });
    t.category = Some("coffee".to_string());
    t.parent_category = Some("food".to_string());
    t.tags = vec!["x".to_string(), "y".to_string()];
    let mut s = state_with(None);
    let _ = handle_event(&mut s, AppEvent::CategoriesLoaded(Ok(vec![("food".to_string(), "Food & Drink".to_string())])));
    let f = transaction_fields(&t, "C".to_string(), Some("S".to_string()), &s);
    let labels: Vec<String> = f.iter().map(|x| x.label.clone()).collect();
    assert_eq!(
        labels,
        vec![
            "Description", "Raw Text", "Amount", "Status", "Created", "Settled", "Message", "Foreign Amount",
            "Round Up", "Boost Portion", "Cashback", "Card Method", "Category", "Tags"
        ]
    );
    assert_eq!(f[2].value, "+$10.00");
    assert_eq!(f[2].style, FieldStyle::Credit);
    assert_eq!(f[5].value, "S");
    assert_eq!(f[7].value, "6.50 USD");
    assert_eq!(f[8].value, "-0.50");
    assert_eq!(f[9].value, "-0.20");
    assert_eq!(f[10].value, "1.00 (promo)");
    assert_eq!(f[11].value, "CARD_PIN (********)");
    assert_eq!(f[12].value, "Food & Drink / coffee");
    assert_eq!(f[13].value, "x, y");
}

#[test]
fn category_field_with_one_side() {
    let s = state_with(None);
    let mut t = txn("A", 1);
    t.parent_category = Some("p".to_string());
    let f = transaction_fields(&t, "C".to_string(), None, &s);
    assert_eq!(f.last().unwrap().value, "p");
    let mut t = txn("A", 1);
    t.category = Some("c".to_string());
    t.card_purchase_method =
        Some(CardPurchaseMethod { method: "ECOMMERCE".to_string(), card_number_suffix: Some("1234".to_string()) });
    let f = transaction_fields(&t, "C".to_string(), None, &s);
    assert_eq!(f[f.len() - 2].value, "ECOMMERCE (****1234)");
    assert_eq!(f.last().unwrap().value, "c");
}

#[test]
fn detail_needs_a_selected_transaction() {
    let s = state_with(None);
    assert!(detail_fields(&s).is_none());
    let mut s = state_with(Some(vec![txn("One", 1)]));
    let f = detail_fields(&s).unwrap();
    assert_eq!(f[0].value, "One");
    assert_eq!(f.len(), 4);
    s.tabs[0].selected = 3;
    assert!(detail_fields(&s).is_none());
}

#[test]
fn list_titles() {
    assert_eq!(list_title(None), (" Transactions ".to_string(), false));
    let mut t = TabState::new();
    assert_eq!(list_title(Some(&t)), (" Transactions ".to_string(), false));
    t.loading = true;
    assert_eq!(list_title(Some(&t)), (" Transactions - Loading... ".to_string(), false));
    t.transactions = Some(vec![]);
    assert_eq!(list_title(Some(&t)), (" Transactions - No transactions ".to_string(), false));
    t.transactions = Some(vec![txn("a", 1)]);
    assert_eq!(list_title(Some(&t)), (" Transactions - Refreshing... ".to_string(), true));
    t.loading = false;
    assert_eq!(list_title(Some(&t)), (" Transactions ".to_string(), true));
}

#[test]
fn layout_puts_headers_before_new_days() {
    let d = |day: i8| LocalDate { year: 2024, month: 3, day };
    let (rows, index) = layout_rows(&vec![d(5), d(5), d(4), d(3), d(3)]);
    assert_eq!(
        rows,
        vec![
            ListRow::DayHeader(0),
            ListRow::Entry(0),
            ListRow::Entry(1),
            ListRow::DayHeader(2),
            ListRow::Entry(2),
            ListRow::DayHeader(3),
            ListRow::Entry(3),
            ListRow::Entry(4),
        ]
    );
    assert_eq!(index, vec![1, 2, 4, 6, 7]);
    for (i, &k) in index.iter().enumerate() {
        assert_eq!(rows[k], ListRow::Entry(i));
    }
    assert_eq!(selected_line(&index, 3), 6);
    assert_eq!(selected_line(&index, 9), 0);
    let (rows, index) = layout_rows(&vec![]);
    assert!(rows.is_empty() && index.is_empty());
}

#[test]
fn entry_texts_fit_the_width() {
    assert_eq!(inner_width(30), 26);
    assert_eq!(inner_width(3), 0);
    // 20 columns: "+$4.50" takes 6, one space, 13 for the description.
    let (desc, pad) = entry_text("A rather long shop name", "+$4.50", 20);
    assert_eq!(desc, "A rather lon…");
    // The padding counts bytes: the ellipsis takes three, so nothing is left.
    assert_eq!(pad, 0);
    let (desc, pad) = entry_text("Cafe", "$4.50", 20);
    assert_eq!(desc, "Cafe");
    assert_eq!(pad, 11);
    let (desc, pad) = entry_text("Cafe", "+$4.50", 3);
    assert_eq!(desc, "…");
    assert_eq!(pad, 0);
}

#[test]
fn day_header_is_upper_case_and_padded() {
    assert_eq!(day_header_text("Mon 3 Feb", 12), "MON 3 FEB   ");
    assert_eq!(day_header_text("Tue 14 Jan", 4), "TUE 14 JAN");
}

#[test]
fn tab_titles() {
    assert_eq!(tab_title("Spending", "$12.00"), " Spending $12.00 ");
}

#[test]
fn transaction_list_for_states() {
    let s = state_with(None);
    let l = transaction_list(&s, 40);
    assert_eq!(l.title, " Transactions - Loading... ");
    assert!(l.lines.is_none());
    let s = state_with(Some(vec![txn("Coffee", -450), txn("Tea", 300)]));
    let l = transaction_list(&s, 40);
    assert_eq!(l.title, " Transactions ");
    let lines = l.lines.unwrap();
    assert_eq!(lines.len(), 3);
    assert!(matches!(lines[0], ListLine::DayHeader { .. }));
    match &lines[1] {
        ListLine::Entry { description, amount, credit, padding, .. } => {
            assert_eq!(description, "Coffee");
            assert_eq!(amount, "$4.50");
            assert!(!credit);
            assert_eq!(*padding, 36 - 6 - 5);
        }
        _ => panic!("expected an entry"),
    }
    match &lines[2] {
        ListLine::Entry { amount, credit, .. } => {
            assert_eq!(amount, "+$3.00");
            assert!(*credit);
        }
        _ => panic!("expected an entry"),
    }
    assert_eq!(l.selected_line, 1);
}
