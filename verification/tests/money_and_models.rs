use jiff::Timestamp;
use up_tui::client::{
    accounts_page, accounts_url, authorization_header, categories_list, categories_url, transactions_page,
    transactions_url, ApiError,
};
use up_tui::models::{
    Account, AccountAttributes, CategoryAttributes, JsonApiResponse, PaginatedResponse, PaginationLinks,
    PaginationOptions, RelationshipData, Resource, ToManyRelationship, ToOneRelationship, Transaction,
    TransactionAttributes, TransactionRelationships, TransactionStatus,
};
use up_tui::money::MoneyObject;

fn money(cents: i64) -> MoneyObject {
    MoneyObject { currency_code: "AUD".to_string(), value: format!("{}", cents as f64 / 100.0), value_in_base_units: cents }
}

#[test]
fn format_display_positive_gets_plus() {
    assert_eq!(money(123).format_display(true), "+$1.23");
    assert_eq!(money(123).format_display(false), "+$1.23");
}

#[test]
fn format_display_negative_signed_and_unsigned() {
    assert_eq!(money(-123).format_display(true), "-$1.23");
    assert_eq!(money(-123).format_display(false), "$1.23");
}

#[test]
fn format_display_zero_and_small_amounts() {
    assert_eq!(money(0).format_display(true), "+$0.00");
    assert_eq!(money(5).format_display(false), "+$0.05");
    assert_eq!(money(-50).format_display(true), "-$0.50");
    assert_eq!(money(100000).format_display(true), "+$1000.00");
}

#[test]
fn format_display_extreme_amount() {
    assert_eq!(money(i64::MIN).format_display(true), "-$92233720368547758.08");
    assert_eq!(money(i64::MAX).format_display(false), "+$92233720368547758.07");
}

#[test]
fn law_signed_display_on_values() {
    for cents in [-1001i64, -1, 0, 1, 999] {
        let signed = money(cents).format_display(true);
        let plain = money(cents).format_display(false);
        if cents >= 0 {
            assert_eq!(signed, plain);
        } else {
            assert_eq!(signed, format!("-{}", plain));
        }
    }
}

#[test]
fn status_labels() {
    assert_eq!(TransactionStatus::Held.label(), "Held");
    assert_eq!(TransactionStatus::Settled.label(), "Settled");
}

#[test]
fn pagination_default_is_fifty_from_first_page() {
    let o = PaginationOptions::default();
    assert_eq!(o.page_size, 50);
    assert!(o.next_url.is_none());
}

#[test]
fn next_page_follows_link() {
    let page: PaginatedResponse<u8> = PaginatedResponse { data: vec![], next_page_url: Some("https://x/next".to_string()) };
    let next = page.next_page().unwrap();
    assert_eq!(next.page_size, 50);
    assert_eq!(next.next_url.as_deref(), Some("https://x/next"));
    let last: PaginatedResponse<u8> = PaginatedResponse { data: vec![1], next_page_url: None };
    assert!(last.next_page().is_none());
}

#[test]
fn urls_for_first_pages() {
    assert_eq!(categories_url(), "https://api.up.com.au/api/v1/categories");
    assert_eq!(accounts_url(PaginationOptions::default()), "https://api.up.com.au/api/v1/accounts?page[size]=50");
    assert_eq!(
        accounts_url(PaginationOptions { page_size: 100, next_url: None }),
        "https://api.up.com.au/api/v1/accounts?page[size]=100"
    );
    assert_eq!(
        transactions_url("acc-1", PaginationOptions::default()),
        "https://api.up.com.au/api/v1/accounts/acc-1/transactions?page[size]=50"
    );
}

#[test]
fn urls_follow_next_link() {
    let o = PaginationOptions { page_size: 50, next_url: Some("https://api.up.com.au/api/v1/accounts?page[after]=x".to_string()) };
    assert_eq!(accounts_url(o), "https://api.up.com.au/api/v1/accounts?page[after]=x");
    let o = PaginationOptions { page_size: 7, next_url: Some("next".to_string()) };
    assert_eq!(transactions_url("a", o), "next");
}

#[test]
fn authorization_header_accepts_token() {
    let v = authorization_header("up:yeah:abc123").ok().unwrap();
    assert_eq!(v.to_str().unwrap(), "Bearer up:yeah:abc123");
}

#[test]
fn authorization_header_rejects_control_characters() {
    assert!(matches!(authorization_header("bad\ntoken"), Err(ApiError::InvalidToken(_))));
    assert!(matches!(authorization_header("bad\u{7f}"), Err(ApiError::InvalidToken(_))));
    assert!(authorization_header("tab\tok").is_ok());
}

fn ts(s: i64) -> Timestamp {
    Timestamp::from_second(s).unwrap()
}

fn attributes(desc: &str, cents: i64) -> TransactionAttributes {
    TransactionAttributes {
        status: TransactionStatus::Settled,
        raw_text: Some("RAW".to_string()),
        description: desc.to_string(),
        message: None,
        amount: money(cents),
        foreign_amount: None,
        card_purchase_method: None,
        settled_at: None,
        created_at: ts(1_700_000_000),
        round_up: None,
        cashback: None,
        hold_info: None,
        transaction_type: Some("Purchase".to_string()),
        note: None,
        performing_customer: None,
    }
}

#[test]
fn transaction_from_resource_flattens_relationships() {
    let r = Resource {
        id: "t1".to_string(),
        resource_type: "transactions".to_string(),
        attributes: attributes("Coffee", -450),
        relationships: TransactionRelationships {
            category: Some(ToOneRelationship { data: Some(RelationshipData { id: "cafe".to_string() }) }),
            parent_category: Some(ToOneRelationship { data: None }),
            tags: Some(ToManyRelationship {
                data: vec![RelationshipData { id: "a".to_string() }, RelationshipData { id: "b".to_string() }],
            }),
        },
    };
    let t = Transaction::from_resource(r);
    assert_eq!(t.id, "t1");
    assert_eq!(t.description, "Coffee");
    assert_eq!(t.amount.value_in_base_units, -450);
    assert_eq!(t.raw_text.as_deref(), Some("RAW"));
    assert_eq!(t.transaction_type.as_deref(), Some("Purchase"));
    assert_eq!(t.category.as_deref(), Some("cafe"));
    assert_eq!(t.parent_category, None);
    assert_eq!(t.tags, vec!["a".to_string(), "b".to_string()]);
}

#[test]
fn transaction_without_tags_has_none() {
    let r = Resource {
        id: "t2".to_string(),
        resource_type: "transactions".to_string(),
        attributes: attributes("Rent", -100000),
        relationships: TransactionRelationships { category: None, parent_category: None, tags: None },
    };
    let t = Transaction::from_resource(r);
    assert!(t.tags.is_empty());
    assert!(t.category.is_none());
}

#[test]
fn account_from_resource_keeps_fields() {
    let r = Resource {
        id: "acc".to_string(),
        resource_type: "accounts".to_string(),
        attributes: AccountAttributes {
            display_name: "Spending".to_string(),
            account_type: "TRANSACTIONAL".to_string(),
            balance: money(1234),
            created_at: ts(0),
        },
        relationships: (),
    };
    let a = Account::from(r);
    assert_eq!(a.id, "acc");
    assert_eq!(a.display_name, "Spending");
    assert_eq!(a.account_type, "TRANSACTIONAL");
    assert_eq!(a.balance.value_in_base_units, 1234);
}

#[test]
fn pages_from_responses() {
    let resp = JsonApiResponse {
        data: vec![
            Resource {
                id: "a1".to_string(),
                resource_type: "accounts".to_string(),
                attributes: AccountAttributes {
                    display_name: "One".to_string(),
                    account_type: "SAVER".to_string(),
                    balance: money(1),
                    created_at: ts(0),
                },
                relationships: (),
            },
            Resource {
                id: "a2".to_string(),
                resource_type: "accounts".to_string(),
                attributes: AccountAttributes {
                    display_name: "Two".to_string(),
                    account_type: "SAVER".to_string(),
                    balance: money(2),
                    created_at: ts(0),
                },
                relationships: (),
            },
        ],
        links: Some(PaginationLinks { prev: None, next: Some("n".to_string()) }),
    };
    let page = accounts_page(resp);
    assert_eq!(page.data.len(), 2);
    assert_eq!(page.data[0].id, "a1");
    assert_eq!(page.data[1].display_name, "Two");
    assert_eq!(page.next_page_url.as_deref(), Some("n"));

    let tresp = JsonApiResponse {
        data: vec![Resource {
            id: "t".to_string(),
            resource_type: "transactions".to_string(),
            attributes: attributes("X", 1),
            relationships: TransactionRelationships { category: None, parent_category: None, tags: None },
        }],
        links: None,
    };
    let tpage = transactions_page(tresp);
    assert_eq!(tpage.data.len(), 1);
    assert_eq!(tpage.data[0].id, "t");
    assert!(tpage.next_page_url.is_none());
}

#[test]
fn categories_from_response() {
    let resp = JsonApiResponse {
        data: vec![
            Resource {
                id: "groceries".to_string(),
                resource_type: "categories".to_string(),
                attributes: CategoryAttributes { name: "Groceries".to_string() },
                relationships: (),
            },
            Resource {
                id: "home".to_string(),
                resource_type: "categories".to_string(),
                attributes: CategoryAttributes { name: "Home".to_string() },
                relationships: (),
            },
        ],
        links: None,
    };
    let list = categories_list(resp);
    assert_eq!(
        list,
        vec![("groceries".to_string(), "Groceries".to_string()), ("home".to_string(), "Home".to_string())]
    );
}
