//! The data model of the Up API: the JSON:API envelope, accounts,
//! transactions and their parts, and the paging of lists.

use vstd::prelude::*;

use jiff::Timestamp;

use crate::money::MoneyObject;

verus! {

// --- JSON:API envelope types ---

/// A JSON:API document: the primary data and the paging links.
pub struct JsonApiResponse<T> {
    pub data: T,
    pub links: Option<PaginationLinks>,
}

/// Links to the neighbouring pages of a list.
pub struct PaginationLinks {
    pub prev: Option<String>,
    pub next: Option<String>,
}

/// A JSON:API resource object.
pub struct Resource<A, R> {
    pub id: String,
    pub resource_type: String,
    pub attributes: A,
    pub relationships: R,
}

// --- JSON:API relationship types ---

/// The identifier of a related resource.
pub struct RelationshipData {
    pub id: String,
}

/// A relationship to at most one resource.
pub struct ToOneRelationship {
    pub data: Option<RelationshipData>,
}

/// A relationship to any number of resources.
pub struct ToManyRelationship {
    pub data: Vec<RelationshipData>,
}

/// The relationships of a transaction that the client reads.
pub struct TransactionRelationships {
    pub category: Option<ToOneRelationship>,
    pub parent_category: Option<ToOneRelationship>,
    pub tags: Option<ToManyRelationship>,
}

// --- Category types ---

/// The attributes of a category.
pub struct CategoryAttributes {
    pub name: String,
}

// --- Account types ---

/// The attributes of an account.
pub struct AccountAttributes {
    pub display_name: String,
    pub account_type: String,
    pub balance: MoneyObject,
    pub created_at: Timestamp,
}

// --- Transaction types ---

/// The attributes of a transaction.
pub struct TransactionAttributes {
    pub status: TransactionStatus,
    pub raw_text: Option<String>,
    pub description: String,
    pub message: Option<String>,
    pub amount: MoneyObject,
    pub foreign_amount: Option<MoneyObject>,
    pub card_purchase_method: Option<CardPurchaseMethod>,
    pub settled_at: Option<Timestamp>,
    pub created_at: Timestamp,
    pub round_up: Option<RoundUp>,
    pub cashback: Option<Cashback>,
    pub hold_info: Option<HoldInfo>,
    pub transaction_type: Option<String>,
    pub note: Option<Note>,
    pub performing_customer: Option<Customer>,
}

/// The round-up of a purchase, and the part of it that was boosted.
pub struct RoundUp {
    pub amount: MoneyObject,
    pub boost_portion: Option<MoneyObject>,
}

/// Cashback paid on a transaction.
pub struct Cashback {
    pub description: String,
    pub amount: MoneyObject,
}

/// How a card purchase was made.
pub struct CardPurchaseMethod {
    pub method: String,
    pub card_number_suffix: Option<String>,
}

/// The amount held before a transaction settled.
pub struct HoldInfo {
    pub amount: MoneyObject,
    pub foreign_amount: Option<MoneyObject>,
}

/// A note attached to a transaction.
pub struct Note {
    pub text: String,
}

/// The customer who made a transaction.
pub struct Customer {
    pub display_name: String,
}

/// Whether a transaction is still held or has settled.
#[derive(Clone, Copy, Debug, PartialEq, Eq, Structural)]
pub enum TransactionStatus {
    Held,
    Settled,
}

/// The text shown for a status.
pub open spec fn status_label(status: TransactionStatus) -> Seq<char> {
    match status {
        TransactionStatus::Held => seq!['H', 'e', 'l', 'd'],
        TransactionStatus::Settled => seq!['S', 'e', 't', 't', 'l', 'e', 'd'],
    }
}

impl TransactionStatus {
    /// The text shown for this status: `Held` or `Settled`.
    pub fn label(&self) -> (s: String)
        ensures
            s@ == status_label(*self),
    {
        let s = match self {
            TransactionStatus::Held => String::from_str("Held"),
            TransactionStatus::Settled => String::from_str("Settled"),
        };
        proof {
            reveal_strlit("Held");
            reveal_strlit("Settled");
        }
        s
    }
}

// --- Pagination types ---

/// How to fetch one page of a list: the page size for a first page, or the
/// link to a later page.
pub struct PaginationOptions {
    pub page_size: u32,
    pub next_url: Option<String>,
}

/// The page size asked for when nothing else is said.
pub const DEFAULT_PAGE_SIZE: u32 = 50;

impl Default for PaginationOptions {
    /// Pages of fifty items, starting at the first page.
    fn default() -> (opts: Self)
        ensures
            opts.page_size == DEFAULT_PAGE_SIZE,
            opts.next_url is None,
    {
        PaginationOptions { page_size: DEFAULT_PAGE_SIZE, next_url: None }
    }
}

/// One page of a list, with the link to the next page if there is one.
pub struct PaginatedResponse<T> {
    pub data: Vec<T>,
    pub next_page_url: Option<String>,
}

impl<T> PaginatedResponse<T> {
    /// Returns `PaginationOptions` to fetch the next page, or `None` if there is no next page.
    pub fn next_page(&self) -> (opts: Option<PaginationOptions>)
        ensures
            opts is Some <==> self.next_page_url is Some,
            opts matches Some(o) ==> o.page_size == DEFAULT_PAGE_SIZE && o.next_url == self.next_page_url,
    {
        match &self.next_page_url {
            Some(url) => Some(PaginationOptions { next_url: Some(url.clone()), ..Default::default() }),
            None => None,
        }
    }
}

// --- Domain structs (flattened from Resource) ---

/// An account, flattened from its resource.
pub struct Account {
    pub id: String,
    pub display_name: String,
    pub account_type: String,
    pub balance: MoneyObject,
}

impl<R> From<Resource<AccountAttributes, R>> for Account {
    /// Keeps the identifier, the names and the balance of the resource.
    fn from(r: Resource<AccountAttributes, R>) -> (a: Self) {
        Account {
            id: r.id,
            display_name: r.attributes.display_name,
            account_type: r.attributes.account_type,
            balance: r.attributes.balance,
        }
    }
}

impl<R> vstd::std_specs::convert::FromSpecImpl<Resource<AccountAttributes, R>> for Account {
    open spec fn obeys_from_spec() -> bool {
        true
    }

    open spec fn from_spec(r: Resource<AccountAttributes, R>) -> Account {
        Account {
            id: r.id,
            display_name: r.attributes.display_name,
            account_type: r.attributes.account_type,
            balance: r.attributes.balance,
        }
    }
}

/// A transaction, flattened from its resource and relationships.
pub struct Transaction {
    pub id: String,
    pub status: TransactionStatus,
    pub description: String,
    pub raw_text: Option<String>,
    pub message: Option<String>,
    pub amount: MoneyObject,
    pub foreign_amount: Option<MoneyObject>,
    pub hold_info: Option<HoldInfo>,
    pub card_purchase_method: Option<CardPurchaseMethod>,
    pub settled_at: Option<Timestamp>,
    pub created_at: Timestamp,
    pub round_up: Option<RoundUp>,
    pub cashback: Option<Cashback>,
    pub transaction_type: Option<String>,
    pub note: Option<Note>,
    pub performing_customer: Option<Customer>,
    pub category: Option<String>,
    pub parent_category: Option<String>,
    pub tags: Vec<String>,
}

/// The identifier that a to-one relationship points at, if any.
pub open spec fn related_id(rel: Option<ToOneRelationship>) -> Option<String> {
    match rel {
        Some(r) => match r.data {
            Some(d) => Some(d.id),
            None => None,
        },
        None => None,
    }
}

/// The identifiers that a to-many relationship points at, in order; none
/// when the relationship is absent.
pub open spec fn related_ids(rel: Option<ToManyRelationship>) -> Seq<String> {
    match rel {
        Some(r) => r.data@.map_values(|d: RelationshipData| d.id),
        None => Seq::empty(),
    }
}

/// The identifier of a to-one relationship, if it points at a resource.
pub fn to_one_id(rel: Option<ToOneRelationship>) -> (id: Option<String>)
    ensures
        id == related_id(rel),
{
    match rel {
        Some(r) => match r.data {
            Some(d) => Some(d.id),
            None => None,
        },
        None => None,
    }
}

/// The identifiers of a to-many relationship, in order.
pub fn to_many_ids(rel: &Option<ToManyRelationship>) -> (ids: Vec<String>)
    ensures
        ids@ == related_ids(*rel),
{
    let mut ids: Vec<String> = Vec::new();
    match rel {
        Some(r) => {
            let n = r.data.len();
            for i in 0..n
                invariant
                    n == r.data@.len(),
                    ids@ == r.data@.subrange(0, i as int).map_values(|d: RelationshipData| d.id),
            {
                let id = r.data[i].id.clone();
                ids.push(id);
                assert(r.data@.subrange(0, i + 1).map_values(|d: RelationshipData| d.id)
                    =~= r.data@.subrange(0, i as int).map_values(|d: RelationshipData| d.id).push(id));
            }
            assert(r.data@.subrange(0, n as int) =~= r.data@);
        },
        None => {
            assert(ids@ =~= Seq::<String>::empty());
        },
    }
    ids
}

/// `t` is the transaction that resource `r` describes: its attributes, the
/// identifiers of its category and parent category, and the identifiers of
/// its tags (none when the relationship is absent).
pub open spec fn is_flattening(r: Resource<TransactionAttributes, TransactionRelationships>, t: Transaction) -> bool {
    &&& t.id == r.id
    &&& t.status == r.attributes.status
    &&& t.description == r.attributes.description
    &&& t.raw_text == r.attributes.raw_text
    &&& t.message == r.attributes.message
    &&& t.amount == r.attributes.amount
    &&& t.foreign_amount == r.attributes.foreign_amount
    &&& t.hold_info == r.attributes.hold_info
    &&& t.card_purchase_method == r.attributes.card_purchase_method
    &&& t.settled_at == r.attributes.settled_at
    &&& t.created_at == r.attributes.created_at
    &&& t.round_up == r.attributes.round_up
    &&& t.cashback == r.attributes.cashback
    &&& t.transaction_type == r.attributes.transaction_type
    &&& t.note == r.attributes.note
    &&& t.performing_customer == r.attributes.performing_customer
    &&& t.category == related_id(r.relationships.category)
    &&& t.parent_category == related_id(r.relationships.parent_category)
    &&& t.tags@ == related_ids(r.relationships.tags)
}

impl Transaction {
    /// Flattens a transaction resource: its attributes, the identifiers of
    /// its category and parent category, and the identifiers of its tags
    /// (none when the relationship is absent).
    pub fn from_resource(r: Resource<TransactionAttributes, TransactionRelationships>) -> (t: Transaction)
        ensures
            is_flattening(r, t),
    {
        let tags = to_many_ids(&r.relationships.tags);
        let category = to_one_id(r.relationships.category);
        let parent_category = to_one_id(r.relationships.parent_category);
        Transaction {
            id: r.id,
            status: r.attributes.status,
            description: r.attributes.description,
            raw_text: r.attributes.raw_text,
            message: r.attributes.message,
            amount: r.attributes.amount,
            foreign_amount: r.attributes.foreign_amount,
            hold_info: r.attributes.hold_info,
            card_purchase_method: r.attributes.card_purchase_method,
            settled_at: r.attributes.settled_at,
            created_at: r.attributes.created_at,
            round_up: r.attributes.round_up,
            cashback: r.attributes.cashback,
            transaction_type: r.attributes.transaction_type,
            note: r.attributes.note,
            performing_customer: r.attributes.performing_customer,
            category,
            parent_category,
            tags,
        }
    }
}

} // verus!
