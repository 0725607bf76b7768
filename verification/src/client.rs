//! What the API client computes around its requests: the request URLs,
//! the authorization header, and the pages built from the responses.  The
//! requests themselves are made by the application.

use vstd::prelude::*;
use vstd::utf8::encode_utf8;

use reqwest::header::{HeaderValue, InvalidHeaderValue};

use crate::models::{
    Account, AccountAttributes, CategoryAttributes, JsonApiResponse, PaginatedResponse,
    PaginationLinks, PaginationOptions, Resource, Transaction, TransactionAttributes,
    TransactionRelationships, is_flattening,
};
use crate::text::{decimal, push_decimal};

verus! {

/// The ways a request to the API can fail.
pub enum ApiError {
    /// The token cannot stand in an HTTP header.
    InvalidToken(InvalidHeaderValue),
    /// The request could not be carried out.
    Request(reqwest_middleware::Error),
    /// The server answered with an error, or the answer could not be read.
    Http(reqwest::Error),
}

/// The root of every API URL.
pub open spec fn base_url() -> Seq<char> {
    "https://api.up.com.au/api/v1"@
}

/// The URL of the category list.
pub open spec fn categories_url_spec() -> Seq<char> {
    base_url() + "/categories"@
}

/// The URL of a page of accounts: the link to a later page when one is
/// given, else the first page of the given size.
pub open spec fn accounts_url_spec(page_size: u32, next_url: Option<String>) -> Seq<char> {
    match next_url {
        Some(url) => url@,
        None => base_url() + "/accounts?page[size]="@ + decimal(page_size as nat),
    }
}

/// The URL of a page of an account's transactions: the link to a later
/// page when one is given, else the first page of the given size.
pub open spec fn transactions_url_spec(account_id: Seq<char>, page_size: u32, next_url: Option<String>) -> Seq<char> {
    match next_url {
        Some(url) => url@,
        None => base_url() + "/accounts/"@ + account_id + "/transactions?page[size]="@ + decimal(page_size as nat),
    }
}

fn base_url_string() -> (s: String)
    ensures
        s@ == base_url(),
{
    String::from_str("https://api.up.com.au/api/v1")
}

/// The URL of the category list.
pub fn categories_url() -> (s: String)
    ensures
        s@ == categories_url_spec(),
{
    let mut s = base_url_string();
    s.append("/categories");
    s
}

/// The URL of the page of accounts that `opts` asks for.
pub fn accounts_url(opts: PaginationOptions) -> (s: String)
    ensures
        s@ == accounts_url_spec(opts.page_size, opts.next_url),
{
    match opts.next_url {
        Some(url) => url,
        None => {
            let mut s = base_url_string();
            s.append("/accounts?page[size]=");
            push_decimal(&mut s, opts.page_size as u64);
            s
        },
    }
}

/// The URL of the page of transactions of `account_id` that `opts` asks for.
pub fn transactions_url(account_id: &str, opts: PaginationOptions) -> (s: String)
    ensures
        s@ == transactions_url_spec(account_id@, opts.page_size, opts.next_url),
{
    match opts.next_url {
        Some(url) => url,
        None => {
            let mut s = base_url_string();
            s.append("/accounts/");
            s.append(account_id);
            s.append("/transactions?page[size]=");
            push_decimal(&mut s, opts.page_size as u64);
            s
        },
    }
}

/// The value of the authorization header for a token.
pub open spec fn bearer_text(token: Seq<char>) -> Seq<char> {
    "Bearer "@ + token
}

/// The bytes that may stand in an HTTP header value: visible ASCII, space,
/// tab, and any byte from 128 up.
pub open spec fn header_byte_ok(b: u8) -> bool {
    (b >= 32 && b != 127) || b == 9
}

/// Whether every byte of a text may stand in an HTTP header value.
pub open spec fn header_text_ok(bytes: Seq<u8>) -> bool {
    forall|i: int| 0 <= i < bytes.len() ==> header_byte_ok(#[trigger] bytes[i])
}

/// The header value that `HeaderValue::from_str` makes of a text.
pub uninterp spec fn header_of(text: Seq<char>) -> HeaderValue;

/// Makes a header value of a text.
/// Trusted: `HeaderValue::from_str`, which (as the `http` source shows)
/// fails exactly when some byte of the text is a control character other
/// than tab, or DEL; the value it makes depends on the text alone.
#[verifier::external_body]
fn header_value(text: &str) -> (r: Result<HeaderValue, InvalidHeaderValue>)
    ensures
        r is Ok <==> header_text_ok(encode_utf8(text@)),
        r matches Ok(v) ==> v == header_of(text@),
{
    HeaderValue::from_str(text)
}

/// The text `Bearer <token>`.
pub fn bearer(token: &str) -> (s: String)
    ensures
        s@ == bearer_text(token@),
{
    let mut s = String::from_str("Bearer ");
    s.append(token);
    s
}

/// The authorization header for `token`, or `ApiError::InvalidToken` when
/// `Bearer <token>` holds a byte that an HTTP header cannot carry.
pub fn authorization_header(token: &str) -> (r: Result<HeaderValue, ApiError>)
    ensures
        r is Ok <==> header_text_ok(encode_utf8(bearer_text(token@))),
        r matches Ok(v) ==> v == header_of(bearer_text(token@)),
        r matches Err(e) ==> e is InvalidToken,
{
    let text = bearer(token);
    match header_value(text.as_str()) {
        Ok(v) => Ok(v),
        Err(e) => Err(ApiError::InvalidToken(e)),
    }
}

/// The link to the next page that a response carries, if any.
pub open spec fn next_link(links: Option<PaginationLinks>) -> Option<String> {
    match links {
        Some(l) => l.next,
        None => None,
    }
}

fn next_link_of(links: Option<PaginationLinks>) -> (next: Option<String>)
    ensures
        next == next_link(links),
{
    match links {
        Some(l) => l.next,
        None => None,
    }
}

/// The account that a resource describes.
pub open spec fn account_of<R>(r: Resource<AccountAttributes, R>) -> Account {
    Account {
        id: r.id,
        display_name: r.attributes.display_name,
        account_type: r.attributes.account_type,
        balance: r.attributes.balance,
    }
}

/// The page of accounts that a response carries: each resource flattened,
/// in order, and the link to the next page.
pub fn accounts_page<R>(resp: JsonApiResponse<Vec<Resource<AccountAttributes, R>>>) -> (page: PaginatedResponse<Account>)
    ensures
        page.data@ == resp.data@.map_values(|r: Resource<AccountAttributes, R>| account_of(r)),
        page.next_page_url == next_link(resp.links),
{
    let mut data: Vec<Account> = Vec::new();
    let ghost all = resp.data@;
    for r in it: resp.data.into_iter()
        invariant
            it.seq() == all,
            data@ == all.subrange(0, it.index() as int).map_values(|r: Resource<AccountAttributes, R>| account_of(r)),
    {
        let ghost before = data@;
        let ghost k = it.index();
        let a = Account::from(r);
        data.push(a);
        assert(all.subrange(0, k + 1).map_values(|r: Resource<AccountAttributes, R>| account_of(r))
            =~= before.push(a));
    }
    assert(all.subrange(0, all.len() as int) =~= all);
    PaginatedResponse { data, next_page_url: next_link_of(resp.links) }
}

/// The page of transactions that a response carries: each resource
/// flattened, in order, and the link to the next page.
pub fn transactions_page(
    resp: JsonApiResponse<Vec<Resource<TransactionAttributes, TransactionRelationships>>>,
) -> (page: PaginatedResponse<Transaction>)
    ensures
        page.data@.len() == resp.data@.len(),
        forall|i: int| 0 <= i < resp.data@.len() ==> is_flattening(resp.data@[i], #[trigger] page.data@[i]),
        page.next_page_url == next_link(resp.links),
{
    let mut data: Vec<Transaction> = Vec::new();
    let ghost all = resp.data@;
    for r in it: resp.data.into_iter()
        invariant
            it.seq() == all,
            data@.len() == it.index(),
            forall|i: int| 0 <= i < data@.len() ==> is_flattening(all[i], #[trigger] data@[i]),
    {
        let t = Transaction::from_resource(r);
        data.push(t);
    }
    PaginatedResponse { data, next_page_url: next_link_of(resp.links) }
}

/// The pair of identifier and name that a category resource describes.
pub open spec fn category_entry<R>(r: Resource<CategoryAttributes, R>) -> (String, String) {
    (r.id, r.attributes.name)
}

/// The categories that a response carries, as pairs of identifier and
/// name, in order.
pub fn categories_list<R>(resp: JsonApiResponse<Vec<Resource<CategoryAttributes, R>>>) -> (list: Vec<(String, String)>)
    ensures
        list@ == resp.data@.map_values(|r: Resource<CategoryAttributes, R>| category_entry(r)),
{
    let mut list: Vec<(String, String)> = Vec::new();
    let ghost all = resp.data@;
    for r in it: resp.data.into_iter()
        invariant
            it.seq() == all,
            list@ == all.subrange(0, it.index() as int).map_values(|r: Resource<CategoryAttributes, R>| category_entry(r)),
    {
        let ghost before = list@;
        let ghost k = it.index();
        let entry = (r.id, r.attributes.name);
        list.push(entry);
        assert(all.subrange(0, k + 1).map_values(|r: Resource<CategoryAttributes, R>| category_entry(r))
            =~= before.push(entry));
    }
    assert(all.subrange(0, all.len() as int) =~= all);
    list
}

} // verus!
