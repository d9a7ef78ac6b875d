//! The typed endpoints as values: for each one, the path and the query
//! parameters of its GET request. Sending them is left to the caller.

use vstd::prelude::*;
use vstd::string::StringSliceAdditionalSpecFns;

use crate::text::{decimal, decimal_string, digit_char};

verus! {

/// Where the JSON API is served.
pub const API_BASE: &'static str = "https://api.kuantokusta.pt";

/// Where the search pages are served.
pub const WEB_BASE: &'static str = "https://www.kuantokusta.pt";

/// Upper price bound of a deals query when the caller gives none.
pub const PRICE_CEILING: u32 = 50000;

/// Minimum discount of a deals query when the caller gives none.
pub const DEFAULT_MIN_DISCOUNT: u8 = 5;

/// A GET request: a path under the API's base URL and its query parameters in order.
#[derive(Clone, Debug)]
pub struct ApiRequest {
    pub path: String,
    pub query: Vec<(String, String)>,
}

/// The query parameters as pairs of character sequences.
pub open spec fn query_view(query: Seq<(String, String)>) -> Seq<(Seq<char>, Seq<char>)> {
    Seq::new(query.len(), |i: int| (query[i].0@, query[i].1@))
}

/// The price-range token: both bounds in whole units joined by `_`, the lower
/// one 0 and the upper one the ceiling when absent.
pub open spec fn price_range_spec(min_price: Option<u32>, max_price: Option<u32>) -> Seq<char> {
    let lo: u32 = match min_price {
        Some(v) => v,
        None => 0,
    };
    let hi: u32 = match max_price {
        Some(v) => v,
        None => PRICE_CEILING,
    };
    decimal(lo as nat) + seq!['_'] + decimal(hi as nat)
}

/// Builds the price-range token of a deals query from bounds already cut to
/// whole units.
pub fn price_range_token(min_price: Option<u32>, max_price: Option<u32>) -> (r: String)
    ensures
        r@ == price_range_spec(min_price, max_price),
{
    let lo: u32 = match min_price {
        Some(v) => v,
        None => 0,
    };
    let hi: u32 = match max_price {
        Some(v) => v,
        None => PRICE_CEILING,
    };
    let mut r = decimal_string(lo as u64);
    proof {
        reveal_strlit("_");
    }
    r.append("_");
    let hi_text = decimal_string(hi as u64);
    r.append(hi_text.as_str());
    r
}

/// The discount-range token: `FROM_` and the minimum discount, 5 when absent.
pub open spec fn discount_range_spec(min_discount: Option<u8>) -> Seq<char> {
    let d: u8 = match min_discount {
        Some(v) => v,
        None => DEFAULT_MIN_DISCOUNT,
    };
    seq!['F', 'R', 'O', 'M', '_'] + decimal(d as nat)
}

/// Builds the discount-range token of a deals query.
pub fn discount_range_token(min_discount: Option<u8>) -> (r: String)
    ensures
        r@ == discount_range_spec(min_discount),
{
    let d: u8 = match min_discount {
        Some(v) => v,
        None => DEFAULT_MIN_DISCOUNT,
    };
    proof {
        reveal_strlit("FROM_");
    }
    let mut r = String::from_str("FROM_");
    let digits = decimal_string(d as u64);
    r.append(digits.as_str());
    proof {
        assert(r@ =~= seq!['F', 'R', 'O', 'M', '_'] + decimal(d as nat));
    }
    r
}

fn param(name: &str, value: String) -> (r: (String, String))
    ensures
        r.0@ == name@,
        r.1@ == value@,
{
    (String::from_str(name), value)
}

/// The request for popular products: `/products?rows=<rows>`.
pub fn products_request(rows: u32) -> (r: ApiRequest)
    ensures
        r.path@ == "/products"@,
        query_view(r.query@) == seq![("rows"@, decimal(rows as nat))],
{
    let mut query = Vec::new();
    query.push(param("rows", decimal_string(rows as u64)));
    let r = ApiRequest { path: String::from_str("/products"), query };
    assert(query_view(r.query@) =~= seq![("rows"@, decimal(rows as nat))]);
    r
}

/// The request for deals:
/// `/deals?priceRange=<lo>_<hi>&discountRange=FROM_<d>&rows=<rows>&page=<page>`.
pub fn deals_request(
    rows: u32,
    page: u32,
    min_discount: Option<u8>,
    min_price: Option<u32>,
    max_price: Option<u32>,
) -> (r: ApiRequest)
    ensures
        r.path@ == "/deals"@,
        query_view(r.query@) == seq![
            ("priceRange"@, price_range_spec(min_price, max_price)),
            ("discountRange"@, discount_range_spec(min_discount)),
            ("rows"@, decimal(rows as nat)),
            ("page"@, decimal(page as nat)),
        ],
{
    let mut query = Vec::new();
    query.push(param("priceRange", price_range_token(min_price, max_price)));
    query.push(param("discountRange", discount_range_token(min_discount)));
    query.push(param("rows", decimal_string(rows as u64)));
    query.push(param("page", decimal_string(page as u64)));
    let r = ApiRequest { path: String::from_str("/deals"), query };
    assert(query_view(r.query@) =~= seq![
        ("priceRange"@, price_range_spec(min_price, max_price)),
        ("discountRange"@, discount_range_spec(min_discount)),
        ("rows"@, decimal(rows as nat)),
        ("page"@, decimal(page as nat)),
    ]);
    r
}

/// `/products/<id>` followed by `tail`.
fn product_path(product_id: u64, tail: &str) -> (r: String)
    ensures
        r@ == "/products/"@ + decimal(product_id as nat) + tail@,
{
    let mut path = String::from_str("/products/");
    let id = decimal_string(product_id);
    path.append(id.as_str());
    path.append(tail);
    path
}

/// The request for a product's price history:
/// `/products/<id>/price-history?days=<days>`.
pub fn price_history_request(product_id: u64, days: u32) -> (r: ApiRequest)
    ensures
        r.path@ == "/products/"@ + decimal(product_id as nat) + "/price-history"@,
        query_view(r.query@) == seq![("days"@, decimal(days as nat))],
{
    let mut query = Vec::new();
    query.push(param("days", decimal_string(days as u64)));
    let r = ApiRequest { path: product_path(product_id, "/price-history"), query };
    assert(query_view(r.query@) =~= seq![("days"@, decimal(days as nat))]);
    r
}

/// The request for a category's popular products:
/// `/products/popular?categoryId=<id>&rows=<rows>`.
pub fn popular_request(category_id: u64, rows: u32) -> (r: ApiRequest)
    ensures
        r.path@ == "/products/popular"@,
        query_view(r.query@) == seq![
            ("categoryId"@, decimal(category_id as nat)),
            ("rows"@, decimal(rows as nat)),
        ],
{
    let mut query = Vec::new();
    query.push(param("categoryId", decimal_string(category_id)));
    query.push(param("rows", decimal_string(rows as u64)));
    let r = ApiRequest { path: String::from_str("/products/popular"), query };
    assert(query_view(r.query@) =~= seq![
        ("categoryId"@, decimal(category_id as nat)),
        ("rows"@, decimal(rows as nat)),
    ]);
    r
}

/// The request for a product's related products: `/products/<id>/related`.
pub fn related_request(product_id: u64) -> (r: ApiRequest)
    ensures
        r.path@ == "/products/"@ + decimal(product_id as nat) + "/related"@,
        r.query@.len() == 0,
{
    ApiRequest { path: product_path(product_id, "/related"), query: Vec::new() }
}

/// The request for all categories: `/categories`.
pub fn categories_request() -> (r: ApiRequest)
    ensures
        r.path@ == "/categories"@,
        r.query@.len() == 0,
{
    ApiRequest { path: String::from_str("/categories"), query: Vec::new() }
}

/// A byte that a URL may carry as it is: an ASCII letter or digit, `-`, `.`, `_` or `~`.
pub open spec fn url_safe(b: u8) -> bool {
    (0x30 <= b <= 0x39) || (0x41 <= b <= 0x5a) || (0x61 <= b <= 0x7a) || b == 0x2d || b == 0x2e
        || b == 0x5f || b == 0x7e
}

/// The upper-case hex digit of a value below 16.
pub open spec fn hex_upper(d: nat) -> char {
    if d < 10 {
        digit_char(d)
    } else {
        seq!['A', 'B', 'C', 'D', 'E', 'F'][d - 10]
    }
}

/// Percent-encoding of a byte string: each safe byte stands for itself, every
/// other byte becomes `%` and its two upper-case hex digits.
pub open spec fn percent_encoded(bytes: Seq<u8>) -> Seq<char>
    decreases bytes.len(),
{
    if bytes.len() == 0 {
        Seq::empty()
    } else {
        let b = bytes.last();
        percent_encoded(bytes.drop_last()) + if url_safe(b) {
            seq![b as char]
        } else {
            seq!['%', hex_upper(b as nat / 16), hex_upper(b as nat % 16)]
        }
    }
}

/// Relies on `urlencoding::encode`: every byte of the UTF-8 text but ASCII
/// letters, digits and `-` `.` `_` `~` becomes `%` and two upper-case hex digits.
#[verifier::external_body]
fn url_encode(s: &str) -> (r: String)
    ensures
        r@ == percent_encoded(s.spec_bytes()),
{
    urlencoding::encode(s).into_owned()
}

/// The URL of the search page for `query` under `base_url`: `<base>/search?q=<query>`,
/// with the query percent-encoded.
pub fn search_url(base_url: &str, query: &str) -> (r: String)
    ensures
        r@ == base_url@ + "/search?q="@ + percent_encoded(query.spec_bytes()),
{
    let mut url = String::from_str(base_url);
    url.append("/search?q=");
    let encoded = url_encode(query);
    url.append(encoded.as_str());
    url
}

} // verus!
