//! The headings that each command prints above its listing.

use vstd::prelude::*;

use crate::text::{decimal, decimal_string};

verus! {

/// Heading of a search: `Found <total> products for "<query>":` and a blank line.
pub open spec fn search_heading_spec(total: u64, query: Seq<char>) -> Seq<char> {
    "Found "@ + decimal(total as nat) + " products for \""@ + query + "\":\n\n"@
}

/// Writes the heading of a search.
pub fn search_heading(total: u64, query: &str) -> (r: String)
    ensures
        r@ == search_heading_spec(total, query@),
{
    let mut r = String::from_str("Found ");
    let n = decimal_string(total);
    r.append(n.as_str());
    r.append(" products for \"");
    r.append(query);
    r.append("\":\n\n");
    r
}

/// Heading of the popular-products listing: `Popular products (<total> total):`.
pub open spec fn browse_heading_spec(total: u64) -> Seq<char> {
    "Popular products ("@ + decimal(total as nat) + " total):\n\n"@
}

/// Writes the heading of the popular-products listing.
pub fn browse_heading(total: u64) -> (r: String)
    ensures
        r@ == browse_heading_spec(total),
{
    let mut r = String::from_str("Popular products (");
    let n = decimal_string(total);
    r.append(n.as_str());
    r.append(" total):\n\n");
    r
}

/// Heading of the deals listing: `Found <total> deals:`.
pub open spec fn deals_heading_spec(total: u64) -> Seq<char> {
    "Found "@ + decimal(total as nat) + " deals:\n\n"@
}

/// Writes the heading of the deals listing.
pub fn deals_heading(total: u64) -> (r: String)
    ensures
        r@ == deals_heading_spec(total),
{
    let mut r = String::from_str("Found ");
    let n = decimal_string(total);
    r.append(n.as_str());
    r.append(" deals:\n\n");
    r
}

/// Heading of a price history: `Price history for product <id> (<days> days):`.
pub open spec fn history_heading_spec(product_id: u64, days: u32) -> Seq<char> {
    "Price history for product "@ + decimal(product_id as nat) + " ("@ + decimal(days as nat)
        + " days):\n\n"@
}

/// Writes the heading of a price history.
pub fn history_heading(product_id: u64, days: u32) -> (r: String)
    ensures
        r@ == history_heading_spec(product_id, days),
{
    let mut r = String::from_str("Price history for product ");
    let id = decimal_string(product_id);
    r.append(id.as_str());
    r.append(" (");
    let d = decimal_string(days as u64);
    r.append(d.as_str());
    r.append(" days):\n\n");
    r
}

/// Heading of a category's popular products: `Popular products in category <id>:`.
pub open spec fn popular_heading_spec(category_id: u64) -> Seq<char> {
    "Popular products in category "@ + decimal(category_id as nat) + ":\n\n"@
}

/// Writes the heading of a category's popular products.
pub fn popular_heading(category_id: u64) -> (r: String)
    ensures
        r@ == popular_heading_spec(category_id),
{
    let mut r = String::from_str("Popular products in category ");
    let id = decimal_string(category_id);
    r.append(id.as_str());
    r.append(":\n\n");
    r
}

/// Heading of related products: `Related products for <id> (<count> total):`.
pub open spec fn related_heading_spec(product_id: u64, count: u64) -> Seq<char> {
    "Related products for "@ + decimal(product_id as nat) + " ("@ + decimal(count as nat)
        + " total):\n\n"@
}

/// Writes the heading of related products.
pub fn related_heading(product_id: u64, count: u64) -> (r: String)
    ensures
        r@ == related_heading_spec(product_id, count),
{
    let mut r = String::from_str("Related products for ");
    let id = decimal_string(product_id);
    r.append(id.as_str());
    r.append(" (");
    let c = decimal_string(count);
    r.append(c.as_str());
    r.append(" total):\n\n");
    r
}

} // verus!
