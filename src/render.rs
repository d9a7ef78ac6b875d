//! Rendering of products, deals and price history as tables and as
//! tab-separated lines. Amounts print with two decimals and a euro sign.

use vstd::prelude::*;

use crate::format::{truncate, truncate_spec};
use crate::models::{discount_of, Badges, Deal, PriceHistory, PricePoint, Product, Rating};
use crate::text::{
    cents_string, cents_text, concat_all, decimal, decimal_string, digit_char, join_lines,
    pad_left, pad_right, push_padded_left, push_padded_right,
};

verus! {

/// Table heading of the product listing.
pub const PRODUCT_HEADER: &'static str = "ID         Name                                                    Price Stores     \u{2605}\n";

/// The rule under the product heading.
pub const PRODUCT_RULE: &'static str = "---------- -------------------------------------------------- ---------- ------ -----\n";

/// What the product table says of an empty listing.
pub const NO_PRODUCTS: &'static str = "No products found.";

/// Table heading of the deal listing.
pub const DEAL_HEADER: &'static str = "ID         Name                                               Price   Off Stores\n";

/// The rule under the deal heading.
pub const DEAL_RULE: &'static str = "---------- --------------------------------------------- ---------- ----- ------\n";

/// What the deal table says of an empty listing.
pub const NO_DEALS: &'static str = "No deals found.";

/// Table heading of the price points.
pub const HISTORY_HEADER: &'static str = "Date                Min        Avg\n";

/// The rule under the price-point heading.
pub const HISTORY_RULE: &'static str = "------------ ---------- ----------\n";

/// What the history table says when there are no points.
pub const NO_HISTORY: &'static str = "No price history available.";

/// A score in hundredths rounded half up to one decimal (`450` is `4.5`, `425` is `4.3`).
pub open spec fn rating_text(hundredths: nat) -> Seq<char> {
    let tenths = (hundredths + 5) / 10;
    decimal(tenths / 10) + seq!['.', digit_char(tenths % 10)]
}

/// The rating column: the score, or nothing for an unrated product.
pub open spec fn rating_cell(rating: Option<Rating>) -> Seq<char> {
    match rating {
        Some(r) => rating_text(r.rating_count_hundredths as nat),
        None => Seq::empty(),
    }
}

/// The badge after a row: fire for a best seller, else a money bag for a best
/// price, else nothing.
pub open spec fn badge_cell(badges: Badges) -> Seq<char> {
    if badges.is_best_seller {
        seq![' ', '\u{1F525}']
    } else if badges.is_best_price {
        seq![' ', '\u{1F4B0}']
    } else {
        Seq::empty()
    }
}

/// An amount with two decimals followed by the euro sign.
pub open spec fn euros(cents: nat) -> Seq<char> {
    cents_text(cents) + seq!['\u{20AC}']
}

/// An amount right-aligned in 9 columns followed by the euro sign.
pub open spec fn euros_cell(cents: nat) -> Seq<char> {
    pad_left(cents_text(cents), ' ', 9) + seq!['\u{20AC}']
}

/// One product row: identifier, name cut to 48 characters, price, number of
/// stores, rating and badge.
pub open spec fn product_row(p: Product) -> Seq<char> {
    pad_right(decimal(p.id as nat), ' ', 10) + seq![' '] + pad_right(truncate_spec(p.name@, 48), ' ', 50)
        + seq![' '] + euros_cell(p.price_min_cents as nat) + seq![' '] + pad_left(
        decimal(p.total_offers as nat),
        ' ',
        6,
    ) + seq![' '] + pad_left(rating_cell(p.rating), ' ', 5) + badge_cell(p.badges) + seq!['\n']
}

/// The product table: heading, rule and one row per product, in order.
pub open spec fn products_table_spec(ps: Seq<Product>) -> Seq<char> {
    if ps.len() == 0 {
        NO_PRODUCTS@
    } else {
        PRODUCT_HEADER@ + PRODUCT_RULE@ + concat_all(ps.map_values(|p: Product| product_row(p)))
    }
}

/// One compact product line: identifier, price, stores and name, tab-separated.
pub open spec fn product_line(p: Product) -> Seq<char> {
    decimal(p.id as nat) + seq!['\t'] + euros(p.price_min_cents as nat) + seq!['\t'] + decimal(
        p.total_offers as nat,
    ) + seq!['\t'] + p.name@
}

fn space() -> (r: &'static str)
    ensures
        r@ == seq![' '],
{
    proof {
        reveal_strlit(" ");
    }
    " "
}

fn tab() -> (r: &'static str)
    ensures
        r@ == seq!['\t'],
{
    proof {
        reveal_strlit("\t");
    }
    "\t"
}

fn newline() -> (r: &'static str)
    ensures
        r@ == seq!['\n'],
{
    proof {
        reveal_strlit("\n");
    }
    "\n"
}

fn euro() -> (r: &'static str)
    ensures
        r@ == seq!['\u{20AC}'],
{
    proof {
        reveal_strlit("\u{20AC}");
    }
    "\u{20AC}"
}

fn rating_string(rating: Option<Rating>) -> (r: String)
    ensures
        r@ == rating_cell(rating),
{
    match rating {
        Some(rt) => {
            let tenths = (rt.rating_count_hundredths as u64 + 5) / 10;
            let mut r = decimal_string(tenths / 10);
            proof {
                reveal_strlit(".");
            }
            r.append(".");
            let d = decimal_string(tenths % 10);
            r.append(d.as_str());
            assert(r@ =~= rating_cell(rating));
            r
        },
        None => String::new(),
    }
}

fn badge_str(badges: &Badges) -> (r: &'static str)
    ensures
        r@ == badge_cell(*badges),
{
    proof {
        reveal_strlit(" \u{1F525}");
        reveal_strlit(" \u{1F4B0}");
        reveal_strlit("");
    }
    if badges.is_best_seller {
        " \u{1F525}"
    } else if badges.is_best_price {
        " \u{1F4B0}"
    } else {
        ""
    }
}

fn push_euros_cell(out: &mut String, cents: u64)
    ensures
        final(out)@ == old(out)@ + euros_cell(cents as nat),
{
    let amount = cents_string(cents);
    push_padded_left(out, amount.as_str(), space(), 9);
    out.append(euro());
    assert(final(out)@ =~= old(out)@ + euros_cell(cents as nat));
}

#[verifier::rlimit(80)]
fn push_product_row(out: &mut String, p: &Product)
    ensures
        final(out)@ == old(out)@ + product_row(*p),
{
    let id = decimal_string(p.id);
    push_padded_right(out, id.as_str(), space(), 10);
    out.append(space());
    let name = truncate(p.name.as_str(), 48);
    push_padded_right(out, name.as_str(), space(), 50);
    out.append(space());
    push_euros_cell(out, p.price_min_cents);
    out.append(space());
    let stores = decimal_string(p.total_offers as u64);
    push_padded_left(out, stores.as_str(), space(), 6);
    out.append(space());
    let rating = rating_string(p.rating);
    push_padded_left(out, rating.as_str(), space(), 5);
    out.append(badge_str(&p.badges));
    out.append(newline());
    assert(final(out)@ =~= old(out)@ + product_row(*p));
}

/// Renders products as a table, one row per product in order.
pub fn format_products_table(products: &[Product]) -> (r: String)
    ensures
        r@ == products_table_spec(products@),
{
    if products.len() == 0 {
        return String::from_str(NO_PRODUCTS);
    }
    let mut out = String::from_str(PRODUCT_HEADER);
    out.append(PRODUCT_RULE);
    let ghost head = out@;
    let ghost rows = products@.map_values(|p: Product| product_row(p));
    let mut i: usize = 0;
    while i < products.len()
        invariant
            i <= products@.len(),
            rows == products@.map_values(|p: Product| product_row(p)),
            out@ == head + concat_all(rows.take(i as int)),
        decreases products@.len() - i,
    {
        push_product_row(&mut out, &products[i]);
        assert(rows.take(i + 1).drop_last() =~= rows.take(i as int));
        i = i + 1;
    }
    assert(rows.take(products@.len() as int) =~= rows);
    out
}

fn push_product_line(out: &mut String, p: &Product)
    ensures
        final(out)@ == old(out)@ + product_line(*p),
{
    let id = decimal_string(p.id);
    out.append(id.as_str());
    out.append(tab());
    let amount = cents_string(p.price_min_cents);
    out.append(amount.as_str());
    out.append(euro());
    out.append(tab());
    let stores = decimal_string(p.total_offers as u64);
    out.append(stores.as_str());
    out.append(tab());
    out.append(p.name.as_str());
    assert(final(out)@ =~= old(out)@ + product_line(*p));
}

/// Renders products one per line as tab-separated fields, in order.
pub fn format_products_compact(products: &[Product]) -> (r: String)
    ensures
        r@ == join_lines(products@.map_values(|p: Product| product_line(p))),
{
    let ghost lines = products@.map_values(|p: Product| product_line(p));
    let mut out = String::new();
    let mut i: usize = 0;
    while i < products.len()
        invariant
            i <= products@.len(),
            lines == products@.map_values(|p: Product| product_line(p)),
            out@ == join_lines(lines.take(i as int)),
        decreases products@.len() - i,
    {
        if i > 0 {
            out.append(newline());
        }
        push_product_line(&mut out, &products[i]);
        proof {
            let t = lines.take(i + 1);
            assert(t.drop_last() =~= lines.take(i as int));
            if i == 0 {
                assert(out@ =~= t[0]);
            }
        }
        i = i + 1;
    }
    assert(lines.take(products@.len() as int) =~= lines);
    out
}

/// The discount column: `-<d>%`, or nothing without a discount.
pub open spec fn discount_cell(discount: Option<u8>) -> Seq<char> {
    match discount {
        Some(d) => seq!['-'] + decimal(d as nat) + seq!['%'],
        None => Seq::empty(),
    }
}

/// One deal row: identifier, name cut to 43 characters, price, discount and
/// number of stores.
pub open spec fn deal_row(d: Deal) -> Seq<char> {
    pad_right(decimal(d.id as nat), ' ', 10) + seq![' '] + pad_right(truncate_spec(d.name@, 43), ' ', 45)
        + seq![' '] + euros_cell(d.price_min_cents as nat) + seq![' '] + pad_left(
        discount_cell(discount_of(d.badges, d.tags)),
        ' ',
        5,
    ) + seq![' '] + pad_left(decimal(d.total_offers as nat), ' ', 6) + seq!['\n']
}

/// The deal table: heading, rule and one row per deal, in order.
pub open spec fn deals_table_spec(ds: Seq<Deal>) -> Seq<char> {
    if ds.len() == 0 {
        NO_DEALS@
    } else {
        DEAL_HEADER@ + DEAL_RULE@ + concat_all(ds.map_values(|d: Deal| deal_row(d)))
    }
}

/// One compact deal line: identifier, price, discount (0 without one) and
/// name, tab-separated.
pub open spec fn deal_line(d: Deal) -> Seq<char> {
    let off: u8 = match discount_of(d.badges, d.tags) {
        Some(v) => v,
        None => 0,
    };
    decimal(d.id as nat) + seq!['\t'] + euros(d.price_min_cents as nat) + seq!['\t', '-']
        + decimal(off as nat) + seq!['%', '\t'] + d.name@
}

fn percent() -> (r: &'static str)
    ensures
        r@ == seq!['%'],
{
    proof {
        reveal_strlit("%");
    }
    "%"
}

fn minus() -> (r: &'static str)
    ensures
        r@ == seq!['-'],
{
    proof {
        reveal_strlit("-");
    }
    "-"
}

fn discount_string(discount: Option<u8>) -> (r: String)
    ensures
        r@ == discount_cell(discount),
{
    match discount {
        Some(d) => {
            let mut r = String::from_str(minus());
            let digits = decimal_string(d as u64);
            r.append(digits.as_str());
            r.append(percent());
            r
        },
        None => String::new(),
    }
}

#[verifier::rlimit(40)]
fn push_deal_row(out: &mut String, d: &Deal)
    ensures
        final(out)@ == old(out)@ + deal_row(*d),
{
    let id = decimal_string(d.id);
    push_padded_right(out, id.as_str(), space(), 10);
    out.append(space());
    let name = truncate(d.name.as_str(), 43);
    push_padded_right(out, name.as_str(), space(), 45);
    out.append(space());
    push_euros_cell(out, d.price_min_cents);
    out.append(space());
    let off = discount_string(d.discount());
    push_padded_left(out, off.as_str(), space(), 5);
    out.append(space());
    let stores = decimal_string(d.total_offers as u64);
    push_padded_left(out, stores.as_str(), space(), 6);
    out.append(newline());
    assert(final(out)@ =~= old(out)@ + deal_row(*d));
}

/// Renders deals as a table, one row per deal in order.
pub fn format_deals_table(deals: &[Deal]) -> (r: String)
    ensures
        r@ == deals_table_spec(deals@),
{
    if deals.len() == 0 {
        return String::from_str(NO_DEALS);
    }
    let mut out = String::from_str(DEAL_HEADER);
    out.append(DEAL_RULE);
    let ghost head = out@;
    let ghost rows = deals@.map_values(|d: Deal| deal_row(d));
    let mut i: usize = 0;
    while i < deals.len()
        invariant
            i <= deals@.len(),
            rows == deals@.map_values(|d: Deal| deal_row(d)),
            out@ == head + concat_all(rows.take(i as int)),
        decreases deals@.len() - i,
    {
        push_deal_row(&mut out, &deals[i]);
        assert(rows.take(i + 1).drop_last() =~= rows.take(i as int));
        i = i + 1;
    }
    assert(rows.take(deals@.len() as int) =~= rows);
    out
}

fn push_deal_line(out: &mut String, d: &Deal)
    ensures
        final(out)@ == old(out)@ + deal_line(*d),
{
    let id = decimal_string(d.id);
    out.append(id.as_str());
    out.append(tab());
    let amount = cents_string(d.price_min_cents);
    out.append(amount.as_str());
    out.append(euro());
    out.append(tab());
    out.append(minus());
    let off: u8 = match d.discount() {
        Some(v) => v,
        None => 0,
    };
    let digits = decimal_string(off as u64);
    out.append(digits.as_str());
    out.append(percent());
    out.append(tab());
    out.append(d.name.as_str());
    assert(final(out)@ =~= old(out)@ + deal_line(*d));
}

/// Renders deals one per line as tab-separated fields, in order.
pub fn format_deals_compact(deals: &[Deal]) -> (r: String)
    ensures
        r@ == join_lines(deals@.map_values(|d: Deal| deal_line(d))),
{
    let ghost lines = deals@.map_values(|d: Deal| deal_line(d));
    let mut out = String::new();
    let mut i: usize = 0;
    while i < deals.len()
        invariant
            i <= deals@.len(),
            lines == deals@.map_values(|d: Deal| deal_line(d)),
            out@ == join_lines(lines.take(i as int)),
        decreases deals@.len() - i,
    {
        if i > 0 {
            out.append(newline());
        }
        push_deal_line(&mut out, &deals[i]);
        proof {
            let t = lines.take(i + 1);
            assert(t.drop_last() =~= lines.take(i as int));
            if i == 0 {
                assert(out@ =~= t[0]);
            }
        }
        i = i + 1;
    }
    assert(lines.take(deals@.len() as int) =~= lines);
    out
}

/// One price-point row: the date in 12 columns, then the lowest and the
/// average price.
pub open spec fn history_row(p: PricePoint) -> Seq<char> {
    pad_right(p.date@, ' ', 12) + seq![' '] + euros_cell(p.min_cents as nat) + seq![' '] + euros_cell(
        p.avg_cents as nat,
    ) + seq!['\n']
}

/// The price-history table: the axis range, heading, rule and one row per
/// point in the server's order.
pub open spec fn history_table_spec(h: PriceHistory) -> Seq<char> {
    if h.data@.len() == 0 {
        NO_HISTORY@
    } else {
        "Price range: "@ + euros(h.min_axis_cents as nat) + " - "@ + euros(h.max_axis_cents as nat)
            + "\n\n"@ + HISTORY_HEADER@ + HISTORY_RULE@ + concat_all(
            h.data@.map_values(|p: PricePoint| history_row(p)),
        )
    }
}

fn push_history_row(out: &mut String, p: &PricePoint)
    ensures
        final(out)@ == old(out)@ + history_row(*p),
{
    push_padded_right(out, p.date.as_str(), space(), 12);
    out.append(space());
    push_euros_cell(out, p.min_cents);
    out.append(space());
    push_euros_cell(out, p.avg_cents);
    out.append(newline());
    assert(final(out)@ =~= old(out)@ + history_row(*p));
}

/// Renders a price history as a table of its points, in order.
pub fn format_history_table(history: &PriceHistory) -> (r: String)
    ensures
        r@ == history_table_spec(*history),
{
    let points = &history.data;
    if points.len() == 0 {
        return String::from_str(NO_HISTORY);
    }
    let mut out = String::from_str("Price range: ");
    let lo = cents_string(history.min_axis_cents);
    out.append(lo.as_str());
    out.append(euro());
    out.append(" - ");
    let hi = cents_string(history.max_axis_cents);
    out.append(hi.as_str());
    out.append(euro());
    out.append("\n\n");
    out.append(HISTORY_HEADER);
    out.append(HISTORY_RULE);
    let ghost head = out@;
    let ghost rows = points@.map_values(|p: PricePoint| history_row(p));
    let mut i: usize = 0;
    while i < points.len()
        invariant
            i <= points@.len(),
            rows == points@.map_values(|p: PricePoint| history_row(p)),
            out@ == head + concat_all(rows.take(i as int)),
        decreases points@.len() - i,
    {
        push_history_row(&mut out, &points[i]);
        assert(rows.take(i + 1).drop_last() =~= rows.take(i as int));
        i = i + 1;
    }
    assert(rows.take(points@.len() as int) =~= rows);
    assert(out@ =~= history_table_spec(*history));
    out
}

} // verus!
