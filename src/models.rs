//! The response model: typed values for the site's products, deals,
//! categories and price history. Prices are held in cents and ratings in
//! hundredths, so that every value is exact.

use vstd::prelude::*;

verus! {

/// Merchandising flags of a product, and the discount it may carry.
#[derive(Clone, Copy, Debug, PartialEq, Eq, Structural)]
pub struct Badges {
    pub is_best_seller: bool,
    pub is_best_price: bool,
    pub is_customers_favorite: bool,
    /// Discount in percent, 0 to 100.
    pub discount_percentage: Option<u8>,
}

impl Default for Badges {
    fn default() -> (r: Badges)
        ensures
            !r.is_best_seller,
            !r.is_best_price,
            !r.is_customers_favorite,
            r.discount_percentage is None,
    {
        Badges {
            is_best_seller: false,
            is_best_price: false,
            is_customers_favorite: false,
            discount_percentage: None,
        }
    }
}

/// Marketplace flags of a product, and a second place for its discount.
#[derive(Clone, Copy, Debug, PartialEq, Eq, Structural)]
pub struct Tags {
    pub is_marketplace: bool,
    pub adult_only: bool,
    pub has_split_payment: bool,
    /// Discount in percent, 0 to 100.
    pub discount_percentage: Option<u8>,
}

impl Default for Tags {
    fn default() -> (r: Tags)
        ensures
            !r.is_marketplace,
            !r.adult_only,
            !r.has_split_payment,
            r.discount_percentage is None,
    {
        Tags {
            is_marketplace: false,
            adult_only: false,
            has_split_payment: false,
            discount_percentage: None,
        }
    }
}

/// The discount that applies: the one on the badges, else the one on the tags.
pub open spec fn discount_of(badges: Badges, tags: Tags) -> Option<u8> {
    match badges.discount_percentage {
        Some(d) => Some(d),
        None => tags.discount_percentage,
    }
}

/// Resolves the discount of an item from its badges, falling back to its tags.
pub fn effective_discount(badges: &Badges, tags: &Tags) -> (r: Option<u8>)
    ensures
        r == discount_of(*badges, *tags),
{
    match badges.discount_percentage {
        Some(d) => Some(d),
        None => tags.discount_percentage,
    }
}

/// Average score and number of reviews of a product.
#[derive(Clone, Copy, Debug, PartialEq, Eq, Structural)]
pub struct Rating {
    /// Average score in hundredths (4.5 is 450).
    pub rating_count_hundredths: u32,
    pub reviews_count: u32,
}

/// A product listing. Only `id` and `name` are always sent; every other field
/// has a default.
#[derive(Clone, Debug)]
pub struct Product {
    pub id: u64,
    pub name: String,
    pub brand: String,
    pub category: String,
    /// Lowest price offered, in cents.
    pub price_min_cents: u64,
    pub total_offers: u32,
    pub url: String,
    pub images: Vec<String>,
    pub badges: Badges,
    pub rating: Option<Rating>,
    pub tags: Tags,
}

impl Product {
    /// A product with the given identifier and name and every other field at
    /// its default.
    pub fn new(id: u64, name: String) -> (r: Product)
        ensures
            r.id == id,
            r.name@ == name@,
            r.brand@.len() == 0,
            r.category@.len() == 0,
            r.price_min_cents == 0,
            r.total_offers == 0,
            r.url@.len() == 0,
            r.images@.len() == 0,
            r.badges == (Badges {
                is_best_seller: false,
                is_best_price: false,
                is_customers_favorite: false,
                discount_percentage: None,
            }),
            r.rating is None,
            r.tags == (Tags {
                is_marketplace: false,
                adult_only: false,
                has_split_payment: false,
                discount_percentage: None,
            }),
    {
        Product {
            id,
            name,
            brand: String::new(),
            category: String::new(),
            price_min_cents: 0,
            total_offers: 0,
            url: String::new(),
            images: Vec::new(),
            badges: Badges::default(),
            rating: None,
            tags: Tags::default(),
        }
    }

    /// The discount that applies to this product.
    pub fn discount(&self) -> (r: Option<u8>)
        ensures
            r == discount_of(self.badges, self.tags),
    {
        effective_discount(&self.badges, &self.tags)
    }
}

/// A discounted item from the deals listing: the fields of a product, declared
/// apart because the server declares them apart.
#[derive(Clone, Debug)]
pub struct Deal {
    pub id: u64,
    pub name: String,
    pub images: Vec<String>,
    /// Lowest price offered, in cents.
    pub price_min_cents: u64,
    pub total_offers: u32,
    pub url: String,
    pub brand: String,
    pub badges: Badges,
    pub rating: Option<Rating>,
    pub tags: Tags,
}

impl Deal {
    /// The discount that applies to this deal.
    pub fn discount(&self) -> (r: Option<u8>)
        ensures
            r == discount_of(self.badges, self.tags),
    {
        effective_discount(&self.badges, &self.tags)
    }
}

/// A page of products with the server's paging figures.
#[derive(Clone, Debug)]
pub struct ProductsResponse {
    pub data: Vec<Product>,
    pub page: u32,
    pub rows: u32,
    /// Number of matches on the server, which may exceed `data.len()`.
    pub total: u64,
}

/// Products related to another one.
#[derive(Clone, Debug)]
pub struct RelatedResponse {
    pub data: Vec<Product>,
    /// Number of related products on the server, which may exceed `data.len()`.
    pub count: u64,
}

/// A price chart: the bounds of its axis and its points in the server's order.
#[derive(Clone, Debug)]
pub struct PriceHistory {
    pub min_axis_cents: u64,
    pub max_axis_cents: u64,
    pub data: Vec<PricePoint>,
}

/// The prices of one day.
#[derive(Clone, Debug)]
pub struct PricePoint {
    /// The day, as the server writes it.
    pub date: String,
    pub avg_cents: u64,
    pub min_cents: u64,
}

/// A node of the category forest; a category without a parent is top-level.
#[derive(Clone, Debug)]
pub struct Category {
    pub id: u64,
    pub parent_id: Option<u64>,
    pub label: String,
    pub slug: String,
    pub has_child: bool,
    pub url: String,
    pub image_url: Option<String>,
}

/// A page of deals with the server's paging figures.
#[derive(Clone, Debug)]
pub struct DealsResponse {
    pub data: Vec<Deal>,
    pub page: u32,
    pub rows: u32,
    /// Number of deals on the server, which may exceed `data.len()`.
    pub total: u64,
}

/// The first `max` items of `items`, or all of them when there are fewer.
pub open spec fn capped<T>(items: Seq<T>, max: nat) -> Seq<T> {
    if items.len() <= max { items } else { items.take(max as int) }
}

/// Keeps the first `max` products, in their order.
pub fn cap_products(products: Vec<Product>, max: usize) -> (r: Vec<Product>)
    ensures
        r@ == capped(products@, max as nat),
{
    let mut products = products;
    products.truncate(max);
    products
}

/// Products found by a search, capped to what the caller asked for, with the
/// total that the site reported.
#[derive(Clone, Debug)]
pub struct SearchResult {
    pub products: Vec<Product>,
    /// Matches reported by the site; the cap does not change it.
    pub total: u64,
}

impl SearchResult {
    /// The result of a decoded search page: its first `max` products and its
    /// reported total, untouched.
    pub fn from_page(products: Vec<Product>, total: u64, max: usize) -> (r: SearchResult)
        ensures
            r.products@ == capped(products@, max as nat),
            r.total == total,
    {
        SearchResult { products: cap_products(products, max), total }
    }
}

} // verus!
