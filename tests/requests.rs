use kuantokusta::models::effective_discount;
use kuantokusta::requests::{
    categories_request, deals_request, discount_range_token, popular_request,
    price_history_request, price_range_token, products_request, related_request, search_url,
};
use kuantokusta::text::decimal_string;
use kuantokusta::{Badges, Deal, Product, Tags};

fn pairs(query: &[(String, String)]) -> Vec<(&str, &str)> {
    query.iter().map(|(k, v)| (k.as_str(), v.as_str())).collect()
}

#[test]
fn price_range_defaults() {
    assert_eq!(price_range_token(None, None), "0_50000");
}

#[test]
fn price_range_with_bounds() {
    assert_eq!(price_range_token(Some(10), Some(100)), "10_100");
    assert_eq!(price_range_token(Some(50), Some(500)), "50_500");
    assert_eq!(price_range_token(Some(7), None), "7_50000");
    assert_eq!(price_range_token(None, Some(0)), "0_0");
}

#[test]
fn discount_range_tokens() {
    assert_eq!(discount_range_token(None), "FROM_5");
    assert_eq!(discount_range_token(Some(10)), "FROM_10");
    assert_eq!(discount_range_token(Some(0)), "FROM_0");
    assert_eq!(discount_range_token(Some(255)), "FROM_255");
}

#[test]
fn decimal_rendering() {
    assert_eq!(decimal_string(0), "0");
    assert_eq!(decimal_string(7), "7");
    assert_eq!(decimal_string(10), "10");
    assert_eq!(decimal_string(11406755), "11406755");
    assert_eq!(decimal_string(u64::MAX), "18446744073709551615");
}

#[test]
fn test_deals_with_price_range() {
    let req = deals_request(20, 1, None, Some(50), Some(500));
    assert_eq!(req.path, "/deals");
    assert_eq!(
        pairs(&req.query),
        vec![("priceRange", "50_500"), ("discountRange", "FROM_5"), ("rows", "20"), ("page", "1")]
    );
}

#[test]
fn products_request_query() {
    let req = products_request(20);
    assert_eq!(req.path, "/products");
    assert_eq!(pairs(&req.query), vec![("rows", "20")]);
}

#[test]
fn price_history_request_path() {
    let req = price_history_request(12345, 30);
    assert_eq!(req.path, "/products/12345/price-history");
    assert_eq!(pairs(&req.query), vec![("days", "30")]);
}

#[test]
fn popular_request_query() {
    let req = popular_request(155, 10);
    assert_eq!(req.path, "/products/popular");
    assert_eq!(pairs(&req.query), vec![("categoryId", "155"), ("rows", "10")]);
}

#[test]
fn related_and_categories_requests() {
    let req = related_request(12345);
    assert_eq!(req.path, "/products/12345/related");
    assert!(req.query.is_empty());
    let req = categories_request();
    assert_eq!(req.path, "/categories");
    assert!(req.query.is_empty());
}

#[test]
fn search_url_encodes_query() {
    assert_eq!(search_url("http://localhost:8080", "iphone"), "http://localhost:8080/search?q=iphone");
    assert_eq!(
        search_url("https://www.kuantokusta.pt", "iphone 16 pro/max"),
        "https://www.kuantokusta.pt/search?q=iphone%2016%20pro%2Fmax"
    );
    assert_eq!(search_url("", "café-1.0_~"), "/search?q=caf%C3%A9-1.0_~");
}

fn deal_with(badge: Option<u8>, tag: Option<u8>) -> Deal {
    Deal {
        id: 1,
        name: "Tagged Deal".to_string(),
        images: vec![],
        price_min_cents: 10000,
        total_offers: 5,
        url: String::new(),
        brand: String::new(),
        badges: Badges { discount_percentage: badge, ..Badges::default() },
        rating: None,
        tags: Tags { discount_percentage: tag, ..Tags::default() },
    }
}

#[test]
fn deal_discount_falls_back_to_tags() {
    assert_eq!(deal_with(None, Some(15)).discount(), Some(15));
}

#[test]
fn badge_discount_is_preferred() {
    assert_eq!(deal_with(Some(25), Some(15)).discount(), Some(25));
    assert_eq!(deal_with(None, None).discount(), None);
    assert_eq!(effective_discount(&Badges::default(), &Tags::default()), None);
}

#[test]
fn new_product_has_documented_defaults() {
    let product = Product::new(1, "Minimal Product".to_string());
    assert_eq!(product.id, 1);
    assert_eq!(product.name, "Minimal Product");
    assert_eq!(product.brand, "");
    assert_eq!(product.price_min_cents, 0);
    assert_eq!(product.total_offers, 0);
    assert!(product.images.is_empty());
    assert!(product.rating.is_none());
    assert_eq!(product.discount(), None);
}
