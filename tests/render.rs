use kuantokusta::commands::{
    browse_heading, deals_heading, history_heading, popular_heading, related_heading,
    search_heading,
};
use kuantokusta::{
    format_deals_compact, format_deals_table, format_history_table, format_products_compact,
    format_products_table, Badges, Deal, PriceHistory, PricePoint, Product, Rating, SearchResult,
    Tags,
};

fn sample_product() -> Product {
    Product {
        id: 12345,
        name: "Test Product".to_string(),
        brand: "TestBrand".to_string(),
        category: "Electronics".to_string(),
        price_min_cents: 9999,
        total_offers: 5,
        url: "/p/test-product".to_string(),
        images: vec!["https://example.com/img.jpg".to_string()],
        badges: Badges {
            is_best_seller: true,
            is_best_price: false,
            is_customers_favorite: false,
            discount_percentage: Some(10),
        },
        rating: Some(Rating { rating_count_hundredths: 450, reviews_count: 100 }),
        tags: Tags::default(),
    }
}

fn sample_deal() -> Deal {
    Deal {
        id: 67890,
        name: "Deal Product".to_string(),
        brand: "DealBrand".to_string(),
        images: vec![],
        price_min_cents: 4999,
        total_offers: 3,
        url: "/p/deal-product".to_string(),
        badges: Badges {
            is_best_seller: false,
            is_best_price: true,
            is_customers_favorite: false,
            discount_percentage: Some(25),
        },
        rating: None,
        tags: Tags::default(),
    }
}

fn sample_history() -> PriceHistory {
    PriceHistory {
        min_axis_cents: 50000,
        max_axis_cents: 80000,
        data: vec![
            PricePoint { date: "2024-01-01".to_string(), avg_cents: 65000, min_cents: 60000 },
            PricePoint { date: "2024-01-02".to_string(), avg_cents: 64000, min_cents: 59000 },
        ],
    }
}

fn sample_search_result() -> SearchResult {
    let mut product = Product::new(12345, "Test Product".to_string());
    product.brand = "TestBrand".to_string();
    product.category = "Electronics".to_string();
    product.price_min_cents = 9999;
    product.total_offers = 5;
    product.url = "/p/test".to_string();
    SearchResult { products: vec![product], total: 100 }
}

#[test]
fn format_products_table_output() {
    let products = vec![sample_product()];
    let output = format_products_table(&products);

    assert!(output.contains("ID"));
    assert!(output.contains("Name"));
    assert!(output.contains("Price"));
    assert!(output.contains("12345"));
    assert!(output.contains("Test Product"));
    assert!(output.contains("99.99"));
    assert!(output.contains("🔥"));
}

#[test]
fn format_products_table_exact_row() {
    let output = format_products_table(&[sample_product()]);
    let row = format!(
        "{:<10} {:<50} {:>9.2}€ {:>6} {:>5}{}\n",
        12345, "Test Product", 99.99, 5, "4.5", " 🔥"
    );
    assert!(output.ends_with(&row));
    assert_eq!(output.lines().count(), 3);
}

#[test]
fn format_products_compact_output() {
    let products = vec![sample_product()];
    let output = format_products_compact(&products);

    assert!(output.contains("12345"));
    assert!(output.contains("99.99€"));
    assert!(output.contains('\t'));
}

#[test]
fn format_products_compact_exact() {
    let mut second = sample_product();
    second.id = 7;
    second.price_min_cents = 5;
    second.name = "Cheap".to_string();
    let output = format_products_compact(&[sample_product(), second]);
    assert_eq!(output, "12345\t99.99€\t5\tTest Product\n7\t0.05€\t5\tCheap");
}

#[test]
fn format_products_empty() {
    let products: Vec<Product> = vec![];
    let output = format_products_table(&products);
    assert_eq!(output, "No products found.");
}

#[test]
fn format_deals_table_output() {
    let deals = vec![sample_deal()];
    let output = format_deals_table(&deals);

    assert!(output.contains("ID"));
    assert!(output.contains("Off"));
    assert!(output.contains("67890"));
    assert!(output.contains("-25%"));
}

#[test]
fn format_deals_table_uses_tag_discount() {
    let mut deal = sample_deal();
    deal.badges.discount_percentage = None;
    deal.tags.discount_percentage = Some(15);
    let output = format_deals_table(&[deal]);
    let row = format!("{:<10} {:<45} {:>9.2}€ {:>5} {:>6}\n", 67890, "Deal Product", 49.99, "-15%", 3);
    assert!(output.ends_with(&row));
}

#[test]
fn format_deals_compact_output() {
    let deals = vec![sample_deal()];
    let output = format_deals_compact(&deals);

    assert!(output.contains("67890"));
    assert!(output.contains("-25%"));
}

#[test]
fn format_deals_compact_without_discount() {
    let mut deal = sample_deal();
    deal.badges.discount_percentage = None;
    assert_eq!(format_deals_compact(&[deal]), "67890\t49.99€\t-0%\tDeal Product");
}

#[test]
fn format_deals_empty() {
    let deals: Vec<Deal> = vec![];
    let output = format_deals_table(&deals);
    assert_eq!(output, "No deals found.");
}

#[test]
fn format_history_table_output() {
    let history = sample_history();
    let output = format_history_table(&history);

    assert!(output.contains("Price range:"));
    assert!(output.contains("500.00€"));
    assert!(output.contains("800.00€"));
    assert!(output.contains("2024-01-01"));
    assert!(output.contains("600.00€"));
}

#[test]
fn format_history_table_exact() {
    let output = format_history_table(&sample_history());
    let expected = format!(
        "Price range: 500.00€ - 800.00€\n\n{:<12} {:>10} {:>10}\n{:-<12} {:->10} {:->10}\n{:<12} {:>9.2}€ {:>9.2}€\n{:<12} {:>9.2}€ {:>9.2}€\n",
        "Date", "Min", "Avg", "", "", "", "2024-01-01", 600.0, 650.0, "2024-01-02", 590.0, 640.0
    );
    assert_eq!(output, expected);
}

#[test]
fn format_history_empty() {
    let history = PriceHistory { min_axis_cents: 0, max_axis_cents: 0, data: vec![] };
    let output = format_history_table(&history);
    assert_eq!(output, "No price history available.");
}

#[test]
fn product_with_best_price_badge() {
    let mut product = sample_product();
    product.badges.is_best_seller = false;
    product.badges.is_best_price = true;

    let products = vec![product];
    let output = format_products_table(&products);
    assert!(output.contains("💰"));
}

#[test]
fn product_without_rating_or_badge() {
    let mut product = sample_product();
    product.badges.is_best_seller = false;
    product.rating = None;
    let output = format_products_table(&[product]);
    assert!(output.ends_with(&format!("{:>6} {:>5}\n", 5, "")));
    assert!(!output.contains("🔥"));
}

#[test]
fn test_format_search_result_table() {
    let result = sample_search_result();
    let output = search_heading(result.total, "test") + &format_products_table(&result.products);

    assert!(output.contains("Found 100 products for \"test\""));
    assert!(output.contains("12345"));
    assert!(output.contains("Test Product"));
}

#[test]
fn test_format_search_result_empty() {
    let result = SearchResult { products: vec![], total: 0 };
    let output = search_heading(result.total, "nothing") + &format_products_table(&result.products);

    assert!(output.contains("Found 0 products"));
    assert!(output.contains("No products found"));
}

#[test]
fn command_headings() {
    assert_eq!(search_heading(100, "iphone"), "Found 100 products for \"iphone\":\n\n");
    assert_eq!(browse_heading(1), "Popular products (1 total):\n\n");
    assert_eq!(deals_heading(1), "Found 1 deals:\n\n");
    assert_eq!(history_heading(12345, 30), "Price history for product 12345 (30 days):\n\n");
    assert_eq!(popular_heading(155), "Popular products in category 155:\n\n");
    assert_eq!(related_heading(12345, 1), "Related products for 12345 (1 total):\n\n");
}
