//! Core of a client for a price-comparison site: the response model, the
//! block-page guard and the extractor of the JSON that search pages embed,
//! the cap on search results, query construction for the typed endpoints, and
//! the text renderings of products, deals, price history and categories.
//! Sending requests and decoding JSON are left to the caller.

pub mod commands;
pub mod error;
pub mod format;
pub mod models;
pub mod render;
pub mod requests;
pub mod scraper;
pub mod text;

pub use error::ApiError;
pub use scraper::{classify, extract, search_payload, PageClass};
pub use models::{
    Badges, Category, Deal, DealsResponse, PriceHistory, PricePoint, Product, ProductsResponse,
    Rating, RelatedResponse, SearchResult, Tags,
};
pub use requests::ApiRequest;
pub use format::{
    categories_listing, format_categories, format_categories_compact, format_categories_table,
    select_categories, truncate, OutputFormat,
};
pub use render::{
    format_deals_compact, format_deals_table, format_history_table, format_products_compact,
    format_products_table,
};
