use kuantokusta::{categories_listing, format_categories, truncate, Category, OutputFormat};

fn sample_category() -> Category {
    Category {
        id: 155,
        parent_id: Some(100),
        label: "Smartphones".to_string(),
        slug: "smartphones".to_string(),
        has_child: true,
        url: "/c/smartphones".to_string(),
        image_url: None,
    }
}

fn category(id: u64, parent_id: Option<u64>, label: &str, slug: &str) -> Category {
    Category {
        id,
        parent_id,
        label: label.to_string(),
        slug: slug.to_string(),
        has_child: false,
        url: format!("/c/{slug}"),
        image_url: None,
    }
}

fn mock_categories() -> Vec<Category> {
    vec![
        category(1, None, "Electronics", "electronics"),
        category(155, Some(1), "Smartphones", "smartphones"),
    ]
}

#[test]
fn truncate_short_string() {
    assert_eq!(truncate("hello", 10), "hello");
}

#[test]
fn truncate_exact_length() {
    assert_eq!(truncate("hello", 5), "hello");
}

#[test]
fn truncate_long_string() {
    let result = truncate("hello world", 8);
    assert!(result.ends_with('…'));
    assert_eq!(result.chars().count(), 8);
}

#[test]
fn truncate_long_string_exact_text() {
    assert_eq!(truncate("hello world", 8), "hello w…");
}

#[test]
fn truncate_counts_bytes() {
    assert_eq!(truncate("éé", 4), "éé");
    assert_eq!(truncate("éé", 3), "é…");
    assert_eq!(truncate("aé", 2), "a…");
    assert_eq!(truncate("Eletrodomésticos", 12), "Eletrodomé…");
}

#[test]
fn truncate_moves_cut_back_to_char_start() {
    assert_eq!(truncate("éa", 2), "…");
    assert_eq!(truncate("aéb", 3), "a…");
}

#[test]
fn truncate_empty_in_zero_bytes() {
    assert_eq!(truncate("", 0), "");
}

#[test]
fn format_categories_table_output() {
    let categories = vec![sample_category()];
    let output = format_categories(&categories, OutputFormat::Table);

    assert!(output.contains("ID"));
    assert!(output.contains("Parent"));
    assert!(output.contains("155"));
    assert!(output.contains("100"));
    assert!(output.contains("Smartphones"));
}

#[test]
fn format_categories_table_exact_row() {
    let categories = vec![sample_category()];
    let output = format_categories(&categories, OutputFormat::Table);
    let expected = format!(
        "{:<8} {:<8} {:<40} {:<30}\n{:-<8} {:-<8} {:-<40} {:-<30}\n{:<8} {:<8} {:<40} {:<30}\n",
        "ID", "Parent", "Name", "Slug", "", "", "", "", "155", "100", "Smartphones", "smartphones"
    );
    assert_eq!(output, expected);
}

#[test]
fn format_categories_compact_output() {
    let categories = vec![sample_category()];
    let output = format_categories(&categories, OutputFormat::Compact);

    assert!(output.contains("155"));
    assert!(output.contains("100"));
    assert!(output.contains("Smartphones"));
}

#[test]
fn format_categories_compact_lines() {
    let output = format_categories(&mock_categories(), OutputFormat::Compact);
    assert_eq!(output, "1\t\tElectronics\n155\t1\tSmartphones");
}

#[test]
fn format_categories_empty() {
    let categories: Vec<Category> = vec![];
    let output = format_categories(&categories, OutputFormat::Table);
    assert_eq!(output, "No categories found.");
}

#[test]
fn format_categories_compact_empty() {
    let categories: Vec<Category> = vec![];
    assert_eq!(format_categories(&categories, OutputFormat::Compact), "");
}

#[test]
fn format_categories_over_50_shows_truncation() {
    let categories: Vec<Category> = (0..60)
        .map(|i| Category {
            id: i,
            parent_id: None,
            label: format!("Category {i}"),
            slug: format!("category-{i}"),
            has_child: false,
            url: format!("/c/category-{i}"),
            image_url: None,
        })
        .collect();

    let output = format_categories(&categories, OutputFormat::Table);
    assert!(output.contains("... and 10 more categories"));
}

#[test]
fn format_categories_exactly_50_shows_no_count() {
    let categories: Vec<Category> =
        (0..50).map(|i| category(i, None, &format!("C{i}"), &format!("c-{i}"))).collect();
    let output = format_categories(&categories, OutputFormat::Table);
    assert!(!output.contains("more categories"));
    assert_eq!(output.lines().count(), 52);
}

#[test]
fn format_categories_table_sorts_by_parent_then_id() {
    let categories = vec![
        category(7, Some(2), "Seven", "seven"),
        category(5, None, "Five", "five"),
        category(3, Some(1), "Three", "three"),
        category(2, None, "Two", "two"),
    ];
    let output = format_categories(&categories, OutputFormat::Table);
    let ids: Vec<&str> =
        output.lines().skip(2).map(|l| l.split_whitespace().next().unwrap()).collect();
    assert_eq!(ids, vec!["2", "5", "3", "7"]);
}

#[test]
fn format_categories_table_truncates_long_label() {
    let long = "A".repeat(45);
    let categories = vec![category(9, None, &long, "long")];
    let output = format_categories(&categories, OutputFormat::Table);
    let cut = format!("{}…", "A".repeat(37));
    assert!(output.contains(&cut));
    assert!(!output.contains(&"A".repeat(38)));
}

#[test]
fn category_without_parent() {
    let category = Category {
        id: 1,
        parent_id: None,
        label: "Root Category".to_string(),
        slug: "root".to_string(),
        has_child: true,
        url: "/c/root".to_string(),
        image_url: None,
    };

    let output = format_categories(&[category], OutputFormat::Table);
    assert!(output.contains('-'));
}

#[test]
fn format_categories_json_output() {
    let output = format_categories(&mock_categories(), OutputFormat::Json);
    assert!(output.starts_with('['));
    assert!(output.contains("\"id\": 1"));
    assert!(output.contains("\"parentId\": null"));
    assert!(output.contains("\"parentId\": 1"));
    assert!(output.contains("\"label\": \"Smartphones\""));
}

#[test]
fn test_categories_top_level() {
    let output = categories_listing(mock_categories(), None, OutputFormat::Table);
    assert!(output.contains("Top-level categories"));
    assert!(output.contains("Electronics"));
    assert!(!output.contains("Smartphones"));
}

#[test]
fn test_categories_with_parent() {
    let output = categories_listing(mock_categories(), Some(1), OutputFormat::Table);
    assert!(output.contains("Subcategories of 1"));
    assert!(output.contains("Smartphones"));
    assert!(!output.contains("Electronics"));
}

#[test]
fn test_categories_json() {
    let output = categories_listing(mock_categories(), None, OutputFormat::Json);
    assert!(output.contains("\"id\": 1"));
    assert!(!output.contains("\"id\": 155"));
}

#[test]
fn category_as_root_is_selected_as_top_level() {
    let root = category(1, None, "Root", "root");
    let selected = kuantokusta::select_categories(vec![root], None);
    assert_eq!(selected.len(), 1);
    assert!(selected[0].parent_id.is_none());
}

#[test]
fn output_format_defaults_to_table() {
    assert_eq!(OutputFormat::default(), OutputFormat::Table);
}
