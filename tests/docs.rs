use mcp_rust_docs::docs::DocsUseCase;
use mcp_rust_docs::entity::Item;
use mcp_rust_docs::error::Error;
use mcp_rust_docs::sanitize::sanitize;
use mcp_rust_docs::search::split_label_words;

fn item(item_type: &str, href: Option<&str>, path: Option<&str>) -> Item {
    Item {
        item_type: item_type.to_string(),
        href: href.map(|h| h.to_string()),
        path: path.map(|p| p.to_string()),
    }
}

fn all_items_page() -> String {
    let mut html = String::from("<html><head><title>All items</title></head><body>");
    html.push_str("<section id=\"main-content\" class=\"content\"><h1>List of all items</h1>");
    html.push_str("<h3 id=\"structs\">Structs</h3><ul class=\"all-items\">");
    html.push_str("<li><a href=\"struct.Alpha.html\">Alpha</a></li>");
    html.push_str("<li><a href=\"struct.Beta.html\">Beta</a></li></ul>");
    html.push_str("<h3 id=\"enums\">Enums</h3><ul class=\"all-items\">");
    html.push_str("<li><a href=\"enum.Gamma.html\">Gamma</a></li></ul>");
    html.push_str("</section></body></html>");
    html
}

#[test]
fn index_page_url_for_latest_serde() {
    let docs = DocsUseCase::new();
    assert_eq!(docs.index_page_url("serde", "latest"), "https://docs.rs/serde/latest/serde/index.html");
}

#[test]
fn page_and_catalog_urls() {
    let docs = DocsUseCase::new();
    assert_eq!(
        docs.page_url("tokio", "1.0.0", "/sync/struct.Mutex.html"),
        "https://docs.rs/tokio/1.0.0/tokio/sync/struct.Mutex.html"
    );
    assert_eq!(docs.all_items_url("serde", "latest"), "https://docs.rs/serde/latest/serde/all.html");
}

#[test]
fn extract_single_match_returns_its_inner_markup() {
    let docs = DocsUseCase::new();
    let html = "<html><body><nav>menu</nav><section id=\"main-content\"><p>Hello <b>world</b></p></section></body></html>";
    let got = docs.extract_main_content(html, "section#main-content").ok().unwrap();
    assert_eq!(got, "<p>Hello <b>world</b></p>");
}

#[test]
fn extract_keeps_only_the_first_match() {
    let docs = DocsUseCase::new();
    let html = "<div class=\"x\">first</div><div class=\"x\">second</div>";
    let got = docs.extract_main_content(html, "div.x").ok().unwrap();
    assert_eq!(got, "first");
}

#[test]
fn extract_without_match_reports_content_not_found() {
    let docs = DocsUseCase::new();
    let res = docs.extract_main_content("<html><body><p>nothing</p></body></html>", "section#main-content");
    match res {
        Err(Error::HtmlMainContentNotFound(msg)) => assert_eq!(msg, "Element not found: section#main-content"),
        _ => panic!("expected a missing content region"),
    }
}

#[test]
fn extract_with_malformed_selector_reports_selector_error() {
    let docs = DocsUseCase::new();
    let res = docs.extract_main_content("<p>x</p>", "section[");
    assert!(matches!(res, Err(Error::ScraperSelectorParse(_))));
}

#[test]
fn sanitize_removes_script_blocks_in_any_case() {
    let out = sanitize("<p>a</p><SCRIPT type=\"x\">var a = 1;\nalert(a);</ScRiPt><p>b</p>");
    assert_eq!(out, "<p>a</p><p>b</p>");
    assert!(!out.contains("<script"));
}

#[test]
fn sanitize_removes_scripts_revealed_by_a_removal() {
    let out = sanitize("<scr<script></script>ipt>x</script>y");
    assert_eq!(out, "y");
}

#[test]
fn sanitize_removes_unclosed_script_to_the_end() {
    assert_eq!(sanitize("<p>keep</p><script>never closed"), "<p>keep</p>");
}

#[test]
fn sanitize_removes_class_attributes_and_toolbar() {
    let out = sanitize("<div class=\"docblock\"><rustdoc-toolbar><button>x</button></rustdoc-toolbar><h1 class=\"fqn\">Title</h1></div>");
    assert_eq!(out, "<div><h1>Title</h1></div>");
}

#[test]
fn sanitize_removes_single_quoted_class_attributes() {
    assert_eq!(sanitize("<span class='kw' id=\"k\">fn</span>"), "<span id=\"k\">fn</span>");
}

#[test]
fn sanitize_keeps_class_text_outside_tags() {
    assert_eq!(sanitize("<p>set class=\"x\" here</p>"), "<p>set class=\"x\" here</p>");
}

#[test]
fn sanitize_is_idempotent_on_example() {
    let input = "<a class=\"x\" href=\"y\">z</a><script>1</script>";
    let once = sanitize(input);
    assert_eq!(once, "<a href=\"y\">z</a>");
    assert_eq!(sanitize(&once), once);
}

#[test]
fn sanitize_leaves_clean_markup_unchanged() {
    assert_eq!(sanitize(""), "");
    assert_eq!(sanitize("<p>plain</p>"), "<p>plain</p>");
}

#[test]
fn render_page_converts_clean_content_to_markdown() {
    let docs = DocsUseCase::new();
    let html = "<html><body><section id=\"main-content\"><h1 class=\"fqn\">Title</h1><script>alert(1)</script><p>Some text</p></section></body></html>";
    let md = docs.render_page(html).ok().unwrap();
    assert!(md.contains("Title"));
    assert!(md.contains("Some text"));
    assert!(!md.contains("alert"));
    assert!(!md.contains("<h1"));
}

#[test]
fn render_page_without_content_region_fails() {
    let docs = DocsUseCase::new();
    let res = docs.render_page("<html><body><p>x</p></body></html>");
    assert!(matches!(res, Err(Error::HtmlMainContentNotFound(_))));
}

#[test]
fn catalog_pairs_headings_with_listings() {
    let docs = DocsUseCase::new();
    let items = docs.parse_all_items(&all_items_page()).ok().unwrap();
    assert_eq!(items.len(), 3);
    assert_eq!(items[0].item_type, "Structs");
    assert_eq!(items[0].href.as_deref(), Some("struct.Alpha.html"));
    assert_eq!(items[0].path.as_deref(), Some("Alpha"));
    assert_eq!(items[1].item_type, "Structs");
    assert_eq!(items[1].path.as_deref(), Some("Beta"));
    assert_eq!(items[2].item_type, "Enums");
    assert_eq!(items[2].href.as_deref(), Some("enum.Gamma.html"));
}

#[test]
fn catalog_of_empty_page_is_empty() {
    let docs = DocsUseCase::new();
    let items = docs.parse_all_items("").ok().unwrap();
    assert!(items.is_empty());
}

#[test]
fn catalog_trims_headings_and_keeps_anchors_without_link() {
    let docs = DocsUseCase::new();
    let html = "<section id=\"main-content\"><h3>\n  Functions  </h3><ul><li><a>orphan</a></li></ul><h3>Extra</h3></section>";
    let items = docs.parse_all_items(html).ok().unwrap();
    assert_eq!(items.len(), 1);
    assert_eq!(items[0].item_type, "Functions");
    assert_eq!(items[0].href, None);
    assert_eq!(items[0].path.as_deref(), Some("orphan"));
}

#[test]
fn search_returns_at_most_ten_items() {
    let docs = DocsUseCase::new();
    let mut catalog = Vec::new();
    for k in 0..15 {
        catalog.push(item("Structs", Some(&format!("struct.Item{k}.html")), Some(&format!("item number {k}"))));
    }
    let found = docs.search_items(&catalog, "item").ok().unwrap();
    assert_eq!(found.len(), 10);
}

#[test]
fn search_matches_label_words_only() {
    let docs = DocsUseCase::new();
    let catalog = vec![
        item("Traits", Some("de/trait.Deserializer.html"), Some("de::Deserializer")),
        item("Structs", Some("struct.Config.html"), Some("Config")),
        item("Traits", Some("ser/trait.Serializer.html"), Some("ser::Serializer")),
    ];
    let found = docs.search_items(&catalog, "Deserializer").ok().unwrap();
    assert_eq!(found.len(), 1);
    assert_eq!(found[0].item_type, "Traits");
    assert_eq!(found[0].href.as_deref(), Some("de/trait.Deserializer.html"));
    assert_eq!(found[0].path.as_deref(), Some("de::Deserializer"));
}

#[test]
fn search_finds_camel_case_words_inside_labels() {
    let docs = DocsUseCase::new();
    let catalog = vec![
        item("Structs", Some("de/value/struct.BoolDeserializer.html"), Some("BoolDeserializer")),
        item("Structs", Some("de/value/struct.StringDeserializer.html"), Some("StringDeserializer")),
        item("Structs", Some("struct.Config.html"), Some("Config")),
    ];
    let found = docs.search_items(&catalog, "Deserializer").ok().unwrap();
    assert_eq!(found.len(), 2);
    let labels: Vec<&str> = found.iter().map(|i| i.path.as_deref().unwrap()).collect();
    assert!(labels.contains(&"BoolDeserializer"));
    assert!(labels.contains(&"StringDeserializer"));
    assert!(!labels.contains(&"Config"));
}

#[test]
fn search_returns_distinct_entries_and_skips_unlabelled_ones() {
    let docs = DocsUseCase::new();
    let catalog = vec![
        item("Structs", Some("a.html"), None),
        item("Structs", Some("b.html"), Some("MapAccess")),
        item("Traits", Some("c.html"), Some("SeqAccess")),
    ];
    let found = docs.search_items(&catalog, "Access").ok().unwrap();
    assert_eq!(found.len(), 2);
    assert_ne!(found[0].href, found[1].href);
    assert!(found.iter().all(|i| i.path.is_some()));
}

#[test]
fn search_keeps_catalog_order_for_equal_scores() {
    let docs = DocsUseCase::new();
    let catalog = vec![
        item("Structs", Some("a.html"), Some("Visitor")),
        item("Traits", Some("b.html"), Some("Visitor")),
        item("Enums", Some("c.html"), Some("Visitor")),
    ];
    let found = docs.search_items(&catalog, "visitor").ok().unwrap();
    let hrefs: Vec<&str> = found.iter().map(|i| i.href.as_deref().unwrap()).collect();
    assert_eq!(hrefs, vec!["a.html", "b.html", "c.html"]);
}

#[test]
fn label_words_split_at_camel_case_boundaries() {
    assert_eq!(split_label_words("BoolDeserializer"), "Bool Deserializer");
    assert_eq!(split_label_words("de::value::U8Deserializer"), "de::value::U8 Deserializer");
    assert_eq!(split_label_words("HTTPServer"), "HTTPServer");
    assert_eq!(split_label_words("v2Api"), "v2 Api");
    assert_eq!(split_label_words(""), "");
}

#[test]
fn search_does_not_match_category_or_link() {
    let docs = DocsUseCase::new();
    let catalog = vec![item("Structs", Some("struct.Config.html"), Some("Config"))];
    let found = docs.search_items(&catalog, "structs").ok().unwrap();
    assert!(found.is_empty());
}

#[test]
fn search_with_invalid_query_reports_parse_error() {
    let docs = DocsUseCase::new();
    let catalog = vec![item("Structs", Some("struct.Config.html"), Some("Config"))];
    let res = docs.search_items(&catalog, "nosuchfield:Config");
    assert!(matches!(res, Err(Error::FuzzySearchQueryParse(_))));
}

#[test]
fn search_over_empty_catalog_finds_nothing() {
    let docs = DocsUseCase::new();
    let found = docs.search_items(&Vec::new(), "anything").ok().unwrap();
    assert!(found.is_empty());
}
