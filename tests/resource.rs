use mcp_rust_docs::docs::DocsUseCase;
use mcp_rust_docs::entity::Item;
use mcp_rust_docs::error::Error;
use mcp_rust_docs::resource::ResourceMap;

#[test]
fn resource_map_lists_the_instruction() {
    let map = ResourceMap::new("read the docs".to_string());
    let all = map.list_resources();
    assert_eq!(all.len(), 1);
    assert_eq!(all[0].uri, "str://mcp-rust-docs/instruction");
    assert_eq!(all[0].name, "Instruction");
    assert_eq!(all[0].mime_type.as_deref(), Some("text/plain"));
    assert_eq!(all[0].size, None);
    assert_eq!(all[0].text, "read the docs");
}

#[test]
fn resource_map_reads_known_address() {
    let map = ResourceMap::new("read the docs".to_string());
    let found = map.read_resource("str://mcp-rust-docs/instruction").ok().unwrap();
    assert_eq!(found.text, "read the docs");
    assert_eq!(
        found.description.as_deref(),
        Some("Mandatory instructions for AI agents to use MCP tools when handling Rust documentation queries")
    );
}

#[test]
fn resource_map_reports_unknown_address() {
    let map = ResourceMap::new("read the docs".to_string());
    match map.read_resource("str://nowhere") {
        Err(msg) => assert_eq!(msg, "Resource not found: str://nowhere"),
        Ok(_) => panic!("expected no resource"),
    }
}

#[test]
fn error_messages_name_the_failure() {
    assert_eq!(Error::Http("timed out".to_string()).message(), "HTTP request error: timed out");
    assert_eq!(Error::InitializeClient("x".to_string()).message(), "Failed to initialize client: x");
    assert_eq!(Error::CratesIoApi("down".to_string()).message(), "Network error: down");
    assert_eq!(Error::ScraperSelectorParse("bad".to_string()).message(), "Failed to parse CSS Selector: bad");
    assert_eq!(
        Error::HtmlMainContentNotFound("Element not found: a".to_string()).message(),
        "Failed to parse HTML: Element not found: a"
    );
    assert_eq!(Error::CreateTempDir("io".to_string()).message(), "Failed to create temporary directories.");
    assert_eq!(Error::FuzzySearch("engine".to_string()).message(), "engine");
    assert_eq!(Error::FuzzySearchQueryParse("syntax".to_string()).message(), "syntax");
}

fn catalog() -> Vec<Item> {
    vec![
        Item { item_type: "Structs".to_string(), href: Some("struct.A.html".to_string()), path: Some("A".to_string()) },
        Item { item_type: "Enums".to_string(), href: None, path: Some("B".to_string()) },
    ]
}

#[test]
fn items_at_follows_positions_in_order() {
    let docs = DocsUseCase::new();
    let found = docs.items_at(&catalog(), &vec![Some(1), Some(0), Some(1)]).ok().unwrap();
    assert_eq!(found.len(), 3);
    assert_eq!(found[0].path.as_deref(), Some("B"));
    assert_eq!(found[0].href, None);
    assert_eq!(found[1].item_type, "Structs");
    assert_eq!(found[1].href.as_deref(), Some("struct.A.html"));
    assert_eq!(found[2].item_type, "Enums");
}

#[test]
fn items_at_rejects_missing_or_outside_positions() {
    let docs = DocsUseCase::new();
    assert!(matches!(docs.items_at(&catalog(), &vec![Some(2)]), Err(Error::FuzzySearch(_))));
    assert!(matches!(docs.items_at(&catalog(), &vec![Some(0), None]), Err(Error::FuzzySearch(_))));
    assert!(docs.items_at(&catalog(), &Vec::new()).ok().unwrap().is_empty());
}
