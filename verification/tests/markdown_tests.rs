//! Markdown ↔ Notion blocks.
use notion_pomodoro_tracker::infrastructure::notion::markdown::{
    blocks_from_events, blocks_to_markdown, markdown_to_blocks, MdEvent,
};
use notion_pomodoro_tracker::json::Json;

fn conv(v: &serde_json::Value) -> Json {
    match v {
        serde_json::Value::Null => Json::Null,
        serde_json::Value::Bool(b) => Json::Bool(*b),
        serde_json::Value::Number(n) => Json::Number(n.as_i64().unwrap_or(0)),
        serde_json::Value::String(s) => Json::Str(s.clone()),
        serde_json::Value::Array(items) => Json::Array(items.iter().map(conv).collect()),
        serde_json::Value::Object(m) => {
            Json::Object(m.iter().map(|(k, v)| (k.clone(), conv(v))).collect())
        }
    }
}

fn json(text: &str) -> Json {
    conv(&serde_json::from_str(text).unwrap())
}

// Minimal Notion rich_text items.
fn text(s: &str) -> String {
    format!(r#"{{ "type": "text", "plain_text": "{s}", "annotations": {{}}, "href": null }}"#)
}

fn bold(s: &str) -> String {
    format!(r#"{{ "type": "text", "plain_text": "{s}", "annotations": {{ "bold": true }}, "href": null }}"#)
}

fn block(ty: &str, items: &[String]) -> Json {
    json(&format!(r#"{{ "type": "{ty}", "{ty}": {{ "rich_text": [{}] }} }}"#, items.join(", ")))
}

#[test]
fn blocks_to_markdown_covers_common_types() {
    let blocks = vec![
        block("heading_1", &[text("Goals")]),
        block("paragraph", &[text("Ship the "), bold("PWA"), text(" work")]),
        block("bulleted_list_item", &[text("research")]),
        block("bulleted_list_item", &[text("test cache")]),
    ];
    let md = blocks_to_markdown(&blocks);
    assert_eq!(md, "# Goals\n\nShip the **PWA** work\n\n- research\n- test cache");
}

#[test]
fn markdown_round_trips_through_blocks() {
    let md = "# Goals\n\nShip the **PWA** work\n\n- research\n- test cache";
    let blocks = markdown_to_blocks(md);
    assert_eq!(blocks_to_markdown(&blocks), md);
}

#[test]
fn todo_and_code_survive_round_trip() {
    let md = "- [x] done item\n- [ ] open item";
    let blocks = markdown_to_blocks(md);
    assert_eq!(blocks_to_markdown(&blocks), md);

    let code = "```rust\nlet x = 1;\n```";
    let blocks = markdown_to_blocks(code);
    assert_eq!(blocks[0].get("type").and_then(Json::as_str), Some("code"));
    assert_eq!(blocks_to_markdown(&blocks), code);
}

#[test]
fn every_block_kind_renders() {
    let blocks = vec![
        block("heading_2", &[text("Two")]),
        block("heading_3", &[text("Three")]),
        block("numbered_list_item", &[text("first")]),
        json(r#"{ "type": "to_do", "to_do": { "rich_text": [{ "plain_text": "x" }], "checked": true } }"#),
        block("quote", &[text("said")]),
        json(r#"{ "type": "code", "code": { "rich_text": [{ "plain_text": "a" }], "language": "sh" } }"#),
        json(r#"{ "type": "divider", "divider": {} }"#),
        block("callout", &[text("kept")]),
    ];
    assert_eq!(
        blocks_to_markdown(&blocks),
        "## Two\n\n### Three\n\n1. first\n- [x] x\n\n> said\n\n```sh\na\n```\n\n---\n\nkept"
    );
}

#[test]
fn inline_styles_nest_in_order() {
    let item = r#"{ "text": { "content": "t", "link": { "url": "https://e.x" } },
        "annotations": { "bold": true, "italic": true, "strikethrough": true } }"#;
    let code = r#"{ "plain_text": "c", "annotations": { "code": true, "bold": true } }"#;
    let empty = r#"{ "plain_text": "", "annotations": { "bold": true } }"#;
    let b = json(&format!(
        r#"{{ "type": "paragraph", "paragraph": {{ "rich_text": [{item}, {code}, {empty}] }} }}"#
    ));
    assert_eq!(blocks_to_markdown(&[b]), "[***~~t~~***](https://e.x)`c`");
}

#[test]
fn builder_follows_events() {
    let events = vec![
        MdEvent::StartParagraph,
        MdEvent::Text("a ".into()),
        MdEvent::StartStrong,
        MdEvent::Text("b".into()),
        MdEvent::EndStrong,
        MdEvent::EndParagraph,
        MdEvent::Rule,
        MdEvent::StartCodeBlock(None),
        MdEvent::Text("x\n\n".into()),
        MdEvent::EndCodeBlock,
    ];
    let blocks = blocks_from_events(&events);
    assert_eq!(blocks.len(), 3);
    assert_eq!(blocks_to_markdown(&blocks), "a **b**\n\n---\n\n```plain text\nx\n```");
}

#[test]
fn empty_markdown_makes_no_blocks() {
    assert!(markdown_to_blocks("").is_empty());
    assert_eq!(blocks_to_markdown(&[]), "");
}

#[test]
fn numbered_lists_and_links_round_trip() {
    let md = "1. one\n1. two\n\nsee [docs](https://example.com) and `code`";
    let blocks = markdown_to_blocks(md);
    assert_eq!(blocks_to_markdown(&blocks), md);
}
