//! What the Notion client decides between requests.
use notion_pomodoro_tracker::application::settings_service::PropertyMappings;
use notion_pomodoro_tracker::application::sync_service::NotionError;
use notion_pomodoro_tracker::domain::task::Task;
use notion_pomodoro_tracker::infrastructure::notion::client::{
    append_bodies, append_children_url, bearer, block_ids, block_url, check_status, children_url,
    clean_token, database_url, edited_time_or, next_cursor, page_url, property_types, push_request,
    query_body, query_url, rate_limit_wait, retry_after, tasks_from_results,
};
use notion_pomodoro_tracker::json::Json;

fn conv(v: &serde_json::Value) -> Json {
    match v {
        serde_json::Value::Null => Json::Null,
        serde_json::Value::Bool(b) => Json::Bool(*b),
        serde_json::Value::Number(n) => Json::Number(n.as_i64().unwrap_or(0)),
        serde_json::Value::String(s) => Json::Str(s.clone()),
        serde_json::Value::Array(items) => Json::Array(items.iter().map(conv).collect()),
        serde_json::Value::Object(m) => {
            Json::Object(m.iter().map(|(k, v)| (k.clone(), conv(v))).collect())
        }
    }
}

fn json(text: &str) -> Json {
    conv(&serde_json::from_str(text).unwrap())
}

#[test]
fn statuses_map_to_errors() {
    assert!(check_status(200, &Json::Null).is_ok());
    assert_eq!(check_status(401, &Json::Null), Err(NotionError::Unauthorized));
    assert_eq!(check_status(403, &Json::Null), Err(NotionError::Unauthorized));
    assert_eq!(check_status(404, &Json::Null), Err(NotionError::NotFound));
    assert_eq!(
        check_status(400, &json(r#"{ "message": "bad filter" }"#)),
        Err(NotionError::Api { status: 400, message: "bad filter".into() })
    );
    assert_eq!(
        check_status(502, &Json::Null),
        Err(NotionError::Api { status: 502, message: "unknown error".into() })
    );
}

#[test]
fn retries_back_off_then_give_up() {
    let net = NotionError::Network("reset".into());
    assert_eq!(retry_after(&net, 0), Some(1000));
    assert_eq!(retry_after(&net, 1), Some(2000));
    assert_eq!(retry_after(&net, 2), Some(4000));
    assert_eq!(retry_after(&net, 3), None);
    let limited = NotionError::Api { status: 429, message: String::new() };
    assert_eq!(retry_after(&limited, 0), Some(1000));
    let server = NotionError::Api { status: 503, message: String::new() };
    assert_eq!(retry_after(&server, 1), Some(2000));
    assert_eq!(retry_after(&NotionError::Unauthorized, 0), None);
    let bad = NotionError::Api { status: 400, message: String::new() };
    assert_eq!(retry_after(&bad, 0), None);
}

#[test]
fn requests_are_spaced() {
    assert_eq!(rate_limit_wait(None), 0);
    assert_eq!(rate_limit_wait(Some(100)), 250);
    assert_eq!(rate_limit_wait(Some(350)), 0);
    assert_eq!(rate_limit_wait(Some(10_000)), 0);
}

#[test]
fn pagination_cursor() {
    assert_eq!(next_cursor(&json(r#"{ "has_more": true, "next_cursor": "c2" }"#)).as_deref(), Some("c2"));
    assert_eq!(next_cursor(&json(r#"{ "has_more": false, "next_cursor": "c2" }"#)), None);
    assert_eq!(next_cursor(&json(r#"{ "has_more": true, "next_cursor": null }"#)), None);
}

#[test]
fn database_properties_are_listed() {
    let body = json(r#"{ "properties": { "Name": { "type": "title" }, "Odd": {} } }"#);
    let mut props = property_types(&body).unwrap();
    props.sort();
    assert_eq!(
        props,
        vec![("Name".to_string(), "title".to_string()), ("Odd".to_string(), "unknown".to_string())]
    );
    assert_eq!(
        property_types(&json("{}")),
        Err(NotionError::Api { status: 200, message: "no properties in response".into() })
    );
}

#[test]
fn query_results_become_tasks() {
    let page = json(
        r#"{ "results": [
            { "id": "a", "properties": { "Name": { "title": [ { "plain_text": "A" } ] } } },
            { "properties": {} },
            { "id": "b", "properties": {} }
        ] }"#,
    );
    let tasks = tasks_from_results(&page, &PropertyMappings::default());
    let ids: Vec<&str> = tasks.iter().map(|t| t.page_id.as_str()).collect();
    assert_eq!(ids, vec!["a", "b"]);
    assert_eq!(tasks[1].title, "(untitled)");
}

#[test]
fn edited_time_falls_back() {
    let r = json(r#"{ "last_edited_time": "2026-07-01T10:00:00.000Z" }"#);
    assert_eq!(edited_time_or(&r, 5), 1_782_900_000_000);
    assert_eq!(edited_time_or(&json(r#"{ "last_edited_time": "nope" }"#), 5), 5);
    assert_eq!(edited_time_or(&Json::Null, 7), 7);
}

#[test]
fn urls_and_headers() {
    assert_eq!(database_url("d"), "https://api.notion.com/v1/databases/d");
    assert_eq!(query_url("d"), "https://api.notion.com/v1/databases/d/query");
    assert_eq!(page_url("p"), "https://api.notion.com/v1/pages/p");
    assert_eq!(block_url("b"), "https://api.notion.com/v1/blocks/b");
    assert_eq!(append_children_url("b"), "https://api.notion.com/v1/blocks/b/children");
    assert_eq!(children_url("b", &None), "https://api.notion.com/v1/blocks/b/children?page_size=100");
    assert_eq!(
        children_url("b", &Some("c".into())),
        "https://api.notion.com/v1/blocks/b/children?page_size=100&start_cursor=c"
    );
    assert_eq!(bearer("t"), "Bearer t");
    assert_eq!(clean_token("  secret \n"), "secret");
}

#[test]
fn request_bodies() {
    let b = query_body(&None);
    assert_eq!(b.get("page_size").and_then(Json::as_number), Some(100));
    assert!(b.get("start_cursor").is_none());
    let b = query_body(&Some("c".into()));
    assert_eq!(b.get("start_cursor").and_then(Json::as_str), Some("c"));

    let task = Task::new_local("T", 0);
    assert_eq!(
        push_request(&task, &PropertyMappings::default(), 0).err(),
        Some(NotionError::Api { status: 0, message: "task has no Notion page id".into() })
    );
    let mut linked = task.clone();
    linked.notion_page_id = Some("p".into());
    let u = push_request(&linked, &PropertyMappings::default(), 0).unwrap();
    assert_eq!(u.page_id, "p");
    assert!(u.body.get("properties").and_then(|p| p.get("Name")).is_some());
}

#[test]
fn body_replacement_requests() {
    let blocks = vec![json(r#"{ "id": "x" }"#), json(r#"{ "type": "divider" }"#), json(r#"{ "id": "y" }"#)];
    assert_eq!(block_ids(&blocks), vec!["x".to_string(), "y".to_string()]);

    let many: Vec<Json> = (0..230).map(|i| Json::Number(i)).collect();
    let bodies = append_bodies(many);
    let sizes: Vec<usize> = bodies
        .iter()
        .map(|b| b.get("children").and_then(Json::as_array).unwrap().len())
        .collect();
    assert_eq!(sizes, vec![100, 100, 30]);
    let last = bodies[2].get("children").and_then(Json::as_array).unwrap();
    assert_eq!(last[0].as_number(), Some(200));
    assert!(append_bodies(vec![]).is_empty());
}
