//! Notion page JSON ↔ task mapping.
use notion_pomodoro_tracker::application::settings_service::PropertyMappings;
use notion_pomodoro_tracker::calendar::Date;
use notion_pomodoro_tracker::domain::task::Task;
use notion_pomodoro_tracker::infrastructure::notion::mapping::{
    build_push_properties, remote_task_from_page,
};
use notion_pomodoro_tracker::json::Json;

fn conv(v: &serde_json::Value) -> Json {
    match v {
        serde_json::Value::Null => Json::Null,
        serde_json::Value::Bool(b) => Json::Bool(*b),
        serde_json::Value::Number(n) => Json::Number(n.as_i64().unwrap_or(0)),
        serde_json::Value::String(s) => Json::Str(s.clone()),
        serde_json::Value::Array(items) => Json::Array(items.iter().map(conv).collect()),
        serde_json::Value::Object(m) => {
            Json::Object(m.iter().map(|(k, v)| (k.clone(), conv(v))).collect())
        }
    }
}

fn json(text: &str) -> Json {
    conv(&serde_json::from_str(text).unwrap())
}

fn at<'a>(j: &'a Json, path: &[&str]) -> Option<&'a Json> {
    let mut cur = j;
    for key in path {
        cur = match key.parse::<usize>() {
            Ok(i) => cur.as_array()?.get(i)?,
            Err(_) => cur.get(key)?,
        };
    }
    Some(cur)
}

fn text_at<'a>(j: &'a Json, path: &[&str]) -> Option<&'a str> {
    at(j, path)?.as_str()
}

fn rfc3339(ms: i64) -> String {
    chrono::DateTime::<chrono::Utc>::from_timestamp_millis(ms).unwrap().to_rfc3339()
}

fn mappings() -> PropertyMappings {
    PropertyMappings::default()
}

fn now() -> i64 {
    chrono::Utc::now().timestamp_millis()
}

fn sample_page() -> Json {
    json(
        r#"{
            "id": "page-123",
            "last_edited_time": "2026-07-01T10:00:00.000Z",
            "properties": {
                "Name": { "title": [
                    { "plain_text": "Ship " }, { "plain_text": "release" }
                ]},
                "Status": { "status": { "name": "In Progress" } },
                "Due": { "date": { "start": "2026-07-15" } },
                "Priority": { "select": { "name": "High" } },
                "Pomodoros": { "number": 3 },
                "Minutes": { "number": 75 }
            }
        }"#,
    )
}

#[test]
fn extracts_all_mapped_fields() {
    let remote = remote_task_from_page(&sample_page(), &mappings()).unwrap();
    assert_eq!(remote.page_id, "page-123");
    assert_eq!(remote.title, "Ship release");
    assert_eq!(remote.status.as_deref(), Some("In Progress"));
    assert_eq!(remote.due_date, Date::parse_iso("2026-07-15"));
    assert_eq!(remote.priority.as_deref(), Some("High"));
    assert_eq!(remote.pomodoro_count, Some(3));
    assert_eq!(remote.tracked_minutes, Some(75));
    assert_eq!(rfc3339(remote.last_edited), "2026-07-01T10:00:00+00:00");
}

#[test]
fn tolerates_missing_optional_properties() {
    let page = json(
        r#"{
            "id": "page-9",
            "last_edited_time": "2026-07-01T10:00:00.000Z",
            "properties": { "Name": { "title": [ { "plain_text": "Bare" } ] } }
        }"#,
    );
    let remote = remote_task_from_page(&page, &mappings()).unwrap();
    assert_eq!(remote.title, "Bare");
    assert_eq!(remote.status, None);
    assert_eq!(remote.due_date, None);
    assert_eq!(remote.pomodoro_count, None);
}

#[test]
fn select_typed_status_also_works() {
    let page = json(
        r#"{
            "id": "p",
            "last_edited_time": "2026-07-01T10:00:00.000Z",
            "properties": {
                "Name": { "title": [ { "plain_text": "X" } ] },
                "Status": { "select": { "name": "Doing" } }
            }
        }"#,
    );
    let remote = remote_task_from_page(&page, &mappings()).unwrap();
    assert_eq!(remote.status.as_deref(), Some("Doing"));
}

#[test]
fn push_includes_only_mapped_properties() {
    let mut task = Task::new_local("T", now());
    task.status = "Done".into();
    task.pomodoro_count = 4;
    task.tracked_minutes = 100;

    let mut m = mappings();
    m.tracked_minutes = String::new();
    m.last_synced = String::new();
    let props = build_push_properties(&task, &m, now());

    assert_eq!(text_at(&props, &["Status", "status", "name"]), Some("Done"));
    assert_eq!(at(&props, &["Pomodoros", "number"]).and_then(Json::as_number), Some(4));
    assert!(props.get("Minutes").is_none());
    assert!(props.get("Last Synced").is_none());
}

#[test]
fn push_includes_title_priority_due() {
    let mut task = Task::new_local("Ship it", now());
    task.priority = Some("High".into());
    task.due_date = Date::parse_iso("2026-07-15");
    let props = build_push_properties(&task, &mappings(), now());
    assert_eq!(text_at(&props, &["Name", "title", "0", "text", "content"]), Some("Ship it"));
    assert_eq!(text_at(&props, &["Priority", "select", "name"]), Some("High"));
    assert_eq!(text_at(&props, &["Due", "date", "start"]), Some("2026-07-15"));

    // Cleared values push explicit null so Notion unsets them.
    let cleared = Task::new_local("T", now());
    let props = build_push_properties(&cleared, &mappings(), now());
    assert!(matches!(at(&props, &["Priority", "select"]), Some(Json::Null)));
    assert!(matches!(at(&props, &["Due", "date"]), Some(Json::Null)));
}

#[test]
fn push_uses_select_when_status_is_select_typed() {
    let task = Task::new_local("T", now());
    let mut m = mappings();
    m.status_type = "select".into();
    let props = build_push_properties(&task, &m, now());
    assert_eq!(text_at(&props, &["Status", "select", "name"]), Some("To Do"));
}

#[test]
fn page_without_title_or_id() {
    let no_title = json(r#"{ "id": "p", "properties": { "Name": { "title": [] } } }"#);
    let remote = remote_task_from_page(&no_title, &mappings()).unwrap();
    assert_eq!(remote.title, "(untitled)");
    assert_eq!(remote.last_edited, 0);
    let no_id = json(r#"{ "properties": { "Name": { "title": [ { "plain_text": "X" } ] } } }"#);
    assert!(remote_task_from_page(&no_id, &mappings()).is_none());
}

#[test]
fn negative_numbers_count_as_zero() {
    let page = json(
        r#"{
            "id": "p",
            "last_edited_time": "2026-07-01T10:00:00.000Z",
            "properties": {
                "Name": { "title": [ { "plain_text": "X" } ] },
                "Pomodoros": { "number": -2 },
                "Minutes": { "number": 12 }
            }
        }"#,
    );
    let remote = remote_task_from_page(&page, &mappings()).unwrap();
    assert_eq!(remote.pomodoro_count, Some(0));
    assert_eq!(remote.tracked_minutes, Some(12));
}

#[test]
fn push_writes_last_synced_time() {
    let task = Task::new_local("T", 0);
    let at_ms = 1_782_900_000_000;
    let props = build_push_properties(&task, &mappings(), at_ms);
    assert_eq!(
        text_at(&props, &["Last Synced", "date", "start"]).map(str::to_string),
        Some(rfc3339(at_ms))
    );
}
