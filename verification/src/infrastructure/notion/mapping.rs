//! Notion page JSON ↔ domain mapping: which property of a page feeds which
//! field of a task, and which properties a push writes.
use crate::application::settings_service::PropertyMappings;
use crate::calendar::{chrono_parse_date, chrono_parse_rfc3339, instant_to_rfc3339, parse_rfc3339, valid_instant, Date};
use crate::domain::sync_state::{RemoteTask, RemoteTaskModel};
use crate::domain::task::{Task, TaskModel};
use crate::json::{entries_insert, field_from, lemma_insert_get, object_keys, Json, JsonModel};
use crate::text::{all_whitespace, byte_prefix, is_blank, lemma_byte_prefix_ascii, owned, prefix_bytes, push_str};
use vstd::prelude::*;

verus! {

/// The property named `name`, unless the mapping is blank (unmapped).
pub open spec fn prop_spec(props: JsonModel, name: Seq<char>) -> Option<JsonModel> {
    if all_whitespace(name) {
        None
    } else {
        props.get(name)
    }
}

pub open spec fn str_member(v: JsonModel, key: Seq<char>) -> Option<Seq<char>> {
    match v.get(key) {
        Some(m) => m.as_str(),
        None => None,
    }
}

/// The `plain_text` of each rich-text part, joined (parts without one add
/// nothing).
pub open spec fn plain_texts(parts: Seq<JsonModel>) -> Seq<char>
    decreases parts.len(),
{
    if parts.len() == 0 {
        Seq::empty()
    } else {
        plain_texts(parts.drop_last()) + match str_member(parts.last(), "plain_text"@) {
            Some(s) => s,
            None => Seq::empty(),
        }
    }
}

/// Title: the joined plain text of the `title` rich text, when not empty.
pub open spec fn title_spec(props: JsonModel, name: Seq<char>) -> Option<Seq<char>> {
    match prop_spec(props, name) {
        Some(p) => match p.get("title"@) {
            Some(t) => match t.as_array() {
                Some(parts) => if plain_texts(parts).len() == 0 {
                    None
                } else {
                    Some(plain_texts(parts))
                },
                None => None,
            },
            None => None,
        },
        None => None,
    }
}

/// Status: the option name of a `status` property, or (when there is no
/// `status` member) of a `select` property.
pub open spec fn status_spec(props: JsonModel, name: Seq<char>) -> Option<Seq<char>> {
    match prop_spec(props, name) {
        Some(p) => match (match p.get("status"@) {
            Some(s) => Some(s),
            None => p.get("select"@),
        }) {
            Some(s) => str_member(s, "name"@),
            None => None,
        },
        None => None,
    }
}

/// Select: the option name of a `select` property.
pub open spec fn select_spec(props: JsonModel, name: Seq<char>) -> Option<Seq<char>> {
    match prop_spec(props, name) {
        Some(p) => match p.get("select"@) {
            Some(s) => str_member(s, "name"@),
            None => None,
        },
        None => None,
    }
}

/// Date: the first ten bytes of the `start` of a `date` property, parsed as
/// a date (day number).
pub open spec fn date_spec(props: JsonModel, name: Seq<char>) -> Option<int> {
    match prop_spec(props, name) {
        Some(p) => match p.get("date"@) {
            Some(d) => match str_member(d, "start"@) {
                Some(start) => match byte_prefix(start, 10) {
                    Some(pre) => chrono_parse_date(pre),
                    None => None,
                },
                None => None,
            },
            None => None,
        },
        None => None,
    }
}

/// A number as a count: negative numbers count as zero, and counts above
/// `u32::MAX` saturate (`f64::max(0.0) as u32`).
pub open spec fn count_of(n: int) -> u32 {
    if n < 0 {
        0
    } else if n > u32::MAX {
        u32::MAX
    } else {
        n as u32
    }
}

/// Number: the `number` of a number property, as a count.
pub open spec fn number_spec(props: JsonModel, name: Seq<char>) -> Option<u32> {
    match prop_spec(props, name) {
        Some(p) => match p.get("number"@) {
            Some(n) => match n.as_number() {
                Some(v) => Some(count_of(v)),
                None => None,
            },
            None => None,
        },
        None => None,
    }
}

fn prop<'a>(props: &'a Json, name: &str) -> (r: Option<&'a Json>)
    ensures
        match r {
            Some(v) => prop_spec(props.model(), name@) == Some(v.model()),
            None => prop_spec(props.model(), name@) is None,
        },
{
    if is_blank(name) {
        return None;
    }
    props.get(name)
}

pub(crate) fn str_field<'a>(v: &'a Json, key: &str) -> (r: Option<&'a str>)
    ensures
        match r {
            Some(s) => str_member(v.model(), key@) == Some(s@),
            None => str_member(v.model(), key@) is None,
        },
{
    match v.get(key) {
        Some(m) => m.as_str(),
        None => None,
    }
}

fn extract_title(props: &Json, name: &str) -> (r: Option<String>)
    ensures
        match r {
            Some(s) => title_spec(props.model(), name@) == Some(s@),
            None => title_spec(props.model(), name@) is None,
        },
{
    let p = match prop(props, name) {
        Some(p) => p,
        None => return None,
    };
    let t = match p.get("title") {
        Some(t) => t,
        None => return None,
    };
    let parts = match t.as_array() {
        Some(parts) => parts,
        None => return None,
    };
    let ghost ms = t.model().as_array().unwrap();
    let mut text = String::new();
    let mut i: usize = 0;
    while i < parts.len()
        invariant
            i <= parts@.len(),
            ms.len() == parts@.len(),
            forall|k: int| 0 <= k < ms.len() ==> #[trigger] ms[k] == parts@[k].model(),
            text@ == plain_texts(ms.take(i as int)),
        decreases parts@.len() - i,
    {
        assert(ms.take(i + 1).drop_last() =~= ms.take(i as int));
        assert(ms.take(i + 1).last() == parts@[i as int].model());
        if let Some(s) = str_field(&parts[i], "plain_text") {
            push_str(&mut text, s);
        }
        i = i + 1;
    }
    assert(ms.take(parts@.len() as int) =~= ms);
    if text.as_str().is_empty() {
        None
    } else {
        Some(text)
    }
}

fn extract_status(props: &Json, name: &str) -> (r: Option<String>)
    ensures
        match r {
            Some(s) => status_spec(props.model(), name@) == Some(s@),
            None => status_spec(props.model(), name@) is None,
        },
{
    let p = match prop(props, name) {
        Some(p) => p,
        None => return None,
    };
    let s = match p.get("status") {
        Some(s) => s,
        None => match p.get("select") {
            Some(s) => s,
            None => return None,
        },
    };
    match str_field(s, "name") {
        Some(n) => Some(owned(n)),
        None => None,
    }
}

fn extract_select(props: &Json, name: &str) -> (r: Option<String>)
    ensures
        match r {
            Some(s) => select_spec(props.model(), name@) == Some(s@),
            None => select_spec(props.model(), name@) is None,
        },
{
    let p = match prop(props, name) {
        Some(p) => p,
        None => return None,
    };
    match p.get("select") {
        Some(s) => match str_field(s, "name") {
            Some(n) => Some(owned(n)),
            None => None,
        },
        None => None,
    }
}

fn extract_date(props: &Json, name: &str) -> (r: Option<Date>)
    ensures
        crate::calendar::opt_date_days(r) == date_spec(props.model(), name@),
{
    let p = match prop(props, name) {
        Some(p) => p,
        None => return None,
    };
    let d = match p.get("date") {
        Some(d) => d,
        None => return None,
    };
    let start = match str_field(d, "start") {
        Some(s) => s,
        None => return None,
    };
    match prefix_bytes(start, 10) {
        Some(pre) => Date::parse_iso(pre),
        None => None,
    }
}

fn extract_number(props: &Json, name: &str) -> (r: Option<u32>)
    ensures
        r == number_spec(props.model(), name@),
{
    let p = match prop(props, name) {
        Some(p) => p,
        None => return None,
    };
    match p.get("number") {
        Some(n) => match n.as_number() {
            Some(v) => Some(
                if v < 0 {
                    0
                } else if v > u32::MAX as i64 {
                    u32::MAX
                } else {
                    v as u32
                },
            ),
            None => None,
        },
        None => None,
    }
}

/// The `RemoteTask` a Notion page object describes: `None` only when the page
/// has no string `id`. Unmapped or missing optional properties become `None`;
/// a missing title reads `(untitled)`; a missing or unreadable
/// `last_edited_time` reads as the epoch.
pub open spec fn remote_from_page(page: JsonModel, m: PropertyMappings) -> Option<RemoteTaskModel> {
    match str_member(page, "id"@) {
        None => None,
        Some(id) => {
            let props = match page.get("properties"@) {
                Some(p) => p,
                None => JsonModel::Null,
            };
            Some(
                RemoteTaskModel {
                    page_id: id,
                    title: match title_spec(props, m.title@) {
                        Some(t) => t,
                        None => "(untitled)"@,
                    },
                    status: status_spec(props, m.status@),
                    due_date: date_spec(props, m.due_date@),
                    priority: select_spec(props, m.priority@),
                    pomodoro_count: number_spec(props, m.pomodoro_count@),
                    tracked_minutes: number_spec(props, m.tracked_minutes@),
                    last_edited: match str_member(page, "last_edited_time"@) {
                        Some(t) => match chrono_parse_rfc3339(t) {
                            Some(ms) => ms,
                            None => 0,
                        },
                        None => 0,
                    },
                },
            )
        },
    }
}

pub open spec fn opt_remote(r: Option<RemoteTask>) -> Option<RemoteTaskModel> {
    match r {
        Some(x) => Some(x@),
        None => None,
    }
}

/// Extract a `RemoteTask` from a Notion page object.
pub fn remote_task_from_page(page: &Json, m: &PropertyMappings) -> (r: Option<RemoteTask>)
    ensures
        opt_remote(r) == remote_from_page(page.model(), *m),
        r matches Some(rt) ==> valid_instant(rt.last_edited as int),
{
    let page_id = match str_field(page, "id") {
        Some(id) => owned(id),
        None => return None,
    };
    let null = Json::Null;
    let props = match page.get("properties") {
        Some(p) => p,
        None => &null,
    };
    let last_edited = match str_field(page, "last_edited_time") {
        Some(t) => match parse_rfc3339(t) {
            Some(ms) => ms,
            None => 0,
        },
        None => 0,
    };
    let title = match extract_title(props, m.title.as_str()) {
        Some(t) => t,
        None => owned("(untitled)"),
    };
    Some(
        RemoteTask {
            page_id,
            title,
            status: extract_status(props, m.status.as_str()),
            due_date: extract_date(props, m.due_date.as_str()),
            priority: extract_select(props, m.priority.as_str()),
            pomodoro_count: extract_number(props, m.pomodoro_count.as_str()),
            tracked_minutes: extract_number(props, m.tracked_minutes.as_str()),
            last_edited,
        },
    )
}

// ---------------------------------------------------------------------------
// Push
// ---------------------------------------------------------------------------
pub open spec fn obj1(key: Seq<char>, v: JsonModel) -> JsonModel {
    JsonModel::Object(seq![(key, v)])
}

/// `entries` with `key` set to `v` when the mapping `key` is not blank.
pub open spec fn set_if_mapped(
    entries: Seq<(Seq<char>, JsonModel)>,
    key: Seq<char>,
    v: JsonModel,
) -> Seq<(Seq<char>, JsonModel)> {
    if all_whitespace(key) {
        entries
    } else {
        entries_insert(entries, key, v)
    }
}

/// The `properties` of a push: title, status (typed as the mapping says),
/// priority (`select`, null when cleared), due date (null when cleared),
/// pomodoro count, tracked minutes and the sync time, each only when mapped.
pub open spec fn push_properties(t: TaskModel, m: PropertyMappings, due_text: Option<Seq<char>>, now_text: Seq<char>) -> JsonModel {
    let e0 = Seq::empty();
    let e1 = set_if_mapped(
        e0,
        m.title@,
        obj1("title"@, JsonModel::Array(seq![obj1("text"@, obj1("content"@, JsonModel::Str(t.title)))])),
    );
    let e2 = set_if_mapped(e1, m.status@, obj1(m.status_type@, obj1("name"@, JsonModel::Str(t.status))));
    let e3 = set_if_mapped(
        e2,
        m.priority@,
        obj1(
            "select"@,
            match t.priority {
                Some(p) => obj1("name"@, JsonModel::Str(p)),
                None => JsonModel::Null,
            },
        ),
    );
    let e4 = set_if_mapped(
        e3,
        m.due_date@,
        obj1(
            "date"@,
            match due_text {
                Some(d) => obj1("start"@, JsonModel::Str(d)),
                None => JsonModel::Null,
            },
        ),
    );
    let e5 = set_if_mapped(e4, m.pomodoro_count@, obj1("number"@, JsonModel::Number(t.pomodoro_count as int)));
    let e6 = set_if_mapped(e5, m.tracked_minutes@, obj1("number"@, JsonModel::Number(t.tracked_minutes as int)));
    let e7 = set_if_mapped(e6, m.last_synced@, obj1("date"@, obj1("start"@, JsonModel::Str(now_text))));
    JsonModel::Object(e7)
}

fn set_mapped(props: Json, key: &String, v: Json) -> (r: Json)
    requires
        props.model() is Object,
    ensures
        r.model() == JsonModel::Object(
            set_if_mapped(props.model()->Object_0, key@, v.model()),
        ),
{
    if is_blank(key.as_str()) {
        props
    } else {
        props.insert(key.clone(), v)
    }
}

/// Build the `properties` object for a PATCH pushing local changes. Only
/// mapped properties are included, so databases missing optional properties
/// still sync.
pub fn build_push_properties(task: &Task, m: &PropertyMappings, now: i64) -> (r: Json)
    requires
        valid_instant(now as int),
    ensures
        r.model() == push_properties(
            task@,
            *m,
            match task.due_date {
                Some(d) => Some(crate::calendar::chrono_date_display(d@)),
                None => None,
            },
            crate::calendar::chrono_rfc3339(now as int),
        ),
{
    let props = Json::empty_object();
    let title = Json::object1(
        "title",
        Json::array1(Json::object1("text", Json::object1("content", Json::string(task.title.as_str())))),
    );
    let props = set_mapped(props, &m.title, title);
    let status = Json::object1(m.status_type.as_str(), Json::object1("name", Json::string(task.status.as_str())));
    let props = set_mapped(props, &m.status, status);
    let select = match &task.priority {
        Some(p) => Json::object1("name", Json::string(p.as_str())),
        None => Json::Null,
    };
    let props = set_mapped(props, &m.priority, Json::object1("select", select));
    let date = match &task.due_date {
        Some(d) => Json::object1("start", Json::Str(d.to_iso_string())),
        None => Json::Null,
    };
    let props = set_mapped(props, &m.due_date, Json::object1("date", date));
    let props = set_mapped(props, &m.pomodoro_count, Json::object1("number", Json::Number(task.pomodoro_count as i64)));
    let props = set_mapped(props, &m.tracked_minutes, Json::object1("number", Json::Number(task.tracked_minutes as i64)));
    let synced = Json::object1("date", Json::object1("start", Json::Str(instant_to_rfc3339(now))));
    set_mapped(props, &m.last_synced, synced)
}

/// A page reads as a task exactly when it has a string `id`, which becomes
/// the task's page id. A page without a readable title reads `(untitled)`;
/// an optional field whose mapping is blank, or whose property the page
/// lacks, reads as absent; the status is the `status` option's name, or the
/// `select` option's name when the property has no `status` member.
pub proof fn lemma_page_reading(page: JsonModel, m: PropertyMappings)
    ensures
        remote_from_page(page, m) is None <==> str_member(page, "id"@) is None,
        remote_from_page(page, m) is Some ==> {
            let r = remote_from_page(page, m).unwrap();
            let props = match page.get("properties"@) {
                Some(p) => p,
                None => JsonModel::Null,
            };
            &&& Some(r.page_id) == str_member(page, "id"@)
            &&& (title_spec(props, m.title@) is None ==> r.title == "(untitled)"@)
            &&& (all_whitespace(m.status@) || props.get(m.status@) is None ==> r.status is None)
            &&& (all_whitespace(m.due_date@) || props.get(m.due_date@) is None
                ==> r.due_date is None)
            &&& (all_whitespace(m.priority@) || props.get(m.priority@) is None
                ==> r.priority is None)
            &&& (all_whitespace(m.pomodoro_count@) || props.get(m.pomodoro_count@) is None
                ==> r.pomodoro_count is None)
            &&& (all_whitespace(m.tracked_minutes@) || props.get(m.tracked_minutes@) is None
                ==> r.tracked_minutes is None)
            &&& (!all_whitespace(m.status@) ==> (props.get(m.status@) matches Some(p) ==> r.status
                == match p.get("status"@) {
                Some(st) => str_member(st, "name"@),
                None => match p.get("select"@) {
                    Some(se) => str_member(se, "name"@),
                    None => None,
                },
            }))
        },
{
}

/// `names` with `key` added unless `key` is blank.
pub open spec fn with_mapped(names: Set<Seq<char>>, key: Seq<char>) -> Set<Seq<char>> {
    if all_whitespace(key) {
        names
    } else {
        names.insert(key)
    }
}

/// The property names a push writes: every mapping that is not blank.
pub open spec fn mapped_names(m: PropertyMappings) -> Set<Seq<char>> {
    with_mapped(
        with_mapped(
            with_mapped(
                with_mapped(
                    with_mapped(
                        with_mapped(with_mapped(Set::empty(), m.title@), m.status@),
                        m.priority@,
                    ),
                    m.due_date@,
                ),
                m.pomodoro_count@,
            ),
            m.tracked_minutes@,
        ),
        m.last_synced@,
    )
}

proof fn lemma_set_if_mapped(
    entries: Seq<(Seq<char>, JsonModel)>,
    key: Seq<char>,
    v: JsonModel,
    other: Seq<char>,
)
    ensures
        object_keys(JsonModel::Object(set_if_mapped(entries, key, v))) == with_mapped(
            object_keys(JsonModel::Object(entries)),
            key,
        ),
        !all_whitespace(key) ==> field_from(set_if_mapped(entries, key, v), key, 0) == Some(v),
        other != key ==> field_from(set_if_mapped(entries, key, v), other, 0) == field_from(
            entries,
            other,
            0,
        ),
{
    lemma_insert_get(entries, key, v, other);
}

/// The properties of a push are exactly the mapped ones: the object's keys
/// are the mapping names that are not blank (a blank minutes or last-synced
/// mapping writes no such key). Where no later mapping shares its name, the
/// status property holds `{<status type>: {"name": <status>}}` and the count
/// properties hold `{"number": <count>}`.
pub proof fn lemma_push_property_keys(
    t: TaskModel,
    m: PropertyMappings,
    due_text: Option<Seq<char>>,
    now_text: Seq<char>,
)
    ensures
        object_keys(push_properties(t, m, due_text, now_text)) == mapped_names(m),
        !all_whitespace(m.status@) && m.status@ != m.priority@ && m.status@ != m.due_date@
            && m.status@ != m.pomodoro_count@ && m.status@ != m.tracked_minutes@ && m.status@
            != m.last_synced@ ==> push_properties(t, m, due_text, now_text).get(m.status@) == Some(
            obj1(m.status_type@, obj1("name"@, JsonModel::Str(t.status))),
        ),
        !all_whitespace(m.pomodoro_count@) && m.pomodoro_count@ != m.tracked_minutes@
            && m.pomodoro_count@ != m.last_synced@ ==> push_properties(t, m, due_text, now_text).get(
            m.pomodoro_count@,
        ) == Some(obj1("number"@, JsonModel::Number(t.pomodoro_count as int))),
        !all_whitespace(m.tracked_minutes@) && m.tracked_minutes@ != m.last_synced@
            ==> push_properties(t, m, due_text, now_text).get(m.tracked_minutes@) == Some(
            obj1("number"@, JsonModel::Number(t.tracked_minutes as int)),
        ),
{
    let e0: Seq<(Seq<char>, JsonModel)> = Seq::empty();
    let v1 = obj1(
        "title"@,
        JsonModel::Array(seq![obj1("text"@, obj1("content"@, JsonModel::Str(t.title)))]),
    );
    let e1 = set_if_mapped(e0, m.title@, v1);
    let v2 = obj1(m.status_type@, obj1("name"@, JsonModel::Str(t.status)));
    let e2 = set_if_mapped(e1, m.status@, v2);
    let v3 = obj1(
        "select"@,
        match t.priority {
            Some(p) => obj1("name"@, JsonModel::Str(p)),
            None => JsonModel::Null,
        },
    );
    let e3 = set_if_mapped(e2, m.priority@, v3);
    let v4 = obj1(
        "date"@,
        match due_text {
            Some(d) => obj1("start"@, JsonModel::Str(d)),
            None => JsonModel::Null,
        },
    );
    let e4 = set_if_mapped(e3, m.due_date@, v4);
    let v5 = obj1("number"@, JsonModel::Number(t.pomodoro_count as int));
    let e5 = set_if_mapped(e4, m.pomodoro_count@, v5);
    let v6 = obj1("number"@, JsonModel::Number(t.tracked_minutes as int));
    let e6 = set_if_mapped(e5, m.tracked_minutes@, v6);
    let v7 = obj1("date"@, obj1("start"@, JsonModel::Str(now_text)));
    let e7 = set_if_mapped(e6, m.last_synced@, v7);
    assert(object_keys(JsonModel::Object(e0)) =~= Set::<Seq<char>>::empty());
    lemma_set_if_mapped(e0, m.title@, v1, m.status@);
    lemma_set_if_mapped(e1, m.status@, v2, m.status@);
    lemma_set_if_mapped(e2, m.priority@, v3, m.status@);
    lemma_set_if_mapped(e3, m.due_date@, v4, m.status@);
    lemma_set_if_mapped(e4, m.pomodoro_count@, v5, m.status@);
    lemma_set_if_mapped(e5, m.tracked_minutes@, v6, m.status@);
    lemma_set_if_mapped(e6, m.last_synced@, v7, m.status@);
    lemma_set_if_mapped(e4, m.pomodoro_count@, v5, m.pomodoro_count@);
    lemma_set_if_mapped(e5, m.tracked_minutes@, v6, m.pomodoro_count@);
    lemma_set_if_mapped(e6, m.last_synced@, v7, m.pomodoro_count@);
    lemma_set_if_mapped(e5, m.tracked_minutes@, v6, m.tracked_minutes@);
    lemma_set_if_mapped(e6, m.last_synced@, v7, m.tracked_minutes@);
    assert(push_properties(t, m, due_text, now_text) == JsonModel::Object(e7));
}

/// A mapped date property whose `start` text begins with ten ASCII
/// characters that read as a date (`YYYY-MM-DD`) gives that date as the due
/// date, whatever follows them (a time, an offset): the page's due date is
/// the date of its first ten characters.
pub proof fn lemma_due_date_ignores_time(
    page: JsonModel,
    m: PropertyMappings,
    pre: Seq<char>,
    rest: Seq<char>,
    d: int,
)
    requires
        !all_whitespace(m.due_date@),
        str_member(page, "id"@) is Some,
        page.get("properties"@) matches Some(props) && props.get(m.due_date@) matches Some(p)
            && p.get("date"@) matches Some(dt) && str_member(dt, "start"@) == Some(pre + rest),
        pre.len() == 10,
        vstd::utf8::is_ascii_chars(pre),
        chrono_parse_date(pre) == Some(d),
    ensures
        page.get("properties"@) matches Some(props) && date_spec(props, m.due_date@) == Some(d),
        remote_from_page(page, m) matches Some(r) && r.due_date == Some(d),
{
    lemma_byte_prefix_ascii(pre, rest);
}

} // verus!
