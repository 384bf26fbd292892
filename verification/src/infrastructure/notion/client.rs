//! What the blocking Notion client decides between its requests: how HTTP
//! statuses map to errors, when to retry and how long to wait, how pages of
//! results chain, and what it reads out of responses.
use crate::application::settings_service::PropertyMappings;
use crate::application::sync_service::NotionError;
use crate::calendar::{chrono_parse_rfc3339, parse_rfc3339};
use crate::domain::sync_state::RemoteTask;
use crate::calendar::{chrono_date_display, chrono_rfc3339, valid_instant};
use crate::collate::views;
use crate::domain::task::Task;
use crate::infrastructure::notion::mapping::{
    build_push_properties, push_properties, remote_from_page, remote_task_from_page, str_field,
    str_member,
};
use crate::json::{json_models, push_entry, entry_models, Json, JsonModel};
use crate::text::{concat, owned, push_str, trim, trimmed};
use vstd::prelude::*;

verus! {

/// Base URL of the Notion API.
pub const BASE: &'static str = "https://api.notion.com/v1";

/// API version sent as `Notion-Version`.
pub const NOTION_VERSION: &'static str = "2022-06-28";

/// Notion allows about three requests per second.
pub const MIN_REQUEST_INTERVAL_MS: u64 = 350;

/// Attempts after the first for a retryable failure.
pub const MAX_RETRIES: u32 = 3;

/// Message of a failed response: its `message`, or `unknown error`.
pub open spec fn failure_message(body: JsonModel) -> Seq<char> {
    match str_member(body, "message"@) {
        Some(m) => m,
        None => "unknown error"@,
    }
}

/// Classify a response status.
pub fn check_status(status: u16, body: &Json) -> (r: Result<(), NotionError>)
    ensures
        200 <= status <= 299 <==> r is Ok,
        (status == 401 || status == 403) ==> r == Err::<(), NotionError>(NotionError::Unauthorized),
        status == 404 ==> r == Err::<(), NotionError>(NotionError::NotFound),
        !(200 <= status <= 299 || status == 401 || status == 403 || status == 404) ==> (r matches Err(
            NotionError::Api { status: s, message },
        ) && s == status && message@ == failure_message(body.model())),
{
    if 200 <= status && status <= 299 {
        Ok(())
    } else if status == 401 || status == 403 {
        Err(NotionError::Unauthorized)
    } else if status == 404 {
        Err(NotionError::NotFound)
    } else {
        let message = match body.get("message") {
            Some(m) => match m.as_str() {
                Some(s) => owned(s),
                None => owned("unknown error"),
            },
            None => owned("unknown error"),
        };
        Err(NotionError::Api { status, message })
    }
}

/// Transport failures, rate limiting (429) and server errors (5xx) are worth
/// retrying; anything else is final.
pub open spec fn retryable(e: NotionError) -> bool {
    match e {
        NotionError::Network(_) => true,
        NotionError::Api { status, .. } => status == 429 || (500 <= status <= 599),
        _ => false,
    }
}

/// Pause before retry number `attempt + 1`: one second, doubling each time.
pub open spec fn backoff_ms(attempt: nat) -> nat
    decreases attempt,
{
    if attempt == 0 {
        1000
    } else {
        2 * backoff_ms((attempt - 1) as nat)
    }
}

/// The pause before trying again after failed attempt `attempt`, or `None`
/// to give up: only retryable errors are retried, at most `MAX_RETRIES`
/// times.
pub open spec fn retry_wait(e: NotionError, attempt: nat) -> Option<nat> {
    if retryable(e) && attempt < MAX_RETRIES {
        Some(backoff_ms(attempt))
    } else {
        None
    }
}

/// After failed attempt number `attempt` (0-based): how long to wait before
/// trying again, or `None` to give up and report the error.
pub fn retry_after(e: &NotionError, attempt: u32) -> (wait: Option<u64>)
    ensures
        wait is Some <==> retryable(*e) && attempt < MAX_RETRIES,
        wait matches Some(ms) ==> ms == backoff_ms(attempt as nat),
        match wait {
            Some(ms) => retry_wait(*e, attempt as nat) == Some(ms as nat),
            None => retry_wait(*e, attempt as nat) is None,
        },
{
    let again = match e {
        NotionError::Network(_) => true,
        NotionError::Api { status, .. } => *status == 429 || (500 <= *status && *status <= 599),
        _ => false,
    };
    if !again || attempt >= MAX_RETRIES {
        return None;
    }
    let mut ms: u64 = 1000;
    let mut k: u32 = 0;
    while k < attempt
        invariant
            k <= attempt < MAX_RETRIES,
            ms == backoff_ms(k as nat),
            (k == 0 && ms == 1000) || (k == 1 && ms == 2000) || (k == 2 && ms == 4000),
        decreases attempt - k,
    {
        ms = ms * 2;
        k = k + 1;
    }
    Some(ms)
}

/// The attempt a request ends on, starting from attempt `i`, when attempt
/// `n` yields `outcomes[n]`: the first that succeeds, fails for good, or is
/// the last one allowed.
pub open spec fn final_attempt<T>(outcomes: Seq<Result<T, NotionError>>, i: nat) -> nat
    decreases MAX_RETRIES - i,
{
    if i >= MAX_RETRIES {
        i
    } else {
        match outcomes[i as int] {
            Err(e) => if retryable(e) {
                final_attempt(outcomes, i + 1)
            } else {
                i
            },
            Ok(_) => i,
        }
    }
}

/// The whole retry sequence of a request, with `outcomes[n]` what attempt
/// `n` yields: with `k` the final attempt (the first that succeeds or fails
/// for good, and at most attempt `MAX_RETRIES`), `retry_after` asks to try
/// again after each attempt before `k`, waiting 1 s, 2 s, 4 s, and gives up
/// after a failed attempt `k`; so the request is sent `k + 1` times and ends
/// with `outcomes[k]`.
pub proof fn lemma_retry_sequence<T>(outcomes: Seq<Result<T, NotionError>>)
    requires
        outcomes.len() > MAX_RETRIES,
    ensures
        final_attempt(outcomes, 0) <= MAX_RETRIES,
        forall|n: int|
            0 <= n < final_attempt(outcomes, 0) ==> (#[trigger] outcomes[n] matches Err(e)
                && retry_wait(e, n as nat) == Some(backoff_ms(n as nat))),
        outcomes[final_attempt(outcomes, 0) as int] matches Err(e) ==> retry_wait(
            e,
            final_attempt(outcomes, 0),
        ) is None,
        backoff_ms(0) == 1000 && backoff_ms(1) == 2000 && backoff_ms(2) == 4000,
{
    lemma_final_attempt(outcomes, 0);
    reveal_with_fuel(backoff_ms, 3);
}

proof fn lemma_final_attempt<T>(outcomes: Seq<Result<T, NotionError>>, i: nat)
    requires
        outcomes.len() > MAX_RETRIES,
        i <= MAX_RETRIES,
    ensures
        i <= final_attempt(outcomes, i) <= MAX_RETRIES,
        forall|n: int|
            i <= n < final_attempt(outcomes, i) ==> (#[trigger] outcomes[n] matches Err(e)
                && retryable(e)),
        outcomes[final_attempt(outcomes, i) as int] matches Err(e) ==> !retryable(e)
            || final_attempt(outcomes, i) == MAX_RETRIES,
    decreases MAX_RETRIES - i,
{
    if i < MAX_RETRIES {
        if outcomes[i as int] matches Err(e) && retryable(e) {
            lemma_final_attempt(outcomes, i + 1);
        }
    }
}

/// How long to wait before the next request, given the time since the last
/// one (`None` before the first): requests are spaced by at least
/// `MIN_REQUEST_INTERVAL_MS`.
pub fn rate_limit_wait(since_last_ms: Option<u64>) -> (wait: u64)
    ensures
        wait == match since_last_ms {
            Some(s) if s < MIN_REQUEST_INTERVAL_MS => (MIN_REQUEST_INTERVAL_MS - s) as u64,
            _ => 0,
        },
{
    match since_last_ms {
        Some(s) if s < MIN_REQUEST_INTERVAL_MS => MIN_REQUEST_INTERVAL_MS - s,
        _ => 0,
    }
}

/// The cursor of the next page of results: present when the response says
/// `has_more: true` and carries a string `next_cursor`.
pub open spec fn next_cursor_spec(page: JsonModel) -> Option<Seq<char>> {
    match str_member(page, "next_cursor"@) {
        Some(c) => if (match page.get("has_more"@) {
            Some(h) => h.as_bool() == Some(true),
            None => false,
        }) {
            Some(c)
        } else {
            None
        },
        None => None,
    }
}

pub fn next_cursor(page: &Json) -> (c: Option<String>)
    ensures
        match c {
            Some(s) => next_cursor_spec(page.model()) == Some(s@),
            None => next_cursor_spec(page.model()) is None,
        },
{
    let cursor = match page.get("next_cursor") {
        Some(v) => match v.as_str() {
            Some(s) => s,
            None => return None,
        },
        None => return None,
    };
    let more = match page.get("has_more") {
        Some(h) => match h.as_bool() {
            Some(b) => b,
            None => false,
        },
        None => false,
    };
    if more {
        Some(owned(cursor))
    } else {
        None
    }
}

/// The `(name, type)` of each database property (type `unknown` when the
/// property carries none); an error when the response has no `properties`
/// object.
pub fn property_types(body: &Json) -> (r: Result<Vec<(String, String)>, NotionError>)
    ensures
        match body.model().get("properties"@) {
            Some(JsonModel::Object(es)) => r matches Ok(v) && v@.len() == es.len() && forall|k: int|
                #![trigger v@[k]]
                0 <= k < es.len() ==> v@[k].0@ == es[k].0 && v@[k].1@ == (match str_member(
                    es[k].1,
                    "type"@,
                ) {
                    Some(t) => t,
                    None => "unknown"@,
                }),
            _ => r matches Err(NotionError::Api { status, message }) && status == 200
                && message@ == "no properties in response"@,
        },
{
    let props = match body.get("properties") {
        Some(p) => p,
        None => {
            return Err(NotionError::Api { status: 200, message: owned("no properties in response") });
        },
    };
    let entries = match props.as_object() {
        Some(es) => es,
        None => {
            return Err(NotionError::Api { status: 200, message: owned("no properties in response") });
        },
    };
    let ghost ms = props.model()->Object_0;
    let mut out: Vec<(String, String)> = Vec::new();
    let mut i: usize = 0;
    while i < entries.len()
        invariant
            i <= entries@.len(),
            ms.len() == entries@.len(),
            forall|k: int| 0 <= k < ms.len() ==> #[trigger] ms[k] == (entries@[k].0@, entries@[k].1.model()),
            out@.len() == i,
            forall|k: int|
                #![trigger out@[k]]
                0 <= k < i ==> out@[k].0@ == ms[k].0 && out@[k].1@ == (match str_member(
                    ms[k].1,
                    "type"@,
                ) {
                    Some(t) => t,
                    None => "unknown"@,
                }),
        decreases entries@.len() - i,
    {
        let ty = match entries[i].1.get("type") {
            Some(t) => match t.as_str() {
                Some(s) => owned(s),
                None => owned("unknown"),
            },
            None => owned("unknown"),
        };
        out.push((entries[i].0.clone(), ty));
        i = i + 1;
    }
    Ok(out)
}

/// The tasks of one page of database query results: every page object in
/// `results` that has an id, in order.
pub open spec fn tasks_in(items: Seq<JsonModel>, m: PropertyMappings) -> Seq<
    crate::domain::sync_state::RemoteTaskModel,
>
    decreases items.len(),
{
    if items.len() == 0 {
        Seq::empty()
    } else {
        tasks_in(items.drop_last(), m) + match remote_from_page(items.last(), m) {
            Some(r) => seq![r],
            None => Seq::empty(),
        }
    }
}

pub fn tasks_from_results(page: &Json, m: &PropertyMappings) -> (v: Vec<RemoteTask>)
    ensures
        v@.map_values(|r: RemoteTask| r@) == match page.model().get("results"@) {
            Some(JsonModel::Array(items)) => tasks_in(items, *m),
            _ => Seq::empty(),
        },
{
    let mut out: Vec<RemoteTask> = Vec::new();
    let items = match page.get("results") {
        Some(r) => match r.as_array() {
            Some(items) => items,
            None => {
                assert(out@.map_values(|r: RemoteTask| r@) =~= Seq::empty());
                return out;
            },
        },
        None => {
            assert(out@.map_values(|r: RemoteTask| r@) =~= Seq::empty());
            return out;
        },
    };
    let ghost ms = page.model().get("results"@).unwrap()->Array_0;
    let mut i: usize = 0;
    while i < items.len()
        invariant
            i <= items@.len(),
            ms.len() == items@.len(),
            forall|k: int| 0 <= k < ms.len() ==> #[trigger] ms[k] == items@[k].model(),
            out@.map_values(|r: RemoteTask| r@) == tasks_in(ms.take(i as int), *m),
        decreases items@.len() - i,
    {
        assert(ms.take(i + 1).drop_last() =~= ms.take(i as int));
        assert(ms.take(i + 1).last() == items@[i as int].model());
        let ghost before = out@;
        match remote_task_from_page(&items[i], m) {
            Some(r) => {
                out.push(r);
                assert(out@.map_values(|r: RemoteTask| r@) =~= before.map_values(|r: RemoteTask| r@) + seq![out@.last()@]);
            },
            None => {},
        }
        i = i + 1;
    }
    assert(ms.take(items@.len() as int) =~= ms);
    out
}

/// The `last_edited_time` a response reports, or `fallback` when it reports
/// none that parses.
pub fn edited_time_or(response: &Json, fallback: i64) -> (t: i64)
    ensures
        t == match str_member(response.model(), "last_edited_time"@) {
            Some(s) => match chrono_parse_rfc3339(s) {
                Some(ms) => ms,
                None => fallback as int,
            },
            None => fallback as int,
        },
{
    match response.get("last_edited_time") {
        Some(v) => match v.as_str() {
            Some(s) => match parse_rfc3339(s) {
                Some(ms) => ms,
                None => fallback,
            },
            None => fallback,
        },
        None => fallback,
    }
}

/// URL listing a block's (or page's) children, 100 at a time, from `cursor`.
pub fn children_url(block_id: &str, cursor: &Option<String>) -> (u: String)
    ensures
        u@ == BASE@ + "/blocks/"@ + block_id@ + "/children?page_size=100"@ + match cursor {
            Some(c) => "&start_cursor="@ + c@,
            None => Seq::empty(),
        },
{
    let mut u = owned(BASE);
    push_str(&mut u, "/blocks/");
    push_str(&mut u, block_id);
    push_str(&mut u, "/children?page_size=100");
    if let Some(c) = cursor {
        push_str(&mut u, "&start_cursor=");
        push_str(&mut u, c.as_str());
    }
    u
}

/// `Authorization` header value for a token.
pub fn bearer(token: &str) -> (h: String)
    ensures
        h@ == "Bearer "@ + token@,
{
    concat("Bearer ", token)
}

/// The token as stored by the client: without surrounding whitespace.
pub fn clean_token(token: &str) -> (t: String)
    ensures
        t@ == trimmed(token@),
{
    owned(trim(token))
}

/// URL of a database object.
pub fn database_url(database_id: &str) -> (u: String)
    ensures
        u@ == BASE@ + "/databases/"@ + database_id@,
{
    let mut u = concat(BASE, "/databases/");
    push_str(&mut u, database_id);
    u
}

/// URL querying a database's pages.
pub fn query_url(database_id: &str) -> (u: String)
    ensures
        u@ == BASE@ + "/databases/"@ + database_id@ + "/query"@,
{
    let mut u = database_url(database_id);
    push_str(&mut u, "/query");
    u
}

/// URL of a page object.
pub fn page_url(page_id: &str) -> (u: String)
    ensures
        u@ == BASE@ + "/pages/"@ + page_id@,
{
    let mut u = concat(BASE, "/pages/");
    push_str(&mut u, page_id);
    u
}

/// URL of a block object.
pub fn block_url(block_id: &str) -> (u: String)
    ensures
        u@ == BASE@ + "/blocks/"@ + block_id@,
{
    let mut u = concat(BASE, "/blocks/");
    push_str(&mut u, block_id);
    u
}

/// URL appending children to a block (or page).
pub fn append_children_url(block_id: &str) -> (u: String)
    ensures
        u@ == BASE@ + "/blocks/"@ + block_id@ + "/children"@,
{
    let mut u = block_url(block_id);
    push_str(&mut u, "/children");
    u
}

/// Results asked for per page of a database query.
pub const QUERY_PAGE_SIZE: i64 = 100;

/// The body of one database query request: 100 results a page, from
/// `cursor`.
pub fn query_body(cursor: &Option<String>) -> (b: Json)
    ensures
        b.model() == JsonModel::Object(
            seq![("page_size"@, JsonModel::Number(QUERY_PAGE_SIZE as int))] + match cursor {
                Some(c) => seq![("start_cursor"@, JsonModel::Str(c@))],
                None => Seq::empty(),
            },
        ),
{
    let mut es: Vec<(String, Json)> = Vec::new();
    push_entry(&mut es, "page_size", Json::Number(QUERY_PAGE_SIZE));
    if let Some(c) = cursor {
        push_entry(&mut es, "start_cursor", Json::string(c.as_str()));
    }
    let b = Json::from_entries(es);
    assert(entry_models(es@) =~= seq![("page_size"@, JsonModel::Number(QUERY_PAGE_SIZE as int))]
        + match cursor {
        Some(c) => seq![("start_cursor"@, JsonModel::Str(c@))],
        None => Seq::empty(),
    });
    b
}

/// A page update: the page and the body setting its mapped properties.
pub struct PageUpdate {
    pub page_id: String,
    pub body: Json,
}

/// The update pushing a task's fields to its Notion page; an error for a
/// task without one.
pub fn push_request(task: &Task, m: &PropertyMappings, now: i64) -> (r: Result<PageUpdate, NotionError>)
    requires
        valid_instant(now as int),
    ensures
        task.notion_page_id is None ==> (r matches Err(NotionError::Api { status, message })
            && status == 0 && message@ == "task has no Notion page id"@),
        task.notion_page_id matches Some(id) ==> (r matches Ok(u) && u.page_id@ == id@
            && u.body.model() == JsonModel::Object(
            seq![
                (
                    "properties"@,
                    push_properties(
                        task@,
                        *m,
                        match task.due_date {
                            Some(d) => Some(chrono_date_display(d@)),
                            None => None,
                        },
                        chrono_rfc3339(now as int),
                    ),
                ),
            ],
        )),
{
    let page_id = match &task.notion_page_id {
        Some(id) => id.clone(),
        None => {
            return Err(
                NotionError::Api { status: 0, message: owned("task has no Notion page id") },
            )
        },
    };
    let body = Json::object1("properties", build_push_properties(task, m, now));
    Ok(PageUpdate { page_id, body })
}

/// The ids of the blocks that carry a string `id`, in order.
pub open spec fn ids_of(blocks: Seq<JsonModel>) -> Seq<Seq<char>>
    decreases blocks.len(),
{
    if blocks.len() == 0 {
        Seq::empty()
    } else {
        ids_of(blocks.drop_last()) + match str_member(blocks.last(), "id"@) {
            Some(id) => seq![id],
            None => Seq::empty(),
        }
    }
}

/// The ids of a page's child blocks (the ones a body replacement deletes).
pub fn block_ids(blocks: &Vec<Json>) -> (ids: Vec<String>)
    ensures
        views(ids@) == ids_of(json_models(blocks@)),
{
    let ghost ms = json_models(blocks@);
    let mut ids: Vec<String> = Vec::new();
    let mut i: usize = 0;
    while i < blocks.len()
        invariant
            i <= blocks@.len(),
            ms == json_models(blocks@),
            views(ids@) == ids_of(ms.take(i as int)),
        decreases blocks@.len() - i,
    {
        assert(ms.take(i + 1).drop_last() =~= ms.take(i as int));
        assert(ms.take(i + 1).last() == blocks@[i as int].model());
        let ghost before = views(ids@);
        match str_field(&blocks[i], "id") {
            Some(id) => {
                ids.push(owned(id));
                assert(views(ids@) =~= before + seq![id@]);
            },
            None => {
                assert(views(ids@) =~= before + Seq::<Seq<char>>::empty());
            },
        }
        i = i + 1;
    }
    assert(ms.take(blocks@.len() as int) =~= ms);
    ids
}

/// Notion accepts at most this many children per append call.
pub const MAX_APPEND_CHILDREN: usize = 100;

/// The body of one append call, for blocks `lo..hi`.
pub open spec fn append_body(blocks: Seq<JsonModel>, lo: int, hi: int) -> JsonModel {
    JsonModel::Object(seq![("children"@, JsonModel::Array(blocks.subrange(lo, hi)))])
}

/// The bodies appending `blocks` to a page: consecutive runs of at most
/// `MAX_APPEND_CHILDREN` blocks, in order.
pub fn append_bodies(blocks: Vec<Json>) -> (bodies: Vec<Json>)
    ensures
        bodies@.len() == (blocks@.len() + 99) / 100,
        forall|k: int|
            0 <= k < bodies@.len() ==> #[trigger] bodies@[k].model() == append_body(
                json_models(blocks@),
                100 * k,
                if 100 * k + 100 <= blocks@.len() {
                    100 * k + 100
                } else {
                    blocks@.len() as int
                },
            ),
{
    let ghost ms = json_models(blocks@);
    let ghost n = blocks@.len() as int;
    let mut rest = blocks;
    let mut bodies: Vec<Json> = Vec::new();
    assert(ms.subrange(0, n) =~= ms);
    while rest.len() > 0
        invariant
            n == ms.len(),
            rest@.len() <= n,
            rest@.len() > 0 ==> n - rest@.len() == 100 * bodies@.len(),
            rest@.len() == 0 ==> bodies@.len() == (n + 99) / 100,
            json_models(rest@) == ms.subrange(n - rest@.len(), n),
            forall|k: int|
                0 <= k < bodies@.len() ==> #[trigger] bodies@[k].model() == append_body(
                    ms,
                    100 * k,
                    if 100 * k + 100 <= n {
                        100 * k + 100
                    } else {
                        n
                    },
                ),
        decreases rest@.len(),
    {
        let ghost k = bodies@.len() as int;
        let ghost c = n - rest@.len();
        let take = if rest.len() < MAX_APPEND_CHILDREN {
            rest.len()
        } else {
            MAX_APPEND_CHILDREN
        };
        let ghost before = rest@;
        let mut chunk = rest.split_off(take);
        std::mem::swap(&mut chunk, &mut rest);
        assert(json_models(before) == ms.subrange(c, n));
        assert forall|j: int| 0 <= j < take implies #[trigger] json_models(chunk@)[j] == ms.subrange(
            c,
            c + take,
        )[j] by {
            assert(json_models(before)[j] == ms.subrange(c, n)[j]);
        }
        assert(json_models(chunk@) =~= ms.subrange(c, c + take));
        assert forall|j: int| 0 <= j < rest@.len() implies #[trigger] json_models(rest@)[j]
            == ms.subrange(c + take, n)[j] by {
            assert(rest@[j] == before[take + j]);
            assert(json_models(before)[take + j] == ms.subrange(c, n)[take + j]);
        }
        assert(json_models(rest@) =~= ms.subrange(c + take, n));
        let body = Json::object1("children", Json::from_items(chunk));
        assert(c + take == (if 100 * k + 100 <= n {
            100 * k + 100
        } else {
            n
        }));
        bodies.push(body);
        proof {
            if rest@.len() == 0 {
                assert((n + 99) / 100 == k + 1) by (nonlinear_arith)
                    requires
                        n == 100 * k + take,
                        1 <= take <= 100,
                ;
            }
        }
    }
    proof {
        if n == 0 {
            assert((n + 99) / 100 == 0);
        }
    }
    bodies
}

} // verus!
