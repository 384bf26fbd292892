//! Markdown ↔ Notion blocks, for a task's page body.
//!
//! A bounded block subset: paragraph, headings 1–3, bulleted and numbered
//! list items, to-dos, quotes, code and dividers, with bold, italic,
//! strikethrough, inline code and links inside them. Other blocks keep the
//! text they carry; nested block trees are flattened.
use crate::infrastructure::notion::mapping::{str_field, str_member};
use crate::json::{entry_models, json_models, lemma_field_absent, push_entry, Json, JsonModel};
use crate::domain::pomodoro::opt_str_model;
use crate::text::{clone_opt_string, concat, digit_char, owned, str_eq, surround};
use pulldown_cmark::{CodeBlockKind, Event, Options, Parser, Tag, TagEnd};

use vstd::prelude::*;

verus! {

// ---------------------------------------------------------------------------
// Notion blocks -> Markdown
// ---------------------------------------------------------------------------

/// `v`'s member `key`, followed by its member `key2`.
pub open spec fn member2(v: JsonModel, key: Seq<char>, key2: Seq<char>) -> Option<JsonModel> {
    match v.get(key) {
        Some(m) => m.get(key2),
        None => None,
    }
}

/// The text of a rich-text item: its `plain_text`, else its `text.content`.
pub open spec fn item_text(item: JsonModel) -> Option<Seq<char>> {
    match str_member(item, "plain_text"@) {
        Some(s) => Some(s),
        None => match item.get("text"@) {
            Some(t) => str_member(t, "content"@),
            None => None,
        },
    }
}

/// The link of a rich-text item: its `href`, else its `text.link.url`.
pub open spec fn item_href(item: JsonModel) -> Option<Seq<char>> {
    match str_member(item, "href"@) {
        Some(u) => Some(u),
        None => match member2(item, "text"@, "link"@) {
            Some(l) => str_member(l, "url"@),
            None => None,
        },
    }
}

/// Annotation `key` of a rich-text item is `true`.
pub open spec fn has_annotation(item: JsonModel, key: Seq<char>) -> bool {
    match member2(item, "annotations"@, key) {
        Some(v) => v.as_bool() == Some(true),
        None => false,
    }
}

/// A rich-text item as Markdown: inline code is terminal; otherwise
/// strikethrough, bold and italic wrap in that order, and a link goes
/// outermost. An item with no text gives nothing.
pub open spec fn item_md(item: JsonModel) -> Seq<char> {
    match item_text(item) {
        Some(t) => if t.len() == 0 {
            Seq::empty()
        } else {
            let styled = if has_annotation(item, "code"@) {
                "`"@ + t + "`"@
            } else {
                let s1 = if has_annotation(item, "strikethrough"@) {
                    "~~"@ + t + "~~"@
                } else {
                    t
                };
                let s2 = if has_annotation(item, "bold"@) {
                    "**"@ + s1 + "**"@
                } else {
                    s1
                };
                if has_annotation(item, "italic"@) {
                    "*"@ + s2 + "*"@
                } else {
                    s2
                }
            };
            match item_href(item) {
                Some(u) => "["@ + styled + "]("@ + u + ")"@,
                None => styled,
            }
        },
        None => Seq::empty(),
    }
}

/// Rich-text items as Markdown, joined.
pub open spec fn items_md(items: Seq<JsonModel>) -> Seq<char>
    decreases items.len(),
{
    if items.len() == 0 {
        Seq::empty()
    } else {
        items_md(items.drop_last()) + item_md(items.last())
    }
}

/// The Markdown of a block body's `rich_text` array (nothing when absent).
pub open spec fn rich_md(body: Option<JsonModel>) -> Seq<char> {
    match body {
        Some(b) => match b.get("rich_text"@) {
            Some(r) => match r.as_array() {
                Some(items) => items_md(items),
                None => Seq::empty(),
            },
            None => Seq::empty(),
        },
        None => Seq::empty(),
    }
}

/// A block's `type`, or nothing.
pub open spec fn block_type(block: JsonModel) -> Seq<char> {
    match str_member(block, "type"@) {
        Some(t) => t,
        None => Seq::empty(),
    }
}

/// A block as one Markdown line (or fenced code), and whether it is a list
/// item.
pub open spec fn block_line(block: JsonModel) -> (Seq<char>, bool) {
    let ty = block_type(block);
    let body = block.get(ty);
    let r = rich_md(body);
    if ty == "paragraph"@ {
        (r, false)
    } else if ty == "heading_1"@ {
        ("# "@ + r, false)
    } else if ty == "heading_2"@ {
        ("## "@ + r, false)
    } else if ty == "heading_3"@ {
        ("### "@ + r, false)
    } else if ty == "bulleted_list_item"@ {
        ("- "@ + r, true)
    } else if ty == "numbered_list_item"@ {
        ("1. "@ + r, true)
    } else if ty == "to_do"@ {
        let checked = match body {
            Some(b) => match b.get("checked"@) {
                Some(c) => c.as_bool() == Some(true),
                None => false,
            },
            None => false,
        };
        ("- ["@ + (if checked {
            "x"@
        } else {
            " "@
        }) + "] "@ + r, true)
    } else if ty == "quote"@ {
        ("> "@ + r, false)
    } else if ty == "code"@ {
        let lang = match body {
            Some(b) => match str_member(b, "language"@) {
                Some(l) => l,
                None => Seq::empty(),
            },
            None => Seq::empty(),
        };
        ("```"@ + lang + "\n"@ + r + "\n```"@, false)
    } else if ty == "divider"@ {
        ("---"@, false)
    } else {
        (r, false)
    }
}

/// Blocks as Markdown: consecutive list items are kept on adjacent lines,
/// any other pair of blocks is separated by a blank line.
pub open spec fn blocks_md(blocks: Seq<JsonModel>) -> Seq<char>
    decreases blocks.len(),
{
    if blocks.len() == 0 {
        Seq::empty()
    } else if blocks.len() == 1 {
        block_line(blocks[0]).0
    } else {
        let n = blocks.len();
        let sep = if block_line(blocks[n - 2]).1 && block_line(blocks[n - 1]).1 {
            "\n"@
        } else {
            "\n\n"@
        };
        blocks_md(blocks.drop_last()) + sep + block_line(blocks[n - 1]).0
    }
}

fn item_text_of(item: &Json) -> (r: Option<&str>)
    ensures
        match r {
            Some(s) => item_text(item.model()) == Some(s@),
            None => item_text(item.model()) is None,
        },
{
    match str_field(item, "plain_text") {
        Some(s) => Some(s),
        None => match item.get("text") {
            Some(t) => str_field(t, "content"),
            None => None,
        },
    }
}

fn item_href_of(item: &Json) -> (r: Option<&str>)
    ensures
        match r {
            Some(s) => item_href(item.model()) == Some(s@),
            None => item_href(item.model()) is None,
        },
{
    match str_field(item, "href") {
        Some(u) => Some(u),
        None => match item.get("text") {
            Some(t) => match t.get("link") {
                Some(l) => str_field(l, "url"),
                None => None,
            },
            None => None,
        },
    }
}

fn annotation(item: &Json, key: &str) -> (b: bool)
    ensures
        b == has_annotation(item.model(), key@),
{
    match item.get("annotations") {
        Some(a) => match a.get(key) {
            Some(v) => match v.as_bool() {
                Some(x) => x,
                None => false,
            },
            None => false,
        },
        None => false,
    }
}

fn rich_item_to_md(item: &Json) -> (s: String)
    ensures
        s@ == item_md(item.model()),
{
    let t = match item_text_of(item) {
        Some(t) => t,
        None => return String::new(),
    };
    if t.is_empty() {
        return String::new();
    }
    let styled = if annotation(item, "code") {
        surround("`", t, "`")
    } else {
        let s1 = if annotation(item, "strikethrough") {
            surround("~~", t, "~~")
        } else {
            t.to_owned()
        };
        let s2 = if annotation(item, "bold") {
            surround("**", s1.as_str(), "**")
        } else {
            s1
        };
        if annotation(item, "italic") {
            surround("*", s2.as_str(), "*")
        } else {
            s2
        }
    };
    match item_href_of(item) {
        Some(u) => {
            let mut out = surround("[", styled.as_str(), "](");
            out.append(u);
            out.append(")");
            out
        },
        None => styled,
    }
}

fn rich_text_to_md(body: Option<&Json>) -> (s: String)
    ensures
        s@ == rich_md(
            match body {
                Some(b) => Some(b.model()),
                None => None,
            },
        ),
{
    let b = match body {
        Some(b) => b,
        None => return String::new(),
    };
    let items = match b.get("rich_text") {
        Some(r) => match r.as_array() {
            Some(items) => items,
            None => return String::new(),
        },
        None => return String::new(),
    };
    let ghost ms = b.model().get("rich_text"@).unwrap().as_array().unwrap();
    let mut s = String::new();
    let mut i: usize = 0;
    while i < items.len()
        invariant
            i <= items@.len(),
            ms.len() == items@.len(),
            forall|k: int| 0 <= k < ms.len() ==> #[trigger] ms[k] == items@[k].model(),
            s@ == items_md(ms.take(i as int)),
        decreases items@.len() - i,
    {
        assert(ms.take(i + 1).drop_last() =~= ms.take(i as int));
        let part = rich_item_to_md(&items[i]);
        s.append(part.as_str());
        i = i + 1;
    }
    assert(ms.take(items@.len() as int) =~= ms);
    s
}

fn block_to_line(block: &Json) -> (r: (String, bool))
    ensures
        r.0@ == block_line(block.model()).0,
        r.1 == block_line(block.model()).1,
{
    let ty: &str = match str_field(block, "type") {
        Some(t) => t,
        None => "",
    };
    proof {
        reveal_strlit("");
    }
    assert(ty@ == block_type(block.model()));
    let body = block.get(ty);
    let r = rich_text_to_md(body);
    if str_eq(ty, "paragraph") {
        (r, false)
    } else if str_eq(ty, "heading_1") {
        (concat("# ", r.as_str()), false)
    } else if str_eq(ty, "heading_2") {
        (concat("## ", r.as_str()), false)
    } else if str_eq(ty, "heading_3") {
        (concat("### ", r.as_str()), false)
    } else if str_eq(ty, "bulleted_list_item") {
        (concat("- ", r.as_str()), true)
    } else if str_eq(ty, "numbered_list_item") {
        (concat("1. ", r.as_str()), true)
    } else if str_eq(ty, "to_do") {
        let checked = match body {
            Some(b) => match b.get("checked") {
                Some(c) => match c.as_bool() {
                    Some(x) => x,
                    None => false,
                },
                None => false,
            },
            None => false,
        };
        let mark = if checked {
            "x"
        } else {
            " "
        };
        let mut line = surround("- [", mark, "] ");
        line.append(r.as_str());
        (line, true)
    } else if str_eq(ty, "quote") {
        (concat("> ", r.as_str()), false)
    } else if str_eq(ty, "code") {
        let lang: &str = match body {
            Some(b) => match str_field(b, "language") {
                Some(l) => l,
                None => "",
            },
            None => "",
        };
        let mut line = surround("```", lang, "\n");
        line.append(r.as_str());
        line.append("\n```");
        (line, false)
    } else if str_eq(ty, "divider") {
        (crate::text::owned("---"), false)
    } else {
        (r, false)
    }
}

/// Render a page's block children (the `results` of
/// `GET /blocks/{id}/children`) as Markdown.
pub fn blocks_to_markdown(blocks: &[Json]) -> (md: String)
    ensures
        md@ == blocks_md(json_models(blocks@)),
{
    let ghost ms = json_models(blocks@);
    let mut out = String::new();
    let mut prev_list = false;
    let mut i: usize = 0;
    while i < blocks.len()
        invariant
            i <= blocks@.len(),
            ms == json_models(blocks@),
            out@ == blocks_md(ms.take(i as int)),
            i > 0 ==> prev_list == block_line(ms[i - 1]).1,
        decreases blocks@.len() - i,
    {
        let (line, is_list) = block_to_line(&blocks[i]);
        assert(ms[i as int] == blocks@[i as int].model());
        assert(ms.take(i + 1).drop_last() =~= ms.take(i as int));
        if i > 0 {
            if is_list && prev_list {
                out.append("\n");
            } else {
                out.append("\n\n");
            }
        }
        out.append(line.as_str());
        prev_list = is_list;
        i = i + 1;
    }
    assert(ms.take(blocks@.len() as int) =~= ms);
    out
}

// ---------------------------------------------------------------------------
// Markdown -> Notion blocks (for PATCH /blocks/{id}/children)
// ---------------------------------------------------------------------------

#[verifier::external_type_specification]
#[verifier::external_body]
pub struct ExEvent<'a>(Event<'a>);

#[verifier::external_type_specification]
#[verifier::external_body]
pub struct ExTag<'a>(Tag<'a>);

#[verifier::external_type_specification]
#[verifier::external_body]
pub struct ExTagEnd(TagEnd);

/// A parser event, as far as the block builder reads it; every other event
/// is `Other`.
pub enum MdEvent {
    StartParagraph,
    /// A heading of level 1 to 6.
    StartHeading(u8),
    StartQuote,
    /// A code block: the info string of a fenced one, `None` for an indented
    /// one.
    StartCodeBlock(Option<String>),
    /// A list: the first number of an ordered one, `None` for a bulleted one.
    StartList(Option<u64>),
    EndList,
    StartItem,
    /// A task-list checkbox, and whether it is ticked.
    TaskMarker(bool),
    StartEmphasis,
    EndEmphasis,
    StartStrong,
    EndStrong,
    StartStrikethrough,
    EndStrikethrough,
    /// A link and its destination.
    StartLink(String),
    EndLink,
    Text(String),
    Code(String),
    SoftBreak,
    HardBreak,
    Rule,
    EndParagraph,
    EndHeading,
    EndQuote,
    EndCodeBlock,
    EndItem,
    Other,
}

/// A parser event as mathematical values.
pub enum MdEventModel {
    StartParagraph,
    StartHeading(u8),
    StartQuote,
    StartCodeBlock(Option<Seq<char>>),
    StartList(Option<u64>),
    EndList,
    StartItem,
    TaskMarker(bool),
    StartEmphasis,
    EndEmphasis,
    StartStrong,
    EndStrong,
    StartStrikethrough,
    EndStrikethrough,
    StartLink(Seq<char>),
    EndLink,
    Text(Seq<char>),
    Code(Seq<char>),
    SoftBreak,
    HardBreak,
    Rule,
    EndParagraph,
    EndHeading,
    EndQuote,
    EndCodeBlock,
    EndItem,
    Other,
}

impl MdEvent {
    pub open spec fn model(&self) -> MdEventModel {
        match self {
            MdEvent::StartParagraph => MdEventModel::StartParagraph,
            MdEvent::StartHeading(l) => MdEventModel::StartHeading(*l),
            MdEvent::StartQuote => MdEventModel::StartQuote,
            MdEvent::StartCodeBlock(info) => MdEventModel::StartCodeBlock(
                match info {
                    Some(i) => Some(i@),
                    None => None,
                },
            ),
            MdEvent::StartList(start) => MdEventModel::StartList(*start),
            MdEvent::EndList => MdEventModel::EndList,
            MdEvent::StartItem => MdEventModel::StartItem,
            MdEvent::TaskMarker(done) => MdEventModel::TaskMarker(*done),
            MdEvent::StartEmphasis => MdEventModel::StartEmphasis,
            MdEvent::EndEmphasis => MdEventModel::EndEmphasis,
            MdEvent::StartStrong => MdEventModel::StartStrong,
            MdEvent::EndStrong => MdEventModel::EndStrong,
            MdEvent::StartStrikethrough => MdEventModel::StartStrikethrough,
            MdEvent::EndStrikethrough => MdEventModel::EndStrikethrough,
            MdEvent::StartLink(url) => MdEventModel::StartLink(url@),
            MdEvent::EndLink => MdEventModel::EndLink,
            MdEvent::Text(t) => MdEventModel::Text(t@),
            MdEvent::Code(t) => MdEventModel::Code(t@),
            MdEvent::SoftBreak => MdEventModel::SoftBreak,
            MdEvent::HardBreak => MdEventModel::HardBreak,
            MdEvent::Rule => MdEventModel::Rule,
            MdEvent::EndParagraph => MdEventModel::EndParagraph,
            MdEvent::EndHeading => MdEventModel::EndHeading,
            MdEvent::EndQuote => MdEventModel::EndQuote,
            MdEvent::EndCodeBlock => MdEventModel::EndCodeBlock,
            MdEvent::EndItem => MdEventModel::EndItem,
            MdEvent::Other => MdEventModel::Other,
        }
    }
}

pub open spec fn events_model(events: Seq<MdEvent>) -> Seq<MdEventModel> {
    Seq::new(events.len(), |i: int| events[i].model())
}

/// The events that pulldown-cmark's parser yields for `md`, with its
/// strikethrough and task-list extensions switched as given.
pub uninterp spec fn cmark_events(md: Seq<char>, strikethrough: bool, tasklists: bool) -> Seq<
    MdEventModel,
>;

/// `pulldown_cmark::Parser::new_ext`: the parser's events for `md`, in
/// order, each converted to an `MdEvent`. What the parser yields is named,
/// not stated.
#[verifier::external_body]
fn parse_markdown(md: &str, strikethrough: bool, tasklists: bool) -> (events: Vec<MdEvent>)
    ensures
        events_model(events@) == cmark_events(md@, strikethrough, tasklists),
{
    let mut opts = Options::empty();
    opts.set(Options::ENABLE_STRIKETHROUGH, strikethrough);
    opts.set(Options::ENABLE_TASKLISTS, tasklists);
    Parser::new_ext(md, opts).map(event_of).collect()
}

pub open spec fn ranged_events_model(events: Seq<(MdEvent, usize, usize)>) -> Seq<
    (MdEventModel, int, int),
> {
    Seq::new(events.len(), |i: int| (events[i].0.model(), events[i].1 as int, events[i].2 as int))
}

/// The events that pulldown-cmark's offset iterator yields for `md`, each
/// with the byte range of the source it covers, with the strikethrough and
/// task-list extensions switched as given.
pub uninterp spec fn cmark_event_ranges(md: Seq<char>, strikethrough: bool, tasklists: bool) -> Seq<
    (MdEventModel, int, int),
>;

/// `pulldown_cmark::Parser::into_offset_iter`: the parser's events for `md`
/// with their byte ranges, in order, each event converted to an `MdEvent`.
/// What the parser yields is named, not stated.
#[verifier::external_body]
pub(crate) fn parse_markdown_ranges(md: &str, strikethrough: bool, tasklists: bool) -> (events: Vec<
    (MdEvent, usize, usize),
>)
    ensures
        ranged_events_model(events@) == cmark_event_ranges(md@, strikethrough, tasklists),
{
    let mut opts = Options::empty();
    opts.set(Options::ENABLE_STRIKETHROUGH, strikethrough);
    opts.set(Options::ENABLE_TASKLISTS, tasklists);
    Parser::new_ext(md, opts).into_offset_iter().map(|(e, r)| (event_of(e), r.start, r.end)).collect()
}

/// One parser event as an `MdEvent` (tells the variants apart and takes
/// their text out; calls nothing).
#[verifier::external_body]
fn event_of(e: Event<'_>) -> MdEvent {
    match e {
        Event::Start(tag) => start_of(tag),
        Event::End(tag) => end_of(tag),
        Event::Text(t) => MdEvent::Text(t.to_string()),
        Event::Code(t) => MdEvent::Code(t.to_string()),
        Event::SoftBreak => MdEvent::SoftBreak,
        Event::HardBreak => MdEvent::HardBreak,
        Event::Rule => MdEvent::Rule,
        Event::TaskListMarker(done) => MdEvent::TaskMarker(done),
        _ => MdEvent::Other,
    }
}

/// The start of a tagged element as an `MdEvent` (tells the variants apart
/// and takes their fields out; calls nothing).
#[verifier::external_body]
fn start_of(tag: Tag<'_>) -> MdEvent {
    match tag {
        Tag::Paragraph => MdEvent::StartParagraph,
        Tag::Heading { level, .. } => MdEvent::StartHeading(level as u8),
        Tag::BlockQuote(_) => MdEvent::StartQuote,
        Tag::CodeBlock(CodeBlockKind::Fenced(info)) => MdEvent::StartCodeBlock(Some(info.to_string())),
        Tag::CodeBlock(CodeBlockKind::Indented) => MdEvent::StartCodeBlock(None),
        Tag::List(start) => MdEvent::StartList(start),
        Tag::Item => MdEvent::StartItem,
        Tag::Emphasis => MdEvent::StartEmphasis,
        Tag::Strong => MdEvent::StartStrong,
        Tag::Strikethrough => MdEvent::StartStrikethrough,
        Tag::Link { dest_url, .. } => MdEvent::StartLink(dest_url.to_string()),
        _ => MdEvent::Other,
    }
}

/// The end of a tagged element as an `MdEvent` (tells the variants apart;
/// calls nothing).
#[verifier::external_body]
fn end_of(tag: TagEnd) -> MdEvent {
    match tag {
        TagEnd::Paragraph => MdEvent::EndParagraph,
        TagEnd::Heading(_) => MdEvent::EndHeading,
        TagEnd::BlockQuote(_) => MdEvent::EndQuote,
        TagEnd::CodeBlock => MdEvent::EndCodeBlock,
        TagEnd::List(_) => MdEvent::EndList,
        TagEnd::Item => MdEvent::EndItem,
        TagEnd::Emphasis => MdEvent::EndEmphasis,
        TagEnd::Strong => MdEvent::EndStrong,
        TagEnd::Strikethrough => MdEvent::EndStrikethrough,
        TagEnd::Link => MdEvent::EndLink,
        _ => MdEvent::Other,
    }
}

/// The kind of block being assembled.
#[derive(Clone, Copy)]
pub enum BlockKind {
    Paragraph,
    Heading1,
    Heading2,
    Heading3,
    Quote,
    Code,
    Bulleted,
    Numbered,
    ToDo,
}

impl BlockKind {
    /// The Notion block type.
    pub open spec fn name(self) -> Seq<char> {
        match self {
            BlockKind::Paragraph => "paragraph"@,
            BlockKind::Heading1 => "heading_1"@,
            BlockKind::Heading2 => "heading_2"@,
            BlockKind::Heading3 => "heading_3"@,
            BlockKind::Quote => "quote"@,
            BlockKind::Code => "code"@,
            BlockKind::Bulleted => "bulleted_list_item"@,
            BlockKind::Numbered => "numbered_list_item"@,
            BlockKind::ToDo => "to_do"@,
        }
    }

    fn name_str(self) -> (s: &'static str)
        ensures
            s@ == self.name(),
    {
        match self {
            BlockKind::Paragraph => "paragraph",
            BlockKind::Heading1 => "heading_1",
            BlockKind::Heading2 => "heading_2",
            BlockKind::Heading3 => "heading_3",
            BlockKind::Quote => "quote",
            BlockKind::Code => "code",
            BlockKind::Bulleted => "bulleted_list_item",
            BlockKind::Numbered => "numbered_list_item",
            BlockKind::ToDo => "to_do",
        }
    }
}

/// The inline style a text span is written with.
pub struct StyleModel {
    pub bold: bool,
    pub italic: bool,
    pub strike: bool,
    pub code: bool,
    pub link: Option<Seq<char>>,
}

pub open spec fn plain_style() -> StyleModel {
    StyleModel { bold: false, italic: false, strike: false, code: false, link: None }
}

/// What the block builder holds between two parser events.
pub struct MdState {
    /// The blocks finished so far.
    pub blocks: Seq<JsonModel>,
    /// The block being assembled, if any.
    pub kind: Option<BlockKind>,
    /// Its text spans so far.
    pub spans: Seq<(Seq<char>, StyleModel)>,
    /// The tick of the last task-list marker.
    pub checked: bool,
    /// The language of the last code block.
    pub code_lang: Seq<char>,
    /// The inline style in force.
    pub style: StyleModel,
    /// The enclosing lists, innermost last: the first number of an ordered
    /// one, `None` for a bulleted one.
    pub lists: Seq<Option<u64>>,
}

pub open spec fn md_start() -> MdState {
    MdState {
        blocks: Seq::empty(),
        kind: None,
        spans: Seq::empty(),
        checked: false,
        code_lang: Seq::empty(),
        style: plain_style(),
        lists: Seq::empty(),
    }
}

/// The annotations of a span: only those that are set.
pub open spec fn annotations(st: StyleModel) -> Seq<(Seq<char>, JsonModel)> {
    let a0: Seq<(Seq<char>, JsonModel)> = Seq::empty();
    let a1 = if st.bold {
        a0.push(("bold"@, JsonModel::Bool(true)))
    } else {
        a0
    };
    let a2 = if st.italic {
        a1.push(("italic"@, JsonModel::Bool(true)))
    } else {
        a1
    };
    let a3 = if st.strike {
        a2.push(("strikethrough"@, JsonModel::Bool(true)))
    } else {
        a2
    };
    if st.code {
        a3.push(("code"@, JsonModel::Bool(true)))
    } else {
        a3
    }
}

/// A Notion rich-text item for `text` written in style `st`.
pub open spec fn span_json(text: Seq<char>, st: StyleModel) -> JsonModel {
    let link = match st.link {
        Some(u) => JsonModel::Object(seq![("url"@, JsonModel::Str(u))]),
        None => JsonModel::Null,
    };
    let base = seq![
        ("type"@, JsonModel::Str("text"@)),
        ("text"@, JsonModel::Object(seq![("content"@, JsonModel::Str(text)), ("link"@, link)])),
    ];
    let ann = annotations(st);
    JsonModel::Object(
        if ann.len() == 0 {
            base
        } else {
            base.push(("annotations"@, JsonModel::Object(ann)))
        },
    )
}

/// `s` without its trailing newlines.
pub open spec fn trim_newlines(s: Seq<char>) -> Seq<char>
    decreases s.len(),
{
    if s.len() > 0 && s.last() == '\n' {
        trim_newlines(s.drop_last())
    } else {
        s
    }
}

/// The rich text of a block: one item per span; a code block's last span
/// loses the newlines Markdown ends it with.
pub open spec fn rich_json(kind: BlockKind, spans: Seq<(Seq<char>, StyleModel)>) -> Seq<JsonModel> {
    Seq::new(
        spans.len(),
        |i: int|
            span_json(
                if kind is Code && i == spans.len() - 1 {
                    trim_newlines(spans[i].0)
                } else {
                    spans[i].0
                },
                spans[i].1,
            ),
    )
}

/// A finished Notion block object.
pub open spec fn block_json(
    kind: BlockKind,
    spans: Seq<(Seq<char>, StyleModel)>,
    checked: bool,
    lang: Seq<char>,
) -> JsonModel {
    let rich = ("rich_text"@, JsonModel::Array(rich_json(kind, spans)));
    let body = match kind {
        BlockKind::Code => seq![rich, ("language"@, JsonModel::Str(lang))],
        BlockKind::ToDo => seq![rich, ("checked"@, JsonModel::Bool(checked))],
        _ => seq![rich],
    };
    JsonModel::Object(
        seq![("type"@, JsonModel::Str(kind.name())), (kind.name(), JsonModel::Object(body))],
    )
}

/// A divider block.
pub open spec fn divider_json() -> JsonModel {
    JsonModel::Object(
        seq![("type"@, JsonModel::Str("divider"@)), ("divider"@, JsonModel::Object(Seq::empty()))],
    )
}

/// Finish the block being assembled, if any.
pub open spec fn flush(s: MdState) -> MdState {
    match s.kind {
        Some(k) => MdState {
            blocks: s.blocks.push(block_json(k, s.spans, s.checked, s.code_lang)),
            kind: None,
            spans: Seq::empty(),
            ..s
        },
        None => s,
    }
}

/// The state after the block-level event `e`.
pub open spec fn block_step(s: MdState, e: MdEventModel) -> MdState {
    match e {
        MdEventModel::StartParagraph => if s.kind is None {
            MdState { kind: Some(BlockKind::Paragraph), ..s }
        } else {
            s
        },
        MdEventModel::StartHeading(level) => MdState {
            kind: Some(
                if level == 1 {
                    BlockKind::Heading1
                } else if level == 2 {
                    BlockKind::Heading2
                } else {
                    BlockKind::Heading3
                },
            ),
            ..flush(s)
        },
        MdEventModel::StartQuote => MdState { kind: Some(BlockKind::Quote), ..flush(s) },
        MdEventModel::StartCodeBlock(info) => MdState {
            kind: Some(BlockKind::Code),
            code_lang: match info {
                Some(l) => if l.len() > 0 {
                    l
                } else {
                    "plain text"@
                },
                None => "plain text"@,
            },
            ..flush(s)
        },
        MdEventModel::StartList(start) => MdState { lists: s.lists.push(start), ..s },
        MdEventModel::EndList => if s.lists.len() > 0 {
            MdState { lists: s.lists.drop_last(), ..s }
        } else {
            s
        },
        MdEventModel::StartItem => {
            let f = flush(s);
            MdState {
                kind: Some(
                    if f.lists.len() > 0 && f.lists.last() is Some {
                        BlockKind::Numbered
                    } else {
                        BlockKind::Bulleted
                    },
                ),
                ..f
            }
        },
        MdEventModel::TaskMarker(done) => MdState {
            kind: Some(BlockKind::ToDo),
            checked: done,
            ..s
        },
        MdEventModel::Rule => {
            let f = flush(s);
            MdState { blocks: f.blocks.push(divider_json()), ..f }
        },
        MdEventModel::EndParagraph => flush(s),
        MdEventModel::EndHeading => flush(s),
        MdEventModel::EndQuote => flush(s),
        MdEventModel::EndCodeBlock => flush(s),
        MdEventModel::EndItem => flush(s),
        _ => s,
    }
}

/// The kind after text arrives: a paragraph if no block was open.
pub open spec fn kind_for_text(kind: Option<BlockKind>) -> Option<BlockKind> {
    if kind is None {
        Some(BlockKind::Paragraph)
    } else {
        kind
    }
}

/// The state after the inline event `e`.
pub open spec fn inline_step(s: MdState, e: MdEventModel) -> MdState {
    let st = s.style;
    match e {
        MdEventModel::StartEmphasis => MdState { style: StyleModel { italic: true, ..st }, ..s },
        MdEventModel::EndEmphasis => MdState { style: StyleModel { italic: false, ..st }, ..s },
        MdEventModel::StartStrong => MdState { style: StyleModel { bold: true, ..st }, ..s },
        MdEventModel::EndStrong => MdState { style: StyleModel { bold: false, ..st }, ..s },
        MdEventModel::StartStrikethrough => MdState {
            style: StyleModel { strike: true, ..st },
            ..s
        },
        MdEventModel::EndStrikethrough => MdState {
            style: StyleModel { strike: false, ..st },
            ..s
        },
        MdEventModel::StartLink(url) => MdState {
            style: StyleModel { link: Some(url), ..st },
            ..s
        },
        MdEventModel::EndLink => MdState { style: StyleModel { link: None, ..st }, ..s },
        MdEventModel::Text(t) => MdState {
            kind: kind_for_text(s.kind),
            spans: s.spans.push((t, st)),
            ..s
        },
        MdEventModel::Code(t) => MdState {
            kind: kind_for_text(s.kind),
            spans: s.spans.push((t, StyleModel { code: true, link: st.link, ..plain_style() })),
            ..s
        },
        MdEventModel::SoftBreak => if s.spans.len() > 0 {
            MdState { spans: s.spans.push(("\n"@, plain_style())), ..s }
        } else {
            s
        },
        MdEventModel::HardBreak => if s.spans.len() > 0 {
            MdState { spans: s.spans.push(("\n"@, plain_style())), ..s }
        } else {
            s
        },
        _ => s,
    }
}

/// Inline events change the style or add spans; the others shape blocks.
pub open spec fn is_inline(e: MdEventModel) -> bool {
    match e {
        MdEventModel::StartEmphasis | MdEventModel::EndEmphasis | MdEventModel::StartStrong
        | MdEventModel::EndStrong | MdEventModel::StartStrikethrough
        | MdEventModel::EndStrikethrough | MdEventModel::StartLink(_) | MdEventModel::EndLink
        | MdEventModel::Text(_) | MdEventModel::Code(_) | MdEventModel::SoftBreak
        | MdEventModel::HardBreak => true,
        _ => false,
    }
}

/// The state after event `e`.
pub open spec fn md_step(s: MdState, e: MdEventModel) -> MdState {
    if is_inline(e) {
        inline_step(s, e)
    } else {
        block_step(s, e)
    }
}

/// The state after the first `n` events.
pub open spec fn md_fold(events: Seq<MdEventModel>, n: int) -> MdState
    decreases n,
{
    if n <= 0 {
        md_start()
    } else {
        md_step(md_fold(events, n - 1), events[n - 1])
    }
}

/// The blocks built from a whole event stream: every event in turn, then
/// the last open block finished.
pub open spec fn md_blocks(events: Seq<MdEventModel>) -> Seq<JsonModel> {
    flush(md_fold(events, events.len() as int)).blocks
}

/// An inline style, as the builder holds it.
struct Style {
    bold: bool,
    italic: bool,
    strike: bool,
    code: bool,
    link: Option<String>,
}

impl Style {
    spec fn model(&self) -> StyleModel {
        StyleModel {
            bold: self.bold,
            italic: self.italic,
            strike: self.strike,
            code: self.code,
            link: opt_str_model(self.link),
        }
    }

    fn plain() -> (s: Style)
        ensures
            s.model() == plain_style(),
    {
        Style { bold: false, italic: false, strike: false, code: false, link: None }
    }

    fn duplicate(&self) -> (s: Style)
        ensures
            s.model() == self.model(),
    {
        Style {
            bold: self.bold,
            italic: self.italic,
            strike: self.strike,
            code: self.code,
            link: clone_opt_string(&self.link),
        }
    }
}

spec fn spans_model(spans: Seq<(String, Style)>) -> Seq<(Seq<char>, StyleModel)> {
    Seq::new(spans.len(), |i: int| (spans[i].0@, spans[i].1.model()))
}

fn annotations_of(st: &Style) -> (es: Vec<(String, Json)>)
    ensures
        entry_models(es@) == annotations(st.model()),
{
    let mut es: Vec<(String, Json)> = Vec::new();
    assert(entry_models(es@) =~= Seq::empty());
    if st.bold {
        push_entry(&mut es, "bold", Json::Bool(true));
    }
    if st.italic {
        push_entry(&mut es, "italic", Json::Bool(true));
    }
    if st.strike {
        push_entry(&mut es, "strikethrough", Json::Bool(true));
    }
    if st.code {
        push_entry(&mut es, "code", Json::Bool(true));
    }
    es
}

fn span_to_json(text: &str, st: &Style) -> (j: Json)
    ensures
        j.model() == span_json(text@, st.model()),
{
    let link = match &st.link {
        Some(u) => Json::object1("url", Json::string(u.as_str())),
        None => Json::Null,
    };
    let ghost lm = link.model();
    let mut inner: Vec<(String, Json)> = Vec::new();
    push_entry(&mut inner, "content", Json::string(text));
    push_entry(&mut inner, "link", link);
    assert(entry_models(inner@) =~= seq![("content"@, JsonModel::Str(text@)), ("link"@, lm)]);
    let inner_json = Json::from_entries(inner);
    let ghost im = inner_json.model();
    let mut es: Vec<(String, Json)> = Vec::new();
    push_entry(&mut es, "type", Json::string("text"));
    push_entry(&mut es, "text", inner_json);
    assert(entry_models(es@) =~= seq![("type"@, JsonModel::Str("text"@)), ("text"@, im)]);
    let ann = annotations_of(st);
    if ann.len() > 0 {
        let ann_json = Json::from_entries(ann);
        push_entry(&mut es, "annotations", ann_json);
    }
    Json::from_entries(es)
}

/// `s` without its trailing newlines (`trim_end_matches('\n')`).
fn trim_trailing_newlines(s: &str) -> (r: &str)
    ensures
        r@ == trim_newlines(s@),
{
    let mut n = s.unicode_len();
    assert(s@.subrange(0, n as int) =~= s@);
    while n > 0 && s.get_char(n - 1) == '\n'
        invariant
            n <= s@.len(),
            trim_newlines(s@) == trim_newlines(s@.subrange(0, n as int)),
        decreases n,
    {
        assert(s@.subrange(0, n as int).drop_last() =~= s@.subrange(0, n - 1));
        n = n - 1;
    }
    s.substring_char(0, n)
}

fn block_to_json(kind: BlockKind, spans: &Vec<(String, Style)>, checked: bool, lang: &str) -> (j: Json)
    ensures
        j.model() == block_json(kind, spans_model(spans@), checked, lang@),
{
    let ghost sm = spans_model(spans@);
    let ghost want = rich_json(kind, sm);
    let is_code = match kind {
        BlockKind::Code => true,
        _ => false,
    };
    let mut items: Vec<Json> = Vec::new();
    let mut i: usize = 0;
    while i < spans.len()
        invariant
            i <= spans@.len(),
            sm == spans_model(spans@),
            want == rich_json(kind, sm),
            is_code == (kind is Code),
            json_models(items@) =~= want.take(i as int),
        decreases spans@.len() - i,
    {
        let text: &str = if is_code && i + 1 == spans.len() {
            trim_trailing_newlines(spans[i].0.as_str())
        } else {
            spans[i].0.as_str()
        };
        let item = span_to_json(text, &spans[i].1);
        let ghost before = items@;
        items.push(item);
        assert(json_models(items@) =~= json_models(before).push(want[i as int]));
        assert(want.take(i + 1) =~= want.take(i as int).push(want[i as int]));
        i = i + 1;
    }
    assert(want.take(spans@.len() as int) =~= want);
    let rich = Json::from_items(items);
    let ghost rm = rich.model();
    let mut body: Vec<(String, Json)> = Vec::new();
    push_entry(&mut body, "rich_text", rich);
    match kind {
        BlockKind::Code => push_entry(&mut body, "language", Json::string(lang)),
        BlockKind::ToDo => push_entry(&mut body, "checked", Json::Bool(checked)),
        _ => {},
    }
    let ghost bm = entry_models(body@);
    assert(bm =~= match kind {
        BlockKind::Code => seq![("rich_text"@, rm), ("language"@, JsonModel::Str(lang@))],
        BlockKind::ToDo => seq![("rich_text"@, rm), ("checked"@, JsonModel::Bool(checked))],
        _ => seq![("rich_text"@, rm)],
    });
    let name = kind.name_str();
    let mut es: Vec<(String, Json)> = Vec::new();
    push_entry(&mut es, "type", Json::string(name));
    push_entry(&mut es, name, Json::from_entries(body));
    assert(entry_models(es@) =~= seq![
        ("type"@, JsonModel::Str(kind.name())),
        (kind.name(), JsonModel::Object(bm)),
    ]);
    Json::from_entries(es)
}

fn divider() -> (j: Json)
    ensures
        j.model() == divider_json(),
{
    let mut es: Vec<(String, Json)> = Vec::new();
    push_entry(&mut es, "type", Json::string("divider"));
    push_entry(&mut es, "divider", Json::empty_object());
    assert(entry_models(es@) =~= seq![
        ("type"@, JsonModel::Str("divider"@)),
        ("divider"@, JsonModel::Object(Seq::empty())),
    ]);
    Json::from_entries(es)
}

/// The block builder's state (see `MdState`).
struct Builder {
    blocks: Vec<Json>,
    kind: Option<BlockKind>,
    spans: Vec<(String, Style)>,
    checked: bool,
    code_lang: String,
    style: Style,
    lists: Vec<Option<u64>>,
}

impl Builder {
    spec fn model(&self) -> MdState {
        MdState {
            blocks: json_models(self.blocks@),
            kind: self.kind,
            spans: spans_model(self.spans@),
            checked: self.checked,
            code_lang: self.code_lang@,
            style: self.style.model(),
            lists: self.lists@,
        }
    }

    fn new() -> (b: Builder)
        ensures
            b.model() == md_start(),
    {
        let b = Builder {
            blocks: Vec::new(),
            kind: None,
            spans: Vec::new(),
            checked: false,
            code_lang: String::new(),
            style: Style::plain(),
            lists: Vec::new(),
        };
        assert(b.model().blocks =~= Seq::empty());
        assert(b.model().spans =~= Seq::empty());
        b
    }

    fn flush(&mut self)
        ensures
            final(self).model() == flush(old(self).model()),
    {
        match self.kind {
            Some(k) => {
                let mut spans: Vec<(String, Style)> = Vec::new();
                std::mem::swap(&mut spans, &mut self.spans);
                let block = block_to_json(k, &spans, self.checked, self.code_lang.as_str());
                let ghost before = self.blocks@;
                self.blocks.push(block);
                assert(json_models(self.blocks@) =~= json_models(before).push(block.model()));
                assert(spans_model(self.spans@) =~= Seq::empty());
                self.kind = None;
            },
            None => {},
        }
    }

    fn push_span(&mut self, text: &str, st: Style)
        ensures
            final(self).model() == (MdState {
                spans: old(self).model().spans.push((text@, st.model())),
                ..old(self).model()
            }),
    {
        let ghost before = self.spans@;
        self.spans.push((owned(text), st));
        assert(spans_model(self.spans@) =~= spans_model(before).push((text@, st.model())));
    }

    fn inline_event(&mut self, e: &MdEvent)
        requires
            is_inline(e.model()),
        ensures
            final(self).model() == inline_step(old(self).model(), e.model()),
    {
        match e {
            MdEvent::StartEmphasis => self.style.italic = true,
            MdEvent::EndEmphasis => self.style.italic = false,
            MdEvent::StartStrong => self.style.bold = true,
            MdEvent::EndStrong => self.style.bold = false,
            MdEvent::StartStrikethrough => self.style.strike = true,
            MdEvent::EndStrikethrough => self.style.strike = false,
            MdEvent::StartLink(url) => self.style.link = Some(owned(url.as_str())),
            MdEvent::EndLink => self.style.link = None,
            MdEvent::Text(t) => {
                if self.kind.is_none() {
                    self.kind = Some(BlockKind::Paragraph);
                }
                let st = self.style.duplicate();
                self.push_span(t.as_str(), st);
            },
            MdEvent::Code(t) => {
                if self.kind.is_none() {
                    self.kind = Some(BlockKind::Paragraph);
                }
                let st = Style {
                    bold: false,
                    italic: false,
                    strike: false,
                    code: true,
                    link: clone_opt_string(&self.style.link),
                };
                self.push_span(t.as_str(), st);
            },
            MdEvent::SoftBreak | MdEvent::HardBreak => {
                if self.spans.len() > 0 {
                    self.push_span("\n", Style::plain());
                }
            },
            _ => {},
        }
    }

    fn block_event(&mut self, e: &MdEvent)
        requires
            !is_inline(e.model()),
        ensures
            final(self).model() == block_step(old(self).model(), e.model()),
    {
        match e {
            MdEvent::StartParagraph => {
                if self.kind.is_none() {
                    self.kind = Some(BlockKind::Paragraph);
                }
            },
            MdEvent::StartHeading(level) => {
                self.flush();
                self.kind = Some(
                    if *level == 1 {
                        BlockKind::Heading1
                    } else if *level == 2 {
                        BlockKind::Heading2
                    } else {
                        BlockKind::Heading3
                    },
                );
            },
            MdEvent::StartQuote => {
                self.flush();
                self.kind = Some(BlockKind::Quote);
            },
            MdEvent::StartCodeBlock(info) => {
                self.flush();
                self.kind = Some(BlockKind::Code);
                self.code_lang = match info {
                    Some(l) => if l.as_str().is_empty() {
                        owned("plain text")
                    } else {
                        owned(l.as_str())
                    },
                    None => owned("plain text"),
                };
            },
            MdEvent::StartList(start) => self.lists.push(*start),
            MdEvent::EndList => {
                self.lists.pop();
            },
            MdEvent::StartItem => {
                self.flush();
                let n = self.lists.len();
                self.kind = Some(
                    if n > 0 && self.lists[n - 1].is_some() {
                        BlockKind::Numbered
                    } else {
                        BlockKind::Bulleted
                    },
                );
            },
            MdEvent::TaskMarker(done) => {
                self.kind = Some(BlockKind::ToDo);
                self.checked = *done;
            },
            MdEvent::Rule => {
                self.flush();
                let ghost before = self.blocks@;
                let d = divider();
                self.blocks.push(d);
                assert(json_models(self.blocks@) =~= json_models(before).push(divider_json()));
            },
            MdEvent::EndParagraph | MdEvent::EndHeading | MdEvent::EndQuote
            | MdEvent::EndCodeBlock | MdEvent::EndItem => self.flush(),
            _ => {},
        }
    }
}

/// The Notion blocks for a stream of Markdown parser events.
pub fn blocks_from_events(events: &Vec<MdEvent>) -> (blocks: Vec<Json>)
    ensures
        json_models(blocks@) == md_blocks(events_model(events@)),
{
    let ghost em = events_model(events@);
    let mut b = Builder::new();
    let mut i: usize = 0;
    while i < events.len()
        invariant
            i <= events@.len(),
            em == events_model(events@),
            b.model() == md_fold(em, i as int),
        decreases events@.len() - i,
    {
        let e = &events[i];
        assert(em[i as int] == e.model());
        if is_inline_event(e) {
            b.inline_event(e);
        } else {
            b.block_event(e);
        }
        i = i + 1;
    }
    b.flush();
    b.blocks
}

fn is_inline_event(e: &MdEvent) -> (r: bool)
    ensures
        r == is_inline(e.model()),
{
    match e {
        MdEvent::StartEmphasis | MdEvent::EndEmphasis | MdEvent::StartStrong | MdEvent::EndStrong
        | MdEvent::StartStrikethrough | MdEvent::EndStrikethrough | MdEvent::StartLink(_)
        | MdEvent::EndLink | MdEvent::Text(_) | MdEvent::Code(_) | MdEvent::SoftBreak
        | MdEvent::HardBreak => true,
        _ => false,
    }
}

/// Build the Notion block objects for a Markdown string (strikethrough and
/// task lists on).
pub fn markdown_to_blocks(md: &str) -> (blocks: Vec<Json>)
    ensures
        json_models(blocks@) == md_blocks(cmark_events(md@, true, true)),
{
    let events = parse_markdown(md, true, true);
    blocks_from_events(&events)
}

// ---------------------------------------------------------------------------
// The two directions agree
// ---------------------------------------------------------------------------

/// `t` with the Markdown of inline style `st` (see `item_md`).
pub open spec fn styled_md(t: Seq<char>, st: StyleModel) -> Seq<char> {
    let inner = if st.code {
        "`"@ + t + "`"@
    } else {
        let s1 = if st.strike {
            "~~"@ + t + "~~"@
        } else {
            t
        };
        let s2 = if st.bold {
            "**"@ + s1 + "**"@
        } else {
            s1
        };
        if st.italic {
            "*"@ + s2 + "*"@
        } else {
            s2
        }
    };
    match st.link {
        Some(u) => "["@ + inner + "]("@ + u + ")"@,
        None => inner,
    }
}

/// A text span the block builder writes is read back by the renderer as
/// its text in the span's Markdown style.
pub proof fn lemma_span_round_trip(t: Seq<char>, st: StyleModel)
    requires
        t.len() > 0,
    ensures
        item_md(span_json(t, st)) == styled_md(t, st),
{
    reveal_strlit("type");
    reveal_strlit("text");
    reveal_strlit("content");
    reveal_strlit("link");
    reveal_strlit("annotations");
    reveal_strlit("plain_text");
    reveal_strlit("href");
    reveal_strlit("bold");
    reveal_strlit("italic");
    reveal_strlit("strikethrough");
    reveal_strlit("code");
    assert("href"@[0] != "type"@[0] && "href"@[0] != "text"@[0]);
    assert("text"@[1] != "type"@[1]);
    let j = span_json(t, st);
    let es = j->Object_0;
    let ann = annotations(st);
    assert(es[0].0 == "type"@ && es[1].0 == "text"@);
    assert("plain_text"@ != "type"@ && "plain_text"@ != "text"@);
    assert("href"@ != "type"@ && "href"@ != "text"@);
    assert("annotations"@ != "type"@ && "annotations"@ != "text"@);
    assert("annotations"@[0] != "plain_text"@[0] && "annotations"@[0] != "href"@[0]);
    lemma_field_absent(es, "plain_text"@, 0);
    lemma_field_absent(es, "href"@, 0);
    let inner = es[1].1;
    assert(inner->Object_0[0].0 == "content"@);
    assert(crate::json::field_from(es, "text"@, 1) == Some(inner));
    assert(j.get("text"@) == Some(inner));
    assert(item_text(j) == Some(t));
    let link = match st.link {
        Some(u) => JsonModel::Object(seq![("url"@, JsonModel::Str(u))]),
        None => JsonModel::Null,
    };
    assert("link"@[0] != "content"@[0]);
    assert(crate::json::field_from(inner->Object_0, "link"@, 1) == Some(link));
    assert(inner.get("link"@) == Some(link));
    assert(item_href(j) == st.link);
    let keys = seq!["bold"@, "italic"@, "strikethrough"@, "code"@];
    assert forall|k: Seq<char>| #[trigger] keys.contains(k) implies has_annotation(j, k) == (
    if k == "bold"@ {
        st.bold
    } else if k == "italic"@ {
        st.italic
    } else if k == "strikethrough"@ {
        st.strike
    } else {
        st.code
    }) by {
        assert("bold"@[0] != "italic"@[0] && "bold"@[0] != "strikethrough"@[0] && "bold"@[0]
            != "code"@[0] && "italic"@[0] != "strikethrough"@[0] && "italic"@[0] != "code"@[0]
            && "strikethrough"@[0] != "code"@[0]);
        reveal_with_fuel(crate::json::field_from, 6);
        if ann.len() == 0 {
            lemma_field_absent(es, "annotations"@, 0);
        } else {
            assert(es[2].0 == "annotations"@);
            assert("annotations"@[0] != "type"@[0] && "annotations"@[0] != "text"@[0]);
            assert(crate::json::field_from(es, "annotations"@, 2) == Some(JsonModel::Object(ann)));
            assert(crate::json::field_from(es, "annotations"@, 1) == Some(JsonModel::Object(ann)));
            assert(j.get("annotations"@) == Some(JsonModel::Object(ann)));
        }
    }
    assert(keys.contains("bold"@) && keys.contains("italic"@) && keys.contains(
        "strikethrough"@,
    ) && keys.contains("code"@)) by {
        assert(keys[0] == "bold"@ && keys[1] == "italic"@ && keys[2] == "strikethrough"@
            && keys[3] == "code"@);
    }
}

/// The Markdown line of a block of kind `kind` whose rich text reads `r`,
/// and whether it is a list item.
pub open spec fn kind_line(kind: BlockKind, r: Seq<char>, checked: bool, lang: Seq<char>) -> (
    Seq<char>,
    bool,
) {
    match kind {
        BlockKind::Paragraph => (r, false),
        BlockKind::Heading1 => ("# "@ + r, false),
        BlockKind::Heading2 => ("## "@ + r, false),
        BlockKind::Heading3 => ("### "@ + r, false),
        BlockKind::Quote => ("> "@ + r, false),
        BlockKind::Code => ("```"@ + lang + "\n"@ + r + "\n```"@, false),
        BlockKind::Bulleted => ("- "@ + r, true),
        BlockKind::Numbered => ("1. "@ + r, true),
        BlockKind::ToDo => ("- ["@ + (if checked {
            "x"@
        } else {
            " "@
        }) + "] "@ + r, true),
    }
}

/// A block the builder finishes is read back by the renderer as the
/// Markdown line of its kind around its rich text (for a code block, with
/// its language; for a to-do, with its tick).
pub proof fn lemma_block_round_trip(
    kind: BlockKind,
    spans: Seq<(Seq<char>, StyleModel)>,
    checked: bool,
    lang: Seq<char>,
)
    ensures
        block_line(block_json(kind, spans, checked, lang)) == kind_line(
            kind,
            items_md(rich_json(kind, spans)),
            checked,
            lang,
        ),
{
    reveal_strlit("type");
    reveal_strlit("rich_text");
    reveal_strlit("language");
    reveal_strlit("checked");
    reveal_strlit("paragraph");
    reveal_strlit("heading_1");
    reveal_strlit("heading_2");
    reveal_strlit("heading_3");
    reveal_strlit("bulleted_list_item");
    reveal_strlit("numbered_list_item");
    reveal_strlit("to_do");
    reveal_strlit("quote");
    reveal_strlit("code");
    reveal_strlit("divider");
    let b = block_json(kind, spans, checked, lang);
    let name = kind.name();
    let es = b->Object_0;
    let body = es[1].1;
    let bes = body->Object_0;
    let rich = JsonModel::Array(rich_json(kind, spans));
    assert(name[0] != "type"@[0] || name[1] != "type"@[1]);
    assert(name != "type"@);
    assert(block_type(b) == name);
    assert(crate::json::field_from(es, name, 1) == Some(body));
    assert(b.get(name) == Some(body));
    assert(bes[0] == ("rich_text"@, rich));
    assert(body.get("rich_text"@) == Some(rich));
    assert(rich_md(Some(body)) == items_md(rich_json(kind, spans)));
    let p = "paragraph"@;
    let h1 = "heading_1"@;
    let h2 = "heading_2"@;
    let h3 = "heading_3"@;
    let bl = "bulleted_list_item"@;
    let nl = "numbered_list_item"@;
    let td = "to_do"@;
    let qt = "quote"@;
    let cd = "code"@;
    let dv = "divider"@;
    assert(p[0] != h1[0] && p[0] != h2[0] && p[0] != h3[0]);
    assert(h1[8] != h2[8] && h1[8] != h3[8] && h2[8] != h3[8]);
    assert(bl[0] != nl[0] && td[0] != qt[0]);
    match kind {
        BlockKind::Code => {
            assert("rich_text"@[0] != "language"@[0]);
            assert(crate::json::field_from(bes, "language"@, 1) == Some(JsonModel::Str(lang)));
            assert(str_member(body, "language"@) == Some(lang));
        },
        BlockKind::ToDo => {
            assert("rich_text"@[0] != "checked"@[0]);
            assert(crate::json::field_from(bes, "checked"@, 1) == Some(JsonModel::Bool(checked)));
            assert(body.get("checked"@) == Some(JsonModel::Bool(checked)));
        },
        _ => {},
    }
}

/// The heading depth a Notion heading block can hold for a Markdown heading
/// of `level`: Notion has three heading blocks, so deeper headings become
/// the third.
pub open spec fn notion_heading_depth(level: u8) -> nat {
    if level < 3 {
        level as nat
    } else {
        3
    }
}

/// A Markdown heading keeps its level: the block a heading of level 1 to 6
/// opens is Notion's `heading_<n>` for its depth `n`, and that block reads
/// back as a line of `n` `#` signs, a space and its text.
pub proof fn lemma_heading_level_kept(
    s: MdState,
    level: u8,
    spans: Seq<(Seq<char>, StyleModel)>,
    checked: bool,
    lang: Seq<char>,
)
    requires
        1 <= level <= 6,
    ensures
        md_step(s, MdEventModel::StartHeading(level)).kind is Some,
        md_step(s, MdEventModel::StartHeading(level)).kind.unwrap().name() == "heading_"@ + seq![
            digit_char(notion_heading_depth(level) as int),
        ],
        block_line(
            block_json(
                md_step(s, MdEventModel::StartHeading(level)).kind.unwrap(),
                spans,
                checked,
                lang,
            ),
        ).0 == Seq::new(notion_heading_depth(level), |_i: int| '#') + " "@ + items_md(
            rich_json(md_step(s, MdEventModel::StartHeading(level)).kind.unwrap(), spans),
        ),
{
    let k = md_step(s, MdEventModel::StartHeading(level)).kind.unwrap();
    let n = notion_heading_depth(level);
    lemma_block_round_trip(k, spans, checked, lang);
    reveal_strlit("heading_");
    reveal_strlit("heading_1");
    reveal_strlit("heading_2");
    reveal_strlit("heading_3");
    reveal_strlit("# ");
    reveal_strlit("## ");
    reveal_strlit("### ");
    reveal_strlit(" ");
    let r = items_md(rich_json(k, spans));
    if level == 1 {
        assert(k.name() =~= "heading_"@ + seq![digit_char(1)]);
        assert("# "@ + r =~= Seq::new(n, |_i: int| '#') + " "@ + r);
    } else if level == 2 {
        assert(k.name() =~= "heading_"@ + seq![digit_char(2)]);
        assert("## "@ + r =~= Seq::new(n, |_i: int| '#') + " "@ + r);
    } else {
        assert(k.name() =~= "heading_"@ + seq![digit_char(3)]);
        assert("### "@ + r =~= Seq::new(n, |_i: int| '#') + " "@ + r);
    }
}

} // verus!
