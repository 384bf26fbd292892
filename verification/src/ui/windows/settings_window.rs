//! The settings dialog's logic: which database properties each mapping row
//! offers, what it preselects and reads back, what a validation attempt
//! sends, and how the chosen mappings are applied.
use crate::application::settings_service::PropertyMappings;
use crate::collate::views;
use crate::text::{owned, str_eq, trim, trimmed};
use vstd::prelude::*;

verus! {

/// An app field mapped to a Notion property.
#[derive(Debug, Clone, Copy, PartialEq, Eq, Structural)]
pub enum MappingField {
    Title,
    Status,
    DueDate,
    Priority,
    PomodoroCount,
    TrackedMinutes,
    LastSynced,
}

impl MappingField {
    /// The property types the field can be mapped to.
    pub open spec fn types(self) -> Seq<Seq<char>> {
        match self {
            MappingField::Title => seq!["title"@],
            MappingField::Status => seq!["status"@, "select"@],
            MappingField::DueDate => seq!["date"@],
            MappingField::Priority => seq!["select"@],
            MappingField::PomodoroCount => seq!["number"@],
            MappingField::TrackedMinutes => seq!["number"@],
            MappingField::LastSynced => seq!["date"@],
        }
    }

    /// Every field but title and status may be left unmapped.
    pub open spec fn optional(self) -> bool {
        !(self is Title || self is Status)
    }

    pub fn is_optional(self) -> (b: bool)
        ensures
            b == self.optional(),
    {
        match self {
            MappingField::Title | MappingField::Status => false,
            _ => true,
        }
    }

    /// Whether properties of type `ty` can feed the field.
    pub fn accepts(self, ty: &str) -> (b: bool)
        ensures
            b == self.types().contains(ty@),
    {
        let r = match self {
            MappingField::Title => str_eq(ty, "title"),
            MappingField::Status => str_eq(ty, "status") || str_eq(ty, "select"),
            MappingField::DueDate | MappingField::LastSynced => str_eq(ty, "date"),
            MappingField::Priority => str_eq(ty, "select"),
            MappingField::PomodoroCount | MappingField::TrackedMinutes => str_eq(ty, "number"),
        };
        proof {
            let ts = self.types();
            if ts.contains(ty@) {
                let k = choose|k: int| 0 <= k < ts.len() && ts[k] == ty@;
            }
            if r {
                if ts.len() == 2 && ty@ == ts[1] {
                    assert(ts[1] == ty@);
                } else {
                    assert(ts[0] == ty@);
                }
            }
        }
        r
    }

    /// The property the field is mapped to now.
    pub open spec fn current(self, m: PropertyMappings) -> Seq<char> {
        match self {
            MappingField::Title => m.title@,
            MappingField::Status => m.status@,
            MappingField::DueDate => m.due_date@,
            MappingField::Priority => m.priority@,
            MappingField::PomodoroCount => m.pomodoro_count@,
            MappingField::TrackedMinutes => m.tracked_minutes@,
            MappingField::LastSynced => m.last_synced@,
        }
    }

    pub fn current_of(self, m: &PropertyMappings) -> (s: &str)
        ensures
            s@ == self.current(*m),
    {
        match self {
            MappingField::Title => m.title.as_str(),
            MappingField::Status => m.status.as_str(),
            MappingField::DueDate => m.due_date.as_str(),
            MappingField::Priority => m.priority.as_str(),
            MappingField::PomodoroCount => m.pomodoro_count.as_str(),
            MappingField::TrackedMinutes => m.tracked_minutes.as_str(),
            MappingField::LastSynced => m.last_synced.as_str(),
        }
    }
}

/// The entry that leaves an optional field unmapped.
pub const UNMAPPED: &'static str = "(none)";

/// The names of the properties (name, type) whose type the field accepts,
/// in the order given.
pub open spec fn names_of_type(props: Seq<(Seq<char>, Seq<char>)>, field: MappingField) -> Seq<
    Seq<char>,
>
    decreases props.len(),
{
    if props.len() == 0 {
        Seq::empty()
    } else {
        names_of_type(props.drop_last(), field) + if field.types().contains(props.last().1) {
            seq![props.last().0]
        } else {
            Seq::empty()
        }
    }
}

pub open spec fn props_model(props: Seq<(String, String)>) -> Seq<(Seq<char>, Seq<char>)> {
    Seq::new(props.len(), |i: int| (props[i].0@, props[i].1@))
}

/// The properties a mapping row offers.
pub fn properties_for(props: &Vec<(String, String)>, field: MappingField) -> (names: Vec<String>)
    ensures
        views(names@) == names_of_type(props_model(props@), field),
{
    let ghost pm = props_model(props@);
    let mut names: Vec<String> = Vec::new();
    let mut i: usize = 0;
    while i < props.len()
        invariant
            i <= props@.len(),
            pm == props_model(props@),
            views(names@) == names_of_type(pm.take(i as int), field),
        decreases props@.len() - i,
    {
        assert(pm.take(i + 1).drop_last() =~= pm.take(i as int));
        assert(pm.take(i + 1).last() == (props@[i as int].0@, props@[i as int].1@));
        let ghost before = views(names@);
        if field.accepts(props[i].1.as_str()) {
            names.push(props[i].0.clone());
            assert(views(names@) =~= before + seq![props@[i as int].0@]);
        } else {
            assert(views(names@) =~= before + Seq::<Seq<char>>::empty());
        }
        i = i + 1;
    }
    assert(pm.take(props@.len() as int) =~= pm);
    names
}

/// A row's entries: "(none)" first for an optional field, then the names.
pub fn row_items(names: &Vec<String>, field: MappingField) -> (items: Vec<String>)
    ensures
        views(items@) == (if field.optional() {
            seq![UNMAPPED@]
        } else {
            Seq::empty()
        }) + views(names@),
{
    let mut items: Vec<String> = Vec::new();
    if field.is_optional() {
        items.push(owned(UNMAPPED));
    }
    let ghost head = views(items@);
    let mut i: usize = 0;
    while i < names.len()
        invariant
            i <= names@.len(),
            views(items@) =~= head + views(names@).take(i as int),
        decreases names@.len() - i,
    {
        let ghost before = views(items@);
        items.push(names[i].clone());
        assert(views(items@) =~= before.push(names@[i as int]@));
        assert(views(names@).take(i + 1) =~= views(names@).take(i as int).push(names@[i as int]@));
        i = i + 1;
    }
    assert(views(names@).take(names@.len() as int) =~= views(names@));
    items
}

/// The entry to preselect: where the current mapping's property sits (after
/// "(none)" for an optional field), if it is offered.
pub fn preselect(names: &Vec<String>, current: &str, field: MappingField) -> (pos: Option<usize>)
    ensures
        match pos {
            Some(p) => {
                let k = if field.optional() {
                    p - 1
                } else {
                    p as int
                };
                0 <= k < names@.len() && names@[k]@ == current@ && forall|j: int|
                    0 <= j < k ==> names@[j]@ != current@
            },
            None => !views(names@).contains(current@),
        },
{
    let mut i: usize = 0;
    while i < names.len()
        invariant
            i <= names@.len(),
            forall|j: int| 0 <= j < i ==> names@[j]@ != current@,
        decreases names@.len() - i,
    {
        if str_eq(names[i].as_str(), current) {
            return if field.is_optional() {
                Some(i + 1)
            } else {
                Some(i)
            };
        }
        i = i + 1;
    }
    assert(!views(names@).contains(current@)) by {
        if views(names@).contains(current@) {
            let k = choose|k: int| 0 <= k < views(names@).len() && views(names@)[k] == current@;
            assert(names@[k]@ == current@);
        }
    }
    None
}

/// The property a row names for entry `idx`: nothing when no properties
/// were loaded, for "(none)", or past the end.
pub fn selected_name(names: &Vec<String>, field: MappingField, idx: usize) -> (s: String)
    ensures
        ({
            let offset: int = if field.optional() {
                1
            } else {
                0
            };
            if names@.len() > 0 && offset <= idx < names@.len() + offset {
                s@ == names@[idx - offset]@
            } else {
                s@ == Seq::<char>::empty()
            }
        }),
{
    let offset: usize = if field.is_optional() {
        1
    } else {
        0
    };
    if names.len() == 0 || idx < offset || idx - offset >= names.len() {
        String::new()
    } else {
        names[idx - offset].clone()
    }
}

/// The property chosen in each mapping row.
pub struct MappingSelections {
    pub title: String,
    pub status: String,
    pub due_date: String,
    pub priority: String,
    pub pomodoro_count: String,
    pub tracked_minutes: String,
    pub last_synced: String,
}

/// The type of the first property named `name`, else "status".
pub open spec fn type_of(props: Seq<(Seq<char>, Seq<char>)>, name: Seq<char>) -> Seq<char>
    decreases props.len(),
{
    if props.len() == 0 {
        "status"@
    } else if props[0].0 == name {
        props[0].1
    } else {
        type_of(props.drop_first(), name)
    }
}

/// Overwrite the mappings with the rows' choices, but only when properties
/// were loaded this session (otherwise the configured ones stay); the
/// status type is that of the chosen status property.
pub fn apply_mappings(m: &mut PropertyMappings, discovered: &Vec<(String, String)>, sel: MappingSelections)
    ensures
        discovered@.len() == 0 ==> *final(m) == *old(m),
        discovered@.len() > 0 ==> {
            &&& final(m).title@ == sel.title@
            &&& final(m).status@ == sel.status@
            &&& final(m).due_date@ == sel.due_date@
            &&& final(m).priority@ == sel.priority@
            &&& final(m).pomodoro_count@ == sel.pomodoro_count@
            &&& final(m).tracked_minutes@ == sel.tracked_minutes@
            &&& final(m).last_synced@ == sel.last_synced@
            &&& final(m).status_type@ == type_of(props_model(discovered@), sel.status@)
        },
{
    if discovered.len() == 0 {
        return;
    }
    let ghost pm = props_model(discovered@);
    let mut ty: Option<String> = None;
    let mut i: usize = 0;
    assert(pm.skip(0) =~= pm);
    while i < discovered.len()
        invariant
            i <= discovered@.len(),
            pm == props_model(discovered@),
            ty is None ==> type_of(pm, sel.status@) == type_of(pm.skip(i as int), sel.status@),
            ty matches Some(t) ==> t@ == type_of(pm, sel.status@),
        decreases discovered@.len() - i,
    {
        if ty.is_none() {
            assert(pm.skip(i as int).drop_first() =~= pm.skip(i + 1));
            assert(pm.skip(i as int)[0] == pm[i as int]);
            if str_eq(discovered[i].0.as_str(), sel.status.as_str()) {
                ty = Some(discovered[i].1.clone());
            }
        }
        i = i + 1;
    }
    m.status_type = match ty {
        Some(t) => t,
        None => {
            assert(pm.skip(discovered@.len() as int) =~= Seq::empty());
            owned("status")
        },
    };
    m.title = sel.title;
    m.status = sel.status;
    m.due_date = sel.due_date;
    m.priority = sel.priority;
    m.pomodoro_count = sel.pomodoro_count;
    m.tracked_minutes = sel.tracked_minutes;
    m.last_synced = sel.last_synced;
}

/// What a validation attempt sends: the typed token (else the stored one)
/// and the trimmed database id; or the message shown when either is empty.
pub fn validation_request(typed_token: &str, stored_token: &Option<String>, database_id: &str) -> (r:
    Result<(String, String), String>)
    ensures
        ({
            let token = if typed_token@.len() > 0 {
                typed_token@
            } else {
                match stored_token {
                    Some(t) => t@,
                    None => Seq::empty(),
                }
            };
            let db = trimmed(database_id@);
            if token.len() == 0 || db.len() == 0 {
                r matches Err(e) && e@ == "Enter a token and database ID first"@
            } else {
                r matches Ok(p) && p.0@ == token && p.1@ == db
            }
        }),
{
    let token = if !typed_token.is_empty() {
        owned(typed_token)
    } else {
        match stored_token {
            Some(t) => t.clone(),
            None => String::new(),
        }
    };
    let db = owned(trim(database_id));
    if token.as_str().is_empty() || db.as_str().is_empty() {
        Err(owned("Enter a token and database ID first"))
    } else {
        Ok((token, db))
    }
}

} // verus!
