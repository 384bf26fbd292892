//! A JSON document tree, as the Notion mapping reads and builds it.
//!
//! Numbers are held as their integer part (truncated toward zero and
//! saturated to the `i64` range): the mapping only reads counts from them.
use vstd::prelude::*;

verus! {

#[derive(Debug)]
pub enum Json {
    Null,
    Bool(bool),
    Number(i64),
    Str(String),
    Array(Vec<Json>),
    Object(Vec<(String, Json)>),
}

/// A JSON value as mathematical values.
pub enum JsonModel {
    Null,
    Bool(bool),
    Number(int),
    Str(Seq<char>),
    Array(Seq<JsonModel>),
    Object(Seq<(Seq<char>, JsonModel)>),
}

impl Json {
    pub open spec fn model(self) -> JsonModel
        decreases self,
    {
        match self {
            Json::Null => JsonModel::Null,
            Json::Bool(b) => JsonModel::Bool(b),
            Json::Number(n) => JsonModel::Number(n as int),
            Json::Str(s) => JsonModel::Str(s@),
            Json::Array(items) => JsonModel::Array(
                Seq::new(
                    items@.len(),
                    |i: int|
                        if 0 <= i < items@.len() {
                            items@[i].model()
                        } else {
                            JsonModel::Null
                        },
                ),
            ),
            Json::Object(entries) => JsonModel::Object(
                Seq::new(
                    entries@.len(),
                    |i: int|
                        if 0 <= i < entries@.len() {
                            (entries@[i].0@, entries@[i].1.model())
                        } else {
                            (Seq::empty(), JsonModel::Null)
                        },
                ),
            ),
        }
    }
}

/// The value of the first entry named `key` at or after position `i`.
pub open spec fn field_from(entries: Seq<(Seq<char>, JsonModel)>, key: Seq<char>, i: int) -> Option<
    JsonModel,
>
    decreases entries.len() - i,
{
    if i < 0 || i >= entries.len() {
        None
    } else if entries[i].0 == key {
        Some(entries[i].1)
    } else {
        field_from(entries, key, i + 1)
    }
}

/// No entry at or after `i` is named `key`: there is no such member.
pub proof fn lemma_field_absent(entries: Seq<(Seq<char>, JsonModel)>, key: Seq<char>, i: int)
    requires
        0 <= i,
        forall|j: int| i <= j < entries.len() ==> #[trigger] entries[j].0 != key,
    ensures
        field_from(entries, key, i) is None,
    decreases entries.len() - i,
{
    if i < entries.len() {
        lemma_field_absent(entries, key, i + 1);
    }
}

impl JsonModel {
    /// The member named `key` of an object (`Value::get` with a `&str`).
    pub open spec fn get(self, key: Seq<char>) -> Option<JsonModel> {
        match self {
            JsonModel::Object(entries) => field_from(entries, key, 0),
            _ => None,
        }
    }

    pub open spec fn as_str(self) -> Option<Seq<char>> {
        match self {
            JsonModel::Str(s) => Some(s),
            _ => None,
        }
    }

    pub open spec fn as_bool(self) -> Option<bool> {
        match self {
            JsonModel::Bool(b) => Some(b),
            _ => None,
        }
    }

    pub open spec fn as_array(self) -> Option<Seq<JsonModel>> {
        match self {
            JsonModel::Array(items) => Some(items),
            _ => None,
        }
    }

    pub open spec fn as_number(self) -> Option<int> {
        match self {
            JsonModel::Number(n) => Some(n),
            _ => None,
        }
    }
}

/// Position of the first entry named `key` at or after `i` (or the length
/// when there is none).
pub open spec fn key_pos_from(entries: Seq<(Seq<char>, JsonModel)>, key: Seq<char>, i: int) -> int
    decreases entries.len() - i,
{
    if i < 0 || i >= entries.len() {
        entries.len() as int
    } else if entries[i].0 == key {
        i
    } else {
        key_pos_from(entries, key, i + 1)
    }
}

/// `entries` with `key` set to `v`: an existing entry's value is replaced in
/// place, otherwise the entry is added at the end (`Map::insert`).
pub open spec fn entries_insert(entries: Seq<(Seq<char>, JsonModel)>, key: Seq<char>, v: JsonModel) -> Seq<
    (Seq<char>, JsonModel),
> {
    let p = key_pos_from(entries, key, 0);
    if p < entries.len() {
        entries.update(p, (key, v))
    } else {
        entries.push((key, v))
    }
}

/// The member names of an object (none for other values).
pub open spec fn object_keys(v: JsonModel) -> Set<Seq<char>> {
    match v {
        JsonModel::Object(es) => Set::new(|k: Seq<char>| exists|j: int| 0 <= j < es.len() && #[trigger] es[j].0 == k),
        _ => Set::empty(),
    }
}

/// `key_pos_from` finds the first entry named `key` at or after `i`.
pub(crate) proof fn lemma_key_pos(entries: Seq<(Seq<char>, JsonModel)>, key: Seq<char>, i: int)
    requires
        0 <= i,
    ensures
        i <= key_pos_from(entries, key, i) <= entries.len() || i > entries.len(),
        key_pos_from(entries, key, i) < entries.len() ==> entries[key_pos_from(entries, key, i)].0
            == key,
        forall|j: int| i <= j < key_pos_from(entries, key, i) ==> #[trigger] entries[j].0 != key,
        field_from(entries, key, i) == (if key_pos_from(entries, key, i) < entries.len() {
            Some(entries[key_pos_from(entries, key, i)].1)
        } else {
            None::<JsonModel>
        }),
    decreases entries.len() - i,
{
    if i < entries.len() && entries[i].0 != key {
        lemma_key_pos(entries, key, i + 1);
    }
}

/// Looking a member up after `entries_insert`: the inserted key gives the
/// new value; every other key gives what it gave before.
pub(crate) proof fn lemma_insert_get(
    entries: Seq<(Seq<char>, JsonModel)>,
    key: Seq<char>,
    v: JsonModel,
    other: Seq<char>,
)
    ensures
        field_from(entries_insert(entries, key, v), key, 0) == Some(v),
        other != key ==> field_from(entries_insert(entries, key, v), other, 0) == field_from(
            entries,
            other,
            0,
        ),
        object_keys(JsonModel::Object(entries_insert(entries, key, v))) == object_keys(
            JsonModel::Object(entries),
        ).insert(key),
{
    let e2 = entries_insert(entries, key, v);
    lemma_key_pos(entries, key, 0);
    lemma_key_pos(entries, other, 0);
    lemma_key_pos(e2, key, 0);
    lemma_key_pos(e2, other, 0);
    let p = key_pos_from(entries, key, 0);
    if p < entries.len() {
        assert(forall|j: int| 0 <= j < entries.len() ==> #[trigger] e2[j].0 == entries[j].0);
        let q = key_pos_from(e2, key, 0);
        if q < p {
            assert(e2[q].0 == entries[q].0);
        }
        if q > p {
            assert(e2[p].0 == key);
        }
        let q2 = key_pos_from(e2, other, 0);
        let p2 = key_pos_from(entries, other, 0);
        if q2 < p2 {
            assert(e2[q2].0 == entries[q2].0);
        }
        if p2 < q2 {
            assert(e2[p2].0 == entries[p2].0);
        }
    } else {
        let q = key_pos_from(e2, key, 0);
        if q < entries.len() {
            assert(e2[q].0 == entries[q].0);
        }
        if q > entries.len() {
            assert(e2[entries.len() as int].0 == key);
        }
        let q2 = key_pos_from(e2, other, 0);
        let p2 = key_pos_from(entries, other, 0);
        if q2 < p2 {
            assert(e2[q2].0 == entries[q2].0);
        }
        if p2 < q2 && p2 < entries.len() {
            assert(e2[p2].0 == entries[p2].0);
        }
    }
    let ks = object_keys(JsonModel::Object(e2));
    let old_ks = object_keys(JsonModel::Object(entries)).insert(key);
    assert forall|k: Seq<char>| ks.contains(k) <==> old_ks.contains(k) by {
        if ks.contains(k) {
            let j = choose|j: int| 0 <= j < e2.len() && #[trigger] e2[j].0 == k;
            if k != key {
                assert(j < entries.len() && entries[j].0 == k);
            }
        }
        if old_ks.contains(k) {
            if k == key {
                if p < entries.len() {
                    assert(e2[p].0 == key);
                } else {
                    assert(e2[entries.len() as int].0 == key);
                }
            } else {
                let j = choose|j: int| 0 <= j < entries.len() && #[trigger] entries[j].0 == k;
                assert(e2[j].0 == k);
            }
        }
    }
    assert(ks =~= old_ks);
}

/// The models of a list of values.
pub open spec fn json_models(items: Seq<Json>) -> Seq<JsonModel> {
    Seq::new(items.len(), |i: int| items[i].model())
}

/// The models of a list of object members.
pub open spec fn entry_models(es: Seq<(String, Json)>) -> Seq<(Seq<char>, JsonModel)> {
    Seq::new(es.len(), |i: int| (es[i].0@, es[i].1.model()))
}

/// Append member `key: v` to a list of object members.
pub fn push_entry(es: &mut Vec<(String, Json)>, key: &str, v: Json)
    ensures
        entry_models(final(es)@) == entry_models(old(es)@).push((key@, v.model())),
{
    let ghost vm = v.model();
    es.push((crate::text::owned(key), v));
    assert(entry_models(es@) =~= entry_models(old(es)@).push((key@, vm)));
}

impl Json {
    /// The member named `key` of an object.
    pub fn get(&self, key: &str) -> (r: Option<&Json>)
        ensures
            match r {
                Some(v) => self.model().get(key@) == Some(v.model()),
                None => self.model().get(key@) is None,
            },
    {
        match self {
            Json::Object(entries) => {
                let mut i: usize = 0;
                while i < entries.len()
                    invariant
                        i <= entries@.len(),
                        self.model() matches JsonModel::Object(es) && es.len() == entries@.len()
                            && field_from(es, key@, 0) == field_from(es, key@, i as int)
                            && forall|k: int|
                            0 <= k < es.len() ==> #[trigger] es[k] == (
                                entries@[k].0@,
                                entries@[k].1.model(),
                            ),
                    decreases entries@.len() - i,
                {
                    if crate::text::str_eq(entries[i].0.as_str(), key) {
                        return Some(&entries[i].1);
                    }
                    i = i + 1;
                }
                None
            },
            _ => None,
        }
    }

    pub fn as_str(&self) -> (r: Option<&str>)
        ensures
            match r {
                Some(s) => self.model().as_str() == Some(s@),
                None => self.model().as_str() is None,
            },
    {
        match self {
            Json::Str(s) => Some(s.as_str()),
            _ => None,
        }
    }

    pub fn as_bool(&self) -> (r: Option<bool>)
        ensures
            r == self.model().as_bool(),
    {
        match self {
            Json::Bool(b) => Some(*b),
            _ => None,
        }
    }

    pub fn as_number(&self) -> (r: Option<i64>)
        ensures
            match r {
                Some(n) => self.model().as_number() == Some(n as int),
                None => self.model().as_number() is None,
            },
    {
        match self {
            Json::Number(n) => Some(*n),
            _ => None,
        }
    }

    pub fn as_array(&self) -> (r: Option<&Vec<Json>>)
        ensures
            match r {
                Some(items) => self.model().as_array() matches Some(ms) && ms.len() == items@.len()
                    && forall|k: int| 0 <= k < ms.len() ==> #[trigger] ms[k] == items@[k].model(),
                None => self.model().as_array() is None,
            },
    {
        match self {
            Json::Array(items) => Some(items),
            _ => None,
        }
    }

    pub fn as_object(&self) -> (r: Option<&Vec<(String, Json)>>)
        ensures
            match r {
                Some(es) => self.model() matches JsonModel::Object(ms) && ms.len() == es@.len()
                    && forall|k: int|
                    0 <= k < ms.len() ==> #[trigger] ms[k] == (es@[k].0@, es@[k].1.model()),
                None => !(self.model() is Object),
            },
    {
        match self {
            Json::Object(es) => Some(es),
            _ => None,
        }
    }

    /// An array of `items`.
    pub fn from_items(items: Vec<Json>) -> (j: Json)
        ensures
            j.model() == JsonModel::Array(json_models(items@)),
    {
        let j = Json::Array(items);
        assert(j.model()->Array_0 =~= json_models(items@));
        j
    }

    /// An object with members `es`, in order.
    pub fn from_entries(es: Vec<(String, Json)>) -> (j: Json)
        ensures
            j.model() == JsonModel::Object(entry_models(es@)),
    {
        let j = Json::Object(es);
        assert(j.model()->Object_0 =~= entry_models(es@));
        j
    }

    /// A string value.
    pub fn string(s: &str) -> (j: Json)
        ensures
            j.model() == JsonModel::Str(s@),
    {
        Json::Str(crate::text::owned(s))
    }

    /// An object with no members.
    pub fn empty_object() -> (j: Json)
        ensures
            j.model() == JsonModel::Object(Seq::empty()),
    {
        let j = Json::Object(Vec::new());
        assert(j.model() matches JsonModel::Object(es) && es =~= Seq::empty());
        j
    }

    /// An object with one member.
    pub fn object1(key: &str, v: Json) -> (j: Json)
        ensures
            j.model() == JsonModel::Object(seq![(key@, v.model())]),
    {
        let ghost vm = v.model();
        let mut entries = Vec::new();
        entries.push((crate::text::owned(key), v));
        let j = Json::Object(entries);
        assert(j.model() matches JsonModel::Object(es) && es =~= seq![(key@, vm)]);
        j
    }

    /// An array with one item.
    pub fn array1(v: Json) -> (j: Json)
        ensures
            j.model() == JsonModel::Array(seq![v.model()]),
    {
        let ghost vm = v.model();
        let mut items = Vec::new();
        items.push(v);
        let j = Json::Array(items);
        assert(j.model() matches JsonModel::Array(ms) && ms =~= seq![vm]);
        j
    }

    /// Set member `key` of an object to `v` (see `entries_insert`); a value
    /// that is not an object is returned unchanged.
    pub fn insert(self, key: String, v: Json) -> (j: Json)
        ensures
            match self.model() {
                JsonModel::Object(es) => j.model() == JsonModel::Object(
                    entries_insert(es, key@, v.model()),
                ),
                _ => j.model() == self.model(),
            },
    {
        let ghost vm = v.model();
        let ghost m0 = self.model();
        match self {
            Json::Object(entries) => {
                let mut entries = entries;
                let ghost es = m0->Object_0;
                assert(m0 == JsonModel::Object(es));
                let mut i: usize = 0;
                while i < entries.len()
                    invariant
                        i <= entries@.len(),
                        es.len() == entries@.len(),
                        forall|k: int|
                            0 <= k < es.len() ==> #[trigger] es[k] == (
                                entries@[k].0@,
                                entries@[k].1.model(),
                            ),
                        key_pos_from(es, key@, 0) == key_pos_from(es, key@, i as int),
                        vm == v.model(),
                        m0 == (JsonModel::Object(es)),
                        m0 == self.model(),
                    decreases entries@.len() - i,
                {
                    if crate::text::str_eq(entries[i].0.as_str(), key.as_str()) {
                        assert(es[i as int].0 == key@);
                        assert(key_pos_from(es, key@, i as int) == i);
                        let ghost before = entries@;
                        let ghost kv = key@;
                        entries.set(i, (key, v));
                        let j = Json::Object(entries);
                        let ghost jm = j.model()->Object_0;
                        let ghost want = entries_insert(es, kv, vm);
                        assert(want == es.update(i as int, (kv, vm)));
                        assert(jm.len() == want.len());
                        assert forall|k: int| 0 <= k < jm.len() implies jm[k] == want[k] by {
                            assert(jm[k] == (entries@[k].0@, entries@[k].1.model()));
                            if k == i {
                                assert(entries@[k].0@ == kv);
                                assert(entries@[k].1.model() == vm);
                            } else {
                                assert(entries@[k] == before[k]);
                                assert(es[k] == (before[k].0@, before[k].1.model()));
                            }
                        }
                        assert(jm =~= want);
                        assert(j.model() == JsonModel::Object(want));
                        return j;
                    }
                    i = i + 1;
                }
                entries.push((key, v));
                let j = Json::Object(entries);
                assert(j.model()->Object_0 =~= entries_insert(es, key@, vm));
                j
            },
            other => other,
        }
    }
}

} // verus!
