//! A JSON document as the adapters read it: objects keep their keys in
//! insertion order and never hold a key twice, and two documents are equal
//! when they hold the same values, whatever the order of an object's keys.
//!
//! Numbers are kept as the text they were written with, so that a payload
//! passes through the adapters unchanged.
//!
//! The library holds its own object type rather than `serde_json::Map`: the
//! methods of that map exist only for `Map<String, serde_json::Value>`, a
//! value whose contents Verus cannot read and whose numbers may be floats,
//! so it cannot hold the documents that the adapters reason about. The
//! entries of a `JsonMap` stand in the order they were inserted in, where
//! `serde_json`'s default map keeps them sorted by key; only `entries`
//! shows that order, and equality ignores it, as `serde_json`'s does.

use vstd::prelude::*;

use crate::text::str_eq;

verus! {

/// The mathematical value of a JSON document.
pub enum JsonModel {
    Null,
    Bool(bool),
    Number(Seq<char>),
    Str(Seq<char>),
    Array(Seq<JsonModel>),
    Object(Seq<(Seq<char>, JsonModel)>),
}

/// A JSON document.
#[derive(Debug)]
pub enum JsonValue {
    Null,
    Bool(bool),
    /// A number, as the text that wrote it.
    Number(String),
    Str(String),
    Array(Vec<JsonValue>),
    Object(JsonMap),
}

/// A JSON object: its entries in insertion order, each key at most once.
#[derive(Debug)]
pub struct JsonMap {
    entries: Vec<(String, JsonValue)>,
}

impl JsonValue {
    /// The mathematical value of this document.
    pub closed spec fn model(self) -> JsonModel
        decreases self,
    {
        match self {
            JsonValue::Null => JsonModel::Null,
            JsonValue::Bool(b) => JsonModel::Bool(b),
            JsonValue::Number(n) => JsonModel::Number(n@),
            JsonValue::Str(s) => JsonModel::Str(s@),
            JsonValue::Array(items) => JsonModel::Array(items_model(items@)),
            JsonValue::Object(m) => JsonModel::Object(entries_model(m.entries@)),
        }
    }
}

/// The values of a sequence of documents.
pub closed spec fn items_model(items: Seq<JsonValue>) -> Seq<JsonModel>
    decreases items,
{
    if items.len() == 0 {
        Seq::empty()
    } else {
        items_model(items.drop_last()).push(items.last().model())
    }
}

/// The values of a sequence of object entries.
pub closed spec fn entries_model(entries: Seq<(String, JsonValue)>) -> Seq<(Seq<char>, JsonModel)>
    decreases entries,
{
    if entries.len() == 0 {
        Seq::empty()
    } else {
        entries_model(entries.drop_last()).push((entries.last().0@, entries.last().1.model()))
    }
}

impl View for JsonValue {
    type V = JsonModel;

    closed spec fn view(&self) -> JsonModel {
        self.model()
    }
}

impl View for JsonMap {
    type V = Seq<(Seq<char>, JsonModel)>;

    closed spec fn view(&self) -> Seq<(Seq<char>, JsonModel)> {
        entries_model(self.entries@)
    }
}

proof fn lemma_items_model(items: Seq<JsonValue>)
    ensures
        items_model(items).len() == items.len(),
        forall|i: int| 0 <= i < items.len() ==> #[trigger] items_model(items)[i] == items[i].model(),
    decreases items.len(),
{
    if items.len() > 0 {
        lemma_items_model(items.drop_last());
    }
}

proof fn lemma_entries_model(entries: Seq<(String, JsonValue)>)
    ensures
        entries_model(entries).len() == entries.len(),
        forall|i: int|
            0 <= i < entries.len() ==> #[trigger] entries_model(entries)[i] == (
                entries[i].0@,
                entries[i].1.model(),
            ),
    decreases entries.len(),
{
    if entries.len() > 0 {
        lemma_entries_model(entries.drop_last());
    }
}

/// Whether two documents hold the same values; an object's keys may stand
/// in any order.
pub open spec fn same_json(a: JsonModel, b: JsonModel) -> bool
    decreases a,
{
    match a {
        JsonModel::Null => b is Null,
        JsonModel::Bool(x) => b == JsonModel::Bool(x),
        JsonModel::Number(x) => b == JsonModel::Number(x),
        JsonModel::Str(x) => b == JsonModel::Str(x),
        JsonModel::Array(xs) => match b {
            JsonModel::Array(ys) => xs.len() == ys.len() && same_items(xs, ys),
            _ => false,
        },
        JsonModel::Object(es) => match b {
            JsonModel::Object(fs) => es.len() == fs.len() && same_entries(es, fs),
            _ => false,
        },
    }
}

/// Whether each item of `xs` is the same document as the item of `ys` at
/// its position.
pub open spec fn same_items(xs: Seq<JsonModel>, ys: Seq<JsonModel>) -> bool
    decreases xs,
{
    if xs.len() == 0 {
        true
    } else {
        same_items(xs.drop_last(), ys) && same_json(xs.last(), ys[xs.len() - 1])
    }
}

/// Whether each entry of `es` has its key in `fs`, with the same document
/// under it.
pub open spec fn same_entries(es: Seq<(Seq<char>, JsonModel)>, fs: Seq<(Seq<char>, JsonModel)>) -> bool
    decreases es,
{
    if es.len() == 0 {
        true
    } else {
        same_entries(es.drop_last(), fs) && match lookup(fs, es.last().0) {
            Some(v) => same_json(es.last().1, v),
            None => false,
        }
    }
}

proof fn lemma_same_items(xs: Seq<JsonModel>, ys: Seq<JsonModel>)
    ensures
        same_items(xs, ys) <==> forall|i: int| 0 <= i < xs.len() ==> #[trigger] same_json(xs[i], ys[i]),
    decreases xs.len(),
{
    if xs.len() > 0 {
        let init = xs.drop_last();
        let k = xs.len() - 1;
        lemma_same_items(init, ys);
        if same_items(xs, ys) {
            assert forall|i: int| 0 <= i < xs.len() implies #[trigger] same_json(xs[i], ys[i]) by {
                if i < k {
                    assert(init[i] == xs[i]);
                    assert(same_json(init[i], ys[i]));
                }
            }
        }
        if forall|i: int| 0 <= i < xs.len() ==> #[trigger] same_json(xs[i], ys[i]) {
            assert forall|i: int| 0 <= i < init.len() implies #[trigger] same_json(init[i], ys[i]) by {
                assert(init[i] == xs[i]);
                assert(same_json(xs[i], ys[i]));
            }
            assert(same_json(xs[k], ys[k]));
        }
    }
}

proof fn lemma_same_entries(es: Seq<(Seq<char>, JsonModel)>, fs: Seq<(Seq<char>, JsonModel)>)
    ensures
        same_entries(es, fs) <==> forall|i: int|
            0 <= i < es.len() ==> (#[trigger] lookup(fs, es[i].0) matches Some(v) && same_json(
                es[i].1,
                v,
            )),
    decreases es.len(),
{
    if es.len() > 0 {
        let init = es.drop_last();
        let k = es.len() - 1;
        lemma_same_entries(init, fs);
        if same_entries(es, fs) {
            assert forall|i: int| 0 <= i < es.len() implies (#[trigger] lookup(fs, es[i].0) matches Some(
                v,
            ) && same_json(es[i].1, v)) by {
                if i < k {
                    assert(init[i] == es[i]);
                    assert(lookup(fs, init[i].0) matches Some(v) && same_json(init[i].1, v));
                }
            }
        }
        if forall|i: int|
            0 <= i < es.len() ==> (#[trigger] lookup(fs, es[i].0) matches Some(v) && same_json(
                es[i].1,
                v,
            )) {
            assert forall|i: int| 0 <= i < init.len() implies (#[trigger] lookup(fs, init[i].0) matches Some(
                v,
            ) && same_json(init[i].1, v)) by {
                assert(init[i] == es[i]);
                assert(lookup(fs, es[i].0) matches Some(v) && same_json(es[i].1, v));
            }
            assert(lookup(fs, es[k].0) matches Some(v) && same_json(es[k].1, v));
        }
    }
}

/// How the value of a document follows its variant.
pub proof fn lemma_view_shape(v: JsonValue)
    ensures
        v is Null ==> v@ == JsonModel::Null,
        v matches JsonValue::Bool(b) ==> v@ == JsonModel::Bool(b),
        v matches JsonValue::Number(n) ==> v@ == JsonModel::Number(n@),
        v matches JsonValue::Str(s) ==> v@ == JsonModel::Str(s@),
        v matches JsonValue::Array(items) ==> v@ is Array,
        v matches JsonValue::Object(m) ==> v@ == JsonModel::Object(m@),
        v@ is Object ==> v is Object,
{
}

/// The position of the first entry whose key is `key`, or -1 where there is none.
pub open spec fn key_position(entries: Seq<(Seq<char>, JsonModel)>, key: Seq<char>) -> int
    decreases entries.len(),
{
    if entries.len() == 0 {
        -1
    } else if entries[0].0 == key {
        0
    } else {
        let p = key_position(entries.drop_first(), key);
        if p < 0 {
            -1
        } else {
            p + 1
        }
    }
}

/// The value that an object holds under `key`.
pub open spec fn lookup(entries: Seq<(Seq<char>, JsonModel)>, key: Seq<char>) -> Option<JsonModel> {
    let p = key_position(entries, key);
    if p < 0 {
        None
    } else {
        Some(entries[p].1)
    }
}

/// An object after `key` is set to `value`: an entry with that key is
/// replaced where it stands, else the entry goes at the end.
pub open spec fn insert_entry(
    entries: Seq<(Seq<char>, JsonModel)>,
    key: Seq<char>,
    value: JsonModel,
) -> Seq<(Seq<char>, JsonModel)> {
    let p = key_position(entries, key);
    if p < 0 {
        entries.push((key, value))
    } else {
        entries.update(p, (key, value))
    }
}

/// No key occurs twice.
pub open spec fn keys_distinct(entries: Seq<(Seq<char>, JsonModel)>) -> bool {
    forall|i: int, j: int| 0 <= i < j < entries.len() ==> entries[i].0 != entries[j].0
}

/// The value that a document holds under `key`, where it is an object.
pub open spec fn field(value: JsonModel, key: Seq<char>) -> Option<JsonModel> {
    match value {
        JsonModel::Object(entries) => lookup(entries, key),
        _ => None,
    }
}

/// The text of a document that is a string.
pub open spec fn text_of(value: Option<JsonModel>) -> Option<Seq<char>> {
    match value {
        Some(JsonModel::Str(s)) => Some(s),
        _ => None,
    }
}

/// What `key` maps to in an object and what stands there.
pub proof fn lemma_key_position(entries: Seq<(Seq<char>, JsonModel)>, key: Seq<char>)
    ensures
        -1 <= key_position(entries, key) < entries.len(),
        key_position(entries, key) >= 0 ==> entries[key_position(entries, key)].0 == key,
        forall|j: int|
            0 <= j < entries.len() && (key_position(entries, key) < 0 || j < key_position(
                entries,
                key,
            )) ==> #[trigger] entries[j].0 != key,
    decreases entries.len(),
{
    if entries.len() > 0 && entries[0].0 != key {
        let rest = entries.drop_first();
        lemma_key_position(rest, key);
        assert forall|j: int|
            0 <= j < entries.len() && (key_position(entries, key) < 0 || j < key_position(
                entries,
                key,
            )) implies #[trigger] entries[j].0 != key by {
            if j > 0 {
                assert(entries[j] == rest[j - 1]);
            }
        }
    }
}

/// The first entry with a key is where `key_position` points.
proof fn lemma_key_position_at(entries: Seq<(Seq<char>, JsonModel)>, key: Seq<char>, i: int)
    requires
        0 <= i < entries.len(),
        entries[i].0 == key,
        forall|j: int| 0 <= j < i ==> #[trigger] entries[j].0 != key,
    ensures
        key_position(entries, key) == i,
{
    lemma_key_position(entries, key);
    let p = key_position(entries, key);
    if p < 0 {
        assert(entries[i].0 != key);
    } else if p < i {
        assert(entries[p].0 != key);
    } else if p > i {
        assert(entries[i].0 != key);
    }
}

/// With no entry under `key`, `key_position` is -1.
proof fn lemma_key_position_absent(entries: Seq<(Seq<char>, JsonModel)>, key: Seq<char>)
    requires
        forall|j: int| 0 <= j < entries.len() ==> #[trigger] entries[j].0 != key,
    ensures
        key_position(entries, key) == -1,
{
    lemma_key_position(entries, key);
    let p = key_position(entries, key);
    if p >= 0 {
        assert(entries[p].0 != key);
    }
}

/// Reading an object after a write: the written key gives the written
/// value, and every other key gives what it gave before.
pub proof fn lemma_insert_then_lookup(
    entries: Seq<(Seq<char>, JsonModel)>,
    key: Seq<char>,
    value: JsonModel,
    other: Seq<char>,
)
    ensures
        lookup(insert_entry(entries, key, value), key) == Some(value),
        other != key ==> lookup(insert_entry(entries, key, value), other) == lookup(
            entries,
            other,
        ),
{
    let after = insert_entry(entries, key, value);
    lemma_key_position(entries, key);
    lemma_key_position(entries, other);
    let p = key_position(entries, key);
    assert forall|j: int| 0 <= j < entries.len() && (p < 0 || j < p) implies #[trigger] after[j].0
        != key by {
        assert(after[j] == entries[j]);
    }
    if p < 0 {
        lemma_key_position_at(after, key, entries.len() as int);
    } else {
        lemma_key_position_at(after, key, p);
    }
    if other != key {
        let q = key_position(entries, other);
        assert forall|j: int| 0 <= j < entries.len() && (q < 0 || j < q) implies #[trigger] after[j].0
            != other by {
            if j != p {
                assert(after[j] == entries[j]);
            }
        }
        if q < 0 {
            if p < 0 {
                assert(after[entries.len() as int].0 != other);
            }
            lemma_key_position_absent(after, other);
        } else {
            lemma_key_position_at(after, other, q);
            assert(q != p);
            assert(after[q] == entries[q]);
        }
    }
}

impl JsonMap {
    #[verifier::type_invariant]
    spec fn no_repeated_key(self) -> bool {
        forall|i: int, j: int|
            0 <= i < j < self.entries@.len() ==> self.entries@[i].0@ != self.entries@[j].0@
    }

    /// An empty object.
    pub fn new() -> (m: JsonMap)
        ensures
            m@ == Seq::<(Seq<char>, JsonModel)>::empty(),
    {
        let m = JsonMap { entries: Vec::new() };
        proof {
            lemma_entries_model(m.entries@);
        }
        m
    }

    /// The number of entries.
    pub fn len(&self) -> (n: usize)
        ensures
            n == self@.len(),
    {
        proof {
            lemma_entries_model(self.entries@);
        }
        self.entries.len()
    }

    /// The entries, in order.
    pub fn entries(&self) -> (entries: &Vec<(String, JsonValue)>)
        ensures
            entries_model(entries@) == self@,
            keys_distinct(self@),
    {
        proof {
            use_type_invariant(self);
            lemma_entries_model(self.entries@);
        }
        &self.entries
    }

    /// Where the entry with `key` stands, if there is one.
    fn position(&self, key: &str) -> (p: Option<usize>)
        ensures
            match p {
                Some(i) => key_position(self@, key@) == i,
                None => key_position(self@, key@) == -1,
            },
    {
        proof {
            lemma_entries_model(self.entries@);
        }
        let n = self.entries.len();
        let mut i: usize = 0;
        while i < n
            invariant
                n == self.entries@.len(),
                n == self@.len(),
                i <= n,
                forall|j: int|
                    0 <= j < self@.len() ==> #[trigger] self@[j] == (
                        self.entries@[j].0@,
                        self.entries@[j].1.model(),
                    ),
                forall|j: int| 0 <= j < i ==> #[trigger] self@[j].0 != key@,
            decreases n - i,
        {
            if str_eq(self.entries[i].0.as_str(), key) {
                proof {
                    lemma_key_position_at(self@, key@, i as int);
                }
                return Some(i);
            }
            i = i + 1;
        }
        proof {
            lemma_key_position_absent(self@, key@);
        }
        None
    }

    /// The value held under `key`.
    pub fn get(&self, key: &str) -> (value: Option<&JsonValue>)
        ensures
            match value {
                Some(v) => lookup(self@, key@) == Some(v@),
                None => lookup(self@, key@) is None,
            },
    {
        proof {
            lemma_entries_model(self.entries@);
        }
        let p = self.position(key);
        proof {
            lemma_key_position(self@, key@);
        }
        match p {
            Some(i) => Some(&self.entries[i].1),
            None => None,
        }
    }

    /// Whether the object holds `key`.
    pub fn contains_key(&self, key: &str) -> (found: bool)
        ensures
            found == (lookup(self@, key@) is Some),
    {
        self.position(key).is_some()
    }

    /// Sets `key` to `value`: an entry with that key is replaced where it
    /// stands, else the entry is added at the end.
    pub fn insert(&mut self, key: String, value: JsonValue)
        ensures
            final(self)@ == insert_entry(old(self)@, key@, value@),
    {
        proof {
            use_type_invariant(&*self);
            lemma_entries_model(self.entries@);
            lemma_key_position(self@, key@);
        }
        let ghost old_entries = self.entries@;
        let p = self.position(key.as_str());
        let mut entries: Vec<(String, JsonValue)> = Vec::new();
        std::mem::swap(&mut entries, &mut self.entries);
        match p {
            Some(i) => {
                entries.set(i, (key, value));
                proof {
                    assert(entries@ == old_entries.update(i as int, (key, value)));
                }
            },
            None => {
                entries.push((key, value));
                proof {
                    assert(entries@ == old_entries.push((key, value)));
                }
            },
        }
        proof {
            lemma_entries_model(entries@);
            assert(entries_model(entries@) =~= insert_entry(entries_model(old_entries), key@, value@));
            assert forall|a: int, b: int| 0 <= a < b < entries@.len() implies entries@[a].0@
                != entries@[b].0@ by {
                if b == old_entries.len() {
                    assert(entries_model(old_entries)[a].0 != key@);
                }
            }
        }
        self.entries = entries;
    }
}

impl JsonValue {
    /// The value held under `key`, where this document is an object.
    pub fn get(&self, key: &str) -> (value: Option<&JsonValue>)
        ensures
            match value {
                Some(v) => field(self@, key@) == Some(v@),
                None => field(self@, key@) is None,
            },
    {
        match self {
            JsonValue::Object(m) => m.get(key),
            _ => None,
        }
    }

    /// The text of this document, where it is a string.
    pub fn as_str(&self) -> (text: Option<&str>)
        ensures
            match text {
                Some(s) => self@ == JsonModel::Str(s@),
                None => !(self@ is Str),
            },
    {
        match self {
            JsonValue::Str(s) => Some(s.as_str()),
            _ => None,
        }
    }

    /// A copy of this document.
    pub fn duplicate(&self) -> (copy: JsonValue)
        ensures
            copy@ == self@,
        decreases self,
    {
        match self {
            JsonValue::Null => JsonValue::Null,
            JsonValue::Bool(b) => JsonValue::Bool(*b),
            JsonValue::Number(n) => JsonValue::Number(n.clone()),
            JsonValue::Str(s) => JsonValue::Str(s.clone()),
            JsonValue::Array(items) => {
                let n = items.len();
                let mut copies: Vec<JsonValue> = Vec::new();
                let mut i: usize = 0;
                while i < n
                    invariant
                        *self == JsonValue::Array(*items),
                        n == items@.len(),
                        i <= n,
                        copies@.len() == i,
                        forall|j: int| 0 <= j < i ==> #[trigger] copies@[j].model() == items@[j].model(),
                    decreases n - i,
                {
                    assert(decreases_to!(*self => items@[i as int])) by {
                        assert(decreases_to!(*self => (*self)->Array_0));
                        assert(decreases_to!(*items => items@));
                        assert(decreases_to!(items@ => items@[i as int]));
                    }
                    let c = items[i].duplicate();
                    copies.push(c);
                    i = i + 1;
                }
                proof {
                    lemma_items_model(copies@);
                    lemma_items_model(items@);
                    assert(items_model(copies@) =~= items_model(items@));
                }
                JsonValue::Array(copies)
            },
            JsonValue::Object(m) => {
                proof {
                    use_type_invariant(m);
                }
                let n = m.entries.len();
                let mut copies: Vec<(String, JsonValue)> = Vec::new();
                let mut i: usize = 0;
                while i < n
                    invariant
                        *self == JsonValue::Object(*m),
                        n == m.entries@.len(),
                        i <= n,
                        copies@.len() == i,
                        forall|j: int|
                            0 <= j < i ==> (#[trigger] copies@[j]).0 == m.entries@[j].0
                                && copies@[j].1.model() == m.entries@[j].1.model(),
                        forall|j: int, k: int|
                            0 <= j < k < m.entries@.len() ==> m.entries@[j].0@
                                != m.entries@[k].0@,
                    decreases n - i,
                {
                    assert(decreases_to!(*self => m.entries@[i as int].1)) by {
                        assert(decreases_to!(*self => (*self)->Object_0));
                        assert(decreases_to!(*m => m.entries));
                        assert(decreases_to!(m.entries => m.entries@));
                        assert(decreases_to!(m.entries@ => m.entries@[i as int]));
                        assert(decreases_to!(m.entries@[i as int] => m.entries@[i as int].1));
                    }
                    let k = m.entries[i].0.clone();
                    let v = m.entries[i].1.duplicate();
                    copies.push((k, v));
                    i = i + 1;
                }
                let copy = JsonMap { entries: copies };
                proof {
                    lemma_entries_model(copies@);
                    lemma_entries_model(m.entries@);
                    assert(entries_model(copies@) =~= entries_model(m.entries@));
                }
                JsonValue::Object(copy)
            },
        }
    }
}

/// Whether two documents hold the same values; an object's keys may stand
/// in any order.
pub fn same_document(a: &JsonValue, b: &JsonValue) -> (same: bool)
    ensures
        same == same_json(a@, b@),
    decreases a,
{
    match a {
        JsonValue::Null => match b {
            JsonValue::Null => true,
            _ => false,
        },
        JsonValue::Bool(x) => match b {
            JsonValue::Bool(y) => *x == *y,
            _ => false,
        },
        JsonValue::Number(x) => match b {
            JsonValue::Number(y) => str_eq(x.as_str(), y.as_str()),
            _ => false,
        },
        JsonValue::Str(x) => match b {
            JsonValue::Str(y) => str_eq(x.as_str(), y.as_str()),
            _ => false,
        },
        JsonValue::Array(xs) => match b {
            JsonValue::Array(ys) => {
                proof {
                    lemma_items_model(xs@);
                    lemma_items_model(ys@);
                    lemma_same_items(items_model(xs@), items_model(ys@));
                }
                if xs.len() != ys.len() {
                    return false;
                }
                let n = xs.len();
                let mut i: usize = 0;
                while i < n
                    invariant
                        *a == JsonValue::Array(*xs),
                        *b == JsonValue::Array(*ys),
                        n == xs@.len(),
                        n == ys@.len(),
                        i <= n,
                        items_model(xs@).len() == n,
                        items_model(ys@).len() == n,
                        forall|j: int| 0 <= j < n ==> #[trigger] items_model(xs@)[j] == xs@[j].model(),
                        forall|j: int| 0 <= j < n ==> #[trigger] items_model(ys@)[j] == ys@[j].model(),
                        forall|j: int|
                            0 <= j < i ==> #[trigger] same_json(xs@[j].model(), ys@[j].model()),
                    decreases n - i,
                {
                    assert(decreases_to!(*a => xs@[i as int])) by {
                        assert(decreases_to!(*a => (*a)->Array_0));
                        assert(decreases_to!(*xs => xs@));
                        assert(decreases_to!(xs@ => xs@[i as int]));
                    }
                    if !same_document(&xs[i], &ys[i]) {
                        proof {
                            lemma_same_items(items_model(xs@), items_model(ys@));
                            assert(!same_json(items_model(xs@)[i as int], items_model(ys@)[i as int]));
                        }
                        return false;
                    }
                    i = i + 1;
                }
                proof {
                    lemma_same_items(items_model(xs@), items_model(ys@));
                    assert forall|j: int| 0 <= j < items_model(xs@).len() implies #[trigger] same_json(
                        items_model(xs@)[j],
                        items_model(ys@)[j],
                    ) by {
                        assert(same_json(xs@[j].model(), ys@[j].model()));
                    }
                }
                true
            },
            _ => false,
        },
        JsonValue::Object(m) => match b {
            JsonValue::Object(other) => {
                proof {
                    lemma_entries_model(m.entries@);
                    lemma_same_entries(m@, other@);
                }
                if m.len() != other.len() {
                    return false;
                }
                let n = m.entries.len();
                let mut i: usize = 0;
                while i < n
                    invariant
                        *a == JsonValue::Object(*m),
                        *b == JsonValue::Object(*other),
                        m@.len() == other@.len(),
                        n == m.entries@.len(),
                        n == m@.len(),
                        i <= n,
                        forall|j: int|
                            0 <= j < m@.len() ==> #[trigger] m@[j] == (
                                m.entries@[j].0@,
                                m.entries@[j].1.model(),
                            ),
                        forall|j: int|
                            0 <= j < i ==> (#[trigger] lookup(other@, m@[j].0) matches Some(v)
                                && same_json(m@[j].1, v)),
                    decreases n - i,
                {
                    assert(decreases_to!(*a => m.entries@[i as int].1)) by {
                        assert(decreases_to!(*a => (*a)->Object_0));
                        assert(decreases_to!(*m => m.entries));
                        assert(decreases_to!(m.entries => m.entries@));
                        assert(decreases_to!(m.entries@ => m.entries@[i as int]));
                        assert(decreases_to!(m.entries@[i as int] => m.entries@[i as int].1));
                    }
                    let entry = &m.entries[i];
                    match other.get(entry.0.as_str()) {
                        Some(w) => {
                            if !same_document(&entry.1, w) {
                                proof {
                                    lemma_same_entries(m@, other@);
                                    assert(!(lookup(other@, m@[i as int].0) matches Some(v)
                                        && same_json(m@[i as int].1, v)));
                                }
                                return false;
                            }
                        },
                        None => {
                            proof {
                                lemma_same_entries(m@, other@);
                                assert(!(lookup(other@, m@[i as int].0) matches Some(v)
                                    && same_json(m@[i as int].1, v)));
                            }
                            return false;
                        },
                    }
                    i = i + 1;
                }
                proof {
                    lemma_same_entries(m@, other@);
                }
                true
            },
            _ => false,
        },
    }
}

impl PartialEq for JsonValue {
    fn eq(&self, other: &Self) -> (equal: bool) {
        same_document(self, other)
    }
}

impl vstd::std_specs::cmp::PartialEqSpecImpl for JsonValue {
    open spec fn obeys_eq_spec() -> bool {
        true
    }

    open spec fn eq_spec(&self, other: &JsonValue) -> bool {
        same_json(self@, other@)
    }
}

} // verus!
