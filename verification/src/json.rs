//! A JSON value model: tool arguments, handler data and diagnostics objects.
//!
//! Objects keep their entries in order; a key is looked up by its first entry,
//! and inserting an existing key replaces that entry in place.
use vstd::prelude::*;
use crate::text::{owned, str_eq};

verus! {

broadcast use vstd::std_specs::vec::axiom_vec_index_decreases;

/// A JSON value. Integers that fit `i64` or `u64` are held exactly; any other
/// number is held as its literal text.
#[derive(Debug)]
pub enum Json {
    Null,
    Bool(bool),
    Int(i64),
    UInt(u64),
    Decimal(String),
    Str(String),
    Array(Vec<Json>),
    Object(JsonMap),
}

/// A JSON object as an ordered list of entries.
#[derive(Debug)]
pub struct JsonMap {
    pub entries: Vec<(String, Json)>,
}

/// The mathematical form of a JSON value.
pub enum JsonV {
    Null,
    Bool(bool),
    Int(int),
    Decimal(Seq<char>),
    Str(Seq<char>),
    Array(Seq<JsonV>),
    Object(Seq<(Seq<char>, JsonV)>),
}

impl Json {
    pub open spec fn model(&self) -> JsonV
        decreases self,
    {
        match self {
            Json::Null => JsonV::Null,
            Json::Bool(b) => JsonV::Bool(*b),
            Json::Int(i) => JsonV::Int(*i as int),
            Json::UInt(u) => JsonV::Int(*u as int),
            Json::Decimal(t) => JsonV::Decimal(t@),
            Json::Str(s) => JsonV::Str(s@),
            Json::Array(items) => JsonV::Array(
                Seq::new(
                    items.len() as nat,
                    |i: int|
                        if 0 <= i < items.len() {
                            items[i].model()
                        } else {
                            JsonV::Null
                        },
                ),
            ),
            Json::Object(m) => JsonV::Object(
                Seq::new(
                    m.entries.len() as nat,
                    |i: int|
                        if 0 <= i < m.entries.len() {
                            (m.entries[i].0@, m.entries[i].1.model())
                        } else {
                            (Seq::empty(), JsonV::Null)
                        },
                ),
            ),
        }
    }
}

impl View for Json {
    type V = JsonV;

    open spec fn view(&self) -> JsonV {
        self.model()
    }
}

impl View for JsonMap {
    type V = Seq<(Seq<char>, JsonV)>;

    open spec fn view(&self) -> Seq<(Seq<char>, JsonV)> {
        Seq::new(self.entries.len() as nat, |i: int| (self.entries@[i].0@, self.entries@[i].1@))
    }
}

/// The value of the first entry with key `k`.
pub open spec fn entries_get(e: Seq<(Seq<char>, JsonV)>, k: Seq<char>) -> Option<JsonV>
    decreases e.len(),
{
    if e.len() == 0 {
        None
    } else if e[0].0 == k {
        Some(e[0].1)
    } else {
        entries_get(e.drop_first(), k)
    }
}

/// The entries after setting key `k` to `v`: the first entry with `k` is
/// replaced in place, or a new entry is appended.
pub open spec fn entries_insert(e: Seq<(Seq<char>, JsonV)>, k: Seq<char>, v: JsonV) -> Seq<
    (Seq<char>, JsonV),
>
    decreases e.len(),
{
    if e.len() == 0 {
        seq![(k, v)]
    } else if e[0].0 == k {
        e.update(0, (k, v))
    } else {
        seq![e[0]] + entries_insert(e.drop_first(), k, v)
    }
}

/// Whether `k` is the key of some entry.
pub open spec fn entries_has_key(e: Seq<(Seq<char>, JsonV)>, k: Seq<char>) -> bool {
    exists|i: int| 0 <= i < e.len() && (#[trigger] e[i]).0 == k
}

/// The text of a string value.
pub open spec fn v_as_str(v: Option<JsonV>) -> Option<Seq<char>> {
    match v {
        Some(JsonV::Str(s)) => Some(s),
        _ => None,
    }
}

/// The value of a boolean.
pub open spec fn v_as_bool(v: Option<JsonV>) -> Option<bool> {
    match v {
        Some(JsonV::Bool(b)) => Some(b),
        _ => None,
    }
}

/// The value of an integer within the range of `i64`.
pub open spec fn v_as_i64(v: Option<JsonV>) -> Option<int> {
    match v {
        Some(JsonV::Int(i)) => if i64::MIN <= i && i <= i64::MAX {
            Some(i)
        } else {
            None
        },
        _ => None,
    }
}

pub(crate) proof fn lemma_entries_get_step(e: Seq<(Seq<char>, JsonV)>, k: Seq<char>, i: int)
    requires
        0 <= i < e.len(),
        forall|j: int| 0 <= j < i ==> e[j].0 != k,
    ensures
        entries_get(e, k) == entries_get(e.subrange(i, e.len() as int), k),
    decreases i,
{
    if i > 0 {
        assert(e.drop_first().subrange(i - 1, e.drop_first().len() as int) =~= e.subrange(
            i,
            e.len() as int,
        ));
        lemma_entries_get_step(e.drop_first(), k, i - 1);
    } else {
        assert(e.subrange(0, e.len() as int) =~= e);
    }
}

proof fn lemma_entries_get_absent(e: Seq<(Seq<char>, JsonV)>, k: Seq<char>)
    requires
        forall|j: int| 0 <= j < e.len() ==> e[j].0 != k,
    ensures
        entries_get(e, k) is None,
    decreases e.len(),
{
    if e.len() > 0 {
        lemma_entries_get_absent(e.drop_first(), k);
    }
}

proof fn lemma_entries_insert_replace(e: Seq<(Seq<char>, JsonV)>, k: Seq<char>, v: JsonV, i: int)
    requires
        0 <= i < e.len(),
        e[i].0 == k,
        forall|j: int| 0 <= j < i ==> e[j].0 != k,
    ensures
        entries_insert(e, k, v) == e.update(i, (k, v)),
    decreases i,
{
    if i > 0 {
        lemma_entries_insert_replace(e.drop_first(), k, v, i - 1);
        assert(seq![e[0]] + e.drop_first().update(i - 1, (k, v)) =~= e.update(i, (k, v)));
    }
}

proof fn lemma_entries_insert_append(e: Seq<(Seq<char>, JsonV)>, k: Seq<char>, v: JsonV)
    requires
        forall|j: int| 0 <= j < e.len() ==> e[j].0 != k,
    ensures
        entries_insert(e, k, v) == e.push((k, v)),
    decreases e.len(),
{
    if e.len() > 0 {
        lemma_entries_insert_append(e.drop_first(), k, v);
        assert(seq![e[0]] + e.drop_first().push((k, v)) =~= e.push((k, v)));
    }
}

/// Setting a key and then reading it gives back the value set; reading any
/// other key gives what it gave before; and the object holds the key
/// afterwards.
pub proof fn law_get_after_insert(e: Seq<(Seq<char>, JsonV)>, k: Seq<char>, v: JsonV, other: Seq<char>)
    requires
        other != k,
    ensures
        entries_get(entries_insert(e, k, v), k) == Some(v),
        entries_get(entries_insert(e, k, v), other) == entries_get(e, other),
        entries_has_key(entries_insert(e, k, v), k),
    decreases e.len(),
{
    if e.len() == 0 {
        assert(entries_insert(e, k, v)[0].0 == k);
        assert(entries_insert(e, k, v).drop_first() =~= e);
    } else if e[0].0 == k {
        let r = entries_insert(e, k, v);
        assert(r.drop_first() =~= e.drop_first());
        assert(r[0].0 == k);
    } else {
        law_get_after_insert(e.drop_first(), k, v, other);
        let r = entries_insert(e, k, v);
        assert(r.drop_first() =~= entries_insert(e.drop_first(), k, v));
        let rest = entries_insert(e.drop_first(), k, v);
        let j = choose|j: int| 0 <= j < rest.len() && (#[trigger] rest[j]).0 == k;
        assert(r[j + 1] == rest[j]);
    }
}

impl JsonMap {
    /// An object without entries.
    pub fn new() -> (m: JsonMap)
        ensures
            m@ == Seq::<(Seq<char>, JsonV)>::empty(),
    {
        let m = JsonMap { entries: Vec::new() };
        assert(m@ =~= Seq::<(Seq<char>, JsonV)>::empty());
        m
    }

    /// Index of the first entry with key `key`.
    pub fn position(&self, key: &str) -> (r: Option<usize>)
        ensures
            r matches Some(i) ==> i < self@.len() && self@[i as int].0 == key@ && forall|j: int|
                0 <= j < i ==> self@[j].0 != key@,
            r is None ==> forall|j: int| 0 <= j < self@.len() ==> self@[j].0 != key@,
    {
        let mut i: usize = 0;
        while i < self.entries.len()
            invariant
                i <= self.entries.len(),
                forall|j: int| 0 <= j < i ==> self@[j].0 != key@,
            decreases self.entries.len() - i,
        {
            if str_eq(self.entries[i].0.as_str(), key) {
                return Some(i);
            }
            i = i + 1;
        }
        None
    }

    /// The value of the first entry with key `key`.
    pub fn get(&self, key: &str) -> (r: Option<&Json>)
        ensures
            r matches Some(v) ==> entries_get(self@, key@) == Some(v@),
            r is None <==> entries_get(self@, key@) is None,
    {
        match self.position(key) {
            Some(i) => {
                proof {
                    lemma_entries_get_step(self@, key@, i as int);
                }
                Some(&self.entries[i].1)
            },
            None => {
                proof {
                    lemma_entries_get_absent(self@, key@);
                }
                None
            },
        }
    }

    /// Sets `key` to `value`, replacing the first entry with that key.
    pub fn insert(&mut self, key: String, value: Json)
        ensures
            final(self)@ == entries_insert(old(self)@, key@, value@),
    {
        let ghost before = self@;
        match self.position(key.as_str()) {
            Some(i) => {
                proof {
                    lemma_entries_insert_replace(before, key@, value@, i as int);
                }
                self.entries.set(i, (key, value));
                assert(self@ =~= before.update(i as int, (key@, value@)));
            },
            None => {
                proof {
                    lemma_entries_insert_append(before, key@, value@);
                }
                self.entries.push((key, value));
                assert(self@ =~= before.push((key@, value@)));
            },
        }
    }

    /// Appends an entry for a key that the object does not hold yet.
    pub fn push_entry(&mut self, key: &str, value: Json)
        ensures
            final(self)@ == old(self)@.push((key@, value@)),
    {
        let k = owned(key);
        let ghost before = self@;
        self.entries.push((k, value));
        assert(self@ =~= before.push((key@, value@)));
    }
}

impl Json {
    /// The text of a string value.
    pub fn as_str(&self) -> (r: Option<&String>)
        ensures
            r matches Some(s) ==> self@ == JsonV::Str(s@),
            r is None <==> !(self@ is Str),
    {
        match self {
            Json::Str(s) => Some(s),
            _ => None,
        }
    }

    /// The value of a boolean.
    pub fn as_bool(&self) -> (r: Option<bool>)
        ensures
            r == v_as_bool(Some(self@)),
    {
        match self {
            Json::Bool(b) => Some(*b),
            _ => None,
        }
    }

    /// The value of an integer within the range of `i64`.
    pub fn as_i64(&self) -> (r: Option<i64>)
        ensures
            r matches Some(i) ==> v_as_i64(Some(self@)) == Some(i as int),
            r is None <==> v_as_i64(Some(self@)) is None,
    {
        match self {
            Json::Int(i) => Some(*i),
            Json::UInt(u) => if *u <= 9223372036854775807u64 {
                Some(*u as i64)
            } else {
                None
            },
            _ => None,
        }
    }

    /// The items of an array.
    pub fn as_array(&self) -> (r: Option<&Vec<Json>>)
        ensures
            r matches Some(items) ==> self@ == JsonV::Array(
                Seq::new(items.len() as nat, |i: int| items@[i]@),
            ),
            r is None <==> !(self@ is Array),
    {
        match self {
            Json::Array(items) => {
                assert(self@->Array_0 =~= Seq::new(items.len() as nat, |i: int| items@[i]@));
                Some(items)
            },
            _ => None,
        }
    }

    /// The entries of an object.
    pub fn as_object(&self) -> (r: Option<&JsonMap>)
        ensures
            r matches Some(m) ==> self@ == JsonV::Object(m@),
            r is None <==> !(self@ is Object),
    {
        match self {
            Json::Object(m) => {
                assert(self@->Object_0 =~= m@);
                Some(m)
            },
            _ => None,
        }
    }

    /// A string value holding a copy of `s`.
    pub fn text(s: &str) -> (r: Json)
        ensures
            r@ == JsonV::Str(s@),
    {
        Json::Str(owned(s))
    }
}

/// The model of an object value is the model of its entries.
pub proof fn lemma_object_model(m: JsonMap)
    ensures
        Json::Object(m)@ == JsonV::Object(m@),
{
    assert(Json::Object(m)@->Object_0 =~= m@);
}

/// A deep copy of a JSON value.
pub fn clone_json(j: &Json) -> (r: Json)
    ensures
        r@ == j@,
    decreases j,
{
    match j {
        Json::Null => Json::Null,
        Json::Bool(b) => Json::Bool(*b),
        Json::Int(i) => Json::Int(*i),
        Json::UInt(u) => Json::UInt(*u),
        Json::Decimal(t) => Json::Decimal(t.clone()),
        Json::Str(s) => Json::Str(s.clone()),
        Json::Array(items) => {
            let mut out: Vec<Json> = Vec::new();
            let mut i: usize = 0;
            assert(decreases_to!(j => *items));
            while i < items.len()
                invariant
                    decreases_to!(j => *items),
                    i <= items.len(),
                    out.len() == i,
                    forall|k: int| 0 <= k < i ==> (#[trigger] out@[k])@ == items@[k]@,
                decreases items.len() - i,
            {
                proof {
                    assert(decreases_to!(*items => items[i as int]));
                }
                out.push(clone_json(&items[i]));
                i = i + 1;
            }
            let r = Json::Array(out);
            assert(r@->Array_0 =~= j@->Array_0);
            r
        },
        Json::Object(m) => {
            let mut out: Vec<(String, Json)> = Vec::new();
            let mut i: usize = 0;
            assert(decreases_to!(j => *m));
            while i < m.entries.len()
                invariant
                    decreases_to!(j => *m),
                    i <= m.entries.len(),
                    out.len() == i,
                    forall|k: int|
                        0 <= k < i ==> (#[trigger] out@[k]).0@ == m.entries@[k].0@ && out@[k].1@
                            == m.entries@[k].1@,
                decreases m.entries.len() - i,
            {
                let key = m.entries[i].0.clone();
                proof {
                    assert(decreases_to!(*m => m.entries));
                    assert(decreases_to!(m.entries => m.entries[i as int]));
                    assert(decreases_to!(m.entries[i as int] => m.entries[i as int].1));
                }
                let value = clone_json(&m.entries[i].1);
                out.push((key, value));
                i = i + 1;
            }
            let r = Json::Object(JsonMap { entries: out });
            assert(r@->Object_0 =~= j@->Object_0);
            r
        },
    }
}

/// A deep copy of an optional JSON value.
pub fn clone_opt_json(j: Option<&Json>) -> (r: Option<Json>)
    ensures
        r matches Some(v) ==> j matches Some(w) && v@ == w@,
        r is None <==> j is None,
{
    match j {
        Some(v) => Some(clone_json(v)),
        None => None,
    }
}

} // verus!
