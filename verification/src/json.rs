//! A JSON document model.

use vstd::prelude::*;

verus! {

broadcast use vstd::std_specs::vec::group_vec_axioms;

/// A JSON value as the library reads and builds it.
pub enum Json {
    /// `null`.
    Null,
    /// `true` / `false`.
    Bool(bool),
    /// A number, held as its canonical text.
    Number(String),
    /// A string.
    Str(String),
    /// An array.
    Array(Vec<Json>),
    /// An object, as its entries in order.
    Object(Vec<(String, Json)>),
}

/// The mathematical value of a [`Json`].
pub enum JsonValue {
    /// `null`.
    Null,
    /// `true` / `false`.
    Bool(bool),
    /// A number, as its text.
    Number(Seq<char>),
    /// A string.
    Str(Seq<char>),
    /// An array.
    Array(Seq<JsonValue>),
    /// An object, as its entries in order.
    Object(Seq<(Seq<char>, JsonValue)>),
}

/// The mathematical value of a JSON value.
pub open spec fn json_view(j: Json) -> JsonValue
    decreases j,
{
    match j {
        Json::Null => JsonValue::Null,
        Json::Bool(b) => JsonValue::Bool(b),
        Json::Number(n) => JsonValue::Number(n@),
        Json::Str(s) => JsonValue::Str(s@),
        Json::Array(v) => JsonValue::Array(elems_view(v@)),
        Json::Object(v) => JsonValue::Object(entries_view(v@)),
    }
}

/// The values of a sequence of JSON values, one for one.
pub open spec fn elems_view(s: Seq<Json>) -> Seq<JsonValue>
    decreases s,
{
    if s.len() == 0 {
        Seq::empty()
    } else {
        seq![json_view(s[0])] + elems_view(s.subrange(1, s.len() as int))
    }
}

/// The values of a sequence of object entries, one for one.
pub open spec fn entries_view(s: Seq<(String, Json)>) -> Seq<(Seq<char>, JsonValue)>
    decreases s,
{
    if s.len() == 0 {
        Seq::empty()
    } else {
        seq![(s[0].0@, json_view(s[0].1))] + entries_view(s.subrange(1, s.len() as int))
    }
}

impl View for Json {
    type V = JsonValue;

    open spec fn view(&self) -> JsonValue {
        json_view(*self)
    }
}

/// The views of a sequence of values, one for one.
pub proof fn lemma_elems_view(s: Seq<Json>)
    ensures
        elems_view(s).len() == s.len(),
        forall|i: int| 0 <= i < s.len() ==> #[trigger] elems_view(s)[i] == json_view(s[i]),
    decreases s.len(),
{
    if s.len() > 0 {
        lemma_elems_view(s.subrange(1, s.len() as int));
    }
}

/// The views of a sequence of object entries, one for one.
pub proof fn lemma_entries_view(s: Seq<(String, Json)>)
    ensures
        entries_view(s).len() == s.len(),
        forall|i: int|
            0 <= i < s.len() ==> #[trigger] entries_view(s)[i] == (s[i].0@, json_view(s[i].1)),
    decreases s.len(),
{
    if s.len() > 0 {
        lemma_entries_view(s.subrange(1, s.len() as int));
    }
}

// Two sequences of values with equal views one for one have equal views.
proof fn lemma_elems_view_eq(a: Seq<Json>, b: Seq<Json>)
    requires
        a.len() == b.len(),
        forall|i: int| 0 <= i < a.len() ==> json_view(#[trigger] a[i]) == json_view(b[i]),
    ensures
        elems_view(a) == elems_view(b),
{
    lemma_elems_view(a);
    lemma_elems_view(b);
    assert(elems_view(a) =~= elems_view(b));
}

proof fn lemma_entries_view_eq(a: Seq<(String, Json)>, b: Seq<(String, Json)>)
    requires
        a.len() == b.len(),
        forall|i: int|
            0 <= i < a.len() ==> (#[trigger] a[i]).0@ == b[i].0@ && json_view(a[i].1) == json_view(
                b[i].1,
            ),
    ensures
        entries_view(a) == entries_view(b),
{
    lemma_entries_view(a);
    lemma_entries_view(b);
    assert(entries_view(a) =~= entries_view(b));
}

/// The value stored under `key` in object entries: the first entry with that key.
pub open spec fn entries_lookup(s: Seq<(Seq<char>, JsonValue)>, key: Seq<char>) -> Option<JsonValue>
    decreases s.len(),
{
    if s.len() == 0 {
        None
    } else if s[0].0 == key {
        Some(s[0].1)
    } else {
        entries_lookup(s.subrange(1, s.len() as int), key)
    }
}

impl JsonValue {
    /// `v.get(key)`: the member `key` of an object; nothing for other values.
    pub open spec fn get(self, key: Seq<char>) -> Option<JsonValue> {
        match self {
            JsonValue::Object(entries) => entries_lookup(entries, key),
            _ => None,
        }
    }

    /// The string held by a string value.
    pub open spec fn as_str(self) -> Option<Seq<char>> {
        match self {
            JsonValue::Str(s) => Some(s),
            _ => None,
        }
    }
}

/// `o.and_then(|v| v.get(key))`.
pub open spec fn opt_get(o: Option<JsonValue>, key: Seq<char>) -> Option<JsonValue> {
    match o {
        Some(v) => v.get(key),
        None => None,
    }
}

/// `o.and_then(|v| v.as_str())`.
pub open spec fn opt_as_str(o: Option<JsonValue>) -> Option<Seq<char>> {
    match o {
        Some(v) => v.as_str(),
        None => None,
    }
}

impl Json {
    /// A copy of this value.
    pub fn deep_clone(&self) -> (r: Json)
        ensures
            r@ == self@,
        decreases self,
    {
        match self {
            Json::Null => Json::Null,
            Json::Bool(b) => Json::Bool(*b),
            Json::Number(n) => Json::Number(n.clone()),
            Json::Str(s) => Json::Str(s.clone()),
            Json::Array(v) => {
                let mut out: Vec<Json> = Vec::new();
                let mut i: usize = 0;
                while i < v.len()
                    invariant
                        *self == Json::Array(*v),
                        i <= v@.len(),
                        out@.len() == i,
                        forall|j: int| 0 <= j < i ==> json_view(#[trigger] out@[j]) == json_view(v@[j]),
                    decreases v@.len() - i,
                {
                    proof {
                        let ghost s: Json = *self;
                        assert(decreases_to!(s => s->Array_0));
                        assert(decreases_to!(*v => v@));
                        assert(decreases_to!(v@ => v@[i as int]));
                    }
                    let c = v[i].deep_clone();
                    out.push(c);
                    i = i + 1;
                }
                proof {
                    lemma_elems_view_eq(out@, v@);
                }
                Json::Array(out)
            },
            Json::Object(v) => {
                let mut out: Vec<(String, Json)> = Vec::new();
                let mut i: usize = 0;
                while i < v.len()
                    invariant
                        *self == Json::Object(*v),
                        i <= v@.len(),
                        out@.len() == i,
                        forall|j: int|
                            0 <= j < i ==> (#[trigger] out@[j]).0@ == v@[j].0@ && json_view(out@[j].1)
                                == json_view(v@[j].1),
                    decreases v@.len() - i,
                {
                    proof {
                        let ghost s: Json = *self;
                        assert(decreases_to!(s => s->Object_0));
                        assert(decreases_to!(*v => v@));
                        assert(decreases_to!(v@ => v@[i as int]));
                        assert(decreases_to!(v@[i as int] => v@[i as int].1));
                    }
                    let k = v[i].0.clone();
                    let c = v[i].1.deep_clone();
                    out.push((k, c));
                    i = i + 1;
                }
                proof {
                    lemma_entries_view_eq(out@, v@);
                }
                Json::Object(out)
            },
        }
    }

    /// The member `key` of an object; `None` for other values or a missing key.
    pub fn get(&self, key: &str) -> (r: Option<&Json>)
        ensures
            match r {
                Some(m) => self@.get(key@) == Some(m@),
                None => self@.get(key@) is None,
            },
    {
        match self {
            Json::Object(v) => {
                proof {
                    lemma_entries_view(v@);
                }
                let mut i: usize = 0;
                assert(entries_view(v@).subrange(0, v@.len() as int) =~= entries_view(v@));
                while i < v.len()
                    invariant
                        *self == Json::Object(*v),
                        i <= v@.len(),
                        entries_view(v@).len() == v@.len(),
                        forall|j: int|
                            0 <= j < v@.len() ==> #[trigger] entries_view(v@)[j] == (v@[j].0@, json_view(v@[j].1)),
                        entries_lookup(entries_view(v@), key@) == entries_lookup(
                            entries_view(v@).subrange(i as int, v@.len() as int),
                            key@,
                        ),
                    decreases v@.len() - i,
                {
                    let ghost rest = entries_view(v@).subrange(i as int, v@.len() as int);
                    assert(rest.subrange(1, rest.len() as int) =~= entries_view(v@).subrange(
                        i + 1,
                        v@.len() as int,
                    ));
                    assert(rest[0] == entries_view(v@)[i as int]);
                    if crate::text::str_eq(v[i].0.as_str(), key) {
                        assert(rest[0].0 == key@);
                        return Some(&v[i].1);
                    }
                    i = i + 1;
                }
                None
            },
            _ => None,
        }
    }

    /// The string held by a string value.
    pub fn as_str(&self) -> (r: Option<&str>)
        ensures
            match r {
                Some(s) => self@.as_str() == Some(s@),
                None => self@.as_str() is None,
            },
    {
        match self {
            Json::Str(s) => Some(s.as_str()),
            _ => None,
        }
    }

    /// The elements of an array value.
    pub fn as_array(&self) -> (r: Option<&Vec<Json>>)
        ensures
            match r {
                Some(v) => self@ == JsonValue::Array(elems_view(v@)),
                None => !(self@ is Array),
            },
    {
        match self {
            Json::Array(v) => Some(v),
            _ => None,
        }
    }
}

} // verus!
