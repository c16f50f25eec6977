//! A JSON value held as plain data, with a mathematical view.
use vstd::prelude::*;

verus! {

/// The mathematical model of a JSON value.
pub enum Json {
    Null,
    Bool(bool),
    /// A number, kept as the text it was written with.
    Number(Seq<char>),
    Str(Seq<char>),
    Array(Seq<Json>),
    /// Members in the order they were written.
    Object(Seq<(Seq<char>, Json)>),
}

/// A JSON value.
#[derive(Debug)]
pub enum JsonValue {
    Null,
    Bool(bool),
    /// A number, kept as the text it was written with.
    Number(String),
    Str(String),
    Array(Vec<JsonValue>),
    /// Members in the order they were written.
    Object(Vec<(String, JsonValue)>),
}

/// The model of a value: its parts, taken apart all the way down.
pub open spec fn json_view(v: JsonValue) -> Json
    decreases v,
{
    match v {
        JsonValue::Null => Json::Null,
        JsonValue::Bool(b) => Json::Bool(b),
        JsonValue::Number(n) => Json::Number(n@),
        JsonValue::Str(s) => Json::Str(s@),
        JsonValue::Array(items) => Json::Array(
            items@.map_values(
                |c: JsonValue|
                    if decreases_to!(v => c) {
                        json_view(c)
                    } else {
                        Json::Null
                    },
            ),
        ),
        JsonValue::Object(entries) => Json::Object(
            entries@.map_values(
                |e: (String, JsonValue)|
                    (
                        e.0@,
                        if decreases_to!(v => e.1) {
                            json_view(e.1)
                        } else {
                            Json::Null
                        },
                    ),
            ),
        ),
    }
}

impl View for JsonValue {
    type V = Json;

    open spec fn view(&self) -> Json {
        json_view(*self)
    }
}

/// The view of a sequence of values, element by element.
pub open spec fn views(items: Seq<JsonValue>) -> Seq<Json> {
    items.map_values(|c: JsonValue| c@)
}

/// The view of a sequence of members, element by element.
pub open spec fn member_views(entries: Seq<(String, JsonValue)>) -> Seq<(Seq<char>, Json)> {
    entries.map_values(|e: (String, JsonValue)| (e.0@, e.1@))
}

/// The value of the first member named `key`, if any.
pub open spec fn member(members: Seq<(Seq<char>, Json)>, key: Seq<char>) -> Option<Json>
    decreases members.len(),
{
    if members.len() == 0 {
        None
    } else if members[0].0 == key {
        Some(members[0].1)
    } else {
        member(members.drop_first(), key)
    }
}

/// The member `key` of `v`, where `v` is an object that has one.
pub open spec fn field(v: Json, key: Seq<char>) -> Option<Json> {
    match v {
        Json::Object(members) => member(members, key),
        _ => None,
    }
}

/// An object's view is its members' views.
pub proof fn lemma_object_view(v: JsonValue)
    requires
        v is Object,
    ensures
        v@ == Json::Object(member_views(v->Object_0@)),
{
    let entries = v->Object_0;
    assert(decreases_to!(JsonValue::Object(entries) => entries));
    assert forall|j: int| 0 <= j < entries@.len() implies decreases_to!(v => #[trigger] entries@[j].1) by {
        assert(decreases_to!(entries => entries@[j]));
        assert(decreases_to!(entries@[j] => entries@[j].1));
    }
    assert forall|j: int| 0 <= j < entries@.len() implies #[trigger] v@->Object_0[j] == member_views(entries@)[j] by {
        assert(decreases_to!(entries => entries@[j]));
        assert(decreases_to!(entries@[j] => entries@[j].1));
        assert(decreases_to!(v => entries@[j].1));
    }
    assert(v@->Object_0 =~= member_views(entries@));
}

/// An array's view is its items' views.
pub proof fn lemma_array_view(v: JsonValue)
    requires
        v is Array,
    ensures
        v@ == Json::Array(views(v->Array_0@)),
{
    let items = v->Array_0;
    assert(decreases_to!(JsonValue::Array(items) => items));
    assert forall|j: int| 0 <= j < items@.len() implies decreases_to!(v => #[trigger] items@[j]) by {
        assert(decreases_to!(items => items@[j]));
    }
    assert(v@->Array_0 =~= views(items@));
}

/// The view of an optional value.
pub open spec fn opt_view(o: Option<JsonValue>) -> Option<Json> {
    match o {
        Some(v) => Some(v@),
        None => None,
    }
}

/// Skipping members whose names differ from `key` does not change the lookup.
pub proof fn lemma_member_skip(members: Seq<(Seq<char>, Json)>, key: Seq<char>, i: int)
    requires
        0 <= i < members.len(),
        members[i].0 != key,
    ensures
        member(members.subrange(i, members.len() as int), key) == member(
            members.subrange(i + 1, members.len() as int),
            key,
        ),
{
    assert(members.subrange(i, members.len() as int).drop_first() =~= members.subrange(
        i + 1,
        members.len() as int,
    ));
}

/// Looking a name up after one more member: an earlier member wins.
pub proof fn lemma_member_push(members: Seq<(Seq<char>, Json)>, entry: (Seq<char>, Json), key: Seq<char>)
    ensures
        member(members.push(entry), key) == if member(members, key) is Some {
            member(members, key)
        } else if entry.0 == key {
            Some(entry.1)
        } else {
            None
        },
    decreases members.len(),
{
    if members.len() == 0 {
        assert(members.push(entry).drop_first() =~= Seq::<(Seq<char>, Json)>::empty());
        assert(member(Seq::<(Seq<char>, Json)>::empty(), key) is None);
    } else {
        assert(members.push(entry)[0] == members[0]);
        assert(members.push(entry).drop_first() =~= members.drop_first().push(entry));
        lemma_member_push(members.drop_first(), entry, key);
    }
}

/// No name is found among no members.
pub proof fn lemma_member_empty(key: Seq<char>)
    ensures
        member(Seq::<(Seq<char>, Json)>::empty(), key) is None,
{
}

impl JsonValue {
    /// A string value.
    pub fn text(s: &str) -> (r: JsonValue)
        ensures
            r@ == Json::Str(s@),
    {
        JsonValue::Str(String::from_str(s))
    }

    /// The member `key` of an object; `None` for a missing member or a value that is no object.
    pub fn get(&self, key: &str) -> (r: Option<&JsonValue>)
        ensures
            match r {
                Some(v) => field(self@, key@) == Some(v@),
                None => field(self@, key@) is None,
            },
    {
        match self {
            JsonValue::Object(entries) => {
                proof {
                    lemma_object_view(*self);
                    assert(member_views(entries@).subrange(0, entries@.len() as int) =~= member_views(entries@));
                }
                let mut i: usize = 0;
                while i < entries.len()
                    invariant
                        self@ == Json::Object(member_views(entries@)),
                        i <= entries@.len(),
                        member(member_views(entries@), key@) == member(
                            member_views(entries@).subrange(i as int, entries@.len() as int),
                            key@,
                        ),
                    decreases entries@.len() - i,
                {
                    if crate::text::text_eq(entries[i].0.as_str(), key) {
                        return Some(&entries[i].1);
                    }
                    proof {
                        lemma_member_skip(member_views(entries@), key@, i as int);
                    }
                    i = i + 1;
                }
                None
            }
            _ => None,
        }
    }

    /// The text of a string value.
    pub fn as_str(&self) -> (r: Option<&String>)
        ensures
            match r {
                Some(s) => self@ == Json::Str(s@),
                None => !(self@ is Str),
            },
    {
        match self {
            JsonValue::Str(s) => Some(s),
            _ => None,
        }
    }

    /// The truth value of a boolean value.
    pub fn as_bool(&self) -> (r: Option<bool>)
        ensures
            match r {
                Some(b) => self@ == Json::Bool(b),
                None => !(self@ is Bool),
            },
    {
        match self {
            JsonValue::Bool(b) => Some(*b),
            _ => None,
        }
    }

    /// The items of an array value.
    pub fn as_array(&self) -> (r: Option<&Vec<JsonValue>>)
        ensures
            match r {
                Some(items) => self@ == Json::Array(views(items@)),
                None => !(self@ is Array),
            },
    {
        match self {
            JsonValue::Array(items) => {
                proof {
                    lemma_array_view(*self);
                }
                Some(items)
            }
            _ => None,
        }
    }

    /// A copy of the value, equal to it in every part.
    pub fn deep_copy(&self) -> (r: JsonValue)
        ensures
            r@ == self@,
        decreases self,
    {
        match self {
            JsonValue::Null => JsonValue::Null,
            JsonValue::Bool(b) => JsonValue::Bool(*b),
            JsonValue::Number(n) => JsonValue::Number(n.clone()),
            JsonValue::Str(s) => JsonValue::Str(s.clone()),
            JsonValue::Array(items) => {
                proof {
                    assert(decreases_to!(JsonValue::Array(*items) => *items));
                }
                let mut out: Vec<JsonValue> = Vec::new();
                let mut i: usize = 0;
                while i < items.len()
                    invariant
                        *self == JsonValue::Array(*items),
                        decreases_to!(*self => *items),
                        i <= items@.len(),
                        out@.len() == i,
                        forall|j: int| 0 <= j < i ==> (#[trigger] out@[j])@ == items@[j]@,
                    decreases items@.len() - i,
                {
                    proof {
                        assert(decreases_to!(*items => items@[i as int]));
                    }
                    let c = items[i].deep_copy();
                    out.push(c);
                    i = i + 1;
                }
                let r = JsonValue::Array(out);
                proof {
                    lemma_array_view(r);
                    lemma_array_view(*self);
                    assert(views(out@) =~= views(items@));
                }
                r
            }
            JsonValue::Object(entries) => {
                proof {
                    assert(decreases_to!(JsonValue::Object(*entries) => *entries));
                }
                let mut out: Vec<(String, JsonValue)> = Vec::new();
                let mut i: usize = 0;
                while i < entries.len()
                    invariant
                        *self == JsonValue::Object(*entries),
                        decreases_to!(*self => *entries),
                        i <= entries@.len(),
                        out@.len() == i,
                        forall|j: int|
                            0 <= j < i ==> (#[trigger] out@[j]).0@ == entries@[j].0@ && out@[j].1@
                                == entries@[j].1@,
                    decreases entries@.len() - i,
                {
                    proof {
                        assert(decreases_to!(*entries => entries@[i as int]));
                        assert(decreases_to!(entries@[i as int] => entries@[i as int].1));
                    }
                    let k = entries[i].0.clone();
                    let v = entries[i].1.deep_copy();
                    out.push((k, v));
                    i = i + 1;
                }
                let r = JsonValue::Object(out);
                proof {
                    lemma_object_view(r);
                    lemma_object_view(*self);
                    assert(member_views(out@) =~= member_views(entries@));
                }
                r
            }
        }
    }
}

} // verus!
