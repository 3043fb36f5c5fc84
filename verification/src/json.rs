//! JSON values.
use vstd::prelude::*;

use crate::text_map::TextMap;

verus! {

/// A JSON number: whole numbers as integers, any other in its written form.
pub enum Number {
    Unsigned(u64),
    Negative(i64),
    Decimal(String),
}

/// A JSON value.
pub enum Json {
    Null,
    Bool(bool),
    Number(Number),
    Text(String),
    Array(Vec<Json>),
    Object(TextMap<Json>),
}

/// What a number is.
pub ghost enum NumberView {
    Unsigned(u64),
    Negative(i64),
    Decimal(Seq<char>),
}

/// What a JSON value is.
pub ghost enum JsonView {
    Null,
    Bool(bool),
    Number(NumberView),
    Text(Seq<char>),
    Array(Seq<JsonView>),
    Object(Map<Seq<char>, JsonView>),
}

impl View for Number {
    type V = NumberView;

    open spec fn view(&self) -> NumberView {
        match self {
            Number::Unsigned(n) => NumberView::Unsigned(*n),
            Number::Negative(n) => NumberView::Negative(*n),
            Number::Decimal(t) => NumberView::Decimal(t@),
        }
    }
}

spec fn json_view(j: Json) -> JsonView
    decreases j,
{
    match j {
        Json::Null => JsonView::Null,
        Json::Bool(b) => JsonView::Bool(b),
        Json::Number(n) => JsonView::Number(n@),
        Json::Text(t) => JsonView::Text(t@),
        Json::Array(items) => JsonView::Array(array_view(items@)),
        Json::Object(map) => JsonView::Object(object_view(map.entries@)),
    }
}

spec fn array_view(items: Seq<Json>) -> Seq<JsonView>
    decreases items,
{
    if items.len() == 0 {
        Seq::empty()
    } else {
        array_view(items.drop_last()).push(json_view(items.last()))
    }
}

spec fn object_view(entries: Seq<(String, Json)>) -> Map<Seq<char>, JsonView>
    decreases entries,
{
    if entries.len() == 0 {
        Map::empty()
    } else {
        object_view(entries.drop_last()).insert(entries.last().0@, json_view(entries.last().1))
    }
}

impl View for Json {
    type V = JsonView;

    closed spec fn view(&self) -> JsonView {
        json_view(*self)
    }
}

/// The views of a list of values.
pub open spec fn json_views(items: Seq<Json>) -> Seq<JsonView> {
    items.map_values(|j: Json| j@)
}

/// The fields of an object by the views of their values.
pub open spec fn field_views(fields: Map<Seq<char>, Json>) -> Map<Seq<char>, JsonView> {
    Map::new(|k: Seq<char>| fields.contains_key(k), |k: Seq<char>| fields[k]@)
}

/// The value under a key of an object.
pub open spec fn field(v: JsonView, key: Seq<char>) -> Option<JsonView> {
    match v {
        JsonView::Object(m) => if m.contains_key(key) { Some(m[key]) } else { None },
        _ => None,
    }
}

/// The characters of a text value.
pub open spec fn text_in(v: Option<JsonView>) -> Option<Seq<char>> {
    match v {
        Some(JsonView::Text(t)) => Some(t),
        _ => None,
    }
}

/// The text under a key of an object.
pub open spec fn text_field(v: JsonView, key: Seq<char>) -> Option<Seq<char>> {
    text_in(field(v, key))
}

/// The elements of an array value.
pub open spec fn elements(v: Option<JsonView>) -> Option<Seq<JsonView>> {
    match v {
        Some(JsonView::Array(items)) => Some(items),
        _ => None,
    }
}

/// The value of an unsigned whole number.
pub open spec fn unsigned_in(v: Option<JsonView>) -> Option<u64> {
    match v {
        Some(JsonView::Number(NumberView::Unsigned(n))) => Some(n),
        _ => None,
    }
}

/// An object with one more field, or any other value unchanged.
pub open spec fn with_field(v: JsonView, key: Seq<char>, value: JsonView) -> JsonView {
    match v {
        JsonView::Object(m) => JsonView::Object(m.insert(key, value)),
        _ => v,
    }
}

/// An object without a field, or any other value unchanged.
pub open spec fn without_field(v: JsonView, key: Seq<char>) -> JsonView {
    match v {
        JsonView::Object(m) => JsonView::Object(m.remove(key)),
        _ => v,
    }
}

proof fn array_view_is_elementwise(items: Seq<Json>)
    ensures
        array_view(items) =~= json_views(items),
    decreases items.len(),
{
    if items.len() > 0 {
        array_view_is_elementwise(items.drop_last());
        assert(json_views(items.drop_last()) =~= json_views(items).drop_last());
    }
}

proof fn object_view_is_fieldwise(entries: Seq<(String, Json)>)
    requires
        crate::text_map::ascending(crate::text_map::keys_of(entries)),
    ensures
        object_view(entries) =~= field_views(
            crate::text_map::table(
                crate::text_map::keys_of(entries),
                crate::text_map::values_of(entries),
            ),
        ),
    decreases entries.len(),
{
    let keys = crate::text_map::keys_of(entries);
    let values = crate::text_map::values_of(entries);
    crate::text_map::entry_parts(entries);
    crate::text_map::ascending_keys_are_distinct(keys);
    if entries.len() > 0 {
        let short = entries.drop_last();
        let short_keys = crate::text_map::keys_of(short);
        crate::text_map::entry_parts(short);
        assert(short_keys =~= keys.drop_last());
        assert(crate::text_map::values_of(short) =~= values.drop_last());
        object_view_is_fieldwise(short);
        crate::text_map::ascending_keys_are_distinct(short_keys);
        let n = entries.len() as int - 1;
        assert(keys[n] == entries.last().0@);
        assert forall|k: Seq<char>|
            keys.contains(k) == (short_keys.contains(k) || k == keys[n]) by {
            if keys.contains(k) && k != keys[n] {
                let i = keys.index_of(k);
                assert(short_keys[i] == k);
            }
            if short_keys.contains(k) {
                let i = short_keys.index_of(k);
                assert(keys[i] == k);
            }
        }
        assert forall|k: Seq<char>| keys.contains(k) && k != keys[n] implies values[keys.index_of(k)]
            == crate::text_map::values_of(short)[short_keys.index_of(k)] by {
            let i = keys.index_of(k);
            assert(short_keys[i] == k);
            assert(short_keys.index_of(short_keys[i]) == i);
        }
        assert(keys.index_of(keys[n]) == n);
    }
}

impl Clone for Number {
    fn clone(&self) -> (r: Self)
        ensures
            r == *self,
    {
        match self {
            Number::Unsigned(n) => Number::Unsigned(*n),
            Number::Negative(n) => Number::Negative(*n),
            Number::Decimal(t) => Number::Decimal(t.clone()),
        }
    }
}

impl Json {
    /// The null value.
    pub fn null() -> (r: Json)
        ensures
            r@ == JsonView::Null,
    {
        Json::Null
    }

    /// A truth value.
    pub fn boolean(b: bool) -> (r: Json)
        ensures
            r@ == JsonView::Bool(b),
    {
        Json::Bool(b)
    }

    /// An unsigned whole number.
    pub fn unsigned(n: u64) -> (r: Json)
        ensures
            r@ == JsonView::Number(NumberView::Unsigned(n)),
    {
        Json::Number(Number::Unsigned(n))
    }

    /// A whole number.
    pub fn signed(n: i64) -> (r: Json)
        ensures
            r@ == signed_view(n),
    {
        if n >= 0 {
            Json::Number(Number::Unsigned(n as u64))
        } else {
            Json::Number(Number::Negative(n))
        }
    }

    /// A text value.
    pub fn text(t: &str) -> (r: Json)
        ensures
            r@ == JsonView::Text(t@),
    {
        Json::Text(t.to_owned())
    }

    /// A text value, or null where there is none.
    pub fn maybe_text(t: &Option<String>) -> (r: Json)
        ensures
            r@ == maybe_text_view(*t),
    {
        match t {
            Some(t) => Json::text(t.as_str()),
            None => Json::Null,
        }
    }

    /// An array of values.
    pub fn array(items: Vec<Json>) -> (r: Json)
        ensures
            r@ == JsonView::Array(json_views(items@)),
    {
        proof {
            array_view_is_elementwise(items@);
        }
        Json::Array(items)
    }

    /// An object without fields.
    pub fn object() -> (r: Json)
        ensures
            r@ == JsonView::Object(Map::empty()),
    {
        let map: TextMap<Json> = TextMap::new();
        proof {
            use_type_invariant(&map);
            crate::text_map::map_parts(&map);
            object_view_is_fieldwise(map.entries@);
            assert(field_views(map@) =~= Map::<Seq<char>, JsonView>::empty());
        }
        Json::Object(map)
    }

    /// Tells whether the value is an object.
    pub fn is_object(&self) -> (r: bool)
        ensures
            r == (self@ is Object),
    {
        match self {
            Json::Object(_) => true,
            _ => false,
        }
    }

    /// Tells whether the value is null.
    pub fn is_null(&self) -> (r: bool)
        ensures
            r == (self@ is Null),
    {
        match self {
            Json::Null => true,
            _ => false,
        }
    }

    /// The value under a key of an object.
    pub fn get(&self, key: &str) -> (r: Option<&Json>)
        ensures
            match r {
                Some(v) => field(self@, key@) == Some(v@),
                None => field(self@, key@) is None,
            },
    {
        match self {
            Json::Object(map) => {
                proof {
                    use_type_invariant(map);
                    crate::text_map::map_parts(map);
                    object_view_is_fieldwise(map.entries@);
                }
                map.get(key)
            },
            _ => None,
        }
    }

    /// The characters of a text value.
    pub fn as_text(&self) -> (r: Option<&str>)
        ensures
            match r {
                Some(t) => self@ == JsonView::Text(t@),
                None => !(self@ is Text),
            },
    {
        match self {
            Json::Text(t) => Some(t.as_str()),
            _ => None,
        }
    }

    /// The text under a key of an object.
    pub fn get_text(&self, key: &str) -> (r: Option<&str>)
        ensures
            match r {
                Some(t) => text_field(self@, key@) == Some(t@),
                None => text_field(self@, key@) is None,
            },
    {
        match self.get(key) {
            Some(v) => v.as_text(),
            None => None,
        }
    }

    /// The text under a key of an object, copied.
    pub fn get_string(&self, key: &str) -> (r: Option<String>)
        ensures
            crate::text::maybe_view(r) == text_field(self@, key@),
    {
        match self.get_text(key) {
            Some(t) => Some(t.to_owned()),
            None => None,
        }
    }

    /// The truth value.
    pub fn as_bool(&self) -> (r: Option<bool>)
        ensures
            match r {
                Some(b) => self@ == JsonView::Bool(b),
                None => !(self@ is Bool),
            },
    {
        match self {
            Json::Bool(b) => Some(*b),
            _ => None,
        }
    }

    /// The value of an unsigned whole number.
    pub fn as_unsigned(&self) -> (r: Option<u64>)
        ensures
            r == unsigned_in(Some(self@)),
    {
        match self {
            Json::Number(Number::Unsigned(n)) => Some(*n),
            _ => None,
        }
    }

    /// The unsigned whole number under a key of an object.
    pub fn get_unsigned(&self, key: &str) -> (r: Option<u64>)
        ensures
            r == unsigned_in(field(self@, key@)),
    {
        match self.get(key) {
            Some(v) => v.as_unsigned(),
            None => None,
        }
    }

    /// The elements of an array value.
    pub fn as_array(&self) -> (r: Option<&Vec<Json>>)
        ensures
            match r {
                Some(items) => self@ == JsonView::Array(json_views(items@)),
                None => !(self@ is Array),
            },
    {
        match self {
            Json::Array(items) => {
                proof {
                    array_view_is_elementwise(items@);
                }
                Some(items)
            },
            _ => None,
        }
    }

    /// The elements of the array under a key of an object.
    pub fn get_array(&self, key: &str) -> (r: Option<&Vec<Json>>)
        ensures
            match r {
                Some(items) => elements(field(self@, key@)) == Some(json_views(items@)),
                None => elements(field(self@, key@)) is None,
            },
    {
        match self.get(key) {
            Some(v) => v.as_array(),
            None => None,
        }
    }

    /// Puts a value under a key of an object; any other value stays as it is.
    pub fn set(&mut self, key: &str, value: Json)
        ensures
            final(self)@ == with_field(old(self)@, key@, value@),
    {
        let mut taken = Json::Null;
        std::mem::swap(&mut taken, self);
        match taken {
            Json::Object(map) => {
                let mut map = map;
                proof {
                    use_type_invariant(&map);
                    crate::text_map::map_parts(&map);
                    object_view_is_fieldwise(map.entries@);
                }
                let ghost before = map@;
                let ghost v = value@;
                map.insert(key.to_owned(), value);
                proof {
                    use_type_invariant(&map);
                    crate::text_map::map_parts(&map);
                    object_view_is_fieldwise(map.entries@);
                    assert(field_views(map@) =~= field_views(before).insert(key@, v));
                }
                *self = Json::Object(map);
            },
            other => {
                *self = other;
            },
        }
    }

    /// Takes the value under a key out of an object.
    pub fn remove(&mut self, key: &str) -> (r: Option<Json>)
        ensures
            final(self)@ == without_field(old(self)@, key@),
            match r {
                Some(v) => field(old(self)@, key@) == Some(v@),
                None => field(old(self)@, key@) is None,
            },
    {
        let mut taken = Json::Null;
        std::mem::swap(&mut taken, self);
        match taken {
            Json::Object(map) => {
                let mut map = map;
                proof {
                    use_type_invariant(&map);
                    crate::text_map::map_parts(&map);
                    object_view_is_fieldwise(map.entries@);
                }
                let ghost before = map@;
                let removed = map.remove(key);
                proof {
                    use_type_invariant(&map);
                    crate::text_map::map_parts(&map);
                    object_view_is_fieldwise(map.entries@);
                    assert(field_views(map@) =~= field_views(before).remove(key@));
                }
                *self = Json::Object(map);
                removed
            },
            other => {
                *self = other;
                None
            },
        }
    }

    /// Takes the array under a key out of an object; anything else that
    /// stands there is dropped.
    pub fn remove_array(&mut self, key: &str) -> (r: Option<Vec<Json>>)
        ensures
            final(self)@ == without_field(old(self)@, key@),
            match r {
                Some(items) => elements(field(old(self)@, key@)) == Some(json_views(items@)),
                None => elements(field(old(self)@, key@)) is None,
            },
    {
        match self.remove(key) {
            Some(Json::Array(items)) => {
                proof {
                    array_view_is_elementwise(items@);
                }
                Some(items)
            },
            _ => None,
        }
    }
}

/// The value of a whole number.
pub open spec fn signed_view(n: i64) -> JsonView {
    if n >= 0 {
        JsonView::Number(NumberView::Unsigned(n as u64))
    } else {
        JsonView::Number(NumberView::Negative(n))
    }
}

/// The view of an optional text as a JSON value.
pub open spec fn maybe_text_view(t: Option<String>) -> JsonView {
    match t {
        Some(t) => JsonView::Text(t@),
        None => JsonView::Null,
    }
}

/// Copies a list of values.
pub fn clone_values(items: &Vec<Json>) -> (r: Vec<Json>)
    ensures
        json_views(r@) == json_views(items@),
    decreases *items, 1int,
{
    let mut out: Vec<Json> = Vec::new();
    let mut i: usize = 0;
    while i < items.len()
        invariant
            i <= items.len(),
            out@.len() == i,
            forall|j: int| 0 <= j < i ==> (#[trigger] out@[j])@ == items@[j]@,
        decreases items.len() - i,
    {
        assert(decreases_to!(*items => items@[i as int]));
        out.push(clone_json(&items[i]));
        i = i + 1;
    }
    assert(json_views(out@) =~= json_views(items@));
    out
}

/// Copies a value.
pub fn clone_json(value: &Json) -> (r: Json)
    ensures
        r@ == value@,
    decreases *value, 0int,
{
    match value {
        Json::Null => Json::Null,
        Json::Bool(b) => Json::Bool(*b),
        Json::Number(n) => Json::Number(n.clone()),
        Json::Text(t) => Json::Text(t.clone()),
        Json::Array(items) => {
            let out = clone_values(items);
            proof {
                array_view_is_elementwise(items@);
                array_view_is_elementwise(out@);
            }
            Json::Array(out)
        },
        Json::Object(map) => {
            proof {
                use_type_invariant(map);
                crate::text_map::map_parts(map);
            }
            let mut entries: Vec<(String, Json)> = Vec::new();
            let mut i: usize = 0;
            while i < map.entries.len()
                invariant
                    i <= map.entries.len(),
                    *value == Json::Object(*map),
                    entries@.len() == i,
                    forall|j: int|
                        0 <= j < i ==> (#[trigger] entries@[j]).0@ == map.entries@[j].0@,
                    forall|j: int|
                        0 <= j < i ==> (#[trigger] entries@[j]).1@ == map.entries@[j].1@,
                decreases map.entries.len() - i,
            {
                assert(decreases_to!(*value => value->Object_0));
                assert(decreases_to!(*map => map.entries));
                assert(decreases_to!(map.entries => map.entries@));
                assert(decreases_to!(map.entries@ => map.entries@[i as int]));
                assert(decreases_to!(map.entries@[i as int] => map.entries@[i as int].1));
                entries.push((map.entries[i].0.clone(), clone_json(&map.entries[i].1)));
                i = i + 1;
            }
            proof {
                crate::text_map::entry_parts(entries@);
                crate::text_map::entry_parts(map.entries@);
                assert(crate::text_map::keys_of(entries@) =~= crate::text_map::keys_of(
                    map.entries@,
                ));
                object_view_is_fieldwise(entries@);
                object_view_is_fieldwise(map.entries@);
                assert(object_view(entries@) =~= object_view(map.entries@));
            }
            Json::Object(TextMap::from_entries(entries))
        },
    }
}

impl Clone for Json {
    fn clone(&self) -> (r: Self)
        ensures
            r@ == self@,
    {
        clone_json(self)
    }
}

} // verus!
