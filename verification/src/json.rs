use vstd::prelude::*;

verus! {

/// serde_json's number type, carried through a document unchanged.
#[verifier::external_type_specification]
#[verifier::external_body]
pub struct ExNumber(serde_json::Number);

/// A JSON document, such as a debug launch configuration.
///
/// An object keeps its fields in order; where a key occurs more than once,
/// the first occurrence is the one that is read and written.
#[derive(Debug, PartialEq)]
pub enum JsonValue {
    Null,
    Bool(bool),
    Number(serde_json::Number),
    String(String),
    Array(Vec<JsonValue>),
    Object(Vec<(String, JsonValue)>),
}

/// The mathematical value of a [`JsonValue`]. An object is its keys and its
/// values, position by position.
pub enum Json {
    Null,
    Bool(bool),
    Number(serde_json::Number),
    Str(Seq<char>),
    Array(Seq<Json>),
    Object { keys: Seq<Seq<char>>, values: Seq<Json> },
}

impl View for JsonValue {
    type V = Json;

    open spec fn view(&self) -> Json
        decreases self,
    {
        match self {
            JsonValue::Null => Json::Null,
            JsonValue::Bool(b) => Json::Bool(*b),
            JsonValue::Number(n) => Json::Number(*n),
            JsonValue::String(s) => Json::Str(s@),
            JsonValue::Array(items) => Json::Array(
                Seq::new(
                    items.len() as nat,
                    |i: int|
                        if 0 <= i < items.len() {
                            items@[i].view()
                        } else {
                            Json::Null
                        },
                ),
            ),
            JsonValue::Object(fields) => Json::Object {
                keys: Seq::new(fields.len() as nat, |i: int| fields@[i].0@),
                values: Seq::new(
                    fields.len() as nat,
                    |i: int|
                        if 0 <= i < fields.len() {
                            fields@[i].1.view()
                        } else {
                            Json::Null
                        },
                ),
            },
        }
    }
}

/// The views of a sequence of JSON values, element by element.
pub open spec fn items_view(items: Seq<JsonValue>) -> Seq<Json> {
    Seq::new(items.len(), |i: int| items[i]@)
}

/// The keys of an object's fields, in order.
pub open spec fn keys_view(fields: Seq<(String, JsonValue)>) -> Seq<Seq<char>> {
    Seq::new(fields.len(), |i: int| fields[i].0@)
}

/// The views of an object's values, in order.
pub open spec fn values_view(fields: Seq<(String, JsonValue)>) -> Seq<Json> {
    Seq::new(fields.len(), |i: int| fields[i].1@)
}

/// `i` is the position of the first key equal to `key`.
pub open spec fn is_first_key(keys: Seq<Seq<char>>, key: Seq<char>, i: int) -> bool {
    &&& 0 <= i < keys.len()
    &&& keys[i] == key
    &&& forall|j: int| 0 <= j < i ==> keys[j] != key
}

/// The position of the first key equal to `key`, if there is one.
pub open spec fn key_index(keys: Seq<Seq<char>>, key: Seq<char>) -> Option<int> {
    if exists|i: int| is_first_key(keys, key, i) {
        Some(choose|i: int| is_first_key(keys, key, i))
    } else {
        None
    }
}

impl Json {
    /// The value of the field `key` of an object; `None` for a missing field or a
    /// value that is not an object.
    pub open spec fn get(self, key: Seq<char>) -> Option<Json> {
        match self {
            Json::Object { keys, values } => match key_index(keys, key) {
                Some(i) => Some(values[i]),
                None => None,
            },
            _ => None,
        }
    }

    /// The object with its field `key` set to `value`: replaced in place where the
    /// key is present, appended where it is not. Values that are not objects are
    /// left as they are.
    pub open spec fn set_field(self, key: Seq<char>, value: Json) -> Json {
        match self {
            Json::Object { keys, values } => match key_index(keys, key) {
                Some(i) => Json::Object { keys, values: values.update(i, value) },
                None => Json::Object { keys: keys.push(key), values: values.push(value) },
            },
            _ => self,
        }
    }

    /// No key of an object occurs twice (as in every object that serde_json
    /// holds); values that are not objects have no keys to repeat.
    pub open spec fn has_unique_keys(self) -> bool {
        match self {
            Json::Object { keys, .. } => forall|i: int, j: int|
                0 <= i < j < keys.len() ==> #[trigger] keys[i] != #[trigger] keys[j],
            _ => true,
        }
    }

    /// An object whose keys and values line up one to one.
    pub open spec fn is_object(self) -> bool {
        self matches Json::Object { keys, values } && keys.len() == values.len()
    }
}

/// A key lookup finds the first occurrence of its key.
pub proof fn lemma_key_index_first(keys: Seq<Seq<char>>, key: Seq<char>, i: int)
    requires
        is_first_key(keys, key, i),
    ensures
        key_index(keys, key) == Some(i),
{
    let k = choose|k: int| is_first_key(keys, key, k);
    if k < i {
        assert(keys[k] != key);
    } else if i < k {
        assert(keys[i] != key);
    }
}

/// A key lookup fails where no key is equal to the one looked up.
pub proof fn lemma_key_index_none(keys: Seq<Seq<char>>, key: Seq<char>)
    requires
        forall|j: int| 0 <= j < keys.len() ==> keys[j] != key,
    ensures
        key_index(keys, key) is None,
{
}

/// Where some key is equal to the one looked up, the lookup succeeds.
pub proof fn lemma_key_index_some(keys: Seq<Seq<char>>, key: Seq<char>, j: int)
    requires
        0 <= j < keys.len(),
        keys[j] == key,
    ensures
        key_index(keys, key) is Some,
    decreases j,
{
    if forall|k: int| 0 <= k < j ==> keys[k] != key {
        assert(is_first_key(keys, key, j));
    } else {
        let k = choose|k: int| 0 <= k < j && keys[k] == key;
        lemma_key_index_some(keys, key, k);
    }
}

/// Setting a field of an object and then reading it gives back the value written.
pub proof fn lemma_get_set_same(v: Json, key: Seq<char>, value: Json)
    requires
        v.is_object(),
    ensures
        v.set_field(key, value).get(key) == Some(value),
        v.set_field(key, value).is_object(),
{
    let keys = v->keys;
    match key_index(keys, key) {
        Some(i) => {
            assert(is_first_key(keys, key, i));
        },
        None => {
            assert forall|j: int| 0 <= j < keys.len() implies keys[j] != key by {
                if keys[j] == key {
                    lemma_key_index_some(keys, key, j);
                }
            }
            let nk = keys.push(key);
            assert(is_first_key(nk, key, keys.len() as int));
            lemma_key_index_first(nk, key, keys.len() as int);
        },
    }
}

/// Reading a field of an object gives the value at the first position whose key
/// is the one read, and nothing where no key is.
pub proof fn lemma_get_reads_first_occurrence(keys: Seq<Seq<char>>, values: Seq<Json>, key: Seq<char>)
    ensures
        forall|i: int|
            0 <= i < keys.len() && i < values.len() && keys[i] == key && (forall|j: int|
                0 <= j < i ==> keys[j] != key) ==> (Json::Object { keys, values }).get(key) == Some(
                #[trigger] values[i],
            ),
        (forall|j: int| 0 <= j < keys.len() ==> keys[j] != key) ==> (Json::Object {
            keys,
            values,
        }).get(key) is None,
{
    assert forall|i: int|
        0 <= i < keys.len() && i < values.len() && keys[i] == key && (forall|j: int|
            0 <= j < i ==> keys[j] != key) implies (Json::Object { keys, values }).get(key) == Some(
        #[trigger] values[i],
    ) by {
        assert(is_first_key(keys, key, i));
        lemma_key_index_first(keys, key, i);
    }
}

/// Setting a field keeps the keys of an object unique.
pub proof fn lemma_set_field_keeps_unique_keys(v: Json, key: Seq<char>, value: Json)
    requires
        v.has_unique_keys(),
    ensures
        v.set_field(key, value).has_unique_keys(),
{
    if let Json::Object { keys, values } = v {
        if key_index(keys, key) is None {
            assert forall|j: int| 0 <= j < keys.len() implies keys[j] != key by {
                if keys[j] == key {
                    lemma_key_index_some(keys, key, j);
                }
            }
            let nk = keys.push(key);
            assert forall|i: int, j: int| 0 <= i < j < nk.len() implies #[trigger] nk[i] != #[trigger] nk[j] by {
                if j == keys.len() {
                    assert(nk[i] == keys[i]);
                } else {
                    assert(keys[i] != keys[j]);
                }
            }
        }
    }
}

/// Setting one field of an object leaves every other field as it was.
pub proof fn lemma_get_set_other(v: Json, key: Seq<char>, value: Json, other: Seq<char>)
    requires
        v.is_object(),
        other != key,
    ensures
        v.set_field(key, value).get(other) == v.get(other),
{
    let keys = v->keys;
    let nk = v.set_field(key, value)->keys;
    assert(forall|j: int| 0 <= j < keys.len() ==> #[trigger] nk[j] == keys[j]);
    match key_index(keys, other) {
        Some(o) => {
            assert(is_first_key(keys, other, o));
            assert(is_first_key(nk, other, o));
            lemma_key_index_first(nk, other, o);
        },
        None => {
            assert forall|j: int| 0 <= j < nk.len() implies nk[j] != other by {
                if j < keys.len() && keys[j] == other {
                    lemma_key_index_some(keys, other, j);
                }
            }
        },
    }
}

impl JsonValue {
    /// The view of an array is the sequence of its items' views.
    pub proof fn lemma_array_view(items: Vec<JsonValue>)
        ensures
            JsonValue::Array(items)@ == Json::Array(items_view(items@)),
    {
        assert(JsonValue::Array(items)@->Array_0 =~= items_view(items@));
    }

    /// The view of an object is its keys and the views of its values.
    pub proof fn lemma_object_view(fields: Vec<(String, JsonValue)>)
        ensures
            JsonValue::Object(fields)@ == (Json::Object {
                keys: keys_view(fields@),
                values: values_view(fields@),
            }),
            JsonValue::Object(fields)@.is_object(),
    {
        let v = JsonValue::Object(fields)@;
        assert(v->keys =~= keys_view(fields@));
        assert(v->values =~= values_view(fields@));
    }

    /// The position of the first field named `key` in a list of object fields.
    pub fn field_index(fields: &Vec<(String, JsonValue)>, key: &String) -> (r: Option<usize>)
        ensures
            r matches Some(i) ==> key_index(keys_view(fields@), key@) == Some(i as int),
            r is None ==> key_index(keys_view(fields@), key@) is None,
    {
        let ghost keys = keys_view(fields@);
        let mut i: usize = 0;
        while i < fields.len()
            invariant
                i <= fields.len(),
                keys == keys_view(fields@),
                forall|j: int| 0 <= j < i ==> keys[j] != key@,
            decreases fields.len() - i,
        {
            if fields[i].0 == *key {
                proof {
                    assert(is_first_key(keys, key@, i as int));
                    lemma_key_index_first(keys, key@, i as int);
                }
                return Some(i);
            }
            i += 1;
        }
        proof {
            lemma_key_index_none(keys, key@);
        }
        None
    }

    /// The value of the field `key` of an object; `None` for a missing field or a
    /// value that is not an object.
    pub fn get(&self, key: &str) -> (r: Option<&JsonValue>)
        ensures
            r is None <==> self@.get(key@) is None,
            r matches Some(v) ==> self@.get(key@) == Some(v@),
    {
        match self {
            JsonValue::Object(fields) => {
                proof {
                    JsonValue::lemma_object_view(*fields);
                }
                let key = key.to_owned();
                match JsonValue::field_index(fields, &key) {
                    Some(i) => Some(&fields[i].1),
                    None => None,
                }
            },
            _ => None,
        }
    }

    /// The string held in the field `key` of an object, if that field holds a string.
    pub fn get_str(&self, key: &String) -> (r: Option<String>)
        ensures
            r is Some <==> self@.get(key@) matches Some(Json::Str(_)),
            r matches Some(s) ==> self@.get(key@) == Some(Json::Str(s@)),
    {
        match self {
            JsonValue::Object(fields) => {
                proof {
                    JsonValue::lemma_object_view(*fields);
                }
                match JsonValue::field_index(fields, key) {
                    Some(i) => match &fields[i].1 {
                        JsonValue::String(s) => Some(s.clone()),
                        _ => None,
                    },
                    None => None,
                }
            },
            _ => None,
        }
    }
}

} // verus!
