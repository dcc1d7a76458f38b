//! JSON values as the dispatcher reads and writes them. Parsing and printing
//! are done by `serde_json`; everything that inspects or builds a value is
//! verified code over [`Json`] and its model.

use crate::text::{str_eq, views};
use vstd::prelude::*;

verus! {

/// `serde_json::Value`, kept opaque: what one holds is told by
/// [`value_model`].
#[verifier::external_type_specification]
#[verifier::external_body]
pub struct ExValue(serde_json::Value);

/// A JSON value. A number is kept as its decimal text; an object is kept as its
/// entries in order.
#[derive(Debug)]
pub enum Json {
    Null,
    Bool(bool),
    Number(String),
    Str(String),
    Array(Vec<Json>),
    Object(Vec<(String, Json)>),
}

/// The mathematical value of a [`Json`].
pub enum JsonModel {
    Null,
    Bool(bool),
    Number(Seq<char>),
    Str(Seq<char>),
    Array(Seq<JsonModel>),
    Object(Seq<(Seq<char>, JsonModel)>),
}

impl Json {
    /// The mathematical value.
    pub open spec fn model(&self) -> JsonModel
        decreases self,
    {
        match self {
            Json::Null => JsonModel::Null,
            Json::Bool(b) => JsonModel::Bool(*b),
            Json::Number(n) => JsonModel::Number(n@),
            Json::Str(s) => JsonModel::Str(s@),
            Json::Array(a) => JsonModel::Array(
                Seq::new(
                    a@.len(),
                    |i: int|
                        if 0 <= i < a@.len() {
                            a@[i].model()
                        } else {
                            JsonModel::Null
                        },
                ),
            ),
            Json::Object(m) => JsonModel::Object(
                Seq::new(
                    m@.len(),
                    |i: int|
                        if 0 <= i < m@.len() {
                            (m@[i].0@, m@[i].1.model())
                        } else {
                            (Seq::empty(), JsonModel::Null)
                        },
                ),
            ),
        }
    }
}

impl View for Json {
    type V = JsonModel;

    open spec fn view(&self) -> JsonModel {
        self.model()
    }
}

/// The models of a vector of values.
pub open spec fn items_model(a: Seq<Json>) -> Seq<JsonModel> {
    Seq::new(a.len(), |i: int| a[i]@)
}

/// The models of a vector of object entries.
pub open spec fn entries_model(m: Seq<(String, Json)>) -> Seq<(Seq<char>, JsonModel)> {
    Seq::new(m.len(), |i: int| (m[i].0@, m[i].1@))
}

/// The value of the first entry named `key`.
pub open spec fn lookup(entries: Seq<(Seq<char>, JsonModel)>, key: Seq<char>) -> Option<JsonModel>
    decreases entries.len(),
{
    if entries.len() == 0 {
        None
    } else if entries[0].0 == key {
        Some(entries[0].1)
    } else {
        lookup(entries.drop_first(), key)
    }
}

impl JsonModel {
    /// The member `key` of an object; `None` for a missing member and for
    /// anything that is no object.
    pub open spec fn field(self, key: Seq<char>) -> Option<JsonModel> {
        match self {
            JsonModel::Object(entries) => lookup(entries, key),
            _ => None,
        }
    }

    /// The member `key`, or `Null` where [`Self::field`] has none.
    pub open spec fn member(self, key: Seq<char>) -> JsonModel {
        match self.field(key) {
            Some(v) => v,
            None => JsonModel::Null,
        }
    }

    /// The text of a string value.
    pub open spec fn text(self) -> Option<Seq<char>> {
        match self {
            JsonModel::Str(s) => Some(s),
            _ => None,
        }
    }

    /// The flag of a boolean value.
    pub open spec fn flag(self) -> Option<bool> {
        match self {
            JsonModel::Bool(b) => Some(b),
            _ => None,
        }
    }

    /// The text of a string value, or the empty text.
    pub open spec fn text_or_empty(self) -> Seq<char> {
        match self {
            JsonModel::Str(s) => s,
            _ => Seq::empty(),
        }
    }
}

/// The model of an array holds the models of its items.
pub proof fn lemma_array_view(a: Vec<Json>)
    ensures
        Json::Array(a)@ == JsonModel::Array(items_model(a@)),
{
    assert(Json::Array(a)@->Array_0 =~= items_model(a@));
}

/// The model of an object holds its entries, each as name and model.
pub proof fn lemma_object_view(m: Vec<(String, Json)>)
    ensures
        Json::Object(m)@ == JsonModel::Object(entries_model(m@)),
{
    reveal_with_fuel(Json::model, 2);
    assert(Json::Object(m)@->Object_0 =~= entries_model(m@));
}

proof fn lemma_lookup_skip(entries: Seq<(Seq<char>, JsonModel)>, key: Seq<char>, i: int)
    requires
        0 <= i < entries.len(),
        lookup(entries, key) == lookup(entries.skip(i), key),
        entries[i].0 != key,
    ensures
        lookup(entries, key) == lookup(entries.skip(i + 1), key),
{
    assert(entries.skip(i).drop_first() == entries.skip(i + 1));
}

impl Json {
    /// A string value.
    pub fn string(s: &str) -> (j: Json)
        ensures
            j@ == JsonModel::Str(s@),
    {
        Json::Str(s.to_string())
    }

    /// A number value holding the numeral `digits`. Nothing is asked of the
    /// numeral here: where the value is printed, one that is no JSON number
    /// is printed as `null`.
    pub fn number(digits: &str) -> (j: Json)
        ensures
            j@ == JsonModel::Number(digits@),
    {
        Json::Number(digits.to_string())
    }

    /// An array of the given items.
    pub fn array(items: Vec<Json>) -> (j: Json)
        ensures
            j@ == JsonModel::Array(items_model(items@)),
    {
        proof {
            lemma_array_view(items);
        }
        Json::Array(items)
    }

    /// An object of the given entries, in their order.
    pub fn object(entries: Vec<(String, Json)>) -> (j: Json)
        ensures
            j@ == JsonModel::Object(entries_model(entries@)),
    {
        proof {
            lemma_object_view(entries);
        }
        Json::Object(entries)
    }

    /// The member `key` of an object.
    pub fn get(&self, key: &str) -> (r: Option<&Json>)
        ensures
            match r {
                Some(j) => self@.field(key@) == Some(j@),
                None => self@.field(key@) is None,
            },
    {
        match self {
            Json::Object(entries) => {
                proof {
                    lemma_object_view(*entries);
                    assert(entries_model(entries@).skip(0) == entries_model(entries@));
                }
                let mut i: usize = 0;
                while i < entries.len()
                    invariant
                        i <= entries.len(),
                        self@ == JsonModel::Object(entries_model(entries@)),
                        lookup(entries_model(entries@), key@) == lookup(
                            entries_model(entries@).skip(i as int),
                            key@,
                        ),
                    decreases entries.len() - i,
                {
                    if str_eq(entries[i].0.as_str(), key) {
                        return Some(&entries[i].1);
                    }
                    proof {
                        lemma_lookup_skip(entries_model(entries@), key@, i as int);
                    }
                    i += 1;
                }
                None
            },
            _ => None,
        }
    }

    /// The text of a string value.
    pub fn as_str(&self) -> (r: Option<&str>)
        ensures
            match r {
                Some(s) => self@.text() == Some(s@),
                None => self@.text() is None,
            },
    {
        match self {
            Json::Str(s) => Some(s.as_str()),
            _ => None,
        }
    }

    /// The flag of a boolean value.
    pub fn as_bool(&self) -> (r: Option<bool>)
        ensures
            r == self@.flag(),
    {
        match self {
            Json::Bool(b) => Some(*b),
            _ => None,
        }
    }

    /// The items of an array.
    pub fn as_array(&self) -> (r: Option<&Vec<Json>>)
        ensures
            match r {
                Some(a) => self@ == JsonModel::Array(items_model(a@)),
                None => !(self@ is Array),
            },
    {
        match self {
            Json::Array(a) => {
                proof {
                    lemma_array_view(*a);
                }
                Some(a)
            },
            _ => None,
        }
    }

    /// Whether the value is `null`.
    pub fn is_null(&self) -> (r: bool)
        ensures
            r == (self@ is Null),
    {
        match self {
            Json::Null => true,
            _ => false,
        }
    }

    /// Whether the value is an object.
    pub fn is_object(&self) -> (r: bool)
        ensures
            r == (self@ is Object),
    {
        match self {
            Json::Object(_) => true,
            _ => false,
        }
    }

    /// A deep copy.
    pub fn duplicate(&self) -> (r: Json)
        ensures
            r@ == self@,
        decreases self,
    {
        match self {
            Json::Null => Json::Null,
            Json::Bool(b) => Json::Bool(*b),
            Json::Number(n) => Json::Number(n.clone()),
            Json::Str(s) => Json::Str(s.clone()),
            Json::Array(a) => {
                let mut out: Vec<Json> = Vec::new();
                let mut i: usize = 0;
                while i < a.len()
                    invariant
                        i <= a.len(),
                        self == Json::Array(*a),
                        out@.len() == i,
                        forall|k: int| 0 <= k < i ==> out@[k]@ == a@[k]@,
                    decreases a.len() - i,
                {
                    assert(self->Array_0 == *a);
                    assert(decreases_to!(self => self->Array_0));
                    assert(decreases_to!(*a => a[i as int]));
                    out.push(a[i].duplicate());
                    i += 1;
                }
                proof {
                    lemma_array_view(*a);
                    lemma_array_view(out);
                    assert(items_model(out@) =~= items_model(a@));
                }
                Json::Array(out)
            },
            Json::Object(m) => {
                let mut out: Vec<(String, Json)> = Vec::new();
                let mut i: usize = 0;
                while i < m.len()
                    invariant
                        i <= m.len(),
                        self == Json::Object(*m),
                        out@.len() == i,
                        forall|k: int|
                            0 <= k < i ==> out@[k].0@ == m@[k].0@ && out@[k].1@ == m@[k].1@,
                    decreases m.len() - i,
                {
                    assert(self->Object_0 == *m);
                    assert(decreases_to!(self => self->Object_0));
                    assert(decreases_to!(*m => m[i as int]));
                    assert(decreases_to!(m[i as int] => m[i as int].1));
                    out.push((m[i].0.clone(), m[i].1.duplicate()));
                    i += 1;
                }
                proof {
                    lemma_object_view(*m);
                    lemma_object_view(out);
                    assert(entries_model(out@) =~= entries_model(m@));
                }
                Json::Object(out)
            },
        }
    }
}

impl Clone for Json {
    fn clone(&self) -> (r: Json)
        ensures
            r@ == self@,
    {
        self.duplicate()
    }
}

/// An array of string values.
pub open spec fn text_array(items: Seq<Seq<char>>) -> JsonModel {
    JsonModel::Array(Seq::new(items.len(), |i: int| JsonModel::Str(items[i])))
}

/// A string value, or `null`.
pub open spec fn text_or_null(text: Option<Seq<char>>) -> JsonModel {
    match text {
        Some(s) => JsonModel::Str(s),
        None => JsonModel::Null,
    }
}

/// The array of the given strings.
pub fn strings(items: &Vec<String>) -> (j: Json)
    ensures
        j@ == text_array(views(items@)),
{
    let mut out: Vec<Json> = Vec::new();
    let mut i: usize = 0;
    while i < items.len()
        invariant
            i <= items.len(),
            out@.len() == i,
            forall|k: int| 0 <= k < i ==> (#[trigger] out@[k])@ == JsonModel::Str(items@[k]@),
        decreases items.len() - i,
    {
        out.push(Json::Str(items[i].clone()));
        i += 1;
    }
    proof {
        assert(items_model(out@) =~= Seq::new(
            views(items@).len(),
            |i: int| JsonModel::Str(views(items@)[i]),
        ));
    }
    Json::array(out)
}

/// The string, or `null` where there is none.
pub fn optional_string(text: &Option<String>) -> (j: Json)
    ensures
        j@ == text_or_null(
            match text {
                Some(s) => Some(s@),
                None => None,
            },
        ),
{
    match text {
        Some(s) => Json::Str(s.clone()),
        None => Json::Null,
    }
}

/// The array of one string.
pub fn string_list1(a: &str) -> (j: Json)
    ensures
        j@ == JsonModel::Array(seq![JsonModel::Str(a@)]),
{
    let v = vec![Json::string(a)];
    assert(items_model(v@) =~= seq![JsonModel::Str(a@)]);
    Json::array(v)
}

/// The array of two strings.
pub fn string_list2(a: &str, b: &str) -> (j: Json)
    ensures
        j@ == JsonModel::Array(seq![JsonModel::Str(a@), JsonModel::Str(b@)]),
{
    let v = vec![Json::string(a), Json::string(b)];
    assert(items_model(v@) =~= seq![JsonModel::Str(a@), JsonModel::Str(b@)]);
    Json::array(v)
}

/// The array of four strings.
pub fn string_list4(a: &str, b: &str, c: &str, d: &str) -> (j: Json)
    ensures
        j@ == JsonModel::Array(
            seq![JsonModel::Str(a@), JsonModel::Str(b@), JsonModel::Str(c@), JsonModel::Str(d@)],
        ),
{
    let v = vec![Json::string(a), Json::string(b), Json::string(c), Json::string(d)];
    assert(items_model(v@) =~= seq![
        JsonModel::Str(a@),
        JsonModel::Str(b@),
        JsonModel::Str(c@),
        JsonModel::Str(d@),
    ]);
    Json::array(v)
}

/// The object without entries.
pub fn object0() -> (j: Json)
    ensures
        j@ == JsonModel::Object(Seq::empty()),
{
    let v: Vec<(String, Json)> = Vec::new();
    assert(entries_model(v@) =~= Seq::empty());
    Json::object(v)
}

/// The object of one entry.
pub fn object1(a: (String, Json)) -> (j: Json)
    ensures
        j@ == JsonModel::Object(seq![(a.0@, a.1@)]),
{
    let v = vec![a];
    assert(entries_model(v@) =~= seq![(a.0@, a.1@)]);
    Json::object(v)
}

/// The object of two entries.
pub fn object2(a: (String, Json), b: (String, Json)) -> (j: Json)
    ensures
        j@ == JsonModel::Object(seq![(a.0@, a.1@), (b.0@, b.1@)]),
{
    let v = vec![a, b];
    assert(entries_model(v@) =~= seq![(a.0@, a.1@), (b.0@, b.1@)]);
    Json::object(v)
}

/// The object of three entries.
pub fn object3(a: (String, Json), b: (String, Json), c: (String, Json)) -> (j: Json)
    ensures
        j@ == JsonModel::Object(seq![(a.0@, a.1@), (b.0@, b.1@), (c.0@, c.1@)]),
{
    let v = vec![a, b, c];
    assert(entries_model(v@) =~= seq![(a.0@, a.1@), (b.0@, b.1@), (c.0@, c.1@)]);
    Json::object(v)
}

/// The object of four entries.
pub fn object4(a: (String, Json), b: (String, Json), c: (String, Json), d: (String, Json)) -> (j:
    Json)
    ensures
        j@ == JsonModel::Object(seq![(a.0@, a.1@), (b.0@, b.1@), (c.0@, c.1@), (d.0@, d.1@)]),
{
    let v = vec![a, b, c, d];
    assert(entries_model(v@) =~= seq![(a.0@, a.1@), (b.0@, b.1@), (c.0@, c.1@), (d.0@, d.1@)]);
    Json::object(v)
}

/// An object entry.
pub fn entry(key: &str, value: Json) -> (e: (String, Json))
    ensures
        e.0@ == key@,
        e.1@ == value@,
{
    (key.to_string(), value)
}

/// What a parsed `serde_json::Value` holds: its scalars, its array items in
/// order, its object entries in the order in which its map walks them, a number
/// as the numeral that the value prints for it.
pub uninterp spec fn value_model(v: serde_json::Value) -> JsonModel;

/// What `serde_json::from_str::<Value>` returns for a text: the value's model,
/// or the error's message.
pub uninterp spec fn parse_outcome(text: Seq<char>) -> Result<JsonModel, Seq<char>>;

/// The model of the `serde_json::Value` built from a [`Json`]: an object's
/// entries go into the value's map one after the other; a numeral is parsed by
/// `serde_json`, and one that it does not read as a number stands as `null`.
pub uninterp spec fn value_built(m: JsonModel) -> JsonModel;

/// The compact text that a `serde_json::Value` prints as.
pub uninterp spec fn rendered(m: JsonModel) -> Seq<char>;

/// `serde_json::from_str::<Value>`; an error is handed back as its message.
#[verifier::external_body]
fn parse_value(text: &str) -> (r: Result<serde_json::Value, String>)
    ensures
        match r {
            Ok(v) => parse_outcome(text@) == Ok::<JsonModel, Seq<char>>(value_model(v)),
            Err(e) => parse_outcome(text@) == Err::<JsonModel, Seq<char>>(e@),
        },
{
    match serde_json::from_str::<serde_json::Value>(text) {
        Ok(v) => Ok(v),
        Err(e) => Err(e.to_string()),
    }
}

/// Takes a `serde_json::Value` apart, variant by variant, into a [`Json`].
#[verifier::external_body]
fn json_of_value(v: serde_json::Value) -> (j: Json)
    ensures
        j@ == value_model(v),
{
    match v {
        serde_json::Value::Null => Json::Null,
        serde_json::Value::Bool(b) => Json::Bool(b),
        serde_json::Value::Number(n) => Json::Number(n.to_string()),
        serde_json::Value::String(s) => Json::Str(s),
        serde_json::Value::Array(a) => Json::Array(a.into_iter().map(json_of_value).collect()),
        serde_json::Value::Object(m) => Json::Object(
            m.into_iter().map(|(k, x)| (k, json_of_value(x))).collect(),
        ),
    }
}

/// Builds the `serde_json::Value` for a [`Json`], variant by variant. A numeral
/// that `serde_json` does not read as a number becomes `null`.
#[verifier::external_body]
fn value_of_json(j: &Json) -> (v: serde_json::Value)
    ensures
        value_model(v) == value_built(j@),
{
    match j {
        Json::Null => serde_json::Value::Null,
        Json::Bool(b) => serde_json::Value::Bool(*b),
        Json::Number(n) => n.parse().map_or(serde_json::Value::Null, serde_json::Value::Number),
        Json::Str(s) => serde_json::Value::String(s.clone()),
        Json::Array(a) => serde_json::Value::Array(a.iter().map(value_of_json).collect()),
        Json::Object(m) => serde_json::Value::Object(
            m.iter().map(|e| (e.0.clone(), value_of_json(&e.1))).collect(),
        ),
    }
}

/// `Value::to_string`: the compact JSON text of the value.
#[verifier::external_body]
fn value_text(v: &serde_json::Value) -> (r: String)
    ensures
        r@ == rendered(value_model(*v)),
{
    v.to_string()
}

/// The indented text that a `serde_json::Value` prints as.
pub uninterp spec fn rendered_pretty(m: JsonModel) -> Seq<char>;

/// `format!("{:#}", value)`: the JSON text of the value, indented by two
/// spaces a level.
#[verifier::external_body]
fn value_text_pretty(v: &serde_json::Value) -> (r: String)
    ensures
        r@ == rendered_pretty(value_model(*v)),
{
    format!("{:#}", v)
}

/// Prints a value as indented JSON text.
pub fn render_pretty(j: &Json) -> (r: String)
    ensures
        r@ == rendered_pretty(value_built(j@)),
{
    let v = value_of_json(j);
    value_text_pretty(&v)
}

/// Parses one JSON text.
pub fn parse(text: &str) -> (r: Result<Json, String>)
    ensures
        match r {
            Ok(j) => parse_outcome(text@) == Ok::<JsonModel, Seq<char>>(j@),
            Err(e) => parse_outcome(text@) == Err::<JsonModel, Seq<char>>(e@),
        },
{
    match parse_value(text) {
        Ok(v) => Ok(json_of_value(v)),
        Err(e) => Err(e),
    }
}

/// Prints a value as compact JSON text.
pub fn render(j: &Json) -> (r: String)
    ensures
        r@ == rendered(value_built(j@)),
{
    let v = value_of_json(j);
    value_text(&v)
}

} // verus!
