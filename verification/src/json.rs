//! JSON values: the tree that protocol frames are made of, its readers, and
//! the conversion from and to text.

use crate::text::str_eq;
use serde_json::Value;
use vstd::prelude::*;

verus! {

broadcast use vstd::string::group_string_axioms;

/// The text of a number that is neither a signed nor an unsigned 64-bit
/// integer, as it is written out. Only reading a number makes one.
#[derive(Debug, PartialEq)]
pub struct FloatText {
    text: String,
}

impl View for FloatText {
    type V = Seq<char>;

    closed spec fn view(&self) -> Seq<char> {
        self.text@
    }
}

/// A JSON value. Of two entries of an object with the same key the later one
/// counts.
#[derive(Debug, PartialEq)]
pub enum Json {
    Null,
    Bool(bool),
    PosInt(u64),
    NegInt(i64),
    Float(FloatText),
    Str(String),
    Array(Vec<Json>),
    Object(Vec<(String, Json)>),
}

/// What a JSON value is.
pub enum JsonModel {
    Null,
    Bool(bool),
    Int(int),
    Float(Seq<char>),
    Str(Seq<char>),
    Array(Seq<JsonModel>),
    Object(Map<Seq<char>, JsonModel>),
}

/// What `value` is.
pub open spec fn model(value: Json) -> JsonModel
    decreases value,
{
    match value {
        Json::Null => JsonModel::Null,
        Json::Bool(b) => JsonModel::Bool(b),
        Json::PosInt(n) => JsonModel::Int(n as int),
        Json::NegInt(n) => JsonModel::Int(n as int),
        Json::Float(text) => JsonModel::Float(text@),
        Json::Str(text) => JsonModel::Str(text@),
        Json::Array(items) => JsonModel::Array(models(items@)),
        Json::Object(entries) => JsonModel::Object(entry_map(entries@)),
    }
}

/// What each of `items` is.
pub open spec fn models(items: Seq<Json>) -> Seq<JsonModel>
    decreases items,
{
    if items.len() == 0 {
        Seq::empty()
    } else {
        models(items.drop_last()).push(model(items.last()))
    }
}

/// What the entries of an object hold for each key.
pub open spec fn entry_map(entries: Seq<(String, Json)>) -> Map<Seq<char>, JsonModel>
    decreases entries,
{
    if entries.len() == 0 {
        Map::empty()
    } else {
        entry_map(entries.drop_last()).insert(entries.last().0@, model(entries.last().1))
    }
}

impl View for Json {
    type V = JsonModel;

    open spec fn view(&self) -> JsonModel {
        model(*self)
    }
}

impl DeepView for Json {
    type V = JsonModel;

    open spec fn deep_view(&self) -> JsonModel {
        model(*self)
    }
}

impl JsonModel {
    /// The value of `key`, where this is an object that has it.
    pub open spec fn get(self, key: Seq<char>) -> Option<JsonModel> {
        match self {
            JsonModel::Object(entries) => if entries.dom().contains(key) {
                Some(entries[key])
            } else {
                None
            },
            _ => None,
        }
    }

    /// The first item of an array, or the value of key `0` of an object.
    pub open spec fn first(self) -> Option<JsonModel> {
        match self {
            JsonModel::Array(items) => if items.len() > 0 {
                Some(items[0])
            } else {
                None
            },
            _ => self.get("0"@),
        }
    }

    pub open spec fn as_str(self) -> Option<Seq<char>> {
        match self {
            JsonModel::Str(text) => Some(text),
            _ => None,
        }
    }

    pub open spec fn as_bool(self) -> Option<bool> {
        match self {
            JsonModel::Bool(b) => Some(b),
            _ => None,
        }
    }

    pub open spec fn as_i64(self) -> Option<i64> {
        match self {
            JsonModel::Int(n) => if i64::MIN <= n <= i64::MAX {
                Some(n as i64)
            } else {
                None
            },
            _ => None,
        }
    }

    pub open spec fn as_u64(self) -> Option<u64> {
        match self {
            JsonModel::Int(n) => if 0 <= n <= u64::MAX {
                Some(n as u64)
            } else {
                None
            },
            _ => None,
        }
    }

    pub open spec fn as_array(self) -> Option<Seq<JsonModel>> {
        match self {
            JsonModel::Array(items) => Some(items),
            _ => None,
        }
    }

    /// The string that an object holds for `key`.
    pub open spec fn str_at(self, key: Seq<char>) -> Option<Seq<char>> {
        match self.get(key) {
            Some(value) => value.as_str(),
            None => None,
        }
    }

    /// The object that this is with `key` set to `value`.
    pub open spec fn with(self, key: Seq<char>, value: JsonModel) -> JsonModel {
        match self {
            JsonModel::Object(entries) => JsonModel::Object(entries.insert(key, value)),
            _ => self,
        }
    }

    /// The object that this is without any of `keys`; anything else stays.
    pub open spec fn without(self, keys: Seq<Seq<char>>) -> JsonModel {
        match self {
            JsonModel::Object(entries) => JsonModel::Object(
                entries.restrict(entries.dom().filter(|key: Seq<char>| !keys.contains(key))),
            ),
            _ => self,
        }
    }
}

/// The value of `key` in what may be an object.
pub open spec fn get_in(value: Option<JsonModel>, key: Seq<char>) -> Option<JsonModel> {
    match value {
        Some(value) => value.get(key),
        None => None,
    }
}

/// The string that what may be an object holds for `key`.
pub open spec fn str_in(value: Option<JsonModel>, key: Seq<char>) -> Option<Seq<char>> {
    match value {
        Some(value) => value.str_at(key),
        None => None,
    }
}

/// An object without entries.
pub open spec fn object_model() -> JsonModel {
    JsonModel::Object(Map::empty())
}

proof fn lemma_models_index(items: Seq<Json>)
    ensures
        models(items).len() == items.len(),
        forall|i: int| 0 <= i < items.len() ==> #[trigger] models(items)[i] == model(items[i]),
    decreases items.len(),
{
    if items.len() > 0 {
        lemma_models_index(items.drop_last());
        assert forall|i: int| 0 <= i < items.len() implies #[trigger] models(items)[i] == model(
            items[i],
        ) by {
            if i < items.len() - 1 {
                assert(models(items.drop_last())[i] == model(items.drop_last()[i]));
            }
        }
    }
}

proof fn lemma_models_are_the_deep_view(items: Vec<Json>)
    ensures
        items.deep_view() == models(items@),
{
    lemma_models_index(items@);
    assert(items.deep_view() =~= models(items@));
}

/// The value of `key` in the first `len` entries: the last one counts.
fn last_entry<'a>(entries: &'a Vec<(String, Json)>, key: &str) -> (found: Option<&'a Json>)
    ensures
        found.deep_view() == JsonModel::Object(entry_map(entries@)).get(key@),
{
    let mut len: usize = entries.len();
    assert(entries@.take(entries@.len() as int) =~= entries@);
    while len > 0
        invariant
            len <= entries@.len(),
            JsonModel::Object(entry_map(entries@)).get(key@) == JsonModel::Object(
                entry_map(entries@.take(len as int)),
            ).get(key@),
        decreases len,
    {
        let ghost prefix = entries@.take(len as int);
        assert(prefix.drop_last() =~= entries@.take(len - 1));
        assert(prefix.last() == entries@[len - 1]);
        if str_eq(entries[len - 1].0.as_str(), key) {
            return Some(&entries[len - 1].1);
        }
        len = len - 1;
    }
    None
}

impl Json {
    /// The value of `key`, where this is an object that has it.
    pub fn get(&self, key: &str) -> (found: Option<&Json>)
        ensures
            found.deep_view() == self@.get(key@),
    {
        match self {
            Json::Object(entries) => last_entry(entries, key),
            _ => None,
        }
    }

    /// The first item of an array, or the value of key `0` of an object: what
    /// the reference token `0` of a JSON pointer leads to.
    pub fn first(&self) -> (found: Option<&Json>)
        ensures
            found.deep_view() == self@.first(),
    {
        match self {
            Json::Array(items) => {
                proof {
                    lemma_models_index(items@);
                }
                if items.len() > 0 {
                    Some(&items[0])
                } else {
                    None
                }
            },
            _ => self.get("0"),
        }
    }

    pub fn as_str(&self) -> (text: Option<&str>)
        ensures
            text.deep_view() == self@.as_str(),
    {
        match self {
            Json::Str(text) => Some(text.as_str()),
            _ => None,
        }
    }

    pub fn as_bool(&self) -> (value: Option<bool>)
        ensures
            value == self@.as_bool(),
    {
        match self {
            Json::Bool(value) => Some(*value),
            _ => None,
        }
    }

    pub fn as_i64(&self) -> (number: Option<i64>)
        ensures
            number == self@.as_i64(),
    {
        match self {
            Json::PosInt(n) => if *n <= i64::MAX as u64 {
                Some(*n as i64)
            } else {
                None
            },
            Json::NegInt(n) => Some(*n),
            _ => None,
        }
    }

    pub fn as_u64(&self) -> (number: Option<u64>)
        ensures
            number == self@.as_u64(),
    {
        match self {
            Json::PosInt(n) => Some(*n),
            Json::NegInt(n) => if *n >= 0 {
                Some(*n as u64)
            } else {
                None
            },
            _ => None,
        }
    }

    pub fn as_array(&self) -> (items: Option<&Vec<Json>>)
        ensures
            items.deep_view() == self@.as_array(),
    {
        match self {
            Json::Array(items) => {
                proof {
                    lemma_models_are_the_deep_view(*items);
                }
                Some(items)
            },
            _ => None,
        }
    }

    /// The string that an object holds for `key`.
    pub fn str_at(&self, key: &str) -> (text: Option<&str>)
        ensures
            text.deep_view() == self@.str_at(key@),
    {
        match self.get(key) {
            Some(value) => value.as_str(),
            None => None,
        }
    }

    /// An object without entries.
    pub fn object() -> (value: Json)
        ensures
            value@ == object_model(),
    {
        Json::Object(Vec::new())
    }

    /// A string value.
    pub fn text(text: &str) -> (value: Json)
        ensures
            value@ == JsonModel::Str(text@),
    {
        Json::Str(text.to_owned())
    }

    /// This object with `key` set to `value`.
    pub fn with(self, key: &str, value: Json) -> (changed: Json)
        ensures
            changed@ == self@.with(key@, value@),
    {
        match self {
            Json::Object(entries) => {
                let mut entries = entries;
                let ghost before = entries@;
                entries.push((key.to_owned(), value));
                assert(entries@.drop_last() =~= before);
                Json::Object(entries)
            },
            other => other,
        }
    }

    /// This object without any of `keys`; anything else stays as it is.
    pub fn without(&self, keys: &Vec<String>) -> (kept: Json)
        ensures
            kept@ == self@.without(keys.deep_view()),
    {
        match self {
            Json::Object(entries) => {
                let mut kept: Vec<(String, Json)> = Vec::new();
                let mut i: usize = 0;
                let ghost flagged = keys.deep_view();
                assert(entry_map(kept@) =~= entry_map(entries@.take(0)).restrict(
                    entry_map(entries@.take(0)).dom().filter(
                        |key: Seq<char>| !flagged.contains(key),
                    ),
                ));
                while i < entries.len()
                    invariant
                        i <= entries@.len(),
                        flagged == keys.deep_view(),
                        entry_map(kept@) == entry_map(entries@.take(i as int)).restrict(
                            entry_map(entries@.take(i as int)).dom().filter(
                                |key: Seq<char>| !flagged.contains(key),
                            ),
                        ),
                    decreases entries@.len() - i,
                {
                    let ghost prefix = entries@.take(i + 1);
                    let ghost before = kept@;
                    let key = entries[i].0.as_str();
                    assert(prefix.drop_last() =~= entries@.take(i as int));
                    assert(prefix.last() == entries@[i as int]);
                    if !holds(keys, key) {
                        kept.push((key.to_owned(), entries[i].1.clone()));
                        assert(kept@.drop_last() =~= before);
                    }
                    assert(entry_map(kept@) =~= entry_map(prefix).restrict(
                        entry_map(prefix).dom().filter(|key: Seq<char>| !flagged.contains(key)),
                    ));
                    i = i + 1;
                }
                assert(entries@.take(entries@.len() as int) =~= entries@);
                Json::Object(kept)
            },
            other => other.clone(),
        }
    }
}

/// The value of `key` in what may be an object.
pub fn json_at<'a>(value: Option<&'a Json>, key: &str) -> (found: Option<&'a Json>)
    ensures
        found.deep_view() == get_in(value.deep_view(), key@),
{
    match value {
        Some(value) => value.get(key),
        None => None,
    }
}

/// The string that what may be an object holds for `key`.
pub fn text_at<'a>(value: Option<&'a Json>, key: &str) -> (found: Option<&'a str>)
    ensures
        found.deep_view() == str_in(value.deep_view(), key@),
{
    match value {
        Some(value) => value.str_at(key),
        None => None,
    }
}

/// Adds one more item to the items of an array.
pub fn push_item(items: &mut Vec<Json>, item: Json)
    ensures
        models(final(items)@) == models(old(items)@).push(item@),
{
    let ghost before = items@;
    items.push(item);
    assert(items@.drop_last() =~= before);
}

/// Whether `wanted` is one of `texts`.
pub fn holds(texts: &Vec<String>, wanted: &str) -> (found: bool)
    ensures
        found == texts.deep_view().contains(wanted@),
{
    let mut i: usize = 0;
    while i < texts.len()
        invariant
            i <= texts@.len(),
            forall|j: int| 0 <= j < i ==> #[trigger] texts.deep_view()[j] != wanted@,
        decreases texts@.len() - i,
    {
        if str_eq(texts[i].as_str(), wanted) {
            assert(texts.deep_view()[i as int] == wanted@);
            return true;
        }
        i = i + 1;
    }
    false
}

impl Clone for FloatText {
    fn clone(&self) -> (copy: Self)
        ensures
            copy@ == self@,
    {
        FloatText { text: self.text.clone() }
    }
}

impl Clone for Json {
    fn clone(&self) -> (copy: Self)
        ensures
            copy@ == self@,
        decreases self,
    {
        match self {
            Json::Null => Json::Null,
            Json::Bool(b) => Json::Bool(*b),
            Json::PosInt(n) => Json::PosInt(*n),
            Json::NegInt(n) => Json::NegInt(*n),
            Json::Float(text) => Json::Float(text.clone()),
            Json::Str(text) => Json::Str(text.clone()),
            Json::Array(items) => {
                let mut copies: Vec<Json> = Vec::new();
                let mut i: usize = 0;
                while i < items.len()
                    invariant
                        i <= items@.len(),
                        *self == Json::Array(*items),
                        models(copies@) == models(items@.take(i as int)),
                    decreases items@.len() - i,
                {
                    let ghost before = copies@;
                    assert(decreases_to!(*self => self->Array_0));
                    assert(decreases_to!(self->Array_0 => items@));
                    assert(decreases_to!(items@ => items@[i as int]));
                    copies.push(items[i].clone());
                    assert(copies@.drop_last() =~= before);
                    assert(items@.take(i + 1).drop_last() =~= items@.take(i as int));
                    i = i + 1;
                }
                assert(items@.take(items@.len() as int) =~= items@);
                Json::Array(copies)
            },
            Json::Object(entries) => {
                let mut copies: Vec<(String, Json)> = Vec::new();
                let mut i: usize = 0;
                while i < entries.len()
                    invariant
                        i <= entries@.len(),
                        *self == Json::Object(*entries),
                        entry_map(copies@) == entry_map(entries@.take(i as int)),
                    decreases entries@.len() - i,
                {
                    let ghost before = copies@;
                    assert(decreases_to!(*self => self->Object_0));
                    assert(decreases_to!(self->Object_0 => entries@));
                    assert(decreases_to!(entries@ => entries@[i as int]));
                    assert(decreases_to!(entries@[i as int] => entries@[i as int].1));
                    copies.push((entries[i].0.clone(), entries[i].1.clone()));
                    assert(copies@.drop_last() =~= before);
                    assert(entries@.take(i + 1).drop_last() =~= entries@.take(i as int));
                    i = i + 1;
                }
                assert(entries@.take(entries@.len() as int) =~= entries@);
                Json::Object(copies)
            },
        }
    }
}

#[verifier::external_type_specification]
#[verifier::external_body]
pub struct ExValue(serde_json::Value);

/// What a `serde_json::Value` holds.
pub uninterp spec fn value_content(value: Value) -> JsonModel;

/// What `serde_json::from_str` makes of a text: a value, or the text of its
/// error.
pub uninterp spec fn read_text(text: Seq<char>) -> Result<JsonModel, Seq<char>>;

/// What `serde_json::from_slice` makes of bytes: a value, or the text of its
/// error.
pub uninterp spec fn read_bytes(bytes: Seq<u8>) -> Result<JsonModel, Seq<char>>;

/// What `serde_json::to_string` writes for a value that holds `content`.
pub uninterp spec fn json_text(content: JsonModel) -> Seq<char>;

/// What `serde_json::to_string_pretty` writes for a value that holds
/// `content`.
pub uninterp spec fn pretty_text(content: JsonModel) -> Seq<char>;

/// Calls `serde_json::from_str`. Its result, value or error text, depends on
/// the text alone.
#[verifier::external_body]
fn value_from_str(text: &str) -> (read: Result<Value, String>)
    ensures
        (match read {
            Ok(value) => Ok::<JsonModel, Seq<char>>(value_content(value)),
            Err(error) => Err(error@),
        }) == read_text(text@),
{
    serde_json::from_str::<Value>(text).map_err(|error| error.to_string())
}

/// Calls `serde_json::from_slice`. Its result, value or error text, depends on
/// the bytes alone.
#[verifier::external_body]
fn value_from_slice(bytes: &[u8]) -> (read: Result<Value, String>)
    ensures
        (match read {
            Ok(value) => Ok::<JsonModel, Seq<char>>(value_content(value)),
            Err(error) => Err(error@),
        }) == read_bytes(bytes@),
{
    serde_json::from_slice::<Value>(bytes).map_err(|error| error.to_string())
}

/// Moves the content of a `serde_json::Value`, variant by variant, into a
/// [`Json`]. A number is taken by `Number::as_u64`, else by `Number::as_i64`,
/// else as the text it is displayed as.
#[verifier::external_body]
fn json_from_value(value: Value) -> (json: Json)
    ensures
        json@ == value_content(value),
{
    match value {
        Value::Null => Json::Null,
        Value::Bool(b) => Json::Bool(b),
        Value::Number(n) => match (n.as_u64(), n.as_i64()) {
            (Some(n), _) => Json::PosInt(n),
            (_, Some(n)) => Json::NegInt(n),
            _ => Json::Float(FloatText { text: n.to_string() }),
        },
        Value::String(s) => Json::Str(s),
        Value::Array(a) => Json::Array(a.into_iter().map(json_from_value).collect()),
        Value::Object(o) => Json::Object(
            o.into_iter().map(|(k, v)| (k, json_from_value(v))).collect(),
        ),
    }
}

/// Moves the content of a [`Json`], variant by variant, into a
/// `serde_json::Value`. The text of a number that is no integer goes back
/// through `Number::from_f64`: such a text was written for a finite number, so
/// it reads as the same one again.
#[verifier::external_body]
fn value_from_json(json: Json) -> (value: Value)
    ensures
        value_content(value) == json@,
{
    match json {
        Json::Null => Value::Null,
        Json::Bool(b) => Value::Bool(b),
        Json::PosInt(n) => Value::Number(n.into()),
        Json::NegInt(n) => Value::Number(n.into()),
        Json::Float(f) => Value::Number(
            serde_json::Number::from_f64(f.text.parse().unwrap_or_default()).unwrap_or(0.into()),
        ),
        Json::Str(s) => Value::String(s),
        Json::Array(a) => Value::Array(a.into_iter().map(value_from_json).collect()),
        Json::Object(o) => Value::Object(
            o.into_iter().map(|(k, v)| (k, value_from_json(v))).collect(),
        ),
    }
}

/// Calls `serde_json::to_string`. Writing a `Value` into memory does not fail,
/// and the text depends on what the value holds alone: keys come in their
/// order. The text is one line: it holds no line feed, since a string is
/// written with its control characters escaped and nothing else brings one in.
#[verifier::external_body]
fn value_to_string(value: &Value) -> (text: Option<String>)
    ensures
        text is Some,
        text->0@ == json_text(value_content(*value)),
        !text->0@.contains('\n'),
{
    serde_json::to_string(value).ok()
}

/// Calls `serde_json::to_string_pretty`. Writing a `Value` into memory does
/// not fail, and the text depends on what the value holds alone.
#[verifier::external_body]
fn value_to_string_pretty(value: &Value) -> (text: Option<String>)
    ensures
        text is Some,
        text->0@ == pretty_text(value_content(*value)),
{
    serde_json::to_string_pretty(value).ok()
}

/// What reading a text or bytes gave, over models.
pub open spec fn read_model(read: Result<Json, String>) -> Result<JsonModel, Seq<char>> {
    match read {
        Ok(value) => Ok(value@),
        Err(error) => Err(error@),
    }
}

impl Json {
    /// Reads a JSON text. The error says what is wrong with it.
    pub fn read(text: &str) -> (read: Result<Json, String>)
        ensures
            read_model(read) == read_text(text@),
    {
        match value_from_str(text) {
            Ok(value) => Ok(json_from_value(value)),
            Err(error) => Err(error),
        }
    }

    /// Reads a JSON text given as bytes. The error says what is wrong with it.
    pub fn read_slice(bytes: &[u8]) -> (read: Result<Json, String>)
        ensures
            read_model(read) == read_bytes(bytes@),
    {
        match value_from_slice(bytes) {
            Ok(value) => Ok(json_from_value(value)),
            Err(error) => Err(error),
        }
    }

    /// This value as one line of JSON text.
    pub fn render(&self) -> (text: String)
        ensures
            text@ == json_text(self@),
            !text@.contains('\n'),
    {
        value_to_string(&value_from_json(self.clone())).unwrap()
    }

    /// This value as indented JSON text.
    pub fn render_pretty(&self) -> (text: String)
        ensures
            text@ == pretty_text(self@),
    {
        value_to_string_pretty(&value_from_json(self.clone())).unwrap()
    }
}

/// Whether `value` is an object that holds `inner` for `key`.
pub open spec fn has_member(value: JsonModel, key: Seq<char>, inner: JsonModel) -> bool {
    value matches JsonModel::Object(entries) && entries.dom().contains(key) && entries[key] == inner
}

/// Looking a key up gives exactly the member that the object has for it, and
/// nothing of a value that is no object; as a text it gives exactly a string
/// member, character for character.
pub proof fn law_lookup_gives_the_member(
    value: JsonModel,
    key: Seq<char>,
    inner: JsonModel,
    text: Seq<char>,
)
    ensures
        value.get(key) == Some(inner) <==> has_member(value, key, inner),
        value.str_at(key) == Some(text) <==> has_member(value, key, JsonModel::Str(text)),
        get_in(Some(value), key) == Some(inner) <==> has_member(value, key, inner),
        get_in(None, key) is None,
        str_in(Some(value), key) == Some(text) <==> has_member(value, key, JsonModel::Str(text)),
        str_in(None, key) is None,
{
}

/// A value is read as a text, a truth value, a number or a list exactly when it
/// is one, and then as it is; a number only where it fits.
pub proof fn law_values_are_read_as_they_are(
    value: JsonModel,
    text: Seq<char>,
    truth: bool,
    signed: i64,
    unsigned: u64,
    items: Seq<JsonModel>,
)
    ensures
        value.as_str() == Some(text) <==> value == JsonModel::Str(text),
        value.as_bool() == Some(truth) <==> value == JsonModel::Bool(truth),
        value.as_i64() == Some(signed) <==> value == JsonModel::Int(signed as int),
        value.as_u64() == Some(unsigned) <==> value == JsonModel::Int(unsigned as int),
        value.as_array() == Some(items) <==> value == JsonModel::Array(items),
        items.len() > 0 ==> JsonModel::Array(items).first() == Some(items[0]),
        items.len() == 0 ==> JsonModel::Array(items).first() is None,
        !(value is Array) ==> value.first() == value.get("0"@),
{
}

/// Setting a key of an object changes that member and no other, and makes no
/// object of anything else.
pub proof fn law_setting_a_key_changes_that_member(
    value: JsonModel,
    key: Seq<char>,
    inner: JsonModel,
    other: Seq<char>,
    held: JsonModel,
)
    ensures
        value is Object ==> has_member(value.with(key, inner), key, inner),
        value is Object && other != key ==> (has_member(value.with(key, inner), other, held)
            <==> has_member(value, other, held)),
        !(value is Object) ==> value.with(key, inner) == value,
        !has_member(object_model(), other, held),
        object_model() is Object,
{
}

/// Taking keys away takes those members and no others.
pub proof fn law_taking_keys_away_leaves_the_others(
    value: JsonModel,
    keys: Seq<Seq<char>>,
    key: Seq<char>,
    inner: JsonModel,
)
    ensures
        has_member(value.without(keys), key, inner) <==> has_member(value, key, inner)
            && !keys.contains(key),
        !(value is Object) ==> value.without(keys) == value,
{
}

/// A value is modelled by what it holds: scalars by themselves, a list item by
/// item, and an object by its entries, of which the later of two with the same
/// key counts.
pub proof fn law_a_value_is_what_it_holds(
    value: Json,
    entries: Seq<(String, Json)>,
    key: Seq<char>,
    at: int,
)
    ensures
        match value {
            Json::Null => value@ == JsonModel::Null,
            Json::Bool(truth) => value@ == JsonModel::Bool(truth),
            Json::PosInt(n) => value@ == JsonModel::Int(n as int),
            Json::NegInt(n) => value@ == JsonModel::Int(n as int),
            Json::Float(text) => value@ == JsonModel::Float(text@),
            Json::Str(text) => value@ == JsonModel::Str(text@),
            Json::Array(items) => value@ matches JsonModel::Array(held) && {
                &&& held.len() == items@.len()
                &&& forall|i: int| 0 <= i < held.len() ==> #[trigger] held[i] == items@[i]@
            },
            Json::Object(held) => value@ == JsonModel::Object(entry_map(held@)),
        },
        0 <= at < entries.len() && entries[at].0@ == key && (forall|i: int|
            at < i < entries.len() ==> (#[trigger] entries[i]).0@ != key) ==> entry_map(
            entries,
        ).dom().contains(key) && entry_map(entries)[key] == entries[at].1@,
        (forall|i: int| 0 <= i < entries.len() ==> (#[trigger] entries[i]).0@ != key)
            ==> !entry_map(entries).dom().contains(key),
    decreases entries.len(),
{
    match value {
        Json::Array(items) => {
            lemma_models_index(items@);
        },
        _ => {},
    }
    if entries.len() > 0 {
        let rest = entries.drop_last();
        law_a_value_is_what_it_holds(value, rest, key, at);
        if forall|i: int| 0 <= i < entries.len() ==> (#[trigger] entries[i]).0@ != key {
            assert forall|i: int| 0 <= i < rest.len() implies (#[trigger] rest[i]).0@ != key by {
                assert(entries[i].0@ != key);
            }
            assert(entries[entries.len() - 1].0@ != key);
        }
        if 0 <= at < entries.len() - 1 && (forall|i: int|
            at < i < entries.len() ==> (#[trigger] entries[i]).0@ != key) {
            assert(entries[entries.len() - 1].0@ != key);
            assert forall|i: int| at < i < rest.len() implies (#[trigger] rest[i]).0@ != key by {
                assert(entries[i].0@ != key);
            }
        }
    }
}

/// What was read is what reading gave: the value, or the error's text.
pub proof fn law_a_read_is_its_value_or_its_error(read: Result<Json, String>)
    ensures
        read matches Ok(value) ==> read_model(read) == Ok::<JsonModel, Seq<char>>(value@),
        read matches Err(error) ==> read_model(read) == Err::<JsonModel, Seq<char>>(error@),
{
}

} // verus!
