//! JSON values as the tools read and write them.

use vstd::prelude::*;

verus! {

/// A JSON number: a non-negative integer, a negative integer, or a finite
/// binary floating-point number kept as its 64 bits.
#[derive(Clone, Copy, Debug, PartialEq, Eq)]
pub enum JsonNumber {
    Unsigned(u64),
    Signed(i64),
    FloatBits(u64),
}

/// A JSON value. An object keeps its members in order; a key is looked up
/// from the front.
#[derive(Debug, PartialEq, Eq)]
pub enum JsonValue {
    Null,
    Bool(bool),
    Number(JsonNumber),
    Text(String),
    Array(Vec<JsonValue>),
    Object(Vec<(String, JsonValue)>),
}

/// The mathematical form of a JSON value.
pub enum JsonModel {
    Null,
    Bool(bool),
    Number(JsonNumber),
    Text(Seq<char>),
    Array(Seq<JsonModel>),
    Object(Seq<(Seq<char>, JsonModel)>),
}

/// The model of a value.
pub open spec fn value_model(v: JsonValue) -> JsonModel
    decreases v,
{
    match v {
        JsonValue::Null => JsonModel::Null,
        JsonValue::Bool(b) => JsonModel::Bool(b),
        JsonValue::Number(n) => JsonModel::Number(n),
        JsonValue::Text(s) => JsonModel::Text(s@),
        JsonValue::Array(items) => JsonModel::Array(items_view(items@)),
        JsonValue::Object(fields) => JsonModel::Object(fields_view(fields@)),
    }
}

/// The models of the values of an array.
pub open spec fn items_view(items: Seq<JsonValue>) -> Seq<JsonModel>
    decreases items,
{
    if items.len() == 0 {
        Seq::empty()
    } else {
        items_view(items.drop_last()).push(value_model(items.last()))
    }
}

/// The models of the members of an object.
pub open spec fn fields_view(fields: Seq<(String, JsonValue)>) -> Seq<(Seq<char>, JsonModel)>
    decreases fields,
{
    if fields.len() == 0 {
        Seq::empty()
    } else {
        fields_view(fields.drop_last()).push((fields.last().0@, value_model(fields.last().1)))
    }
}

impl View for JsonValue {
    type V = JsonModel;

    open spec fn view(&self) -> JsonModel {
        value_model(*self)
    }
}

/// `items_view` maps index by index.
pub proof fn lemma_items_view(items: Seq<JsonValue>)
    ensures
        items_view(items).len() == items.len(),
        forall|i: int| 0 <= i < items.len() ==> #[trigger] items_view(items)[i] == items[i]@,
    decreases items.len(),
{
    if items.len() > 0 {
        lemma_items_view(items.drop_last());
    }
}

/// `fields_view` maps index by index.
pub proof fn lemma_fields_view(fields: Seq<(String, JsonValue)>)
    ensures
        fields_view(fields).len() == fields.len(),
        forall|i: int|
            0 <= i < fields.len() ==> #[trigger] fields_view(fields)[i] == (
                fields[i].0@,
                fields[i].1@,
            ),
    decreases fields.len(),
{
    if fields.len() > 0 {
        lemma_fields_view(fields.drop_last());
    }
}

/// The value of the first member named `key`, if there is one.
pub open spec fn spec_lookup(fields: Seq<(Seq<char>, JsonModel)>, key: Seq<char>) -> Option<
    JsonModel,
>
    decreases fields.len(),
{
    if fields.len() == 0 {
        None
    } else if fields[0].0 == key {
        Some(fields[0].1)
    } else {
        spec_lookup(fields.drop_first(), key)
    }
}

/// The index of the first member named `key`, or the number of members.
pub open spec fn spec_position(fields: Seq<(Seq<char>, JsonModel)>, key: Seq<char>) -> int
    decreases fields.len(),
{
    if fields.len() == 0 {
        0
    } else if fields[0].0 == key {
        0
    } else {
        1 + spec_position(fields.drop_first(), key)
    }
}

/// `spec_position` is the first index that holds the key, and `spec_lookup`
/// gives the value there.
pub proof fn lemma_position(fields: Seq<(Seq<char>, JsonModel)>, key: Seq<char>)
    ensures
        0 <= spec_position(fields, key) <= fields.len(),
        forall|k: int| 0 <= k < spec_position(fields, key) ==> fields[k].0 != key,
        spec_position(fields, key) < fields.len() ==> fields[spec_position(fields, key)].0 == key
            && spec_lookup(fields, key) == Some(fields[spec_position(fields, key)].1),
        spec_position(fields, key) == fields.len() ==> spec_lookup(fields, key) is None,
    decreases fields.len(),
{
    if fields.len() > 0 && fields[0].0 != key {
        let rest = fields.drop_first();
        lemma_position(rest, key);
        assert forall|k: int| 0 <= k < spec_position(fields, key) implies fields[k].0 != key by {
            if k > 0 {
                assert(rest[k - 1] == fields[k]);
            }
        }
        let p = spec_position(rest, key);
        if p < rest.len() {
            assert(rest[p] == fields[p + 1]);
        }
    }
}

/// The index of the first member of `fields` named `key`, or the length.
pub fn position_of(fields: &Vec<(String, JsonValue)>, key: &str) -> (at: usize)
    ensures
        at == spec_position(fields_view(fields@), key@),
        at <= fields.len(),
{
    let ghost model = fields_view(fields@);
    proof {
        lemma_fields_view(fields@);
    }
    let wanted = crate::text::chars_of(key);
    let mut i: usize = 0;
    while i < fields.len()
        invariant
            i <= fields.len(),
            wanted@ == key@,
            model == fields_view(fields@),
            model.len() == fields.len(),
            forall|k: int| 0 <= k < fields.len() ==> #[trigger] model[k] == (
                fields@[k].0@,
                fields@[k].1@,
            ),
            forall|k: int| 0 <= k < i ==> model[k].0 != key@,
        decreases fields.len() - i,
    {
        let name = crate::text::chars_of(fields[i].0.as_str());
        if crate::text::same_chars(name.as_slice(), wanted.as_slice()) {
            assert(model[i as int].0 == key@);
            let ghost p = spec_position(model, key@);
            assert(p == i) by {
                lemma_position(model, key@);
                if 0 <= p < i {
                    assert(model[p].0 == key@);
                }
            }
            return i;
        }
        assert(model[i as int].0 != key@);
        i += 1;
    }
    assert(spec_position(model, key@) == i) by {
        let p = spec_position(model, key@);
        lemma_position(model, key@);
        if 0 <= p < i {
            assert(model[p].0 == key@);
        }
    }
    i
}

/// Looks up the first member of `fields` named `key`.
pub fn lookup<'a>(fields: &'a Vec<(String, JsonValue)>, key: &str) -> (found: Option<
    &'a JsonValue,
>)
    ensures
        match found {
            Some(v) => spec_lookup(fields_view(fields@), key@) == Some(v@),
            None => spec_lookup(fields_view(fields@), key@) is None,
        },
{
    proof {
        lemma_position(fields_view(fields@), key@);
        lemma_fields_view(fields@);
    }
    let at = position_of(fields, key);
    if at < fields.len() {
        Some(&fields[at].1)
    } else {
        None
    }
}

impl JsonNumber {
    /// The number as an unsigned integer, where it is one.
    pub open spec fn spec_as_u64(self) -> Option<u64> {
        match self {
            JsonNumber::Unsigned(n) => Some(n),
            _ => None,
        }
    }
}

impl JsonModel {
    /// The text of a string value.
    pub open spec fn as_text(self) -> Option<Seq<char>> {
        match self {
            JsonModel::Text(s) => Some(s),
            _ => None,
        }
    }

    /// The truth value of a boolean.
    pub open spec fn as_bool(self) -> Option<bool> {
        match self {
            JsonModel::Bool(b) => Some(b),
            _ => None,
        }
    }

    /// The value of a number that is a non-negative integer.
    pub open spec fn as_u64(self) -> Option<u64> {
        match self {
            JsonModel::Number(n) => n.spec_as_u64(),
            _ => None,
        }
    }

    /// The member of an object named `key`.
    pub open spec fn get(self, key: Seq<char>) -> Option<JsonModel> {
        match self {
            JsonModel::Object(fields) => spec_lookup(fields, key),
            _ => None,
        }
    }

    /// The JSON type of the value, by name.
    pub open spec fn kind_name(self) -> Seq<char> {
        match self {
            JsonModel::Text(_) => "string"@,
            JsonModel::Number(_) => "number"@,
            JsonModel::Bool(_) => "boolean"@,
            JsonModel::Array(_) => "array"@,
            JsonModel::Object(_) => "object"@,
            JsonModel::Null => "null"@,
        }
    }
}

impl JsonValue {
    /// A string value with the characters of `s`.
    pub fn text(s: &str) -> (value: JsonValue)
        ensures
            value@ == JsonModel::Text(s@),
    {
        JsonValue::Text(s.to_owned())
    }

    /// A string value with the given characters.
    pub fn text_of(chars: &[char]) -> (value: JsonValue)
        ensures
            value@ == JsonModel::Text(chars@),
    {
        JsonValue::Text(crate::text::string_of(chars))
    }

    /// The number `n`.
    pub fn unsigned(n: u64) -> (value: JsonValue)
        ensures
            value@ == JsonModel::Number(JsonNumber::Unsigned(n)),
    {
        JsonValue::Number(JsonNumber::Unsigned(n))
    }

    /// The number `n`, or null where there is none.
    pub fn optional_unsigned(n: Option<u64>) -> (value: JsonValue)
        ensures
            value@ == match n {
                Some(k) => JsonModel::Number(JsonNumber::Unsigned(k)),
                None => JsonModel::Null,
            },
    {
        match n {
            Some(k) => JsonValue::Number(JsonNumber::Unsigned(k)),
            None => JsonValue::Null,
        }
    }

    /// The text of a string value.
    pub fn as_text(&self) -> (text: Option<&String>)
        ensures
            match text {
                Some(s) => self@.as_text() == Some(s@),
                None => self@.as_text() is None,
            },
    {
        match self {
            JsonValue::Text(s) => Some(s),
            _ => None,
        }
    }

    /// The truth value of a boolean.
    pub fn as_bool(&self) -> (b: Option<bool>)
        ensures
            b == self@.as_bool(),
    {
        match self {
            JsonValue::Bool(b) => Some(*b),
            _ => None,
        }
    }

    /// The value of a number that is a non-negative integer.
    pub fn as_u64(&self) -> (n: Option<u64>)
        ensures
            n == self@.as_u64(),
    {
        match self {
            JsonValue::Number(JsonNumber::Unsigned(n)) => Some(*n),
            _ => None,
        }
    }

    /// The member of an object named `key`.
    pub fn get(&self, key: &str) -> (found: Option<&JsonValue>)
        ensures
            match found {
                Some(v) => self@.get(key@) == Some(v@),
                None => self@.get(key@) is None,
            },
    {
        match self {
            JsonValue::Object(fields) => {
                lookup(fields, key)
            },
            _ => None,
        }
    }

    /// The JSON type of the value, by name.
    pub fn kind_name(&self) -> (name: &'static str)
        ensures
            name@ == self@.kind_name(),
    {
        match self {
            JsonValue::Text(_) => "string",
            JsonValue::Number(_) => "number",
            JsonValue::Bool(_) => "boolean",
            JsonValue::Array(_) => "array",
            JsonValue::Object(_) => "object",
            JsonValue::Null => "null",
        }
    }

    /// A copy of the value.
    pub fn duplicate(&self) -> (copy: JsonValue)
        ensures
            copy@ == self@,
        decreases self,
    {
        match self {
            JsonValue::Null => JsonValue::Null,
            JsonValue::Bool(b) => JsonValue::Bool(*b),
            JsonValue::Number(n) => JsonValue::Number(*n),
            JsonValue::Text(s) => JsonValue::Text(s.clone()),
            JsonValue::Array(items) => {
                let out = duplicate_items(items);
                JsonValue::Array(out)
            },
            JsonValue::Object(fields) => {
                let out = duplicate_fields(fields);
                JsonValue::Object(out)
            },
        }
    }
}

impl Clone for JsonValue {
    fn clone(&self) -> (copy: Self)
        ensures
            copy@ == self@,
    {
        self.duplicate()
    }
}

/// A copy of the items of an array.
pub fn duplicate_items(items: &Vec<JsonValue>) -> (copy: Vec<JsonValue>)
    ensures
        items_view(copy@) == items_view(items@),
    decreases items,
{
    let mut out: Vec<JsonValue> = Vec::new();
    let mut i: usize = 0;
    while i < items.len()
        invariant
            i <= items.len(),
            out.len() == i,
            forall|k: int| 0 <= k < i ==> out@[k]@ == items@[k]@,
        decreases items.len() - i,
    {
        out.push(items[i].duplicate());
        i += 1;
    }
    proof {
        lemma_items_view(out@);
        lemma_items_view(items@);
    }
    assert(items_view(out@) =~= items_view(items@));
    out
}

/// A copy of the members of an object.
pub fn duplicate_fields(fields: &Vec<(String, JsonValue)>) -> (copy: Vec<(String, JsonValue)>)
    ensures
        fields_view(copy@) == fields_view(fields@),
    decreases fields,
{
    let mut out: Vec<(String, JsonValue)> = Vec::new();
    let mut i: usize = 0;
    while i < fields.len()
        invariant
            i <= fields.len(),
            out.len() == i,
            forall|k: int|
                0 <= k < i ==> out@[k].0@ == fields@[k].0@ && out@[k].1@ == fields@[k].1@,
        decreases fields.len() - i,
    {
        out.push((fields[i].0.clone(), fields[i].1.duplicate()));
        i += 1;
    }
    proof {
        lemma_fields_view(out@);
        lemma_fields_view(fields@);
    }
    assert(fields_view(out@) =~= fields_view(fields@));
    out
}

/// The members with `key` bound to `value`: in place of the first member of
/// that name, or at the end where there is none.
pub open spec fn spec_with_member(
    fields: Seq<(Seq<char>, JsonModel)>,
    key: Seq<char>,
    value: JsonModel,
) -> Seq<(Seq<char>, JsonModel)> {
    let at = spec_position(fields, key);
    if at < fields.len() {
        fields.update(at, (key, value))
    } else {
        fields.push((key, value))
    }
}

/// Binds `key` to `value` among the members of an object.
pub fn set_member(fields: &mut Vec<(String, JsonValue)>, key: &str, value: JsonValue)
    ensures
        fields_view(final(fields)@) == spec_with_member(fields_view(old(fields)@), key@, value@),
{
    let ghost before = fields@;
    let at = position_of(fields, key);
    if at < fields.len() {
        fields.set(at, (key.to_owned(), value));
    } else {
        fields.push((key.to_owned(), value));
    }
    proof {
        lemma_fields_view(before);
        lemma_fields_view(fields@);
        assert(fields_view(fields@) =~= spec_with_member(fields_view(before), key@, value@));
    }
}

/// A JSON value of `serde_json`, of which nothing is known here.
#[verifier::external_type_specification]
#[verifier::external_body]
pub struct ExSerdeValue(serde_json::Value);

/// A JSON number of `serde_json`, of which nothing is known here.
#[verifier::external_type_specification]
#[verifier::external_body]
pub struct ExSerdeNumber(serde_json::Number);

/// What `serde_json::from_str` makes of a text read as one JSON value:
/// the value, or `None` where the text is not well-formed JSON.
pub uninterp spec fn parsed_json(text: Seq<char>) -> Option<JsonModel>;

/// Moves the content of a `serde_json::Number` into a `JsonNumber`: what
/// `as_u64` gives, else what `as_i64` gives, else the bits of the float.
#[verifier::external_body]
fn number_from_serde(n: serde_json::Number) -> JsonNumber {
    match (n.as_u64(), n.as_i64()) {
        (Some(u), _) => JsonNumber::Unsigned(u),
        (None, Some(i)) => JsonNumber::Signed(i),
        (None, None) => JsonNumber::FloatBits(n.as_f64().map_or(0, |x| x.to_bits())),
    }
}

/// Moves a `serde_json::Value` into a `JsonValue`, variant by variant; the
/// members of an object come in the order in which its map hands them out.
#[verifier::external_body]
fn value_from_serde(value: serde_json::Value) -> JsonValue {
    match value {
        serde_json::Value::Null => JsonValue::Null,
        serde_json::Value::Bool(b) => JsonValue::Bool(b),
        serde_json::Value::Number(n) => JsonValue::Number(number_from_serde(n)),
        serde_json::Value::String(s) => JsonValue::Text(s),
        serde_json::Value::Array(a) => JsonValue::Array(a.into_iter().map(value_from_serde).collect()),
        serde_json::Value::Object(o) => JsonValue::Object(
            o.into_iter().map(|(k, v)| (k, value_from_serde(v))).collect(),
        ),
    }
}

/// Reads `text` as one JSON value with `serde_json::from_str`. Whether the
/// text is accepted, and the value read, depend on the text alone.
#[verifier::external_body]
pub(crate) fn parse_json(text: &str) -> (value: Option<JsonValue>)
    ensures
        match value {
            Some(v) => parsed_json(text@) == Some(v@),
            None => parsed_json(text@) is None,
        },
{
    match serde_json::from_str::<serde_json::Value>(text) {
        Ok(v) => Some(value_from_serde(v)),
        Err(_) => None,
    }
}

} // verus!
