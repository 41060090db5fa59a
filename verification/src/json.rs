//! JSON documents, held and written by `serde_json`.
use serde_json::Value;
use vstd::prelude::*;

verus! {

/// A JSON document.
#[verifier::external_type_specification]
#[verifier::external_body]
pub struct ExValue(serde_json::Value);

/// The members of a JSON object.
#[verifier::external_type_specification]
#[verifier::external_body]
#[verifier::reject_recursive_types(K)]
#[verifier::reject_recursive_types(V)]
pub struct ExJsonMap<K, V>(serde_json::Map<K, V>);

/// The error that reading or writing a document reports.
#[verifier::external_type_specification]
#[verifier::external_body]
pub struct ExJsonError(serde_json::Error);

/// The top level of a JSON document.
pub ghost enum JsonView {
    Null,
    Bool(bool),
    /// A number that was written without fraction and exponent, and fits in 64 bits,
    /// but for negative zero.
    Integer(int),
    /// Any other number.
    Float,
    Text(Seq<char>),
    Array(Seq<Value>),
    Object(Map<Seq<char>, Value>),
}

/// What a JSON document holds at its top level.
pub uninterp spec fn json_view(v: serde_json::Value) -> JsonView;

/// What a map of members holds.
pub uninterp spec fn json_members(m: serde_json::Map<String, serde_json::Value>) -> Map<
    Seq<char>,
    serde_json::Value,
>;

// ---------------------------------------------------------------------------
// Reading
// ---------------------------------------------------------------------------

/// The document that a text denotes, if it is JSON.
pub uninterp spec fn json_document(text: Seq<char>) -> Option<serde_json::Value>;

/// `serde_json::from_str` into a `Value`: the document that the text denotes, or an
/// error where it is not JSON. Which texts are JSON is not said.
#[verifier::external_body]
pub(crate) fn parse_json(text: &str) -> (r: Result<Value, serde_json::Error>)
    ensures
        match r {
            Ok(v) => json_document(text@) == Some(v),
            Err(_) => json_document(text@) is None,
        },
{
    serde_json::from_str(text)
}

/// The member of an object with the given key; nothing for other values.
pub open spec fn member(v: Value, key: Seq<char>) -> Option<Value> {
    match json_view(v) {
        JsonView::Object(members) => if members.contains_key(key) {
            Some(members[key])
        } else {
            None
        },
        _ => None,
    }
}

/// `Value::get` with a text: the member of an object with that key; nothing where
/// there is none, or the value is no object.
#[verifier::external_body]
pub(crate) fn get_member<'a>(v: &'a Value, key: &str) -> (r: Option<&'a Value>)
    ensures
        match r {
            Some(m) => member(*v, key@) == Some(*m),
            None => member(*v, key@) is None,
        },
{
    v.get(key)
}

/// The text that a value is, if it is one.
pub open spec fn text_in(v: Value) -> Option<Seq<char>> {
    match json_view(v) {
        JsonView::Text(s) => Some(s),
        _ => None,
    }
}

/// The integer that a value is, if it is one in the given range.
pub open spec fn integer_in(v: Value, min: int, max: int) -> Option<int> {
    match json_view(v) {
        JsonView::Integer(n) => if min <= n <= max {
            Some(n)
        } else {
            None
        },
        _ => None,
    }
}

/// The truth value that a value is, if it is one.
pub open spec fn bool_in(v: Value) -> Option<bool> {
    match json_view(v) {
        JsonView::Bool(b) => Some(b),
        _ => None,
    }
}

/// `Value::as_str`: the text of a text; nothing for other values.
pub assume_specification[ Value::as_str ](v: &Value) -> (r: Option<&str>)
    ensures
        match r {
            Some(s) => text_in(*v) == Some(s@),
            None => text_in(*v) is None,
        },
;

/// `Value::as_i64`: the number of an integer that is an `i64`; nothing for other
/// values.
pub assume_specification[ Value::as_i64 ](v: &Value) -> (r: Option<i64>)
    ensures
        match r {
            Some(n) => integer_in(*v, i64::MIN as int, i64::MAX as int) == Some(n as int),
            None => integer_in(*v, i64::MIN as int, i64::MAX as int) is None,
        },
;

/// `Value::as_u64`: the number of an integer that is a `u64`; nothing for other
/// values.
pub assume_specification[ Value::as_u64 ](v: &Value) -> (r: Option<u64>)
    ensures
        match r {
            Some(n) => integer_in(*v, 0, u64::MAX as int) == Some(n as int),
            None => integer_in(*v, 0, u64::MAX as int) is None,
        },
;

/// `Value::as_bool`: the truth value of a boolean; nothing for other values.
pub assume_specification[ Value::as_bool ](v: &Value) -> (r: Option<bool>)
    ensures
        r == bool_in(*v),
;

/// `Value::as_array`: the items of an array; nothing for other values.
pub assume_specification[ Value::as_array ](v: &Value) -> (r: Option<&Vec<Value>>)
    ensures
        match json_view(*v) {
            JsonView::Array(items) => r matches Some(list) && list@ == items,
            _ => r is None,
        },
;

/// `Value::as_object`: the members of an object; nothing for other values.
#[verifier::external_body]
pub(crate) fn members_of(v: &Value) -> (r: Option<&serde_json::Map<String, Value>>)
    ensures
        match json_view(*v) {
            JsonView::Object(members) => r matches Some(m) && json_members(*m) == members,
            _ => r is None,
        },
{
    v.as_object()
}

/// `Value::clone`: the same document.
#[verifier::external_body]
pub(crate) fn clone_value(v: &Value) -> (r: Value)
    ensures
        r == *v,
{
    v.clone()
}

/// The text of a member, if it is one.
pub open spec fn member_text(v: Value, key: Seq<char>) -> Option<Seq<char>> {
    match member(v, key) {
        Some(m) => text_in(m),
        None => None,
    }
}

/// The text of a member, if it is one.
pub(crate) fn get_text(v: &Value, key: &str) -> (r: Option<String>)
    ensures
        crate::text::opt_view(r) == member_text(*v, key@),
{
    match get_member(v, key) {
        Some(m) => match m.as_str() {
            Some(s) => Some(s.to_owned()),
            None => None,
        },
        None => None,
    }
}

/// The integer of a member, if it is an `i64`.
pub open spec fn member_integer(v: Value, key: Seq<char>) -> Option<int> {
    match member(v, key) {
        Some(m) => integer_in(m, i64::MIN as int, i64::MAX as int),
        None => None,
    }
}

/// The integer of a member, if it is an `i64`.
pub(crate) fn get_i64(v: &Value, key: &str) -> (r: Option<i64>)
    ensures
        match r {
            Some(n) => member_integer(*v, key@) == Some(n as int),
            None => member_integer(*v, key@) is None,
        },
{
    match get_member(v, key) {
        Some(m) => m.as_i64(),
        None => None,
    }
}

/// Whether a member is the boolean `true`.
pub open spec fn member_is_true(v: Value, key: Seq<char>) -> bool {
    member(v, key) matches Some(m) && bool_in(m) == Some(true)
}

/// Whether a member is the boolean `true`.
pub(crate) fn is_true(v: &Value, key: &str) -> (r: bool)
    ensures
        r == member_is_true(*v, key@),
{
    match get_member(v, key) {
        Some(m) => match m.as_bool() {
            Some(b) => b,
            None => false,
        },
        None => false,
    }
}

// ---------------------------------------------------------------------------
// Building
// ---------------------------------------------------------------------------

/// `Value::String`: a text.
#[verifier::external_body]
pub(crate) fn text_value(s: &str) -> (r: Value)
    ensures
        json_view(r) == JsonView::Text(s@),
{
    Value::String(s.to_string())
}

/// `Value::from` for an `i64`: an integer.
#[verifier::external_body]
pub(crate) fn i64_value(n: i64) -> (r: Value)
    ensures
        json_view(r) == JsonView::Integer(n as int),
{
    Value::from(n)
}

/// `Value::from` for a `u64`: an integer.
#[verifier::external_body]
pub(crate) fn u64_value(n: u64) -> (r: Value)
    ensures
        json_view(r) == JsonView::Integer(n as int),
{
    Value::from(n)
}

/// `Value::Bool`: a boolean.
#[verifier::external_body]
pub(crate) fn bool_value(b: bool) -> (r: Value)
    ensures
        json_view(r) == JsonView::Bool(b),
{
    Value::Bool(b)
}

/// `Value::Null`: the null value.
#[verifier::external_body]
pub(crate) fn null_value() -> (r: Value)
    ensures
        json_view(r) == JsonView::Null,
{
    Value::Null
}

/// `Value::Array`: an array of the given items.
#[verifier::external_body]
pub(crate) fn array_value(items: Vec<Value>) -> (r: Value)
    ensures
        json_view(r) == JsonView::Array(items@),
{
    Value::Array(items)
}

/// `Value::Object`: an object with the given members.
#[verifier::external_body]
pub(crate) fn object_value(members: serde_json::Map<String, Value>) -> (r: Value)
    ensures
        json_view(r) == JsonView::Object(json_members(members)),
{
    Value::Object(members)
}

/// No members.
pub open spec fn no_members() -> Map<Seq<char>, Value> {
    Map::empty()
}

/// `serde_json::Map::new`: no members.
#[verifier::external_body]
pub(crate) fn new_members() -> (r: serde_json::Map<String, Value>)
    ensures
        json_members(r) == no_members(),
{
    serde_json::Map::new()
}

/// `serde_json::Map::clone`: the same members.
#[verifier::external_body]
pub(crate) fn clone_members(m: &serde_json::Map<String, Value>) -> (r: serde_json::Map<
    String,
    Value,
>)
    ensures
        json_members(r) == json_members(*m),
{
    m.clone()
}

/// `serde_json::Map::insert`: sets the member with the given key.
#[verifier::external_body]
pub(crate) fn set_member(m: &mut serde_json::Map<String, Value>, key: &str, value: Value)
    ensures
        json_members(*final(m)) == json_members(*old(m)).insert(key@, value),
{
    m.insert(key.to_string(), value);
}

/// The members of an object, each by its own top level.
pub open spec fn fields(m: Map<Seq<char>, Value>) -> Map<Seq<char>, JsonView> {
    m.map_values(|v: Value| json_view(v))
}

/// The members of an object document; none for other values.
pub open spec fn members_in(v: Value) -> Map<Seq<char>, Value> {
    match json_view(v) {
        JsonView::Object(members) => members,
        _ => no_members(),
    }
}

/// The members of an object document, each by its own top level; none for other
/// values.
pub open spec fn object_fields(v: Value) -> Map<Seq<char>, JsonView> {
    match json_view(v) {
        JsonView::Object(members) => fields(members),
        _ => Map::empty(),
    }
}

/// Setting a member sets its field.
proof fn lemma_fields_insert(m: Map<Seq<char>, Value>, key: Seq<char>, v: Value)
    ensures
        fields(m.insert(key, v)) == fields(m).insert(key, json_view(v)),
{
    assert(fields(m.insert(key, v)) =~= fields(m).insert(key, json_view(v)));
}

/// Fields with an integer added, if there is one.
pub open spec fn with_integer(
    f: Map<Seq<char>, JsonView>,
    key: Seq<char>,
    n: Option<int>,
) -> Map<Seq<char>, JsonView> {
    match n {
        Some(n) => f.insert(key, JsonView::Integer(n)),
        None => f,
    }
}

/// An object under construction.
pub struct ObjectBuilder {
    members: serde_json::Map<String, Value>,
}

impl ObjectBuilder {
    /// The members so far.
    pub closed spec fn members(self) -> Map<Seq<char>, Value> {
        json_members(self.members)
    }

    /// The members so far, each by its own top level.
    pub open spec fn fields(self) -> Map<Seq<char>, JsonView> {
        fields(self.members())
    }

    /// An object without members.
    pub fn new() -> (r: Self)
        ensures
            r.members() == no_members(),
            r.fields() == Map::<Seq<char>, JsonView>::empty(),
    {
        let r: ObjectBuilder = ObjectBuilder { members: new_members() };
        assert(r.fields() =~= Map::<Seq<char>, JsonView>::empty());
        r
    }

    /// An object with the members that a document has, if it is an object.
    pub fn from_value(v: &Value) -> (r: Self)
        ensures
            r.members() == members_in(*v),
    {
        match members_of(v) {
            Some(m) => ObjectBuilder { members: clone_members(m) },
            None => ObjectBuilder::new(),
        }
    }

    /// Sets a member.
    pub fn set(&mut self, key: &str, value: Value)
        ensures
            final(self).members() == old(self).members().insert(key@, value),
            final(self).fields() == old(self).fields().insert(key@, json_view(value)),
    {
        proof {
            lemma_fields_insert(self.members(), key@, value);
        }
        set_member(&mut self.members, key, value);
    }

    /// Sets a member to a text.
    pub fn set_text(&mut self, key: &str, s: &str)
        ensures
            final(self).fields() == old(self).fields().insert(key@, JsonView::Text(s@)),
    {
        self.set(key, text_value(s));
    }

    /// Sets a member to a boolean.
    pub fn set_bool(&mut self, key: &str, b: bool)
        ensures
            final(self).fields() == old(self).fields().insert(key@, JsonView::Bool(b)),
    {
        self.set(key, bool_value(b));
    }

    /// Sets a member to an integer, if there is one.
    pub fn set_i64(&mut self, key: &str, n: Option<i64>)
        ensures
            final(self).fields() == with_integer(
                old(self).fields(),
                key@,
                match n {
                    Some(n) => Some(n as int),
                    None => None,
                },
            ),
    {
        if let Some(n) = n {
            self.set(key, i64_value(n));
        }
    }

    /// Sets a member to a number, if there is one.
    pub fn set_u64(&mut self, key: &str, n: Option<u64>)
        ensures
            final(self).fields() == with_integer(
                old(self).fields(),
                key@,
                match n {
                    Some(n) => Some(n as int),
                    None => None,
                },
            ),
    {
        if let Some(n) = n {
            self.set(key, u64_value(n));
        }
    }

    /// The object.
    pub fn build(self) -> (r: Value)
        ensures
            json_view(r) == JsonView::Object(self.members()),
            object_fields(r) == self.fields(),
    {
        object_value(self.members)
    }
}

// ---------------------------------------------------------------------------
// Writing
// ---------------------------------------------------------------------------

/// The hexadecimal digit of a number below sixteen.
pub open spec fn hex_digit(n: int) -> char {
    if n < 10 {
        (48 + n) as char
    } else {
        (87 + n) as char
    }
}

/// A character as it stands in the JSON notation of a text.
pub open spec fn escaped(c: char) -> Seq<char> {
    if c == '"' || c == '\\' {
        seq!['\\', c]
    } else if c == '\u{8}' {
        seq!['\\', 'b']
    } else if c == '\t' {
        seq!['\\', 't']
    } else if c == '\n' {
        seq!['\\', 'n']
    } else if c == '\u{c}' {
        seq!['\\', 'f']
    } else if c == '\r' {
        seq!['\\', 'r']
    } else if (c as int) < 32 {
        seq!['\\', 'u', '0', '0', hex_digit(c as int / 16), hex_digit(c as int % 16)]
    } else {
        seq![c]
    }
}

/// The characters of a text as they stand in its JSON notation.
pub open spec fn escaped_text(s: Seq<char>) -> Seq<char>
    decreases s.len(),
{
    if s.len() == 0 {
        Seq::empty()
    } else {
        escaped_text(s.drop_last()) + escaped(s.last())
    }
}

/// The JSON notation of a text.
pub open spec fn json_quoted(s: Seq<char>) -> Seq<char> {
    seq!['"'] + escaped_text(s) + seq!['"']
}

/// `serde_json::to_string` of a text: the text in quotation marks, where quotation
/// marks, backslashes and control characters are escaped. It does not fail.
#[verifier::external_body]
pub(crate) fn quote_text(s: &str) -> (r: Result<String, serde_json::Error>)
    ensures
        r is Ok,
        r->Ok_0@ == json_quoted(s@),
{
    serde_json::to_string(s)
}

/// The JSON notation of a document on one line.
pub uninterp spec fn json_compact(v: serde_json::Value) -> Seq<char>;

/// `serde_json::to_string` of a document: its JSON notation without line breaks. It
/// does not fail: a document has no keys but texts.
#[verifier::external_body]
pub(crate) fn compact_json(v: &Value) -> (r: Result<String, serde_json::Error>)
    ensures
        r is Ok,
        r->Ok_0@ == json_compact(*v),
{
    serde_json::to_string(v)
}

/// The JSON notation of a document with line breaks and indentation.
pub uninterp spec fn json_pretty(v: serde_json::Value) -> Seq<char>;

/// `serde_json::to_string_pretty` of a document: its JSON notation, indented. It does
/// not fail: a document has no keys but texts.
#[verifier::external_body]
pub(crate) fn pretty_json(v: &Value) -> (r: Result<String, serde_json::Error>)
    ensures
        r is Ok,
        r->Ok_0@ == json_pretty(*v),
{
    serde_json::to_string_pretty(v)
}

/// The bytes of the JSON notation of a document on one line.
pub uninterp spec fn json_bytes(v: serde_json::Value) -> Seq<u8>;

/// `serde_json::to_vec` of a document: the bytes of its JSON notation. There is no
/// line feed among them, since nothing is indented and those in texts are escaped. It
/// does not fail: a document has no keys but texts.
#[verifier::external_body]
pub(crate) fn bytes_of_json(v: &Value) -> (r: Result<Vec<u8>, serde_json::Error>)
    ensures
        r is Ok,
        r->Ok_0@ == json_bytes(*v),
        forall|i: int| 0 <= i < r->Ok_0@.len() ==> r->Ok_0@[i] != 10u8,
{
    serde_json::to_vec(v)
}

// ---------------------------------------------------------------------------
// Laws
// ---------------------------------------------------------------------------

/// A member is what an object holds under its key; other values have none.
pub proof fn a_member_stands_under_its_key(v: Value, key: Seq<char>)
    ensures
        json_view(v) is Object && json_view(v)->Object_0.contains_key(key) ==> member(v, key)
            == Some(json_view(v)->Object_0[key]),
        json_view(v) is Object && !json_view(v)->Object_0.contains_key(key) ==> member(
            v,
            key,
        ) is None,
        !(json_view(v) is Object) ==> member(v, key) is None,
{
}

/// What is read of a member is what it is: a text as a text, an integer of 64 bits as an
/// integer, and nothing as another kind than it is.
pub proof fn a_member_is_read_as_what_it_is(v: Value, key: Seq<char>, m: Value)
    requires
        member(v, key) == Some(m),
    ensures
        json_view(m) is Text ==> member_text(v, key) == Some(json_view(m)->Text_0),
        !(json_view(m) is Text) ==> member_text(v, key) is None,
        json_view(m) is Integer && i64::MIN <= json_view(m)->Integer_0 <= i64::MAX
            ==> member_integer(v, key) == Some(json_view(m)->Integer_0),
        !(json_view(m) is Integer && i64::MIN <= json_view(m)->Integer_0 <= i64::MAX)
            ==> member_integer(v, key) is None,
        member_is_true(v, key) <==> json_view(m) == JsonView::Bool(true),
{
}

/// Nothing is read of a member that is not there.
pub proof fn a_missing_member_is_not_read(v: Value, key: Seq<char>)
    requires
        member(v, key) is None,
    ensures
        member_text(v, key) is None,
        member_integer(v, key) is None,
        !member_is_true(v, key),
{
}

/// The notation of a text stands in quotation marks, and has the characters of the text
/// in their order, each escaped by itself.
pub proof fn a_text_is_escaped_character_by_character(s: Seq<char>, c: char)
    ensures
        escaped_text(Seq::empty()) == Seq::<char>::empty(),
        escaped_text(s.push(c)) == escaped_text(s) + escaped(c),
        json_quoted(s) == seq!['"'] + escaped_text(s) + seq!['"'],
        c as u32 >= 32 && c != '"' && c != '\\' ==> escaped(c) == seq![c],
        c == '"' || c == '\\' ==> escaped(c) == seq!['\\', c],
        (c as u32) < 32 ==> escaped(c).len() >= 2 && escaped(c)[0] == '\\',
{
    assert(s.push(c).drop_last() == s);
}

} // verus!
