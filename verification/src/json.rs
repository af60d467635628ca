//! JSON values: the tree that requests carry and responses are built from.
//!
//! `serde_json` reads and writes the text. The tree itself is this crate's own, so that
//! what is read out of a document, and what goes into one, can be stated.

use crate::text::same;
use serde_json::{Map as OutsideMap, Number, Value};
use vstd::prelude::*;

verus! {

/// `serde_json`'s value tree.
#[verifier::external_type_specification]
#[verifier::external_body]
pub struct ExValue(serde_json::Value);

/// `serde_json`'s number.
#[verifier::external_type_specification]
#[verifier::external_body]
pub struct ExNumber(serde_json::Number);

/// A JSON value.
#[derive(Debug, PartialEq)]
pub enum JsonValue {
    Null,
    Bool(bool),
    Number(Number),
    Text(String),
    Array(Vec<JsonValue>),
    /// The members in the order they were written; of two with one name the later counts.
    Object(Vec<(String, JsonValue)>),
}

/// What a JSON number is: an integer that is not negative, a negative integer, or a
/// floating-point number, given by its bits.
pub enum NumberView {
    Unsigned(u64),
    Negative(i64),
    Float(nat),
}

/// The mathematical JSON value. An object is a map from names to values.
pub enum JsonView {
    Null,
    Bool(bool),
    Number(NumberView),
    Text(Seq<char>),
    Array(Seq<JsonView>),
    Object(Map<Seq<char>, JsonView>),
}

/// What a `serde_json::Number` holds.
pub uninterp spec fn number_contents(number: serde_json::Number) -> NumberView;

/// What a `serde_json::Value` holds.
pub uninterp spec fn json_contents(value: serde_json::Value) -> JsonView;

/// The map that a list of members makes, the later of two with one name winning.
pub open spec fn members(entries: Seq<(Seq<char>, JsonView)>) -> Map<Seq<char>, JsonView>
    decreases entries.len(),
{
    if entries.len() == 0 {
        Map::empty()
    } else {
        members(entries.drop_last()).insert(entries.last().0, entries.last().1)
    }
}

/// The mathematical value of a JSON tree.
pub open spec fn json_view(value: JsonValue) -> JsonView
    decreases value,
{
    match value {
        JsonValue::Null => JsonView::Null,
        JsonValue::Bool(b) => JsonView::Bool(b),
        JsonValue::Number(n) => JsonView::Number(number_contents(n)),
        JsonValue::Text(t) => JsonView::Text(t@),
        JsonValue::Array(items) => JsonView::Array(
            Seq::new(
                items@.len(),
                |i: int|
                    if 0 <= i < items@.len() {
                        json_view(items@[i])
                    } else {
                        JsonView::Null
                    },
            ),
        ),
        JsonValue::Object(entries) => JsonView::Object(object_view(entries@)),
    }
}

/// The map of an object's members.
pub open spec fn object_view(entries: Seq<(String, JsonValue)>) -> Map<Seq<char>, JsonView>
    decreases entries,
{
    if entries.len() == 0 {
        Map::empty()
    } else {
        object_view(entries.drop_last()).insert(
            entries[entries.len() - 1].0@,
            json_view(entries[entries.len() - 1].1),
        )
    }
}

impl View for JsonValue {
    type V = JsonView;

    open spec fn view(&self) -> JsonView {
        json_view(*self)
    }
}

/// The values of a list of JSON trees.
pub open spec fn json_views(items: Seq<JsonValue>) -> Seq<JsonView> {
    items.map_values(|item: JsonValue| item@)
}

/// The names and values of a list of members.
pub open spec fn entry_views(entries: Seq<(String, JsonValue)>) -> Seq<(Seq<char>, JsonView)> {
    entries.map_values(|entry: (String, JsonValue)| (entry.0@, entry.1@))
}

/// The order in which a JSON tree holds its members and items.
pub enum Layout {
    /// Neither an array nor an object.
    Leaf,
    List(Seq<Layout>),
    /// The names in the order they were written, each with the layout of its value.
    Members(Seq<(Seq<char>, Layout)>),
}

/// The layout of a JSON tree.
pub open spec fn layout(value: JsonValue) -> Layout
    decreases value,
{
    match value {
        JsonValue::Array(items) => Layout::List(list_layout(items@)),
        JsonValue::Object(entries) => Layout::Members(member_layout(entries@)),
        _ => Layout::Leaf,
    }
}

/// The layouts of an array's items.
pub open spec fn list_layout(items: Seq<JsonValue>) -> Seq<Layout>
    decreases items,
{
    if items.len() == 0 {
        Seq::empty()
    } else {
        list_layout(items.drop_last()).push(layout(items[items.len() - 1]))
    }
}

/// The names and layouts of an object's members.
pub open spec fn member_layout(entries: Seq<(String, JsonValue)>) -> Seq<(Seq<char>, Layout)>
    decreases entries,
{
    if entries.len() == 0 {
        Seq::empty()
    } else {
        member_layout(entries.drop_last()).push(
            (entries[entries.len() - 1].0@, layout(entries[entries.len() - 1].1)),
        )
    }
}

proof fn lemma_object_view(entries: Seq<(String, JsonValue)>)
    ensures
        object_view(entries) == members(entry_views(entries)),
    decreases entries.len(),
{
    if entries.len() > 0 {
        lemma_object_view(entries.drop_last());
        assert(entry_views(entries).drop_last() == entry_views(entries.drop_last()));
    }
}

/// An array holds the values of its items, an object the map of its members.
pub broadcast proof fn lemma_json_view(value: JsonValue)
    ensures
        #[trigger] value@ == json_view(value),
        match value {
            JsonValue::Array(items) => value@ == JsonView::Array(json_views(items@)),
            JsonValue::Object(entries) => value@ == JsonView::Object(members(entry_views(entries@))),
            _ => true,
        },
{
    match value {
        JsonValue::Array(items) => {
            let listed = value@->Array_0;
            assert(listed =~= json_views(items@));
        },
        JsonValue::Object(entries) => {
            lemma_object_view(entries@);
        },
        _ => {},
    }
}

/// The text of a JSON value in `serde_json`'s compact form. `serde_json` keeps the members of
/// an object in the order of their names, so the value fixes the text.
pub uninterp spec fn json_text(value: JsonView) -> Seq<char>;

/// The bytes of a JSON value in `serde_json`'s indented form.
pub uninterp spec fn json_pretty_bytes(value: JsonView) -> Seq<u8>;

/// What `serde_json` reads from a text: the value of the document, or the text of the error.
pub uninterp spec fn json_document(text: Seq<char>) -> Result<JsonView, Seq<char>>;

/// `Number::as_u64`: the number, where it is an integer that is not negative.
#[verifier::external_body]
fn number_as_u64(number: &Number) -> (n: Option<u64>)
    ensures
        n == number_u64(number_contents(*number)),
{
    number.as_u64()
}

/// `Number::as_i64`: the number, where it is an integer that fits.
#[verifier::external_body]
fn number_as_i64(number: &Number) -> (n: Option<i64>)
    ensures
        n == number_i64(number_contents(*number)),
{
    number.as_i64()
}

/// `Number::from` of an `i64`: a negative number stays a negative integer, any other becomes
/// an unsigned one.
#[verifier::external_body]
fn number_from_i64(n: i64) -> (number: Number)
    ensures
        number_contents(number) == integer_number(n as int),
{
    Number::from(n)
}

/// `Number::from` of a `u64`: an unsigned integer.
#[verifier::external_body]
fn number_from_u64(n: u64) -> (number: Number)
    ensures
        number_contents(number) == integer_number(n as int),
{
    Number::from(n)
}

/// `Number::clone` keeps what the number holds.
pub assume_specification[ <serde_json::Number as Clone>::clone ](number: &serde_json::Number) -> (copy:
    serde_json::Number)
    ensures
        number_contents(copy) == number_contents(*number),
;

/// Moves a `serde_json::Value` into a `JsonValue`, variant by variant.
#[verifier::external_body]
fn from_outside(value: Value) -> (json: JsonValue)
    ensures
        json@ == json_contents(value),
{
    match value {
        Value::Null => JsonValue::Null,
        Value::Bool(b) => JsonValue::Bool(b),
        Value::Number(n) => JsonValue::Number(n),
        Value::String(t) => JsonValue::Text(t),
        Value::Array(items) => JsonValue::Array(items.into_iter().map(from_outside).collect()),
        Value::Object(entries) => JsonValue::Object(
            entries.into_iter().map(|(name, item)| (name, from_outside(item))).collect(),
        ),
    }
}

/// Copies a `JsonValue` into a `serde_json::Value`, variant by variant; members go in one
/// after the other through `Map::insert`, which replaces the value of a name it has.
#[verifier::external_body]
fn to_outside(json: &JsonValue) -> (value: Value)
    ensures
        json_contents(value) == json@,
{
    match json {
        JsonValue::Null => Value::Null,
        JsonValue::Bool(b) => Value::Bool(*b),
        JsonValue::Number(n) => Value::Number(n.clone()),
        JsonValue::Text(t) => Value::String(t.clone()),
        JsonValue::Array(items) => Value::Array(items.iter().map(to_outside).collect()),
        JsonValue::Object(entries) => {
            let mut object = OutsideMap::new();
            for (name, item) in entries {
                object.insert(name.clone(), to_outside(item));
            }
            Value::Object(object)
        },
    }
}

/// `Value`'s `Display`: the compact text of the value.
#[verifier::external_body]
fn value_text(value: &Value) -> (text: String)
    ensures
        text@ == json_text(json_contents(*value)),
{
    value.to_string()
}

/// `serde_json::to_vec_pretty` of a `Value`: its indented text as bytes. The writer is a
/// vector and every name is a string, so nothing can fail; an error is passed on as its text.
#[verifier::external_body]
fn value_pretty_bytes(value: &Value) -> (bytes: Result<Vec<u8>, String>)
    ensures
        bytes is Ok,
        bytes->Ok_0@ == json_pretty_bytes(json_contents(*value)),
{
    serde_json::to_vec_pretty(value).map_err(|error| error.to_string())
}

/// `serde_json::from_str` into a `Value`: the document, or the text of the error.
#[verifier::external_body]
fn parse_value(text: &str) -> (document: Result<Value, String>)
    ensures
        match document {
            Ok(value) => json_document(text@) == Ok::<JsonView, Seq<char>>(json_contents(value)),
            Err(message) => json_document(text@) == Err::<JsonView, Seq<char>>(message@),
        },
{
    serde_json::from_str(text).map_err(|error: serde_json::Error| error.to_string())
}

/// The number as a `u64`, where it is one.
pub open spec fn number_u64(number: NumberView) -> Option<u64> {
    match number {
        NumberView::Unsigned(n) => Some(n),
        _ => None,
    }
}

/// The number as an `i64`, where it is one.
pub open spec fn number_i64(number: NumberView) -> Option<i64> {
    match number {
        NumberView::Unsigned(n) => if n <= i64::MAX {
            Some(n as i64)
        } else {
            None
        },
        NumberView::Negative(n) => Some(n),
        NumberView::Float(_) => None,
    }
}

/// The JSON number for an integer.
pub open spec fn integer_number(n: int) -> NumberView {
    if n < 0 {
        NumberView::Negative(n as i64)
    } else {
        NumberView::Unsigned(n as u64)
    }
}

/// The JSON value for an integer.
pub open spec fn integer(n: int) -> JsonView {
    JsonView::Number(integer_number(n))
}

/// The JSON value of an optional text, `null` where there is none.
pub open spec fn text_or_null(text: Option<Seq<char>>) -> JsonView {
    match text {
        Some(t) => JsonView::Text(t),
        None => JsonView::Null,
    }
}

impl JsonView {
    /// The member of an object with this name.
    pub open spec fn field(self, name: Seq<char>) -> Option<JsonView> {
        match self {
            JsonView::Object(m) => if m.contains_key(name) {
                Some(m[name])
            } else {
                None
            },
            _ => None,
        }
    }

    /// The member `inner` of the member `outer`.
    pub open spec fn field_of(self, outer: Seq<char>, inner: Seq<char>) -> Option<JsonView> {
        match self.field(outer) {
            Some(value) => value.field(inner),
            None => None,
        }
    }

    /// The text, where the value is one.
    pub open spec fn as_text(self) -> Option<Seq<char>> {
        match self {
            JsonView::Text(t) => Some(t),
            _ => None,
        }
    }

    /// The truth value, where the value is one.
    pub open spec fn as_bool(self) -> Option<bool> {
        match self {
            JsonView::Bool(b) => Some(b),
            _ => None,
        }
    }

    /// The value as an `i64`, where it is an integer that fits.
    pub open spec fn as_i64(self) -> Option<i64> {
        match self {
            JsonView::Number(n) => number_i64(n),
            _ => None,
        }
    }

    /// The value as a `u64`, where it is an integer that fits.
    pub open spec fn as_u64(self) -> Option<u64> {
        match self {
            JsonView::Number(n) => number_u64(n),
            _ => None,
        }
    }
}

/// The text of the member with this name.
pub open spec fn text_field(value: JsonView, name: Seq<char>) -> Option<Seq<char>> {
    match value.field(name) {
        Some(v) => v.as_text(),
        None => None,
    }
}

/// The text of the member `inner` of the member `outer`.
pub open spec fn text_field_of(value: JsonView, outer: Seq<char>, inner: Seq<char>) -> Option<
    Seq<char>,
> {
    match value.field_of(outer, inner) {
        Some(v) => v.as_text(),
        None => None,
    }
}

/// The truth value of the member with this name; `false` where there is none.
pub open spec fn flag_field(value: JsonView, name: Seq<char>) -> bool {
    match value.field(name) {
        Some(v) => v.as_bool() == Some(true),
        None => false,
    }
}

/// The text of an optional string.
pub open spec fn text_of(text: Option<String>) -> Option<Seq<char>> {
    match text {
        Some(t) => Some(t@),
        None => None,
    }
}

/// The text of an optional string slice.
pub open spec fn slice_text(text: Option<&str>) -> Option<Seq<char>> {
    match text {
        Some(t) => Some(t@),
        None => None,
    }
}

proof fn lemma_member(entries: Seq<(Seq<char>, JsonView)>, at: int)
    requires
        0 <= at < entries.len(),
        forall|j: int| at < j < entries.len() ==> (#[trigger] entries[j]).0 != entries[at].0,
    ensures
        members(entries).contains_key(entries[at].0),
        members(entries)[entries[at].0] == entries[at].1,
    decreases entries.len(),
{
    if at < entries.len() - 1 {
        assert(entries[entries.len() - 1].0 != entries[at].0);
        lemma_member(entries.drop_last(), at);
    }
}

proof fn lemma_no_member(entries: Seq<(Seq<char>, JsonView)>, name: Seq<char>)
    requires
        forall|j: int| 0 <= j < entries.len() ==> (#[trigger] entries[j]).0 != name,
    ensures
        !members(entries).contains_key(name),
    decreases entries.len(),
{
    if entries.len() > 0 {
        assert(entries[entries.len() - 1].0 != name);
        lemma_no_member(entries.drop_last(), name);
    }
}

impl Clone for JsonValue {
    fn clone(&self) -> (json: JsonValue)
        ensures
            json@ == self@,
    {
        self.copy()
    }
}

impl JsonValue {
    /// The member of an object with this name.
    pub fn get(&self, name: &str) -> (item: Option<&JsonValue>)
        ensures
            match item {
                Some(value) => self@.field(name@) == Some(value@),
                None => self@.field(name@) is None,
            },
    {
        broadcast use lemma_json_view;

        match self {
            JsonValue::Object(entries) => {
                let ghost listed = entry_views(entries@);
                let mut rest: usize = entries.len();
                while rest > 0
                    invariant
                        rest <= entries.len(),
                        listed == entry_views(entries@),
                        self@ == JsonView::Object(members(listed)),
                        forall|j: int|
                            rest <= j < entries.len() ==> (#[trigger] listed[j]).0 != name@,
                    decreases rest,
                {
                    rest = rest - 1;
                    if same(entries[rest].0.as_str(), name) {
                        proof {
                            assert(listed[rest as int].0 == name@);
                            lemma_member(listed, rest as int);
                        }
                        return Some(&entries[rest].1);
                    }
                }
                proof {
                    lemma_no_member(listed, name@);
                }
                None
            },
            _ => None,
        }
    }

    /// The text, where the value is one.
    pub fn as_text(&self) -> (text: Option<&str>)
        ensures
            slice_text(text) == self@.as_text(),
    {
        match self {
            JsonValue::Text(t) => Some(t.as_str()),
            _ => None,
        }
    }

    /// The truth value, where the value is one.
    pub fn as_bool(&self) -> (truth: Option<bool>)
        ensures
            truth == self@.as_bool(),
    {
        match self {
            JsonValue::Bool(b) => Some(*b),
            _ => None,
        }
    }

    /// The value as an `i64`, where it is an integer that fits.
    pub fn as_i64(&self) -> (n: Option<i64>)
        ensures
            n == self@.as_i64(),
    {
        match self {
            JsonValue::Number(number) => number_as_i64(number),
            _ => None,
        }
    }

    /// The value as a `u64`, where it is an integer that fits.
    pub fn as_u64(&self) -> (n: Option<u64>)
        ensures
            n == self@.as_u64(),
    {
        match self {
            JsonValue::Number(number) => number_as_u64(number),
            _ => None,
        }
    }

    /// The text of the member with this name.
    pub fn text_at(&self, name: &str) -> (text: Option<&str>)
        ensures
            slice_text(text) == text_field(self@, name@),
    {
        match self.get(name) {
            Some(value) => value.as_text(),
            None => None,
        }
    }

    /// The text of the member `inner` of the member `outer`.
    pub fn text_at_path(&self, outer: &str, inner: &str) -> (text: Option<&str>)
        ensures
            slice_text(text) == text_field_of(self@, outer@, inner@),
    {
        match self.get(outer) {
            Some(value) => value.text_at(inner),
            None => None,
        }
    }

    /// The truth value of the member with this name; `false` where there is none.
    pub fn flag_at(&self, name: &str) -> (truth: bool)
        ensures
            truth == flag_field(self@, name@),
    {
        match self.get(name) {
            Some(value) => match value.as_bool() {
                Some(b) => b,
                None => false,
            },
            None => false,
        }
    }

    /// The JSON value for a text.
    pub fn from_text(text: &str) -> (json: JsonValue)
        ensures
            json@ == JsonView::Text(text@),
            layout(json) == Layout::Leaf,
    {
        JsonValue::Text(text.to_owned())
    }

    /// The JSON value for an optional text, `null` where there is none.
    pub fn from_optional_text(text: &Option<String>) -> (json: JsonValue)
        ensures
            json@ == text_or_null(text_of(*text)),
            layout(json) == Layout::Leaf,
    {
        match text {
            Some(t) => JsonValue::from_text(t.as_str()),
            None => JsonValue::Null,
        }
    }

    /// The JSON value for an integer.
    pub fn from_i64(n: i64) -> (json: JsonValue)
        ensures
            json@ == integer(n as int),
            layout(json) == Layout::Leaf,
    {
        JsonValue::Number(number_from_i64(n))
    }

    /// The JSON value for an integer that is not negative.
    pub fn from_u64(n: u64) -> (json: JsonValue)
        ensures
            json@ == integer(n as int),
            layout(json) == Layout::Leaf,
    {
        JsonValue::Number(number_from_u64(n))
    }

    /// An array.
    pub fn array(items: Vec<JsonValue>) -> (json: JsonValue)
        ensures
            json@ == JsonView::Array(json_views(items@)),
            layout(json) == Layout::List(list_layout(items@)),
    {
        broadcast use lemma_json_view;

        JsonValue::Array(items)
    }

    /// An array of one item.
    pub fn array_of_one(item: JsonValue) -> (json: JsonValue)
        ensures
            json@ == JsonView::Array(seq![item@]),
            layout(json) == Layout::List(seq![layout(item)]),
    {
        let mut items: Vec<JsonValue> = Vec::new();
        items.push(item);
        assert(items@.drop_last() == Seq::<JsonValue>::empty());
        assert(list_layout(items@.drop_last()) == Seq::<Layout>::empty());
        assert(list_layout(items@) == seq![layout(item)]);
        assert(json_views(items@) == seq![item@]);
        JsonValue::array(items)
    }

    /// An object without members.
    pub fn object() -> (json: JsonValue)
        ensures
            json@ == JsonView::Object(Map::empty()),
            layout(json) == Layout::Members(Seq::empty()),
    {
        broadcast use lemma_json_view;

        let entries: Vec<(String, JsonValue)> = Vec::new();
        assert(entry_views(entries@) == Seq::<(Seq<char>, JsonView)>::empty());
        JsonValue::Object(entries)
    }

    /// The object with one more member; a value that is no object stays as it is.
    pub fn with(self, name: &str, value: JsonValue) -> (json: JsonValue)
        ensures
            json@ == (match self@ {
                JsonView::Object(m) => JsonView::Object(m.insert(name@, value@)),
                other => other,
            }),
            layout(json) == (match layout(self) {
                Layout::Members(m) => Layout::Members(m.push((name@, layout(value)))),
                other => other,
            }),
    {
        broadcast use lemma_json_view;

        match self {
            JsonValue::Object(entries) => {
                let mut entries = entries;
                let ghost before = entry_views(entries@);
                let ghost earlier = entries@;
                entries.push((name.to_owned(), value));
                proof {
                    assert(entries@.drop_last() == earlier);
                    let now = entry_views(entries@);
                    assert(now.drop_last() == before);
                    assert(now.last() == (name@, value@));
                }
                JsonValue::Object(entries)
            },
            other => other,
        }
    }

    /// A copy of the value.
    pub fn copy(&self) -> (json: JsonValue)
        ensures
            json@ == self@,
            layout(json) == layout(*self),
        decreases self,
    {
        broadcast use lemma_json_view;

        match self {
            JsonValue::Null => JsonValue::Null,
            JsonValue::Bool(b) => JsonValue::Bool(*b),
            JsonValue::Number(n) => JsonValue::Number(n.clone()),
            JsonValue::Text(t) => JsonValue::Text(t.clone()),
            JsonValue::Array(items) => {
                let mut copies: Vec<JsonValue> = Vec::new();
                let mut at: usize = 0;
                while at < items.len()
                    invariant
                        at <= items.len(),
                        at == copies.len(),
                        *self == JsonValue::Array(*items),
                        json_views(copies@) == json_views(items@).take(at as int),
                        list_layout(copies@) == list_layout(items@.take(at as int)),
                    decreases items.len() - at,
                {
                    proof {
                        assert(decreases_to!(*self => self->Array_0));
                        assert(decreases_to!(*items => items@));
                        assert(decreases_to!(items@ => items@[at as int]));
                    }
                    let ghost before = copies@;
                    copies.push(items[at].copy());
                    proof {
                        assert(copies@.drop_last() == before);
                        assert(items@.take(at + 1).drop_last() == items@.take(at as int));
                    }
                    at = at + 1;
                    assert(json_views(copies@) == json_views(items@).take(at as int));
                }
                assert(json_views(items@).take(items.len() as int) == json_views(items@));
                assert(items@.take(items.len() as int) == items@);
                JsonValue::Array(copies)
            },
            JsonValue::Object(entries) => {
                let mut copies: Vec<(String, JsonValue)> = Vec::new();
                let mut at: usize = 0;
                while at < entries.len()
                    invariant
                        at <= entries.len(),
                        at == copies.len(),
                        *self == JsonValue::Object(*entries),
                        entry_views(copies@) == entry_views(entries@).take(at as int),
                        member_layout(copies@) == member_layout(entries@.take(at as int)),
                    decreases entries.len() - at,
                {
                    proof {
                        assert(decreases_to!(*self => self->Object_0));
                        assert(decreases_to!(*entries => entries@));
                        assert(decreases_to!(entries@ => entries@[at as int]));
                        assert(decreases_to!(entries@[at as int] => entries@[at as int].1));
                    }
                    let ghost before = copies@;
                    copies.push((entries[at].0.clone(), entries[at].1.copy()));
                    proof {
                        assert(copies@.drop_last() == before);
                        assert(entries@.take(at + 1).drop_last() == entries@.take(at as int));
                    }
                    at = at + 1;
                    assert(entry_views(copies@) == entry_views(entries@).take(at as int));
                }
                assert(entry_views(entries@).take(entries.len() as int) == entry_views(entries@));
                assert(entries@.take(entries.len() as int) == entries@);
                JsonValue::Object(copies)
            },
        }
    }

    /// The value in compact text form.
    pub fn to_text(&self) -> (text: String)
        ensures
            text@ == json_text(self@),
    {
        value_text(&to_outside(self))
    }

    /// The value in indented text form, as bytes.
    pub fn to_pretty_bytes(&self) -> (bytes: Result<Vec<u8>, String>)
        ensures
            bytes is Ok,
            bytes->Ok_0@ == json_pretty_bytes(self@),
    {
        value_pretty_bytes(&to_outside(self))
    }

    /// Reads a JSON document.
    pub fn parse(text: &str) -> (document: Result<JsonValue, String>)
        ensures
            match document {
                Ok(json) => json_document(text@) == Ok::<JsonView, Seq<char>>(json@),
                Err(message) => json_document(text@) == Err::<JsonView, Seq<char>>(message@),
            },
    {
        match parse_value(text) {
            Ok(value) => Ok(from_outside(value)),
            Err(message) => Err(message),
        }
    }

    /// The tree of a `serde_json::Value`.
    pub fn from_value(value: Value) -> (json: JsonValue)
        ensures
            json@ == json_contents(value),
    {
        from_outside(value)
    }

    /// The `serde_json::Value` of the tree.
    pub fn to_value(&self) -> (value: Value)
        ensures
            json_contents(value) == self@,
    {
        to_outside(self)
    }
}

/// A JSON tree means what it holds: scalars themselves, an array its items in order, an object
/// its members, of which the later of two with one name counts.
pub proof fn law_json_trees_mean_what_they_hold(
    items: Vec<JsonValue>,
    entries: Vec<(String, JsonValue)>,
    text: String,
    truth: bool,
    at: int,
)
    ensures
        JsonValue::Null@ == JsonView::Null,
        JsonValue::Bool(truth)@ == JsonView::Bool(truth),
        JsonValue::Text(text)@ == JsonView::Text(text@),
        JsonValue::Array(items)@ is Array,
        JsonValue::Array(items)@->Array_0.len() == items@.len(),
        0 <= at < items@.len() ==> JsonValue::Array(items)@->Array_0[at] == items@[at]@,
        JsonValue::Object(entries)@ is Object,
        0 <= at < entries@.len() && (forall|j: int|
            at < j < entries@.len() ==> (#[trigger] entries@[j]).0@ != entries@[at].0@) ==> {
            let held = JsonValue::Object(entries)@->Object_0;
            held.contains_key(entries@[at].0@) && held[entries@[at].0@] == entries@[at].1@
        },
{
    lemma_json_view(JsonValue::Array(items));
    lemma_json_view(JsonValue::Object(entries));
    if 0 <= at < entries@.len() && forall|j: int|
        at < j < entries@.len() ==> (#[trigger] entries@[j]).0@ != entries@[at].0@ {
        let shown = entry_views(entries@);
        assert forall|j: int| at < j < shown.len() implies (#[trigger] shown[j]).0
            != shown[at].0 by {
            assert(entries@[j].0@ != entries@[at].0@);
        }
        lemma_member(shown, at);
    }
}

/// A member is found under its own name and no other, and only in an object.
pub proof fn law_members_are_found_by_name(
    members: Map<Seq<char>, JsonView>,
    name: Seq<char>,
    other: JsonView,
)
    ensures
        members.contains_key(name) ==> JsonView::Object(members).field(name) == Some(members[name]),
        !members.contains_key(name) ==> JsonView::Object(members).field(name) is None,
        !(other is Object) ==> other.field(name) is None,
{
}

/// The text of a member is that text, character for character; a member that is no text has
/// none.
pub proof fn law_text_members_are_read_whole(
    members: Map<Seq<char>, JsonView>,
    name: Seq<char>,
    text: Seq<char>,
)
    ensures
        members.contains_key(name) && members[name] == JsonView::Text(text) ==> text_field(
            JsonView::Object(members),
            name,
        ) == Some(text),
        !members.contains_key(name) || !(members[name] is Text) ==> text_field(
            JsonView::Object(members),
            name,
        ) is None,
{
}

/// The text of a member of a member is that text, character for character.
pub proof fn law_inner_text_members_are_read_whole(
    members: Map<Seq<char>, JsonView>,
    inner: Map<Seq<char>, JsonView>,
    outer_name: Seq<char>,
    name: Seq<char>,
    text: Seq<char>,
)
    requires
        members.contains_key(outer_name),
        members[outer_name] == JsonView::Object(inner),
    ensures
        inner.contains_key(name) && inner[name] == JsonView::Text(text) ==> text_field_of(
            JsonView::Object(members),
            outer_name,
            name,
        ) == Some(text),
        !inner.contains_key(name) || !(inner[name] is Text) ==> text_field_of(
            JsonView::Object(members),
            outer_name,
            name,
        ) is None,
{
}

/// A flag is set exactly if its member is `true`.
pub proof fn law_flags_are_set_by_true_alone(members: Map<Seq<char>, JsonView>, name: Seq<char>)
    ensures
        flag_field(JsonView::Object(members), name) <==> members.contains_key(name)
            && members[name] == JsonView::Bool(true),
{
}

/// An integer is read back from the JSON number that was made for it; text and truth are no
/// integers.
pub proof fn law_integers_are_read_back(n: int, text: Seq<char>, truth: bool)
    ensures
        i64::MIN <= n <= i64::MAX ==> integer(n).as_i64() == Some(n as i64),
        0 <= n <= u64::MAX ==> integer(n).as_u64() == Some(n as u64),
        n < 0 && i64::MIN <= n ==> integer(n).as_u64() is None,
        i64::MAX < n <= u64::MAX ==> integer(n).as_i64() is None,
        JsonView::Text(text).as_i64() is None,
        JsonView::Bool(truth).as_i64() is None,
        JsonView::Null.as_i64() is None,
{
}

/// An optional text is that text or `null`.
pub proof fn law_optional_texts_keep_their_text(text: Seq<char>, string: String)
    ensures
        text_or_null(Some(text)) == JsonView::Text(text),
        text_or_null(None) == JsonView::Null,
        text_of(Some(string)) == Some(string@),
        text_of(None) is None,
{
}

/// A list of trees has their values, each in its place; a text that is given is that text.
pub proof fn law_lists_have_their_values(items: Seq<JsonValue>, at: int, text: &str)
    requires
        0 <= at < items.len(),
    ensures
        json_views(items).len() == items.len(),
        json_views(items)[at] == items[at]@,
        slice_text(Some(text)) == Some(text@),
        slice_text(None) is None,
{
}

/// The layout of a tree holds the names of its members in the order they were written, and its
/// items in theirs.
pub proof fn law_layout_keeps_the_order(
    entries: Seq<(String, JsonValue)>,
    entry: (String, JsonValue),
    items: Seq<JsonValue>,
    item: JsonValue,
)
    ensures
        member_layout(Seq::empty()).len() == 0,
        member_layout(entries.push(entry)) == member_layout(entries).push(
            (entry.0@, layout(entry.1)),
        ),
        list_layout(Seq::empty()).len() == 0,
        list_layout(items.push(item)) == list_layout(items).push(layout(item)),
{
    assert(entries.push(entry).drop_last() =~= entries);
    assert(items.push(item).drop_last() =~= items);
}

} // verus!
