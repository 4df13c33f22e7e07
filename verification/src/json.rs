use crate::types::text_of;
use vstd::prelude::*;

verus! {

/// A JSON document of the `serde_json` crate.
#[verifier::external_type_specification]
#[verifier::external_body]
pub struct ExValue(serde_json::Value);

/// What stands at one place of a JSON document, as far as the library reads
/// it: a scalar with its value, a list with its length, or an object.
#[derive(Debug, Clone, PartialEq, Eq)]
pub enum FieldValue {
    /// A string.
    Text(String),
    /// A number, with its value where it is a whole number from 0 up to the
    /// greatest that 64 bits hold.
    Number(Option<u64>),
    /// `true` or `false`.
    Flag(bool),
    /// `null`.
    Null,
    /// A list of so many items.
    List(usize),
    /// An object.
    Object,
}

/// What stands at one place of a document, as plain values.
pub ghost enum FieldView {
    Text(Seq<char>),
    Number(Option<u64>),
    Flag(bool),
    Null,
    List(nat),
    Object,
}

impl View for FieldValue {
    type V = FieldView;

    open spec fn view(&self) -> FieldView {
        match self {
            FieldValue::Text(text) => FieldView::Text(text@),
            FieldValue::Number(number) => FieldView::Number(*number),
            FieldValue::Flag(flag) => FieldView::Flag(*flag),
            FieldValue::Null => FieldView::Null,
            FieldValue::List(length) => FieldView::List(*length as nat),
            FieldValue::Object => FieldView::Object,
        }
    }
}

/// The members of an object as plain values, in their order.
pub open spec fn members_view(members: Seq<(String, FieldValue)>) -> Seq<(Seq<char>, FieldView)> {
    Seq::new(members.len(), |i: int| (members[i].0@, members[i].1@))
}

/// What a JSON document holds: for each JSON pointer that leads to a value of
/// the document, what stands there.
pub uninterp spec fn json_values(document: serde_json::Value) -> Map<Seq<char>, FieldView>;

/// What `serde_json::from_str` reads a text as: what the document holds that
/// the text denotes, or `None` where the text is no JSON.
pub uninterp spec fn json_document(text: Seq<char>) -> Option<Map<Seq<char>, FieldView>>;

/// What `serde_json::to_string_pretty` writes for the object with the given
/// members.
pub uninterp spec fn json_text(members: Seq<(Seq<char>, FieldView)>) -> Seq<char>;

/// `serde_json::from_str` parses a text as a JSON document, or fails. Which
/// of the two, and what the document holds, depends on the text alone.
#[verifier::external_body]
pub(crate) fn parse_json(text: &str) -> (document: Option<serde_json::Value>)
    ensures
        match document {
            Some(parsed) => json_document(text@) == Some(json_values(parsed)),
            None => json_document(text@) is None,
        },
{
    serde_json::from_str::<serde_json::Value>(text).ok()
}

/// `Value::pointer` follows a JSON pointer into a document and gives the
/// value that it leads to, if it leads to one. That value is handed out as
/// what it is: a string, a number with what `Number::as_u64` makes of it, a
/// truth value, `null`, a list with its length, or an object.
#[verifier::external_body]
pub(crate) fn value_at(document: &serde_json::Value, pointer: &str) -> (value: Option<FieldValue>)
    ensures
        match value {
            Some(found) => json_values(*document).contains_key(pointer@) && json_values(
                *document,
            )[pointer@] == found@,
            None => !json_values(*document).contains_key(pointer@),
        },
{
    match document.pointer(pointer) {
        None => None,
        Some(serde_json::Value::String(text)) => Some(FieldValue::Text(text.clone())),
        Some(serde_json::Value::Number(number)) => Some(FieldValue::Number(number.as_u64())),
        Some(serde_json::Value::Bool(flag)) => Some(FieldValue::Flag(*flag)),
        Some(serde_json::Value::Null) => Some(FieldValue::Null),
        Some(serde_json::Value::Array(items)) => Some(FieldValue::List(items.len())),
        Some(serde_json::Value::Object(_)) => Some(FieldValue::Object),
    }
}

/// `serde_json::to_string_pretty` writes a JSON object as text. The object is
/// made of the members in their order, a later member replacing an earlier one
/// of the same key; a string is written as a string, a number as `Value::from`
/// makes it, which is `null` for one without a value, a truth value as such,
/// and the rest as `null`. The text depends on the members alone.
#[verifier::external_body]
pub(crate) fn write_json(members: &Vec<(String, FieldValue)>) -> (text: String)
    ensures
        text@ == json_text(members_view(members@)),
{
    let object: serde_json::Map<String, serde_json::Value> = members
        .iter()
        .map(|(key, value)| (key.clone(), match value {
            FieldValue::Text(text) => serde_json::Value::String(text.clone()),
            FieldValue::Number(number) => serde_json::Value::from(*number),
            FieldValue::Flag(flag) => serde_json::Value::Bool(*flag),
            _ => serde_json::Value::Null,
        }))
        .collect();
    serde_json::to_string_pretty(&object).unwrap_or_default()
}

/// The string that stands at a place of a document; `None` where nothing
/// stands there or what stands there is no string.
pub open spec fn text_in(values: Map<Seq<char>, FieldView>, pointer: Seq<char>) -> Option<
    Seq<char>,
> {
    if values.contains_key(pointer) {
        match values[pointer] {
            FieldView::Text(text) => Some(text),
            _ => None,
        }
    } else {
        None
    }
}

/// The number that stands at a place of a document; `None` where nothing
/// stands there or what stands there is no whole number of 64 bits.
pub open spec fn number_in(values: Map<Seq<char>, FieldView>, pointer: Seq<char>) -> Option<u64> {
    if values.contains_key(pointer) {
        match values[pointer] {
            FieldView::Number(Some(number)) => Some(number),
            _ => None,
        }
    } else {
        None
    }
}

/// The truth value that stands at a place of a document; `None` where
/// nothing stands there or what stands there is none.
pub open spec fn flag_in(values: Map<Seq<char>, FieldView>, pointer: Seq<char>) -> Option<bool> {
    if values.contains_key(pointer) {
        match values[pointer] {
            FieldView::Flag(flag) => Some(flag),
            _ => None,
        }
    } else {
        None
    }
}

/// The length of the list that stands at a place of a document; `None` where
/// nothing stands there or what stands there is no list.
pub open spec fn length_in(values: Map<Seq<char>, FieldView>, pointer: Seq<char>) -> Option<nat> {
    if values.contains_key(pointer) {
        match values[pointer] {
            FieldView::List(length) => Some(length),
            _ => None,
        }
    } else {
        None
    }
}

/// Whether a place of a document is empty: nothing stands there, or `null`.
pub open spec fn empty_in(values: Map<Seq<char>, FieldView>, pointer: Seq<char>) -> bool {
    !values.contains_key(pointer) || values[pointer] == FieldView::Null
}

/// The decimal digit for a number below ten.
pub open spec fn digit_of(d: nat) -> char {
    if d == 0 {
        '0'
    } else if d == 1 {
        '1'
    } else if d == 2 {
        '2'
    } else if d == 3 {
        '3'
    } else if d == 4 {
        '4'
    } else if d == 5 {
        '5'
    } else if d == 6 {
        '6'
    } else if d == 7 {
        '7'
    } else if d == 8 {
        '8'
    } else {
        '9'
    }
}

/// A number written in decimal digits, without zeros before it.
pub open spec fn decimal_of(n: nat) -> Seq<char>
    decreases n,
{
    if n < 10 {
        seq![digit_of(n)]
    } else {
        decimal_of(n / 10).push(digit_of(n % 10))
    }
}

/// The pointer to the member `key` of the object at `base`, for a key that
/// holds neither `/` nor `~`.
pub open spec fn member_pointer(base: Seq<char>, key: Seq<char>) -> Seq<char> {
    base + "/"@ + key
}

/// The pointer to item `index` of the list at `base`.
pub open spec fn item_pointer(base: Seq<char>, index: nat) -> Seq<char> {
    base + "/"@ + decimal_of(index)
}

/// The empty string literal holds no character.
pub proof fn empty_text_is_empty()
    ensures
        ""@ == Seq::<char>::empty(),
{
    reveal_strlit("");
    assert(""@ =~= Seq::<char>::empty());
}

fn digit(d: usize) -> (c: char)
    requires
        d < 10,
    ensures
        c == digit_of(d as nat),
{
    if d == 0 {
        '0'
    } else if d == 1 {
        '1'
    } else if d == 2 {
        '2'
    } else if d == 3 {
        '3'
    } else if d == 4 {
        '4'
    } else if d == 5 {
        '5'
    } else if d == 6 {
        '6'
    } else if d == 7 {
        '7'
    } else if d == 8 {
        '8'
    } else {
        '9'
    }
}

/// Writes a number in decimal digits.
pub fn decimal(n: usize) -> (digits: String)
    ensures
        digits@ == decimal_of(n as nat),
    decreases n,
{
    if n < 10 {
        let mut digits: String = String::new();
        digits.push(digit(n));
        assert(digits@ == seq![digit_of(n as nat)]);
        digits
    } else {
        let mut digits: String = decimal(n / 10);
        digits.push(digit(n % 10));
        digits
    }
}

/// The pointer to a member of the object at `base`.
pub fn pointer_to(base: &str, key: &str) -> (pointer: String)
    ensures
        pointer@ == member_pointer(base@, key@),
{
    let mut pointer: String = base.to_owned();
    pointer.append("/");
    pointer.append(key);
    pointer
}

/// The pointer to an item of the list at `base`.
pub fn pointer_to_item(base: &str, index: usize) -> (pointer: String)
    ensures
        pointer@ == item_pointer(base@, index as nat),
{
    let mut pointer: String = base.to_owned();
    pointer.append("/");
    pointer.append(decimal(index).as_str());
    pointer
}

/// The string at a place of a document.
pub(crate) fn text_at(document: &serde_json::Value, pointer: &str) -> (text: Option<String>)
    ensures
        text_of(text) == text_in(json_values(*document), pointer@),
{
    match value_at(document, pointer) {
        Some(FieldValue::Text(text)) => Some(text),
        _ => None,
    }
}

/// The number at a place of a document.
pub(crate) fn number_at(document: &serde_json::Value, pointer: &str) -> (number: Option<u64>)
    ensures
        number == number_in(json_values(*document), pointer@),
{
    match value_at(document, pointer) {
        Some(FieldValue::Number(Some(number))) => Some(number),
        _ => None,
    }
}

/// The truth value at a place of a document.
pub(crate) fn flag_at(document: &serde_json::Value, pointer: &str) -> (flag: Option<bool>)
    ensures
        flag == flag_in(json_values(*document), pointer@),
{
    match value_at(document, pointer) {
        Some(FieldValue::Flag(flag)) => Some(flag),
        _ => None,
    }
}

/// The length of the list at a place of a document.
pub(crate) fn length_at(document: &serde_json::Value, pointer: &str) -> (length: Option<usize>)
    ensures
        match length {
            Some(n) => length_in(json_values(*document), pointer@) == Some(n as nat),
            None => length_in(json_values(*document), pointer@) is None,
        },
{
    match value_at(document, pointer) {
        Some(FieldValue::List(length)) => Some(length),
        _ => None,
    }
}

/// Whether a place of a document is empty.
pub(crate) fn empty_at(document: &serde_json::Value, pointer: &str) -> (empty: bool)
    ensures
        empty == empty_in(json_values(*document), pointer@),
{
    match value_at(document, pointer) {
        None => true,
        Some(FieldValue::Null) => true,
        _ => false,
    }
}

} // verus!
