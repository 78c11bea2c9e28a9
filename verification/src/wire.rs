//! Operation logs in their JSON wire form: a list of objects with the
//! members `op`, `count` and `chars`, each of which may be missing.

use vstd::prelude::*;
use crate::operation::Operation;
use crate::operation::Type;

verus! {

/// `serde_json::Value`, a parsed JSON value. Nothing is known of what is
/// inside one but through the functions below.
#[verifier::external_type_specification]
#[verifier::external_body]
pub struct ExJsonValue(serde_json::Value);

/// `serde_json::Error`, the reason why a text did not parse. It is carried
/// no further than the function that maps it to `WireError`.
#[verifier::external_type_specification]
#[verifier::external_body]
pub struct ExJsonError(serde_json::Error);

/// The JSON value that a text parses to, if it is well-formed JSON.
pub uninterp spec fn parsed_json(text: Seq<char>) -> Option<serde_json::Value>;

/// The elements of a JSON value that is an array, in order.
pub uninterp spec fn json_elements(value: serde_json::Value) -> Option<Seq<serde_json::Value>>;

/// The member of a JSON object under a key; nothing for a value that is no
/// object or has no such member.
pub uninterp spec fn json_member(value: serde_json::Value, key: Seq<char>) -> Option<
    serde_json::Value,
>;

/// The characters of a JSON value that is a string.
pub uninterp spec fn json_text(value: serde_json::Value) -> Option<Seq<char>>;

/// The number held by a JSON value that is an integer within `i64`.
pub uninterp spec fn json_integer(value: serde_json::Value) -> Option<i64>;

/// Calls `serde_json::from_str` at the type `serde_json::Value`. Trusted:
/// the outcome is a function of the text alone, and an error means that the
/// text has no parse.
#[verifier::external_body]
fn parse_json(text: &str) -> (r: Result<serde_json::Value, serde_json::Error>)
    ensures
        match r {
            Ok(value) => parsed_json(text@) == Some(value),
            Err(_) => parsed_json(text@) is None,
        },
{
    serde_json::from_str::<serde_json::Value>(text)
}

/// Calls `serde_json::Value::as_array`. Trusted: it hands out the elements
/// of an array, and nothing for any other value.
#[verifier::external_body]
fn elements(value: &serde_json::Value) -> (r: Option<&Vec<serde_json::Value>>)
    ensures
        match r {
            Some(items) => json_elements(*value) == Some(items@),
            None => json_elements(*value) is None,
        },
{
    value.as_array()
}

/// Calls `serde_json::Value::get` with a string key. Trusted: it hands out
/// the member of an object under that key, and nothing where the value is
/// no object or has no such member.
#[verifier::external_body]
fn member<'a>(value: &'a serde_json::Value, key: &str) -> (r: Option<&'a serde_json::Value>)
    ensures
        match r {
            Some(found) => json_member(*value, key@) == Some(*found),
            None => json_member(*value, key@) is None,
        },
{
    value.get(key)
}

/// Calls `serde_json::Value::as_str`. Trusted: it hands out the characters
/// of a string, and nothing for any other value.
#[verifier::external_body]
fn text_of(value: &serde_json::Value) -> (r: Option<&str>)
    ensures
        match r {
            Some(text) => json_text(*value) == Some(text@),
            None => json_text(*value) is None,
        },
{
    value.as_str()
}

/// Calls `serde_json::Value::as_i64`. Trusted: it hands out the number of
/// an integer that fits `i64`, and nothing for any other value.
#[verifier::external_body]
fn integer_of(value: &serde_json::Value) -> (r: Option<i64>)
    ensures
        r == json_integer(*value),
{
    value.as_i64()
}

/// Why a text is no operation log.
#[derive(Clone, Copy, Debug, PartialEq, Eq)]
pub enum WireError {
    /// The text is not well-formed JSON.
    Malformed,
    /// The text is JSON, but not a list.
    NotAList,
}

/// The kind that a tag names. Any tag but the three known ones is a no-op.
pub open spec fn tag_kind(tag: Seq<char>) -> Type {
    if tag == "insert"@ {
        Type::Insert
    } else if tag == "delete"@ {
        Type::Delete
    } else if tag == "skip"@ {
        Type::Skip
    } else {
        Type::Noop
    }
}

/// The kind of a record: that of its `op` member where it is a string.
pub open spec fn record_kind(record: serde_json::Value) -> Type {
    match json_member(record, "op"@) {
        Some(found) => match json_text(found) {
            Some(tag) => tag_kind(tag),
            None => Type::Noop,
        },
        None => Type::Noop,
    }
}

/// The count of a record: its `count` member where it is an integer that
/// fits the machine's signed word, otherwise zero.
pub open spec fn record_count(record: serde_json::Value) -> int {
    match json_member(record, "count"@) {
        Some(found) => match json_integer(found) {
            Some(n) => if isize::MIN <= n <= isize::MAX {
                n as int
            } else {
                0
            },
            None => 0,
        },
        None => 0,
    }
}

/// The text of a record: its `chars` member where it is a string,
/// otherwise empty.
pub open spec fn record_chars(record: serde_json::Value) -> Seq<char> {
    match json_member(record, "chars"@) {
        Some(found) => match json_text(found) {
            Some(text) => text,
            None => Seq::<char>::empty(),
        },
        None => Seq::<char>::empty(),
    }
}

/// `operation` is what `record` stands for.
pub open spec fn decodes(record: serde_json::Value, operation: Operation) -> bool {
    &&& operation.op == record_kind(record)
    &&& operation.count as int == record_count(record)
    &&& operation.chars@ == record_chars(record)
}

/// `operations` is what the records stand for, one for one and in order.
pub open spec fn decodes_all(records: Seq<serde_json::Value>, operations: Seq<Operation>) -> bool {
    &&& operations.len() == records.len()
    &&& forall|i: int| 0 <= i < records.len() ==> decodes(records[i], #[trigger] operations[i])
}

/// What a text holds as an operation log: the records of its list.
pub open spec fn log_records(text: Seq<char>) -> Result<Seq<serde_json::Value>, WireError> {
    match parsed_json(text) {
        None => Err(WireError::Malformed),
        Some(value) => match json_elements(value) {
            None => Err(WireError::NotAList),
            Some(records) => Ok(records),
        },
    }
}

/// Whether two texts hold the same characters.
pub fn same_text(a: &str, b: &str) -> (r: bool)
    ensures
        r == (a@ == b@),
{
    let left = a.to_owned();
    let right = b.to_owned();
    left == right
}

/// The kind that a tag names.
pub fn kind_of_tag(tag: &str) -> (r: Type)
    ensures
        r == tag_kind(tag@),
{
    if same_text(tag, "insert") {
        Type::Insert
    } else if same_text(tag, "delete") {
        Type::Delete
    } else if same_text(tag, "skip") {
        Type::Skip
    } else {
        Type::Noop
    }
}

/// The count that a wire integer stands for: itself where it fits the
/// machine's signed word, otherwise zero.
pub fn count_of_integer(n: i64) -> (r: isize)
    ensures
        r as int == if isize::MIN <= n <= isize::MAX {
            n as int
        } else {
            0
        },
{
    if n >= isize::MIN as i64 && n <= isize::MAX as i64 {
        n as isize
    } else {
        0
    }
}

/// Decodes one record. Missing members, members of another type and unknown
/// tags fall back to the no-op, a zero count and the empty text.
pub fn operation_of_record(record: &serde_json::Value) -> (r: Operation)
    ensures
        decodes(*record, r),
{
    let op = match member(record, "op") {
        Some(found) => match text_of(found) {
            Some(tag) => kind_of_tag(tag),
            None => Type::Noop,
        },
        None => Type::Noop,
    };
    let count: isize = match member(record, "count") {
        Some(found) => match integer_of(found) {
            Some(n) => count_of_integer(n),
            None => 0,
        },
        None => 0,
    };
    let chars = match member(record, "chars") {
        Some(found) => match text_of(found) {
            Some(text) => text.to_owned(),
            None => String::new(),
        },
        None => String::new(),
    };
    Operation { op, count, chars }
}

/// Decodes a JSON value that holds a list of records; nothing where the
/// value is no list.
pub fn operations_of_value(value: &serde_json::Value) -> (r: Option<Vec<Operation>>)
    ensures
        match r {
            Some(operations) => json_elements(*value) matches Some(records) && decodes_all(
                records,
                operations@,
            ),
            None => json_elements(*value) is None,
        },
{
    match elements(value) {
        None => None,
        Some(items) => {
            let mut operations: Vec<Operation> = Vec::new();
            let mut i: usize = 0;
            while i < items.len()
                invariant
                    i <= items.len(),
                    operations.len() == i,
                    forall|k: int| 0 <= k < i ==> decodes(items@[k], #[trigger] operations@[k]),
                decreases items.len() - i,
            {
                let operation = operation_of_record(&items[i]);
                operations.push(operation);
                i = i + 1;
            }
            Some(operations)
        },
    }
}

/// Reads an operation log from its JSON text. The only failures are a text
/// that is not JSON and a text that is no list; within a list every record
/// decodes.
pub fn parse_operations(text: &str) -> (r: Result<Vec<Operation>, WireError>)
    ensures
        match r {
            Ok(operations) => log_records(text@) matches Ok(records) && decodes_all(
                records,
                operations@,
            ),
            Err(e) => log_records(text@) == Err::<Seq<serde_json::Value>, WireError>(e),
        },
{
    match parse_json(text) {
        Err(_) => Err(WireError::Malformed),
        Ok(value) => match operations_of_value(&value) {
            None => Err(WireError::NotAList),
            Some(operations) => Ok(operations),
        },
    }
}

} // verus!
