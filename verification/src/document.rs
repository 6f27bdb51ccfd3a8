//! The provider's documents. A document is a `json::JsonValue`: a tree that
//! Verus cannot look into. The library reads one only through the functions
//! of this module, and what they return is named here, so that contracts can
//! speak of it.

use json::JsonValue;
use vstd::prelude::*;
use vstd::string::StringSliceAdditionalSpecFns;
use vstd::utf8::encode_utf8;

verus! {

/// `json::JsonValue`, a JSON document of any shape.
#[verifier::external_type_specification]
#[verifier::external_body]
pub struct ExJsonValue(json::JsonValue);

/// `json::Error`, the reason why a text is no JSON document.
#[verifier::external_type_specification]
#[verifier::external_body]
pub struct ExJsonError(json::Error);

/// What reading a text as a document gives: the document that the text
/// writes, or the reason why it writes none.
pub uninterp spec fn parsed_document(text: Seq<char>) -> Result<JsonValue, json::Error>;

/// The words of a reason why a text writes no document.
pub uninterp spec fn parse_error_words(error: json::Error) -> Seq<char>;

/// The member of a document under a key.
pub uninterp spec fn document_member(doc: JsonValue, key: Seq<char>) -> JsonValue;

/// The element of a document at a position.
pub uninterp spec fn document_element(doc: JsonValue, index: usize) -> JsonValue;

/// Whether a document is `null`.
pub uninterp spec fn document_is_null(doc: JsonValue) -> bool;

/// Whether a document is a list.
pub uninterp spec fn document_is_array(doc: JsonValue) -> bool;

/// Whether a document is empty: `null`, a text without characters, a list
/// without elements, an object without members, the number 0, or `false`.
pub uninterp spec fn document_is_empty(doc: JsonValue) -> bool;

/// Whether a document is a number.
pub uninterp spec fn document_is_number(doc: JsonValue) -> bool;

/// Whether a document is a truth value.
pub uninterp spec fn document_is_boolean(doc: JsonValue) -> bool;

/// How many elements a list has, or how many members an object.
pub uninterp spec fn document_len(doc: JsonValue) -> usize;

/// A document written out for a reader.
pub uninterp spec fn document_text(doc: JsonValue) -> Seq<char>;

/// The reader of documents counts the digits of a fraction in sixteen
/// bits: a text is safe to read where fewer than this many decimal digits
/// stand side by side behind a point.
pub const FRACTION_LIMIT: usize = 32768;

pub open spec fn is_digit_byte(byte: u8) -> bool {
    0x30 <= byte <= 0x39
}

pub open spec fn is_point_byte(byte: u8) -> bool {
    byte == 0x2E
}

/// How many decimal digits stand at the end of a text's bytes, where they
/// stand directly behind a point; `None` where the end is no such run.
pub open spec fn trailing_fraction(bytes: Seq<u8>) -> Option<nat>
    decreases bytes.len(),
{
    if bytes.len() == 0 {
        None
    } else if is_point_byte(bytes.last()) {
        Some(0)
    } else if is_digit_byte(bytes.last()) {
        match trailing_fraction(bytes.drop_last()) {
            Some(n) => Some(n + 1),
            None => None,
        }
    } else {
        None
    }
}

/// The most decimal digits that stand side by side behind a point, in a
/// text's bytes.
pub open spec fn longest_fraction(bytes: Seq<u8>) -> nat
    decreases bytes.len(),
{
    if bytes.len() == 0 {
        0
    } else {
        let before = longest_fraction(bytes.drop_last());
        match trailing_fraction(bytes) {
            Some(n) => if n > before {
                n
            } else {
                before
            },
            None => before,
        }
    }
}

/// Whether a text is safe to read as a document: none of its runs of
/// decimal digits behind a point reaches the limit.
pub open spec fn is_readable(text: Seq<char>) -> bool {
    longest_fraction(encode_utf8(text)) < FRACTION_LIMIT
}

/// Tests whether a text is safe to read as a document.
pub fn readable(text: &str) -> (r: bool)
    ensures
        r == is_readable(text@),
{
    let bytes = text.as_bytes();
    let n: usize = bytes.len();
    let mut i: usize = 0;
    let mut behind_point = false;
    let mut run: usize = 0;
    let mut longest: usize = 0;
    while i < n
        invariant
            n == bytes@.len(),
            i <= n,
            behind_point == trailing_fraction(bytes@.take(i as int)) is Some,
            behind_point ==> run == trailing_fraction(bytes@.take(i as int))->Some_0,
            longest == longest_fraction(bytes@.take(i as int)),
            run <= i,
            longest <= i,
        decreases n - i,
    {
        assert(bytes@.take(i + 1).drop_last() =~= bytes@.take(i as int));
        let byte: u8 = bytes[i];
        if byte == 0x2E {
            behind_point = true;
            run = 0;
        } else if 0x30 <= byte && byte <= 0x39 {
            if behind_point {
                run = run + 1;
            }
        } else {
            behind_point = false;
        }
        if behind_point && run > longest {
            longest = run;
        }
        i += 1;
    }
    assert(bytes@.take(n as int) =~= bytes@);
    longest < FRACTION_LIMIT
}

/// `json::parse`: reads a text as one JSON document, or says why it is none.
/// It is called only on a text that is safe to read: on a fraction of more
/// digits than sixteen bits count, its arithmetic overflows. The contract
/// claims only that the outcome is fixed by the text.
#[verifier::external_body]
pub(crate) fn parse_json(text: &str) -> (r: Result<JsonValue, json::Error>)
    requires
        is_readable(text@),
    ensures
        r == parsed_document(text@),
{
    json::parse(text)
}

/// `Display` of `json::Error`: the parser's message, which the error fixes.
#[verifier::external_body]
pub(crate) fn parse_error_text(error: &json::Error) -> (r: String)
    ensures
        r@ == parse_error_words(*error),
{
    format!("{}", error)
}

/// `Index<&str>` of `JsonValue`: the member under `key`, and `null` where the
/// document is no object or has no such member.
#[verifier::external_body]
pub(crate) fn member<'a>(doc: &'a JsonValue, key: &str) -> (r: &'a JsonValue)
    ensures
        *r == document_member(*doc, key@),
{
    &doc[key]
}

/// `Index<usize>` of `JsonValue`: the element at `index`, and `null` where the
/// document is no list or is shorter.
#[verifier::external_body]
pub(crate) fn element(doc: &JsonValue, index: usize) -> (r: &JsonValue)
    ensures
        *r == document_element(*doc, index),
{
    &doc[index]
}

/// `JsonValue::is_null`.
#[verifier::external_body]
pub(crate) fn is_null(doc: &JsonValue) -> (r: bool)
    ensures
        r == document_is_null(*doc),
{
    doc.is_null()
}

/// `JsonValue::is_array`.
#[verifier::external_body]
pub(crate) fn is_array(doc: &JsonValue) -> (r: bool)
    ensures
        r == document_is_array(*doc),
{
    doc.is_array()
}

/// `JsonValue::is_empty`: true of `null`, of a text without characters, of
/// a list without elements, of an object without members, of a number that
/// is 0 or no number, and of `false`.
#[verifier::external_body]
pub(crate) fn is_empty(doc: &JsonValue) -> (r: bool)
    ensures
        r == document_is_empty(*doc),
{
    doc.is_empty()
}

/// `JsonValue::is_number`.
#[verifier::external_body]
pub(crate) fn is_number(doc: &JsonValue) -> (r: bool)
    ensures
        r == document_is_number(*doc),
{
    doc.is_number()
}

/// `JsonValue::is_boolean`.
#[verifier::external_body]
pub(crate) fn is_boolean(doc: &JsonValue) -> (r: bool)
    ensures
        r == document_is_boolean(*doc),
{
    doc.is_boolean()
}

/// `JsonValue::len`: the number of elements of a list, of members of an
/// object, and 0 for anything else.
#[verifier::external_body]
pub(crate) fn length(doc: &JsonValue) -> (r: usize)
    ensures
        r == document_len(*doc),
{
    doc.len()
}

/// `Display` of `JsonValue`: a string as it is, a number in decimal
/// notation, a truth value and `null` as their words, a list or an object as
/// compact JSON. The contract claims only that the text is fixed by the
/// document.
#[verifier::external_body]
pub(crate) fn text(doc: &JsonValue) -> (r: String)
    ensures
        r@ == document_text(*doc),
{
    format!("{}", doc)
}

/// `Clone` of `JsonValue`: a copy of the whole tree.
#[verifier::external_body]
pub(crate) fn duplicate(doc: &JsonValue) -> (r: JsonValue)
    ensures
        r == *doc,
{
    doc.clone()
}

} // verus!
