//! Classification of the lines that the dongle sends.
//!
//! In verbose mode the dongle answers with one JSON object per line. A
//! line that is not JSON at all (`ECHO OFF`, `VERBOSE ON`, `OK`) is handed
//! back to the caller as a parse error that carries the line, so that the
//! driver can compare it with the literals it knows.

use vstd::prelude::*;
use vstd::string::*;

verus! {

/// Whether `c` is one of the characters that end a line on the wire.
pub open spec fn is_line_end(c: char) -> bool {
    c == '\r' || c == '\n'
}

/// The line `line` without the line ends that trail it.
pub open spec fn strip_line_end(line: Seq<char>) -> Seq<char>
    decreases line.len(),
{
    if line.len() > 0 && is_line_end(line.last()) {
        strip_line_end(line.drop_last())
    } else {
        line
    }
}

/// The stripped line is what is left of `line` when a run of line ends is
/// taken off its end, and the run is as long as it can be: the stripped
/// line does not end in a line end.
pub proof fn lemma_strip_line_end(line: Seq<char>)
    ensures
        strip_line_end(line).len() <= line.len(),
        strip_line_end(line) == line.take(strip_line_end(line).len() as int),
        forall|i: int|
            strip_line_end(line).len() <= i < line.len() ==> is_line_end(#[trigger] line[i]),
        strip_line_end(line).len() > 0 ==> !is_line_end(strip_line_end(line).last()),
    decreases line.len(),
{
    if line.len() > 0 && is_line_end(line.last()) {
        let shorter = line.drop_last();
        lemma_strip_line_end(shorter);
        let kept = strip_line_end(shorter).len() as int;
        assert(shorter.take(kept) =~= line.take(kept));
        assert forall|i: int| kept <= i < line.len() implies is_line_end(#[trigger] line[i]) by {
            if i < shorter.len() {
                assert(line[i] == shorter[i]);
            }
        }
    } else {
        assert(line.take(line.len() as int) =~= line);
    }
}

/// Takes the trailing carriage returns and line feeds off `line`.
pub fn trim_line_end(line: &str) -> (r: &str)
    ensures
        r@ == strip_line_end(line@),
{
    let mut n: usize = line.unicode_len();
    assert(line@.take(n as int) =~= line@);
    while n > 0
        invariant
            n <= line@.len(),
            strip_line_end(line@) == strip_line_end(line@.take(n as int)),
        decreases n,
    {
        let c: char = line.get_char(n - 1);
        assert(line@.take(n as int).last() == c);
        if c != '\r' && c != '\n' {
            return line.substring_char(0, n);
        }
        assert(line@.take(n as int).drop_last() =~= line@.take(n - 1));
        n = n - 1;
    }
    line.substring_char(0, n)
}

/// What one structured line of the dongle says.
#[derive(Debug, Clone, PartialEq, Eq)]
pub enum ProtocolResponse {
    /// The dongle acknowledged a command, with its error code.
    Acknowledgement { error_code: i64 },
    /// The dongle finished answering a command.
    EndOfResponse,
    /// An advertisement that the running scan picked up.
    ScanResult { address: String, data: String },
    /// A structured line of no kind that the driver knows.
    Unrecognized { raw_line: String },
}

/// The mathematical value of a `ProtocolResponse`.
pub enum ResponseView {
    Acknowledgement { error_code: i64 },
    EndOfResponse,
    ScanResult { address: Seq<char>, data: Seq<char> },
    Unrecognized { raw_line: Seq<char> },
}

impl View for ProtocolResponse {
    type V = ResponseView;

    open spec fn view(&self) -> ResponseView {
        match *self {
            ProtocolResponse::Acknowledgement { error_code } => ResponseView::Acknowledgement {
                error_code,
            },
            ProtocolResponse::EndOfResponse => ResponseView::EndOfResponse,
            ProtocolResponse::ScanResult { address, data } => ResponseView::ScanResult {
                address: address@,
                data: data@,
            },
            ProtocolResponse::Unrecognized { raw_line } => ResponseView::Unrecognized {
                raw_line: raw_line@,
            },
        }
    }
}

/// A line that is not structured; it carries the line as received.
#[derive(Debug, Clone, PartialEq, Eq)]
pub struct ParseError {
    pub raw_line: String,
}

impl View for ParseError {
    type V = Seq<char>;

    open spec fn view(&self) -> Seq<char> {
        self.raw_line@
    }
}

/// Error code of an acknowledgement whose `err` member is not an integer.
pub const UNKNOWN_ERROR_CODE: i64 = -1;

/// What the classifier reads from a structured line.
#[derive(Debug, Clone, PartialEq, Eq)]
pub struct LineFields {
    /// Whether the object has a member `err`.
    pub has_err: bool,
    /// The member `err`, where it is an integer.
    pub err: Option<i64>,
    /// Whether the object has the end marker, a member `E`.
    pub is_end: bool,
    /// The member `addr`, where it is a string.
    pub address: Option<String>,
    /// The member `data`, where it is a string.
    pub data: Option<String>,
}

/// The mathematical value of a `LineFields`.
pub struct FieldsView {
    pub has_err: bool,
    pub err: Option<i64>,
    pub is_end: bool,
    pub address: Option<Seq<char>>,
    pub data: Option<Seq<char>>,
}

/// The characters of an optional string.
pub open spec fn text_view(text: Option<String>) -> Option<Seq<char>> {
    match text {
        Some(s) => Some(s@),
        None => None,
    }
}

impl View for LineFields {
    type V = FieldsView;

    open spec fn view(&self) -> FieldsView {
        FieldsView {
            has_err: self.has_err,
            err: self.err,
            is_end: self.is_end,
            address: text_view(self.address),
            data: text_view(self.data),
        }
    }
}

/// The mathematical value of optional line fields.
pub open spec fn fields_view(fields: Option<LineFields>) -> Option<FieldsView> {
    match fields {
        Some(f) => Some(f@),
        None => None,
    }
}

/// The mathematical value of a classification.
pub open spec fn classification_view(r: Result<ProtocolResponse, ParseError>) -> Result<
    ResponseView,
    Seq<char>,
> {
    match r {
        Ok(response) => Ok(response@),
        Err(e) => Err(e@),
    }
}

/// How the line `line` is classified when structured parsing gave
/// `fields`, or gave nothing.
///
/// An object with `err` is an acknowledgement, whose code is `err` where
/// that is an integer and `UNKNOWN_ERROR_CODE` otherwise. Without `err`,
/// an object with the end marker ends a response. Without either, an
/// object with a string `addr` and a string `data` is a scan result.
/// Every other object is unrecognized. A line that is no JSON is an error.
pub open spec fn classify_spec(line: Seq<char>, fields: Option<FieldsView>) -> Result<
    ResponseView,
    Seq<char>,
> {
    match fields {
        None => Err(line),
        Some(f) => Ok(
            if f.has_err {
                ResponseView::Acknowledgement {
                    error_code: match f.err {
                        Some(code) => code,
                        None => UNKNOWN_ERROR_CODE,
                    },
                }
            } else if f.is_end {
                ResponseView::EndOfResponse
            } else if f.address is Some && f.data is Some {
                ResponseView::ScanResult { address: f.address->0, data: f.data->0 }
            } else {
                ResponseView::Unrecognized { raw_line: line }
            },
        ),
    }
}

/// Classifies the line `line`, given what structured parsing found in it.
pub fn classify_fields(line: &str, fields: Option<LineFields>) -> (r: Result<
    ProtocolResponse,
    ParseError,
>)
    ensures
        classification_view(r) == classify_spec(line@, fields_view(fields)),
{
    match fields {
        None => Err(ParseError { raw_line: line.to_owned() }),
        Some(f) => {
            if f.has_err {
                let error_code: i64 = match f.err {
                    Some(code) => code,
                    None => UNKNOWN_ERROR_CODE,
                };
                Ok(ProtocolResponse::Acknowledgement { error_code })
            } else if f.is_end {
                Ok(ProtocolResponse::EndOfResponse)
            } else {
                match (f.address, f.data) {
                    (Some(address), Some(data)) => Ok(
                        ProtocolResponse::ScanResult { address, data },
                    ),
                    _ => Ok(ProtocolResponse::Unrecognized { raw_line: line.to_owned() }),
                }
            }
        },
    }
}

/// What a JSON value holds, as far as the classifier reads it.
pub enum JsonView {
    /// A number that is an integer and that an `i64` can hold.
    Integer(i64),
    /// A string.
    Text(Seq<char>),
    /// An object, with its members by key.
    Object(Map<Seq<char>, JsonView>),
    /// Anything else: null, a boolean, another number, an array.
    Other,
}

/// The member `key` of `value`, where `value` is an object that has one.
pub open spec fn member_of(value: JsonView, key: Seq<char>) -> Option<JsonView> {
    match value {
        JsonView::Object(members) => if members.contains_key(key) {
            Some(members[key])
        } else {
            None
        },
        _ => None,
    }
}

/// `value` as an integer, where it is one.
pub open spec fn integer_of(value: JsonView) -> Option<i64> {
    match value {
        JsonView::Integer(i) => Some(i),
        _ => None,
    }
}

/// The characters of `value`, where it is a string.
pub open spec fn text_of(value: JsonView) -> Option<Seq<char>> {
    match value {
        JsonView::Text(s) => Some(s),
        _ => None,
    }
}

/// The member `key` of `value` as an integer.
pub open spec fn integer_member(value: JsonView, key: Seq<char>) -> Option<i64> {
    match member_of(value, key) {
        Some(found) => integer_of(found),
        None => None,
    }
}

/// The member `key` of `value` as text.
pub open spec fn text_member(value: JsonView, key: Seq<char>) -> Option<Seq<char>> {
    match member_of(value, key) {
        Some(found) => text_of(found),
        None => None,
    }
}

/// What the classifier reads from the JSON value `value`.
pub open spec fn fields_of(value: JsonView) -> FieldsView {
    FieldsView {
        has_err: member_of(value, "err"@) is Some,
        err: integer_member(value, "err"@),
        is_end: member_of(value, "E"@) is Some,
        address: text_member(value, "addr"@),
        data: text_member(value, "data"@),
    }
}

/// `serde_json::Value`, a parsed JSON value; it is read through
/// `member`, `as_integer` and `as_text` only.
#[verifier::external_type_specification]
#[verifier::external_body]
pub struct ExJsonValue(serde_json::Value);

/// `serde_json::Error`, the error of `serde_json::from_str`; nothing is
/// read from it.
#[verifier::external_type_specification]
#[verifier::external_body]
pub struct ExJsonError(serde_json::Error);

/// What the parsed value `value` holds.
pub uninterp spec fn json_view(value: serde_json::Value) -> JsonView;

/// What the JSON value holds that the text `text` denotes; nothing where
/// `text` is not JSON.
pub uninterp spec fn json_parse(text: Seq<char>) -> Option<JsonView>;

/// What the classifier reads from the line `line`, where it is JSON.
pub open spec fn line_fields(line: Seq<char>) -> Option<FieldsView> {
    match json_parse(line) {
        Some(value) => Some(fields_of(value)),
        None => None,
    }
}

/// `serde_json::from_str` at `serde_json::Value`: the value that `text`
/// denotes, or an error where `text` is not JSON. The same text always
/// denotes the same value.
#[verifier::external_body]
fn parse_json(text: &str) -> (r: Result<serde_json::Value, serde_json::Error>)
    ensures
        match r {
            Ok(value) => json_parse(text@) == Some(json_view(value)),
            Err(_) => json_parse(text@) is None,
        },
{
    serde_json::from_str::<serde_json::Value>(text)
}

/// `serde_json::Value::get` with a string index: the member `key` of an
/// object, nothing for a missing key or a value that is no object.
#[verifier::external_body]
fn member<'a>(value: &'a serde_json::Value, key: &str) -> (r: Option<&'a serde_json::Value>)
    ensures
        match r {
            Some(found) => member_of(json_view(*value), key@) == Some(json_view(*found)),
            None => member_of(json_view(*value), key@) is None,
        },
{
    value.get(key)
}

/// `serde_json::Value::as_i64`: the value where it is an integer that an
/// `i64` can hold, nothing otherwise.
#[verifier::external_body]
fn as_integer(value: &serde_json::Value) -> (r: Option<i64>)
    ensures
        r == integer_of(json_view(*value)),
{
    value.as_i64()
}

/// `serde_json::Value::as_str`: the characters of a string, nothing for
/// any other value.
#[verifier::external_body]
fn as_text<'a>(value: &'a serde_json::Value) -> (r: Option<&'a str>)
    ensures
        match r {
            Some(s) => text_of(json_view(*value)) == Some(s@),
            None => text_of(json_view(*value)) is None,
        },
{
    value.as_str()
}

/// The member `key` of `value`, owned, where it is a string.
fn owned_text_member(value: &serde_json::Value, key: &str) -> (r: Option<String>)
    ensures
        text_view(r) == text_member(json_view(*value), key@),
{
    match member(value, key) {
        Some(found) => match as_text(found) {
            Some(s) => Some(s.to_owned()),
            None => None,
        },
        None => None,
    }
}

/// Reads from `value` what the classifier looks at.
fn read_fields(value: &serde_json::Value) -> (r: LineFields)
    ensures
        r@ == fields_of(json_view(*value)),
{
    let err_member = member(value, "err");
    let err: Option<i64> = match err_member {
        Some(found) => as_integer(found),
        None => None,
    };
    LineFields {
        has_err: err_member.is_some(),
        err,
        is_end: member(value, "E").is_some(),
        address: owned_text_member(value, "addr"),
        data: owned_text_member(value, "data"),
    }
}

/// Reads from the line `line` what the classifier looks at; nothing where
/// the line is not JSON.
pub fn parse_line(line: &str) -> (r: Option<LineFields>)
    ensures
        fields_view(r) == line_fields(line@),
{
    match parse_json(line) {
        Ok(value) => Some(read_fields(&value)),
        Err(_) => None,
    }
}

/// Classifies one line of dongle output.
pub fn classify(line: &str) -> (r: Result<ProtocolResponse, ParseError>)
    ensures
        classification_view(r) == classify_spec(line@, line_fields(line@)),
{
    classify_fields(line, parse_line(line))
}

} // verus!
