//! The errors that operations share, and the validation report of a
//! 400 response.

use vstd::prelude::*;
use vstd::string::*;

use crate::json::{
    lists_members, member, member_of, members, parse, parsed, text_at, text_member, tree_of,
    unsigned, unsigned_of, JsonTree,
};
use crate::transport::TransportError;

verus! {

/// One entry of a validation report as the server sends it: why a field was
/// refused.
#[derive(Clone, Debug, PartialEq, Eq)]
pub struct BadRequestInternalError {
    /// Error code.
    pub code: String,
    /// More details about the error.
    pub message: String,
}

/// One refused field of a request.
#[derive(Clone, Debug, PartialEq, Eq)]
pub struct BadRequestError {
    /// Name of the field.
    pub name: String,
    /// Error code.
    pub code: String,
    /// More details about the error.
    pub message: String,
}

/// The body of a 400 response that reports refused fields.
#[derive(Clone, Debug, PartialEq, Eq)]
pub struct BadRequestResponse {
    pub code: u16,
    pub message: String,
    /// The refused fields by name. A report that was read from a body names
    /// each field once: see `distinct_names`.
    pub data: Vec<(String, BadRequestInternalError)>,
}

/// What went wrong with a request.
#[derive(Clone, Debug, PartialEq, Eq)]
pub enum RequestError {
    /// The server answered 400: the request is missing fields or holds what
    /// the server does not accept.
    BadRequest(String),
    /// The server answered 401: the request needs an authorization token.
    Unauthorized,
    /// The server answered 403: the authenticated user may not do this.
    Forbidden,
    /// The server answered 404.
    NotFound,
    /// The response did not have the expected shape.
    ParseError(String),
    /// The request timed out or the server could not be reached.
    Unreachable,
    /// Anything else.
    Unhandled,
}

/// A refused field as mathematical values.
pub struct FieldErrorView {
    pub name: Seq<char>,
    pub code: Seq<char>,
    pub message: Seq<char>,
}

impl View for BadRequestError {
    type V = FieldErrorView;

    open spec fn view(&self) -> FieldErrorView {
        FieldErrorView { name: self.name@, code: self.code@, message: self.message@ }
    }
}

/// The refused fields of a list of errors.
pub open spec fn errors_view(errors: Seq<BadRequestError>) -> Seq<FieldErrorView> {
    errors.map_values(|error: BadRequestError| error@)
}

/// Whether a JSON tree has the shape of one entry of a validation report: an
/// object with a string `code` and a string `message`.
pub open spec fn entry_shape(tree: JsonTree) -> bool {
    text_at(tree, "code"@) is Some && text_at(tree, "message"@) is Some
}

/// Whether every member of an object has the shape of an entry.
pub open spec fn entries_shape(entries: Map<Seq<char>, JsonTree>) -> bool {
    forall|name: Seq<char>| #[trigger] entries.contains_key(name) ==> entry_shape(entries[name])
}

/// The entries of a validation report: the `data` member of the body, where
/// it is an object.
pub open spec fn report_entries(tree: JsonTree) -> Option<Map<Seq<char>, JsonTree>> {
    match member_of(tree, "data"@) {
        Some(JsonTree::Object(entries)) => Some(entries),
        _ => None,
    }
}

/// The `code` member of a validation report, where it is an integer within
/// 0..=65535.
pub open spec fn report_code(tree: JsonTree) -> Option<u16> {
    match member_of(tree, "code"@) {
        Some(found) => match unsigned_of(found) {
            Some(number) => if number <= 65535 {
                Some(number as u16)
            } else {
                None
            },
            None => None,
        },
        None => None,
    }
}

/// Whether a JSON tree has the shape of a validation report: an object with
/// an integer `code`, a string `message` and an object `data` whose members
/// all have the shape of an entry.
pub open spec fn report_shape(tree: JsonTree) -> bool {
    &&& report_code(tree) is Some
    &&& text_at(tree, "message"@) is Some
    &&& report_entries(tree) matches Some(entries) && entries_shape(entries)
}

/// Whether a list of refused fields holds what the entries of a report say:
/// each entry once, under its name, with its code and message, in some
/// order.
pub open spec fn reports(fields: Seq<FieldErrorView>, entries: Map<Seq<char>, JsonTree>) -> bool {
    &&& forall|i: int|
        0 <= i < fields.len() ==> {
            &&& entries.contains_key(#[trigger] fields[i].name)
            &&& text_at(entries[fields[i].name], "code"@) == Some(fields[i].code)
            &&& text_at(entries[fields[i].name], "message"@) == Some(fields[i].message)
        }
    &&& forall|i: int, j: int|
        0 <= i < j < fields.len() ==> #[trigger] fields[i].name != #[trigger] fields[j].name
    &&& forall|name: Seq<char>| #[trigger]
        entries.contains_key(name) ==> exists|i: int|
            0 <= i < fields.len() && #[trigger] fields[i].name == name
}

impl RequestError {
    /// The error for a request that brought no response: unreachable where
    /// the failure says so, else unhandled.
    pub open spec fn of_failure(failure: TransportError) -> RequestError {
        if failure.unreachable() {
            RequestError::Unreachable
        } else {
            RequestError::Unhandled
        }
    }

    /// The error for a request that brought no response.
    pub fn from_failure(failure: &TransportError) -> (r: RequestError)
        ensures
            r == RequestError::of_failure(*failure),
    {
        if failure.is_unreachable() {
            RequestError::Unreachable
        } else {
            RequestError::Unhandled
        }
    }
}

impl BadRequestError {
    /// The error as one line: the field's name, a colon, the code and the
    /// message.
    pub fn to_string(&self) -> (r: String)
        ensures
            r@ == self.name@ + ": "@ + self.code@ + " "@ + self.message@,
    {
        let mut line: String = self.name.clone();
        line.append(": ");
        line.append(self.code.as_str());
        line.append(" ");
        line.append(self.message.as_str());
        line
    }
}

impl BadRequestResponse {
    /// The refused fields of the report.
    pub open spec fn fields(self) -> Seq<FieldErrorView> {
        self.data@.map_values(
            |entry: (String, BadRequestInternalError)|
                FieldErrorView { name: entry.0@, code: entry.1.code@, message: entry.1.message@ },
        )
    }

    /// Whether no field is named twice in the report.
    pub open spec fn distinct_names(self) -> bool {
        forall|i: int, j: int|
            0 <= i < j < self.data@.len() ==> (#[trigger] self.data@[i]).0@ != (
            #[trigger] self.data@[j]).0@
    }

    /// Reads a validation report from a parsed body. `Some` exactly where
    /// the body has the shape of one; the report then names no field twice.
    pub fn from_json(value: &serde_json::Value) -> (r: Option<BadRequestResponse>)
        ensures
            r is Some <==> report_shape(tree_of(*value)),
            r matches Some(report) ==> {
                &&& report.distinct_names()
                &&& Some(report.code) == report_code(tree_of(*value))
                &&& Some(report.message@) == text_at(tree_of(*value), "message"@)
                &&& reports(report.fields(), report_entries(tree_of(*value))->0)
            },
    {
        let code: u16 = match member(value, "code") {
            Some(found) => match unsigned(found) {
                Some(number) => if number <= 65535 {
                    number as u16
                } else {
                    return None;
                },
                None => {
                    return None;
                },
            },
            None => {
                return None;
            },
        };
        let message: String = match text_member(value, "message") {
            Some(message) => message,
            None => {
                return None;
            },
        };
        let entries: Vec<(String, serde_json::Value)> = match member(value, "data") {
            Some(found) => match members(found) {
                Some(entries) => entries,
                None => {
                    return None;
                },
            },
            None => {
                return None;
            },
        };
        let ghost object = report_entries(tree_of(*value))->0;
        let mut data: Vec<(String, BadRequestInternalError)> = Vec::new();
        let mut i: usize = 0;
        while i < entries.len()
            invariant
                0 <= i <= entries.len(),
                report_entries(tree_of(*value)) == Some(object),
                lists_members(entries@, object),
                data.len() == i,
                forall|j: int|
                    0 <= j < i ==> {
                        &&& (#[trigger] data[j]).0@ == entries[j].0@
                        &&& text_at(object[entries[j].0@], "code"@) == Some(data[j].1.code@)
                        &&& text_at(object[entries[j].0@], "message"@) == Some(data[j].1.message@)
                    },
            decreases entries.len() - i,
        {
            let entry: &(String, serde_json::Value) = &entries[i];
            let entry_code: String = match text_member(&entry.1, "code") {
                Some(entry_code) => entry_code,
                None => {
                    assert(object.contains_key(entries[i as int].0@));
                    return None;
                },
            };
            let entry_message: String = match text_member(&entry.1, "message") {
                Some(entry_message) => entry_message,
                None => {
                    assert(object.contains_key(entries[i as int].0@));
                    return None;
                },
            };
            data.push(
                (entry.0.clone(), BadRequestInternalError { code: entry_code, message: entry_message }),
            );
            i = i + 1;
        }
        let report = BadRequestResponse { code, message, data };
        proof {
            let fields = report.fields();
            assert forall|j: int| 0 <= j < fields.len() implies {
                &&& object.contains_key(#[trigger] fields[j].name)
                &&& text_at(object[fields[j].name], "code"@) == Some(fields[j].code)
                &&& text_at(object[fields[j].name], "message"@) == Some(fields[j].message)
            } by {
                assert(fields[j].name == entries[j].0@);
            }
            assert forall|j: int, k: int| 0 <= j < k < fields.len() implies #[trigger] fields[j].name
                != #[trigger] fields[k].name by {
                assert(fields[j].name == entries[j].0@);
                assert(fields[k].name == entries[k].0@);
            }
            assert forall|j: int, k: int| 0 <= j < k < report.data@.len() implies (
            #[trigger] report.data@[j]).0@ != (#[trigger] report.data@[k]).0@ by {
                assert(fields[j].name == entries[j].0@);
                assert(fields[k].name == entries[k].0@);
            }
            assert forall|name: Seq<char>| #[trigger] object.contains_key(name) implies entry_shape(
                object[name],
            ) && exists|j: int| 0 <= j < fields.len() && #[trigger] fields[j].name == name by {
                let j = choose|j: int| 0 <= j < entries.len() && #[trigger] entries[j].0@ == name;
                assert(fields[j].name == name);
            }
        }
        Some(report)
    }

    /// Reads a validation report from the text of a body. `Some` exactly
    /// where the text is a JSON document with the shape of a report; the
    /// report then names no field twice.
    pub fn from_text(body: &str) -> (r: Option<BadRequestResponse>)
        ensures
            r is Some <==> (parsed(body@) matches Some(tree) && report_shape(tree)),
            r matches Some(report) ==> {
                &&& report.distinct_names()
                &&& Some(report.code) == report_code(parsed(body@)->0)
                &&& Some(report.message@) == text_at(parsed(body@)->0, "message"@)
                &&& reports(report.fields(), report_entries(parsed(body@)->0)->0)
            },
    {
        match parse(body) {
            Some(value) => BadRequestResponse::from_json(&value),
            None => None,
        }
    }

    /// The refused fields as a list of errors, in the order of the report.
    pub fn into_errors(self) -> (r: Vec<BadRequestError>)
        ensures
            errors_view(r@) == self.fields(),
    {
        let mut data: Vec<(String, BadRequestInternalError)> = self.data;
        let ghost start = data@;
        let mut errors: Vec<BadRequestError> = Vec::new();
        let mut i: usize = 0;
        while i < data.len()
            invariant
                0 <= i <= data.len(),
                data.len() == start.len(),
                errors.len() == i,
                forall|j: int| i <= j < data.len() ==> data[j] == start[j],
                forall|j: int|
                    0 <= j < i ==> {
                        &&& (#[trigger] errors[j]).name == start[j].0
                        &&& errors[j].code == start[j].1.code
                        &&& errors[j].message == start[j].1.message
                    },
            decreases data.len() - i,
        {
            let entry: &(String, BadRequestInternalError) = &data[i];
            errors.push(
                BadRequestError {
                    name: entry.0.clone(),
                    code: entry.1.code.clone(),
                    message: entry.1.message.clone(),
                },
            );
            i = i + 1;
        }
        errors
    }
}

} // verus!
