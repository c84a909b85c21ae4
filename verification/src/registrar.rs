//! The account registrar: classifies the answer to a creation request.

use vstd::prelude::*;
use vstd::string::*;
use crate::decode::{int32_at, int32_member, text_at, text_member};
use crate::json::{json_of, json_parse, member, member_at, parse, Json};
use crate::status::{is_success, reason_phrase, reason_text, status_is_success, status_line, status_text};
use crate::text::{decimal, natural_text};

verus! {

/// An account as the service reports it after creating it.
#[derive(Debug, PartialEq, Eq)]
pub struct CreatedAccount {
    pub id: i32,
    pub name: String,
}

/// A created account as a mathematical value.
pub struct CreatedView {
    pub id: i32,
    pub name: Seq<char>,
}

impl View for CreatedAccount {
    type V = CreatedView;

    open spec fn view(&self) -> CreatedView {
        CreatedView { id: self.id, name: self.name@ }
    }
}

/// Why an account was not created.
#[derive(Debug, PartialEq, Eq)]
pub enum CreateError {
    /// The request was answered with a status outside the success class.
    Api { status: u16, reason: String, detail: String },
    /// The request was answered with success, but the body does not describe a
    /// created account.
    UnreadableResponse,
    /// The request could not be sent or no answer came back.
    Transport { description: String },
}

/// A creation failure as a mathematical value.
pub enum CreateErrorView {
    Api { status: u16, reason: Seq<char>, detail: Seq<char> },
    UnreadableResponse,
    Transport { description: Seq<char> },
}

impl View for CreateError {
    type V = CreateErrorView;

    open spec fn view(&self) -> CreateErrorView {
        match self {
            CreateError::Api { status, reason, detail } => CreateErrorView::Api {
                status: *status,
                reason: reason@,
                detail: detail@,
            },
            CreateError::UnreadableResponse => CreateErrorView::UnreadableResponse,
            CreateError::Transport { description } => CreateErrorView::Transport {
                description: description@,
            },
        }
    }
}

/// The message of a creation failure.
pub open spec fn create_error_message(error: CreateErrorView) -> Seq<char> {
    match error {
        CreateErrorView::Api { status, reason, detail } => "API error ("@ + decimal(status as int)
            + " "@ + reason + "): "@ + detail,
        CreateErrorView::UnreadableResponse => "Failed to parse API response"@,
        CreateErrorView::Transport { description } => "Failed to send API request: "@
            + description,
    }
}

impl CreateError {
    /// Writes the message of this failure.
    pub fn message(&self) -> (r: String)
        ensures
            r@ == create_error_message(self@),
    {
        match self {
            CreateError::Api { status, reason, detail } => {
                let mut text = String::from_str("API error (");
                text.append(natural_text(*status as u64).as_str());
                text.append(" ");
                text.append(reason.as_str());
                text.append("): ");
                text.append(detail.as_str());
                text
            },
            CreateError::UnreadableResponse => String::from_str("Failed to parse API response"),
            CreateError::Transport { description } => {
                let mut text = String::from_str("Failed to send API request: ");
                text.append(description.as_str());
                text
            },
        }
    }
}

/// The created account that a success body describes: an object with a string
/// `message` and an object `account` that has an integer `id` that 32 bits can
/// hold and a string `name`.
pub open spec fn created_in(document: Json) -> Option<CreatedView> {
    match (text_at(document, "message"@), member_at(document, "account"@)) {
        (Some(_), Some(account)) => match (int32_at(account, "id"@), text_at(account, "name"@)) {
            (Some(id), Some(name)) => Some(CreatedView { id, name }),
            _ => None,
        },
        _ => None,
    }
}

/// The error text that a failure body carries: the string `error` of an
/// object.
pub open spec fn error_in(document: Json) -> Option<Seq<char>> {
    text_at(document, "error"@)
}

/// The detail of a failure answer: the error text that the body carries, else
/// the body itself under a label, else, for an empty body, the status written
/// out with a note.
pub open spec fn failure_detail(status: u16, body: Seq<char>, document: Option<Json>) -> Seq<char> {
    if body.len() == 0 {
        "HTTP Error: "@ + status_line(status) + " (no response body)"@
    } else {
        match document {
            Some(read) => match error_in(read) {
                Some(text) => text,
                None => "Error response: "@ + body,
            },
            None => "Error response: "@ + body,
        }
    }
}

/// What an answer to a creation request means, given its status, its body, and
/// the document read from the body, `None` where the body is no JSON document.
pub open spec fn classification(status: u16, body: Seq<char>, document: Option<Json>) -> Result<
    CreatedView,
    CreateErrorView,
> {
    if is_success(status) {
        match document {
            Some(read) => match created_in(read) {
                Some(created) => Ok(created),
                None => Err(CreateErrorView::UnreadableResponse),
            },
            None => Err(CreateErrorView::UnreadableResponse),
        }
    } else {
        Err(
            CreateErrorView::Api {
                status,
                reason: reason_phrase(status),
                detail: failure_detail(status, body, document),
            },
        )
    }
}

/// What an answer to a creation request means, given its status and its body.
pub open spec fn creation_result(status: u16, body: Seq<char>) -> Result<
    CreatedView,
    CreateErrorView,
> {
    classification(status, body, json_parse(body))
}

/// The result of a creation as a mathematical value.
pub open spec fn outcome_view(result: Result<CreatedAccount, CreateError>) -> Result<
    CreatedView,
    CreateErrorView,
> {
    match result {
        Ok(created) => Ok(created@),
        Err(error) => Err(error@),
    }
}

/// The document that an optional JSON value stands for.
pub open spec fn document_of(value: Option<&serde_json::Value>) -> Option<Json> {
    match value {
        Some(read) => Some(json_of(*read)),
        None => None,
    }
}

/// Reads a created account out of a success body.
pub fn created_from(value: &serde_json::Value) -> (r: Option<CreatedAccount>)
    ensures
        match r {
            Some(created) => created_in(json_of(*value)) == Some(created@),
            None => created_in(json_of(*value)) is None,
        },
{
    match text_member(value, "message") {
        Some(_) => match member(value, "account") {
            Some(account) => match int32_member(account, "id") {
                Some(id) => match text_member(account, "name") {
                    Some(name) => Some(CreatedAccount { id, name }),
                    None => None,
                },
                None => None,
            },
            None => None,
        },
        None => None,
    }
}

/// Writes the detail of a failure answer.
pub fn failure_detail_text(status: u16, body: &str, document: Option<&serde_json::Value>) -> (r:
    String)
    ensures
        r@ == failure_detail(status, body@, document_of(document)),
{
    if body.is_empty() {
        let mut text = String::from_str("HTTP Error: ");
        text.append(status_text(status).as_str());
        text.append(" (no response body)");
        text
    } else {
        let carried = match document {
            Some(read) => text_member(read, "error"),
            None => None,
        };
        match carried {
            Some(text) => text,
            None => {
                let mut text = String::from_str("Error response: ");
                text.append(body);
                text
            },
        }
    }
}

/// Classifies an answer to a creation request whose body has been read,
/// `None` standing for a body that is no JSON document.
pub fn classify(status: u16, body: &str, document: Option<&serde_json::Value>) -> (r: Result<
    CreatedAccount,
    CreateError,
>)
    ensures
        outcome_view(r) == classification(status, body@, document_of(document)),
{
    if status_is_success(status) {
        match document {
            Some(read) => match created_from(read) {
                Some(created) => Ok(created),
                None => Err(CreateError::UnreadableResponse),
            },
            None => Err(CreateError::UnreadableResponse),
        }
    } else {
        Err(
            CreateError::Api {
                status,
                reason: reason_text(status),
                detail: failure_detail_text(status, body, document),
            },
        )
    }
}

/// Classifies an answer to a creation request: a created account for a
/// success status with a body that describes one, a failure otherwise.
pub fn creation_outcome(status: u16, body: &str) -> (r: Result<CreatedAccount, CreateError>)
    ensures
        outcome_view(r) == creation_result(status, body@),
{
    match parse(body) {
        Ok(value) => classify(status, body, Some(&value)),
        Err(_) => classify(status, body, None),
    }
}

} // verus!
