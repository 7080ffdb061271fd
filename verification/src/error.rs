use vstd::prelude::*;

use crate::json::{json_quote, json_string_literal, lemma_json_string_literal_is_decodable};

verus! {

#[verifier::external_type_specification]
#[verifier::external_body]
pub struct ExAnyhowError(anyhow::Error);

/// The errors that the service answers requests with.
pub enum AppError {
    /// A named resource does not exist.
    NotAvailableError(String),
    /// Anything else went wrong.
    UnexpectedError(anyhow::Error),
}

/// Why publishing an event failed: the broker refused it (`Nack`) or any other step failed
/// (`Invalid`).
pub enum PublishError {
    Invalid(anyhow::Error),
    Nack(anyhow::Error),
}

impl From<PublishError> for AppError {
    fn from(e: PublishError) -> (r: AppError) {
        match e {
            PublishError::Invalid(e) => AppError::UnexpectedError(e),
            PublishError::Nack(e) => AppError::UnexpectedError(e),
        }
    }
}

impl vstd::std_specs::convert::FromSpecImpl<PublishError> for AppError {
    open spec fn obeys_from_spec() -> bool {
        true
    }

    open spec fn from_spec(e: PublishError) -> AppError {
        match e {
            PublishError::Invalid(e) => AppError::UnexpectedError(e),
            PublishError::Nack(e) => AppError::UnexpectedError(e),
        }
    }
}

impl From<anyhow::Error> for AppError {
    fn from(e: anyhow::Error) -> (r: AppError) {
        AppError::UnexpectedError(e)
    }
}

impl vstd::std_specs::convert::FromSpecImpl<anyhow::Error> for AppError {
    open spec fn obeys_from_spec() -> bool {
        true
    }

    open spec fn from_spec(e: anyhow::Error) -> AppError {
        AppError::UnexpectedError(e)
    }
}

/// An HTTP error answer: its status code and its JSON body.
pub struct ErrorReply {
    pub status: u16,
    pub body: String,
}

/// The message for a missing resource.
pub open spec fn not_available_message(resource: Seq<char>) -> Seq<char> {
    "Resource "@ + resource + " is not available"@
}

/// The JSON body of an error answer: `{"error":<message>}`.
pub open spec fn error_body(message: Seq<char>) -> Seq<char> {
    "{\"error\":"@ + json_string_literal(message) + "}"@
}

/// The message of a missing resource names the resource whole: two resources with the same
/// message are the same resource.
pub proof fn lemma_not_available_message_names_the_resource(resource: Seq<char>, other: Seq<char>)
    requires
        not_available_message(resource) == not_available_message(other),
    ensures
        resource == other,
{
    let head = "Resource "@;
    let tail = " is not available"@;
    let m = not_available_message(resource);
    assert(m.len() == head.len() + resource.len() + tail.len());
    assert(not_available_message(other).len() == head.len() + other.len() + tail.len());
    assert(resource =~= m.subrange(head.len() as int, (head.len() + resource.len()) as int));
    assert(other =~= not_available_message(other).subrange(
        head.len() as int,
        (head.len() + other.len()) as int,
    ));
}

/// An error body gives back its message whole: two messages with the same body are the same
/// message, whatever their length or characters.
pub proof fn lemma_error_body_gives_back_its_message(message: Seq<char>, other: Seq<char>)
    requires
        error_body(message) == error_body(other),
    ensures
        message == other,
{
    let head = "{\"error\":"@;
    let b = error_body(message);
    let c = error_body(other);
    assert(b.subrange(head.len() as int, b.len() as int) =~= json_string_literal(message) + "}"@);
    assert(c.subrange(head.len() as int, c.len() as int) =~= json_string_literal(other) + "}"@);
    lemma_json_string_literal_is_decodable(message, other, "}"@, "}"@);
}

/// Calls the `Debug` formatting of `anyhow::Error`. The text depends on the error's chain of
/// causes and on whether a backtrace was captured, which the process environment decides, so
/// the contract claims nothing of it.
#[verifier::external_body]
fn debug_text(error: &anyhow::Error) -> String {
    format!("{:?}", error)
}

/// Builds the JSON body `{"error":<message>}`.
pub fn error_body_text(message: &str) -> (body: String)
    ensures
        body@ == error_body(message@),
{
    let mut body = String::new();
    body.append("{\"error\":");
    let quoted = json_quote(message);
    body.append(quoted.as_str());
    body.append("}");
    body
}

/// The answer for a missing resource: status 404 and `Resource <resource> is not available`.
pub fn not_available_reply(resource: &str) -> (reply: ErrorReply)
    ensures
        reply.status == 404,
        reply.body@ == error_body(not_available_message(resource@)),
{
    let mut message = String::new();
    message.append("Resource ");
    message.append(resource);
    message.append(" is not available");
    ErrorReply { status: 404, body: error_body_text(message.as_str()) }
}

/// The answer for an unexpected failure whose description is `details`: status 500 and the
/// description as the error message.
pub fn unexpected_reply(details: &str) -> (reply: ErrorReply)
    ensures
        reply.status == 500,
        reply.body@ == error_body(details@),
{
    ErrorReply { status: 500, body: error_body_text(details) }
}

impl AppError {
    /// The HTTP answer for this error: a missing resource answers 404 naming the resource;
    /// any other failure answers 500 with the error's debug description as the message.
    pub fn into_reply(self) -> (reply: ErrorReply)
        ensures
            match self {
                AppError::NotAvailableError(resource) => reply.status == 404 && reply.body@
                    == error_body(not_available_message(resource@)),
                AppError::UnexpectedError(_) => reply.status == 500 && exists|details: Seq<char>|
                    reply.body@ == error_body(details),
            },
    {
        match self {
            AppError::NotAvailableError(resource) => not_available_reply(resource.as_str()),
            AppError::UnexpectedError(e) => {
                let details = debug_text(&e);
                unexpected_reply(details.as_str())
            },
        }
    }
}

} // verus!
