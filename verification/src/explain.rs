//! The explanation client: how a request to the local language-model
//! service is built, and how its HTTP outcome becomes explanation text or
//! a failure.
//!
//! The HTTP transport itself belongs to the embedding application; this
//! module fixes the endpoint, the prompt, the request body, and the
//! interpretation of whatever came back.

use vstd::prelude::*;

use crate::jsontext::escape_into;
use crate::jsontext::escaped;

verus! {

/// Why an explanation failed.
#[derive(Clone, Copy, Debug, PartialEq, Eq, Structural)]
pub enum ExplainError {
    /// The service could not be reached at all — the common case when the
    /// local model service is not running.
    ConnectionFailed,
    /// The service answered with the carried non-success HTTP status.
    ServiceError(u16),
    /// The service answered, but its response body could not be read as
    /// text.
    ResponseDecodeFailed,
}

/// The well-known local endpoint the explanation request is posted to.
pub fn endpoint_url() -> (r: &'static str)
    ensures
        r@ == "http://127.0.0.1:11434/v1/complete"@,
{
    "http://127.0.0.1:11434/v1/complete"
}

/// The instructional preamble placed before the OCR text.
pub open spec fn prompt_preamble() -> Seq<char> {
    "You are an assistant. Explain the following screenshot text in a concise, user-friendly way:\n\n"@
}

/// The full prompt for automatic explanation of `ocr_text`.
pub open spec fn explain_prompt(ocr_text: Seq<char>) -> Seq<char> {
    prompt_preamble() + ocr_text
}

/// The prompt the service is asked with: the fixed preamble, then the OCR
/// text.
pub fn build_prompt(ocr_text: &str) -> (r: String)
    ensures
        r@ == explain_prompt(ocr_text@),
{
    let mut r = String::from_str(
        "You are an assistant. Explain the following screenshot text in a concise, user-friendly way:\n\n",
    );
    r.append(ocr_text);
    r
}

/// OCR text with a user's prompt appended as additional context.
pub open spec fn combined_with_user_prompt(ocr_text: Seq<char>, user_prompt: Seq<char>) -> Seq<
    char,
> {
    ocr_text + "\n\nUser prompt: "@ + user_prompt
}

/// The text sent for explanation when the user supplied a prompt of their
/// own: the OCR text with the prompt appended as additional context.
pub fn combine_with_user_prompt(ocr_text: &str, user_prompt: &str) -> (r: String)
    ensures
        r@ == combined_with_user_prompt(ocr_text@, user_prompt@),
{
    let mut r = String::from_str(ocr_text);
    r.append("\n\nUser prompt: ");
    r.append(user_prompt);
    r
}

/// The JSON request body for a prompt: the fixed model name, the escaped
/// prompt, and the fixed generation-length cap.
pub open spec fn explanation_request_body(prompt: Seq<char>) -> Seq<char> {
    "{\"model\":\"llama2\",\"prompt\":\""@ + escaped(prompt) + "\",\"max_tokens\":512}"@
}

/// Builds the JSON body posted to the explanation service.
pub fn request_body(prompt: &str) -> (r: String)
    ensures
        r@ == explanation_request_body(prompt@),
{
    let mut r = String::from_str("{\"model\":\"llama2\",\"prompt\":\"");
    escape_into(&mut r, prompt);
    r.append("\",\"max_tokens\":512}");
    r
}

/// What the application observed of one HTTP exchange with the service:
/// nothing at all (unreachable), or a status and, when it could be read as
/// text, the response body.
pub enum HttpOutcome {
    NoResponse,
    Response { status: u16, body: Option<String> },
}

/// The mathematical value of an [`HttpOutcome`].
pub enum HttpOutcomeView {
    NoResponse,
    Response { status: u16, body: Option<Seq<char>> },
}

impl View for HttpOutcome {
    type V = HttpOutcomeView;

    open spec fn view(&self) -> HttpOutcomeView {
        match self {
            HttpOutcome::NoResponse => HttpOutcomeView::NoResponse,
            HttpOutcome::Response { status, body } => HttpOutcomeView::Response {
                status: *status,
                body: match body {
                    Some(t) => Some(t@),
                    None => None,
                },
            },
        }
    }
}

/// An HTTP status that counts as success.
pub open spec fn success_status(status: u16) -> bool {
    200 <= status < 300
}

/// The explanation one exchange produced, or why it failed: no response at
/// all is `ConnectionFailed`; a non-success status is `ServiceError`
/// carrying that status; a success status whose body could not be read is
/// `ResponseDecodeFailed`; otherwise the body text is the explanation,
/// treated as opaque text.
pub fn conclude_explanation(outcome: &HttpOutcome) -> (r: Result<String, ExplainError>)
    ensures
        outcome@ is NoResponse ==> r == Err::<String, ExplainError>(ExplainError::ConnectionFailed),
        (outcome@ is Response && !success_status(outcome@->Response_status)) ==> r == Err::<
            String,
            ExplainError,
        >(ExplainError::ServiceError(outcome@->Response_status)),
        (outcome@ is Response && success_status(outcome@->Response_status) && outcome@->Response_body
            is None) ==> r == Err::<String, ExplainError>(ExplainError::ResponseDecodeFailed),
        r is Ok <==> (outcome@ is Response && success_status(outcome@->Response_status)
            && outcome@->Response_body is Some),
        r matches Ok(t) ==> t@ == outcome@->Response_body->0,
{
    match outcome {
        HttpOutcome::NoResponse => Err(ExplainError::ConnectionFailed),
        HttpOutcome::Response { status, body } => {
            if !(200 <= *status && *status < 300) {
                Err(ExplainError::ServiceError(*status))
            } else {
                match body {
                    None => Err(ExplainError::ResponseDecodeFailed),
                    Some(t) => Ok(t.clone()),
                }
            }
        },
    }
}

} // verus!
