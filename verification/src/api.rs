//! The client side of the generation service: which requests go out, and
//! what an answer comes to.
//!
//! Nothing here touches the network. The requests are described, for the
//! caller to send; the answers are taken as the caller got them.

use crate::error::{result_view, GenerationError, GenerationErrorView, HealthError, HealthErrorView};
use crate::json::{json_string, json_text_member, lookup_view, quote, text_member};
use crate::status::{is_success, success};
use crate::text::{decimal, decimal_digits, text_of};
use vstd::prelude::*;
use vstd::string::*;

verus! {

/// How the liveness probe went.
#[derive(Debug, PartialEq, Eq)]
pub enum ProbeOutcome {
    /// The service answered with this status.
    Status(u16),
    /// No answer came, with the transport's cause.
    Unreachable(String),
}

/// The view of [`ProbeOutcome`]: the same value with every text as a sequence of
/// characters.
pub enum ProbeOutcomeView {
    Status(u16),
    Unreachable(Seq<char>),
}

impl View for ProbeOutcome {
    type V = ProbeOutcomeView;

    open spec fn view(&self) -> ProbeOutcomeView {
        match self {
            ProbeOutcome::Status(code) => ProbeOutcomeView::Status(*code),
            ProbeOutcome::Unreachable(cause) => ProbeOutcomeView::Unreachable(cause@),
        }
    }
}

/// How the generation request went.
#[derive(Debug, PartialEq, Eq)]
pub enum ReplyOutcome {
    /// The request did not get through, with the transport's cause.
    SendFailed(String),
    /// An answer began, but its body could not be read to the end.
    BodyUnreadable(String),
    /// The body of the answer.
    Body(Vec<u8>),
}

/// The view of [`ReplyOutcome`]: the same value with every text as a sequence of
/// characters and the body as a sequence of bytes.
pub enum ReplyOutcomeView {
    SendFailed(Seq<char>),
    BodyUnreadable(Seq<char>),
    Body(Seq<u8>),
}

impl View for ReplyOutcome {
    type V = ReplyOutcomeView;

    open spec fn view(&self) -> ReplyOutcomeView {
        match self {
            ReplyOutcome::SendFailed(cause) => ReplyOutcomeView::SendFailed(cause@),
            ReplyOutcome::BodyUnreadable(cause) => ReplyOutcomeView::BodyUnreadable(cause@),
            ReplyOutcome::Body(body) => ReplyOutcomeView::Body(body@),
        }
    }
}

/// A `POST` of a JSON body, for the caller to send.
#[derive(Debug, PartialEq, Eq)]
pub struct HttpPost {
    pub url: String,
    /// The media type that the body is announced as.
    pub content_type: String,
    pub body: String,
}

/// The view of [`HttpPost`]: the same value with every text as a sequence of
/// characters.
pub struct HttpPostView {
    pub url: Seq<char>,
    pub content_type: Seq<char>,
    pub body: Seq<char>,
}

impl View for HttpPost {
    type V = HttpPostView;

    open spec fn view(&self) -> HttpPostView {
        HttpPostView { url: self.url@, content_type: self.content_type@, body: self.body@ }
    }
}

/// The text that stands in for a generation that came without one.
pub open spec fn no_response() -> Seq<char> {
    "No response"@
}

/// The key under which the service hands back the generated text.
pub open spec fn response_key() -> Seq<char> {
    "response"@
}

/// The media type of JSON.
pub open spec fn json_media_type() -> Seq<char> {
    "application/json"@
}

/// Where the liveness probe goes.
pub open spec fn health_url_of(base_url: Seq<char>) -> Seq<char> {
    base_url + "/health"@
}

/// Where generation requests go.
pub open spec fn generate_url_of(base_url: Seq<char>) -> Seq<char> {
    base_url + "/generate"@
}

/// The body of a generation request: a JSON object of the prompt and the
/// bound on the length of the output.
pub open spec fn request_body(prompt: Seq<char>, max_length: u32) -> Seq<char> {
    "{\"prompt\":"@ + json_string(prompt) + ",\"max_length\":"@ + decimal_digits(
        max_length as nat,
    ) + "}"@
}

/// The generation request for `prompt`, as it goes to the service at
/// `base_url`.
pub open spec fn generation_post(base_url: Seq<char>, prompt: Seq<char>, max_length: u32)
    -> HttpPostView {
    HttpPostView {
        url: generate_url_of(base_url),
        content_type: json_media_type(),
        body: request_body(prompt, max_length),
    }
}

/// What the probe comes to: the service is healthy exactly where it answered
/// with a status of the success class.
pub open spec fn probed(outcome: ProbeOutcomeView) -> Result<(), HealthErrorView> {
    match outcome {
        ProbeOutcomeView::Status(code) => if is_success(code) {
            Ok(())
        } else {
            Err(HealthErrorView::Status(code))
        },
        ProbeOutcomeView::Unreachable(cause) => Err(HealthErrorView::Transport(cause)),
    }
}

/// The generated text in what was found under the response key: the text
/// itself, or the stand-in where the document holds no text there.
pub open spec fn text_or_stand_in(found: Option<Seq<char>>) -> Seq<char> {
    match found {
        Some(text) => text,
        None => no_response(),
    }
}

/// What a look into the body comes to: a document always gives a text, and
/// only a body that is no document is a failure.
pub open spec fn read_reply(found: Result<Option<Seq<char>>, Seq<char>>) -> Result<
    Seq<char>,
    GenerationErrorView,
> {
    match found {
        Ok(member) => Ok(text_or_stand_in(member)),
        Err(cause) => Err(GenerationErrorView::Parse(cause)),
    }
}

/// What a generation request comes to.
pub open spec fn generated(outcome: ReplyOutcomeView) -> Result<Seq<char>, GenerationErrorView> {
    match outcome {
        ReplyOutcomeView::SendFailed(cause) => Err(GenerationErrorView::Transport(cause)),
        ReplyOutcomeView::BodyUnreadable(cause) => Err(GenerationErrorView::Parse(cause)),
        ReplyOutcomeView::Body(body) => read_reply(json_text_member(body, response_key())),
    }
}

/// The address of the liveness probe, a `GET`, of the service at `base_url`.
pub fn health_url(base_url: &str) -> (url: String)
    ensures
        url@ == health_url_of(base_url@),
{
    String::from_str(base_url).concat("/health")
}

/// Settles the liveness probe. A single attempt: nothing is tried again, and
/// nothing else is set off.
pub fn check_health(outcome: ProbeOutcome) -> (result: Result<(), HealthError>)
    ensures
        result_view(result) == probed(outcome@),
{
    match outcome {
        ProbeOutcome::Status(code) => if success(code) {
            Ok(())
        } else {
            Err(HealthError::Status(code))
        },
        ProbeOutcome::Unreachable(cause) => Err(HealthError::Transport(cause)),
    }
}

/// Describes the generation request for `prompt`, with `max_length` bounding
/// the size of the output.
pub fn generate_request(base_url: &str, prompt: &str, max_length: u32) -> (post: HttpPost)
    ensures
        post@ == generation_post(base_url@, prompt@, max_length),
{
    let url = String::from_str(base_url).concat("/generate");
    let body = String::from_str("{\"prompt\":").concat(quote(prompt).as_str()).concat(
        ",\"max_length\":",
    ).concat(decimal(max_length).as_str()).concat("}");
    HttpPost { url, content_type: String::from_str("application/json"), body }
}

/// Picks the generated text out of what was found under the response key.
pub fn response_text(found: Option<String>) -> (text: String)
    ensures
        text@ == text_or_stand_in(text_of(found)),
{
    match found {
        Some(member) => member,
        None => String::from_str("No response"),
    }
}

/// Settles a look into the body of an answer.
pub fn reply_text(found: Result<Option<String>, String>) -> (result: Result<
    String,
    GenerationError,
>)
    ensures
        result_view(result) == read_reply(lookup_view(found)),
{
    match found {
        Ok(member) => Ok(response_text(member)),
        Err(cause) => Err(GenerationError::Parse(cause)),
    }
}

/// Settles a generation request: the generated text, or why there is none.
///
/// A body that is a JSON document always gives a text, the stand-in where the
/// document holds none under the response key.
pub fn generate_text(outcome: ReplyOutcome) -> (result: Result<String, GenerationError>)
    ensures
        result_view(result) == generated(outcome@),
{
    match outcome {
        ReplyOutcome::SendFailed(cause) => Err(GenerationError::Transport(cause)),
        ReplyOutcome::BodyUnreadable(cause) => Err(GenerationError::Parse(cause)),
        ReplyOutcome::Body(body) => reply_text(text_member(body.as_slice(), "response")),
    }
}

} // verus!
