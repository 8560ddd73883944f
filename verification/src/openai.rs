//! The request to the OpenAI image API, its retry policy and the image in its reply.
use vstd::prelude::*;
use base64::Engine;
use crate::text::{decimal, decimal_string, has_prefix, starts_with};

verus! {

#[verifier::external_type_specification]
#[verifier::external_body]
pub struct ExDecodeError(base64::DecodeError);

/// What to ask the image model for.
pub struct GenerationRequest {
    pub model: String,
    pub prompt: String,
    pub seed: Option<u64>,
    pub size: String,
}

/// The JSON body of `POST /v1/images/generations`; an absent
/// `response_format` or `seed` is left out of the JSON.
pub struct OpenAiImageRequest<'a> {
    pub model: &'a str,
    pub prompt: &'a str,
    pub size: &'a str,
    pub response_format: Option<&'a str>,
    pub n: u8,
    pub seed: Option<u64>,
}

/// Whether the model is of the `gpt-image-` family, which always answers in base64.
pub open spec fn is_gpt_image_model(model: Seq<char>) -> bool {
    has_prefix(model, "gpt-image-"@)
}

/// The request body for one image of the requested size; base64 output is
/// asked for explicitly only from models outside the `gpt-image-` family.
pub fn build_image_request(req: &GenerationRequest) -> (body: OpenAiImageRequest<'_>)
    ensures
        body.model@ == req.model@,
        body.prompt@ == req.prompt@,
        body.size@ == req.size@,
        body.n == 1,
        body.seed == req.seed,
        is_gpt_image_model(req.model@) ==> body.response_format is None,
        !is_gpt_image_model(req.model@) ==> (body.response_format matches Some(f) && f@
            == "b64_json"@),
{
    OpenAiImageRequest {
        model: req.model.as_str(),
        prompt: req.prompt.as_str(),
        size: req.size.as_str(),
        response_format: if starts_with(req.model.as_str(), "gpt-image-") {
            None
        } else {
            Some("b64_json")
        },
        n: 1,
        seed: req.seed,
    }
}

/// HTTP statuses worth another try: 429 and the 5xx server errors.
pub open spec fn retryable(status: u16) -> bool {
    status == 429 || 500 <= status <= 599
}

/// HTTP success statuses (2xx).
pub open spec fn succeeded(status: u16) -> bool {
    200 <= status <= 299
}

/// Whether a reply with this status is worth another try.
pub fn should_retry(status: u16) -> (b: bool)
    ensures
        b == retryable(status),
        b <==> (status == 429 || 500 <= status <= 599),
{
    status == 429 || (500 <= status && status <= 599)
}

/// The most requests the client sends for one image.
pub open spec fn max_attempts() -> nat {
    3
}

/// How sending one request ended.
#[derive(Debug, Clone, Copy, PartialEq, Eq, Structural)]
pub enum SendOutcome {
    /// The request could not be sent or no reply came (a transport error).
    SendFailed,
    /// The API replied with this HTTP status.
    Replied(u16),
}

/// What the client does after its `attempt`-th request.
#[derive(Debug, Clone, Copy, PartialEq, Eq, Structural)]
pub enum ResponseAction {
    /// Read the image from the reply.
    ReadImage,
    /// Wait this many milliseconds, then send the request again.
    RetryAfter(u64),
    /// Give up and report the transport error, or the status and body of the reply.
    Fail,
}

/// The action after the `attempt`-th request (counting from 1): a transport
/// error fails at once; a success reads the image; a retryable status before
/// the third attempt waits 500 ms times the attempt number; anything else fails.
pub open spec fn response_action(attempt: nat, outcome: SendOutcome) -> ResponseAction {
    match outcome {
        SendOutcome::SendFailed => ResponseAction::Fail,
        SendOutcome::Replied(status) => if succeeded(status) {
            ResponseAction::ReadImage
        } else if retryable(status) && attempt < max_attempts() {
            ResponseAction::RetryAfter((500 * attempt) as u64)
        } else {
            ResponseAction::Fail
        },
    }
}

/// Decides what to do after the `attempt`-th request.
pub fn next_action(attempt: u32, outcome: SendOutcome) -> (a: ResponseAction)
    ensures
        a == response_action(attempt as nat, outcome),
{
    match outcome {
        SendOutcome::SendFailed => ResponseAction::Fail,
        SendOutcome::Replied(status) => if 200 <= status && status <= 299 {
            ResponseAction::ReadImage
        } else if should_retry(status) && attempt < 3 {
            ResponseAction::RetryAfter(500 * attempt as u64)
        } else {
            ResponseAction::Fail
        },
    }
}

/// Requests sent from the `attempt`-th on, when the requests end in
/// `outcomes` in turn.
pub open spec fn requests_sent(attempt: nat, outcomes: Seq<SendOutcome>) -> nat
    decreases outcomes.len(),
{
    if outcomes.len() == 0 {
        0
    } else {
        match response_action(attempt, outcomes[0]) {
            ResponseAction::RetryAfter(_) => 1 + requests_sent(attempt + 1, outcomes.drop_first()),
            _ => 1,
        }
    }
}

proof fn lemma_requests_bounded(attempt: nat, outcomes: Seq<SendOutcome>)
    requires
        1 <= attempt <= max_attempts(),
    ensures
        requests_sent(attempt, outcomes) <= max_attempts() + 1 - attempt,
    decreases outcomes.len(),
{
    if outcomes.len() > 0 {
        if response_action(attempt, outcomes[0]) is RetryAfter {
            lemma_requests_bounded(attempt + 1, outcomes.drop_first());
        }
    }
}

/// Whatever happens to its requests, the client sends at most three for one
/// image, and waits 500 ms, then 1000 ms, between them.
pub proof fn lemma_at_most_three_attempts(outcomes: Seq<SendOutcome>)
    ensures
        requests_sent(1, outcomes) <= 3,
        forall|attempt: nat, outcome: SendOutcome|
            #[trigger] response_action(attempt, outcome) is RetryAfter ==> attempt
                < max_attempts() && response_action(attempt, outcome)->RetryAfter_0 == 500
                * attempt,
{
    lemma_requests_bounded(1, outcomes);
}

/// The retry policy, status by status: 2xx replies are read; 429 and every
/// 5xx status are retried after 500 ms times the attempt number on the first
/// and second attempts, and fail on the third; any other status, and a
/// transport error, fail at once.
pub proof fn lemma_retry_policy(attempt: nat, status: u16)
    requires
        1 <= attempt <= 3,
    ensures
        200 <= status <= 299 ==> response_action(attempt, SendOutcome::Replied(status))
            == ResponseAction::ReadImage,
        (status == 429 || 500 <= status <= 599) && attempt <= 2 ==> response_action(
            attempt,
            SendOutcome::Replied(status),
        ) == ResponseAction::RetryAfter((500 * attempt) as u64),
        (status == 429 || 500 <= status <= 599) && attempt == 3 ==> response_action(
            attempt,
            SendOutcome::Replied(status),
        ) == ResponseAction::Fail,
        !(200 <= status <= 299) && status != 429 && !(500 <= status <= 599) ==> response_action(
            attempt,
            SendOutcome::Replied(status),
        ) == ResponseAction::Fail,
        response_action(attempt, SendOutcome::SendFailed) == ResponseAction::Fail,
{
}

/// Only a retryable status is retried: a transport error, and a successful
/// reply (whether or not it holds an image), end the exchange with the
/// request that met them.
pub proof fn lemma_only_statuses_are_retried(attempt: nat, outcomes: Seq<SendOutcome>)
    requires
        outcomes.len() > 0,
        outcomes[0] == SendOutcome::SendFailed || (outcomes[0] matches SendOutcome::Replied(s)
            && succeeded(s)),
    ensures
        requests_sent(attempt, outcomes) == 1,
        response_action(attempt, SendOutcome::SendFailed) == ResponseAction::Fail,
{
}

/// One entry of `data` in the reply.
pub struct ImageData {
    pub b64_json: Option<String>,
}

/// The reply of the image API.
pub struct OpenAiImageResponse {
    pub data: Vec<ImageData>,
}

/// Why no image came back.
#[derive(Debug)]
pub enum OpenAiError {
    /// The API answered with an error status.
    Api { status: u16, body: String },
    /// The reply held no base64 image in its first entry.
    MissingImageData,
    /// The base64 payload could not be decoded; holds the decoder's message.
    InvalidBase64(String),
}

/// The text shown for an error.
pub open spec fn openai_error_message(e: OpenAiError) -> Seq<char> {
    match e {
        OpenAiError::Api { status, body } => "OpenAI image API error "@ + decimal(status as nat) + ": "@
            + body@,
        OpenAiError::MissingImageData => "OpenAI image response did not contain b64_json data"@,
        OpenAiError::InvalidBase64(_) => "failed to decode base64 image payload"@,
    }
}

impl OpenAiError {
    /// The text shown for the error.
    pub fn message(&self) -> (m: String)
        ensures
            m@ == openai_error_message(*self),
    {
        match self {
            OpenAiError::Api { status, body } => {
                let code = decimal_string(*status as u64);
                String::from_str("OpenAI image API error ").concat(code.as_str()).concat(
                    ": ",
                ).concat(body.as_str())
            },
            OpenAiError::MissingImageData => String::from_str(
                "OpenAI image response did not contain b64_json data",
            ),
            OpenAiError::InvalidBase64(_) => String::from_str("failed to decode base64 image payload"),
        }
    }
}

/// Calls `Display::fmt` of `base64::DecodeError`; nothing is claimed of the text.
#[verifier::external_body]
fn decode_error_text(e: &base64::DecodeError) -> (t: String) {
    e.to_string()
}

/// The bytes that the standard base64 engine (RFC 4648 alphabet, with
/// padding) of the `base64` crate decodes from `text`, if it accepts it.
pub uninterp spec fn base64_standard_decoded(text: Seq<char>) -> Option<Seq<u8>>;

/// Calls `base64::engine::general_purpose::STANDARD.decode`. The contract
/// names the result: it succeeds exactly when `base64_standard_decoded`
/// gives bytes, and then returns those bytes.
#[verifier::external_body]
fn decode_base64(text: &str) -> (r: Result<Vec<u8>, base64::DecodeError>)
    ensures
        match base64_standard_decoded(text@) {
            Some(bytes) => r matches Ok(v) && v@ == bytes,
            None => r is Err,
        },
{
    base64::engine::general_purpose::STANDARD.decode(text)
}

/// The base64 text of the first entry of the reply, if it has one.
pub open spec fn first_b64(response: OpenAiImageResponse) -> Option<Seq<char>> {
    if response.data@.len() == 0 {
        None
    } else {
        match response.data@[0].b64_json {
            Some(t) => Some(t@),
            None => None,
        }
    }
}

/// The image bytes once the payload has been decoded: an error holds the
/// decoder's message about the invalid base64.
pub fn payload_from_decoded(decoded: Result<Vec<u8>, String>) -> (r: Result<Vec<u8>, OpenAiError>)
    ensures
        match decoded {
            Ok(bytes) => r matches Ok(v) && v@ == bytes@,
            Err(reason) => r matches Err(OpenAiError::InvalidBase64(why)) && why@ == reason@,
        },
{
    match decoded {
        Ok(bytes) => Ok(bytes),
        Err(reason) => Err(OpenAiError::InvalidBase64(reason)),
    }
}

/// The image bytes of the reply: the first entry's base64 payload, decoded.
pub fn image_bytes(response: &OpenAiImageResponse) -> (r: Result<Vec<u8>, OpenAiError>)
    ensures
        match first_b64(*response) {
            None => r matches Err(OpenAiError::MissingImageData),
            Some(text) => match base64_standard_decoded(text) {
                Some(bytes) => r matches Ok(v) && v@ == bytes,
                None => r matches Err(OpenAiError::InvalidBase64(_)),
            },
        },
{
    if response.data.len() == 0 {
        return Err(OpenAiError::MissingImageData);
    }
    match &response.data[0].b64_json {
        None => Err(OpenAiError::MissingImageData),
        Some(text) => {
            let decoded = match decode_base64(text.as_str()) {
                Ok(bytes) => Ok(bytes),
                Err(e) => Err(decode_error_text(&e)),
            };
            payload_from_decoded(decoded)
        },
    }
}

} // verus!
